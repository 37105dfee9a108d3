//! Walking a listing page by page.
//!
//! The walk sends nothing itself: it names the next request, takes the page
//! that the caller brings back, and keeps the keys in the order they came.

use vstd::prelude::*;
use crate::store::limit::ListLimit;
use crate::store::list::ListArg;
use crate::store::list::ListArgView;
use crate::store::list::ListItem;
use crate::store::list::ListPage;
use crate::store::list::ListRet;

verus! {

/// A listing under way.
#[derive(Debug)]
pub struct ListWalk {
    prefix: String,
    limit: ListLimit,
    token: Option<String>,
    items: Vec<ListItem>,
    finished: bool,
}

/// A listing under way as plain values.
pub struct WalkView {
    /// What the keys start with.
    pub prefix: Seq<char>,
    /// The page size asked for.
    pub limit: nat,
    /// The token of the last page taken, if it named one.
    pub token: Option<Seq<char>>,
    /// The keys taken so far.
    pub items: Seq<ListItem>,
    /// Whether the last page has been taken.
    pub finished: bool,
}

impl WalkView {
    /// The walk before its first page.
    pub open spec fn start(prefix: Seq<char>, limit: nat) -> WalkView {
        WalkView { prefix, limit, token: None, items: Seq::empty(), finished: false }
    }

    /// The walk after it has taken `page`. A finished walk takes no more.
    pub open spec fn take(self, page: ListPage) -> WalkView {
        if self.finished {
            self
        } else {
            match page {
                ListPage::Finished(items) => WalkView {
                    items: self.items + items,
                    finished: true,
                    ..self
                },
                ListPage::Continuing(token, items) => WalkView {
                    items: self.items + items,
                    token: Some(token),
                    ..self
                },
            }
        }
    }

    /// The walk after it has taken `pages` one after the other.
    pub open spec fn take_all(self, pages: Seq<ListPage>) -> WalkView
        decreases pages.len(),
    {
        if pages.len() == 0 {
            self
        } else {
            self.take_all(pages.drop_last()).take(pages.last())
        }
    }

    /// The request to send next, if the walk is not finished: for the same
    /// prefix and page size, with the token of the last page.
    pub open spec fn next_request(self) -> Option<ListArgView> {
        if self.finished {
            None
        } else {
            Some(
                ListArgView {
                    prefix: Some(self.prefix),
                    max_keys: Some(self.limit as int),
                    continuation_token: self.token,
                },
            )
        }
    }
}

/// The keys of `pages`, page after page.
pub open spec fn all_items(pages: Seq<ListPage>) -> Seq<ListItem>
    decreases pages.len(),
{
    if pages.len() == 0 {
        Seq::empty()
    } else {
        all_items(pages.drop_last()) + pages.last().items()
    }
}

/// Whether `pages` is what a listing yields: pages that go on, then one that
/// ends it.
pub open spec fn is_listing(pages: Seq<ListPage>) -> bool {
    &&& pages.len() > 0
    &&& pages.last() is Finished
    &&& forall|i: int| 0 <= i < pages.len() - 1 ==> #[trigger] pages[i] is Continuing
}

impl View for ListWalk {
    type V = WalkView;

    closed spec fn view(&self) -> WalkView {
        WalkView {
            prefix: self.prefix@,
            limit: self.limit.value(),
            token: crate::store::list::opt_text(self.token),
            items: self.items@,
            finished: self.finished,
        }
    }
}

impl ListWalk {
    /// Starts a walk over the keys under `prefix`, in pages of at most
    /// `limit` keys.
    pub fn new(prefix: &str, limit: ListLimit) -> (walk: ListWalk)
        ensures
            walk@ == WalkView::start(prefix@, limit.value()),
    {
        ListWalk {
            prefix: prefix.to_owned(),
            limit,
            token: None,
            items: Vec::new(),
            finished: false,
        }
    }

    /// The request to send next; `None` once the last page has been taken.
    pub fn next_request(&self) -> (request: Option<ListArg>)
        ensures
            request is Some <==> !self@.finished,
            match request {
                Some(arg) => Some(arg@) == self@.next_request(),
                None => self@.next_request() is None,
            },
    {
        if self.finished {
            return None;
        }
        let arg = ListArg::new().prefix(self.prefix.as_str()).limit(self.limit);
        match &self.token {
            Some(token) => Some(arg.continuation_token(token.as_str())),
            None => Some(arg),
        }
    }

    /// Takes the page that answered the last request: its keys follow those
    /// taken before, and it says whether another request is due.
    pub fn take(&mut self, page: ListRet)
        ensures
            final(self)@ == old(self)@.take(page@),
    {
        if self.finished {
            return ;
        }
        match page {
            ListRet::ToBeContinue(token, mut items) => {
                self.items.append(&mut items);
                self.token = Some(token);
            },
            ListRet::Finished(found) => {
                if let Some(mut items) = found {
                    self.items.append(&mut items);
                }
                self.finished = true;
                assert(self.items@ =~= old(self).items@ + page@.items());
            },
        }
    }

    /// Whether the last page has been taken.
    pub fn is_finished(&self) -> (b: bool)
        ensures
            b == self@.finished,
    {
        self.finished
    }

    /// The keys taken, in the order of the pages and within each page.
    pub fn into_items(self) -> (items: Vec<ListItem>)
        ensures
            items@ == self@.items,
    {
        self.items
    }
}

/// A walk that is not finished stays so while it takes pages that go on,
/// holds their keys in order, and asks next with the token of the last one.
pub proof fn lemma_walk_goes_on(walk: WalkView, pages: Seq<ListPage>)
    requires
        !walk.finished,
        forall|i: int| 0 <= i < pages.len() ==> #[trigger] pages[i] is Continuing,
    ensures
        !walk.take_all(pages).finished,
        walk.take_all(pages).items == walk.items + all_items(pages),
        walk.take_all(pages).prefix == walk.prefix,
        walk.take_all(pages).limit == walk.limit,
        pages.len() > 0 ==> walk.take_all(pages).token == Some(pages.last()->Continuing_0),
        pages.len() == 0 ==> walk.take_all(pages).token == walk.token,
    decreases pages.len(),
{
    if pages.len() > 0 {
        let front = pages.drop_last();
        assert forall|i: int| 0 <= i < front.len() implies #[trigger] front[i] is Continuing by {
            assert(front[i] == pages[i]);
        }
        lemma_walk_goes_on(walk, front);
        assert(walk.take_all(pages).items =~= walk.items + all_items(pages));
    } else {
        assert(walk.take_all(pages).items =~= walk.items + all_items(pages));
    }
}

/// To follow the tokens of a listing drains it: once every page is taken the
/// walk is finished and holds exactly the keys of all pages, page after
/// page.
pub proof fn lemma_walk_drains(walk: WalkView, pages: Seq<ListPage>)
    requires
        !walk.finished,
        is_listing(pages),
    ensures
        walk.take_all(pages).finished,
        walk.take_all(pages).next_request() is None,
        walk.take_all(pages).items == walk.items + all_items(pages),
{
    let front = pages.drop_last();
    assert forall|i: int| 0 <= i < front.len() implies #[trigger] front[i] is Continuing by {
        assert(front[i] == pages[i]);
    }
    lemma_walk_goes_on(walk, front);
    assert(walk.take_all(pages).items =~= walk.items + all_items(pages));
}

/// Before the last page of a listing is taken the walk asks on, and with the
/// token of the page it took last.
pub proof fn lemma_walk_follows_tokens(walk: WalkView, pages: Seq<ListPage>, taken: int)
    requires
        !walk.finished,
        is_listing(pages),
        0 < taken < pages.len(),
    ensures
        walk.take_all(pages.take(taken)).next_request() == Some(
            ListArgView {
                prefix: Some(walk.prefix),
                max_keys: Some(walk.limit as int),
                continuation_token: Some(pages[taken - 1]->Continuing_0),
            },
        ),
{
    let front = pages.take(taken);
    assert forall|i: int| 0 <= i < front.len() implies #[trigger] front[i] is Continuing by {
        assert(front[i] == pages[i]);
    }
    lemma_walk_goes_on(walk, front);
}

} // verus!
