//! Listing requests.

use vstd::prelude::*;
use crate::store::bucket::S3Bucket;
use crate::store::error::StoreError;
use crate::store::error::StoreFailure;
use crate::store::limit::accepted;
use crate::store::limit::ListLimit;
use crate::store::time::parse_rfc3339;
use crate::store::time::read_as;
use crate::store::time::rfc3339_instant;
use crate::store::time::Timestamp;

verus! {

/// What a listing request asks for.
#[derive(Clone, Debug, PartialEq, Eq)]
pub struct ListArg {
    continuation_token: Option<String>,
    prefix: Option<String>,
    max_keys: Option<i64>,
}

/// A listing request as plain values.
pub struct ListArgView {
    /// Where to go on, as the last page said.
    pub continuation_token: Option<Seq<char>>,
    /// What the keys start with.
    pub prefix: Option<Seq<char>>,
    /// The most keys to return.
    pub max_keys: Option<int>,
}

/// The text of a string that may be missing.
pub open spec fn opt_text(s: Option<String>) -> Option<Seq<char>> {
    match s {
        Some(s) => Some(s@),
        None => None,
    }
}

impl View for ListArg {
    type V = ListArgView;

    closed spec fn view(&self) -> ListArgView {
        ListArgView {
            continuation_token: opt_text(self.continuation_token),
            prefix: opt_text(self.prefix),
            max_keys: match self.max_keys {
                Some(n) => Some(n as int),
                None => None,
            },
        }
    }
}

impl ListArgView {
    /// The request that asks for everything, from the start.
    pub open spec fn empty() -> ListArgView {
        ListArgView { continuation_token: None, prefix: None, max_keys: None }
    }
}

impl Default for ListArg {
    fn default() -> (arg: ListArg)
        ensures
            arg@ == ListArgView::empty(),
    {
        ListArg { continuation_token: None, prefix: None, max_keys: None }
    }
}

impl ListArg {
    /// A request for every key, from the start, with the store's page size.
    pub fn new() -> (arg: ListArg)
        ensures
            arg@ == ListArgView::empty(),
    {
        ListArg { continuation_token: None, prefix: None, max_keys: None }
    }

    /// A fresh request for the keys under `s`: token and page size are
    /// dropped.
    pub fn prefix(self, s: &str) -> (arg: ListArg)
        ensures
            arg@ == (ListArgView { continuation_token: None, prefix: Some(s@), max_keys: None }),
    {
        ListArg { prefix: Some(s.to_owned()), continuation_token: None, max_keys: None }
    }

    /// The same request, going on where the token `s` says.
    pub fn continuation_token(self, s: &str) -> (arg: ListArg)
        ensures
            arg@ == (ListArgView { continuation_token: Some(s@), ..self@ }),
    {
        ListArg {
            prefix: self.prefix,
            continuation_token: Some(s.to_owned()),
            max_keys: self.max_keys,
        }
    }

    /// The same request, with pages of at most `limit` keys.
    pub fn limit(self, limit: ListLimit) -> (arg: ListArg)
        ensures
            arg@ == (ListArgView { max_keys: Some(limit.value() as int), ..self@ }),
            accepted(limit.value()),
    {
        let u = limit.get();
        ListArg {
            prefix: self.prefix,
            continuation_token: self.continuation_token,
            max_keys: Some(u as i64),
        }
    }

    /// What the keys are to start with.
    pub fn get_prefix(&self) -> (prefix: Option<&String>)
        ensures
            opt_ref_text(prefix) == self@.prefix,
    {
        self.prefix.as_ref()
    }

    /// Where the listing goes on.
    pub fn get_continuation_token(&self) -> (token: Option<&String>)
        ensures
            opt_ref_text(token) == self@.continuation_token,
    {
        self.continuation_token.as_ref()
    }

    /// The most keys to return.
    pub fn get_max_keys(&self) -> (max_keys: Option<i64>)
        ensures
            max_keys is Some <==> self@.max_keys is Some,
            max_keys matches Some(n) ==> self@.max_keys == Some(n as int),
    {
        self.max_keys
    }
}

/// The text of a borrowed string that may be missing.
pub open spec fn opt_ref_text(s: Option<&String>) -> Option<Seq<char>> {
    match s {
        Some(s) => Some(s@),
        None => None,
    }
}

/// One key of a page as the store answers it.
#[derive(Clone, Debug, PartialEq, Eq)]
pub struct ListEntry {
    pub key: Option<String>,
    /// When the object was last written, as an RFC 3339 timestamp.
    pub last_modified: Option<String>,
    pub size: Option<i64>,
    pub storage_class: Option<String>,
}

/// One page of keys as the store answers it.
#[derive(Clone, Debug, PartialEq, Eq)]
pub struct ListReply {
    pub contents: Option<Vec<ListEntry>>,
    /// Whether more keys follow.
    pub is_truncated: Option<bool>,
    /// Where the next page starts.
    pub next_continuation_token: Option<String>,
}

/// One key of a page.
#[derive(Clone, Debug, PartialEq, Eq)]
pub struct ListItem {
    pub key: Option<String>,
    pub last_modified: Option<Timestamp>,
    pub size: Option<i64>,
    pub storage_class: Option<String>,
}

/// One page of a listing.
#[derive(Debug, PartialEq, Eq)]
pub enum ListRet {
    /// The last page: its keys, `None` where it has none.
    Finished(Option<Vec<ListItem>>),
    /// A page that another follows: the token that asks for the next one,
    /// and its keys.
    ToBeContinue(String, Vec<ListItem>),
}

/// One page of a listing as plain values.
pub enum ListPage {
    /// The last page, with its keys.
    Finished(Seq<ListItem>),
    /// A page that another follows, with the token for the next one and its
    /// keys.
    Continuing(Seq<char>, Seq<ListItem>),
}

impl ListPage {
    /// The keys of the page.
    pub open spec fn items(self) -> Seq<ListItem> {
        match self {
            ListPage::Finished(items) => items,
            ListPage::Continuing(_, items) => items,
        }
    }
}

impl View for ListRet {
    type V = ListPage;

    open spec fn view(&self) -> ListPage {
        match *self {
            ListRet::Finished(None) => ListPage::Finished(Seq::empty()),
            ListRet::Finished(Some(items)) => ListPage::Finished(items@),
            ListRet::ToBeContinue(token, items) => ListPage::Continuing(token@, items@),
        }
    }
}

/// What one key of a page amounts to, or the error of a timestamp that
/// cannot be read.
pub open spec fn item_of(entry: ListEntry) -> Result<ListItem, StoreError> {
    match entry.last_modified {
        None => Ok(
            ListItem {
                key: entry.key,
                last_modified: None,
                size: entry.size,
                storage_class: entry.storage_class,
            },
        ),
        Some(text) => match read_as(text, rfc3339_instant(text@)) {
            Ok(instant) => Ok(
                ListItem {
                    key: entry.key,
                    last_modified: Some(instant),
                    size: entry.size,
                    storage_class: entry.storage_class,
                },
            ),
            Err(e) => Err(e),
        },
    }
}

/// What the keys of a page amount to, in their order, or the error of the
/// first whose timestamp cannot be read.
pub open spec fn items_of(entries: Seq<ListEntry>) -> Result<Seq<ListItem>, StoreError>
    decreases entries.len(),
{
    if entries.len() == 0 {
        Ok(Seq::empty())
    } else {
        match items_of(entries.drop_last()) {
            Err(e) => Err(e),
            Ok(items) => match item_of(entries.last()) {
                Ok(item) => Ok(items.push(item)),
                Err(e) => Err(e),
            },
        }
    }
}

/// Whether the answer names a page to follow.
pub open spec fn goes_on(reply: ListReply) -> bool {
    reply.is_truncated == Some(true) && reply.next_continuation_token is Some
}

/// What the answer to a listing request means: the failure as the error;
/// else the keys of the page, with the token where the store has more, or
/// the error of a timestamp that cannot be read. An answer without keys ends
/// the listing.
pub open spec fn list_outcome(reply: Result<ListReply, StoreFailure>) -> Result<
    ListPage,
    StoreError,
> {
    match reply {
        Err(failure) => Err(failure.as_error()),
        Ok(page) => match page.contents {
            None => Ok(ListPage::Finished(Seq::empty())),
            Some(entries) => match items_of(entries@) {
                Err(e) => Err(e),
                Ok(items) => if goes_on(page) {
                    Ok(ListPage::Continuing(page.next_continuation_token->0@, items))
                } else {
                    Ok(ListPage::Finished(items))
                },
            },
        },
    }
}

/// An error among the first keys is the error of the whole page.
proof fn lemma_error_stays(entries: Seq<ListEntry>, k: int)
    requires
        0 <= k <= entries.len(),
        items_of(entries.take(k)) is Err,
    ensures
        items_of(entries) == items_of(entries.take(k)),
    decreases entries.len() - k,
{
    if k < entries.len() {
        assert(entries.take(k + 1).drop_last() =~= entries.take(k));
        lemma_error_stays(entries, k + 1);
    } else {
        assert(entries.take(k) =~= entries);
    }
}

/// Reads one key of a page.
fn read_entry(entry: ListEntry) -> (r: Result<ListItem, StoreError>)
    ensures
        r == item_of(entry),
{
    let last_modified = match &entry.last_modified {
        None => None,
        Some(text) => match parse_rfc3339(text) {
            Ok(instant) => Some(instant),
            Err(e) => {
                return Err(e);
            },
        },
    };
    Ok(
        ListItem {
            key: entry.key,
            size: entry.size,
            storage_class: entry.storage_class,
            last_modified,
        },
    )
}

impl S3Bucket {
    /// Interprets the answer to a request for one page of keys. The caller
    /// follows the token of a page that goes on; nothing here asks again.
    #[verifier::loop_isolation(false)]
    pub fn list(&self, reply: Result<ListReply, StoreFailure>) -> (r: Result<ListRet, StoreError>)
        ensures
            r is Ok <==> list_outcome(reply) is Ok,
            r matches Ok(page) ==> Ok::<ListPage, StoreError>(page@) == list_outcome(reply),
            r matches Ok(ListRet::Finished(Some(items))) ==> items.len() > 0,
            r matches Err(e) ==> Err::<ListPage, StoreError>(e) == list_outcome(reply),
    {
        let page = match reply {
            Ok(page) => page,
            Err(failure) => {
                return Err(failure.into_error());
            },
        };
        let ListReply { contents, is_truncated, next_continuation_token } = page;
        let entries = match contents {
            Some(entries) => entries,
            None => {
                return Ok(ListRet::Finished(None));
            },
        };
        let ghost all = entries@;
        let mut items: Vec<ListItem> = Vec::new();
        let mut i: usize = 0;
        while i < entries.len()
            invariant
                i <= entries.len(),
                all == entries@,
                items_of(all.take(i as int)) == Ok::<Seq<ListItem>, StoreError>(items@),
            decreases entries.len() - i,
        {
            proof {
                assert(all.take(i + 1).drop_last() =~= all.take(i as int));
            }
            match read_entry(entries[i].clone_entry()) {
                Ok(item) => {
                    items.push(item);
                },
                Err(e) => {
                    proof {
                        lemma_error_stays(all, i + 1);
                    }
                    return Err(e);
                },
            }
            i += 1;
        }
        proof {
            assert(all.take(i as int) =~= all);
        }
        match (is_truncated, next_continuation_token) {
            (Some(true), Some(token)) => Ok(ListRet::ToBeContinue(token, items)),
            _ => if items.len() > 0 {
                Ok(ListRet::Finished(Some(items)))
            } else {
                Ok(ListRet::Finished(None))
            },
        }
    }
}

impl ListEntry {
    /// A copy of the entry.
    fn clone_entry(&self) -> (copy: ListEntry)
        ensures
            copy == *self,
    {
        ListEntry {
            key: copy_opt(&self.key),
            last_modified: copy_opt(&self.last_modified),
            size: self.size,
            storage_class: copy_opt(&self.storage_class),
        }
    }
}

/// A copy of a string that may be missing.
fn copy_opt(s: &Option<String>) -> (copy: Option<String>)
    ensures
        copy == *s,
{
    match s {
        Some(s) => Some(s.clone()),
        None => None,
    }
}

} // verus!
