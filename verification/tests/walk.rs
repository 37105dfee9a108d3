use couchdb_backup::store::bucket::S3Bucket;
use couchdb_backup::store::bucket::S3BucketBuilder;
use couchdb_backup::store::bucket::StaticProvider;
use couchdb_backup::store::limit::ListLimit;
use couchdb_backup::store::list::ListArg;
use couchdb_backup::store::list::ListEntry;
use couchdb_backup::store::list::ListItem;
use couchdb_backup::store::list::ListReply;
use couchdb_backup::store::list::ListRet;
use couchdb_backup::store::walk::ListWalk;

fn limit(n: u16) -> ListLimit {
    match ListLimit::try_from(n) {
        Ok(limit) => limit,
        Err(_) => panic!("a limit"),
    }
}

fn bucket() -> S3Bucket {
    let keys = StaticProvider { access_key: "k".to_string(), secret_access_key: "s".to_string() };
    match S3BucketBuilder::new("b".to_string()).provider(keys).build(None, None) {
        Ok(bucket) => bucket,
        Err(_) => panic!("a bucket"),
    }
}

fn named(key: String) -> ListItem {
    ListItem { key: Some(key), last_modified: None, size: None, storage_class: None }
}

/// A store of `pages` pages of `per_page` keys: answers a request by its
/// token, which is the number of the page.
fn answer(pages: usize, per_page: usize, arg: &ListArg) -> ListReply {
    let page = match arg.get_continuation_token() {
        None => 0,
        Some(token) => match token.parse::<usize>() {
            Ok(n) => n,
            Err(_) => panic!("a token of this store"),
        },
    };
    let contents = (0..per_page)
        .map(|i| ListEntry {
            key: Some(format!("page{page}/key{i}")),
            last_modified: None,
            size: None,
            storage_class: None,
        })
        .collect();
    let last = page + 1 >= pages;
    ListReply {
        contents: Some(contents),
        is_truncated: Some(!last),
        next_continuation_token: if last { None } else { Some((page + 1).to_string()) },
    }
}

fn drain(pages: usize, per_page: usize) -> (usize, Vec<ListItem>) {
    let b = bucket();
    let mut walk = ListWalk::new("page", limit(per_page as u16));
    let mut requests = 0;
    while let Some(arg) = walk.next_request() {
        assert!(requests < pages, "asked again after the last page");
        assert_eq!(arg.get_prefix(), Some(&"page".to_string()));
        assert_eq!(arg.get_max_keys(), Some(per_page as i64));
        let expected = if requests == 0 { None } else { Some(requests.to_string()) };
        assert_eq!(arg.get_continuation_token(), expected.as_ref());
        let page = match b.list(Ok(answer(pages, per_page, &arg))) {
            Ok(page) => page,
            Err(_) => panic!("a page"),
        };
        walk.take(page);
        requests += 1;
    }
    assert!(walk.is_finished());
    (requests, walk.into_items())
}

#[test]
fn walk_drains_every_page_in_order() {
    for pages in 1..6 {
        let (requests, items) = drain(pages, 3);
        assert_eq!(requests, pages);
        let expected: Vec<ListItem> = (0..pages)
            .flat_map(|p| (0..3).map(move |i| named(format!("page{p}/key{i}"))))
            .collect();
        assert_eq!(items, expected);
    }
}

#[test]
fn walk_of_an_empty_listing() {
    let (requests, items) = drain(1, 0);
    assert_eq!(requests, 1);
    assert!(items.is_empty());
}

#[test]
fn walk_takes_nothing_after_the_last_page() {
    let mut walk = ListWalk::new("p", limit(10));
    walk.take(ListRet::Finished(Some(vec![named("a".to_string())])));
    assert!(walk.next_request().is_none());
    walk.take(ListRet::ToBeContinue("t".to_string(), vec![named("b".to_string())]));
    assert!(walk.is_finished());
    assert!(walk.next_request().is_none());
    assert_eq!(walk.into_items(), vec![named("a".to_string())]);
}

#[test]
fn walk_starts_without_a_token() {
    let walk = ListWalk::new("photos/", limit(0));
    assert!(!walk.is_finished());
    let arg = match walk.next_request() {
        Some(arg) => arg,
        None => panic!("a first request"),
    };
    assert_eq!(arg.get_prefix(), Some(&"photos/".to_string()));
    assert_eq!(arg.get_max_keys(), Some(0));
    assert_eq!(arg.get_continuation_token(), None);
}
