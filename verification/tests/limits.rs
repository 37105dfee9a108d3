use couchdb_backup::store::limit::LimitError;
use couchdb_backup::store::limit::ListLimit;
use couchdb_backup::store::list::ListArg;

#[test]
fn limit_of_a_thousand_is_accepted() {
    let limit = ListLimit::try_from(1000u64);
    assert_eq!(limit.map(|l| l.get()), Ok(1000));
}

#[test]
fn limit_above_a_thousand_is_refused() {
    assert_eq!(ListLimit::try_from(1001u64).map(|l| l.get()), Err(LimitError { value: 1001 }));
    assert_eq!(ListLimit::try_from(u64::MAX).map(|l| l.get()), Err(LimitError { value: u64::MAX }));
}

#[test]
fn limit_of_zero_is_accepted() {
    assert_eq!(ListLimit::try_from(0u64).map(|l| l.get()), Ok(0));
}

#[test]
fn limit_converts_from_every_width() {
    assert_eq!(ListLimit::try_from(1000u16).map(|l| l.get()), Ok(1000));
    assert_eq!(ListLimit::try_from(1001u16).map(|l| l.get()), Err(LimitError { value: 1001 }));
    assert_eq!(ListLimit::try_from(500u32).map(|l| l.get()), Ok(500));
    assert_eq!(ListLimit::try_from(70000u32).map(|l| l.get()), Err(LimitError { value: 70000 }));
    assert_eq!(ListLimit::try_from(1usize).map(|l| l.get()), Ok(1));
    assert_eq!(ListLimit::try_from(1001usize).map(|l| l.get()), Err(LimitError { value: 1001 }));
}

#[test]
fn limit_converts_through_try_into() {
    let limit: Result<ListLimit, LimitError> = 250u16.try_into();
    assert_eq!(limit.map(|l| l.get()), Ok(250));
}

#[test]
fn list_arg_starts_empty() {
    let arg = ListArg::new();
    assert_eq!(arg.get_prefix(), None);
    assert_eq!(arg.get_continuation_token(), None);
    assert_eq!(arg.get_max_keys(), None);
    let arg = ListArg::default();
    assert_eq!(arg.get_prefix(), None);
    assert_eq!(arg.get_continuation_token(), None);
    assert_eq!(arg.get_max_keys(), None);
}

#[test]
fn list_arg_is_built_part_by_part() {
    let limit = match ListLimit::try_from(100u16) {
        Ok(limit) => limit,
        Err(_) => panic!("a limit"),
    };
    let arg = ListArg::new().prefix("photos/").limit(limit).continuation_token("next");
    assert_eq!(arg.get_prefix(), Some(&"photos/".to_string()));
    assert_eq!(arg.get_continuation_token(), Some(&"next".to_string()));
    assert_eq!(arg.get_max_keys(), Some(100));
}

#[test]
fn list_arg_prefix_starts_afresh() {
    let limit = match ListLimit::try_from(100u16) {
        Ok(limit) => limit,
        Err(_) => panic!("a limit"),
    };
    let arg = ListArg::new().limit(limit).continuation_token("next").prefix("photos/");
    assert_eq!(arg.get_prefix(), Some(&"photos/".to_string()));
    assert_eq!(arg.get_continuation_token(), None);
    assert_eq!(arg.get_max_keys(), None);
}
