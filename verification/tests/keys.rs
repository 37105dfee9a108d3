use couchdb_backup::key::object_key;
use couchdb_backup::key::RunDate;

fn date(year: u32, month: u32, day: u32) -> RunDate {
    match RunDate::new(year, month, day) {
        Some(date) => date,
        None => panic!("a date"),
    }
}

#[test]
fn key_has_the_documented_shape() {
    let key = object_key("backup/ippbx", &date(2024, 3, 5), "couchdb", "users", 7);
    assert_eq!(key, "backup/ippbx/2024/03/05/couchdb/users/007.json.gz");
}

#[test]
fn key_pads_month_day_and_chunk() {
    assert_eq!(object_key("p", &date(2023, 12, 31), "s", "c", 0), "p/2023/12/31/s/c/000.json.gz");
    assert_eq!(object_key("p", &date(2023, 1, 1), "s", "c", 42), "p/2023/01/01/s/c/042.json.gz");
    assert_eq!(object_key("p", &date(2023, 1, 1), "s", "c", 999), "p/2023/01/01/s/c/999.json.gz");
}

#[test]
fn key_keeps_long_chunk_numbers_whole() {
    assert_eq!(object_key("p", &date(2023, 1, 1), "s", "c", 1000), "p/2023/01/01/s/c/1000.json.gz");
    assert_eq!(
        object_key("p", &date(2023, 1, 1), "s", "c", u64::MAX),
        "p/2023/01/01/s/c/18446744073709551615.json.gz"
    );
}

#[test]
fn key_matches_std_formatting() {
    for (year, month, day, chunk) in [(1999u32, 2u32, 9u32, 1u64), (2038, 11, 30, 120), (812, 7, 4, 5)] {
        let expected = format!("pre/{year:4}/{month:02}/{day:02}/suf/db/{chunk:03}.json.gz");
        assert_eq!(object_key("pre", &date(year, month, day), "suf", "db", chunk), expected);
    }
}

#[test]
fn key_is_the_same_for_the_same_parts() {
    let a = object_key("p", &date(2024, 2, 29), "s", "orders", 3);
    let b = object_key("p", &date(2024, 2, 29), "s", "orders", 3);
    assert_eq!(a, b);
}

#[test]
fn key_changes_with_each_part() {
    let base = object_key("p", &date(2024, 2, 29), "s", "orders", 3);
    assert_ne!(base, object_key("q", &date(2024, 2, 29), "s", "orders", 3));
    assert_ne!(base, object_key("p", &date(2025, 2, 28), "s", "orders", 3));
    assert_ne!(base, object_key("p", &date(2024, 3, 29), "s", "orders", 3));
    assert_ne!(base, object_key("p", &date(2024, 2, 28), "s", "orders", 3));
    assert_ne!(base, object_key("p", &date(2024, 2, 29), "t", "orders", 3));
    assert_ne!(base, object_key("p", &date(2024, 2, 29), "s", "users", 3));
    assert_ne!(base, object_key("p", &date(2024, 2, 29), "s", "orders", 4));
}

#[test]
fn dates_out_of_range_are_refused() {
    assert!(RunDate::new(2024, 0, 1).is_none());
    assert!(RunDate::new(2024, 13, 1).is_none());
    assert!(RunDate::new(2024, 1, 0).is_none());
    assert!(RunDate::new(2024, 1, 32).is_none());
    assert!(RunDate::new(10000, 1, 1).is_none());
    assert!(RunDate::new(9999, 12, 31).is_some());
    assert!(RunDate::new(0, 1, 1).is_some());
}

#[test]
fn date_gives_its_parts_back() {
    let d = date(2024, 3, 5);
    assert_eq!((d.year(), d.month(), d.day()), (2024, 3, 5));
}
