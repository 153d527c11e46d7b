//! Path-id parsing, decimal formatting, JSON escaping, and the collapse
//! of persistent fetch outcomes.

use read_api::items::Item;
use read_api::json::{escape_json, fmt_u32, json_record_string};
use read_api::parse::parse_id;
use read_api::persistent::{collapse_item_fetch, collapse_user_fetch, FetchOutcome};
use read_api::users::User;

#[test]
fn parses_plain_numbers() {
    assert_eq!(parse_id("0"), Some(0));
    assert_eq!(parse_id("1"), Some(1));
    assert_eq!(parse_id("42"), Some(42));
    assert_eq!(parse_id("007"), Some(7));
    assert_eq!(parse_id("4294967295"), Some(u32::MAX));
}

#[test]
fn rejects_malformed_ids() {
    assert_eq!(parse_id(""), None);
    assert_eq!(parse_id("abc"), None);
    assert_eq!(parse_id("12a"), None);
    assert_eq!(parse_id("a12"), None);
    assert_eq!(parse_id("-1"), None);
    assert_eq!(parse_id("+1"), None);
    assert_eq!(parse_id("1 "), None);
    assert_eq!(parse_id("1.5"), None);
}

#[test]
fn rejects_overlarge_ids() {
    assert_eq!(parse_id("4294967296"), None);
    assert_eq!(parse_id("99999999999999999999"), None);
}

#[test]
fn formats_decimals() {
    assert_eq!(fmt_u32(0), "0");
    assert_eq!(fmt_u32(7), "7");
    assert_eq!(fmt_u32(10), "10");
    assert_eq!(fmt_u32(409), "409");
    assert_eq!(fmt_u32(u32::MAX), "4294967295");
}

#[test]
fn escapes_json_strings() {
    assert_eq!(escape_json("plain"), "plain");
    assert_eq!(escape_json(""), "");
    assert_eq!(escape_json("a\"b"), "a\\\"b");
    assert_eq!(escape_json("a\\b"), "a\\\\b");
    assert_eq!(escape_json("a\nb"), "a\\u000ab");
    assert_eq!(escape_json("\t"), "\\u0009");
    assert_eq!(escape_json("\u{1f}"), "\\u001f");
}

#[test]
fn builds_record_json() {
    assert_eq!(json_record_string(1, "foo"), "{\"id\":1,\"name\":\"foo\"}");
    assert_eq!(
        json_record_string(7, "a\"b\\c\nd"),
        "{\"id\":7,\"name\":\"a\\\"b\\\\c\\u000ad\"}"
    );
}

#[test]
fn record_to_json() {
    let u = User::new(3, String::from("x"));
    assert_eq!(u.to_json(), "{\"id\":3,\"name\":\"x\"}");
    let it = Item::new(4, String::from("y"));
    assert_eq!(it.to_json(), "{\"id\":4,\"name\":\"y\"}");
}

#[test]
fn collapse_keeps_rows() {
    let u = collapse_user_fetch(FetchOutcome::Row(9, String::from("nine"))).expect("a row");
    assert_eq!(u.id, 9);
    assert_eq!(u.name, "nine");
    let it = collapse_item_fetch(FetchOutcome::Row(8, String::from("eight"))).expect("a row");
    assert_eq!(it.id, 8);
    assert_eq!(it.name, "eight");
}

#[test]
fn collapse_masks_absence_and_failure_alike() {
    assert!(collapse_user_fetch(FetchOutcome::NoRow).is_none());
    assert!(collapse_user_fetch(FetchOutcome::Failure).is_none());
    assert!(collapse_item_fetch(FetchOutcome::NoRow).is_none());
    assert!(collapse_item_fetch(FetchOutcome::Failure).is_none());
}

#[test]
fn cloned_records_match() {
    let u = User::new(1, String::from("foo"));
    let c = u.clone();
    assert_eq!(c.id, u.id);
    assert_eq!(c.name, u.name);
}
