use storefront::common::clock::{moment, seconds_since_epoch, unix_time, Timestamp};
use storefront::store::model::Store;
use storefront::common::object_id::ObjectId;

#[test]
fn hex_writes_two_lower_case_digits_per_byte() {
    let bytes = [0x00, 0x01, 0x0a, 0x10, 0x7f, 0x80, 0xab, 0xcd, 0xef, 0xfe, 0xff, 0x99];
    let id = ObjectId { bytes };
    assert_eq!(id.to_hex(), "00010a107f80abcdeffeff99");
}

#[test]
fn parse_reads_back_what_hex_wrote() {
    let id = ObjectId { bytes: [1, 2, 3, 4, 5, 6, 7, 8, 9, 10, 11, 12] };
    let text = id.to_hex();
    assert_eq!(text, "0102030405060708090a0b0c");
    assert_eq!(ObjectId::parse_str(&text), Some(id));
}

#[test]
fn parse_takes_upper_case_digits() {
    let id = ObjectId::parse_str("53E37D08776F724E42ABCDEF").unwrap();
    assert_eq!(id.bytes, [0x53, 0xe3, 0x7d, 0x08, 0x77, 0x6f, 0x72, 0x4e, 0x42, 0xab, 0xcd, 0xef]);
    assert_eq!(id.to_hex(), "53e37d08776f724e42abcdef");
}

#[test]
fn parse_turns_down_what_is_not_twenty_four_hex_digits() {
    assert_eq!(ObjectId::parse_str(""), None);
    assert_eq!(ObjectId::parse_str("53e37d08776f724e4200000"), None);
    assert_eq!(ObjectId::parse_str("53e37d08776f724e420000000"), None);
    assert_eq!(ObjectId::parse_str("53e37d08776f724e4200000g"), None);
    assert_eq!(ObjectId::parse_str("53e37d08776f724e42 00000"), None);
    assert_eq!(ObjectId::parse_str("가53e37d08776f724e4200000"), None);
}

#[test]
fn identities_compare_by_their_bytes() {
    let a = ObjectId { bytes: [7; 12] };
    let b = ObjectId { bytes: [7; 12] };
    let mut c = ObjectId { bytes: [7; 12] };
    c.bytes[11] = 8;
    assert!(a == b);
    assert!(a != c);
}

#[test]
fn the_clock_stands_after_2020() {
    let seconds = unix_time().unwrap();
    assert!(seconds > 1_577_836_800);
    let moment = Store::new("acme".to_string()).create_at;
    assert!(moment.secs >= seconds as i64);
    assert!(moment.nanos < 2_000_000_000);
}

#[test]
fn seconds_are_counted_from_1970_on() {
    let at = |secs: i64, nanos: u32| seconds_since_epoch(Timestamp { secs, nanos });
    assert_eq!(at(0, 0), Some(0));
    assert_eq!(at(0, 999_999_999), Some(0));
    assert_eq!(at(1_700_000_000, 5), Some(1_700_000_000));
    assert_eq!(at(i64::MAX, 0), Some(9_223_372_036_854_775_807));
    assert_eq!(at(-1, 0), None);
    assert_eq!(at(-1, 999_999_999), None);
    assert_eq!(at(i64::MIN, 0), None);
}

#[test]
fn a_reading_of_the_clock_is_a_moment_on_either_side_of_1970() {
    assert_eq!(moment(Ok((0, 0))), Timestamp { secs: 0, nanos: 0 });
    assert_eq!(moment(Ok((1_700_000_000, 5))), Timestamp { secs: 1_700_000_000, nanos: 5 });
    assert_eq!(moment(Ok((u64::MAX, 7))), Timestamp { secs: i64::MAX, nanos: 7 });
    assert_eq!(moment(Err((0, 0))), Timestamp { secs: 0, nanos: 0 });
    assert_eq!(moment(Err((1, 0))), Timestamp { secs: -1, nanos: 0 });
    assert_eq!(moment(Err((0, 1))), Timestamp { secs: -1, nanos: 999_999_999 });
    assert_eq!(moment(Err((1, 250_000_000))), Timestamp { secs: -2, nanos: 750_000_000 });
    assert_eq!(moment(Err((u64::MAX, 1))), Timestamp { secs: i64::MIN, nanos: 999_999_999 });
    assert_eq!(moment(Err((u64::MAX, 0))), Timestamp { secs: i64::MIN, nanos: 0 });
    assert_eq!(moment(Err((3, 1_000_000_000))), Timestamp { secs: -3, nanos: 0 });
}
