use docker_run::decimal::{decimal_i64, decimal_u64};
use docker_run::text::str_eq;

#[test]
fn naturals_as_numerals() {
    assert_eq!(decimal_u64(0), "0");
    assert_eq!(decimal_u64(7), "7");
    assert_eq!(decimal_u64(10), "10");
    assert_eq!(decimal_u64(1234567890), "1234567890");
    assert_eq!(decimal_u64(u64::MAX), "18446744073709551615");
}

#[test]
fn integers_as_numerals() {
    assert_eq!(decimal_i64(0), "0");
    assert_eq!(decimal_i64(500000000), "500000000");
    assert_eq!(decimal_i64(-1), "-1");
    assert_eq!(decimal_i64(-90), "-90");
    assert_eq!(decimal_i64(i64::MAX), "9223372036854775807");
    assert_eq!(decimal_i64(i64::MIN), "-9223372036854775808");
}

#[test]
fn numerals_agree_with_std() {
    for n in [0u64, 1, 9, 10, 11, 99, 100, 101, 65535, 4294967296] {
        assert_eq!(decimal_u64(n), n.to_string());
    }
    for n in [-100i64, -11, -10, -9, 9, 10, 11] {
        assert_eq!(decimal_i64(n), n.to_string());
    }
}

#[test]
fn strings_are_compared_by_their_characters() {
    assert!(str_eq("", ""));
    assert!(str_eq("MKNOD", "MKNOD"));
    assert!(!str_eq("MKNOD", "MKNOd"));
    assert!(!str_eq("MKNOD", "MKNO"));
    assert!(!str_eq("", "a"));
    assert!(str_eq("h\u{e9}llo \u{1f600}", "h\u{e9}llo \u{1f600}"));
    assert!(!str_eq("h\u{e9}llo", "h\u{e8}llo"));
}
