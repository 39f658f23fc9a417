use communicator::text::{
    contains_str, i64_to_decimal, parse_unsigned_decimal, replace_str, trim_end_char, trim_start_char, trim_string,
    u64_to_decimal,
};

#[test]
fn decimal_numerals() {
    assert_eq!(u64_to_decimal(0), "0");
    assert_eq!(u64_to_decimal(1234567890), "1234567890");
    assert_eq!(i64_to_decimal(-42), "-42");
    assert_eq!(i64_to_decimal(i64::MIN), "-9223372036854775808");
}

#[test]
fn parsing_unsigned_numerals() {
    assert_eq!(parse_unsigned_decimal("100", u32::MAX as u64), Some(100));
    assert_eq!(parse_unsigned_decimal("+7", u32::MAX as u64), Some(7));
    assert_eq!(parse_unsigned_decimal("4294967296", u32::MAX as u64), None);
    assert_eq!(parse_unsigned_decimal("", u64::MAX), None);
    assert_eq!(parse_unsigned_decimal("+", u64::MAX), None);
    assert_eq!(parse_unsigned_decimal("12a", u64::MAX), None);
    assert_eq!(parse_unsigned_decimal("-1", u64::MAX), None);
    assert_eq!(parse_unsigned_decimal("18446744073709551615", u64::MAX), Some(u64::MAX));
}

#[test]
fn trimming() {
    assert_eq!(trim_string("  Alice Smith \t"), "Alice Smith");
    assert_eq!(trim_string(" "), "");
    assert_eq!(trim_string("\u{3000}x\u{a0}"), "x");
    assert_eq!(trim_start_char("//users/me", '/'), "users/me");
    assert_eq!(trim_end_char("https://h/", '/'), "https://h");
}

#[test]
fn replacing_and_searching() {
    assert_eq!(replace_str("https://a/https://", "https://", "wss://"), "wss://a/wss://");
    assert_eq!(replace_str("aaa", "aa", "b"), "ba");
    assert!(contains_str("api.user.login.failed", "login"));
    assert!(!contains_str("api.unknown.error", "login"));
}
