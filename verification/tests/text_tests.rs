use open_download_manager::text::{parse_u64, u64_to_string};

#[test]
fn renders_zero() {
    assert_eq!(u64_to_string(0), "0");
}

#[test]
fn renders_small_numbers() {
    assert_eq!(u64_to_string(7), "7");
    assert_eq!(u64_to_string(10), "10");
    assert_eq!(u64_to_string(33), "33");
    assert_eq!(u64_to_string(100), "100");
    assert_eq!(u64_to_string(12345), "12345");
}

#[test]
fn renders_largest_u64() {
    assert_eq!(u64_to_string(u64::MAX), "18446744073709551615");
}

#[test]
fn parses_plain_digits() {
    assert_eq!(parse_u64("0"), Some(0));
    assert_eq!(parse_u64("123"), Some(123));
    assert_eq!(parse_u64("007"), Some(7));
}

#[test]
fn parses_leading_plus() {
    assert_eq!(parse_u64("+42"), Some(42));
}

#[test]
fn rejects_empty_and_bare_sign() {
    assert_eq!(parse_u64(""), None);
    assert_eq!(parse_u64("+"), None);
}

#[test]
fn rejects_non_digits() {
    assert_eq!(parse_u64("12a"), None);
    assert_eq!(parse_u64("-5"), None);
    assert_eq!(parse_u64(" 12"), None);
}

#[test]
fn parses_up_to_the_limit() {
    assert_eq!(parse_u64("18446744073709551615"), Some(u64::MAX));
    assert_eq!(parse_u64("18446744073709551616"), None);
    assert_eq!(parse_u64("999999999999999999999999"), None);
}

#[test]
fn round_trips_through_text() {
    for n in [0u64, 1, 9, 10, 4096, 1_000_000_007, u64::MAX] {
        assert_eq!(parse_u64(&u64_to_string(n)), Some(n));
    }
}
