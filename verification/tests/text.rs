use confession_bot::text::{decimal_string, lower_hex_string, parse_decimal, starts_with, str_equal};

#[test]
fn decimal_of_small_and_large_numbers() {
    assert_eq!(decimal_string(0), "0");
    assert_eq!(decimal_string(7), "7");
    assert_eq!(decimal_string(10), "10");
    assert_eq!(decimal_string(1234567890), "1234567890");
    assert_eq!(decimal_string(u64::MAX), "18446744073709551615");
}

#[test]
fn decimal_matches_format() {
    for n in [0u64, 1, 9, 99, 100, 4096, 987654321, 1u64 << 40, u64::MAX - 1] {
        assert_eq!(decimal_string(n), format!("{}", n));
    }
}

#[test]
fn lower_hex_matches_format() {
    assert_eq!(lower_hex_string(0), "0");
    assert_eq!(lower_hex_string(255), "ff");
    assert_eq!(lower_hex_string(0xabcdef), "abcdef");
    for n in [1u32, 15, 16, 4095, 16777214, u32::MAX] {
        assert_eq!(lower_hex_string(n), format!("{:x}", n));
    }
}

#[test]
fn parse_decimal_accepts_canonical_numbers() {
    assert_eq!(parse_decimal("0"), Some(0));
    assert_eq!(parse_decimal("42"), Some(42));
    assert_eq!(parse_decimal("18446744073709551615"), Some(u64::MAX));
}

#[test]
fn parse_decimal_rejects_other_texts() {
    assert_eq!(parse_decimal(""), None);
    assert_eq!(parse_decimal("007"), None);
    assert_eq!(parse_decimal("00"), None);
    assert_eq!(parse_decimal("1a"), None);
    assert_eq!(parse_decimal("-1"), None);
    assert_eq!(parse_decimal("+1"), None);
    assert_eq!(parse_decimal("18446744073709551616"), None);
    assert_eq!(parse_decimal("99999999999999999999999"), None);
}

#[test]
fn parse_reads_back_what_decimal_writes() {
    for n in [0u64, 5, 10, 123456, 1u64 << 63, u64::MAX] {
        assert_eq!(parse_decimal(&decimal_string(n)), Some(n));
    }
}

#[test]
fn prefix_and_equality_checks() {
    assert!(starts_with("approve", "app"));
    assert!(starts_with("abc", ""));
    assert!(!starts_with("ab", "abc"));
    assert!(!starts_with("abc", "abd"));
    assert!(str_equal("same", "same"));
    assert!(!str_equal("same", "sam"));
    assert!(!str_equal("same", "Same"));
}
