use nodegaze::text::{
    i64_to_decimal, parse_unsigned, str_contains, str_eq, str_starts_with, to_signed,
    u64_to_decimal,
};

#[test]
fn string_comparisons() {
    assert!(str_eq("abc", "abc"));
    assert!(!str_eq("abc", "abd"));
    assert!(!str_eq("abc", "ab"));
    assert!(str_contains("hello world", "o w"));
    assert!(str_contains("x", ""));
    assert!(!str_contains("hello", "world"));
    assert!(str_starts_with("Bearer x", "Bearer "));
    assert!(!str_starts_with("Bear", "Bearer "));
}

#[test]
fn decimal_rendering() {
    assert_eq!(u64_to_decimal(0), "0");
    assert_eq!(u64_to_decimal(1234567890), "1234567890");
    assert_eq!(u64_to_decimal(u64::MAX), u64::MAX.to_string());
    assert_eq!(i64_to_decimal(-42), "-42");
    assert_eq!(i64_to_decimal(i64::MIN), i64::MIN.to_string());
    assert_eq!(i64_to_decimal(7), "7");
}

#[test]
fn reinterpreting_as_signed() {
    assert_eq!(to_signed(5), 5);
    assert_eq!(to_signed(u64::MAX), -1);
    assert_eq!(to_signed(1u64 << 63), i64::MIN);
}

#[test]
fn unsigned_parsing_follows_std() {
    for (text, max) in [("0", 10u64), ("+7", 10), ("10", 10), ("11", 10), ("", 10), ("+", 10), ("-1", 10), ("1a", 10), ("007", 10), ("18446744073709551615", u64::MAX), ("18446744073709551616", u64::MAX)] {
        let expected = text.parse::<u64>().ok().filter(|v| *v <= max);
        assert_eq!(parse_unsigned(text, max), expected, "{}", text);
    }
}
