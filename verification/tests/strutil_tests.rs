use twtscrape::strutil::{parse_u64, str_eq, str_starts_with, u64_to_string};

#[test]
fn parse_accepts_plain_decimal_strings() {
    assert_eq!(parse_u64("0"), Some(0));
    assert_eq!(parse_u64("42"), Some(42));
    assert_eq!(parse_u64("0042"), Some(42));
    assert_eq!(parse_u64("18446744073709551615"), Some(u64::MAX));
}

#[test]
fn parse_rejects_empty_signs_and_overflow() {
    assert_eq!(parse_u64(""), None);
    assert_eq!(parse_u64("+42"), None);
    assert_eq!(parse_u64("-1"), None);
    assert_eq!(parse_u64("4 2"), None);
    assert_eq!(parse_u64("42x"), None);
    assert_eq!(parse_u64("18446744073709551616"), None);
}

#[test]
fn rendering_is_plain_decimal() {
    assert_eq!(u64_to_string(0), "0");
    assert_eq!(u64_to_string(7), "7");
    assert_eq!(u64_to_string(1444378598), "1444378598");
    assert_eq!(u64_to_string(u64::MAX), "18446744073709551615");
}

#[test]
fn prefix_and_equality_are_character_wise() {
    assert!(str_starts_with("tweet-123", "tweet-"));
    assert!(!str_starts_with("cursor-1", "tweet-"));
    assert!(str_starts_with("abc", ""));
    assert!(!str_starts_with("ab", "abc"));
    assert!(str_eq("Bottom", "Bottom"));
    assert!(!str_eq("Bottom", "BottomCursor"));
}
