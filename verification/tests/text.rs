use databend_meta::text::{has_prefix, i64_decimal, join_strings, u64_decimal};

#[test]
fn decimal_notation() {
    assert_eq!(u64_decimal(0), "0");
    assert_eq!(u64_decimal(7), "7");
    assert_eq!(u64_decimal(1234567890), "1234567890");
    assert_eq!(u64_decimal(u64::MAX), u64::MAX.to_string());
    assert_eq!(i64_decimal(-1), "-1");
    assert_eq!(i64_decimal(0), "0");
    assert_eq!(i64_decimal(i64::MIN), i64::MIN.to_string());
    assert_eq!(i64_decimal(i64::MAX), i64::MAX.to_string());
}

#[test]
fn joining() {
    assert_eq!(join_strings(&vec![], ", "), "");
    assert_eq!(join_strings(&vec!["a".to_string()], ", "), "a");
    assert_eq!(join_strings(&vec!["a".to_string(), "b".to_string(), "c".to_string()], "."), "a.b.c");
}

#[test]
fn prefixes() {
    assert!(has_prefix("https://x", "https://"));
    assert!(has_prefix("abc", ""));
    assert!(!has_prefix("http://x", "https://"));
    assert!(!has_prefix("ab", "abc"));
    assert!(has_prefix("日本語", "日本"));
}
