use linkcheck::text::{contains_substr, i64_to_dec, str_is_blank, str_starts_with, u64_to_dec};

#[test]
fn blank_detection_matches_whitespace_only_strings() {
    assert!(str_is_blank(""));
    assert!(str_is_blank("   "));
    assert!(str_is_blank("\t\r\n\u{b}\u{c}"));
    assert!(str_is_blank("\u{85}\u{a0}\u{1680}\u{2000}\u{200a}\u{2028}\u{2029}\u{202f}\u{205f}\u{3000}"));
    assert!(!str_is_blank("a"));
    assert!(!str_is_blank("  x  "));
    assert!(!str_is_blank("\u{200b}"));
}

#[test]
fn substring_search_finds_infixes() {
    assert!(contains_substr("https://image.baidu.com/p", "image.baidu.com"));
    assert!(contains_substr("abc", ""));
    assert!(contains_substr("abc", "abc"));
    assert!(contains_substr("abcabd", "abd"));
    assert!(!contains_substr("abc", "abcd"));
    assert!(!contains_substr("image.baidu.co", "image.baidu.com"));
    assert!(!contains_substr("", "x"));
}

#[test]
fn prefix_test_matches_initial_segments() {
    assert!(str_starts_with("weibo_reupload_1.jpg", "weibo_reupload_"));
    assert!(str_starts_with("anything", ""));
    assert!(!str_starts_with("weibo", "weibo_reupload_"));
    assert!(!str_starts_with("xweibo_reupload_", "weibo_reupload_"));
}

#[test]
fn unsigned_decimal_rendering_is_exact() {
    assert_eq!(u64_to_dec(0), "0".to_string());
    assert_eq!(u64_to_dec(7), "7".to_string());
    assert_eq!(u64_to_dec(10), "10".to_string());
    assert_eq!(u64_to_dec(104_857_601), "104857601".to_string());
    assert_eq!(u64_to_dec(u64::MAX), "18446744073709551615".to_string());
}

#[test]
fn signed_decimal_rendering_is_exact() {
    assert_eq!(i64_to_dec(0), "0".to_string());
    assert_eq!(i64_to_dec(1_700_000_000), "1700000000".to_string());
    assert_eq!(i64_to_dec(-1), "-1".to_string());
    assert_eq!(i64_to_dec(i64::MIN), "-9223372036854775808".to_string());
    assert_eq!(i64_to_dec(i64::MAX), "9223372036854775807".to_string());
}
