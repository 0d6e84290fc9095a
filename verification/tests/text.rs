use act4g::text::{decimal_string, str_contains, str_replace, str_split_once, str_strip_prefix, str_trim_end_char};

#[test]
fn decimal_formatting() {
    assert_eq!(decimal_string(0), "0");
    assert_eq!(decimal_string(7), "7");
    assert_eq!(decimal_string(1050), "1050");
    assert_eq!(decimal_string(u64::MAX), u64::MAX.to_string());
}

#[test]
fn replace_is_left_to_right_and_non_overlapping() {
    assert_eq!(str_replace("aaa", "aa", "b"), "ba");
    assert_eq!(str_replace("x/pulls/y/pulls/", "/pulls/", "/pull/"), "x/pull/y/pull/");
    assert_eq!(str_replace("none", "zz", "y"), "none");
}

#[test]
fn prefix_split_contains_trim() {
    assert_eq!(str_strip_prefix("abcdef", "abc"), Some("def".to_string()));
    assert_eq!(str_strip_prefix("ab", "abc"), None);
    assert_eq!(
        str_split_once("a/x/b/x/c", "/x/"),
        Some(("a".to_string(), "b/x/c".to_string()))
    );
    assert_eq!(str_split_once("abc", "/x/"), None);
    assert!(str_contains("hello", "ll"));
    assert!(str_contains("hello", ""));
    assert!(!str_contains("hello", "lo!"));
    assert_eq!(str_trim_end_char("abZZZ", 'Z'), "ab");
    assert_eq!(str_trim_end_char("ZZ", 'Z'), "");
}
