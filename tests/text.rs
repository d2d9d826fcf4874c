use schemagen::text::{contains_path_separator, starts_with, str_eq};

#[test]
fn string_equality() {
    assert!(str_eq("abc", "abc"));
    assert!(!str_eq("abc", "abd"));
    assert!(!str_eq("abc", "ab"));
    assert!(str_eq("", ""));
}

#[test]
fn prefix_test() {
    assert!(starts_with("postgis::Point", "postgis::"));
    assert!(!starts_with("postgis", "postgis::"));
    assert!(starts_with("x", ""));
}

#[test]
fn separator_test() {
    assert!(contains_path_separator("a::b"));
    assert!(!contains_path_separator("a:b"));
    assert!(!contains_path_separator(""));
}
