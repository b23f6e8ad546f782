use enseada::text::{
    contains_string, contains_text, dedup_strings, ends_with_char, find_char, join2, join3, join_strings,
    parse_usize, rfind_char, split_char, starts_with, str_eq, substring, usize_to_decimal,
};

fn strings(v: &[&str]) -> Vec<String> {
    v.iter().map(|s| s.to_string()).collect()
}

#[test]
fn split_like_str_split() {
    assert_eq!(split_char("a b  c", ' '), strings(&["a", "b", "", "c"]));
    assert_eq!(split_char("", ' '), strings(&[""]));
    assert_eq!(split_char("x", ':'), strings(&["x"]));
    assert_eq!(split_char(":", ':'), strings(&["", ""]));
}

#[test]
fn split_then_join_gives_back_the_text() {
    for s in ["a b c", "", " lead", "trail ", "no-space"] {
        assert_eq!(join_strings(&split_char(s, ' '), " "), s);
    }
}

#[test]
fn join_like_slice_join() {
    assert_eq!(join_strings(&strings(&["a", "b"]), ", "), "a, b");
    assert_eq!(join_strings(&strings(&[]), ", "), "");
    assert_eq!(join2("ab", "cd"), "abcd");
    assert_eq!(join3("a", "b", "c"), "abc");
}

#[test]
fn dedup_keeps_first_occurrences() {
    assert_eq!(dedup_strings(strings(&["b", "a", "b", "c", "a"])), strings(&["b", "a", "c"]));
    assert!(contains_string(&strings(&["x", "y"]), "y"));
    assert!(!contains_string(&strings(&["x", "y"]), "z"));
}

#[test]
fn decimal_text_and_back() {
    for n in [0usize, 7, 10, 12345, usize::MAX] {
        assert_eq!(usize_to_decimal(n), n.to_string());
        assert_eq!(parse_usize(&usize_to_decimal(n)), Some(n));
    }
}

#[test]
fn parse_usize_like_std() {
    for s in ["42", "+42", "007", "", "+", "-1", "4 2", "18446744073709551616", "abc", "١"] {
        assert_eq!(parse_usize(s), s.parse::<usize>().ok(), "{}", s);
    }
}

#[test]
fn searching() {
    assert_eq!(find_char("a/b/c", '/'), Some(1));
    assert_eq!(rfind_char("a/b/c", '/'), Some(3));
    assert_eq!(find_char("abc", '/'), None);
    assert!(starts_with("api.example.com", "api."));
    assert!(!starts_with("ap", "api"));
    assert!(ends_with_char("x.", '.'));
    assert!(!ends_with_char("", '.'));
    assert!(str_eq("é", "é"));
    assert_eq!(substring("héllo", 1, 3), "él");
}

#[test]
fn substring_search_like_str_contains() {
    for (s, n) in [("invalid redirect_uri", "redirect_uri"), ("abc", ""), ("", "a"), ("aab", "ab"), ("ab", "abc")] {
        assert_eq!(contains_text(s, n), s.contains(n), "{} {}", s, n);
    }
}
