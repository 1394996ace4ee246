use rigel::utils::text::{
    contains_str, is_white_space_char, join_strings, join_with, option_str_to_string, option_string_copy,
    push_unique, split_str, str_equal, trim_str,
};

#[test]
fn split_matches_std() {
    for (s, sep) in [("a.b.c", '.'), ("", '.'), ("abc", '.'), (".a..b.", '.'), ("x y", ' '), ("é.ü", '.')] {
        let expected: Vec<&str> = s.split(sep).collect();
        assert_eq!(split_str(s, sep), expected);
    }
    assert_eq!(split_str("a.b", '.'), vec!["a", "b"]);
    assert_eq!(split_str("", '.'), vec![""]);
}

#[test]
fn trim_matches_std() {
    for s in ["  x  ", "x", "", "   ", "\t\na b\r\n", "\u{3000}y\u{a0}", "a  b"] {
        assert_eq!(trim_str(s), s.trim());
    }
    assert_eq!(trim_str("  token \n"), "token");
}

#[test]
fn white_space_characters() {
    for c in [' ', '\t', '\n', '\r', '\u{b}', '\u{c}', '\u{85}', '\u{a0}', '\u{2003}', '\u{3000}'] {
        assert!(is_white_space_char(c));
        assert!(c.is_whitespace());
    }
    for c in ['a', '0', '.', '\u{200b}'] {
        assert!(!is_white_space_char(c));
        assert_eq!(c.is_whitespace(), false);
    }
}

#[test]
fn string_equality() {
    assert!(str_equal("abc", "abc"));
    assert!(!str_equal("abc", "abd"));
    assert!(!str_equal("abc", "ab"));
    assert!(str_equal("", ""));
}

#[test]
fn joining() {
    assert_eq!(join_with("a", ", ", "b"), "a, b");
    let pieces = vec!["?".to_string(), "?".to_string(), "?".to_string()];
    assert_eq!(join_strings(&pieces, ", "), "?, ?, ?");
    assert_eq!(join_strings(&vec![], ", "), "");
    assert_eq!(join_strings(&vec!["one".to_string()], "-"), "one");
}

#[test]
fn list_membership() {
    let mut v = vec!["a".to_string()];
    assert!(contains_str(&v, "a"));
    assert!(!contains_str(&v, "b"));
    push_unique(&mut v, "b".to_string());
    push_unique(&mut v, "a".to_string());
    assert_eq!(v, vec!["a".to_string(), "b".to_string()]);
}

#[test]
fn optional_strings() {
    assert_eq!(option_string_copy(&Some("x".to_string())), Some("x".to_string()));
    assert_eq!(option_string_copy(&None), None);
    assert_eq!(option_str_to_string(Some("y")), Some("y".to_string()));
    assert_eq!(option_str_to_string(None), None);
}
