use sagiton::text::{join_texts, contains_char, equals_ignore_ascii_case, str_equals, strip_prefix, trim};

#[test]
fn trim_matches_std() {
    for s in ["", "  ", " a ", "\t\nabc\u{3000}", "\u{2003}x y\u{85}", "no-space"] {
        assert_eq!(trim(s), s.trim());
    }
}

#[test]
fn strip_prefix_matches_std() {
    assert_eq!(strip_prefix("Bearer abc", "Bearer "), Some("abc"));
    assert_eq!(strip_prefix("Bearer", "Bearer "), None);
    assert_eq!(strip_prefix("bearer abc", "Bearer "), None);
    assert_eq!(strip_prefix("ééx", "é"), Some("éx"));
}

#[test]
fn comparisons() {
    assert!(str_equals("a", "a"));
    assert!(!str_equals("a", "b"));
    assert!(equals_ignore_ascii_case("PeNdInG", "pending"));
    assert!(!equals_ignore_ascii_case("pendings", "pending"));
    assert!(contains_char("a@b", '@'));
    assert!(!contains_char("ab", '@'));
    assert_eq!(join_texts("events:", "x"), "events:x");
}
