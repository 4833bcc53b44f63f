use ruststringrange::matcher::ExactMatcher;
use ruststringrange::matcher::OneCharWildcardMatcher;
use ruststringrange::matcher::WildcardMatcher;

#[test]
fn exact_matcher_accepts_equal_texts() {
    let m = ExactMatcher;
    assert!(m.matches("abc", "abc"));
    assert!(m.matches("", ""));
    assert!(m.matches("h\u{e9}llo", "h\u{e9}llo"));
}

#[test]
fn exact_matcher_rejects_different_texts() {
    let m = ExactMatcher;
    assert!(!m.matches("abc", "abd"));
    assert!(!m.matches("abc", "ab"));
    assert!(!m.matches("", "a"));
}

#[test]
fn one_char_wildcard_star_stands_for_one_character() {
    let m = OneCharWildcardMatcher;
    assert!(m.matches("abc", "a*c"));
    assert!(m.matches("abc", "abc"));
    assert!(m.matches("abc", "ab*"));
    assert!(m.matches("x", "*"));
    assert!(m.matches("", ""));
}

#[test]
fn one_char_wildcard_rejects_mismatches() {
    let m = OneCharWildcardMatcher;
    assert!(!m.matches("abc", "a*d"));
    assert!(!m.matches("abc", "a*"));
    assert!(!m.matches("", "*"));
    assert!(!m.matches("ab", "a**x"));
}

#[test]
fn one_char_wildcard_counts_characters_not_bytes() {
    let m = OneCharWildcardMatcher;
    assert!(m.matches("a\u{e9}c", "a*c"));
    assert!(m.matches("a\u{1F600}c", "a*c"));
    assert!(!m.matches("a\u{e9}c", "a*\u{e9}c"));
}
