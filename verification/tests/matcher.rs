use pitou_core::extra::{
    bytes_contain, bytes_end_with, bytes_start_with, contains_ignore_case, ends_with_ignore_case,
    starts_with_ignore_case, window_matches,
};
use pitou_core::search::SearchType;

#[test]
fn substring_match_ignores_ascii_case() {
    assert!(contains_ignore_case("ABC", "xabcY"));
    assert!(contains_ignore_case("abc", "xABCy"));
    assert!(!contains_ignore_case("abd", "xabcY"));
    assert!(contains_ignore_case("", "anything"));
    assert!(contains_ignore_case("", ""));
    assert!(!contains_ignore_case("longer than input", "short"));
    assert!(contains_ignore_case("cY", "xabcy"));
}

#[test]
fn prefix_and_suffix_ignore_ascii_case() {
    assert!(starts_with_ignore_case("REP", "report.TXT"));
    assert!(!starts_with_ignore_case("port", "report.TXT"));
    assert!(ends_with_ignore_case(".txt", "report.TXT"));
    assert!(!ends_with_ignore_case(".tx", "report.TXT"));
    assert!(starts_with_ignore_case("", ""));
    assert!(ends_with_ignore_case("", "x"));
    assert!(!starts_with_ignore_case("ab", "a"));
    assert!(!ends_with_ignore_case("ab", "b"));
}

#[test]
fn only_ascii_letters_lose_their_case() {
    // '[' and '{' are 32 apart like 'A' and 'a', but are no letters.
    assert!(!contains_ignore_case("[", "{"));
    assert!(!contains_ignore_case("@", "`"));
    // Letters outside ASCII keep their case.
    assert!(!contains_ignore_case("É", "é"));
    assert!(contains_ignore_case("é", "caFÉ é"));
    assert!(starts_with_ignore_case("ÉA", "Éa"));
}

#[test]
fn byte_windows() {
    assert!(window_matches(b"bc", b"abcd", 1, false));
    assert!(!window_matches(b"bc", b"abcd", 0, false));
    assert!(window_matches(b"BC", b"abcd", 1, true));
    assert!(!window_matches(b"BC", b"abcd", 1, false));
    assert!(bytes_start_with(b"ab", b"abcd", false));
    assert!(bytes_end_with(b"cd", b"abcd", false));
    assert!(bytes_contain(b"bc", b"abcd", false));
    assert!(!bytes_contain(b"ca", b"abcd", false));
    assert!(bytes_contain(b"d", b"abcd", false));
}

#[test]
fn case_insensitive_substring_match_of_abc() {
    let rule = SearchType::parse_if_regex(3, "ABC".to_string()).unwrap();
    assert!(rule.matches("xabcY", false));
    assert!(!rule.matches("xabcY", true));
    assert!(rule.matches("xABCY", true));
}

#[test]
fn rules_by_kind() {
    let prefix = SearchType::parse_if_regex(1, "re".to_string()).unwrap();
    assert!(matches!(prefix, SearchType::MatchBegining(_)));
    assert!(prefix.matches("report", true));
    assert!(prefix.matches("REport", false));
    assert!(!prefix.matches("REport", true));
    assert!(!prefix.matches("a report", false));

    let suffix = SearchType::parse_if_regex(2, ".rs".to_string()).unwrap();
    assert!(matches!(suffix, SearchType::MatchEnding(_)));
    assert!(suffix.matches("main.rs", true));
    assert!(suffix.matches("MAIN.RS", false));
    assert!(!suffix.matches("MAIN.RS", true));
    assert!(!suffix.matches("main.rs.bak", false));

    let middle = SearchType::parse_if_regex(3, "in.".to_string()).unwrap();
    assert!(matches!(middle, SearchType::MatchMiddle(_)));
    assert!(middle.matches("main.rs", true));
    assert!(!middle.matches("main", true));

    assert!(SearchType::parse_if_regex(4, "x".to_string()).is_none());
    assert!(SearchType::parse_if_regex(255, "x".to_string()).is_none());
}

#[test]
fn regular_expressions_are_compiled() {
    let rule = SearchType::parse_if_regex(0, r"^a\d+\.txt$".to_string()).unwrap();
    assert!(matches!(rule, SearchType::Regex(_)));
    assert!(rule.matches("a12.txt", true));
    assert!(rule.matches("a12.txt", false));
    assert!(!rule.matches("b12.txt", true));
    assert!(!rule.matches("a.txt", true));
    // The pattern is not the haystack: a wrapper that handed its argument
    // back would match the pattern's own text.
    assert!(!rule.matches(r"^a\d+\.txt$", true));
    assert!(SearchType::parse_if_regex(0, "[".to_string()).is_none());
    assert!(SearchType::parse_if_regex(0, "foo(bar".to_string()).is_none());
}
