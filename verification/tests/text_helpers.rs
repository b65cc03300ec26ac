use toggle_server::text::split_whitespace_tokens;
use toggle_server::text::str_contains;
use toggle_server::text::str_eq;
use toggle_server::text::str_has_prefix;

#[test]
fn prefix_test_compares_characters() {
    assert!(str_has_prefix("user-agent: x", "user-agent:"));
    assert!(!str_has_prefix("user-agent", "user-agent:"));
    assert!(str_has_prefix("abc", ""));
    assert!(!str_has_prefix("xuser-agent:", "user-agent:"));
}

#[test]
fn substring_test_scans_everywhere() {
    assert!(str_contains("user-agent: googlehc/1.0", "googlehc"));
    assert!(str_contains("googlehc", "googlehc"));
    assert!(!str_contains("googleh", "googlehc"));
    assert!(str_contains("anything", ""));
    assert!(!str_contains("", "x"));
}

#[test]
fn string_equality_compares_characters() {
    assert!(str_eq("/on", "/on"));
    assert!(!str_eq("/on", "/off"));
    assert!(str_eq("", ""));
    assert!(!str_eq("a", ""));
}

#[test]
fn tokenizer_splits_on_any_whitespace() {
    assert_eq!(split_whitespace_tokens("GET / HTTP/1.1"), vec!["GET", "/", "HTTP/1.1"]);
    assert_eq!(split_whitespace_tokens("  a \t b\nc  "), vec!["a", "b", "c"]);
    assert_eq!(split_whitespace_tokens("a\u{a0}b"), vec!["a", "b"]);
    assert_eq!(split_whitespace_tokens(""), Vec::<String>::new());
    assert_eq!(split_whitespace_tokens("   \t "), Vec::<String>::new());
    assert_eq!(split_whitespace_tokens("one"), vec!["one"]);
}
