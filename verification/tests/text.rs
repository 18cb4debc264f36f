use noisebell_client::text::{contains_str, str_eq};

#[test]
fn str_eq_compares_characters() {
    assert!(str_eq("open", "open"));
    assert!(!str_eq("open", "Open"));
    assert!(!str_eq("open", "opened"));
    assert!(str_eq("", ""));
    assert!(str_eq("naïve", "naïve"));
}

#[test]
fn contains_finds_substrings() {
    assert!(contains_str("Webhook endpoint already exists", "already exists"));
    assert!(contains_str("abc", "abc"));
    assert!(contains_str("abc", ""));
    assert!(contains_str("aab", "ab"));
    assert!(!contains_str("abc", "abcd"));
    assert!(!contains_str("abc", "ac"));
    assert!(!contains_str("", "a"));
}
