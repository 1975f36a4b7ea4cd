use network_reachability::text::{chars_of, contains_chars, lower_chars_of};

#[test]
fn test_contains_chars_basic() {
    let hay = chars_of("hello world");
    assert!(contains_chars(&hay, &chars_of("hello")));
    assert!(contains_chars(&hay, &chars_of("o w")));
    assert!(contains_chars(&hay, &chars_of("world")));
    assert!(!contains_chars(&hay, &chars_of("worlds")));
    assert!(!contains_chars(&hay, &chars_of("WORLD")));
}

#[test]
fn test_contains_chars_edges() {
    // The empty needle occurs everywhere, even in the empty haystack.
    assert!(contains_chars(&chars_of("abc"), &chars_of("")));
    assert!(contains_chars(&chars_of(""), &chars_of("")));
    // Nothing non-empty occurs in the empty haystack.
    assert!(!contains_chars(&chars_of(""), &chars_of("a")));
    // Overlapping candidates are all tried.
    assert!(contains_chars(&chars_of("aab"), &chars_of("ab")));
}

#[test]
fn test_lower_chars_of() {
    assert_eq!(lower_chars_of("WLAN0"), chars_of("wlan0"));
    assert_eq!(lower_chars_of("TunnelVPN"), chars_of("tunnelvpn"));
    // Non-letters and already-lowered characters stay as they are.
    assert_eq!(lower_chars_of("eth0_X"), chars_of("eth0_x"));
}
