use acme::text::{same_text, starts_with};

#[test]
fn texts_are_compared_character_by_character() {
    assert!(same_text("", ""));
    assert!(same_text("http-01", "http-01"));
    assert!(!same_text("http-01", "http-02"));
    assert!(!same_text("http-01", "http-0"));
    assert!(!same_text("é", "e"));
    assert!(same_text("é", "é"));
    assert!(starts_with(b"GET / HTTP/1.1", b"GET "));
    assert!(starts_with(b"abc", b""));
    assert!(starts_with(b"abc", b"abc"));
    assert!(!starts_with(b"abc", b"abcd"));
    assert!(!starts_with(b"abc", b"abd"));
}
