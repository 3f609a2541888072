use marmalade::text::text_eq;

#[test]
fn equal_text_is_equal() {
    assert!(text_eq("", ""));
    assert!(text_eq("KeyA", "KeyA"));
    assert!(text_eq("naïve ☃", "naïve ☃"));
}

#[test]
fn different_text_is_different() {
    assert!(!text_eq("KeyA", "KeyB"));
    assert!(!text_eq("KeyA", "KeyAA"));
    assert!(!text_eq("", " "));
    assert!(!text_eq("keya", "KeyA"));
    assert!(!text_eq("é", "e\u{301}"));
}
