use contact_form::text::{is_blank, is_whitespace, same_text};
use contact_form::ApiError;

#[test]
fn whitespace_agrees_with_std() {
    for u in 0u32..0x11000 {
        if let Some(c) = char::from_u32(u) {
            assert_eq!(is_whitespace(c), c.is_whitespace(), "U+{:04X}", u);
        }
    }
    assert!(is_whitespace('\u{3000}'));
    assert!(is_whitespace('\u{A0}'));
    assert!(!is_whitespace('\u{200B}'));
}

#[test]
fn blank_texts() {
    assert!(is_blank(""));
    assert!(is_blank(" \t\r\n\u{2003}"));
    assert!(!is_blank(" x "));
}

#[test]
fn text_comparison() {
    assert!(same_text("goal", "goal"));
    assert!(!same_text("goal", "Goal"));
    assert!(!same_text("goal", "goals"));
    assert!(same_text("", ""));
}

#[test]
fn slice_and_owned_conversions_agree() {
    let a = ApiError::from("not found");
    let b = ApiError::from("not found".to_string());
    assert_eq!(a.error, b.error);
    assert_eq!(a.details, b.details);
    assert_eq!(a.error, "not found");
}
