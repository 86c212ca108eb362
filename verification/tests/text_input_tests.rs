use ore_app::text_input::{char_is_control, TextInput, TextInputAction, TextInputEvent, TextInputKind};

fn input(text: &str, numbers_only: bool) -> TextInput {
    TextInput { hidden: false, numbers_only, text: text.to_string() }
}

#[test]
fn typing_appends_text() {
    let mut t = input("ab", false);
    assert_eq!(t.apply(TextInputKind::Plain, TextInputEvent::Received("c".to_string())), TextInputAction::Nothing);
    assert_eq!(t.text, "abc");
}

#[test]
fn control_characters_are_ignored() {
    let mut t = input("ab", false);
    t.apply(TextInputKind::Plain, TextInputEvent::Received("\u{8}".to_string()));
    t.apply(TextInputKind::Password, TextInputEvent::Received("\r".to_string()));
    t.apply(TextInputKind::Plain, TextInputEvent::Received("".to_string()));
    assert_eq!(t.text, "ab");
}

#[test]
fn digits_only_fields() {
    let mut t = input("1", true);
    t.apply(TextInputKind::Plain, TextInputEvent::Received("a".to_string()));
    assert_eq!(t.text, "1");
    t.apply(TextInputKind::Plain, TextInputEvent::Received("2".to_string()));
    assert_eq!(t.text, "12");
    // Other Unicode digits are numeric too.
    t.apply(TextInputKind::Plain, TextInputEvent::Received("٣".to_string()));
    assert_eq!(t.text, "12٣");
    // Password fields ignore the digits-only flag.
    let mut p = input("", true);
    p.apply(TextInputKind::Password, TextInputEvent::Received("x".to_string()));
    assert_eq!(p.text, "x");
}

#[test]
fn type_then_backspace_restores() {
    let mut t = input("pass", false);
    t.apply(TextInputKind::Password, TextInputEvent::Received("é".to_string()));
    assert_eq!(t.apply(TextInputKind::Password, TextInputEvent::Backspace), TextInputAction::ResetBackspaceTimer);
    assert_eq!(t.text, "pass");
}

#[test]
fn backspace_on_empty_keeps_empty() {
    let mut t = input("", false);
    assert_eq!(t.apply(TextInputKind::Plain, TextInputEvent::Backspace), TextInputAction::ResetBackspaceTimer);
    assert_eq!(t.text, "");
}

#[test]
fn toggle_hidden_twice_restores() {
    let mut t = input("pw", false);
    t.apply(TextInputKind::Password, TextInputEvent::ToggleHidden);
    assert!(t.hidden);
    t.apply(TextInputKind::Password, TextInputEvent::ToggleHidden);
    assert!(!t.hidden);
    t.apply(TextInputKind::Plain, TextInputEvent::ToggleHidden);
    assert!(!t.hidden);
}

#[test]
fn submit_and_paste_by_kind() {
    let mut t = input("pw", false);
    assert_eq!(t.apply(TextInputKind::Password, TextInputEvent::Submit), TextInputAction::Unlock);
    assert_eq!(t.apply(TextInputKind::Plain, TextInputEvent::Submit), TextInputAction::Nothing);
    t.apply(TextInputKind::Password, TextInputEvent::Paste("clip".to_string()));
    assert_eq!(t.text, "pw");
    t.apply(TextInputKind::Plain, TextInputEvent::Paste("clip".to_string()));
    assert_eq!(t.text, "clip");
}

#[test]
fn control_chars_match_std() {
    for c in ['\0', '\u{1f}', ' ', 'a', '\u{7f}', '\u{80}', '\u{9f}', '\u{a0}', 'é', '\u{2028}'] {
        assert_eq!(char_is_control(c), c.is_control(), "char {:?}", c);
    }
}
