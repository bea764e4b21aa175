use keylogger::Key;
use keylogger::should_forward_release;
use keylogger::symbol_lookup;

#[test]
fn only_shift_releases_are_forwarded() {
    assert!(should_forward_release(&Key::LShift));
    assert!(should_forward_release(&Key::RShift));
    assert!(!should_forward_release(&Key::A));
    assert!(!should_forward_release(&Key::Enter));
    assert!(!should_forward_release(&Key::Backspace));
    assert!(!should_forward_release(&Key::Other(String::from("Tab"))));
}

#[test]
fn table_covers_digits_and_punctuation() {
    assert_eq!(symbol_lookup(&Key::Key1, false), Some("1"));
    assert_eq!(symbol_lookup(&Key::Key1, true), Some("!"));
    assert_eq!(symbol_lookup(&Key::Minus, false), Some("-"));
    assert_eq!(symbol_lookup(&Key::Minus, true), Some("_"));
    assert_eq!(symbol_lookup(&Key::Space, false), Some(" "));
    assert_eq!(symbol_lookup(&Key::Space, true), Some(" "));
    assert_eq!(symbol_lookup(&Key::Apostrophe, true), Some("\""));
    assert_eq!(symbol_lookup(&Key::BackSlash, false), Some("\\"));
}

#[test]
fn navigation_and_control_keys_map_to_empty_text() {
    assert_eq!(symbol_lookup(&Key::LControl, false), Some(""));
    assert_eq!(symbol_lookup(&Key::RControl, true), Some(""));
    assert_eq!(symbol_lookup(&Key::Up, false), Some(""));
    assert_eq!(symbol_lookup(&Key::Down, true), Some(""));
    assert_eq!(symbol_lookup(&Key::Left, false), Some(""));
    assert_eq!(symbol_lookup(&Key::Right, true), Some(""));
}

#[test]
fn letters_and_unknown_keys_have_no_table_entry() {
    assert_eq!(symbol_lookup(&Key::A, false), None);
    assert_eq!(symbol_lookup(&Key::Z, true), None);
    assert_eq!(symbol_lookup(&Key::Other(String::from("F1")), false), None);
    assert_eq!(symbol_lookup(&Key::LShift, false), None);
    assert_eq!(symbol_lookup(&Key::Enter, true), None);
}
