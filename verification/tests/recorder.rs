use keylogger::Key;
use keylogger::KeyEvent;
use keylogger::Recorder;

fn press(r: &mut Recorder, key: Key) -> Option<String> {
    r.record(&KeyEvent::Pressed(key))
}

fn release(r: &mut Recorder, key: Key) -> Option<String> {
    r.record(&KeyEvent::Released(key))
}

#[test]
fn round_trip_hello() {
    let mut r = Recorder::new();
    assert_eq!(press(&mut r, Key::H), None);
    assert_eq!(press(&mut r, Key::E), None);
    assert_eq!(press(&mut r, Key::L), None);
    assert_eq!(press(&mut r, Key::L), None);
    assert_eq!(press(&mut r, Key::O), None);
    let line = press(&mut r, Key::Enter);
    assert_eq!(line, Some(String::from("{\"line\":\"hello\"}")));
}

#[test]
fn empty_commit_produces_empty_line() {
    let mut r = Recorder::new();
    let line = press(&mut r, Key::Enter);
    assert_eq!(line, Some(String::from("{\"line\":\"\"}")));
}

#[test]
fn commit_clears_the_word() {
    let mut r = Recorder::new();
    press(&mut r, Key::A);
    press(&mut r, Key::B);
    assert_eq!(press(&mut r, Key::Enter), Some(String::from("{\"line\":\"ab\"}")));
    press(&mut r, Key::C);
    assert_eq!(press(&mut r, Key::Enter), Some(String::from("{\"line\":\"c\"}")));
}

#[test]
fn backspace_on_empty_word_is_a_noop() {
    let mut r = Recorder::new();
    assert_eq!(press(&mut r, Key::Backspace), None);
    assert_eq!(press(&mut r, Key::Backspace), None);
    let line = press(&mut r, Key::Enter);
    assert_eq!(line, Some(String::from("{\"line\":\"\"}")));
}

#[test]
fn backspace_removes_the_last_letter() {
    let mut r = Recorder::new();
    press(&mut r, Key::H);
    press(&mut r, Key::E);
    press(&mut r, Key::X);
    press(&mut r, Key::Backspace);
    press(&mut r, Key::L);
    press(&mut r, Key::L);
    press(&mut r, Key::O);
    let line = press(&mut r, Key::Enter);
    assert_eq!(line, Some(String::from("{\"line\":\"hello\"}")));
}

#[test]
fn shift_down_is_a_noop_only_shift_up_toggles() {
    let mut r = Recorder::new();
    assert_eq!(press(&mut r, Key::LShift), None);
    press(&mut r, Key::A);
    assert_eq!(release(&mut r, Key::LShift), None);
    let line = press(&mut r, Key::Enter);
    assert_eq!(line, Some(String::from("{\"line\":\"a\"}")));
}

#[test]
fn double_shift_release_cancels() {
    let mut r = Recorder::new();
    release(&mut r, Key::LShift);
    release(&mut r, Key::LShift);
    press(&mut r, Key::A);
    let line = press(&mut r, Key::Enter);
    assert_eq!(line, Some(String::from("{\"line\":\"a\"}")));
}

#[test]
fn mixed_symbol_and_alphabet_under_shift() {
    let mut r = Recorder::new();
    release(&mut r, Key::LShift);
    press(&mut r, Key::Key1);
    press(&mut r, Key::A);
    release(&mut r, Key::LShift);
    let line = press(&mut r, Key::Enter);
    assert_eq!(line, Some(String::from("{\"line\":\"!A\"}")));
}

#[test]
fn shift_state_is_read_per_key() {
    let mut r = Recorder::new();
    press(&mut r, Key::A);
    release(&mut r, Key::RShift);
    press(&mut r, Key::A);
    release(&mut r, Key::RShift);
    press(&mut r, Key::A);
    let line = press(&mut r, Key::Enter);
    assert_eq!(line, Some(String::from("{\"line\":\"aAa\"}")));
}

#[test]
fn control_and_navigation_keys_are_filtered() {
    let mut r = Recorder::new();
    press(&mut r, Key::LControl);
    press(&mut r, Key::A);
    press(&mut r, Key::Up);
    press(&mut r, Key::Down);
    press(&mut r, Key::Left);
    press(&mut r, Key::Right);
    press(&mut r, Key::RControl);
    press(&mut r, Key::B);
    let line = press(&mut r, Key::Enter);
    assert_eq!(line, Some(String::from("{\"line\":\"ab\"}")));
}

#[test]
fn non_shift_releases_are_ignored() {
    let mut r = Recorder::new();
    press(&mut r, Key::A);
    assert_eq!(release(&mut r, Key::A), None);
    assert_eq!(release(&mut r, Key::Enter), None);
    assert_eq!(release(&mut r, Key::Backspace), None);
    let line = press(&mut r, Key::Enter);
    assert_eq!(line, Some(String::from("{\"line\":\"a\"}")));
}

#[test]
fn space_and_punctuation_resolve_through_the_table() {
    let mut r = Recorder::new();
    press(&mut r, Key::A);
    press(&mut r, Key::Space);
    press(&mut r, Key::B);
    press(&mut r, Key::Minus);
    press(&mut r, Key::Dot);
    let line = press(&mut r, Key::Enter);
    assert_eq!(line, Some(String::from("{\"line\":\"a b-.\"}")));
}

#[test]
fn digits_shift_to_their_symbols() {
    let mut r = Recorder::new();
    press(&mut r, Key::Key0);
    release(&mut r, Key::LShift);
    press(&mut r, Key::Key0);
    press(&mut r, Key::Key9);
    let line = press(&mut r, Key::Enter);
    assert_eq!(line, Some(String::from("{\"line\":\"0)(\"}")));
}

#[test]
fn committed_quote_is_escaped() {
    let mut r = Recorder::new();
    release(&mut r, Key::LShift);
    press(&mut r, Key::Apostrophe);
    let line = press(&mut r, Key::Enter);
    assert_eq!(line, Some(String::from("{\"line\":\"\\\"\"}")));
}

#[test]
fn committed_backslash_is_escaped() {
    let mut r = Recorder::new();
    press(&mut r, Key::BackSlash);
    let line = press(&mut r, Key::Enter);
    assert_eq!(line, Some(String::from("{\"line\":\"\\\\\"}")));
}

#[test]
fn unknown_keys_fall_back_to_their_cased_name() {
    let mut r = Recorder::new();
    press(&mut r, Key::Other(String::from("F1")));
    release(&mut r, Key::LShift);
    press(&mut r, Key::Other(String::from("F1")));
    release(&mut r, Key::LShift);
    let line = press(&mut r, Key::Enter);
    assert_eq!(line, Some(String::from("{\"line\":\"f1F1\"}")));
}

#[test]
fn interleaved_downs_and_ups_apply_in_delivery_order() {
    let mut r = Recorder::new();
    let events = vec![
        KeyEvent::Pressed(Key::LShift),
        KeyEvent::Pressed(Key::H),
        KeyEvent::Released(Key::LShift),
        KeyEvent::Pressed(Key::I),
        KeyEvent::Pressed(Key::Key1),
        KeyEvent::Released(Key::RShift),
        KeyEvent::Pressed(Key::Enter),
    ];
    let mut lines: Vec<String> = Vec::new();
    for ev in &events {
        if let Some(line) = r.record(ev) {
            lines.push(line);
        }
    }
    assert_eq!(lines, vec![String::from("{\"line\":\"hI!\"}")]);
}

#[test]
fn word_to_string_concatenates_the_letters() {
    let mut r = Recorder::new();
    press(&mut r, Key::H);
    press(&mut r, Key::E);
    assert_eq!(r.word_to_string(), String::from("he"));
}
