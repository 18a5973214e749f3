use context_password::ui::config_window::{capture_hotkey, Capture, ConfigWindowState, HeldMods};
use context_password::ui::keys::{digit_index, digit_pressed, key_label, key_name, Key, KeyEvent};
use context_password::ui::popup::badge_for;
use std::str::FromStr;

fn key_event(key: Key, physical_key: Option<Key>) -> KeyEvent {
    KeyEvent { key, physical_key, pressed: true, repeat: false }
}

fn key_event_with(key: Key, physical_key: Option<Key>, pressed: bool, repeat: bool) -> KeyEvent {
    KeyEvent { key, physical_key, pressed, repeat }
}

fn held(ctrl: bool, alt: bool, alt_gr: bool, shift: bool) -> HeldMods {
    HeldMods { ctrl, alt, alt_gr, shift }
}

fn text(v: Option<Vec<char>>) -> Option<String> {
    v.map(|c| c.into_iter().collect())
}

// Quick-select digits on the list.

#[test]
fn plain_digit_selects_by_index() {
    let events = vec![key_event(Key::Digit(1), Some(Key::Digit(1)))];
    assert_eq!(digit_pressed(&events), Some(0));
}

#[test]
fn shift_1_falls_back_to_physical_key() {
    let events = vec![key_event(Key::Other("Exclamationmark".to_string()), Some(Key::Digit(1)))];
    assert_eq!(digit_pressed(&events), Some(0));
}

#[test]
fn shift_2_still_works_when_logical_key_already_matches() {
    let events = vec![key_event(Key::Digit(2), Some(Key::Digit(2)))];
    assert_eq!(digit_pressed(&events), Some(1));
}

#[test]
fn other_shifted_glyphs_fall_back_to_physical_key() {
    let events = vec![key_event(Key::Other("Slash".to_string()), Some(Key::Digit(7)))];
    assert_eq!(digit_pressed(&events), Some(6));
    let events = vec![key_event(Key::Other("Equals".to_string()), Some(Key::Digit(0)))];
    assert_eq!(digit_pressed(&events), Some(9));
}

#[test]
fn numlock_off_numpad_keeps_its_navigation_meaning() {
    let events = vec![key_event(Key::End, Some(Key::Digit(1)))];
    assert_eq!(digit_pressed(&events), None);
}

#[test]
fn ignores_key_up_events() {
    let mut event = key_event(Key::Digit(1), Some(Key::Digit(1)));
    event.pressed = false;
    assert_eq!(digit_pressed(&vec![event]), None);
}

#[test]
fn ignores_non_digit_keys() {
    let events = vec![key_event(Key::Letter('A'), Some(Key::Letter('A')))];
    assert_eq!(digit_pressed(&events), None);
}

#[test]
fn the_first_digit_of_a_frame_wins() {
    let events = vec![
        key_event(Key::Letter('A'), None),
        key_event(Key::Digit(3), None),
        key_event(Key::Digit(4), None),
    ];
    assert_eq!(digit_pressed(&events), Some(2));
}

#[test]
fn digit_zero_is_the_tenth_row() {
    assert_eq!(digit_index(&Key::Digit(0)), Some(9));
    assert_eq!(digit_index(&Key::Digit(9)), Some(8));
    assert_eq!(digit_index(&Key::Letter('Q')), None);
}

// The hotkey recorder.

#[test]
fn waits_when_no_key_event_present() {
    assert!(matches!(capture_hotkey(&vec![], &mut held(true, false, false, false)), Capture::Waiting));
}

#[test]
fn captures_a_plain_combo() {
    let events = vec![key_event(Key::Letter('V'), None)];
    match capture_hotkey(&events, &mut held(true, true, false, false)) {
        Capture::Captured(spec) => assert_eq!(spec, "Ctrl+Alt+KeyV"),
        _ => panic!("expected a capture"),
    }
}

#[test]
fn ignores_a_bare_modifier_press() {
    let events = vec![key_event(Key::ControlLeft, None)];
    assert!(matches!(capture_hotkey(&events, &mut held(true, false, false, false)), Capture::Waiting));
}

#[test]
fn rejects_a_key_with_no_modifier_held() {
    let events = vec![key_event(Key::Letter('V'), None)];
    match capture_hotkey(&events, &mut held(false, false, false, false)) {
        Capture::Rejected(why) => assert_eq!(why, "hold at least one of Ctrl / Alt / Shift"),
        _ => panic!("expected a rejection"),
    }
}

#[test]
fn rejects_an_unsupported_key() {
    let events = vec![key_event(Key::Other("Colon".to_string()), None)];
    match capture_hotkey(&events, &mut held(true, false, false, false)) {
        Capture::Rejected(why) => assert_eq!(why, "Colon isn't supported in a hotkey"),
        _ => panic!("Colon should be reported as unsupported"),
    }
}

#[test]
fn escape_with_no_modifier_cancels() {
    let events = vec![key_event(Key::Escape, None)];
    assert!(matches!(capture_hotkey(&events, &mut held(false, false, false, false)), Capture::Cancelled));
}

#[test]
fn escape_with_a_modifier_is_a_valid_combo() {
    let events = vec![key_event(Key::Escape, None)];
    match capture_hotkey(&events, &mut held(true, false, false, false)) {
        Capture::Captured(spec) => assert_eq!(spec, "Ctrl+ESCAPE"),
        _ => panic!("expected a capture"),
    }
}

#[test]
fn function_keys_map_correctly() {
    let events = vec![key_event(Key::Function(5), None)];
    match capture_hotkey(&events, &mut held(false, true, false, false)) {
        Capture::Captured(spec) => assert_eq!(spec, "Alt+F5"),
        _ => panic!("expected a capture"),
    }
}

#[test]
fn digit_keys_map_to_digit_names() {
    let events = vec![key_event(Key::Digit(1), None)];
    match capture_hotkey(&events, &mut held(true, false, false, false)) {
        Capture::Captured(spec) => assert_eq!(spec, "Ctrl+Digit1"),
        _ => panic!("expected a capture"),
    }
}

#[test]
fn captures_on_key_up_when_the_key_down_never_arrives() {
    let events = vec![
        key_event_with(Key::ControlLeft, Some(Key::ControlLeft), true, false),
        key_event_with(Key::AltLeft, Some(Key::AltLeft), true, false),
        key_event_with(Key::Letter('V'), Some(Key::Letter('V')), false, false),
    ];
    match capture_hotkey(&events, &mut HeldMods::default()) {
        Capture::Captured(spec) => assert_eq!(spec, "Ctrl+Alt+KeyV"),
        _ => panic!("expected a capture from the key-up alone"),
    }
}

#[test]
fn altgr_counts_as_ctrl_and_alt() {
    let events = vec![
        key_event_with(Key::AltRight, Some(Key::AltRight), true, false),
        key_event_with(Key::Letter('V'), Some(Key::Letter('V')), true, false),
    ];
    match capture_hotkey(&events, &mut HeldMods::default()) {
        Capture::Captured(spec) => assert_eq!(spec, "Ctrl+Alt+KeyV"),
        _ => panic!("expected AltGr+V to capture as Ctrl+Alt+KeyV"),
    }
}

#[test]
fn held_state_persists_across_separate_frames() {
    let mut h = HeldMods::default();
    let ctrl_down = vec![key_event_with(Key::ControlLeft, Some(Key::ControlLeft), true, false)];
    assert!(matches!(capture_hotkey(&ctrl_down, &mut h), Capture::Waiting));
    let alt_down = vec![key_event_with(Key::AltLeft, Some(Key::AltLeft), true, false)];
    assert!(matches!(capture_hotkey(&alt_down, &mut h), Capture::Waiting));
    let v_down = vec![key_event_with(Key::Letter('V'), Some(Key::Letter('V')), true, false)];
    match capture_hotkey(&v_down, &mut h) {
        Capture::Captured(spec) => assert_eq!(spec, "Ctrl+Alt+KeyV"),
        _ => panic!("expected capture using held state built up across frames"),
    }
}

#[test]
fn releasing_a_modifier_clears_it() {
    let mut h = held(true, false, false, false);
    let up = vec![key_event_with(Key::ControlRight, Some(Key::ControlRight), false, false)];
    assert!(matches!(capture_hotkey(&up, &mut h), Capture::Waiting));
    assert!(!h.ctrl);
}

#[test]
fn an_auto_repeat_decides_nothing() {
    let events = vec![key_event_with(Key::Letter('V'), None, true, true)];
    assert!(matches!(capture_hotkey(&events, &mut held(true, false, false, false)), Capture::Waiting));
}

#[test]
fn shift_comes_last_among_the_modifiers() {
    let events = vec![key_event(Key::Home, None)];
    match capture_hotkey(&events, &mut held(true, true, false, true)) {
        Capture::Captured(spec) => assert_eq!(spec, "Ctrl+Alt+Shift+HOME"),
        _ => panic!("expected a capture"),
    }
}

#[test]
fn every_capturable_key_has_a_hotkey_name() {
    let cases = [
        (Key::Letter('A'), "KeyA"),
        (Key::Letter('Z'), "KeyZ"),
        (Key::Digit(0), "Digit0"),
        (Key::Digit(9), "Digit9"),
        (Key::Function(1), "F1"),
        (Key::Function(24), "F24"),
        (Key::ArrowUp, "ArrowUp"),
        (Key::ArrowDown, "ArrowDown"),
        (Key::ArrowLeft, "ArrowLeft"),
        (Key::ArrowRight, "ArrowRight"),
        (Key::Space, "SPACE"),
        (Key::Tab, "TAB"),
        (Key::Enter, "ENTER"),
        (Key::Backspace, "BACKSPACE"),
        (Key::Insert, "INSERT"),
        (Key::Delete, "DELETE"),
        (Key::Home, "HOME"),
        (Key::End, "END"),
        (Key::PageUp, "PAGEUP"),
        (Key::PageDown, "PAGEDOWN"),
        (Key::Escape, "ESCAPE"),
    ];
    for (key, name) in cases {
        assert_eq!(text(key_name(&key)), Some(name.to_string()));
    }
    assert_eq!(text(key_name(&Key::Function(25))), None);
    assert_eq!(text(key_name(&Key::ShiftLeft)), None);
    assert_eq!(text(Some(key_label(&Key::Function(25)))), Some("F25".to_string()));
    assert_eq!(text(Some(key_label(&Key::Digit(7)))), Some("Num7".to_string()));
}

#[test]
fn every_capturable_combo_parses_as_a_real_hotkey() {
    let keys = [
        Key::Letter('A'), Key::Letter('Z'), Key::Digit(0), Key::Digit(9), Key::Function(1),
        Key::Function(24), Key::ArrowUp, Key::ArrowDown, Key::ArrowLeft, Key::ArrowRight,
        Key::Space, Key::Tab, Key::Enter, Key::Backspace, Key::Insert, Key::Delete, Key::Home,
        Key::End, Key::PageUp, Key::PageDown, Key::Escape,
    ];
    for key in keys {
        let shown: String = key_label(&key).into_iter().collect();
        let events = vec![key_event(key, None)];
        match capture_hotkey(&events, &mut held(true, true, false, false)) {
            Capture::Captured(spec) => {
                global_hotkey::hotkey::HotKey::from_str(&spec)
                    .unwrap_or_else(|e| panic!("{spec:?} from {shown} failed to parse: {e}"));
            }
            _ => panic!("{shown} should have been captured"),
        }
    }
}

#[test]
fn each_row_badge_is_the_digit_that_selects_it() {
    for row in 0..10usize {
        let badge = badge_for(row).expect("the first ten rows carry a badge");
        let digit = badge.to_digit(10).expect("a badge is a digit") as u8;
        assert_eq!(digit_index(&Key::Digit(digit)), Some(row));
    }
    assert_eq!(badge_for(10), None);
    assert_eq!(badge_for(0), Some('1'));
    assert_eq!(badge_for(9), Some('0'));
}

fn settings_draft() -> ConfigWindowState {
    ConfigWindowState {
        hotkey_spec: "Ctrl+Alt+KeyV".to_string(),
        recording: false,
        autostart: true,
        lock_on_exit: false,
        auto_unlock: false,
        max_visible_items: 5,
        message: Some(("Saved.".to_string(), false)),
        held: held(true, false, false, false),
    }
}

#[test]
fn the_recorder_updates_the_draft_on_each_outcome() {
    let mut s = settings_draft();
    assert!(!s.record(&vec![key_event(Key::Letter('K'), Some(Key::Letter('K')))]));
    assert_eq!(s.hotkey_spec, "Ctrl+Alt+KeyV");

    s.start_recording();
    assert!(s.recording);
    assert!(s.message.is_none());
    assert!(!s.held.ctrl);

    assert!(s.record(&vec![key_event(Key::ControlLeft, Some(Key::ControlLeft))]));
    assert!(s.recording && s.held.ctrl);

    assert!(!s.record(&vec![key_event(Key::Other("Colon".to_string()), None)]));
    assert!(s.recording);
    assert_eq!(s.message, Some(("Colon isn't supported in a hotkey".to_string(), true)));

    assert!(!s.record(&vec![key_event(Key::Letter('K'), Some(Key::Letter('K')))]));
    assert!(!s.recording);
    assert_eq!(s.hotkey_spec, "Ctrl+KeyK");
    assert!(s.message.is_none());

    let mut s = settings_draft();
    s.held = held(false, false, false, false);
    s.start_recording();
    assert!(!s.record(&vec![key_event(Key::Escape, Some(Key::Escape))]));
    assert!(!s.recording);
    assert_eq!(s.hotkey_spec, "Ctrl+Alt+KeyV");
    assert_eq!(s.max_visible_items, 5);
}
