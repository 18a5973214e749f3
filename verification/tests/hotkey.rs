use std::str::FromStr;

use context_password::hotkey::{after_register, hotkey_from_spec, plan_hotkey_swap, summons, HotkeySwap};
use global_hotkey::hotkey::HotKey;

fn id_of(spec: &str) -> u32 {
    HotKey::from_str(spec).unwrap().id()
}

#[test]
fn a_configured_spec_names_its_combination() {
    let parsed = hotkey_from_spec("Ctrl+Alt+KeyV").expect("a valid spec");
    assert_eq!(parsed.id, id_of("Ctrl+Alt+KeyV"));
    assert_eq!(parsed.hotkey, HotKey::from_str("Ctrl+Alt+KeyV").unwrap());
    // Two spellings of one combination share the id.
    assert_eq!(hotkey_from_spec("alt+ctrl+v").unwrap().id, parsed.id);
    assert!(hotkey_from_spec("Ctrl+Alt+Nothing").is_err());
}

#[test]
fn changing_to_the_same_combination_does_nothing() {
    let current = id_of("Ctrl+Alt+KeyV");
    assert!(matches!(plan_hotkey_swap(current, "Ctrl+Alt+KeyV"), HotkeySwap::Unchanged));
}

#[test]
fn changing_to_another_combination_registers_it() {
    let current = id_of("Ctrl+Alt+KeyV");
    match plan_hotkey_swap(current, "Ctrl+Shift+KeyP") {
        HotkeySwap::Register(p) => assert_eq!(p.id, id_of("Ctrl+Shift+KeyP")),
        _ => panic!("expected a registration"),
    }
}

#[test]
fn a_spec_that_is_no_hotkey_is_refused_with_the_parsers_reason() {
    let current = id_of("Ctrl+Alt+KeyV");
    let expected = HotKey::from_str("Ctrl+Alt+Nothing").unwrap_err().to_string();
    match plan_hotkey_swap(current, "Ctrl+Alt+Nothing") {
        HotkeySwap::Refused(why) => assert_eq!(why, expected),
        _ => panic!("expected a refusal"),
    }
}

#[test]
fn a_failed_registration_keeps_the_old_hotkey() {
    assert_eq!(after_register(7, 9, true), (9, true));
    assert_eq!(after_register(7, 9, false), (7, false));
}

#[test]
fn only_a_press_of_the_hotkey_in_force_summons_the_popup() {
    assert!(summons(7, 7, true));
    assert!(!summons(7, 7, false));
    assert!(!summons(7, 8, true));
}
