use context_password::config::{Config, HostOs, UnlockMode, MAX_VISIBLE_ITEMS, MIN_VISIBLE_ITEMS};
use context_password::vault::Provider;

#[test]
fn effective_max_visible_clamps_an_out_of_range_value() {
    let cfg = Config { max_visible_items: 1, ..Config::default() };
    assert_eq!(cfg.effective_max_visible(), MIN_VISIBLE_ITEMS as usize);
    let cfg = Config { max_visible_items: 99, ..Config::default() };
    assert_eq!(cfg.effective_max_visible(), MAX_VISIBLE_ITEMS as usize);
    let cfg = Config { max_visible_items: 5, ..Config::default() };
    assert_eq!(cfg.effective_max_visible(), 5);
}

#[test]
fn defaults_match_the_documented_out_of_the_box_settings() {
    let cfg = Config::default();
    assert_eq!(cfg.hotkey, "Ctrl+Alt+KeyV");
    assert_eq!(cfg.unlock_mode, UnlockMode::Delayed);
    assert_eq!(cfg.unlock_delay_secs, 20);
    assert!(!cfg.autostart);
    assert_eq!(cfg.bw_path, "");
    assert_eq!(cfg.uri_prefix, "app://context-password");
    assert_eq!(cfg.type_settle_ms, 30);
    assert_eq!(cfg.max_visible_items, 4);
    assert!(!cfg.lock_on_exit);
    assert!(!cfg.debug_log);
    assert_eq!(cfg.provider, Provider::Bitwarden);
    assert_eq!(cfg.keepass_path, "");
}

#[test]
fn macos_default_hotkey_uses_cmd() {
    assert_eq!(Config::default_for(HostOs::MacOs).hotkey, "Cmd+Shift+KeyV");
}

#[test]
fn bounds_themselves_are_kept() {
    let cfg = Config { max_visible_items: MIN_VISIBLE_ITEMS, ..Config::default() };
    assert_eq!(cfg.effective_max_visible(), 3);
    let cfg = Config { max_visible_items: MAX_VISIBLE_ITEMS, ..Config::default() };
    assert_eq!(cfg.effective_max_visible(), 10);
}
