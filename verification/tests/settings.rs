use context_password::config::{Config, HostOs, UnlockMode};
use context_password::mac_ui::settings::Draft;
use context_password::settings::{apply_settings, check_database, save_error, settings_plan};
use context_password::vault::Provider;

fn draft_from(cfg: &Config) -> Draft {
    Draft {
        provider: cfg.provider,
        keepass_path: cfg.keepass_path.clone(),
        hotkey_spec: cfg.hotkey.clone(),
        autostart: cfg.autostart,
        auto_unlock: cfg.unlock_mode == UnlockMode::Delayed,
        lock_on_exit: cfg.lock_on_exit,
        max_visible_items: cfg.max_visible_items,
    }
}

#[test]
fn an_unchanged_draft_attempts_nothing() {
    let cfg = Config::default_for(HostOs::Windows);
    let plan = settings_plan(&cfg, &draft_from(&cfg), Some(cfg.autostart));
    assert!(!plan.set_hotkey);
    assert!(!plan.set_autostart);
}

#[test]
fn autostart_is_skipped_where_unavailable() {
    let cfg = Config::default_for(HostOs::MacOs);
    let mut d = draft_from(&cfg);
    d.autostart = true;
    assert!(!settings_plan(&cfg, &d, None).set_autostart);
    assert!(settings_plan(&cfg, &d, Some(false)).set_autostart);
}

#[test]
fn a_missing_keepass_database_refuses_the_save() {
    let cfg = Config::default_for(HostOs::Windows);
    let mut d = draft_from(&cfg);
    d.provider = Provider::KeePass;
    d.keepass_path = "  /tmp/missing.kdbx ".to_string();
    assert_eq!(check_database(&d, false), Err("KeePass database not found: /tmp/missing.kdbx".to_string()));
    assert_eq!(check_database(&d, true), Ok(()));
    d.provider = Provider::Bitwarden;
    assert_eq!(check_database(&d, false), Ok(()));
}

#[test]
fn a_successful_save_takes_every_field_and_clamps_the_count() {
    let mut cfg = Config::default_for(HostOs::Windows);
    let mut d = draft_from(&cfg);
    d.provider = Provider::KeePass;
    d.keepass_path = " /db.kdbx ".to_string();
    d.hotkey_spec = "Ctrl+Alt+KeyB".to_string();
    d.autostart = true;
    d.auto_unlock = false;
    d.lock_on_exit = true;
    d.max_visible_items = 99;
    let error = apply_settings(&mut cfg, &d, Some(false), Some(Ok(())), Some(Ok(())));
    assert_eq!(error, None);
    assert_eq!(cfg.provider, Provider::KeePass);
    assert_eq!(cfg.keepass_path, "/db.kdbx");
    assert_eq!(cfg.hotkey, "Ctrl+Alt+KeyB");
    assert!(cfg.autostart);
    assert_eq!(cfg.unlock_mode, UnlockMode::Lazy);
    assert!(cfg.lock_on_exit);
    assert_eq!(cfg.max_visible_items, 10);
}

#[test]
fn a_failed_hotkey_keeps_the_old_one_but_applies_the_rest() {
    let mut cfg = Config::default_for(HostOs::Windows);
    let mut d = draft_from(&cfg);
    d.hotkey_spec = "Ctrl+Alt+KeyB".to_string();
    d.lock_on_exit = true;
    d.max_visible_items = 1;
    let error = apply_settings(&mut cfg, &d, Some(false), Some(Err("AlreadyRegistered".to_string())), None);
    assert_eq!(error, Some("hotkey: AlreadyRegistered".to_string()));
    assert_eq!(cfg.hotkey, "Ctrl+Alt+KeyV");
    assert!(cfg.lock_on_exit);
    assert_eq!(cfg.max_visible_items, 3);
}

#[test]
fn the_first_failure_is_the_one_reported() {
    let mut cfg = Config::default_for(HostOs::Windows);
    let mut d = draft_from(&cfg);
    d.hotkey_spec = "Ctrl+Alt+KeyB".to_string();
    d.autostart = true;
    let error = apply_settings(
        &mut cfg,
        &d,
        Some(false),
        Some(Err("bad hotkey".to_string())),
        Some(Err("registry".to_string())),
    );
    assert_eq!(error, Some("hotkey: bad hotkey".to_string()));
    assert!(!cfg.autostart);
    let mut cfg = Config::default_for(HostOs::Windows);
    let error = apply_settings(&mut cfg, &d, Some(false), Some(Ok(())), Some(Err("registry".to_string())));
    assert_eq!(error, Some("autostart: registry".to_string()));
}

#[test]
fn a_failed_save_is_reported_only_when_nothing_else_failed() {
    assert_eq!(save_error(None, Ok(())), None);
    assert_eq!(save_error(None, Err("disk full".to_string())), Some("saving config: disk full".to_string()));
    assert_eq!(save_error(Some("hotkey: x".to_string()), Err("disk full".to_string())), Some("hotkey: x".to_string()));
}
