use context_password::controller::{DeliveryKind, VaultState};
use context_password::msg::{StaleNotice, VaultCmd, VaultResult};
use context_password::secret::Secret;
use context_password::session::{list_keys, Content, HotkeyChange, ListAction, ListKeys, Session};
use context_password::vault::{Entry, VaultErrorKind};

fn entry(id: &str, name: &str, username: Option<&str>, password: &str, has_totp: bool) -> Entry {
    Entry {
        id: id.to_string(),
        name: name.to_string(),
        username: username.map(|u| u.to_string()),
        ord: Some(1),
        password: Secret::new(password.to_string()),
        has_totp,
    }
}

fn two_entries() -> Vec<Entry> {
    vec![
        entry("id-a", "alpha", Some("alice"), "pw-a", false),
        entry("id-b", "beta", None, "pw-b", true),
    ]
}

fn items(entries: Vec<Entry>) -> VaultResult {
    VaultResult::Items { entries, dropped: 0, stale: None }
}

/// A session that has unlocked and shows the list, opened by the hotkey.
fn unlocked_on_list() -> Session {
    let mut s = Session::new();
    s.open_popup(true);
    s.submit_password("hunter2".to_string());
    s.handle_vault_result(items(two_entries()));
    s
}

fn no_keys() -> ListKeys {
    ListKeys {
        down: false,
        up: false,
        home: false,
        end: false,
        digit: None,
        enter: false,
        escape: false,
        blurred: false,
    }
}

#[test]
fn a_new_session_is_locked_on_an_empty_prompt() {
    let s = Session::new();
    assert!(s.vault_state == VaultState::Locked);
    assert!(s.cached.is_none());
    assert!(matches!(s.screen, Content::Prompting { error: None }));
    assert!(!s.visible);
}

#[test]
fn opening_a_locked_popup_prompts_and_asks_the_worker_nothing() {
    let mut s = Session::new();
    let e = s.open_popup(true);
    assert!(s.visible);
    assert!(s.has_target);
    assert!(e.send.is_none());
    assert!(e.replaced && e.relayout);
    assert!(matches!(s.screen, Content::Prompting { error: None }));
}

#[test]
fn an_open_popup_is_never_interrupted() {
    let mut s = Session::new();
    s.open_popup(false);
    s.submit_password("pw".to_string());
    let e = s.open_popup(true);
    assert!(!e.replaced);
    assert!(!s.has_target);
    assert!(matches!(s.screen, Content::Unlocking));
}

#[test]
fn submitting_an_empty_password_does_nothing() {
    let mut s = Session::new();
    s.open_popup(true);
    let e = s.submit_password(String::new());
    assert!(e.send.is_none());
    assert!(matches!(s.screen, Content::Prompting { .. }));
}

#[test]
fn submitting_a_password_sends_it_to_be_unlocked() {
    let mut s = Session::new();
    s.open_popup(true);
    let e = s.submit_password("hunter2".to_string());
    match e.send {
        Some(VaultCmd::Unlock(p)) => assert_eq!(p.expose(), "hunter2"),
        _ => panic!("expected an unlock command"),
    }
    assert!(matches!(s.screen, Content::Unlocking));
}

#[test]
fn a_list_unlocks_and_replaces_the_unlock_spinner() {
    let s = unlocked_on_list();
    assert!(s.vault_state == VaultState::Unlocked);
    assert_eq!(s.cached.as_ref().map(|c| c.0.len()), Some(2));
    assert!(matches!(s.screen, Content::ShowingList { selected: 0, message: None }));
}

#[test]
fn reopening_an_unlocked_popup_refreshes_the_list() {
    let mut s = unlocked_on_list();
    s.hide_popup();
    let e = s.open_popup(true);
    assert!(matches!(e.send, Some(VaultCmd::List)));
    assert!(matches!(s.screen, Content::ShowingList { selected: 0, .. }));
}

#[test]
fn a_background_refresh_keeps_the_selection_without_relayout() {
    let mut s = unlocked_on_list();
    s.select(1);
    let e = s.handle_vault_result(items(two_entries()));
    assert!(e.replaced);
    assert!(!e.relayout);
    assert!(matches!(s.screen, Content::ShowingList { selected: 1, message: None }));
}

#[test]
fn lock_forgets_everything_and_resumes_a_suspended_hotkey() {
    let mut s = unlocked_on_list();
    s.hotkey_suspended = true;
    let e = s.handle_lock();
    assert!(matches!(e.send, Some(VaultCmd::Lock)));
    assert!(e.resume_hotkey);
    assert!(s.cached.is_none());
    assert!(s.vault_state == VaultState::Locking);
    assert!(matches!(s.screen, Content::Locking));
}

#[test]
fn a_list_landing_while_a_lock_is_in_flight_is_dropped() {
    let mut s = unlocked_on_list();
    s.handle_lock();
    let e = s.handle_vault_result(items(two_entries()));
    assert!(e.deliver.is_none() && !e.replaced);
    assert!(s.cached.is_none());
    assert!(s.vault_state == VaultState::Locking);
}

#[test]
fn a_finished_lock_returns_to_the_prompt() {
    let mut s = unlocked_on_list();
    s.handle_lock();
    let e = s.handle_vault_result(VaultResult::Locked);
    assert!(e.replaced);
    assert!(s.vault_state == VaultState::Locked);
    assert!(matches!(s.screen, Content::Prompting { error: None }));
}

#[test]
fn a_failed_unlock_shows_its_message_on_the_prompt() {
    let mut s = Session::new();
    s.open_popup(true);
    s.submit_password("wrong".to_string());
    s.handle_vault_result(VaultResult::Failed {
        stage: "unlock",
        kind: VaultErrorKind::BadPassword,
        message: "Wrong master password.".to_string(),
    });
    match &s.screen {
        Content::Prompting { error: Some(m) } => assert_eq!(m, "Wrong master password."),
        _ => panic!("expected the prompt with an error"),
    }
    assert!(s.sync_stale.is_none());
}

#[test]
fn a_failed_sync_falls_back_to_the_list_and_marks_it_stale() {
    let mut s = unlocked_on_list();
    let e = s.handle_sync();
    assert!(matches!(e.send, Some(VaultCmd::Sync)));
    assert!(matches!(s.screen, Content::Syncing));
    let e = s.handle_vault_result(VaultResult::Failed {
        stage: "sync",
        kind: VaultErrorKind::Network,
        message: "offline".to_string(),
    });
    assert!(e.relayout);
    match &s.screen {
        Content::ShowingList { selected: 0, message: Some(m) } => assert_eq!(m, "sync: offline"),
        _ => panic!("expected the list with an inline message"),
    }
    let notice: &StaleNotice = s.sync_stale.as_ref().expect("a stale notice");
    assert_eq!(notice.reason, VaultErrorKind::Network);
    assert_eq!(notice.detail, "offline");
    assert!(notice.last_sync.is_none());
}

#[test]
fn sync_is_ignored_while_locked_or_already_syncing() {
    let mut s = Session::new();
    assert!(s.handle_sync().send.is_none());
    let mut s = unlocked_on_list();
    s.handle_sync();
    assert!(s.handle_sync().send.is_none());
}

#[test]
fn delivering_a_password_hands_over_the_secret_and_hides_the_popup() {
    let mut s = unlocked_on_list();
    let e = s.start_delivery(0, DeliveryKind::Password);
    assert_eq!(e.deliver.as_ref().map(|p| p.expose().to_string()), Some("pw-a".to_string()));
    assert!(s.delivering);
    assert!(!s.visible);
}

#[test]
fn delivering_a_username_types_the_username() {
    let mut s = unlocked_on_list();
    let e = s.start_delivery(0, DeliveryKind::Username);
    assert_eq!(e.deliver.as_ref().map(|p| p.expose().to_string()), Some("alice".to_string()));
}

#[test]
fn a_missing_username_is_said_inline_instead_of_typing() {
    let mut s = unlocked_on_list();
    let e = s.start_delivery(1, DeliveryKind::Username);
    assert!(e.deliver.is_none());
    match &s.screen {
        Content::ShowingList { selected: 1, message: Some(m) } => {
            assert_eq!(m, "This item has no username.")
        }
        _ => panic!("expected an inline message"),
    }
    assert!(!s.delivering);
}

#[test]
fn a_one_time_code_is_fetched_then_typed() {
    let mut s = unlocked_on_list();
    let e = s.start_delivery(1, DeliveryKind::Otp);
    match e.send {
        Some(VaultCmd::GetTotp(id)) => assert_eq!(id, "id-b"),
        _ => panic!("expected a TOTP request"),
    }
    assert!(matches!(s.screen, Content::FetchingOtp { selected: 1 }));
    let e = s.handle_vault_result(VaultResult::Totp(Secret::new("123456".to_string())));
    assert_eq!(e.deliver.as_ref().map(|p| p.expose().to_string()), Some("123456".to_string()));
    assert!(matches!(s.screen, Content::ShowingList { selected: 1, message: None }));
    assert!(s.delivering);
}

#[test]
fn a_one_time_code_on_an_item_without_one_is_said_inline() {
    let mut s = unlocked_on_list();
    let e = s.start_delivery(0, DeliveryKind::Otp);
    assert!(e.send.is_none());
    match &s.screen {
        Content::ShowingList { selected: 0, message: Some(m) } => {
            assert_eq!(m, "This item has no TOTP configured.")
        }
        _ => panic!("expected an inline message"),
    }
}

#[test]
fn a_code_with_no_window_to_type_into_is_not_typed() {
    let mut s = Session::new();
    s.open_popup(false);
    s.submit_password("pw".to_string());
    s.handle_vault_result(items(two_entries()));
    // No target: nothing to deliver into, so the row does nothing.
    let e = s.start_delivery(1, DeliveryKind::Otp);
    assert!(e.send.is_none());
    assert!(matches!(s.screen, Content::ShowingList { .. }));
}

#[test]
fn a_late_code_is_dropped() {
    let mut s = unlocked_on_list();
    let e = s.handle_vault_result(VaultResult::Totp(Secret::new("1".to_string())));
    assert!(e.deliver.is_none());
    assert!(!s.delivering);
}

#[test]
fn a_row_beyond_the_list_delivers_nothing() {
    let mut s = unlocked_on_list();
    let e = s.start_delivery(5, DeliveryKind::Password);
    assert!(e.deliver.is_none());
    assert!(!s.delivering);
}

#[test]
fn escape_while_fetching_goes_back_to_the_list() {
    let mut s = unlocked_on_list();
    s.start_delivery(1, DeliveryKind::Otp);
    s.escape();
    assert!(matches!(s.screen, Content::ShowingList { selected: 1, message: None }));
    assert!(s.visible);
}

#[test]
fn escape_on_the_prompt_hides_and_clears_it() {
    let mut s = Session::new();
    s.open_popup(true);
    let e = s.escape();
    assert!(e.replaced);
    assert!(!s.visible);
}

#[test]
fn blur_spares_the_busy_spinners() {
    let mut s = Session::new();
    s.open_popup(true);
    s.submit_password("pw".to_string());
    s.blur(true);
    assert!(s.visible);
    assert!(matches!(s.screen, Content::Unlocking));
}

#[test]
fn blur_while_fetching_depends_on_the_front_end() {
    let mut s = unlocked_on_list();
    s.start_delivery(1, DeliveryKind::Otp);
    s.blur(true);
    assert!(s.visible);
    s.blur(false);
    assert!(!s.visible);
}

#[test]
fn settings_and_about_have_no_target_and_reset_to_the_prompt_on_hide() {
    let mut s = Session::new();
    s.open_settings();
    assert!(matches!(s.screen, Content::Settings));
    assert!(!s.has_target);
    s.hide_popup();
    assert!(matches!(s.screen, Content::Prompting { error: None }));
    s.open_about();
    assert!(matches!(s.screen, Content::About));
}

#[test]
fn a_provider_switch_locks_at_once_without_a_lock_command() {
    let mut s = unlocked_on_list();
    s.delivering = true;
    let e = s.reset_for_provider_switch();
    assert!(e.send.is_none());
    assert!(s.vault_state == VaultState::Locked);
    assert!(s.cached.is_none());
    assert!(!s.delivering);
}

#[test]
fn visible_rows_caps_the_list() {
    let s = unlocked_on_list();
    assert_eq!(s.visible_rows(10), 2);
    assert_eq!(s.visible_rows(1), 1);
    assert_eq!(Session::new().visible_rows(10), 0);
}

#[test]
fn down_wraps_to_the_top_and_up_wraps_to_the_bottom() {
    let keys = ListKeys { down: true, ..no_keys() };
    let o = list_keys(2, 3, keys);
    assert_eq!(o.selected, 0);
    assert!(o.moved);
    assert_eq!(o.action, ListAction::Nothing);
    let keys = ListKeys { up: true, ..no_keys() };
    assert_eq!(list_keys(0, 3, keys).selected, 2);
}

#[test]
fn down_then_up_comes_back() {
    for count in 1..5usize {
        for sel in 0..count {
            let down = list_keys(sel, count, ListKeys { down: true, ..no_keys() }).selected;
            let back = list_keys(down, count, ListKeys { up: true, ..no_keys() }).selected;
            assert_eq!(back, sel);
        }
    }
}

#[test]
fn home_and_end_jump_to_the_ends() {
    assert_eq!(list_keys(1, 4, ListKeys { home: true, ..no_keys() }).selected, 0);
    assert_eq!(list_keys(1, 4, ListKeys { end: true, ..no_keys() }).selected, 3);
}

#[test]
fn a_digit_selects_and_delivers_in_one_press() {
    let o = list_keys(0, 3, ListKeys { digit: Some(2), ..no_keys() });
    assert_eq!(o.selected, 2);
    assert_eq!(o.action, ListAction::Deliver);
}

#[test]
fn a_digit_beyond_the_list_is_ignored() {
    let o = list_keys(0, 3, ListKeys { digit: Some(7), escape: true, ..no_keys() });
    assert_eq!(o.selected, 0);
    assert!(!o.moved);
    assert_eq!(o.action, ListAction::Hide);
}

#[test]
fn enter_on_an_empty_list_does_nothing_but_escape_still_hides() {
    let o = list_keys(0, 0, ListKeys { enter: true, ..no_keys() });
    assert_eq!(o.action, ListAction::Nothing);
    let o = list_keys(0, 0, ListKeys { escape: true, ..no_keys() });
    assert_eq!(o.action, ListAction::Hide);
}

#[test]
fn delivering_wins_over_dismissing_in_the_same_frame() {
    let o = list_keys(0, 3, ListKeys { enter: true, blurred: true, ..no_keys() });
    assert_eq!(o.action, ListAction::Deliver);
}

#[test]
fn a_list_that_lands_while_the_popup_is_hidden_is_not_placed() {
    let mut s = Session::new();
    s.open_popup(true);
    s.submit_password("hunter2".to_string());
    assert!(matches!(s.screen, Content::Unlocking));
    s.visible = false;
    let e = s.handle_vault_result(items(two_entries()));
    assert!(e.replaced);
    assert!(!e.relayout);
    assert!(matches!(s.screen, Content::ShowingList { selected: 0, message: None }));

    let mut s = unlocked_on_list();
    s.handle_sync();
    s.visible = false;
    let e = s.handle_vault_result(VaultResult::Failed {
        stage: "sync",
        kind: VaultErrorKind::Network,
        message: "offline".to_string(),
    });
    assert!(e.replaced);
    assert!(!e.relayout);
}

#[test]
fn recording_a_hotkey_suspends_the_live_one_until_it_stops() {
    let mut s = Session::new();
    assert_eq!(s.follow_recording(true), HotkeyChange::Keep);
    s.open_settings();
    assert_eq!(s.follow_recording(false), HotkeyChange::Keep);
    assert_eq!(s.follow_recording(true), HotkeyChange::Suspend);
    assert!(s.hotkey_suspended);
    assert_eq!(s.follow_recording(true), HotkeyChange::Keep);
    assert_eq!(s.follow_recording(false), HotkeyChange::Resume);
    assert!(!s.hotkey_suspended);
}
