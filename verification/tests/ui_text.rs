use context_password::mac_ui::app_delegate::{
    blocked_text, digit_from_keycode, hidden_by_cap_count, row_label, row_labels, stale_text,
};
use context_password::mac_ui::panel::{busy_label, hint_for, list_note, title_for, EMPTY_LIST_TEXT};
use context_password::mac_ui::settings::{provider_from_index, provider_index};
use context_password::mac_ui::state::{DeliveryKind as MacKind, PopupContent};
use context_password::msg::StaleNotice;
use context_password::platform::mac::permissions::block_reason;
use context_password::platform::BlockReason;
use context_password::secret::Secret;
use context_password::session::Content;
use context_password::ui::popup::{badge_for, list_hint, list_notes, IconMode, ListInfo};
use context_password::vault::{Entry, Provider, VaultErrorKind};

fn entry(name: &str, username: Option<&str>) -> Entry {
    Entry {
        id: "id".to_string(),
        name: name.to_string(),
        username: username.map(str::to_string),
        ord: Some(1),
        password: Secret::new("pw".to_string()),
        has_totp: false,
    }
}

fn list() -> PopupContent {
    PopupContent::ShowingList { selected: 0, message: None }
}

#[test]
fn badges_number_the_first_ten_rows() {
    assert_eq!(badge_for(0), Some('1'));
    assert_eq!(badge_for(8), Some('9'));
    assert_eq!(badge_for(9), Some('0'));
    assert_eq!(badge_for(10), None);
}

#[test]
fn the_list_hint_follows_the_held_modifier() {
    assert_eq!(list_hint(IconMode::Password), "Up/Down · Enter types password · Esc dismisses");
    assert_eq!(list_hint(IconMode::Username), "Up/Down · Enter types username · Esc dismisses");
    assert_eq!(list_hint(IconMode::Otp), "Up/Down · Enter types one-time code · Esc dismisses");
}

#[test]
fn list_notes_appear_only_when_they_apply() {
    let info = ListInfo {
        dropped: 2,
        hidden_by_cap: 13,
        message: Some("This item has no username."),
        target_elevated: true,
        icon_mode: IconMode::Password,
    };
    let notes = list_notes(&info);
    assert_eq!(notes.dropped.as_deref(), Some("(2 item(s) hidden — see log)"));
    assert_eq!(notes.hidden.as_deref(), Some("(13 more not shown — raise Max visible items in Settings)"));
    assert!(notes.elevated);
    assert_eq!(notes.message.as_deref(), Some("This item has no username."));
    let quiet = ListInfo { dropped: 0, hidden_by_cap: 0, message: None, target_elevated: false, icon_mode: IconMode::Otp };
    let notes = list_notes(&quiet);
    assert!(notes.dropped.is_none() && notes.hidden.is_none() && notes.message.is_none() && !notes.elevated);
}

#[test]
fn panel_titles_hints_and_spinner_labels() {
    assert_eq!(title_for(&PopupContent::fresh_prompt()), "Context Password — Unlock");
    assert_eq!(title_for(&list()), "Context Password");
    assert_eq!(hint_for(&PopupContent::fresh_prompt()), "⏎ unlock · ⎋ dismiss");
    assert_eq!(hint_for(&PopupContent::Syncing), "⎋ dismiss");
    assert_eq!(hint_for(&PopupContent::FetchingOtp { selected: 0 }), "⎋ back to list");
    assert_eq!(hint_for(&list()), "⏎ password · ⇧⏎ user · ⌥⏎ OTP");
    assert_eq!(busy_label(&PopupContent::Unlocking), Some("Unlocking vault…"));
    assert_eq!(busy_label(&PopupContent::Locking), Some("Locking vault…"));
    assert_eq!(busy_label(&PopupContent::FetchingOtp { selected: 2 }), Some("Fetching code…"));
    assert_eq!(busy_label(&list()), None);
    assert_eq!(EMPTY_LIST_TEXT, "No items tagged for this app yet.");
}

#[test]
fn the_cap_aside_wins_over_the_inline_message() {
    let note = list_note(3, Some("no username")).expect("a note");
    assert!(note.aside);
    assert_eq!(note.text, "(3 more not shown — raise Max visible items in Settings)");
    let note = list_note(0, Some("no username")).expect("a note");
    assert!(!note.aside);
    assert_eq!(note.text, "no username");
    assert!(list_note(0, None).is_none());
}

#[test]
fn screens_map_onto_the_panel_content() {
    assert!(matches!(Content::fresh_prompt().popup_content(), Some(PopupContent::Prompting { error: None })));
    let s = Content::ShowingList { selected: 2, message: Some("m".to_string()) };
    match s.popup_content() {
        Some(PopupContent::ShowingList { selected: 2, message: Some(m) }) => assert_eq!(m, "m"),
        _ => panic!("expected the list"),
    }
    assert!(Content::Settings.popup_content().is_none());
    assert!(Content::About.popup_content().is_none());
}

#[test]
fn row_labels_carry_the_username_and_stop_at_the_cap() {
    assert_eq!(row_label(&entry("nas", Some("admin"))), "nas (admin)");
    assert_eq!(row_label(&entry("git", None)), "git");
    let entries = vec![entry("a", None), entry("b", Some("u")), entry("c", None)];
    assert_eq!(row_labels(&entries, 2), vec!["a".to_string(), "b (u)".to_string()]);
    assert_eq!(hidden_by_cap_count(3, 2), 1);
    assert_eq!(hidden_by_cap_count(2, 4), 0);
}

#[test]
fn mac_digit_keycodes_cover_the_top_row_and_the_keypad() {
    assert_eq!(digit_from_keycode(18), Some(0));
    assert_eq!(digit_from_keycode(83), Some(0));
    assert_eq!(digit_from_keycode(29), Some(9));
    assert_eq!(digit_from_keycode(82), Some(9));
    assert_eq!(digit_from_keycode(0), None);
}

#[test]
fn the_stale_banner_shows_only_on_the_list() {
    let notice = Some(StaleNotice {
        reason: VaultErrorKind::Network,
        last_sync: Some("2024-05-01T10:00:00Z".to_string()),
        detail: "offline".to_string(),
    });
    assert_eq!(
        stale_text(&list(), &notice).as_deref(),
        Some("Offline — showing the cached vault (last synced 2024-05-01T10:00:00Z).")
    );
    assert_eq!(stale_text(&PopupContent::Unlocking, &notice), None);
    let undated = Some(StaleNotice { reason: VaultErrorKind::Network, last_sync: None, detail: String::new() });
    assert_eq!(stale_text(&list(), &undated).as_deref(), Some("Offline — showing the cached vault, which may be stale."));
    assert_eq!(stale_text(&list(), &None), None);
}

#[test]
fn blocked_targets_are_named_on_the_list() {
    assert_eq!(
        blocked_text(&list(), Some(BlockReason::SecureInput), Some("Terminal".to_string())).as_deref(),
        Some("Secure input active in Terminal — typing is blocked.")
    );
    assert_eq!(
        blocked_text(&list(), Some(BlockReason::SecureInput), None).as_deref(),
        Some("Secure input active system-wide — typing is blocked.")
    );
    assert_eq!(
        blocked_text(&list(), Some(BlockReason::NoAccessibility), None).as_deref(),
        Some("Accessibility permission not granted — typing would be blocked.")
    );
    assert_eq!(blocked_text(&PopupContent::Unlocking, Some(BlockReason::Elevated), None), None);
    assert_eq!(blocked_text(&list(), None, None), None);
}

#[test]
fn accessibility_is_checked_before_secure_input() {
    assert_eq!(block_reason(false, true), Some(BlockReason::NoAccessibility));
    assert_eq!(block_reason(true, true), Some(BlockReason::SecureInput));
    assert_eq!(block_reason(true, false), None);
}

#[test]
fn provider_rows_round_trip() {
    for p in [Provider::Bitwarden, Provider::KeePass] {
        assert_eq!(provider_from_index(provider_index(p)), p);
    }
    assert_eq!(provider_from_index(7), Provider::Bitwarden);
}

#[test]
fn shift_wins_over_option() {
    assert!(MacKind::from_flags(true, true) == MacKind::Username);
    assert!(MacKind::from_flags(false, true) == MacKind::Otp);
    assert!(MacKind::from_flags(false, false) == MacKind::Password);
}
