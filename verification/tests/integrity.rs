use context_password::win::integrity::{our_integrity_rid, target_is_higher, INTEGRITY_MEDIUM};

#[test]
fn unreadable_own_token_counts_as_medium() {
    assert_eq!(our_integrity_rid(None), 0x2000);
    assert_eq!(INTEGRITY_MEDIUM, 0x2000);
    assert_eq!(our_integrity_rid(Some(0x3000)), 0x3000);
}

#[test]
fn a_target_above_us_is_higher() {
    assert!(target_is_higher(Some(0x3000), 0x2000));
    assert!(!target_is_higher(Some(0x2000), 0x2000));
    assert!(!target_is_higher(Some(0x1000), 0x2000));
}

#[test]
fn an_unreadable_target_counts_as_higher() {
    assert!(target_is_higher(None, 0x2000));
    assert!(target_is_higher(None, 0x4000));
}
