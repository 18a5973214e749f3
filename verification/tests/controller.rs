use context_password::controller::{
    delivery_probe, delivery_step, exit_step, next_indicator_phase, ActivationStats, DeliveryAbort,
    DeliveryKind, DeliveryPhase, DeliveryProbe, DeliveryStep, ExitState, ExitStep, IndicatorPhase,
    VaultState, FOREGROUND_VERIFY_TIMEOUT_MS, INDICATOR_CHECK_DURATION_MS, INDICATOR_MIN_TYPING_MS,
    LOCK_ON_EXIT_TIMEOUT_MS, MODIFIER_DRAIN_TIMEOUT_MS,
};
use context_password::ui::popup::IconMode;
use context_password::win::focus::ActivationResult;

/// An arbitrary monotonic-clock reading, in milliseconds.
const NOW: u64 = 5_000_000;

#[test]
fn typing_holds_the_glyph_even_after_typed_until_the_minimum_elapses() {
    let now = NOW;
    let phase = IndicatorPhase::Typing { since: now, typed: true };
    // Just short of the floor: the burst finished almost instantly, but
    // the glyph must still be showing.
    let next = next_indicator_phase(phase, now + INDICATOR_MIN_TYPING_MS - 1);
    assert_eq!(next, Some(phase));
}

#[test]
fn typing_not_yet_typed_never_transitions_on_its_own() {
    let now = NOW;
    let phase = IndicatorPhase::Typing { since: now, typed: false };
    // Delivery can legitimately take longer than the floor before it ever
    // types — that must not be mistaken for "done".
    let next = next_indicator_phase(phase, now + INDICATOR_MIN_TYPING_MS * 10);
    assert_eq!(next, Some(phase));
}

#[test]
fn typed_and_past_the_floor_becomes_done() {
    let now = NOW;
    let phase = IndicatorPhase::Typing { since: now, typed: true };
    let after = now + INDICATOR_MIN_TYPING_MS;
    match next_indicator_phase(phase, after) {
        Some(IndicatorPhase::Done { until }) => {
            assert_eq!(until, after + INDICATOR_CHECK_DURATION_MS);
        }
        other => panic!("expected Done, got {other:?}"),
    }
}

#[test]
fn done_stays_up_until_its_deadline() {
    let until = NOW + INDICATOR_CHECK_DURATION_MS;
    let phase = IndicatorPhase::Done { until };
    let next = next_indicator_phase(phase, until - 1);
    assert_eq!(next, Some(phase));
}

#[test]
fn done_hides_once_its_deadline_passes() {
    let until = NOW;
    let phase = IndicatorPhase::Done { until };
    assert_eq!(next_indicator_phase(phase, until), None);
}

#[test]
fn untyped_indicator_never_shows_a_checkmark_however_late() {
    let phase = IndicatorPhase::Typing { since: 0, typed: false };
    assert_eq!(next_indicator_phase(phase, 1_000_000_000), Some(phase));
}

#[test]
fn shift_wins_over_alt_for_the_delivered_field() {
    assert!(DeliveryKind::from_modifiers(true, true) == DeliveryKind::Username);
    assert!(DeliveryKind::from_modifiers(false, true) == DeliveryKind::Otp);
    assert!(DeliveryKind::from_modifiers(false, false) == DeliveryKind::Password);
}

#[test]
fn each_delivery_kind_has_its_own_icon() {
    assert_eq!(DeliveryKind::Password.icon_mode(), IconMode::Password);
    assert_eq!(DeliveryKind::Username.icon_mode(), IconMode::Username);
    assert_eq!(DeliveryKind::Otp.icon_mode(), IconMode::Otp);
}

#[test]
fn activation_stats_count_each_outcome() {
    let mut stats = ActivationStats::default();
    stats.record(ActivationResult::Direct);
    stats.record(ActivationResult::Direct);
    stats.record(ActivationResult::Attached);
    stats.record(ActivationResult::Failed);
    assert_eq!((stats.direct, stats.attached, stats.failed), (2, 1, 1));
}

#[test]
fn a_delivery_hides_the_popup_then_drains_the_modifiers() {
    let step = delivery_step(DeliveryPhase::HidePopup, NOW, NOW, 50, false);
    assert_eq!(step, DeliveryStep::Hide { deadline: NOW + MODIFIER_DRAIN_TIMEOUT_MS });
    assert_eq!(delivery_probe(DeliveryPhase::HidePopup, NOW, NOW), DeliveryProbe::Nothing);
}

#[test]
fn draining_waits_for_the_modifiers_but_not_past_its_limit() {
    let deadline = NOW + MODIFIER_DRAIN_TIMEOUT_MS;
    assert_eq!(
        delivery_step(DeliveryPhase::DrainModifiers, deadline, NOW, 50, false),
        DeliveryStep::Wait { phase: DeliveryPhase::DrainModifiers, deadline }
    );
    assert_eq!(
        delivery_step(DeliveryPhase::DrainModifiers, deadline, NOW, 50, true),
        DeliveryStep::Wait { phase: DeliveryPhase::Activate, deadline }
    );
    assert_eq!(
        delivery_step(DeliveryPhase::DrainModifiers, deadline, deadline, 50, false),
        DeliveryStep::Wait { phase: DeliveryPhase::Activate, deadline }
    );
}

#[test]
fn a_vanished_target_aborts_instead_of_activating() {
    assert_eq!(
        delivery_step(DeliveryPhase::Activate, NOW, NOW, 50, false),
        DeliveryStep::Abort(DeliveryAbort::TargetGone)
    );
    assert_eq!(
        delivery_step(DeliveryPhase::Activate, NOW, NOW, 50, true),
        DeliveryStep::Activate { deadline: NOW + FOREGROUND_VERIFY_TIMEOUT_MS }
    );
}

#[test]
fn settling_starts_only_once_the_target_is_in_the_foreground() {
    let deadline = NOW + FOREGROUND_VERIFY_TIMEOUT_MS;
    assert_eq!(
        delivery_step(DeliveryPhase::VerifyForeground, deadline, NOW, 50, true),
        DeliveryStep::Wait { phase: DeliveryPhase::Settle, deadline: NOW + 50 }
    );
    assert_eq!(
        delivery_step(DeliveryPhase::VerifyForeground, deadline, NOW, 50, false),
        DeliveryStep::Wait { phase: DeliveryPhase::VerifyForeground, deadline }
    );
    assert_eq!(
        delivery_step(DeliveryPhase::VerifyForeground, deadline, deadline, 50, false),
        DeliveryStep::Abort(DeliveryAbort::ForegroundNotRestored)
    );
}

#[test]
fn a_settled_delivery_types_unless_blocked() {
    let deadline = NOW + 50;
    assert_eq!(delivery_probe(DeliveryPhase::Settle, NOW, deadline), DeliveryProbe::Nothing);
    assert_eq!(
        delivery_step(DeliveryPhase::Settle, deadline, NOW, 50, false),
        DeliveryStep::Wait { phase: DeliveryPhase::Settle, deadline }
    );
    assert_eq!(delivery_probe(DeliveryPhase::Settle, deadline, deadline), DeliveryProbe::Blocked);
    assert_eq!(delivery_step(DeliveryPhase::Settle, deadline, deadline, 50, false), DeliveryStep::Type);
    assert_eq!(
        delivery_step(DeliveryPhase::Settle, deadline, deadline, 50, true),
        DeliveryStep::Abort(DeliveryAbort::Blocked)
    );
}

#[test]
fn quitting_unlocked_with_lock_on_exit_locks_first() {
    let step = exit_step(ExitState::NotExiting, true, true, VaultState::Unlocked, NOW);
    assert_eq!(
        step,
        ExitStep::CancelAndLock(ExitState::WaitingForLock { deadline: NOW + LOCK_ON_EXIT_TIMEOUT_MS })
    );
    assert_eq!(exit_step(ExitState::NotExiting, true, false, VaultState::Unlocked, NOW), ExitStep::Nothing);
    assert_eq!(exit_step(ExitState::NotExiting, true, true, VaultState::Locked, NOW), ExitStep::Nothing);
    assert_eq!(exit_step(ExitState::NotExiting, false, true, VaultState::Unlocked, NOW), ExitStep::Nothing);
}

#[test]
fn quitting_waits_for_the_lock_but_not_past_the_deadline() {
    let waiting = ExitState::WaitingForLock { deadline: NOW + 10 };
    assert_eq!(exit_step(waiting, false, true, VaultState::Locking, NOW), ExitStep::Wait);
    assert_eq!(exit_step(waiting, false, true, VaultState::Locked, NOW), ExitStep::Close);
    assert_eq!(exit_step(waiting, false, true, VaultState::Locking, NOW + 10), ExitStep::Close);
}
