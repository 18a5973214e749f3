//! The OS-agnostic state of the front-ends: the vault's lock state, quitting,
//! the delivery phases, and the autotype indicator's timing. Times are
//! milliseconds on a monotonic clock.

use vstd::prelude::*;

use crate::ui::popup::IconMode;
use crate::win::focus::ActivationResult;

verus! {

/// How long the indicator holds the typing glyph after text has landed.
pub const INDICATOR_MIN_TYPING_MS: u64 = 400;

/// How long the checkmark stays up.
pub const INDICATOR_CHECK_DURATION_MS: u64 = 2000;

/// Whether the vault currently has anything unlocked.
#[derive(Debug, Clone, Copy, PartialEq, Eq, Structural)]
pub enum VaultState {
    Locked,
    Unlocked,
    /// A lock has been sent but hasn't finished yet.
    Locking,
}

/// Quitting with `lock_on_exit` waits, up to a deadline, for the lock.
#[derive(Debug, Clone, Copy, PartialEq, Eq, Structural)]
pub enum ExitState {
    NotExiting,
    WaitingForLock { deadline: u64 },
}

/// The phases of the typing delivery sequence.
#[derive(Debug, Clone, Copy, PartialEq, Eq, Structural)]
pub enum DeliveryPhase {
    HidePopup,
    DrainModifiers,
    Activate,
    VerifyForeground,
    Settle,
}

/// The autotype indicator's state. `typed` is set the moment text lands;
/// an aborted delivery never sets it.
#[derive(Debug, Clone, Copy, PartialEq, Eq)]
pub enum IndicatorPhase {
    Typing { since: u64, typed: bool },
    Done { until: u64 },
}

/// The clock values involved in a step fit in a `u64`.
pub open spec fn indicator_step_fits(phase: IndicatorPhase, now: u64) -> bool {
    match phase {
        IndicatorPhase::Typing { since, typed } => since + INDICATOR_MIN_TYPING_MS <= u64::MAX && (
        typed && now >= since + INDICATOR_MIN_TYPING_MS ==> now + INDICATOR_CHECK_DURATION_MS
            <= u64::MAX),
        IndicatorPhase::Done { .. } => true,
    }
}

/// The indicator's next state at time `now`; `None` hides it.
pub open spec fn next_indicator_spec(phase: IndicatorPhase, now: u64) -> Option<IndicatorPhase> {
    match phase {
        IndicatorPhase::Typing { since, typed } => if typed && now >= since
            + INDICATOR_MIN_TYPING_MS {
            Some(IndicatorPhase::Done { until: (now + INDICATOR_CHECK_DURATION_MS) as u64 })
        } else {
            Some(phase)
        },
        IndicatorPhase::Done { until } => if now >= until {
            None
        } else {
            Some(phase)
        },
    }
}

/// Advances the indicator: the typing glyph turns into a checkmark only
/// once text has landed and the glyph has been up for
/// `INDICATOR_MIN_TYPING_MS`; the checkmark hides at its deadline.
pub fn next_indicator_phase(phase: IndicatorPhase, now: u64) -> (r: Option<IndicatorPhase>)
    requires
        indicator_step_fits(phase, now),
    ensures
        r == next_indicator_spec(phase, now),
{
    match phase {
        IndicatorPhase::Typing { since, typed } => {
            if typed && now >= since + INDICATOR_MIN_TYPING_MS {
                Some(IndicatorPhase::Done { until: now + INDICATOR_CHECK_DURATION_MS })
            } else {
                Some(phase)
            }
        },
        IndicatorPhase::Done { until } => {
            if now >= until {
                None
            } else {
                Some(phase)
            }
        },
    }
}

/// A checkmark never claims a delivery that didn't happen: whatever the
/// clock says, an indicator that has not typed stays on the typing glyph.
pub proof fn lemma_no_checkmark_without_typing(since: u64, now: u64)
    ensures
        next_indicator_spec(IndicatorPhase::Typing { since, typed: false }, now) == Some(
            IndicatorPhase::Typing { since, typed: false },
        ),
{
}

/// How long delivery waits for the hotkey's modifiers to be released.
pub const MODIFIER_DRAIN_TIMEOUT_MS: u64 = 500;

/// How long delivery waits for the target to come back to the foreground.
pub const FOREGROUND_VERIFY_TIMEOUT_MS: u64 = 500;

/// What a delivery phase needs to know of the world to take its step.
#[derive(Debug, Clone, Copy, PartialEq, Eq, Structural)]
pub enum DeliveryProbe {
    Nothing,
    /// Whether every modifier key is up.
    ModifiersUp,
    /// Whether the target window (or app) still exists.
    TargetAlive,
    /// Whether the target is the foreground window.
    TargetForeground,
    /// Whether the target can't receive synthetic keystrokes right now.
    Blocked,
}

/// Why a delivery gave up without typing.
#[derive(Debug, Clone, Copy, PartialEq, Eq, Structural)]
pub enum DeliveryAbort {
    TargetGone,
    ForegroundNotRestored,
    Blocked,
}

/// One step of the delivery sequence.
#[derive(Debug, Clone, Copy, PartialEq, Eq, Structural)]
pub enum DeliveryStep {
    /// Hide the popup window, then wait for the modifiers until `deadline`.
    Hide { deadline: u64 },
    /// Go on in `phase`, whose time limit (or settle time) is `deadline`.
    Wait { phase: DeliveryPhase, deadline: u64 },
    /// Bring the target to the foreground, then verify it until `deadline`.
    Activate { deadline: u64 },
    /// Type the secret now; the delivery is over.
    Type,
    /// Give up without typing; the delivery is over.
    Abort(DeliveryAbort),
}

/// The probe `phase` asks for at time `now`. A settling delivery asks
/// whether it is blocked only once it has settled.
pub open spec fn probe_spec(phase: DeliveryPhase, now: u64, deadline: u64) -> DeliveryProbe {
    match phase {
        DeliveryPhase::HidePopup => DeliveryProbe::Nothing,
        DeliveryPhase::DrainModifiers => DeliveryProbe::ModifiersUp,
        DeliveryPhase::Activate => DeliveryProbe::TargetAlive,
        DeliveryPhase::VerifyForeground => DeliveryProbe::TargetForeground,
        DeliveryPhase::Settle => if now >= deadline {
            DeliveryProbe::Blocked
        } else {
            DeliveryProbe::Nothing
        },
    }
}

/// Which probe a delivery in `phase` needs now.
pub fn delivery_probe(phase: DeliveryPhase, now: u64, deadline: u64) -> (p: DeliveryProbe)
    ensures
        p == probe_spec(phase, now, deadline),
{
    match phase {
        DeliveryPhase::HidePopup => DeliveryProbe::Nothing,
        DeliveryPhase::DrainModifiers => DeliveryProbe::ModifiersUp,
        DeliveryPhase::Activate => DeliveryProbe::TargetAlive,
        DeliveryPhase::VerifyForeground => DeliveryProbe::TargetForeground,
        DeliveryPhase::Settle => if now >= deadline {
            DeliveryProbe::Blocked
        } else {
            DeliveryProbe::Nothing
        },
    }
}

/// The clock values of a step fit in a `u64`.
pub open spec fn delivery_step_fits(now: u64, settle_ms: u32) -> bool {
    now + MODIFIER_DRAIN_TIMEOUT_MS <= u64::MAX && now + FOREGROUND_VERIFY_TIMEOUT_MS <= u64::MAX
        && now + settle_ms <= u64::MAX
}

/// The delivery sequence: hide the popup; wait (up to a limit) for the
/// hotkey's modifiers to be released, so the target doesn't see them
/// held; activate the target unless it is gone; wait (up to a limit) until
/// it is verifiably in the foreground, never typing into whatever else has
/// the focus; let it settle for `settle_ms`; then type, unless it is
/// blocked. `answer` is the answer to the phase's probe.
pub open spec fn delivery_step_spec(
    phase: DeliveryPhase,
    deadline: u64,
    now: u64,
    settle_ms: u32,
    answer: bool,
) -> DeliveryStep {
    match phase {
        DeliveryPhase::HidePopup => DeliveryStep::Hide {
            deadline: (now + MODIFIER_DRAIN_TIMEOUT_MS) as u64,
        },
        DeliveryPhase::DrainModifiers => if answer || now >= deadline {
            DeliveryStep::Wait { phase: DeliveryPhase::Activate, deadline }
        } else {
            DeliveryStep::Wait { phase, deadline }
        },
        DeliveryPhase::Activate => if !answer {
            DeliveryStep::Abort(DeliveryAbort::TargetGone)
        } else {
            DeliveryStep::Activate { deadline: (now + FOREGROUND_VERIFY_TIMEOUT_MS) as u64 }
        },
        DeliveryPhase::VerifyForeground => if answer {
            DeliveryStep::Wait {
                phase: DeliveryPhase::Settle,
                deadline: (now + settle_ms) as u64,
            }
        } else if now >= deadline {
            DeliveryStep::Abort(DeliveryAbort::ForegroundNotRestored)
        } else {
            DeliveryStep::Wait { phase, deadline }
        },
        DeliveryPhase::Settle => if now < deadline {
            DeliveryStep::Wait { phase, deadline }
        } else if answer {
            DeliveryStep::Abort(DeliveryAbort::Blocked)
        } else {
            DeliveryStep::Type
        },
    }
}

/// One step of a delivery in `phase` at time `now`.
pub fn delivery_step(phase: DeliveryPhase, deadline: u64, now: u64, settle_ms: u32, answer: bool) -> (s:
    DeliveryStep)
    requires
        delivery_step_fits(now, settle_ms),
    ensures
        s == delivery_step_spec(phase, deadline, now, settle_ms, answer),
{
    match phase {
        DeliveryPhase::HidePopup => DeliveryStep::Hide { deadline: now + MODIFIER_DRAIN_TIMEOUT_MS },
        DeliveryPhase::DrainModifiers => if answer || now >= deadline {
            DeliveryStep::Wait { phase: DeliveryPhase::Activate, deadline }
        } else {
            DeliveryStep::Wait { phase, deadline }
        },
        DeliveryPhase::Activate => if !answer {
            DeliveryStep::Abort(DeliveryAbort::TargetGone)
        } else {
            DeliveryStep::Activate { deadline: now + FOREGROUND_VERIFY_TIMEOUT_MS }
        },
        DeliveryPhase::VerifyForeground => if answer {
            DeliveryStep::Wait { phase: DeliveryPhase::Settle, deadline: now + settle_ms as u64 }
        } else if now >= deadline {
            DeliveryStep::Abort(DeliveryAbort::ForegroundNotRestored)
        } else {
            DeliveryStep::Wait { phase, deadline }
        },
        DeliveryPhase::Settle => if now < deadline {
            DeliveryStep::Wait { phase, deadline }
        } else if answer {
            DeliveryStep::Abort(DeliveryAbort::Blocked)
        } else {
            DeliveryStep::Type
        },
    }
}

/// The order of the phases.
pub open spec fn phase_rank(p: DeliveryPhase) -> int {
    match p {
        DeliveryPhase::HidePopup => 0,
        DeliveryPhase::DrainModifiers => 1,
        DeliveryPhase::Activate => 2,
        DeliveryPhase::VerifyForeground => 3,
        DeliveryPhase::Settle => 4,
    }
}

/// The phase a step leaves the delivery in, if it goes on.
pub open spec fn next_phase(s: DeliveryStep) -> Option<DeliveryPhase> {
    match s {
        DeliveryStep::Hide { .. } => Some(DeliveryPhase::DrainModifiers),
        DeliveryStep::Wait { phase, .. } => Some(phase),
        DeliveryStep::Activate { .. } => Some(DeliveryPhase::VerifyForeground),
        _ => None,
    }
}

/// Keystrokes are sent only by a settled delivery whose target is not
/// blocked, and a delivery settles only after its target was seen in the
/// foreground: nothing is ever typed into whatever else has the focus.
pub proof fn lemma_types_only_into_the_verified_foreground(
    phase: DeliveryPhase,
    deadline: u64,
    now: u64,
    settle_ms: u32,
    answer: bool,
)
    ensures
        delivery_step_spec(phase, deadline, now, settle_ms, answer) == DeliveryStep::Type ==> phase
            == DeliveryPhase::Settle && now >= deadline && probe_spec(phase, now, deadline)
            == DeliveryProbe::Blocked && !answer,
        next_phase(delivery_step_spec(phase, deadline, now, settle_ms, answer)) == Some(
            DeliveryPhase::Settle,
        ) ==> phase == DeliveryPhase::Settle || (phase == DeliveryPhase::VerifyForeground
            && probe_spec(phase, now, deadline) == DeliveryProbe::TargetForeground && answer),
{
}

/// A delivery never goes back to an earlier phase.
pub proof fn lemma_delivery_only_moves_forward(
    phase: DeliveryPhase,
    deadline: u64,
    now: u64,
    settle_ms: u32,
    answer: bool,
)
    ensures
        next_phase(delivery_step_spec(phase, deadline, now, settle_ms, answer)) matches Some(p)
            ==> phase_rank(phase) <= phase_rank(p),
{
}

/// A delivery waiting on the modifiers or on the foreground doesn't wait
/// past its time limit: at the limit it moves on or gives up.
pub proof fn lemma_waits_end_at_their_limit(
    phase: DeliveryPhase,
    deadline: u64,
    now: u64,
    settle_ms: u32,
    answer: bool,
)
    requires
        phase == DeliveryPhase::DrainModifiers || phase == DeliveryPhase::VerifyForeground,
        now >= deadline,
    ensures
        next_phase(delivery_step_spec(phase, deadline, now, settle_ms, answer)) != Some(phase),
{
}

/// How long quitting waits for the lock to finish.
pub const LOCK_ON_EXIT_TIMEOUT_MS: u64 = 3000;

/// What quitting does on this frame.
#[derive(Debug, Clone, Copy, PartialEq, Eq, Structural)]
pub enum ExitStep {
    Nothing,
    /// Cancel the close, lock the vault, and wait for it until the new
    /// state's deadline.
    CancelAndLock(ExitState),
    /// Keep waiting for the lock.
    Wait,
    /// Close now.
    Close,
}

/// Quitting with `lock_on_exit` set and the vault unlocked first locks it,
/// waiting for the lock to finish, but no longer than
/// `LOCK_ON_EXIT_TIMEOUT_MS`; otherwise the close goes through.
pub open spec fn exit_step_spec(
    state: ExitState,
    close_requested: bool,
    lock_on_exit: bool,
    vault: VaultState,
    now: u64,
) -> ExitStep {
    match state {
        ExitState::NotExiting => if close_requested && lock_on_exit && vault
            == VaultState::Unlocked {
            ExitStep::CancelAndLock(
                ExitState::WaitingForLock { deadline: (now + LOCK_ON_EXIT_TIMEOUT_MS) as u64 },
            )
        } else {
            ExitStep::Nothing
        },
        ExitState::WaitingForLock { deadline } => if vault != VaultState::Locking || now
            >= deadline {
            ExitStep::Close
        } else {
            ExitStep::Wait
        },
    }
}

/// This frame's step of quitting.
pub fn exit_step(
    state: ExitState,
    close_requested: bool,
    lock_on_exit: bool,
    vault: VaultState,
    now: u64,
) -> (s: ExitStep)
    requires
        now + LOCK_ON_EXIT_TIMEOUT_MS <= u64::MAX,
    ensures
        s == exit_step_spec(state, close_requested, lock_on_exit, vault, now),
{
    match state {
        ExitState::NotExiting => if close_requested && lock_on_exit && vault
            == VaultState::Unlocked {
            ExitStep::CancelAndLock(
                ExitState::WaitingForLock { deadline: now + LOCK_ON_EXIT_TIMEOUT_MS },
            )
        } else {
            ExitStep::Nothing
        },
        ExitState::WaitingForLock { deadline } => if vault != VaultState::Locking || now
            >= deadline {
            ExitStep::Close
        } else {
            ExitStep::Wait
        },
    }
}

/// Quitting never waits for a lock past its deadline.
pub proof fn lemma_exit_waits_no_longer_than_its_deadline(
    deadline: u64,
    close_requested: bool,
    lock_on_exit: bool,
    vault: VaultState,
    now: u64,
)
    requires
        now >= deadline,
    ensures
        exit_step_spec(
            ExitState::WaitingForLock { deadline },
            close_requested,
            lock_on_exit,
            vault,
            now,
        ) == ExitStep::Close,
{
}

/// Which field Enter or a digit delivers, by which modifier is held.
#[derive(Debug, Clone, Copy, PartialEq, Eq, Structural)]
pub enum DeliveryKind {
    Password,
    Username,
    Otp,
}

impl DeliveryKind {
    /// Shift wins over Alt if both are held.
    pub fn from_modifiers(shift: bool, alt: bool) -> (k: Self)
        ensures
            k == (if shift {
                DeliveryKind::Username
            } else if alt {
                DeliveryKind::Otp
            } else {
                DeliveryKind::Password
            }),
    {
        if shift {
            Self::Username
        } else if alt {
            Self::Otp
        } else {
            Self::Password
        }
    }

    /// The icon the list rows draw for this kind.
    pub fn icon_mode(self) -> (m: IconMode)
        ensures
            m == (match self {
                DeliveryKind::Password => IconMode::Password,
                DeliveryKind::Username => IconMode::Username,
                DeliveryKind::Otp => IconMode::Otp,
            }),
    {
        match self {
            Self::Password => IconMode::Password,
            Self::Username => IconMode::Username,
            Self::Otp => IconMode::Otp,
        }
    }
}

/// Counts which self-activation branch won, across repeated presses.
#[derive(Debug, Default, Clone, Copy)]
pub struct ActivationStats {
    pub direct: u32,
    pub attached: u32,
    pub failed: u32,
}

impl ActivationStats {
    /// Counts one more activation with outcome `result`.
    pub fn record(&mut self, result: ActivationResult)
        requires
            result == ActivationResult::Direct ==> old(self).direct < u32::MAX,
            result == ActivationResult::Attached ==> old(self).attached < u32::MAX,
            result == ActivationResult::Failed ==> old(self).failed < u32::MAX,
        ensures
            final(self).direct == old(self).direct + (if result == ActivationResult::Direct {
                1int
            } else {
                0int
            }),
            final(self).attached == old(self).attached + (if result == ActivationResult::Attached {
                1int
            } else {
                0int
            }),
            final(self).failed == old(self).failed + (if result == ActivationResult::Failed {
                1int
            } else {
                0int
            }),
    {
        match result {
            ActivationResult::Direct => self.direct += 1,
            ActivationResult::Attached => self.attached += 1,
            ActivationResult::Failed => self.failed += 1,
        }
    }
}

} // verus!
