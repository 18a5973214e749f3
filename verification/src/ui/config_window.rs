//! The settings screen's working state, and the hotkey recorder.

use vstd::prelude::*;

use super::keys::{is_modifier_key, is_modifier_spec, key_label, key_label_spec, key_name, key_name_spec, Key, KeyEvent};
use crate::text::string_of;
use vstd::string::StringExecFns;

verus! {

/// Working copy of the settings being edited; separate from the live
/// `Config` until Save is clicked, so a cancelled dialog changes nothing.
#[derive(Clone)]
pub struct ConfigWindowState {
    pub hotkey_spec: String,
    pub recording: bool,
    pub autostart: bool,
    pub lock_on_exit: bool,
    /// `UnlockMode::Delayed` when set, `UnlockMode::Lazy` otherwise.
    pub auto_unlock: bool,
    pub max_visible_items: u32,
    pub message: Option<(String, bool)>,
    /// Physical modifier keys currently held while recording.
    pub held: HeldMods,
}

/// The physical modifier keys held while recording a hotkey. AltGr counts
/// as both Ctrl and Alt.
#[derive(Clone, Copy, Default)]
pub struct HeldMods {
    pub ctrl: bool,
    pub alt: bool,
    pub alt_gr: bool,
    pub shift: bool,
}

/// What the settings screen asks of its host after a frame.
pub enum Action {
    /// Nothing to do yet.
    Nothing,
    Save,
    Cancel,
}

/// What the hotkey recorder made of a frame's key events.
pub enum Capture {
    /// No key event that decides anything yet; keep listening.
    Waiting,
    /// A full, valid combination, as a hotkey spec (`Ctrl+Alt+KeyV`).
    Captured(String),
    /// A key that can't become a hotkey, with why; keep listening.
    Rejected(String),
    /// Escape with no modifier held: the user wants out.
    Cancelled,
}

/// The mathematical content of a [`Capture`].
pub enum CaptureView {
    Waiting,
    Captured(Seq<char>),
    Rejected(Seq<char>),
    Cancelled,
}

impl View for Capture {
    type V = CaptureView;

    open spec fn view(&self) -> CaptureView {
        match self {
            Capture::Waiting => CaptureView::Waiting,
            Capture::Captured(s) => CaptureView::Captured(s@),
            Capture::Rejected(s) => CaptureView::Rejected(s@),
            Capture::Cancelled => CaptureView::Cancelled,
        }
    }
}

/// The held modifiers after one event, tracked from the physical modifier
/// keys' own presses and releases.
pub open spec fn held_after(h: HeldMods, e: KeyEvent) -> HeldMods {
    match e.physical_key {
        Some(Key::ControlLeft) | Some(Key::ControlRight) => HeldMods {
            ctrl: e.pressed,
            alt: h.alt,
            alt_gr: h.alt_gr,
            shift: h.shift,
        },
        Some(Key::AltLeft) => HeldMods { ctrl: h.ctrl, alt: e.pressed, alt_gr: h.alt_gr, shift: h.shift },
        Some(Key::AltRight) => HeldMods { ctrl: h.ctrl, alt: h.alt, alt_gr: e.pressed, shift: h.shift },
        Some(Key::ShiftLeft) | Some(Key::ShiftRight) => HeldMods {
            ctrl: h.ctrl,
            alt: h.alt,
            alt_gr: h.alt_gr,
            shift: e.pressed,
        },
        _ => h,
    }
}

/// Ctrl counts as held under AltGr.
pub open spec fn ctrl_held(h: HeldMods) -> bool {
    h.ctrl || h.alt_gr
}

/// Alt counts as held under AltGr.
pub open spec fn alt_held(h: HeldMods) -> bool {
    h.alt || h.alt_gr
}

/// The hotkey spec of `name` under the held modifiers: `Ctrl+`, `Alt+`,
/// `Shift+`, in that order, then the key's name.
pub open spec fn combo_spec(h: HeldMods, name: Seq<char>) -> Seq<char> {
    (if ctrl_held(h) {
        "Ctrl+"@
    } else {
        Seq::empty()
    }) + (if alt_held(h) {
        "Alt+"@
    } else {
        Seq::empty()
    }) + (if h.shift {
        "Shift+"@
    } else {
        Seq::empty()
    }) + name
}

/// What a key (neither a modifier nor a repeat) decides under the held
/// modifiers: Escape alone cancels; a key with no hotkey name, or no
/// modifier held, is rejected with why; otherwise the combination.
pub open spec fn decision(k: Key, h: HeldMods) -> CaptureView {
    let has_modifier = ctrl_held(h) || alt_held(h) || h.shift;
    if k is Escape && !has_modifier {
        CaptureView::Cancelled
    } else {
        match key_name_spec(k) {
            None => CaptureView::Rejected(key_label_spec(k) + " isn't supported in a hotkey"@),
            Some(name) => if !has_modifier {
                CaptureView::Rejected("hold at least one of Ctrl / Alt / Shift"@)
            } else {
                CaptureView::Captured(combo_spec(h, name))
            },
        }
    }
}

/// The recorder over a frame's events, in order: each event updates the
/// held modifiers; the first one that is neither a modifier nor a repeat
/// decides. Also the held modifiers when it stopped.
pub open spec fn capture_spec(events: Seq<KeyEvent>, h: HeldMods) -> (CaptureView, HeldMods)
    decreases events.len(),
{
    if events.len() == 0 {
        (CaptureView::Waiting, h)
    } else {
        let e = events[0];
        let h2 = held_after(h, e);
        if !is_modifier_spec(e.key) && !e.repeat {
            (decision(e.key, h2), h2)
        } else {
            capture_spec(events.drop_first(), h2)
        }
    }
}

/// A Shift key, left or right.
pub open spec fn is_shift(k: Key) -> bool {
    k is ShiftLeft || k is ShiftRight
}

/// Pressing a physical Shift key before the deciding key puts `Shift+` in
/// the captured spec, after whatever Ctrl and Alt were already held (AltGr
/// counting as both): Shift alone is enough to capture. Releasing it takes
/// `Shift+` out again, so that a key with Ctrl held is captured without it
/// and a key with nothing else held is rejected (Escape then cancels).
pub proof fn lemma_shift_is_carried_into_the_spec(h: HeldMods, shift: KeyEvent, e: KeyEvent, name: Seq<char>)
    requires
        is_shift(shift.key),
        shift.physical_key == Some(shift.key),
        !is_modifier_spec(e.key),
        !e.repeat,
        e.physical_key is None || e.physical_key == Some(e.key),
        key_name_spec(e.key) == Some(name),
    ensures
        shift.pressed ==> capture_spec(seq![shift, e], h).0 == CaptureView::Captured(
            (if h.ctrl || h.alt_gr {
                "Ctrl+"@
            } else {
                ""@
            }) + (if h.alt || h.alt_gr {
                "Alt+"@
            } else {
                ""@
            }) + "Shift+"@ + name,
        ),
        !shift.pressed && (h.ctrl || h.alt_gr) && !h.alt ==> capture_spec(seq![shift, e], h).0
            == CaptureView::Captured("Ctrl+"@ + (if h.alt_gr {
            "Alt+"@
        } else {
            ""@
        }) + name),
        !shift.pressed && !h.ctrl && !h.alt && !h.alt_gr && !(e.key is Escape) ==> capture_spec(
            seq![shift, e],
            h,
        ).0
            == CaptureView::Rejected("hold at least one of Ctrl / Alt / Shift"@),
{
    let events = seq![shift, e];
    let h2 = held_after(h, shift);
    assert(h2.shift == shift.pressed);
    assert(events.drop_first() =~= seq![e]);
    assert(held_after(h2, e) == h2);
    assert(seq![e].drop_first() =~= Seq::<KeyEvent>::empty());
    assert(""@ =~= Seq::<char>::empty()) by {
        reveal_strlit("");
    }
    assert(capture_spec(events, h) == capture_spec(seq![e], h2));
    assert(capture_spec(seq![e], h2).0 == decision(e.key, h2));
    if shift.pressed {
        assert(combo_spec(h2, name) =~= (if h.ctrl || h.alt_gr {
            "Ctrl+"@
        } else {
            ""@
        }) + (if h.alt || h.alt_gr {
            "Alt+"@
        } else {
            ""@
        }) + "Shift+"@ + name);
    } else if (h.ctrl || h.alt_gr) && !h.alt {
        assert(combo_spec(h2, name) =~= "Ctrl+"@ + (if h.alt_gr {
            "Alt+"@
        } else {
            ""@
        }) + name);
    }
}

fn append(v: &mut Vec<char>, s: &str)
    ensures
        final(v)@ == old(v)@ + s@,
{
    let t = crate::text::chars_of(s);
    let mut i: usize = 0;
    let ghost start = v@;
    while i < t.len()
        invariant
            i <= t.len(),
            v@ == start + t@.take(i as int),
        decreases t.len() - i,
    {
        v.push(t[i]);
        i += 1;
        proof {
            assert(t@.take(i as int) =~= t@.take(i - 1).push(t@[i - 1]));
        }
    }
    proof {
        assert(t@.take(t.len() as int) =~= t@);
    }
}

fn append_chars(v: &mut Vec<char>, t: &Vec<char>)
    ensures
        final(v)@ == old(v)@ + t@,
{
    let mut i: usize = 0;
    let ghost start = v@;
    while i < t.len()
        invariant
            i <= t.len(),
            v@ == start + t@.take(i as int),
        decreases t.len() - i,
    {
        v.push(t[i]);
        i += 1;
        proof {
            assert(t@.take(i as int) =~= t@.take(i - 1).push(t@[i - 1]));
        }
    }
    proof {
        assert(t@.take(t.len() as int) =~= t@);
    }
}

/// What one deciding key gives under the held modifiers `h`.
fn decide(k: &Key, h: HeldMods) -> (c: Capture)
    ensures
        c@ == decision(*k, h),
{
    let ctrl = h.ctrl || h.alt_gr;
    let alt = h.alt || h.alt_gr;
    let has_modifier = ctrl || alt || h.shift;
    if let Key::Escape = k {
        if !has_modifier {
            return Capture::Cancelled;
        }
    }
    match key_name(k) {
        None => {
            let mut m = key_label(k);
            append(&mut m, " isn't supported in a hotkey");
            Capture::Rejected(string_of(&m))
        },
        Some(name) => {
            if !has_modifier {
                return Capture::Rejected(
                    String::from_str("hold at least one of Ctrl / Alt / Shift"),
                );
            }
            let mut combo: Vec<char> = Vec::new();
            if ctrl {
                append(&mut combo, "Ctrl+");
            }
            let ghost a = combo@;
            if alt {
                append(&mut combo, "Alt+");
            }
            let ghost b = combo@;
            if h.shift {
                append(&mut combo, "Shift+");
            }
            let ghost c = combo@;
            append_chars(&mut combo, &name);
            proof {
                assert(a =~= (if ctrl_held(h) { "Ctrl+"@ } else { Seq::empty() }));
                assert(combo@ =~= combo_spec(h, name@));
            }
            Capture::Captured(string_of(&combo))
        },
    }
}

/// Turns a frame's key events into a hotkey spec in the form the
/// global-hotkey parser accepts, updating `held` from each event's
/// physical key on the way. The held modifiers come from the modifier
/// keys' own events rather than the toolkit's aggregated flags: under
/// AltGr those flags drop Ctrl and Alt, and with Alt held the chord's
/// other key may arrive only as a release. A bare modifier press or an
/// auto-repeat decides nothing.
pub fn capture_hotkey(events: &Vec<KeyEvent>, held: &mut HeldMods) -> (c: Capture)
    ensures
        c@ == capture_spec(events@, *old(held)).0,
        *final(held) == capture_spec(events@, *old(held)).1,
{
    let mut i: usize = 0;
    proof {
        assert(events@.skip(0) =~= events@);
    }
    while i < events.len()
        invariant
            i <= events.len(),
            capture_spec(events@, *old(held)) == capture_spec(events@.skip(i as int), *held),
        decreases events.len() - i,
    {
        proof {
            assert(events@.skip(i as int).drop_first() =~= events@.skip(i + 1));
        }
        let e = &events[i];
        match &e.physical_key {
            Some(Key::ControlLeft) | Some(Key::ControlRight) => held.ctrl = e.pressed,
            Some(Key::AltLeft) => held.alt = e.pressed,
            Some(Key::AltRight) => held.alt_gr = e.pressed,
            Some(Key::ShiftLeft) | Some(Key::ShiftRight) => held.shift = e.pressed,
            _ => {},
        }
        if !is_modifier_key(&e.key) && !e.repeat {
            return decide(&e.key, *held);
        }
        i += 1;
    }
    Capture::Waiting
}


/// Nothing held.
pub open spec fn nothing_held() -> HeldMods {
    HeldMods { ctrl: false, alt: false, alt_gr: false, shift: false }
}

/// Everything of the settings draft but the recorder is unchanged.
pub open spec fn same_draft(a: ConfigWindowState, b: ConfigWindowState) -> bool {
    &&& a.autostart == b.autostart
    &&& a.lock_on_exit == b.lock_on_exit
    &&& a.auto_unlock == b.auto_unlock
    &&& a.max_visible_items == b.max_visible_items
}

impl ConfigWindowState {
    /// The Record button: starts recording, with nothing held and no
    /// message. A click while already recording does nothing.
    pub fn start_recording(&mut self)
        ensures
            old(self).recording ==> *final(self) == *old(self),
            !old(self).recording ==> {
                &&& final(self).recording
                &&& final(self).message is None
                &&& final(self).held == nothing_held()
                &&& final(self).hotkey_spec == old(self).hotkey_spec
                &&& same_draft(*final(self), *old(self))
            },
    {
        if !self.recording {
            self.recording = true;
            self.message = None;
            self.held = HeldMods { ctrl: false, alt: false, alt_gr: false, shift: false };
        }
    }

    /// A frame's key events, while recording: a captured combination
    /// becomes the hotkey and ends recording, clearing any message; Escape
    /// alone ends recording and keeps the hotkey; a key that can't be a
    /// hotkey is said as an error and recording goes on. The held
    /// modifiers carry over to the next frame. Returns whether the
    /// recorder is still listening with nothing decided. When not
    /// recording, the events are not looked at.
    pub fn record(&mut self, events: &Vec<KeyEvent>) -> (listening: bool)
        ensures
            same_draft(*final(self), *old(self)),
            !old(self).recording ==> *final(self) == *old(self) && !listening,
            old(self).recording ==> {
                let (c, h) = capture_spec(events@, old(self).held);
                &&& final(self).held == h
                &&& listening == (c is Waiting)
                &&& match c {
                    CaptureView::Waiting => {
                        &&& final(self).recording
                        &&& final(self).hotkey_spec == old(self).hotkey_spec
                        &&& final(self).message == old(self).message
                    },
                    CaptureView::Cancelled => {
                        &&& !final(self).recording
                        &&& final(self).hotkey_spec == old(self).hotkey_spec
                        &&& final(self).message == old(self).message
                    },
                    CaptureView::Rejected(why) => {
                        &&& final(self).recording
                        &&& final(self).hotkey_spec == old(self).hotkey_spec
                        &&& final(self).message matches Some((m, is_error)) && m@ == why && is_error
                    },
                    CaptureView::Captured(spec) => {
                        &&& !final(self).recording
                        &&& final(self).hotkey_spec@ == spec
                        &&& final(self).message is None
                    },
                }
            },
    {
        if !self.recording {
            return false;
        }
        let mut held = self.held;
        let c = capture_hotkey(events, &mut held);
        self.held = held;
        match c {
            Capture::Waiting => true,
            Capture::Cancelled => {
                self.recording = false;
                false
            },
            Capture::Rejected(why) => {
                self.message = Some((why, true));
                false
            },
            Capture::Captured(spec) => {
                self.hotkey_spec = spec;
                self.recording = false;
                self.message = None;
                false
            },
        }
    }
}

} // verus!
