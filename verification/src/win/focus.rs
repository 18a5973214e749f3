//! The window that had focus before the popup was summoned.

use vstd::prelude::*;

verus! {

/// The foreground window captured at hotkey time, plus what is needed to
/// restore it and to place the popup. Handles are `isize` so that a
/// `Target` can cross threads.
#[derive(Debug, Clone, Copy)]
pub struct Target {
    pub hwnd: isize,
    pub thread_id: u32,
    pub focus_child: isize,
    pub cursor: (i32, i32),
    /// Whether the window's process runs at a higher integrity level than
    /// ours, so that typed input would be silently dropped.
    pub elevated_beyond_us: bool,
}

/// How self-activation succeeded.
#[derive(Debug, Clone, Copy, PartialEq, Eq)]
pub enum ActivationResult {
    /// The plain foreground call was enough.
    Direct,
    /// Borrowing the foreground thread's input state was needed.
    Attached,
    /// Neither worked.
    Failed,
}

} // verus!
