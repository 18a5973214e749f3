//! The app that was frontmost when the hotkey was pressed.

use vstd::prelude::*;

use crate::platform::BlockReason;

verus! {

/// The frontmost app captured at hotkey time: a pid and plain numbers, so
/// that it can cross threads.
#[derive(Debug, Clone, Copy)]
pub struct Target {
    pid: i32,
    cursor: (i32, i32),
    blocked: Option<BlockReason>,
}

impl Target {
    pub fn new(pid: i32, cursor: (i32, i32), blocked: Option<BlockReason>) -> (t: Self)
        ensures
            t.pid_spec() == pid,
            t.cursor_spec() == cursor,
            t.blocked_spec() == blocked,
    {
        Target { pid, cursor, blocked }
    }

    pub closed spec fn pid_spec(&self) -> i32 {
        self.pid
    }

    pub closed spec fn cursor_spec(&self) -> (i32, i32) {
        self.cursor
    }

    pub closed spec fn blocked_spec(&self) -> Option<BlockReason> {
        self.blocked
    }

    /// The target app's process id.
    pub fn pid(&self) -> (p: i32)
        ensures
            p == self.pid_spec(),
    {
        self.pid
    }

    /// The cursor position at hotkey-press time.
    pub fn cursor(&self) -> (c: (i32, i32))
        ensures
            c == self.cursor_spec(),
    {
        self.cursor
    }

    /// Why synthetic keystrokes into this target would be blocked, if they
    /// would be.
    pub fn blocked(&self) -> (b: Option<BlockReason>)
        ensures
            b == self.blocked_spec(),
    {
        self.blocked
    }

    /// Whether the target is the frontmost app, given the pid of the app
    /// that is frontmost now (`None` when there is none).
    pub fn is_foreground(&self, frontmost_pid: Option<i32>) -> (b: bool)
        ensures
            b == (frontmost_pid == Some(self.pid_spec())),
    {
        match frontmost_pid {
            Some(p) => p == self.pid,
            None => false,
        }
    }
}

} // verus!
