//! What the popup panel shows besides its geometry: the heading, the
//! footer hint, the spinner's label and the note under the list.

use vstd::prelude::*;

use super::state::PopupContent;
use crate::text::{nat_digits, string_of, usize_decimal};

verus! {

pub open spec fn title_spec(content: PopupContent) -> Seq<char> {
    match content {
        PopupContent::Prompting { .. } => "Context Password — Unlock"@,
        PopupContent::Unlocking => "Context Password — Unlocking"@,
        PopupContent::Locking => "Context Password — Locking"@,
        PopupContent::Syncing => "Context Password — Syncing"@,
        PopupContent::FetchingOtp { .. } => "Context Password — Fetching OTP"@,
        PopupContent::ShowingList { .. } => "Context Password"@,
    }
}

/// The popup's heading: the app and, past the prompt, what it's doing.
pub fn title_for(content: &PopupContent) -> (t: &'static str)
    ensures
        t@ == title_spec(*content),
{
    match content {
        PopupContent::Prompting { .. } => "Context Password — Unlock",
        PopupContent::Unlocking => "Context Password — Unlocking",
        PopupContent::Locking => "Context Password — Locking",
        PopupContent::Syncing => "Context Password — Syncing",
        PopupContent::FetchingOtp { .. } => "Context Password — Fetching OTP",
        PopupContent::ShowingList { .. } => "Context Password",
    }
}

pub open spec fn hint_spec(content: PopupContent) -> Seq<char> {
    match content {
        PopupContent::Prompting { .. } => "⏎ unlock · ⎋ dismiss"@,
        PopupContent::Unlocking | PopupContent::Locking | PopupContent::Syncing => "⎋ dismiss"@,
        PopupContent::FetchingOtp { .. } => "⎋ back to list"@,
        PopupContent::ShowingList { .. } => "⏎ password · ⇧⏎ user · ⌥⏎ OTP"@,
    }
}

/// The footer's keyboard hint for what the panel shows.
pub fn hint_for(content: &PopupContent) -> (t: &'static str)
    ensures
        t@ == hint_spec(*content),
{
    match content {
        PopupContent::Prompting { .. } => "⏎ unlock · ⎋ dismiss",
        PopupContent::Unlocking | PopupContent::Locking | PopupContent::Syncing => "⎋ dismiss",
        PopupContent::FetchingOtp { .. } => "⎋ back to list",
        PopupContent::ShowingList { .. } => "⏎ password · ⇧⏎ user · ⌥⏎ OTP",
    }
}

pub open spec fn busy_spec(content: PopupContent) -> Option<Seq<char>> {
    match content {
        PopupContent::Unlocking => Some("Unlocking vault…"@),
        PopupContent::Locking => Some("Locking vault…"@),
        PopupContent::Syncing => Some("Syncing…"@),
        PopupContent::FetchingOtp { .. } => Some("Fetching code…"@),
        _ => None,
    }
}

/// The label beside the spinner, for the screens that wait on the vault.
pub fn busy_label(content: &PopupContent) -> (t: Option<&'static str>)
    ensures
        match t {
            Some(s) => busy_spec(*content) == Some(s@),
            None => busy_spec(*content) is None,
        },
{
    match content {
        PopupContent::Unlocking => Some("Unlocking vault…"),
        PopupContent::Locking => Some("Locking vault…"),
        PopupContent::Syncing => Some("Syncing…"),
        PopupContent::FetchingOtp { .. } => Some("Fetching code…"),
        _ => None,
    }
}

/// The one row an empty list shows.
pub const EMPTY_LIST_TEXT: &'static str = "No items tagged for this app yet.";

/// The note under the list: a quiet aside or an error.
pub struct ListNote {
    pub text: String,
    /// A lesser aside (smaller, lighter), rather than a red error.
    pub aside: bool,
}

/// The aside about entries beyond the visible cap.
pub open spec fn hidden_note_text(hidden: nat) -> Seq<char> {
    "("@ + nat_digits(hidden) + " more not shown — raise Max visible items in Settings)"@
}

/// The note under the list: entries cut off by the visible cap take
/// precedence over the inline message of the last delivery attempt.
pub fn list_note(hidden_by_cap: usize, message: Option<&str>) -> (n: Option<ListNote>)
    ensures
        hidden_by_cap > 0 ==> (n matches Some(note) && note.aside && note.text@ == hidden_note_text(
            hidden_by_cap as nat,
        )),
        hidden_by_cap == 0 ==> match message {
            Some(m) => n matches Some(note) && !note.aside && note.text@ == m@,
            None => n is None,
        },
{
    if hidden_by_cap > 0 {
        let mut t = crate::text::chars_of("(");
        let digits = usize_decimal(hidden_by_cap);
        let mut i: usize = 0;
        let ghost start = t@;
        while i < digits.len()
            invariant
                i <= digits.len(),
                t@ == start + digits@.take(i as int),
            decreases digits.len() - i,
        {
            t.push(digits[i]);
            i += 1;
            proof {
                assert(digits@.take(i as int) =~= digits@.take(i - 1).push(digits@[i - 1]));
            }
        }
        let tail = crate::text::chars_of(" more not shown — raise Max visible items in Settings)");
        let mut j: usize = 0;
        let ghost mid = t@;
        while j < tail.len()
            invariant
                j <= tail.len(),
                t@ == mid + tail@.take(j as int),
            decreases tail.len() - j,
        {
            t.push(tail[j]);
            j += 1;
            proof {
                assert(tail@.take(j as int) =~= tail@.take(j - 1).push(tail@[j - 1]));
            }
        }
        proof {
            assert(digits@.take(digits.len() as int) =~= digits@);
            assert(tail@.take(tail.len() as int) =~= tail@);
            assert(t@ =~= hidden_note_text(hidden_by_cap as nat));
        }
        return Some(ListNote { text: string_of(&t), aside: true });
    }
    match message {
        Some(m) => Some(ListNote { text: string_of(&crate::text::chars_of(m)), aside: false }),
        None => None,
    }
}

} // verus!
