//! What the popup list shows besides the entries themselves.

use vstd::prelude::*;

use crate::text::{nat_digits, string_of, usize_decimal};
use crate::ui::keys::{digit_index_spec, Key};

verus! {

/// Which field Enter or a digit would deliver right now, by which modifier
/// is held.
#[derive(Debug, Clone, Copy, PartialEq, Eq)]
pub enum IconMode {
    Password,
    Username,
    Otp,
}

/// The parts of the list screen that aren't the list itself.
pub struct ListInfo<'a> {
    /// Items dropped by the filter (see `bw::filter::build_entries`).
    pub dropped: usize,
    /// Items beyond `max_visible_items`, truncated out of the list.
    pub hidden_by_cap: usize,
    /// An inline reason the last delivery attempt couldn't proceed.
    pub message: Option<&'a str>,
    pub target_elevated: bool,
    pub icon_mode: IconMode,
}

/// The quick-select digit of row `i`: `1` to `9`, then `0` for the tenth.
pub open spec fn badge_spec(i: int) -> Option<char> {
    if 0 <= i <= 8 {
        Some(((i + 1) + ('0' as u32)) as char)
    } else if i == 9 {
        Some('0')
    } else {
        None
    }
}

/// The digit shown on a row is the digit key that selects that row: each of
/// the first ten rows carries a badge, and pressing the badge's digit picks
/// exactly that row.
pub proof fn lemma_badge_selects_its_row(i: usize)
    requires
        i < 10,
    ensures
        badge_spec(i as int) matches Some(c) && digit_index_spec(
            Key::Digit(((c as u32) - ('0' as u32)) as u8),
        ) == Some(i),
{
}

/// Rows past the tenth carry no badge, as no digit key selects them.
pub proof fn lemma_no_badge_past_the_tenth_row(i: usize)
    requires
        i >= 10,
    ensures
        badge_spec(i as int) is None,
        forall|d: u8| #[trigger] digit_index_spec(Key::Digit(d)) != Some(i),
{
}

/// The quick-select digit for row `i`, `None` beyond the tenth row.
pub fn badge_for(i: usize) -> (c: Option<char>)
    ensures
        c == badge_spec(i as int),
{
    if i == 0 {
        Some('1')
    } else if i == 1 {
        Some('2')
    } else if i == 2 {
        Some('3')
    } else if i == 3 {
        Some('4')
    } else if i == 4 {
        Some('5')
    } else if i == 5 {
        Some('6')
    } else if i == 6 {
        Some('7')
    } else if i == 7 {
        Some('8')
    } else if i == 8 {
        Some('9')
    } else if i == 9 {
        Some('0')
    } else {
        None
    }
}

/// The footer hint of the master-password prompt.
pub const PROMPT_HINT: &'static str = "Enter to unlock  ·  Esc to dismiss";

/// The footer hint while waiting on the vault.
pub const BUSY_HINT: &'static str = "Please wait…";

/// The warning shown when the target window runs elevated.
pub const ELEVATED_WARNING: &'static str = "Target runs elevated — typing would be blocked. Enter will abort.";

pub open spec fn list_hint_spec(mode: IconMode) -> Seq<char> {
    match mode {
        IconMode::Password => "Up/Down · Enter types password · Esc dismisses"@,
        IconMode::Username => "Up/Down · Enter types username · Esc dismisses"@,
        IconMode::Otp => "Up/Down · Enter types one-time code · Esc dismisses"@,
    }
}

/// The list's footer hint: what Enter types under the held modifier.
pub fn list_hint(mode: IconMode) -> (t: &'static str)
    ensures
        t@ == list_hint_spec(mode),
{
    match mode {
        IconMode::Password => "Up/Down · Enter types password · Esc dismisses",
        IconMode::Username => "Up/Down · Enter types username · Esc dismisses",
        IconMode::Otp => "Up/Down · Enter types one-time code · Esc dismisses",
    }
}

/// The lines under the list, each present only when it applies.
pub struct ListNotes {
    /// How many items the filter dropped.
    pub dropped: Option<String>,
    /// How many entries the visible cap cut off.
    pub hidden: Option<String>,
    /// Whether to warn that the target runs elevated.
    pub elevated: bool,
    /// The inline message of the last delivery attempt.
    pub message: Option<String>,
}

pub open spec fn dropped_note_text(n: nat) -> Seq<char> {
    "("@ + nat_digits(n) + " item(s) hidden — see log)"@
}

pub open spec fn hidden_note_text(n: nat) -> Seq<char> {
    "("@ + nat_digits(n) + " more not shown — raise Max visible items in Settings)"@
}

/// `(` then the decimal of `n` then `tail`.
fn counted(n: usize, tail: &str) -> (s: String)
    ensures
        s@ == "("@ + nat_digits(n as nat) + tail@,
{
    let digits = usize_decimal(n);
    let rest = crate::text::chars_of(tail);
    let mut t = crate::text::chars_of("(");
    let ghost start = t@;
    let mut i: usize = 0;
    while i < digits.len()
        invariant
            i <= digits.len(),
            t@ == start + digits@.take(i as int),
        decreases digits.len() - i,
    {
        t.push(digits[i]);
        i += 1;
        proof {
            assert(digits@.take(i as int) =~= digits@.take(i - 1).push(digits@[i - 1]));
        }
    }
    let ghost mid = t@;
    let mut j: usize = 0;
    while j < rest.len()
        invariant
            j <= rest.len(),
            t@ == mid + rest@.take(j as int),
        decreases rest.len() - j,
    {
        t.push(rest[j]);
        j += 1;
        proof {
            assert(rest@.take(j as int) =~= rest@.take(j - 1).push(rest@[j - 1]));
        }
    }
    proof {
        assert(digits@.take(digits.len() as int) =~= digits@);
        assert(rest@.take(rest.len() as int) =~= rest@);
        assert(t@ =~= "("@ + nat_digits(n as nat) + tail@);
    }
    string_of(&t)
}

/// The lines under the list for `info`.
pub fn list_notes(info: &ListInfo) -> (n: ListNotes)
    ensures
        info.dropped > 0 ==> (n.dropped matches Some(t) && t@ == dropped_note_text(
            info.dropped as nat,
        )),
        info.dropped == 0 ==> n.dropped is None,
        info.hidden_by_cap > 0 ==> (n.hidden matches Some(t) && t@ == hidden_note_text(
            info.hidden_by_cap as nat,
        )),
        info.hidden_by_cap == 0 ==> n.hidden is None,
        n.elevated == info.target_elevated,
        match info.message {
            Some(m) => n.message matches Some(t) && t@ == m@,
            None => n.message is None,
        },
{
    let dropped = if info.dropped > 0 {
        Some(counted(info.dropped, " item(s) hidden — see log)"))
    } else {
        None
    };
    let hidden = if info.hidden_by_cap > 0 {
        Some(counted(info.hidden_by_cap, " more not shown — raise Max visible items in Settings)"))
    } else {
        None
    };
    let message = match info.message {
        Some(m) => Some(string_of(&crate::text::chars_of(m))),
        None => None,
    };
    ListNotes { dropped, hidden, elevated: info.target_elevated, message }
}

} // verus!
