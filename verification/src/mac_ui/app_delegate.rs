//! The texts and indices the macOS front-end derives from its state.

use vstd::prelude::*;
use vstd::string::StringExecFns;

use super::state::PopupContent;
use crate::msg::StaleNotice;
use crate::platform::BlockReason;
use crate::vault::entry::opt_text;
use crate::ui::keys::{digit_index_spec, Key};
use crate::ui::popup::badge_spec;
use crate::vault::Entry;

verus! {

/// The visible-row index of a digit key's hardware key code: the top-row
/// and keypad `1`..`9` give rows 0..8, `0` gives row 9.
pub open spec fn digit_from_keycode_spec(code: u16) -> Option<usize> {
    if code == 18 || code == 83 {
        Some(0)
    } else if code == 19 || code == 84 {
        Some(1)
    } else if code == 20 || code == 85 {
        Some(2)
    } else if code == 21 || code == 86 {
        Some(3)
    } else if code == 23 || code == 87 {
        Some(4)
    } else if code == 22 || code == 88 {
        Some(5)
    } else if code == 26 || code == 89 {
        Some(6)
    } else if code == 28 || code == 91 {
        Some(7)
    } else if code == 25 || code == 92 {
        Some(8)
    } else if code == 29 || code == 82 {
        Some(9)
    } else {
        None
    }
}

/// The digit a macOS virtual key code names, as Carbon's `Events.h` lists
/// them: `kVK_ANSI_0` .. `kVK_ANSI_9` on the top row and
/// `kVK_ANSI_Keypad0` .. `kVK_ANSI_Keypad9` on the numpad.
pub open spec fn kvk_digit(code: u16) -> Option<u8> {
    match code {
        29 | 82 => Some(0u8),
        18 | 83 => Some(1u8),
        19 | 84 => Some(2u8),
        20 | 85 => Some(3u8),
        21 | 86 => Some(4u8),
        23 | 87 => Some(5u8),
        22 | 88 => Some(6u8),
        26 | 89 => Some(7u8),
        28 | 91 => Some(8u8),
        25 | 92 => Some(9u8),
        _ => None,
    }
}

/// A digit key code selects the row that its digit selects anywhere in the
/// popup, the row whose badge shows that digit; any other key code selects
/// nothing.
pub proof fn lemma_a_digit_key_selects_its_digits_row(code: u16)
    ensures
        match kvk_digit(code) {
            Some(d) => {
                &&& digit_from_keycode_spec(code) == digit_index_spec(Key::Digit(d))
                &&& digit_from_keycode_spec(code) matches Some(row) && badge_spec(row as int) == Some(
                    ((d as u32) + ('0' as u32)) as char,
                )
            },
            None => digit_from_keycode_spec(code) is None,
        },
{
}

pub fn digit_from_keycode(code: u16) -> (r: Option<usize>)
    ensures
        r == digit_from_keycode_spec(code),
{
    match code {
        18 | 83 => Some(0),
        19 | 84 => Some(1),
        20 | 85 => Some(2),
        21 | 86 => Some(3),
        23 | 87 => Some(4),
        22 | 88 => Some(5),
        26 | 89 => Some(6),
        28 | 91 => Some(7),
        25 | 92 => Some(8),
        29 | 82 => Some(9),
        _ => None,
    }
}

/// The label of one list row: the entry's name, then its username in
/// parentheses when it has one.
pub open spec fn row_label_spec(name: Seq<char>, username: Option<Seq<char>>) -> Seq<char> {
    match username {
        Some(u) => name + " ("@ + u + ")"@,
        None => name,
    }
}

pub fn row_label(entry: &Entry) -> (s: String)
    ensures
        s@ == row_label_spec(entry.name@, opt_text(entry.username)),
{
    match &entry.username {
        Some(u) => {
            let mut s = entry.name.clone();
            s.append(" (");
            s.append(u.as_str());
            s.append(")");
            s
        },
        None => entry.name.clone(),
    }
}

/// The labels of the first `max` entries.
pub fn row_labels(entries: &Vec<Entry>, max: usize) -> (labels: Vec<String>)
    ensures
        labels.len() == (if entries.len() < max {
            entries.len()
        } else {
            max
        }),
        forall|i: int|
            0 <= i < labels.len() ==> (#[trigger] labels@[i])@ == row_label_spec(
                entries@[i].name@,
                opt_text(entries@[i].username),
            ),
{
    let n = if entries.len() < max {
        entries.len()
    } else {
        max
    };
    let mut labels: Vec<String> = Vec::new();
    let mut i: usize = 0;
    while i < n
        invariant
            i <= n,
            n <= entries.len(),
            labels.len() == i,
            forall|j: int|
                0 <= j < i ==> (#[trigger] labels@[j])@ == row_label_spec(
                    entries@[j].name@,
                    opt_text(entries@[j].username),
                ),
        decreases n - i,
    {
        labels.push(row_label(&entries[i]));
        i += 1;
    }
    labels
}

/// How many entries are cut off by the visible-row cap.
pub fn hidden_by_cap_count(entry_count: usize, max_visible: usize) -> (n: usize)
    ensures
        n == (if entry_count > max_visible {
            entry_count - max_visible
        } else {
            0
        }),
{
    if entry_count > max_visible {
        entry_count - max_visible
    } else {
        0
    }
}

/// The stale-vault banner, shown only on the list.
pub open spec fn stale_text_spec(showing_list: bool, stale: Option<Option<Seq<char>>>) -> Option<
    Seq<char>,
> {
    if !showing_list {
        None
    } else {
        match stale {
            None => None,
            Some(Some(ts)) => Some(
                "Offline — showing the cached vault (last synced "@ + ts + ")."@,
            ),
            Some(None) => Some("Offline — showing the cached vault, which may be stale."@),
        }
    }
}

pub fn stale_text(content: &PopupContent, stale: &Option<StaleNotice>) -> (r: Option<String>)
    ensures
        opt_text(r) == stale_text_spec(
            content is ShowingList,
            match stale {
                Some(n) => Some(opt_text(n.last_sync)),
                None => None,
            },
        ),
{
    match content {
        PopupContent::ShowingList { .. } => {},
        _ => return None,
    }
    match stale {
        None => None,
        Some(notice) => match &notice.last_sync {
            Some(ts) => {
                let mut s = String::from_str("Offline — showing the cached vault (last synced ");
                s.append(ts.as_str());
                s.append(").");
                Some(s)
            },
            None => Some(String::from_str("Offline — showing the cached vault, which may be stale.")),
        },
    }
}

/// The blocked-target warning, shown only on the list. `holder` names the
/// app holding Secure Input, when that could be found out.
pub open spec fn blocked_text_spec(
    showing_list: bool,
    reason: Option<BlockReason>,
    holder: Option<Seq<char>>,
) -> Option<Seq<char>> {
    if !showing_list {
        None
    } else {
        match reason {
            None => None,
            Some(BlockReason::Elevated) => Some(
                "Target runs elevated — typing would be blocked."@,
            ),
            Some(BlockReason::NoAccessibility) => Some(
                "Accessibility permission not granted — typing would be blocked."@,
            ),
            Some(BlockReason::SecureInput) => match holder {
                Some(h) => Some("Secure input active in "@ + h + " — typing is blocked."@),
                None => Some("Secure input active system-wide — typing is blocked."@),
            },
        }
    }
}

pub fn blocked_text(
    content: &PopupContent,
    reason: Option<BlockReason>,
    holder: Option<String>,
) -> (r: Option<String>)
    ensures
        opt_text(r) == blocked_text_spec(content is ShowingList, reason, opt_text(holder)),
{
    match content {
        PopupContent::ShowingList { .. } => {},
        _ => return None,
    }
    match reason {
        None => None,
        Some(BlockReason::Elevated) => Some(
            String::from_str("Target runs elevated — typing would be blocked."),
        ),
        Some(BlockReason::NoAccessibility) => Some(
            String::from_str("Accessibility permission not granted — typing would be blocked."),
        ),
        Some(BlockReason::SecureInput) => match holder {
            Some(h) => {
                let mut s = String::from_str("Secure input active in ");
                s.append(h.as_str());
                s.append(" — typing is blocked.");
                Some(s)
            },
            None => Some(String::from_str("Secure input active system-wide — typing is blocked.")),
        },
    }
}

} // verus!
