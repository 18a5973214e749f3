//! What the popup panel displays.

use vstd::prelude::*;

verus! {

pub enum PopupContent {
    Prompting { error: Option<String> },
    Unlocking,
    Locking,
    Syncing,
    ShowingList {
        selected: usize,
        /// An inline reason a requested field couldn't be delivered.
        message: Option<String>,
    },
    /// Waiting on a one-time code for the item at `selected`.
    FetchingOtp { selected: usize },
}

impl PopupContent {
    pub fn fresh_prompt() -> (c: Self)
        ensures
            c matches PopupContent::Prompting { error } && error is None,
    {
        Self::Prompting { error: None }
    }
}

/// Which field Enter or a click delivers, by which modifier is held.
#[derive(Debug, Clone, Copy, PartialEq, Eq)]
pub enum DeliveryKind {
    Password,
    Username,
    Otp,
}

impl DeliveryKind {
    /// Shift wins over Option if both are held.
    pub fn from_flags(shift: bool, option: bool) -> (k: Self)
        ensures
            k == (if shift {
                DeliveryKind::Username
            } else if option {
                DeliveryKind::Otp
            } else {
                DeliveryKind::Password
            }),
    {
        if shift {
            Self::Username
        } else if option {
            Self::Otp
        } else {
            Self::Password
        }
    }
}

} // verus!
