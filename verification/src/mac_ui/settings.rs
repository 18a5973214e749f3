//! What Save reads back out of the settings window.

use vstd::prelude::*;

use crate::vault::Provider;

verus! {

pub struct Draft {
    pub provider: Provider,
    pub keepass_path: String,
    pub hotkey_spec: String,
    pub autostart: bool,
    pub auto_unlock: bool,
    pub lock_on_exit: bool,
    pub max_visible_items: u32,
}

/// The row of the vault pop-up button that shows `provider`.
pub fn provider_index(provider: Provider) -> (i: isize)
    ensures
        i == (match provider {
            Provider::Bitwarden => 0isize,
            Provider::KeePass => 1isize,
        }),
{
    match provider {
        Provider::Bitwarden => 0,
        Provider::KeePass => 1,
    }
}

/// The provider a pop-up button row stands for; any row but the second
/// means Bitwarden.
pub fn provider_from_index(index: isize) -> (p: Provider)
    ensures
        p == (if index == 1 {
            Provider::KeePass
        } else {
            Provider::Bitwarden
        }),
{
    if index == 1 {
        Provider::KeePass
    } else {
        Provider::Bitwarden
    }
}

/// The two pop-up rows round-trip.
pub proof fn lemma_provider_index_round_trips(provider: Provider)
    ensures
        (if (match provider {
            Provider::Bitwarden => 0isize,
            Provider::KeePass => 1isize,
        }) == 1 {
            Provider::KeePass
        } else {
            Provider::Bitwarden
        }) == provider,
{
}

} // verus!
