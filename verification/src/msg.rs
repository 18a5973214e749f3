//! The messages between the UI thread and the vault worker.

use vstd::prelude::*;

use crate::secret::Secret;
use crate::vault::{Entry, VaultErrorKind};

verus! {

#[derive(Debug, Clone, Copy, PartialEq, Eq)]
pub enum TrayCmd {
    Show,
    /// Re-fetch against the retained session and replace the cached list.
    Sync,
    /// Forget the unlocked session.
    Lock,
    Settings,
    About,
    Quit,
}

/// Commands the UI thread sends to the active vault worker.
pub enum VaultCmd {
    Unlock(Secret),
    /// Re-fetch using what the worker already holds.
    Sync,
    /// Re-enumerate entries from what the worker already holds.
    List,
    /// Drop whatever key material the worker holds.
    Lock,
    /// The current TOTP code for one item, by id.
    GetTotp(String),
}

/// Carried on a list that came from the local cache because the refresh
/// before it failed.
pub struct StaleNotice {
    pub reason: VaultErrorKind,
    /// `lastSync` from a `bw status` probe, when that probe succeeded.
    pub last_sync: Option<String>,
    /// The real underlying message, for the log.
    pub detail: String,
}

/// Results a vault worker sends back. Never carries key material.
pub enum VaultResult {
    Items { entries: Vec<Entry>, dropped: usize, stale: Option<StaleNotice> },
    Failed { stage: &'static str, kind: VaultErrorKind, message: String },
    Locked,
    Totp(Secret),
}

} // verus!
