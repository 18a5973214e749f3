//! The provider-agnostic layer shared by the Bitwarden and KeePass
//! back-ends: the tag grammar, the entry type and its sort order, and the
//! shared failure classification.

pub mod entry;
pub mod error;
pub mod handle;
pub mod tag;

pub use entry::{sort_entries, Entry};
pub use error::VaultErrorKind;

use vstd::prelude::*;

verus! {

/// Which credential backend the app talks to.
#[derive(Debug, Clone, Copy, PartialEq, Eq)]
pub enum Provider {
    Bitwarden,
    KeePass,
}

} // verus!
