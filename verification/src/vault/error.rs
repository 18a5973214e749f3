//! The shared failure classification both providers report through. Every
//! classification stays paired with the original message elsewhere; the
//! user only ever sees [`VaultErrorKind::summary`].

use vstd::prelude::*;

use super::Provider;

verus! {

#[derive(Debug, Clone, Copy, PartialEq, Eq)]
pub enum VaultErrorKind {
    /// The `bw` executable, or the KeePass database file, was not found.
    NotFound,
    /// No Bitwarden account is logged in on this machine.
    NotLoggedIn,
    /// A Bitwarden session exists but is locked.
    Locked,
    /// Wrong master password (KeePass: or a key file is needed).
    BadPassword,
    /// The `bw` subprocess did not exit within its budget.
    Timeout,
    /// The vault server can't be reached.
    Network,
    /// A TLS-intercepting proxy presented its own certificate.
    Tls,
    /// `bw`'s local vault cache holds a record it crashes on.
    CorruptedCache,
    /// The file isn't a readable KeePass database.
    BadFormat,
    /// A failure not classified further.
    Other,
}

/// The user-facing sentence for each kind.
pub open spec fn summary_spec(kind: VaultErrorKind, provider: Provider) -> Seq<char> {
    match kind {
        VaultErrorKind::NotFound => match provider {
            Provider::Bitwarden => "Bitwarden CLI not found"@,
            Provider::KeePass => "KeePass database file not found"@,
        },
        VaultErrorKind::NotLoggedIn => "not logged in"@,
        VaultErrorKind::Locked => "vault is locked"@,
        VaultErrorKind::BadPassword => "wrong master password"@,
        VaultErrorKind::Timeout => "timed out"@,
        VaultErrorKind::Network => "can't reach the server"@,
        VaultErrorKind::Tls => "server certificate doesn't match (proxy?)"@,
        VaultErrorKind::CorruptedCache => "local vault cache is corrupted — try `bw logout` + `bw login`"@,
        VaultErrorKind::BadFormat => "not a readable KeePass database"@,
        VaultErrorKind::Other => "failed"@,
    }
}

impl VaultErrorKind {
    /// A short, user-facing sentence: never the underlying error's raw
    /// text. `provider` only changes the wording of `NotFound`.
    pub fn summary(&self, provider: Provider) -> (s: &'static str)
        ensures
            s@ == summary_spec(*self, provider),
    {
        match self {
            Self::NotFound => match provider {
                Provider::Bitwarden => "Bitwarden CLI not found",
                Provider::KeePass => "KeePass database file not found",
            },
            Self::NotLoggedIn => "not logged in",
            Self::Locked => "vault is locked",
            Self::BadPassword => "wrong master password",
            Self::Timeout => "timed out",
            Self::Network => "can't reach the server",
            Self::Tls => "server certificate doesn't match (proxy?)",
            Self::CorruptedCache => "local vault cache is corrupted — try `bw logout` + `bw login`",
            Self::BadFormat => "not a readable KeePass database",
            Self::Other => "failed",
        }
    }
}

} // verus!
