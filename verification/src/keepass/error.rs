//! Mapping a KeePass library error to the shared `VaultErrorKind`.

use vstd::prelude::*;
use vstd::string::StringExecFns;

use crate::vault::VaultErrorKind;

verus! {

/// The shape of a KeePass library error, as far as the classification
/// needs it.
#[derive(Debug, Clone, Copy, PartialEq, Eq)]
pub enum KeePassError {
    /// An I/O error; `not_found` when the file does not exist.
    Io { not_found: bool },
    /// Decryption failed.
    CryptoDecrypt,
    /// The header HMAC did not match.
    CryptoHmacMismatch,
    /// Any other cryptographic error.
    CryptoOther,
    /// The file is not a KDBX database.
    Format,
    /// The decrypted XML is malformed.
    Xml,
    /// Anything else.
    Other,
}

pub open spec fn classify_spec(err: KeePassError) -> VaultErrorKind {
    match err {
        KeePassError::Io { not_found } => if not_found {
            VaultErrorKind::NotFound
        } else {
            VaultErrorKind::Other
        },
        KeePassError::CryptoDecrypt | KeePassError::CryptoHmacMismatch => VaultErrorKind::BadPassword,
        KeePassError::CryptoOther => VaultErrorKind::Other,
        KeePassError::Format | KeePassError::Xml => VaultErrorKind::BadFormat,
        KeePassError::Other => VaultErrorKind::Other,
    }
}

/// A wrong password and a missing key file fail the same check, so both
/// are `BadPassword`.
pub fn classify(err: &KeePassError) -> (k: VaultErrorKind)
    ensures
        k == classify_spec(*err),
{
    match err {
        KeePassError::Io { not_found } => if *not_found {
            VaultErrorKind::NotFound
        } else {
            VaultErrorKind::Other
        },
        KeePassError::CryptoDecrypt | KeePassError::CryptoHmacMismatch => VaultErrorKind::BadPassword,
        KeePassError::CryptoOther => VaultErrorKind::Other,
        KeePassError::Format | KeePassError::Xml => VaultErrorKind::BadFormat,
        KeePassError::Other => VaultErrorKind::Other,
    }
}

pub open spec fn unlock_message_spec(kind: VaultErrorKind, err_text: Seq<char>) -> Seq<char> {
    match kind {
        VaultErrorKind::NotFound => "KeePass database file not found."@,
        VaultErrorKind::BadPassword => "Wrong password — or this database also needs a key file, which isn't supported."@,
        VaultErrorKind::BadFormat => "That file isn't a readable KeePass (KDBX) database."@,
        _ => "Couldn't open the KeePass database: "@ + err_text,
    }
}

/// A user-facing message for an unlock failure of kind `kind`; the error's
/// own text (`err_text`) only for a kind without a sentence.
pub fn unlock_message(kind: VaultErrorKind, err_text: &str) -> (m: String)
    ensures
        m@ == unlock_message_spec(kind, err_text@),
{
    match kind {
        VaultErrorKind::NotFound => String::from_str("KeePass database file not found."),
        VaultErrorKind::BadPassword => String::from_str(
            "Wrong password — or this database also needs a key file, which isn't supported.",
        ),
        VaultErrorKind::BadFormat => String::from_str(
            "That file isn't a readable KeePass (KDBX) database.",
        ),
        _ => {
            let mut m = String::from_str("Couldn't open the KeePass database: ");
            m.append(err_text);
            m
        },
    }
}

} // verus!
