//! The KeePass back-end's logic. Opening and decrypting a `.kdbx` file is
//! done by the caller, which hands this module the vault's entries and
//! errors as plain values.

pub mod error;
pub mod filter;
pub mod job;
pub mod model;
pub mod totp;

use vstd::prelude::*;
use vstd::string::StringExecFns;

use crate::msg::VaultResult;
use crate::vault::entry::{entry_views, is_sorted_from};
use crate::vault::error::summary_spec;
use crate::vault::{Provider, VaultErrorKind};

use error::{classify, classify_spec, unlock_message, unlock_message_spec, KeePassError};
use filter::{build_entries, kp_dropped, kp_kept, KeePassItem};
use model::{parse_entry_id, uuid_parse};
use crate::secret::Secret;

verus! {

/// The result of an unlock with no database chosen, checked before any
/// file is opened.
pub fn unlock_precheck(db_path: &str) -> (r: Option<VaultResult>)
    ensures
        db_path@.len() == 0 <==> r is Some,
        r matches Some(VaultResult::Failed { stage, kind, message }) ==> stage@ == "resolve"@
            && kind == VaultErrorKind::NotFound && message@
            == "No KeePass database selected — pick one in Settings."@,
        r matches Some(res) ==> res is Failed,
{
    if db_path.is_empty() {
        Some(
            VaultResult::Failed {
                stage: "resolve",
                kind: VaultErrorKind::NotFound,
                message: String::from_str("No KeePass database selected — pick one in Settings."),
            },
        )
    } else {
        None
    }
}

/// The result of a failed reload from disk.
pub fn reload_failure(kind: VaultErrorKind) -> (r: VaultResult)
    ensures
        r matches VaultResult::Failed { stage, kind: k, message } && stage@ == "sync"@ && k
            == kind && message@ == "reload failed: "@ + summary_spec(kind, Provider::KeePass),
{
    let mut message = String::from_str("reload failed: ");
    message.append(kind.summary(Provider::KeePass));
    VaultResult::Failed { stage: "sync", kind, message }
}

/// The result of a TOTP request for an id that isn't a KeePass entry id.
pub fn invalid_item_id() -> (r: VaultResult)
    ensures
        r matches VaultResult::Failed { stage, kind, message } && stage@ == "totp"@ && kind
            == VaultErrorKind::Other && message@ == "invalid item id"@,
{
    VaultResult::Failed {
        stage: "totp",
        kind: VaultErrorKind::Other,
        message: String::from_str("invalid item id"),
    }
}

/// `r` is the list built from `items`: the popup's entries filtered by
/// `uri_prefix` for `os`, sorted, with the dropped count, and not stale.
pub open spec fn lists(r: VaultResult, items: Seq<KeePassItem>, uri_prefix: Seq<char>, os: Seq<char>) -> bool {
    r matches VaultResult::Items { entries, dropped, stale } && stale is None && is_sorted_from(
        entry_views(entries@),
        kp_kept(items, uri_prefix, os),
    ) && dropped == kp_dropped(items, uri_prefix, os)
}

/// The list of an unlocked vault's entries.
pub fn list_result(items: Vec<KeePassItem>, uri_prefix: &str, os: &str) -> (r: VaultResult)
    ensures
        lists(r, items@, uri_prefix@, os@),
{
    let (entries, dropped) = build_entries(items, uri_prefix, os);
    VaultResult::Items { entries, dropped, stale: None }
}

/// The result of an unlock, from what opening the database with the master
/// password gave: the unlocked vault's entries, or the error with its text.
/// A failure is reported with a sentence for its kind.
pub fn unlock_and_list(
    opened: Result<Vec<KeePassItem>, (KeePassError, String)>,
    uri_prefix: &str,
    os: &str,
) -> (r: VaultResult)
    ensures
        match opened {
            Ok(items) => lists(r, items@, uri_prefix@, os@),
            Err((err, text)) => r matches VaultResult::Failed { stage, kind, message } && stage@
                == "unlock"@ && kind == classify_spec(err) && message@ == unlock_message_spec(
                classify_spec(err),
                text@,
            ),
        },
{
    match opened {
        Ok(items) => list_result(items, uri_prefix, os),
        Err((err, text)) => {
            let kind = classify(&err);
            let message = unlock_message(kind, text.as_str());
            VaultResult::Failed { stage: "unlock", kind, message }
        },
    }
}

/// The result of the tray's Sync, which for KeePass reloads the database
/// from disk with the retained key: the reloaded entries, or the reload's
/// failure by kind.
pub fn reload_result(opened: Result<Vec<KeePassItem>, KeePassError>, uri_prefix: &str, os: &str) -> (r:
    VaultResult)
    ensures
        match opened {
            Ok(items) => lists(r, items@, uri_prefix@, os@),
            Err(err) => r matches VaultResult::Failed { stage, kind, message } && stage@ == "sync"@
                && kind == classify_spec(err) && message@ == "reload failed: "@ + summary_spec(
                classify_spec(err),
                Provider::KeePass,
            ),
        },
{
    match opened {
        Ok(items) => list_result(items, uri_prefix, os),
        Err(err) => reload_failure(classify(&err)),
    }
}

/// The entry a code request is for, or the request's failure: locked when
/// no vault is unlocked, an invalid id when the id isn't a KeePass entry
/// id.
pub fn totp_target(unlocked: bool, item_id: &str) -> (r: Result<u128, VaultResult>)
    ensures
        !unlocked ==> (r matches Err(VaultResult::Failed { stage, kind, message }) && stage@
            == "totp"@ && kind == VaultErrorKind::Locked && message@ == "vault is locked"@),
        unlocked ==> match uuid_parse(item_id@) {
            Some(id) => r == Ok::<u128, VaultResult>(id),
            None => r matches Err(VaultResult::Failed { stage, kind, message }) && stage@
                == "totp"@ && kind == VaultErrorKind::Other && message@ == "invalid item id"@,
        },
{
    if !unlocked {
        return Err(
            VaultResult::Failed {
                stage: "totp",
                kind: VaultErrorKind::Locked,
                message: String::from_str("vault is locked"),
            },
        );
    }
    match parse_entry_id(item_id) {
        Some(id) => Ok(id),
        None => Err(invalid_item_id()),
    }
}

/// The result of a code request, from what computing the code gave: the
/// code, or the failure's kind and message under the `totp` stage.
pub fn totp_result(computed: Result<Secret, (VaultErrorKind, String)>) -> (r: VaultResult)
    ensures
        match computed {
            Ok(code) => r == VaultResult::Totp(code),
            Err((kind, message)) => r matches VaultResult::Failed { stage, kind: k, message: m }
                && stage@ == "totp"@ && k == kind && m == message,
        },
{
    match computed {
        Ok(code) => VaultResult::Totp(code),
        Err((kind, message)) => VaultResult::Failed { stage: "totp", kind, message },
    }
}

} // verus!
