//! The KeePass worker as a state machine: whether a vault is unlocked, and
//! the one outside step a command waits on (opening the database, reading
//! the resident vault's entries, looking up a field). The caller performs
//! the step and hands back what it gave; what that becomes is decided here.
//! The unlocked vault and its key live with the caller, and exist exactly
//! while `unlocked` holds.

use vstd::prelude::*;

use super::error::{classify_spec, unlock_message_spec, KeePassError};
use super::filter::KeePassItem;
use super::totp::{compute, computes, OtpLookup};
use super::{lists, list_result, reload_result, totp_result, totp_target, unlock_and_list, unlock_precheck};
use super::model::uuid_parse;
use crate::bw::worker::locked_failure;
use crate::msg::{VaultCmd, VaultResult};
use crate::vault::error::summary_spec;
use crate::vault::{Provider, VaultErrorKind};

verus! {

/// A step a command asks the caller to perform.
#[derive(Debug, Clone, Copy, PartialEq, Eq, Structural)]
pub enum KpCall {
    /// Open and decrypt the database with the command's master password,
    /// keeping the vault and the key on success.
    Open,
    /// Open the database again with the retained key, keeping the reloaded
    /// vault on success: the tray's Sync, which for KeePass means reloading
    /// from disk.
    Reopen,
    /// Read the resident vault's entries.
    ReadEntries,
    /// Look up the `otp` field of the entry with this id.
    LookUpOtp(u128),
}

/// What the step a command asked for gave.
pub enum KpAnswer {
    /// The opened vault's entries, or the error with its text.
    Opened(Result<Vec<KeePassItem>, (KeePassError, String)>),
    /// The reloaded vault's entries, or the error.
    Reopened(Result<Vec<KeePassItem>, KeePassError>),
    /// The resident vault's entries.
    Read(Vec<KeePassItem>),
    /// What looking up the field found, and the time then, in seconds since
    /// the Unix epoch.
    LookedUp { lookup: OtpLookup, now: u64 },
}

/// What a command does next.
pub enum KpNext {
    Call(KpCall),
    /// The command is over; send this result.
    Done(VaultResult),
}

/// What a command waits on.
#[derive(Debug, Clone, Copy, PartialEq, Eq, Structural)]
pub enum KpStage {
    Idle,
    Opening,
    Reopening,
    Reading,
    LookingUp,
}

/// The KeePass worker.
pub struct KeePassWorker {
    /// Whether a vault is unlocked, with its key retained.
    pub unlocked: bool,
    pub stage: KpStage,
    /// The database file.
    pub db_path: String,
    /// The tag prefix entries are filtered by.
    pub uri_prefix: String,
    /// The `?os=` token of this platform.
    pub os: String,
}

/// Whether `a` answers what `stage` waits on.
pub open spec fn kp_answers(stage: KpStage, a: KpAnswer) -> bool {
    match stage {
        KpStage::Idle => false,
        KpStage::Opening => a is Opened,
        KpStage::Reopening => a is Reopened,
        KpStage::Reading => a is Read,
        KpStage::LookingUp => a is LookedUp,
    }
}

/// `r` is the failure of `stage` with `kind` and `message`.
pub open spec fn kp_fails(r: VaultResult, stage: Seq<char>, kind: VaultErrorKind, message: Seq<char>) -> bool {
    r matches VaultResult::Failed { stage: s, kind: k, message: m } && s@ == stage && k == kind && m@
        == message
}

/// `r` replies to a code request whose lookup found `lookup` at `now`:
/// the code, or the failure under the `totp` stage; `None` when the field
/// describes a generator that can't compute a code.
pub open spec fn code_reply(lookup: OtpLookup, now: u64, r: Option<VaultResult>) -> bool {
    match r {
        None => computes(lookup, now, None),
        Some(VaultResult::Totp(code)) => computes(lookup, now, Some(Ok(code))),
        Some(VaultResult::Failed { stage, kind, message }) => stage@ == "totp"@ && computes(
            lookup,
            now,
            Some(Err((kind, message))),
        ),
        Some(_) => false,
    }
}

impl KeePassWorker {
    /// A worker with no vault unlocked, waiting for a command.
    pub fn new(db_path: String, uri_prefix: String, os: String) -> (w: Self)
        ensures
            !w.unlocked,
            w.stage == KpStage::Idle,
            w.db_path == db_path,
            w.uri_prefix == uri_prefix,
            w.os == os,
    {
        KeePassWorker { unlocked: false, stage: KpStage::Idle, db_path, uri_prefix, os }
    }

    /// Starts `cmd`.
    ///
    /// - An unlock with no database chosen fails at once; otherwise it asks
    ///   to open the database.
    /// - A sync or listing with no vault unlocked fails as locked; otherwise
    ///   it asks to reload from disk, or to read the resident vault.
    /// - A lock forgets the vault and its key at once.
    /// - A code request fails as locked with no vault, or on an id that
    ///   isn't an entry id; otherwise it asks to look up the entry's field.
    pub fn start(&mut self, cmd: &VaultCmd) -> (n: KpNext)
        requires
            old(self).stage == KpStage::Idle,
        ensures
            final(self).db_path == old(self).db_path,
            final(self).uri_prefix == old(self).uri_prefix,
            final(self).os == old(self).os,
            final(self).unlocked == (old(self).unlocked && !(*cmd is Lock)),
            match *cmd {
                VaultCmd::Unlock(_) => if old(self).db_path@.len() == 0 {
                    &&& n matches KpNext::Done(r) && kp_fails(
                        r,
                        "resolve"@,
                        VaultErrorKind::NotFound,
                        "No KeePass database selected — pick one in Settings."@,
                    )
                    &&& final(self).stage == KpStage::Idle
                } else {
                    n == KpNext::Call(KpCall::Open) && final(self).stage == KpStage::Opening
                },
                VaultCmd::Sync => if old(self).unlocked {
                    n == KpNext::Call(KpCall::Reopen) && final(self).stage == KpStage::Reopening
                } else {
                    &&& n matches KpNext::Done(r) && kp_fails(
                        r,
                        "sync"@,
                        VaultErrorKind::Locked,
                        "vault is locked"@,
                    )
                    &&& final(self).stage == KpStage::Idle
                },
                VaultCmd::List => if old(self).unlocked {
                    n == KpNext::Call(KpCall::ReadEntries) && final(self).stage == KpStage::Reading
                } else {
                    &&& n matches KpNext::Done(r) && kp_fails(
                        r,
                        "list"@,
                        VaultErrorKind::Locked,
                        "vault is locked"@,
                    )
                    &&& final(self).stage == KpStage::Idle
                },
                VaultCmd::Lock => n == KpNext::Done(VaultResult::Locked) && final(self).stage
                    == KpStage::Idle,
                VaultCmd::GetTotp(id) => if !old(self).unlocked {
                    &&& n matches KpNext::Done(r) && kp_fails(
                        r,
                        "totp"@,
                        VaultErrorKind::Locked,
                        "vault is locked"@,
                    )
                    &&& final(self).stage == KpStage::Idle
                } else {
                    match uuid_parse(id@) {
                        Some(u) => n == KpNext::Call(KpCall::LookUpOtp(u)) && final(self).stage
                            == KpStage::LookingUp,
                        None => {
                            &&& n matches KpNext::Done(r) && kp_fails(
                                r,
                                "totp"@,
                                VaultErrorKind::Other,
                                "invalid item id"@,
                            )
                            &&& final(self).stage == KpStage::Idle
                        },
                    }
                },
            },
    {
        match cmd {
            VaultCmd::Unlock(_) => match unlock_precheck(self.db_path.as_str()) {
                Some(failure) => KpNext::Done(failure),
                None => {
                    self.stage = KpStage::Opening;
                    KpNext::Call(KpCall::Open)
                },
            },
            VaultCmd::Sync => {
                if self.unlocked {
                    self.stage = KpStage::Reopening;
                    KpNext::Call(KpCall::Reopen)
                } else {
                    proof {
                        reveal_strlit("sync");
                    }
                    KpNext::Done(locked_failure("sync"))
                }
            },
            VaultCmd::List => {
                if self.unlocked {
                    self.stage = KpStage::Reading;
                    KpNext::Call(KpCall::ReadEntries)
                } else {
                    proof {
                        reveal_strlit("list");
                    }
                    KpNext::Done(locked_failure("list"))
                }
            },
            VaultCmd::Lock => {
                self.unlocked = false;
                KpNext::Done(VaultResult::Locked)
            },
            VaultCmd::GetTotp(id) => match totp_target(self.unlocked, id.as_str()) {
                Err(failure) => KpNext::Done(failure),
                Ok(u) => {
                    self.stage = KpStage::LookingUp;
                    KpNext::Call(KpCall::LookUpOtp(u))
                },
            },
        }
    }

    /// Whether `a` answers what the command waits on.
    pub fn expects(&self, a: &KpAnswer) -> (b: bool)
        ensures
            b == kp_answers(self.stage, *a),
    {
        match (&self.stage, a) {
            (KpStage::Opening, KpAnswer::Opened(_)) => true,
            (KpStage::Reopening, KpAnswer::Reopened(_)) => true,
            (KpStage::Reading, KpAnswer::Read(_)) => true,
            (KpStage::LookingUp, KpAnswer::LookedUp { .. }) => true,
            _ => false,
        }
    }

    /// Takes what the step gave and finishes the command.
    ///
    /// - An unlock that opened the database unlocks the worker and lists;
    ///   one that failed reports why, and leaves any vault already unlocked
    ///   as it was.
    /// - A reload lists the reloaded entries, or reports the failure by
    ///   kind; the vault stays unlocked either way.
    /// - A listing lists the resident entries.
    /// - A code request gives the code or why not; `None` when the field
    ///   describes a generator that can't compute a code.
    pub fn answer(&mut self, a: KpAnswer) -> (r: Option<VaultResult>)
        requires
            kp_answers(old(self).stage, a),
        ensures
            final(self).stage == KpStage::Idle,
            final(self).db_path == old(self).db_path,
            final(self).uri_prefix == old(self).uri_prefix,
            final(self).os == old(self).os,
            match a {
                KpAnswer::Opened(opened) => {
                    &&& final(self).unlocked == (old(self).unlocked || opened is Ok)
                    &&& match opened {
                        Ok(items) => r matches Some(res) && lists(
                            res,
                            items@,
                            old(self).uri_prefix@,
                            old(self).os@,
                        ),
                        Err((err, text)) => r matches Some(res) && kp_fails(
                            res,
                            "unlock"@,
                            classify_spec(err),
                            unlock_message_spec(classify_spec(err), text@),
                        ),
                    }
                },
                KpAnswer::Reopened(opened) => {
                    &&& final(self).unlocked == old(self).unlocked
                    &&& match opened {
                        Ok(items) => r matches Some(res) && lists(
                            res,
                            items@,
                            old(self).uri_prefix@,
                            old(self).os@,
                        ),
                        Err(err) => r matches Some(res) && kp_fails(
                            res,
                            "sync"@,
                            classify_spec(err),
                            "reload failed: "@ + summary_spec(classify_spec(err), Provider::KeePass),
                        ),
                    }
                },
                KpAnswer::Read(items) => {
                    &&& final(self).unlocked == old(self).unlocked
                    &&& r matches Some(res) && lists(res, items@, old(self).uri_prefix@, old(self).os@)
                },
                KpAnswer::LookedUp { lookup, now } => {
                    &&& final(self).unlocked == old(self).unlocked
                    &&& code_reply(lookup, now, r)
                },
            },
    {
        self.stage = KpStage::Idle;
        match a {
            KpAnswer::Opened(opened) => {
                if opened.is_ok() {
                    self.unlocked = true;
                }
                Some(unlock_and_list(opened, self.uri_prefix.as_str(), self.os.as_str()))
            },
            KpAnswer::Reopened(opened) => Some(
                reload_result(opened, self.uri_prefix.as_str(), self.os.as_str()),
            ),
            KpAnswer::Read(items) => Some(list_result(items, self.uri_prefix.as_str(), self.os.as_str())),
            KpAnswer::LookedUp { lookup, now } => {
                match compute(lookup, now) {
                    Some(computed) => {
                        let res = totp_result(computed);
                        proof {
                            reveal_strlit("totp");
                        }
                        Some(res)
                    },
                    None => None,
                }
            },
        }
    }
}

} // verus!
