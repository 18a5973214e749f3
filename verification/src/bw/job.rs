//! The Bitwarden worker as a state machine. Each command is a job that asks
//! for one outside step at a time (find `bw`, run one of its subcommands,
//! parse a listing) and decides from each answer what comes next, until it
//! has a result for the UI. The session key lives in the worker and never
//! leaves it.

use vstd::prelude::*;
use vstd::string::StringExecFns;

use super::error::{classify, classify_spec};
use super::filter::{build_entries, dropped_count, hidden_count, kept};
use super::model::RawItem;
use super::worker::{
    list_failure, precise_unlock_message, sync_stale_notice, totp_failure, totp_result,
    unlock_message_spec, VaultStatus,
};
use crate::msg::{StaleNotice, VaultCmd, VaultResult};
use crate::secret::Secret;
use crate::text::{chars_of, string_of, trim, trim_chars};
use crate::vault::entry::{entry_views, is_sorted_from};
use crate::vault::error::summary_spec;
use crate::vault::{Provider, VaultErrorKind};

verus! {

/// What a finished `bw` run reported.
pub struct Run {
    /// It exited with status 0 and did not time out.
    pub success: bool,
    pub timed_out: bool,
    pub stderr: String,
    /// Its standard output as text, for the runs whose output is a secret
    /// (the session key of `bw unlock`, the code of `bw get totp`).
    pub output: Secret,
    /// An unlock that only got through with certificate checks turned off.
    pub insecure_tls: bool,
}

/// The answer to the step a job asked for.
pub enum Answer {
    /// Looking for the `bw` executable: found, or why not.
    Resolved(Result<(), String>),
    /// A `bw` run, or why it couldn't be spawned.
    Ran(Result<Run, String>),
    /// A `bw status` probe: the status and the last sync time it reported,
    /// each `None` when the probe or the field failed.
    Probed { status: Option<VaultStatus>, last_sync: Option<String> },
    /// The listing parsed into items, or why it didn't parse.
    Parsed(Result<Vec<RawItem>, String>),
}

/// A step a job asks the caller to perform.
#[derive(Debug, Clone, Copy, PartialEq, Eq, Structural)]
pub enum Call {
    /// Look for the `bw` executable.
    Resolve,
    /// `bw unlock` with the master password of the command.
    Unlock,
    /// `bw status` (local only).
    Status,
    /// `bw sync` with the session.
    Sync,
    /// `bw list items` with the session.
    ListItems,
    /// Parse the listing's output into items.
    Parse,
    /// `bw lock`.
    Lock,
    /// `bw get totp` with the session, for the command's item.
    GetTotp,
}

/// What a job does next.
pub enum Next {
    Call(Call),
    /// The job is over; send this result.
    Done(VaultResult),
}

/// The commands, without their payloads.
#[derive(Debug, Clone, Copy, PartialEq, Eq, Structural)]
pub enum Command {
    Unlock,
    Sync,
    List,
    Lock,
    Totp,
}

/// What a job is waiting on.
pub enum Stage {
    Idle,
    Resolving(Command),
    Unlocking,
    /// A status probe to sharpen the message of a failed unlock.
    UnlockStatus { kind: VaultErrorKind, stderr: String },
    /// A status probe for the last sync time, after an unlock that needed
    /// the insecure-TLS fallback.
    TlsLastSync,
    Syncing,
    /// A status probe for the last sync time, after a failed sync.
    SyncLastSync { kind: VaultErrorKind, timed_out: bool, stderr: String },
    Listing { stale: Option<StaleNotice> },
    Parsing { stale: Option<StaleNotice> },
    Locking,
    FetchingTotp,
}

/// The Bitwarden worker: the session key, if unlocked, and the job in
/// flight.
pub struct Worker {
    pub session: Option<Secret>,
    pub stage: Stage,
    /// The tag prefix items are filtered by.
    pub uri_prefix: String,
    /// The `?os=` token of this platform.
    pub os: String,
}

/// The command a `VaultCmd` is.
pub open spec fn command_of(cmd: VaultCmd) -> Command {
    match cmd {
        VaultCmd::Unlock(_) => Command::Unlock,
        VaultCmd::Sync => Command::Sync,
        VaultCmd::List => Command::List,
        VaultCmd::Lock => Command::Lock,
        VaultCmd::GetTotp(_) => Command::Totp,
    }
}

/// The stage name a command's failure is reported under when it needs a
/// session and there is none.
pub open spec fn locked_stage(c: Command) -> Seq<char> {
    match c {
        Command::Sync => "sync"@,
        Command::List => "list"@,
        _ => "totp"@,
    }
}

/// The detail of the stale notice of a sync skipped after an insecure-TLS
/// unlock.
pub open spec fn tls_skip_detail() -> Seq<char> {
    "sync skipped — this network can't reach the vault server securely"@
}

/// Whether `a` answers what `stage` waits on.
pub open spec fn answers(stage: Stage, a: Answer) -> bool {
    match stage {
        Stage::Idle => false,
        Stage::Resolving(_) => a is Resolved,
        Stage::Unlocking | Stage::Syncing | Stage::Listing { .. } | Stage::Locking
        | Stage::FetchingTotp => a is Ran,
        Stage::UnlockStatus { .. } | Stage::TlsLastSync | Stage::SyncLastSync { .. } => a is Probed,
        Stage::Parsing { .. } => a is Parsed,
    }
}

/// `r` is the failure of `stage` with `kind` and `message`.
pub open spec fn is_failure(
    r: VaultResult,
    stage: Seq<char>,
    kind: VaultErrorKind,
    message: Seq<char>,
) -> bool {
    r matches VaultResult::Failed { stage: s, kind: k, message: m } && s@ == stage && k == kind
        && m@ == message
}

/// `n` is `Done` with the failure of `stage` with `kind` and `message`.
pub open spec fn fails_with(
    n: Next,
    stage: Seq<char>,
    kind: VaultErrorKind,
    message: Seq<char>,
) -> bool {
    n matches Next::Done(r) && is_failure(r, stage, kind, message)
}

/// `n` asks for `c`.
pub open spec fn asks(n: Next, c: Call) -> bool {
    n matches Next::Call(x) && x == c
}

/// What starting a command does in every case: the session is untouched,
/// the worker is idle exactly when the command has already replied, a
/// command that goes on asks for the executable, a lock always goes on,
/// and a command that needs the session when there is none replies at
/// once as locked.
pub open spec fn start_step(w0: Worker, cmd: VaultCmd, n: Next, w1: Worker) -> bool {
    let c = command_of(cmd);
    &&& w1.session == w0.session
    &&& (n is Done <==> w1.stage is Idle)
    &&& (n is Call ==> w1.stage == Stage::Resolving(c))
    &&& (c == Command::Lock ==> n is Call)
    &&& (c != Command::Unlock && c != Command::Lock && w0.session is None ==> fails_with(
        n,
        locked_stage(c),
        VaultErrorKind::Locked,
        "vault is locked"@,
    ))
}

/// What answering a step does in every case: the worker is idle exactly
/// when the command has replied; only an unlock's own run can give a
/// session; a lock's job replies `Locked` with no session left, whether or
/// not `bw` could be found or run.
pub open spec fn answer_step(w0: Worker, a: Answer, n: Next, w1: Worker) -> bool {
    &&& answers(w0.stage, a)
    &&& (n is Done <==> w1.stage is Idle)
    &&& !(w1.stage is Resolving)
    &&& (w1.stage is Unlocking ==> w0.stage == Stage::Resolving(Command::Unlock))
    &&& (w1.session is Some ==> (w0.session is Some || w0.stage is Unlocking))
    &&& ((w0.stage == Stage::Resolving(Command::Lock) || w0.stage is Locking) && n is Done ==> (n
        matches Next::Done(VaultResult::Locked)) && w1.session is None)
    &&& (w0.stage == Stage::Resolving(Command::Lock) && n is Call ==> w1.stage is Locking)
    &&& (w0.stage is Locking ==> n is Done)
}

fn failure(stage: &'static str, kind: VaultErrorKind, message: String) -> (n: Next)
    ensures
        fails_with(n, stage@, kind, message@),
{
    Next::Done(VaultResult::Failed { stage, kind, message })
}

/// The text of `s` with leading and trailing whitespace removed.
fn trimmed(s: &Secret) -> (r: String)
    ensures
        r@ == trim(s@),
{
    string_of(&trim_chars(&chars_of(s.expose())))
}

impl Worker {
    /// A worker with no session, waiting for a command.
    pub fn new(uri_prefix: String, os: String) -> (w: Self)
        ensures
            w.session is None,
            w.stage is Idle,
            w.uri_prefix == uri_prefix,
            w.os == os,
    {
        Worker { session: None, stage: Stage::Idle, uri_prefix, os }
    }

    /// Starts the job of `cmd`. A command that needs the session when
    /// there is none fails at once as locked, running nothing; every other
    /// job begins by looking for the `bw` executable.
    pub fn start(&mut self, cmd: &VaultCmd) -> (n: Next)
        ensures
            final(self).session == old(self).session,
            final(self).uri_prefix == old(self).uri_prefix,
            final(self).os == old(self).os,
            start_step(*old(self), *cmd, n, *final(self)),
            ({
                let c = command_of(*cmd);
                if c != Command::Unlock && c != Command::Lock && old(self).session is None {
                    &&& fails_with(n, locked_stage(c), VaultErrorKind::Locked, "vault is locked"@)
                    &&& final(self).stage is Idle
                } else {
                    &&& asks(n, Call::Resolve)
                    &&& final(self).stage == Stage::Resolving(c)
                }
            }),
    {
        let c = match cmd {
            VaultCmd::Unlock(_) => Command::Unlock,
            VaultCmd::Sync => Command::Sync,
            VaultCmd::List => Command::List,
            VaultCmd::Lock => Command::Lock,
            VaultCmd::GetTotp(_) => Command::Totp,
        };
        if self.session.is_none() {
            let stage: Option<&'static str> = match c {
                Command::Sync => Some("sync"),
                Command::List => Some("list"),
                Command::Totp => Some("totp"),
                _ => None,
            };
            if let Some(stage) = stage {
                proof {
                    reveal_strlit("sync");
                    reveal_strlit("list");
                    reveal_strlit("totp");
                }
                self.stage = Stage::Idle;
                return failure(stage, VaultErrorKind::Locked, String::from_str("vault is locked"));
            }
        }
        self.stage = Stage::Resolving(c);
        Next::Call(Call::Resolve)
    }

    /// Whether `a` answers what the job waits on.
    pub fn expects(&self, a: &Answer) -> (b: bool)
        ensures
            b == answers(self.stage, *a),
    {
        match (&self.stage, a) {
            (Stage::Resolving(_), Answer::Resolved(_)) => true,
            (Stage::Unlocking, Answer::Ran(_)) | (Stage::Syncing, Answer::Ran(_)) | (
                Stage::Listing { .. },
                Answer::Ran(_),
            ) | (Stage::Locking, Answer::Ran(_)) | (Stage::FetchingTotp, Answer::Ran(_)) => true,
            (Stage::UnlockStatus { .. }, Answer::Probed { .. }) | (
                Stage::TlsLastSync,
                Answer::Probed { .. },
            ) | (Stage::SyncLastSync { .. }, Answer::Probed { .. }) => true,
            (Stage::Parsing { .. }, Answer::Parsed(_)) => true,
            _ => false,
        }
    }

    /// Takes the answer to the step the job asked for and decides the next
    /// one.
    ///
    /// - Without the executable, a job fails as `resolve` (a code fetch as
    ///   `totp`); a lock still forgets the session and reports it locked.
    /// - A failed unlock is reported with the sharpest message known: a
    ///   timeout at once, else after a local status probe. A successful
    ///   one keeps its session key at once, before anything after it can
    ///   fail, so that a failed sync or listing never costs the session.
    ///   After an unlock that needed the insecure-TLS fallback, the sync
    ///   (which would hit the same blocked host) is skipped and the list is
    ///   flagged stale; otherwise it syncs first.
    /// - A sync that ran but failed still lists, flagged stale with why;
    ///   one that could not be spawned fails the job.
    /// - A failed listing is reported by its kind, never its raw stderr; a
    ///   listing that parses is filtered into the popup's entries.
    /// - A lock forgets the session whatever `bw lock` says.
    /// - A one-time code is the trimmed output, if not empty.
    pub fn answer(&mut self, a: Answer) -> (n: Next)
        requires
            answers(old(self).stage, a),
        ensures
            final(self).uri_prefix == old(self).uri_prefix,
            final(self).os == old(self).os,
            answer_step(*old(self), a, n, *final(self)),
            match (old(self).stage, a) {
                (Stage::Resolving(c), Answer::Resolved(r)) => match r {
                    Err(m) => {
                        &&& final(self).stage is Idle
                        &&& match c {
                            Command::Lock => (n matches Next::Done(VaultResult::Locked))
                                && final(self).session is None,
                            Command::Totp => fails_with(n, "totp"@, VaultErrorKind::NotFound, m@)
                                && final(self).session == old(self).session,
                            _ => fails_with(n, "resolve"@, VaultErrorKind::NotFound, m@) && final(self).session == old(self).session,
                        }
                    },
                    Ok(_) => {
                        &&& final(self).session == old(self).session
                        &&& match c {
                            Command::Unlock => asks(n, Call::Unlock) && final(self).stage is Unlocking,
                            Command::Sync => asks(n, Call::Sync) && final(self).stage is Syncing,
                            Command::List => asks(n, Call::ListItems) && (final(self).stage matches Stage::Listing { stale } && stale is None),
                            Command::Lock => asks(n, Call::Lock) && final(self).stage is Locking,
                            Command::Totp => asks(n, Call::GetTotp) && final(self).stage is FetchingTotp,
                        }
                    },
                },
                (Stage::Unlocking, Answer::Ran(r)) => match r {
                    Err(e) => fails_with(n, "unlock"@, VaultErrorKind::Other, e@) && final(self).stage is Idle && final(self).session == old(self).session,
                    Ok(run) => if !run.success {
                        let kind = classify_spec(run.stderr@, run.timed_out);
                        &&& final(self).session == old(self).session
                        &&& if run.timed_out {
                            fails_with(
                                n,
                                "unlock"@,
                                kind,
                                unlock_message_spec(kind, run.stderr@, true, None),
                            ) && final(self).stage is Idle
                        } else {
                            asks(n, Call::Status) && (final(self).stage matches Stage::UnlockStatus { kind: k, stderr } && k == kind
                                && stderr@ == run.stderr@)
                        }
                    } else {
                        &&& (final(self).session matches Some(key) && key@ == trim(run.output@))
                        &&& if run.insecure_tls {
                            asks(n, Call::Status) && final(self).stage is TlsLastSync
                        } else {
                            asks(n, Call::Sync) && final(self).stage is Syncing
                        }
                    },
                },
                (Stage::UnlockStatus { kind, stderr }, Answer::Probed { status, .. }) => {
                    &&& fails_with(n, "unlock"@, kind, unlock_message_spec(kind, stderr@, false, status))
                    &&& final(self).stage is Idle
                    &&& final(self).session == old(self).session
                },
                (Stage::TlsLastSync, Answer::Probed { last_sync, .. }) => {
                    &&& asks(n, Call::ListItems)
                    &&& (final(self).stage matches Stage::Listing { stale } && (stale matches Some(
                        sn,
                    ) && sn.reason == VaultErrorKind::Tls && sn.last_sync == last_sync
                        && sn.detail@ == tls_skip_detail()))
                    &&& final(self).session == old(self).session
                },
                (Stage::Syncing, Answer::Ran(r)) => {
                    &&& final(self).session == old(self).session
                    &&& match r {
                        Err(e) => fails_with(n, "sync"@, VaultErrorKind::Other, e@) && final(self).stage is Idle,
                        Ok(run) => if run.success {
                            asks(n, Call::ListItems) && (final(self).stage matches Stage::Listing {
                                stale,
                            } && stale is None)
                        } else {
                            asks(n, Call::Status) && (final(self).stage matches Stage::SyncLastSync {
                                kind,
                                timed_out,
                                stderr,
                            } && kind == classify_spec(run.stderr@, run.timed_out) && timed_out
                                == run.timed_out && stderr@ == run.stderr@)
                        },
                    }
                },
                (Stage::SyncLastSync { kind, timed_out, stderr }, Answer::Probed { last_sync, .. }) => {
                    &&& asks(n, Call::ListItems)
                    &&& (final(self).stage matches Stage::Listing { stale } && (stale matches Some(
                        sn,
                    ) && sn.reason == kind && sn.last_sync == last_sync && sn.detail@ == (
                    if timed_out {
                        "bw sync timed out"@
                    } else if stderr@.len() == 0 {
                        "bw sync failed"@
                    } else {
                        stderr@
                    })))
                    &&& final(self).session == old(self).session
                },
                (Stage::Listing { stale }, Answer::Ran(r)) => {
                    &&& final(self).session == old(self).session
                    &&& match r {
                        Err(e) => fails_with(n, "list"@, VaultErrorKind::Other, e@) && final(self).stage is Idle,
                        Ok(run) => if run.success {
                            asks(n, Call::Parse) && final(self).stage == Stage::Parsing { stale }
                        } else {
                            let kind = classify_spec(run.stderr@, run.timed_out);
                            fails_with(
                                n,
                                "list"@,
                                kind,
                                "bw list items failed: "@ + summary_spec(kind, Provider::Bitwarden),
                            ) && final(self).stage is Idle
                        },
                    }
                },
                (Stage::Parsing { stale }, Answer::Parsed(r)) => {
                    &&& final(self).session == old(self).session
                    &&& final(self).stage is Idle
                    &&& match r {
                        Err(e) => fails_with(n, "parse"@, VaultErrorKind::Other, e@),
                        Ok(items) => n matches Next::Done(
                            VaultResult::Items { entries, dropped, stale: s },
                        ) && s == stale && is_sorted_from(
                            entry_views(entries@),
                            kept(items@, old(self).uri_prefix@, old(self).os@),
                        ) && dropped == dropped_count(items@, old(self).uri_prefix@, old(self).os@)
                            && entries.len() + dropped + hidden_count(
                            items@,
                            old(self).uri_prefix@,
                            old(self).os@,
                        ) == items.len(),
                    }
                },
                (Stage::Locking, Answer::Ran(_)) => {
                    &&& (n matches Next::Done(VaultResult::Locked))
                    &&& final(self).session is None
                    &&& final(self).stage is Idle
                },
                (Stage::FetchingTotp, Answer::Ran(r)) => {
                    &&& final(self).session == old(self).session
                    &&& final(self).stage is Idle
                    &&& match r {
                        Err(e) => fails_with(n, "totp"@, VaultErrorKind::Other, e@),
                        Ok(run) => if !run.success {
                            let kind = classify_spec(run.stderr@, run.timed_out);
                            fails_with(
                                n,
                                "totp"@,
                                kind,
                                if run.stderr@.len() == 0 {
                                    "bw get totp failed (does this item have a TOTP configured?)"@
                                } else {
                                    "bw get totp failed: "@ + summary_spec(kind, Provider::Bitwarden)
                                },
                            )
                        } else if trim(run.output@).len() == 0 {
                            fails_with(
                                n,
                                "totp"@,
                                VaultErrorKind::Other,
                                "bw get totp returned an empty code"@,
                            )
                        } else {
                            n matches Next::Done(VaultResult::Totp(code)) && code@ == trim(
                                run.output@,
                            )
                        },
                    }
                },
                _ => false,
            },
    {
        let mut stage = Stage::Idle;
        std::mem::swap(&mut stage, &mut self.stage);
        match (stage, a) {
            (Stage::Resolving(c), Answer::Resolved(r)) => match r {
                Err(m) => match c {
                    Command::Lock => {
                        self.session = None;
                        Next::Done(VaultResult::Locked)
                    },
                    Command::Totp => failure("totp", VaultErrorKind::NotFound, m),
                    _ => failure("resolve", VaultErrorKind::NotFound, m),
                },
                Ok(_) => match c {
                    Command::Unlock => {
                        self.stage = Stage::Unlocking;
                        Next::Call(Call::Unlock)
                    },
                    Command::Sync => {
                        self.stage = Stage::Syncing;
                        Next::Call(Call::Sync)
                    },
                    Command::List => {
                        self.stage = Stage::Listing { stale: None };
                        Next::Call(Call::ListItems)
                    },
                    Command::Lock => {
                        self.stage = Stage::Locking;
                        Next::Call(Call::Lock)
                    },
                    Command::Totp => {
                        self.stage = Stage::FetchingTotp;
                        Next::Call(Call::GetTotp)
                    },
                },
            },
            (Stage::Unlocking, Answer::Ran(r)) => match r {
                Err(e) => failure("unlock", VaultErrorKind::Other, e),
                Ok(run) => {
                    if !run.success {
                        let kind = classify(run.stderr.as_str(), run.timed_out);
                        if run.timed_out {
                            let message = precise_unlock_message(kind, run.stderr.as_str(), true, None);
                            return failure("unlock", kind, message);
                        }
                        self.stage = Stage::UnlockStatus { kind, stderr: run.stderr };
                        return Next::Call(Call::Status);
                    }
                    self.session = Some(Secret::new(trimmed(&run.output)));
                    if run.insecure_tls {
                        self.stage = Stage::TlsLastSync;
                        Next::Call(Call::Status)
                    } else {
                        self.stage = Stage::Syncing;
                        Next::Call(Call::Sync)
                    }
                },
            },
            (Stage::UnlockStatus { kind, stderr }, Answer::Probed { status, .. }) => {
                let message = precise_unlock_message(kind, stderr.as_str(), false, status);
                failure("unlock", kind, message)
            },
            (Stage::TlsLastSync, Answer::Probed { last_sync, .. }) => {
                let notice = StaleNotice {
                    reason: VaultErrorKind::Tls,
                    last_sync,
                    detail: String::from_str(
                        "sync skipped — this network can't reach the vault server securely",
                    ),
                };
                self.stage = Stage::Listing { stale: Some(notice) };
                Next::Call(Call::ListItems)
            },
            (Stage::Syncing, Answer::Ran(r)) => match r {
                Err(e) => failure("sync", VaultErrorKind::Other, e),
                Ok(run) => {
                    if run.success {
                        self.stage = Stage::Listing { stale: None };
                        Next::Call(Call::ListItems)
                    } else {
                        let kind = classify(run.stderr.as_str(), run.timed_out);
                        self.stage = Stage::SyncLastSync {
                            kind,
                            timed_out: run.timed_out,
                            stderr: run.stderr,
                        };
                        Next::Call(Call::Status)
                    }
                },
            },
            (Stage::SyncLastSync { kind, timed_out, stderr }, Answer::Probed { last_sync, .. }) => {
                let notice = sync_stale_notice(kind, timed_out, stderr, last_sync);
                self.stage = Stage::Listing { stale: Some(notice) };
                Next::Call(Call::ListItems)
            },
            (Stage::Listing { stale }, Answer::Ran(r)) => match r {
                Err(e) => failure("list", VaultErrorKind::Other, e),
                Ok(run) => {
                    if run.success {
                        self.stage = Stage::Parsing { stale };
                        Next::Call(Call::Parse)
                    } else {
                        Next::Done(list_failure(classify(run.stderr.as_str(), run.timed_out)))
                    }
                },
            },
            (Stage::Parsing { stale }, Answer::Parsed(r)) => match r {
                Err(e) => failure("parse", VaultErrorKind::Other, e),
                Ok(items) => {
                    let (entries, dropped) = build_entries(
                        items,
                        self.uri_prefix.as_str(),
                        self.os.as_str(),
                    );
                    Next::Done(VaultResult::Items { entries, dropped, stale })
                },
            },
            (Stage::Locking, Answer::Ran(_)) => {
                self.session = None;
                Next::Done(VaultResult::Locked)
            },
            (Stage::FetchingTotp, Answer::Ran(r)) => match r {
                Err(e) => failure("totp", VaultErrorKind::Other, e),
                Ok(run) => {
                    if !run.success {
                        let kind = classify(run.stderr.as_str(), run.timed_out);
                        Next::Done(totp_failure(kind, run.stderr.as_str().is_empty()))
                    } else {
                        Next::Done(totp_result(trimmed(&run.output)))
                    }
                },
            },
            (stage, _) => {
                self.stage = stage;
                Next::Call(Call::Resolve)
            },
        }
    }
}


/// One call on a worker: starting a command, or answering the step it
/// asked for.
pub enum Step {
    Start(VaultCmd),
    Answer(Answer),
}

/// `w1` and `n` are what `s` can give from `w0`.
pub open spec fn step_of(w0: Worker, s: Step, n: Next, w1: Worker) -> bool {
    match s {
        Step::Start(cmd) => start_step(w0, cmd, n, w1),
        Step::Answer(a) => answer_step(w0, a, n, w1),
    }
}

/// A run of calls on one worker: `ws[i]` before call `steps[i]`, which
/// gives `ns[i]` and leaves `ws[i + 1]`.
pub open spec fn is_run(ws: Seq<Worker>, steps: Seq<Step>, ns: Seq<Next>) -> bool {
    &&& ws.len() == steps.len() + 1
    &&& ns.len() == steps.len()
    &&& forall|i: int| 0 <= i < steps.len() ==> step_of(ws[i], #[trigger] steps[i], ns[i], ws[i + 1])
}

/// A run that is one command's job: it is started, then its steps are
/// answered.
pub open spec fn is_job(ws: Seq<Worker>, cmd: VaultCmd, steps: Seq<Step>, ns: Seq<Next>) -> bool {
    &&& is_run(ws, steps, ns)
    &&& steps.len() >= 1
    &&& steps[0] == Step::Start(cmd)
    &&& forall|i: int| 1 <= i < steps.len() ==> #[trigger] steps[i] is Answer
}

/// Every command gets exactly one reply: until the last call of its job,
/// each call asks for another step, and once the job replies the worker is
/// idle, waiting for the next command.
pub proof fn lemma_a_job_replies_once(ws: Seq<Worker>, cmd: VaultCmd, steps: Seq<Step>, ns: Seq<Next>)
    requires
        is_job(ws, cmd, steps, ns),
    ensures
        forall|i: int| 0 <= i < ns.len() - 1 ==> #[trigger] ns[i] is Call,
        ns.last() is Done ==> ws.last().stage is Idle,
{
    assert forall|i: int| 0 <= i < ns.len() - 1 implies #[trigger] ns[i] is Call by {
        assert(step_of(ws[i], steps[i], ns[i], ws[i + 1]));
        assert(step_of(ws[i + 1], steps[i + 1], ns[i + 1], ws[i + 2]));
        assert(steps[i + 1] is Answer);
        if i == 0 {
            assert(steps[0] == Step::Start(cmd));
        }
    }
    let k = ns.len() - 1;
    assert(step_of(ws[k], steps[k], ns[k], ws[k + 1]));
    if k == 0 {
        assert(steps[0] == Step::Start(cmd));
    } else {
        assert(steps[k] is Answer);
    }
}

/// A lock's job, once it replies, replies `Locked` and leaves no session,
/// even when `bw` could not be found or `bw lock` failed.
pub proof fn lemma_a_lock_forgets_the_session(ws: Seq<Worker>, steps: Seq<Step>, ns: Seq<Next>)
    requires
        is_job(ws, VaultCmd::Lock, steps, ns),
        ns.last() is Done,
    ensures
        ns.last() matches Next::Done(VaultResult::Locked),
        ws.last().session is None,
{
    lemma_a_job_replies_once(ws, VaultCmd::Lock, steps, ns);
    assert(step_of(ws[0], steps[0], ns[0], ws[1]));
    assert(steps[0] == Step::Start(VaultCmd::Lock));
    assert(ns[0] is Call);
    assert(ws[1].stage == Stage::Resolving(Command::Lock));
    assert(ns.len() >= 2);
    assert(steps[1] is Answer);
    assert(step_of(ws[1], steps[1], ns[1], ws[2]));
    if ns.len() > 2 {
        assert(ns[1] is Call);
        assert(ws[2].stage is Locking);
        assert(steps[2] is Answer);
        assert(step_of(ws[2], steps[2], ns[2], ws[3]));
        assert(ns[2] is Done);
        assert(ns.len() == 3);
    }
}

/// With no session, and no unlock started, every listing, sync and
/// one-time-code request replies at once that the vault is locked, and
/// the session stays gone: after a lock, until the next unlock.
pub proof fn lemma_locked_until_the_next_unlock(ws: Seq<Worker>, steps: Seq<Step>, ns: Seq<Next>)
    requires
        is_run(ws, steps, ns),
        ws[0].session is None,
        !(ws[0].stage is Unlocking),
        ws[0].stage != Stage::Resolving(Command::Unlock),
        forall|i: int| 0 <= i < steps.len() ==> !(#[trigger] steps[i] matches Step::Start(
            VaultCmd::Unlock(_),
        )),
    ensures
        forall|i: int| 0 <= i < ws.len() ==> (#[trigger] ws[i]).session is None,
        forall|i: int|
            0 <= i < steps.len() ==> (#[trigger] steps[i] matches Step::Start(c) ==> ((c is List
                || c is Sync || c is GetTotp) ==> fails_with(
                ns[i],
                locked_stage(command_of(c)),
                VaultErrorKind::Locked,
                "vault is locked"@,
            ))),
    decreases steps.len(),
{
    if steps.len() > 0 {
        let m = steps.len() - 1;
        let ws0 = ws.drop_last();
        let st0 = steps.drop_last();
        let ns0 = ns.drop_last();
        assert forall|i: int| 0 <= i < st0.len() implies step_of(ws0[i], #[trigger] st0[i], ns0[i], ws0[i + 1]) by {
            assert(step_of(ws[i], steps[i], ns[i], ws[i + 1]));
        }
        assert forall|i: int| 0 <= i < st0.len() implies !(#[trigger] st0[i] matches Step::Start(
            VaultCmd::Unlock(_),
        )) by {
            assert(!(steps[i] matches Step::Start(VaultCmd::Unlock(_))));
        }
        lemma_locked_until_the_next_unlock(ws0, st0, ns0);
        lemma_stays_locked(ws0, st0, ns0);
        assert(ws[m] == ws0[m]);
        assert(step_of(ws[m], steps[m], ns[m], ws[m + 1]));
        assert(!(steps[m] matches Step::Start(VaultCmd::Unlock(_))));
        assert forall|i: int| 0 <= i < ws.len() implies (#[trigger] ws[i]).session is None by {
            if i <= m {
                assert(ws[i] == ws0[i]);
            }
        }
        assert forall|i: int|
            0 <= i < steps.len() implies (#[trigger] steps[i] matches Step::Start(c) ==> ((c is List
                || c is Sync || c is GetTotp) ==> fails_with(
                ns[i],
                locked_stage(command_of(c)),
                VaultErrorKind::Locked,
                "vault is locked"@,
            ))) by {
            assert(step_of(ws[i], steps[i], ns[i], ws[i + 1]));
            if i < m {
                assert(ws[i] == ws0[i]);
                assert(steps[i] == st0[i]);
                assert(ns[i] == ns0[i]);
            }
        }
    }
}

/// Along such a run the worker never stands at an unlock.
proof fn lemma_stays_locked(ws: Seq<Worker>, steps: Seq<Step>, ns: Seq<Next>)
    requires
        is_run(ws, steps, ns),
        ws[0].session is None,
        !(ws[0].stage is Unlocking),
        ws[0].stage != Stage::Resolving(Command::Unlock),
        forall|i: int| 0 <= i < steps.len() ==> !(#[trigger] steps[i] matches Step::Start(
            VaultCmd::Unlock(_),
        )),
    ensures
        !(ws.last().stage is Unlocking),
        ws.last().stage != Stage::Resolving(Command::Unlock),
        ws.last().session is None,
    decreases steps.len(),
{
    if steps.len() > 0 {
        let m = steps.len() - 1;
        let ws0 = ws.drop_last();
        let st0 = steps.drop_last();
        let ns0 = ns.drop_last();
        assert forall|i: int| 0 <= i < st0.len() implies step_of(ws0[i], #[trigger] st0[i], ns0[i], ws0[i + 1]) by {
            assert(step_of(ws[i], steps[i], ns[i], ws[i + 1]));
        }
        assert forall|i: int| 0 <= i < st0.len() implies !(#[trigger] st0[i] matches Step::Start(
            VaultCmd::Unlock(_),
        )) by {
            assert(!(steps[i] matches Step::Start(VaultCmd::Unlock(_))));
        }
        lemma_stays_locked(ws0, st0, ns0);
        assert(ws[m] == ws0.last());
        assert(step_of(ws[m], steps[m], ns[m], ws[m + 1]));
        assert(!(steps[m] matches Step::Start(VaultCmd::Unlock(_))));
    }
}

} // verus!
