//! The decisions of the Bitwarden worker: what each `bw` step's outcome
//! becomes. Running the subprocesses is the caller's part; every message
//! built here is a user-facing sentence that never echoes raw stderr
//! unless nothing better is known.

use vstd::prelude::*;
use vstd::string::StringExecFns;

use crate::msg::{StaleNotice, VaultResult};
use crate::text::{chars_of, find_char, lemma_find_char, slice_of, string_of};
use crate::vault::entry::opt_text;
use crate::secret::Secret;
use crate::vault::error::summary_spec;
use crate::vault::{Provider, VaultErrorKind};

verus! {

/// The `status` field of `bw status`.
#[derive(Debug, Clone, Copy, PartialEq, Eq)]
pub enum VaultStatus {
    Unauthenticated,
    Locked,
    Unlocked,
}

pub open spec fn status_spec(text: Option<Seq<char>>) -> Option<VaultStatus> {
    match text {
        Some(t) => if t == "unauthenticated"@ {
            Some(VaultStatus::Unauthenticated)
        } else if t == "locked"@ {
            Some(VaultStatus::Locked)
        } else if t == "unlocked"@ {
            Some(VaultStatus::Unlocked)
        } else {
            None
        },
        None => None,
    }
}

fn text_is(t: &str, word: &str) -> (b: bool)
    ensures
        b == (t@ == word@),
{
    crate::text::chars_eq(&crate::text::chars_of(t), &crate::text::chars_of(word))
}

/// The vault status named by the `status` field's text, if it names one.
pub fn status_from_text(text: Option<&str>) -> (s: Option<VaultStatus>)
    ensures
        s == status_spec(
            match text {
                Some(t) => Some(t@),
                None => None,
            },
        ),
{
    match text {
        Some(t) => {
            if text_is(t, "unauthenticated") {
                Some(VaultStatus::Unauthenticated)
            } else if text_is(t, "locked") {
                Some(VaultStatus::Locked)
            } else if text_is(t, "unlocked") {
                Some(VaultStatus::Unlocked)
            } else {
                None
            }
        },
        None => None,
    }
}

/// What `serde_json` reads under `field` in the JSON text `json`: the
/// field's string value; `None` when `json` is not one JSON value, or it has
/// no such field, or the field is not a string.
pub uninterp spec fn json_string_field(json: Seq<char>, field: Seq<char>) -> Option<Seq<char>>;

/// `serde_json::from_str::<serde_json::Value>`, then `Value::get(field)`
/// and `Value::as_str`: the string under `field` of the JSON text `json`.
/// Its result depends on the two texts alone.
#[verifier::external_body]
fn string_field(json: &str, field: &str) -> (r: Option<String>)
    ensures
        match r {
            Some(s) => json_string_field(json@, field@) == Some(s@),
            None => json_string_field(json@, field@) is None,
        },
{
    let value: serde_json::Value = serde_json::from_str(json).ok()?;
    value.get(field)?.as_str().map(str::to_string)
}

/// The status and the last sync time a `bw status` run printed: its output
/// from the first `{` on, read as JSON, each `None` when missing.
pub open spec fn status_report_spec(output: Seq<char>) -> (Option<VaultStatus>, Option<Seq<char>>) {
    let i = find_char(output, '{');
    if i < output.len() {
        let json = output.skip(i);
        (status_spec(json_string_field(json, "status"@)), json_string_field(json, "lastSync"@))
    } else {
        (None, None)
    }
}

/// The status and the last sync time a `bw status` run printed.
pub fn status_report(output: &str) -> (r: (Option<VaultStatus>, Option<String>))
    ensures
        r.0 == status_report_spec(output@).0,
        opt_text(r.1) == status_report_spec(output@).1,
{
    let chars = chars_of(output);
    let n = chars.len();
    let mut i: usize = 0;
    while i < n && chars[i] != '{'
        invariant
            i <= n == chars.len(),
            chars@ == output@,
            forall|j: int| 0 <= j < i ==> chars@[j] != '{',
        decreases n - i,
    {
        i += 1;
    }
    proof {
        lemma_find_char(output@, '{', i as int);
    }
    if i == n {
        return (None, None);
    }
    let json = string_of(&slice_of(&chars, i, n));
    assert(json@ =~= output@.skip(i as int));
    let status = match string_field(json.as_str(), "status") {
        Some(t) => status_from_text(Some(t.as_str())),
        None => status_from_text(None),
    };
    let last_sync = string_field(json.as_str(), "lastSync");
    (status, last_sync)
}

pub open spec fn not_logged_in_text() -> Seq<char> {
    "No Bitwarden account is logged in on this machine. Run `bw login` in a terminal, then try again."@
}

/// The message for a failed unlock: a timeout first; then, when a
/// `bw status` probe says no account is logged in, that; otherwise by the
/// failure's kind, the raw stderr only for a kind without a sentence.
pub open spec fn unlock_message_spec(
    kind: VaultErrorKind,
    stderr: Seq<char>,
    timed_out: bool,
    status: Option<VaultStatus>,
) -> Seq<char> {
    if timed_out {
        "bw unlock timed out — the Bitwarden CLI may be unresponsive."@
    } else if status == Some(VaultStatus::Unauthenticated) {
        not_logged_in_text()
    } else {
        match kind {
            VaultErrorKind::NotLoggedIn => not_logged_in_text(),
            VaultErrorKind::Network => "Can't reach the Bitwarden server (network blocked?). Unlocking isn't possible right now."@,
            VaultErrorKind::Tls => "Can't reach the Bitwarden server — its certificate doesn't match (corporate proxy?), and retrying without certificate verification didn't help either. Unlocking isn't possible right now."@,
            VaultErrorKind::BadPassword => "wrong master password"@,
            VaultErrorKind::CorruptedCache => "The local Bitwarden vault cache appears corrupted (this is a bw CLI-side data problem, not your password). Fix: on a network that can actually reach the vault server, run `bw logout` then `bw login` again in a terminal, then try unlocking here again."@,
            _ => if stderr.len() == 0 {
                "bw unlock failed (wrong password, or the vault isn't logged in)"@
            } else {
                stderr
            },
        }
    }
}

/// A precise message for an unlock failure. `status` is what a `bw status`
/// probe reported (`None` when the probe failed); it is only consulted
/// when the call did not time out.
pub fn precise_unlock_message(
    kind: VaultErrorKind,
    stderr: &str,
    timed_out: bool,
    status: Option<VaultStatus>,
) -> (m: String)
    ensures
        m@ == unlock_message_spec(kind, stderr@, timed_out, status),
{
    if timed_out {
        return String::from_str("bw unlock timed out — the Bitwarden CLI may be unresponsive.");
    }
    if let Some(VaultStatus::Unauthenticated) = status {
        return String::from_str(
            "No Bitwarden account is logged in on this machine. Run `bw login` in a terminal, then try again.",
        );
    }
    match kind {
        VaultErrorKind::NotLoggedIn => String::from_str(
            "No Bitwarden account is logged in on this machine. Run `bw login` in a terminal, then try again.",
        ),
        VaultErrorKind::Network => String::from_str(
            "Can't reach the Bitwarden server (network blocked?). Unlocking isn't possible right now.",
        ),
        VaultErrorKind::Tls => String::from_str(
            "Can't reach the Bitwarden server — its certificate doesn't match (corporate proxy?), and retrying without certificate verification didn't help either. Unlocking isn't possible right now.",
        ),
        VaultErrorKind::BadPassword => String::from_str("wrong master password"),
        VaultErrorKind::CorruptedCache => String::from_str(
            "The local Bitwarden vault cache appears corrupted (this is a bw CLI-side data problem, not your password). Fix: on a network that can actually reach the vault server, run `bw logout` then `bw login` again in a terminal, then try unlocking here again.",
        ),
        _ => {
            if stderr.is_empty() {
                String::from_str("bw unlock failed (wrong password, or the vault isn't logged in)")
            } else {
                String::from_str(stderr)
            }
        },
    }
}

/// The result for a command that needs an unlocked session when there is
/// none.
pub fn locked_failure(stage: &'static str) -> (r: VaultResult)
    ensures
        r matches VaultResult::Failed { stage: s, kind, message } && s == stage && kind
            == VaultErrorKind::Locked && message@ == "vault is locked"@,
{
    VaultResult::Failed {
        stage,
        kind: VaultErrorKind::Locked,
        message: String::from_str("vault is locked"),
    }
}

/// The stale notice for a `bw sync` that exited unsuccessfully: the list
/// is still shown, flagged with why it may be stale.
pub fn sync_stale_notice(
    kind: VaultErrorKind,
    timed_out: bool,
    stderr: String,
    last_sync: Option<String>,
) -> (n: StaleNotice)
    ensures
        n.reason == kind,
        n.last_sync == last_sync,
        n.detail@ == (if timed_out {
            "bw sync timed out"@
        } else if stderr@.len() == 0 {
            "bw sync failed"@
        } else {
            stderr@
        }),
{
    let detail = if timed_out {
        String::from_str("bw sync timed out")
    } else if stderr.as_str().is_empty() {
        String::from_str("bw sync failed")
    } else {
        stderr
    };
    StaleNotice { reason: kind, last_sync, detail }
}

/// The result for a failed `bw list items`: the kind's sentence, never the
/// raw stderr.
pub fn list_failure(kind: VaultErrorKind) -> (r: VaultResult)
    ensures
        r matches VaultResult::Failed { stage, kind: k, message } && stage@ == "list"@ && k
            == kind && message@ == "bw list items failed: "@ + summary_spec(
            kind,
            Provider::Bitwarden,
        ),
{
    let mut message = String::from_str("bw list items failed: ");
    message.append(kind.summary(Provider::Bitwarden));
    VaultResult::Failed { stage: "list", kind, message }
}

/// The result for a failed `bw get totp`.
pub fn totp_failure(kind: VaultErrorKind, stderr_is_empty: bool) -> (r: VaultResult)
    ensures
        r matches VaultResult::Failed { stage, kind: k, message } && stage@ == "totp"@ && k
            == kind && message@ == (if stderr_is_empty {
            "bw get totp failed (does this item have a TOTP configured?)"@
        } else {
            "bw get totp failed: "@ + summary_spec(kind, Provider::Bitwarden)
        }),
{
    let message = if stderr_is_empty {
        String::from_str("bw get totp failed (does this item have a TOTP configured?)")
    } else {
        let mut m = String::from_str("bw get totp failed: ");
        m.append(kind.summary(Provider::Bitwarden));
        m
    };
    VaultResult::Failed { stage: "totp", kind, message }
}

/// The result for a successful `bw get totp` whose trimmed output is
/// `code`: the code, unless it is empty.
pub fn totp_result(code: String) -> (r: VaultResult)
    ensures
        code@.len() == 0 ==> (r matches VaultResult::Failed { stage, kind, message } && stage@
            == "totp"@ && kind == VaultErrorKind::Other && message@
            == "bw get totp returned an empty code"@),
        code@.len() > 0 ==> (r matches VaultResult::Totp(s) && s@ == code@),
{
    if code.as_str().is_empty() {
        return VaultResult::Failed {
            stage: "totp",
            kind: VaultErrorKind::Other,
            message: String::from_str("bw get totp returned an empty code"),
        };
    }
    VaultResult::Totp(Secret::new(code))
}

} // verus!
