//! How each `bw` call is made: its arguments, which secret it gets through
//! its environment (never its arguments, which any process of the same
//! user can read), its time limit, and whether it may retry with
//! certificate checks off.

use vstd::prelude::*;
use vstd::string::StringExecFns;

use super::error::{classify, classify_spec};
use super::job::Call;
use crate::vault::VaultErrorKind;

verus! {

/// The environment variable `bw unlock --passwordenv` reads the master
/// password from.
pub const MASTER_PASSWORD_VAR: &'static str = "CP_MASTERPW";

/// The environment variable `bw` reads the session key from.
pub const SESSION_VAR: &'static str = "BW_SESSION";

/// The environment variable that turns certificate checks off for one
/// Node process.
pub const INSECURE_TLS_VAR: &'static str = "NODE_TLS_REJECT_UNAUTHORIZED";

/// Which secret a call gets through its environment.
#[derive(Debug, Clone, Copy, PartialEq, Eq, Structural)]
pub enum SecretVar {
    Nothing,
    /// The master password, in `MASTER_PASSWORD_VAR`.
    MasterPassword,
    /// The session key, in `SESSION_VAR`.
    Session,
}

/// One `bw` call.
pub struct Invocation {
    pub args: Vec<String>,
    pub secret: SecretVar,
    /// The time limit, in milliseconds, after which the process is killed.
    pub timeout_ms: u64,
    /// Whether a failure classified as TLS interception is retried once
    /// with certificate checks off.
    pub tls_fallback: bool,
}

/// The arguments of each call. `search_term` prefilters the listing and
/// `item_id` names the item of a one-time code.
pub open spec fn args_spec(call: Call, search_term: Seq<char>, item_id: Seq<char>) -> Seq<Seq<char>> {
    match call {
        Call::Unlock => seq!["unlock"@, "--raw"@, "--nointeraction"@, "--passwordenv"@, "CP_MASTERPW"@],
        Call::Sync => seq!["sync"@, "--nointeraction"@],
        Call::ListItems => seq!["list"@, "items"@, "--nointeraction"@, "--search"@, search_term],
        Call::Lock => seq!["lock"@, "--nointeraction"@],
        Call::GetTotp => seq!["get"@, "totp"@, item_id, "--raw"@, "--nointeraction"@],
        Call::Status => seq!["status"@, "--nointeraction"@],
        _ => Seq::empty(),
    }
}

/// The secret each call gets: the master password for an unlock, the
/// session key for the calls that read the vault, nothing for the local
/// ones.
pub open spec fn secret_spec(call: Call) -> SecretVar {
    match call {
        Call::Unlock => SecretVar::MasterPassword,
        Call::Sync | Call::ListItems | Call::GetTotp => SecretVar::Session,
        _ => SecretVar::Nothing,
    }
}

/// The time limits: the network calls get more room than the local ones.
pub open spec fn timeout_spec(call: Call) -> u64 {
    match call {
        Call::Unlock => 45_000,
        Call::Sync => 20_000,
        Call::ListItems => 30_000,
        Call::GetTotp => 15_000,
        _ => 10_000,
    }
}

/// The texts of a sequence of strings.
pub open spec fn texts(v: Seq<String>) -> Seq<Seq<char>> {
    Seq::new(v.len(), |i: int| v[i]@)
}

/// The `bw` subcommands among the calls.
pub open spec fn is_bw_call(call: Call) -> bool {
    !(call is Resolve || call is Parse)
}

fn strings(words: Vec<&str>) -> (r: Vec<String>)
    ensures
        texts(r@) == Seq::new(words.len() as nat, |i: int| words@[i]@),
{
    let mut r: Vec<String> = Vec::new();
    let mut i: usize = 0;
    while i < words.len()
        invariant
            i <= words.len(),
            texts(r@) == Seq::new(i as nat, |j: int| words@[j]@),
        decreases words.len() - i,
    {
        let w = String::from_str(words[i]);
        let ghost prev = r@;
        proof {
            assert(texts(prev).len() == prev.len());
            assert(prev.len() == i);
        }
        r.push(w);
        proof {
            assert(r@ == prev.push(w));
            assert forall|j: int| 0 <= j < i + 1 implies #[trigger] texts(r@)[j] == words@[j]@ by {
                if j < i {
                    assert(r@[j] == prev[j]);
                    assert(texts(prev)[j] == words@[j]@);
                }
            }
            assert(texts(r@) =~= Seq::new((i + 1) as nat, |j: int| words@[j]@));
        }
        i += 1;
    }
    r
}

/// How to make `call`, or `None` for the steps that aren't `bw` calls
/// (finding the executable, parsing a listing). Only an unlock may retry
/// with certificate checks off: past an intercepting proxy, the other
/// calls get its block page instead of JSON and crash.
pub fn invocation(call: Call, search_term: &str, item_id: &str) -> (r: Option<Invocation>)
    ensures
        !is_bw_call(call) ==> r is None,
        is_bw_call(call) ==> (r matches Some(inv) && texts(inv.args@) == args_spec(
            call,
            search_term@,
            item_id@,
        ) && inv.secret == secret_spec(call) && inv.timeout_ms == timeout_spec(call)
            && inv.tls_fallback == (call == Call::Unlock)),
{
    let (words, secret, timeout_ms): (Vec<&str>, SecretVar, u64) = match call {
        Call::Unlock => (
            vec!["unlock", "--raw", "--nointeraction", "--passwordenv", "CP_MASTERPW"],
            SecretVar::MasterPassword,
            45_000,
        ),
        Call::Sync => (vec!["sync", "--nointeraction"], SecretVar::Session, 20_000),
        Call::ListItems => (
            vec!["list", "items", "--nointeraction", "--search", search_term],
            SecretVar::Session,
            30_000,
        ),
        Call::Lock => (vec!["lock", "--nointeraction"], SecretVar::Nothing, 10_000),
        Call::GetTotp => (
            vec!["get", "totp", item_id, "--raw", "--nointeraction"],
            SecretVar::Session,
            15_000,
        ),
        Call::Status => (vec!["status", "--nointeraction"], SecretVar::Nothing, 10_000),
        _ => {
            return None;
        },
    };
    let ghost w = words@;
    let args = strings(words);
    proof {
        assert(texts(args@) =~= args_spec(call, search_term@, item_id@));
    }
    Some(
        Invocation {
            args,
            secret,
            timeout_ms,
            tls_fallback: match call {
                Call::Unlock => true,
                _ => false,
            },
        },
    )
}

/// Whether a first run that may retry insecurely does so: only when it
/// failed with an error classified as TLS interception. A network failure
/// would fail the same way again.
pub fn retries_insecurely(success: bool, stderr: &str, timed_out: bool) -> (b: bool)
    ensures
        b == (!success && classify_spec(stderr@, timed_out) == VaultErrorKind::Tls),
{
    if success {
        return false;
    }
    match classify(stderr, timed_out) {
        VaultErrorKind::Tls => true,
        _ => false,
    }
}

} // verus!
