use context_password::bw::job::{Answer, Call, Next, Run, Stage, Worker};
use context_password::bw::model::{RawItem, RawLogin, RawUri};
use context_password::bw::worker::{status_report, VaultStatus};
use context_password::msg::{VaultCmd, VaultResult};
use context_password::secret::Secret;
use context_password::vault::VaultErrorKind;

const PREFIX: &str = "app://context-password";

fn worker() -> Worker {
    Worker::new(PREFIX.to_string(), "win".to_string())
}

fn run(success: bool, output: &str, stderr: &str) -> Run {
    Run {
        success,
        timed_out: false,
        stderr: stderr.to_string(),
        output: Secret::new(output.to_string()),
        insecure_tls: false,
    }
}

fn asked(n: &Next) -> Call {
    match n {
        Next::Call(c) => *c,
        Next::Done(_) => panic!("expected a call, got a result"),
    }
}

fn failed(n: Next) -> (&'static str, VaultErrorKind, String) {
    match n {
        Next::Done(VaultResult::Failed { stage, kind, message }) => (stage, kind, message),
        _ => panic!("expected a failure"),
    }
}

fn tagged_item() -> RawItem {
    RawItem {
        id: "1".to_string(),
        name: "nas".to_string(),
        ty: 1,
        login: Some(RawLogin {
            uris: vec![RawUri { uri: "app://context-password/1".to_string(), match_type: None }],
            username: Some("admin".to_string()),
            password: Some("pw".to_string()),
            totp: None,
        }),
    }
}

/// Drives a worker through a successful unlock up to its sync.
fn unlocked() -> Worker {
    let mut w = worker();
    let cmd = VaultCmd::Unlock(Secret::new("master".to_string()));
    assert_eq!(asked(&w.start(&cmd)), Call::Resolve);
    assert_eq!(asked(&w.answer(Answer::Resolved(Ok(())))), Call::Unlock);
    assert_eq!(asked(&w.answer(Answer::Ran(Ok(run(true, "  session-key\n", ""))))), Call::Sync);
    w
}

#[test]
fn commands_that_need_a_session_fail_as_locked_without_running_anything() {
    for (cmd, stage) in [
        (VaultCmd::Sync, "sync"),
        (VaultCmd::List, "list"),
        (VaultCmd::GetTotp("x".to_string()), "totp"),
    ] {
        let mut w = worker();
        let (s, kind, message) = failed(w.start(&cmd));
        assert_eq!(s, stage);
        assert_eq!(kind, VaultErrorKind::Locked);
        assert_eq!(message, "vault is locked");
    }
}

#[test]
fn a_missing_executable_fails_as_resolve() {
    let mut w = worker();
    w.start(&VaultCmd::Unlock(Secret::new("m".to_string())));
    let (stage, kind, message) = failed(w.answer(Answer::Resolved(Err("bw not found".to_string()))));
    assert_eq!(stage, "resolve");
    assert_eq!(kind, VaultErrorKind::NotFound);
    assert_eq!(message, "bw not found");
}

#[test]
fn an_unlock_keeps_the_trimmed_session_key_before_syncing() {
    let w = unlocked();
    assert_eq!(w.session.as_ref().map(|s| s.expose().to_string()), Some("session-key".to_string()));
    assert!(matches!(w.stage, Stage::Syncing));
}

#[test]
fn a_timed_out_unlock_fails_without_probing() {
    let mut w = worker();
    w.start(&VaultCmd::Unlock(Secret::new("m".to_string())));
    w.answer(Answer::Resolved(Ok(())));
    let mut r = run(false, "", "");
    r.timed_out = true;
    let (stage, kind, message) = failed(w.answer(Answer::Ran(Ok(r))));
    assert_eq!(stage, "unlock");
    assert_eq!(kind, VaultErrorKind::Timeout);
    assert_eq!(message, "bw unlock timed out — the Bitwarden CLI may be unresponsive.");
    assert!(w.session.is_none());
}

#[test]
fn a_failed_unlock_asks_status_for_a_sharper_message() {
    let mut w = worker();
    w.start(&VaultCmd::Unlock(Secret::new("m".to_string())));
    w.answer(Answer::Resolved(Ok(())));
    let n = w.answer(Answer::Ran(Ok(run(false, "", "Invalid master password."))));
    assert_eq!(asked(&n), Call::Status);
    let (stage, kind, message) = failed(w.answer(Answer::Probed {
        status: Some(VaultStatus::Locked),
        last_sync: None,
    }));
    assert_eq!(stage, "unlock");
    assert_eq!(kind, VaultErrorKind::BadPassword);
    assert_eq!(message, "wrong master password");
}

#[test]
fn a_failed_unlock_with_nobody_logged_in_says_so() {
    let mut w = worker();
    w.start(&VaultCmd::Unlock(Secret::new("m".to_string())));
    w.answer(Answer::Resolved(Ok(())));
    w.answer(Answer::Ran(Ok(run(false, "", "something odd"))));
    let (_, _, message) = failed(w.answer(Answer::Probed {
        status: Some(VaultStatus::Unauthenticated),
        last_sync: None,
    }));
    assert!(message.contains("bw login"));
}

#[test]
fn an_insecure_tls_unlock_skips_the_sync_and_flags_the_list_stale() {
    let mut w = worker();
    w.start(&VaultCmd::Unlock(Secret::new("m".to_string())));
    w.answer(Answer::Resolved(Ok(())));
    let mut r = run(true, "key", "");
    r.insecure_tls = true;
    assert_eq!(asked(&w.answer(Answer::Ran(Ok(r)))), Call::Status);
    let n = w.answer(Answer::Probed { status: None, last_sync: Some("2024-01-01T00:00:00Z".to_string()) });
    assert_eq!(asked(&n), Call::ListItems);
    match &w.stage {
        Stage::Listing { stale: Some(notice) } => {
            assert_eq!(notice.reason, VaultErrorKind::Tls);
            assert_eq!(notice.last_sync.as_deref(), Some("2024-01-01T00:00:00Z"));
            assert_eq!(notice.detail, "sync skipped — this network can't reach the vault server securely");
        }
        _ => panic!("expected a stale listing"),
    }
}

#[test]
fn a_failed_sync_still_lists_and_flags_it_stale() {
    let mut w = unlocked();
    let n = w.answer(Answer::Ran(Ok(run(false, "", "getaddrinfo ENOTFOUND vault.example"))));
    assert_eq!(asked(&n), Call::Status);
    let n = w.answer(Answer::Probed { status: None, last_sync: None });
    assert_eq!(asked(&n), Call::ListItems);
    assert_eq!(asked(&w.answer(Answer::Ran(Ok(run(true, "", ""))))), Call::Parse);
    match w.answer(Answer::Parsed(Ok(vec![tagged_item()]))) {
        Next::Done(VaultResult::Items { entries, dropped, stale: Some(notice) }) => {
            assert_eq!(entries.len(), 1);
            assert_eq!(dropped, 0);
            assert_eq!(notice.reason, VaultErrorKind::Network);
            assert_eq!(notice.detail, "getaddrinfo ENOTFOUND vault.example");
        }
        _ => panic!("expected a stale list"),
    }
    assert!(w.session.is_some());
}

#[test]
fn a_sync_that_cannot_be_spawned_fails_but_keeps_the_session() {
    let mut w = unlocked();
    let (stage, kind, message) = failed(w.answer(Answer::Ran(Err("spawn failed".to_string()))));
    assert_eq!(stage, "sync");
    assert_eq!(kind, VaultErrorKind::Other);
    assert_eq!(message, "spawn failed");
    assert!(w.session.is_some());
}

#[test]
fn a_failed_listing_never_echoes_its_stderr() {
    let mut w = unlocked();
    w.answer(Answer::Ran(Ok(run(true, "", ""))));
    let (stage, kind, message) =
        failed(w.answer(Answer::Ran(Ok(run(false, "", "Error: at node:internal stack trace")))));
    assert_eq!(stage, "list");
    assert_eq!(kind, VaultErrorKind::Other);
    assert!(message.starts_with("bw list items failed: "));
    assert!(!message.contains("stack trace"));
}

#[test]
fn an_unparseable_listing_fails_as_parse() {
    let mut w = unlocked();
    w.answer(Answer::Ran(Ok(run(true, "", ""))));
    w.answer(Answer::Ran(Ok(run(true, "", ""))));
    let (stage, kind, message) = failed(w.answer(Answer::Parsed(Err("expected value".to_string()))));
    assert_eq!(stage, "parse");
    assert_eq!(kind, VaultErrorKind::Other);
    assert_eq!(message, "expected value");
}

#[test]
fn lock_forgets_the_session_whatever_bw_says() {
    let mut w = unlocked();
    w.answer(Answer::Ran(Ok(run(true, "", ""))));
    w.answer(Answer::Ran(Ok(run(true, "", ""))));
    w.answer(Answer::Parsed(Ok(vec![])));
    assert_eq!(asked(&w.start(&VaultCmd::Lock)), Call::Resolve);
    assert_eq!(asked(&w.answer(Answer::Resolved(Ok(())))), Call::Lock);
    assert!(matches!(w.answer(Answer::Ran(Ok(run(false, "", "boom")))), Next::Done(VaultResult::Locked)));
    assert!(w.session.is_none());
}

#[test]
fn lock_without_an_executable_still_forgets_the_session() {
    let mut w = unlocked();
    w.start(&VaultCmd::Lock);
    assert!(matches!(
        w.answer(Answer::Resolved(Err("gone".to_string()))),
        Next::Done(VaultResult::Locked)
    ));
    assert!(w.session.is_none());
}

#[test]
fn a_one_time_code_is_trimmed() {
    let mut w = unlocked();
    w.start(&VaultCmd::GetTotp("item".to_string()));
    assert_eq!(asked(&w.answer(Answer::Resolved(Ok(())))), Call::GetTotp);
    match w.answer(Answer::Ran(Ok(run(true, " 123456\n", "")))) {
        Next::Done(VaultResult::Totp(code)) => assert_eq!(code.expose(), "123456"),
        _ => panic!("expected a code"),
    }
}

#[test]
fn an_empty_one_time_code_is_a_failure() {
    let mut w = unlocked();
    w.start(&VaultCmd::GetTotp("item".to_string()));
    w.answer(Answer::Resolved(Ok(())));
    let (stage, kind, message) = failed(w.answer(Answer::Ran(Ok(run(true, "  \n", "")))));
    assert_eq!(stage, "totp");
    assert_eq!(kind, VaultErrorKind::Other);
    assert_eq!(message, "bw get totp returned an empty code");
}

#[test]
fn a_failed_code_fetch_without_stderr_hints_at_a_missing_totp() {
    let mut w = unlocked();
    w.start(&VaultCmd::GetTotp("item".to_string()));
    w.answer(Answer::Resolved(Ok(())));
    let (_, _, message) = failed(w.answer(Answer::Ran(Ok(run(false, "", "")))));
    assert_eq!(message, "bw get totp failed (does this item have a TOTP configured?)");
}

#[test]
fn a_code_fetch_without_an_executable_fails_as_totp() {
    let mut w = unlocked();
    w.start(&VaultCmd::GetTotp("item".to_string()));
    let (stage, kind, _) = failed(w.answer(Answer::Resolved(Err("gone".to_string()))));
    assert_eq!(stage, "totp");
    assert_eq!(kind, VaultErrorKind::NotFound);
}

#[test]
fn expects_only_the_answer_to_the_pending_call() {
    let mut w = worker();
    assert!(!w.expects(&Answer::Resolved(Ok(()))));
    w.start(&VaultCmd::Lock);
    assert!(w.expects(&Answer::Resolved(Ok(()))));
    assert!(!w.expects(&Answer::Parsed(Ok(vec![]))));
}

use context_password::bw::invocation::{invocation, retries_insecurely, SecretVar};

fn args(call: Call) -> Vec<String> {
    invocation(call, "app://context-password", "item-1").expect("a bw call").args
}

#[test]
fn secrets_travel_in_the_environment_never_the_arguments() {
    assert_eq!(args(Call::Unlock), vec!["unlock", "--raw", "--nointeraction", "--passwordenv", "CP_MASTERPW"]);
    let unlock = invocation(Call::Unlock, "", "").unwrap();
    assert_eq!(unlock.secret, SecretVar::MasterPassword);
    for call in [Call::Sync, Call::ListItems, Call::GetTotp] {
        assert_eq!(invocation(call, "", "").unwrap().secret, SecretVar::Session);
    }
    for call in [Call::Lock, Call::Status] {
        assert_eq!(invocation(call, "", "").unwrap().secret, SecretVar::Nothing);
    }
}

#[test]
fn each_call_has_its_arguments_and_time_limit() {
    assert_eq!(args(Call::ListItems), vec!["list", "items", "--nointeraction", "--search", "app://context-password"]);
    assert_eq!(args(Call::GetTotp), vec!["get", "totp", "item-1", "--raw", "--nointeraction"]);
    assert_eq!(args(Call::Sync), vec!["sync", "--nointeraction"]);
    assert_eq!(args(Call::Lock), vec!["lock", "--nointeraction"]);
    assert_eq!(args(Call::Status), vec!["status", "--nointeraction"]);
    assert_eq!(invocation(Call::Unlock, "", "").unwrap().timeout_ms, 45_000);
    assert_eq!(invocation(Call::ListItems, "", "").unwrap().timeout_ms, 30_000);
    assert_eq!(invocation(Call::Status, "", "").unwrap().timeout_ms, 10_000);
    assert!(invocation(Call::Resolve, "", "").is_none());
    assert!(invocation(Call::Parse, "", "").is_none());
}

#[test]
fn only_unlock_may_retry_without_certificate_checks() {
    assert!(invocation(Call::Unlock, "", "").unwrap().tls_fallback);
    for call in [Call::Sync, Call::ListItems, Call::GetTotp, Call::Lock, Call::Status] {
        assert!(!invocation(call, "", "").unwrap().tls_fallback);
    }
}

#[test]
fn only_a_tls_failure_is_retried_insecurely() {
    assert!(retries_insecurely(false, "Error: self signed certificate in certificate chain SELF_SIGNED_CERT_IN_CHAIN", false));
    assert!(!retries_insecurely(false, "getaddrinfo ENOTFOUND vault.example", false));
    assert!(!retries_insecurely(true, "SELF_SIGNED_CERT_IN_CHAIN", false));
    assert!(!retries_insecurely(false, "SELF_SIGNED_CERT_IN_CHAIN", true));
}

#[test]
fn a_status_report_is_read_from_its_json() {
    let out = "? Master password: [hidden]\n{\"serverUrl\":null,\"lastSync\":\"2024-05-01T10:00:00.000Z\",\"userEmail\":\"a@b.c\",\"status\":\"locked\"}\n";
    let (status, last_sync) = status_report(out);
    assert_eq!(status, Some(VaultStatus::Locked));
    assert_eq!(last_sync.as_deref(), Some("2024-05-01T10:00:00.000Z"));

    let (status, last_sync) = status_report("{\"status\":\"unauthenticated\",\"lastSync\":null}");
    assert_eq!(status, Some(VaultStatus::Unauthenticated));
    assert_eq!(last_sync, None);
}

#[test]
fn a_status_report_without_json_says_nothing() {
    assert_eq!(status_report("bw: command not found"), (None, None));
    assert_eq!(status_report("{not json"), (None, None));
    assert_eq!(status_report("{\"status\":\"sleeping\"}"), (None, None));
    assert_eq!(status_report("{\"status\":\"unlocked\"} trailing"), (None, None));
}

#[test]
fn after_a_lock_every_command_but_unlock_replies_locked_until_the_next_unlock() {
    let mut w = unlocked();
    // The unlock's job runs to its reply.
    assert_eq!(asked(&w.answer(Answer::Ran(Ok(run(true, "", ""))))), Call::ListItems);
    assert_eq!(asked(&w.answer(Answer::Ran(Ok(run(true, "[]", ""))))), Call::Parse);
    assert!(matches!(w.answer(Answer::Parsed(Ok(vec![tagged_item()]))), Next::Done(VaultResult::Items { .. })));
    assert!(matches!(w.stage, Stage::Idle));

    assert_eq!(asked(&w.start(&VaultCmd::Lock)), Call::Resolve);
    assert_eq!(asked(&w.answer(Answer::Resolved(Ok(())))), Call::Lock);
    assert!(matches!(w.answer(Answer::Ran(Err("spawn failed".to_string()))), Next::Done(VaultResult::Locked)));
    assert!(w.session.is_none());

    for (cmd, stage) in [
        (VaultCmd::List, "list"),
        (VaultCmd::Sync, "sync"),
        (VaultCmd::GetTotp("1".to_string()), "totp"),
        (VaultCmd::List, "list"),
    ] {
        let (s, kind, message) = failed(w.start(&cmd));
        assert_eq!((s, kind, message.as_str()), (stage, VaultErrorKind::Locked, "vault is locked"));
        assert!(matches!(w.stage, Stage::Idle));
    }
    let cmd = VaultCmd::Unlock(Secret::new("master".to_string()));
    assert_eq!(asked(&w.start(&cmd)), Call::Resolve);
}
