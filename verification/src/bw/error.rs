//! Classifying a failed `bw` call from its stderr text. The CLI has no
//! stable error codes, so this is substring matching, ASCII case folded.

use vstd::prelude::*;

use crate::text::{ascii_lower, ascii_lowercase, chars_of, contains, contains_chars};
use crate::vault::VaultErrorKind;

verus! {

/// The certificate-mismatch shapes: a TLS-intercepting proxy.
pub open spec fn has_tls_marker(l: Seq<char>) -> bool {
    ||| contains(l, "unable to verify the first certificate"@)
    ||| contains(l, "unable to get local issuer certificate"@)
    ||| contains(l, "self_signed_cert_in_chain"@)
    ||| contains(l, "unable_to_get_issuer_cert_locally"@)
    ||| contains(l, "certificate has expired"@)
    ||| contains(l, "cert_has_expired"@)
    ||| contains(l, "err_tls_cert_altname_invalid"@)
    ||| contains(l, "does not match certificate's altnames"@)
    ||| contains(l, "depth zero self signed certificate"@)
}

/// The connection-level shapes: DNS, refused, reset, blackholed.
pub open spec fn has_network_marker(l: Seq<char>) -> bool {
    ||| contains(l, "enotfound"@)
    ||| contains(l, "econnrefused"@)
    ||| contains(l, "econnreset"@)
    ||| contains(l, "etimedout"@)
    ||| contains(l, "eai_again"@)
    ||| contains(l, "getaddrinfo"@)
    ||| contains(l, "fetcherror"@)
    ||| contains(l, "fetch failed"@)
    ||| contains(l, "socket hang up"@)
    ||| contains(l, "network request failed"@)
    ||| contains(l, "proxy"@)
}

/// The classification of a failed `bw` call: a timeout wins over the
/// text; then TLS, a corrupted cache, network, not logged in, locked and
/// a bad password, in that order; anything else is `Other`.
pub open spec fn classify_spec(stderr: Seq<char>, timed_out: bool) -> VaultErrorKind {
    let l = ascii_lower(stderr);
    if timed_out {
        VaultErrorKind::Timeout
    } else if has_tls_marker(l) {
        VaultErrorKind::Tls
    } else if contains(l, "invalid time value"@) {
        VaultErrorKind::CorruptedCache
    } else if has_network_marker(l) {
        VaultErrorKind::Network
    } else if contains(l, "you are not logged in"@) {
        VaultErrorKind::NotLoggedIn
    } else if contains(l, "vault is locked"@) {
        VaultErrorKind::Locked
    } else if contains(l, "invalid master password"@) || contains(
        l,
        "username or password is incorrect"@,
    ) {
        VaultErrorKind::BadPassword
    } else {
        VaultErrorKind::Other
    }
}

fn has(l: &Vec<char>, marker: &str) -> (b: bool)
    ensures
        b == contains(l@, marker@),
{
    contains_chars(l, &chars_of(marker))
}

/// `timed_out` takes priority over the stderr text, which may be empty or
/// stale when the process was killed.
pub fn classify(stderr: &str, timed_out: bool) -> (k: VaultErrorKind)
    ensures
        k == classify_spec(stderr@, timed_out),
{
    if timed_out {
        return VaultErrorKind::Timeout;
    }
    let l = ascii_lowercase(&chars_of(stderr));
    let tls = has(&l, "unable to verify the first certificate") || has(
        &l,
        "unable to get local issuer certificate",
    ) || has(&l, "self_signed_cert_in_chain") || has(&l, "unable_to_get_issuer_cert_locally")
        || has(&l, "certificate has expired") || has(&l, "cert_has_expired") || has(
        &l,
        "err_tls_cert_altname_invalid",
    ) || has(&l, "does not match certificate's altnames") || has(
        &l,
        "depth zero self signed certificate",
    );
    if tls {
        return VaultErrorKind::Tls;
    }
    if has(&l, "invalid time value") {
        return VaultErrorKind::CorruptedCache;
    }
    let network = has(&l, "enotfound") || has(&l, "econnrefused") || has(&l, "econnreset") || has(
        &l,
        "etimedout",
    ) || has(&l, "eai_again") || has(&l, "getaddrinfo") || has(&l, "fetcherror") || has(
        &l,
        "fetch failed",
    ) || has(&l, "socket hang up") || has(&l, "network request failed") || has(&l, "proxy");
    if network {
        return VaultErrorKind::Network;
    }
    if has(&l, "you are not logged in") {
        return VaultErrorKind::NotLoggedIn;
    }
    if has(&l, "vault is locked") {
        return VaultErrorKind::Locked;
    }
    if has(&l, "invalid master password") || has(&l, "username or password is incorrect") {
        return VaultErrorKind::BadPassword;
    }
    VaultErrorKind::Other
}

} // verus!
