use context_password::bw::error::classify;
use context_password::vault::VaultErrorKind;
#[test]
fn timeout_wins_regardless_of_stderr_content() {
    assert_eq!(classify("You are not logged in.", true), VaultErrorKind::Timeout);
    assert_eq!(classify("", true), VaultErrorKind::Timeout);
}

#[test]
fn measured_corrupted_local_cache_classifies_distinctly_from_network() {
    // Captured verbatim (trimmed) from this machine: a `bw sync` that
    // crashed mid-write (via the TLS fallback that has since been
    // removed from `cmd::sync`) left a cached `Policy` record with an
    // invalid date, which then crashed a *plain* `bw unlock` too, even
    // though its own stderr also mentions ServerConfig/fetch noise as a
    // side effect — the cache corruption must still win.
    let stderr = "Error getting vault timeout: RangeError: Invalid time value\n\
                   Unable to fetch ServerConfig from https://bitwarden.dzienia.pl/api Error\n  \
                   message: 'no elements in sequence'";
    assert_eq!(classify(stderr, false), VaultErrorKind::CorruptedCache);
}

#[test]
fn measured_not_logged_in() {
    assert_eq!(classify("You are not logged in.", false), VaultErrorKind::NotLoggedIn);
}

#[test]
fn measured_unreachable_host() {
    // Captured verbatim (trimmed) from this machine against a
    // deliberately unresolvable hostname.
    let stderr = "Unable to fetch ServerConfig from https://vault.invalid.example.test/api \
                   FetchError: request to https://vault.invalid.example.test/api/config \
                   failed, reason: getaddrinfo ENOTFOUND vault.invalid.example.test";
    assert_eq!(classify(stderr, false), VaultErrorKind::Network);
}

#[test]
fn tls_interception_shapes_classify_as_tls() {
    for marker in [
        "unable to verify the first certificate",
        "SELF_SIGNED_CERT_IN_CHAIN",
        "UNABLE_TO_GET_ISSUER_CERT_LOCALLY",
    ] {
        assert_eq!(classify(marker, false), VaultErrorKind::Tls, "marker: {marker}");
    }
}

#[test]
fn measured_zscaler_cert_altname_mismatch_classifies_as_tls() {
    // Captured verbatim from this machine: Zscaler intercepts the
    // vault's domain and presents its own block-notice certificate
    // instead, which Node reports as an altname mismatch rather than a
    // connection failure.
    let stderr = "Unable to fetch ServerConfig from https://bitwarden.dzienia.pl/api \
                   FetchError: request to https://bitwarden.dzienia.pl/api/config failed, \
                   reason: Hostname/IP does not match certificate's altnames: Host: \
                   bitwarden.dzienia.pl. is not in the cert's altnames: DNS:dnsblocknotice.\
                   capgemini.com, DNS:www.dnsblocknotice.capgemini.com\n  type: 'system',\n  \
                   errno: 'ERR_TLS_CERT_ALTNAME_INVALID',\n  code: 'ERR_TLS_CERT_ALTNAME_INVALID'";
    assert_eq!(classify(stderr, false), VaultErrorKind::Tls);
}

#[test]
fn connection_level_shapes_classify_as_network() {
    for marker in ["ECONNREFUSED", "ETIMEDOUT", "ECONNRESET", "EAI_AGAIN"] {
        assert_eq!(classify(marker, false), VaultErrorKind::Network, "marker: {marker}");
    }
}

#[test]
fn bad_password_shapes() {
    assert_eq!(classify("Invalid master password.", false), VaultErrorKind::BadPassword);
    assert_eq!(
        classify("Username or password is incorrect. Try again.", false),
        VaultErrorKind::BadPassword
    );
}

#[test]
fn locked_shape() {
    assert_eq!(classify("Vault is locked.", false), VaultErrorKind::Locked);
}

#[test]
fn unrecognised_text_falls_back_to_other_rather_than_guessing() {
    assert_eq!(classify("Something bw has never said before.", false), VaultErrorKind::Other);
}

#[test]
fn empty_stderr_is_other_not_a_panic() {
    assert_eq!(classify("", false), VaultErrorKind::Other);
}
