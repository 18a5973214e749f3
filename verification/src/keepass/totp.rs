//! `otp` custom-field recognition, and the current code of such a field:
//! an `otpauth://` URI, from which `totp-rs` computes the code.

use vstd::prelude::*;
use vstd::string::StringExecFns;

use super::model::{custom_field_ci, field_index_spec, key_texts};
use crate::secret::Secret;
use crate::text::{ascii_lower, ascii_lowercase, chars_of, has_prefix, starts_with};
use crate::vault::VaultErrorKind;
use totp_rs::Totp;

verus! {

/// Whether the entry has an `otp` custom field, in any ASCII case.
pub fn has_totp_field(keys: &Vec<String>) -> (b: bool)
    ensures
        b == field_index_spec(key_texts(keys@), "otp"@) is Some,
{
    custom_field_ci(keys, "otp").is_some()
}

/// Whether an `otp` field's value is an `otpauth://` URI, the only form a
/// code is computed from.
pub fn is_otpauth_uri(value: &str) -> (b: bool)
    ensures
        b == has_prefix(ascii_lower(value@), "otpauth://"@),
{
    starts_with(&ascii_lowercase(&chars_of(value)), &chars_of("otpauth://"))
}

#[verifier::external_type_specification]
#[verifier::external_body]
pub struct ExTotp(Totp);

/// Why `totp_rs::Totp::from_url_unchecked` rejects `url` (its error's
/// text), or `None` when it accepts it.
pub uninterp spec fn otp_url_rejection(url: Seq<char>) -> Option<Seq<char>>;

/// The number of digits of the generator `from_url_unchecked` builds from
/// `url`.
pub uninterp spec fn otp_digits(url: Seq<char>) -> u8;

/// The step, in seconds, of the generator built from `url`.
pub uninterp spec fn otp_step(url: Seq<char>) -> u64;

/// The code `Totp::generate` gives at `time` (seconds since the Unix
/// epoch) for the generator built from `url`.
pub uninterp spec fn otp_code(url: Seq<char>, time: u64) -> Seq<char>;

/// A code generator, with the URI it was built from.
pub struct OtpGenerator {
    totp: Totp,
    url: Ghost<Seq<char>>,
}

impl View for OtpGenerator {
    type V = Seq<char>;

    closed spec fn view(&self) -> Seq<char> {
        self.url@
    }
}

/// `totp_rs::Totp::from_url_unchecked`: the generator described by an
/// `otpauth://` URI (its algorithm, digits, period and secret), or the
/// error's text. It depends on the URI alone; unlike `from_url` it does
/// not insist on a compliant digit count or secret length.
#[verifier::external_body]
fn otp_from_url(url: &str) -> (r: Result<OtpGenerator, String>)
    ensures
        match otp_url_rejection(url@) {
            None => r matches Ok(g) && g@ == url@,
            Some(m) => r matches Err(e) && e@ == m,
        },
{
    match Totp::from_url_unchecked(url) {
        Ok(totp) => Ok(OtpGenerator { totp, url: Ghost(url@) }),
        Err(e) => Err(e.to_string()),
    }
}

/// `Totp::digits`: the generator's number of digits.
#[verifier::external_body]
fn generator_digits(g: &OtpGenerator) -> (d: u8)
    ensures
        d == otp_digits(g@),
{
    g.totp.digits()
}

/// `Totp::step`: the generator's step, in seconds.
#[verifier::external_body]
fn generator_step(g: &OtpGenerator) -> (s: u64)
    ensures
        s == otp_step(g@),
{
    g.totp.step()
}

/// `Totp::generate`, written out by the token's `Display`: the code at
/// `time`. It panics on ten or more digits, and divides by the step.
#[verifier::external_body]
fn generator_code(g: &OtpGenerator, time: u64) -> (c: String)
    requires
        otp_digits(g@) <= 9,
        otp_step(g@) > 0,
    ensures
        c@ == otp_code(g@, time),
{
    g.totp.generate(time).to_string()
}

/// Whether a generator can compute a code without panicking.
pub open spec fn generates(url: Seq<char>) -> bool {
    otp_digits(url) <= 9 && otp_step(url) > 0
}

/// The code of `g` at `now`.
pub fn code_at(g: &OtpGenerator, now: u64) -> (s: Secret)
    requires
        generates(g@),
    ensures
        s@ == otp_code(g@, now),
{
    Secret::new(generator_code(g, now))
}

/// The current code of an `otp` field holding `value`, at `now` (seconds
/// since the Unix epoch). A value that isn't an `otpauth://` URI is
/// refused rather than guessed at (a bare secret's algorithm, digits and
/// period can't be inferred, and a silently wrong code is worse than an
/// error). `None` when the URI describes a generator that can't compute a
/// code (ten or more digits, or a zero period).
pub fn code_from_otp_field(value: &str, now: u64) -> (r: Option<Result<Secret, (VaultErrorKind, String)>>)
    ensures
        !has_prefix(ascii_lower(value@), "otpauth://"@) ==> (r matches Some(Err((k, m))) && k
            == VaultErrorKind::Other && m@ == "the entry's otp field isn't an otpauth:// URI"@),
        has_prefix(ascii_lower(value@), "otpauth://"@) ==> match otp_url_rejection(value@) {
            Some(e) => r matches Some(Err((k, m))) && k == VaultErrorKind::Other && m@
                == "couldn't parse the otp field: "@ + e,
            None => if generates(value@) {
                r matches Some(Ok(s)) && s@ == otp_code(value@, now)
            } else {
                r is None
            },
        },
{
    if !is_otpauth_uri(value) {
        return Some(
            Err(
                (
                    VaultErrorKind::Other,
                    String::from_str("the entry's otp field isn't an otpauth:// URI"),
                ),
            ),
        );
    }
    match otp_from_url(value) {
        Err(e) => Some(
            Err(
                (
                    VaultErrorKind::Other,
                    String::from_str("couldn't parse the otp field: ").concat(e.as_str()),
                ),
            ),
        ),
        Ok(g) => {
            if generator_digits(&g) <= 9 && generator_step(&g) > 0 {
                Some(Ok(code_at(&g, now)))
            } else {
                None
            }
        },
    }
}

/// What looking up an entry's `otp` field found.
pub enum OtpLookup {
    /// No entry has the id any more.
    NoEntry,
    /// The entry has no `otp` field, or revealing it gave nothing.
    NoField,
    /// Revealing the field failed, with the error's text.
    RevealFailed(String),
    /// The field's revealed value.
    Revealed(String),
}

/// `r` is what the current code for an entry comes to, from what looking
/// up its `otp` field found, at `now`: the code, or the failure's kind and
/// message, or `None` as for [`code_from_otp_field`].
pub open spec fn computes(
    lookup: OtpLookup,
    now: u64,
    r: Option<Result<Secret, (VaultErrorKind, String)>>,
) -> bool {
    &&& lookup is NoEntry ==> (r matches Some(Err((k, m))) && k == VaultErrorKind::Other && m@
        == "item no longer exists"@)
    &&& lookup is NoField ==> (r matches Some(Err((k, m))) && k == VaultErrorKind::Other && m@
        == "this item has no otp field"@)
    &&& lookup matches OtpLookup::RevealFailed(e) ==> (r matches Some(Err((k, m))) && k
        == VaultErrorKind::Other && m@ == "couldn't reveal the otp field: "@ + e@)
    &&& lookup matches OtpLookup::Revealed(value) ==> {
        &&& !has_prefix(ascii_lower(value@), "otpauth://"@) ==> (r matches Some(Err((k, m)))
            && k == VaultErrorKind::Other && m@ == "the entry's otp field isn't an otpauth:// URI"@)
        &&& has_prefix(ascii_lower(value@), "otpauth://"@) ==> match otp_url_rejection(value@) {
            Some(e) => r matches Some(Err((k, m))) && k == VaultErrorKind::Other && m@
                == "couldn't parse the otp field: "@ + e,
            None => if generates(value@) {
                r matches Some(Ok(s)) && s@ == otp_code(value@, now)
            } else {
                r is None
            },
        }
    }
}

/// The current code for an entry, from what looking up its `otp` field
/// found, at `now` (seconds since the Unix epoch), or the failure's kind
/// and message. `None` as for [`code_from_otp_field`].
pub fn compute(lookup: OtpLookup, now: u64) -> (r: Option<Result<Secret, (VaultErrorKind, String)>>)
    ensures
        computes(lookup, now, r),
{
    match lookup {
        OtpLookup::NoEntry => Some(
            Err((VaultErrorKind::Other, String::from_str("item no longer exists"))),
        ),
        OtpLookup::NoField => Some(
            Err((VaultErrorKind::Other, String::from_str("this item has no otp field"))),
        ),
        OtpLookup::RevealFailed(e) => Some(
            Err(
                (
                    VaultErrorKind::Other,
                    String::from_str("couldn't reveal the otp field: ").concat(e.as_str()),
                ),
            ),
        ),
        OtpLookup::Revealed(value) => code_from_otp_field(value.as_str(), now),
    }
}

} // verus!
