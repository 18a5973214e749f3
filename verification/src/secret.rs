//! A `String` wrapper for passwords, session keys and one-time codes: it
//! is zeroized when dropped, has no implicit `Clone`, and is never printed.

use vstd::prelude::*;
use zeroize::Zeroizing;

verus! {

/// Holds a `zeroize::Zeroizing<String>`: a string that is overwritten with
/// zeros when it is dropped. Verus cannot take `Zeroizing`'s declaration
/// (its bound names an outside trait), so the wrapper lives in this
/// struct's private field, opaque to Verus.
#[verifier::external_body]
pub struct ScrubbedText {
    inner: Zeroizing<String>,
}

/// The text that a [`ScrubbedText`] holds.
pub uninterp spec fn scrubbed_text(z: ScrubbedText) -> Seq<char>;

/// `Zeroizing::new`: moves `value` into the wrapper, which holds it
/// unchanged until it is dropped.
#[verifier::external_body]
fn scrubbed_new(value: String) -> (z: ScrubbedText)
    ensures
        scrubbed_text(z) == value@,
{
    ScrubbedText { inner: Zeroizing::new(value) }
}

/// `Zeroizing<String>`'s `Deref`: the wrapped string, unchanged.
#[verifier::external_body]
fn scrubbed_as_str(z: &ScrubbedText) -> (s: &str)
    ensures
        s@ == scrubbed_text(*z),
{
    z.inner.as_str()
}

pub struct Secret(ScrubbedText);

impl View for Secret {
    type V = Seq<char>;

    closed spec fn view(&self) -> Seq<char> {
        scrubbed_text(self.0)
    }
}

impl Secret {
    pub fn new(value: String) -> (s: Self)
        ensures
            s@ == value@,
    {
        Secret(scrubbed_new(value))
    }

    pub fn expose(&self) -> (s: &str)
        ensures
            s@ == self@,
    {
        scrubbed_as_str(&self.0)
    }

    /// Explicit, greppable duplication: `Secret` deliberately has no
    /// `Clone`, so every copy of a secret is visible in the source.
    pub fn clone_secret(&self) -> (s: Self)
        ensures
            s@ == self@,
    {
        Secret::new(String::from_str(self.expose()))
    }
}

} // verus!
