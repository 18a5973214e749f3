//! What every platform back-end shares: the `?os=` vocabulary, the reason
//! a target can't receive synthetic keystrokes, and the popup placement
//! math (`place`).

pub mod mac;
pub mod place;
pub mod win;

use vstd::prelude::*;

verus! {

/// The full `?os=` vocabulary, identical on every build. These strings
/// live in users' vault data and must stay stable.
pub const OS_TAGS: [&'static str; 5] = ["win", "mac", "linux", "android", "ios"];

/// The token a Windows build filters with.
pub const OS_TAG_WINDOWS: &'static str = "win";

/// The token a macOS build filters with.
pub const OS_TAG_MACOS: &'static str = "mac";

/// The token any other build filters with.
pub const OS_TAG_OTHER: &'static str = "linux";

/// `t` is one of the `?os=` tokens (see `OS_TAGS`).
pub open spec fn is_os_tag_spec(t: Seq<char>) -> bool {
    ||| t == seq!['w', 'i', 'n']
    ||| t == seq!['m', 'a', 'c']
    ||| t == seq!['l', 'i', 'n', 'u', 'x']
    ||| t == seq!['a', 'n', 'd', 'r', 'o', 'i', 'd']
    ||| t == seq!['i', 'o', 's']
}

/// Whether `t` is one of the `?os=` tokens.
pub fn is_os_tag(t: &Vec<char>) -> (b: bool)
    ensures
        b == is_os_tag_spec(t@),
{
    let win = vec!['w', 'i', 'n'];
    let mac = vec!['m', 'a', 'c'];
    let linux = vec!['l', 'i', 'n', 'u', 'x'];
    let android = vec!['a', 'n', 'd', 'r', 'o', 'i', 'd'];
    let ios = vec!['i', 'o', 's'];
    assert(win@ =~= seq!['w', 'i', 'n']);
    assert(mac@ =~= seq!['m', 'a', 'c']);
    assert(linux@ =~= seq!['l', 'i', 'n', 'u', 'x']);
    assert(android@ =~= seq!['a', 'n', 'd', 'r', 'o', 'i', 'd']);
    assert(ios@ =~= seq!['i', 'o', 's']);
    crate::text::chars_eq(t, &win) || crate::text::chars_eq(t, &mac) || crate::text::chars_eq(
        t,
        &linux,
    ) || crate::text::chars_eq(t, &android) || crate::text::chars_eq(t, &ios)
}

/// Why a target window can't receive synthetic keystrokes right now.
#[derive(Debug, Clone, Copy, PartialEq, Eq)]
pub enum BlockReason {
    /// Windows: the target's process runs at a higher integrity level.
    Elevated,
    /// macOS: the Accessibility permission hasn't been granted.
    NoAccessibility,
    /// macOS: some process holds Secure Event Input.
    SecureInput,
}

} // verus!
