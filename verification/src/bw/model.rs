//! The raw shape of `bw list items` output, as plain values. Nothing here
//! derives `Debug`: these can hold passwords.

use vstd::prelude::*;

verus! {

pub struct RawItem {
    pub id: String,
    pub name: String,
    /// `1` is a login item.
    pub ty: u8,
    pub login: Option<RawLogin>,
}

pub struct RawLogin {
    pub uris: Vec<RawUri>,
    pub username: Option<String>,
    pub password: Option<String>,
    /// The raw TOTP seed; only its presence matters.
    pub totp: Option<String>,
}

pub struct RawUri {
    pub uri: String,
    /// Part of the real JSON shape; nothing reads it.
    pub match_type: Option<u8>,
}

} // verus!
