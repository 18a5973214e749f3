//! Case-insensitive custom-field lookup.

use vstd::prelude::*;

use crate::text::{ascii_lower, ascii_lowercase, chars_eq, chars_of};

verus! {

/// The position of the first key equal to `key` in any ASCII case.
pub open spec fn field_index_spec(keys: Seq<Seq<char>>, key: Seq<char>) -> Option<int>
    decreases keys.len(),
{
    if keys.len() == 0 {
        None
    } else if ascii_lower(keys[0]) == ascii_lower(key) {
        Some(0)
    } else {
        match field_index_spec(keys.drop_first(), key) {
            Some(i) => Some(i + 1),
            None => None,
        }
    }
}

pub open spec fn key_texts(keys: Seq<String>) -> Seq<Seq<char>> {
    Seq::new(keys.len(), |i: int| keys[i]@)
}

/// Finds a custom field by key, case-insensitively, among the entry's
/// field keys: the first match, in field order.
pub fn custom_field_ci(keys: &Vec<String>, key: &str) -> (r: Option<usize>)
    ensures
        match field_index_spec(key_texts(keys@), key@) {
            Some(i) => r == Some(i as usize),
            None => r is None,
        },
{
    let want = ascii_lowercase(&chars_of(key));
    let ghost ks = key_texts(keys@);
    let mut i: usize = 0;
    assert(ks.skip(0) =~= ks);
    while i < keys.len()
        invariant
            i <= keys.len(),
            ks == key_texts(keys@),
            want@ == ascii_lower(key@),
            field_index_spec(ks, key@) == (match field_index_spec(ks.skip(i as int), key@) {
                Some(j) => Some(j + i),
                None => None,
            }),
        decreases keys.len() - i,
    {
        let k = ascii_lowercase(&chars_of(keys[i].as_str()));
        proof {
            let rest = ks.skip(i as int);
            assert(rest[0] == keys@[i as int]@);
            assert(rest.drop_first() =~= ks.skip(i + 1));
        }
        if chars_eq(&k, &want) {
            return Some(i);
        }
        i += 1;
    }
    proof {
        assert(ks.skip(keys.len() as int).len() == 0);
    }
    None
}

/// What `uuid::Uuid::parse_str` makes of `s`, as the UUID's 128-bit value;
/// `None` when it rejects `s`.
pub uninterp spec fn uuid_parse(s: Seq<char>) -> Option<u128>;

/// `uuid::Uuid::parse_str`, read back with `as_u128`: the UUID `s` spells
/// (in any of the forms the crate accepts), or `None`. It depends on `s`
/// alone.
#[verifier::external_body]
fn uuid_from_str(s: &str) -> (r: Option<u128>)
    ensures
        r == uuid_parse(s@),
{
    uuid::Uuid::parse_str(s).ok().map(|u| u.as_u128())
}

/// The KeePass entry id (a UUID) an item id spells, or `None` when it
/// isn't one of ours.
pub fn parse_entry_id(s: &str) -> (r: Option<u128>)
    ensures
        r == uuid_parse(s@),
{
    uuid_from_str(s)
}

} // verus!
