//! Building the popup's entry list from an unlocked KeePass vault's
//! entries. Unlike Bitwarden there is no server-side prefilter: an entry
//! with neither a tagged URL nor a `context-password` field is silently
//! skipped and never counted as dropped.

use vstd::prelude::*;

use crate::secret::Secret;
use crate::text::{trim, trim_chars};
use crate::vault::entry::{entry_views, is_sorted_from, sort_entries, Entry, EntryView};
use crate::vault::tag::{self, from_body_spec, from_uri_spec, Tag, TagView, Verdict};

verus! {

broadcast use vstd::seq_lib::group_to_multiset_ensures;

/// One vault entry, as plain values.
pub struct KeePassItem {
    /// The entry's id in string form.
    pub id: String,
    pub title: String,
    /// Empty when the entry has no username.
    pub username: String,
    pub url: String,
    /// The revealed value of the entry's `context-password` custom field,
    /// when it has one.
    pub tag_field: Option<String>,
    /// The revealed password; `None` when revealing it failed.
    pub password: Option<String>,
    /// Whether the entry has an `otp` custom field.
    pub has_otp: bool,
}

/// The entry's tag: its URL when that is ours, else its
/// `context-password` field's value as a tag body.
pub open spec fn item_tag(item: KeePassItem, prefix: Seq<char>, os: Seq<char>) -> Option<TagView> {
    match from_uri_spec(trim(item.url@), prefix, os) {
        Some(t) => Some(t),
        None => match item.tag_field {
            Some(v) => Some(from_body_spec(trim(v@), os)),
            None => None,
        },
    }
}

pub enum KpOutcome {
    Keep(EntryView),
    /// Ours but broken (a malformed `os=` filter, a password that can't be
    /// revealed or is empty): counted.
    Drop,
    /// Not ours, or ours for another system: not counted.
    Skip,
}

pub open spec fn kp_outcome(item: KeePassItem, prefix: Seq<char>, os: Seq<char>) -> KpOutcome {
    match item_tag(item, prefix, os) {
        None => KpOutcome::Skip,
        Some(t) => match t.verdict {
            Verdict::BadOs => KpOutcome::Drop,
            Verdict::OtherOs => KpOutcome::Skip,
            Verdict::Show(ord) => match item.password {
                None => KpOutcome::Drop,
                Some(p) => if p@.len() == 0 {
                    KpOutcome::Drop
                } else {
                    KpOutcome::Keep(
                        EntryView {
                            id: item.id@,
                            name: item.title@,
                            username: if item.username@.len() == 0 {
                                None
                            } else {
                                Some(item.username@)
                            },
                            ord,
                            password: p@,
                            has_totp: item.has_otp,
                        },
                    )
                },
            },
        },
    }
}

pub open spec fn kp_kept(items: Seq<KeePassItem>, prefix: Seq<char>, os: Seq<char>) -> Seq<EntryView>
    decreases items.len(),
{
    if items.len() == 0 {
        Seq::empty()
    } else {
        let rest = kp_kept(items.drop_last(), prefix, os);
        match kp_outcome(items.last(), prefix, os) {
            KpOutcome::Keep(e) => rest.push(e),
            _ => rest,
        }
    }
}

pub open spec fn kp_dropped(items: Seq<KeePassItem>, prefix: Seq<char>, os: Seq<char>) -> nat
    decreases items.len(),
{
    if items.len() == 0 {
        0
    } else {
        kp_dropped(items.drop_last(), prefix, os) + match kp_outcome(items.last(), prefix, os) {
            KpOutcome::Drop => 1nat,
            _ => 0nat,
        }
    }
}

fn item_tag_exec(item: &KeePassItem, prefix: &Vec<char>, os: &Vec<char>) -> (t: Option<Tag>)
    ensures
        match item_tag(*item, prefix@, os@) {
            Some(v) => t matches Some(x) && x@ == v,
            None => t is None,
        },
{
    let url = trim_chars(&crate::text::chars_of(item.url.as_str()));
    match tag::from_uri_chars(&url, prefix, os) {
        Some(t) => Some(t),
        None => match &item.tag_field {
            Some(v) => {
                let body = trim_chars(&crate::text::chars_of(v.as_str()));
                Some(tag::from_body_chars(&body, os))
            },
            None => None,
        },
    }
}

/// `e` is the popup entry of the vault entry `item`: its id, its title as
/// the name, a username exactly when the entry's username is not empty
/// (and then that text), and its non-empty password.
pub open spec fn entry_of_item(e: EntryView, item: KeePassItem) -> bool {
    &&& e.id == item.id@
    &&& e.name == item.title@
    &&& (e.username is None <==> item.username@.len() == 0)
    &&& (item.username@.len() > 0 ==> e.username == Some(item.username@))
    &&& item.password matches Some(p) && p@.len() > 0 && e.password == p@
    &&& e.has_totp == item.has_otp
}

/// Every entry shown comes from a vault entry and carries its username,
/// or none when the vault entry's username is empty, and its password.
pub proof fn lemma_entries_carry_their_usernames(items: Seq<KeePassItem>, prefix: Seq<char>, os: Seq<char>)
    ensures
        forall|j: int|
            0 <= j < kp_kept(items, prefix, os).len() ==> exists|i: int|
                0 <= i < items.len() && entry_of_item(#[trigger] kp_kept(items, prefix, os)[j], items[i]),
    decreases items.len(),
{
    if items.len() > 0 {
        let rest = items.drop_last();
        lemma_entries_carry_their_usernames(rest, prefix, os);
        let k = kp_kept(items, prefix, os);
        let kr = kp_kept(rest, prefix, os);
        assert forall|j: int| 0 <= j < k.len() implies exists|i: int|
            0 <= i < items.len() && entry_of_item(#[trigger] k[j], items[i]) by {
            if j < kr.len() {
                assert(k[j] == kr[j]);
                let i = choose|i: int| 0 <= i < rest.len() && entry_of_item(kr[j], rest[i]);
                assert(items[i] == rest[i]);
            } else {
                let i = items.len() - 1;
                assert(items[i] == items.last());
            }
        }
    }
}

/// Filters and sorts an unlocked vault's entries into the popup's entries,
/// with the number of tagged entries dropped as broken.
pub fn build_entries(items: Vec<KeePassItem>, prefix: &str, os: &str) -> (r: (Vec<Entry>, usize))
    ensures
        is_sorted_from(entry_views(r.0@), kp_kept(items@, prefix@, os@)),
        forall|j: int|
            0 <= j < r.0.len() ==> exists|i: int|
                0 <= i < items.len() && entry_of_item(#[trigger] r.0@[j]@, items@[i]),
        r.1 == kp_dropped(items@, prefix@, os@),
{
    let p = crate::text::chars_of(prefix);
    let o = crate::text::chars_of(os);
    let mut entries: Vec<Entry> = Vec::new();
    let mut dropped: usize = 0;
    let mut i: usize = 0;
    while i < items.len()
        invariant
            i <= items.len(),
            p@ == prefix@,
            o@ == os@,
            entry_views(entries@) == kp_kept(items@.take(i as int), prefix@, os@),
            dropped == kp_dropped(items@.take(i as int), prefix@, os@),
            dropped <= i,
        decreases items.len() - i,
    {
        let item = &items[i];
        let ghost before = entry_views(entries@);
        proof {
            assert(items@.take(i + 1).drop_last() =~= items@.take(i as int));
            assert(items@.take(i + 1).last() == *item);
        }
        let tag = match item_tag_exec(item, &p, &o) {
            Some(t) => t,
            None => {
                i += 1;
                continue;
            },
        };
        let ord = match tag.verdict {
            Verdict::Show(ord) => ord,
            Verdict::BadOs => {
                dropped += 1;
                i += 1;
                continue;
            },
            Verdict::OtherOs => {
                i += 1;
                continue;
            },
        };
        let password = match &item.password {
            Some(pw) => {
                if pw.as_str().is_empty() {
                    dropped += 1;
                    i += 1;
                    continue;
                }
                pw.clone()
            },
            None => {
                dropped += 1;
                i += 1;
                continue;
            },
        };
        let username = if item.username.as_str().is_empty() {
            None
        } else {
            Some(item.username.clone())
        };
        let entry = Entry {
            id: item.id.clone(),
            name: item.title.clone(),
            username,
            ord,
            password: Secret::new(password),
            has_totp: item.has_otp,
        };
        let ghost ev = entry@;
        entries.push(entry);
        proof {
            assert(entry_views(entries@) =~= before.push(ev));
        }
        i += 1;
    }
    assert(items@.take(items.len() as int) =~= items@);
    sort_entries(&mut entries);
    proof {
        lemma_entries_carry_their_usernames(items@, prefix@, os@);
        let ks = kp_kept(items@, prefix@, os@);
        assert forall|j: int| 0 <= j < entries.len() implies exists|i: int|
            0 <= i < items.len() && entry_of_item(#[trigger] entries@[j]@, items@[i]) by {
            let ev = entry_views(entries@);
            assert(ev[j] == entries@[j]@);
            assert(ev.to_multiset().count(ev[j]) > 0);
            assert(ks.to_multiset().count(ev[j]) > 0);
            let t = choose|t: int| 0 <= t < ks.len() && ks[t] == ev[j];
            assert(ks[t] == ev[j]);
        }
    }
    (entries, dropped)
}

} // verus!
