//! Client-side filtering and sorting of `bw list items` output. `--search`
//! is only a fuzzy prefilter; the real filter matches each login uri
//! against the app's prefix, then its optional `?os=` list against this
//! build's token.

use vstd::prelude::*;

use super::model::{RawItem, RawLogin, RawUri};
use crate::secret::Secret;
use crate::vault::entry::{entry_views, is_sorted_from, opt_text, sort_entries, Entry, EntryView};
use crate::vault::tag::{self, from_uri_spec, priority, Tag, TagView, Verdict};

verus! {

broadcast use vstd::seq_lib::group_to_multiset_ensures;

/// The uris of a login, as text.
pub open spec fn uri_texts(uris: Seq<RawUri>) -> Seq<Seq<char>> {
    Seq::new(uris.len(), |i: int| uris[i].uri@)
}

/// [`tag::best`] on views.
pub open spec fn best_view(current: Option<TagView>, candidate: TagView) -> Option<TagView> {
    match current {
        Some(c) => if priority(c.verdict) >= priority(candidate.verdict) {
            Some(c)
        } else {
            Some(candidate)
        },
        None => Some(candidate),
    }
}

/// The resolved tag of a list of uris: each uri that is ours folded in
/// order by priority, the first winning a tie.
pub open spec fn tag_of_uris(uris: Seq<Seq<char>>, prefix: Seq<char>, os: Seq<char>) -> Option<
    TagView,
>
    decreases uris.len(),
{
    if uris.len() == 0 {
        None
    } else {
        let prev = tag_of_uris(uris.drop_last(), prefix, os);
        match from_uri_spec(uris.last(), prefix, os) {
            Some(t) => best_view(prev, t),
            None => prev,
        }
    }
}

/// What becomes of one raw item.
pub enum Outcome {
    /// Shown, as this entry.
    Keep(EntryView),
    /// Not shown, and counted as dropped (wrong type, no password, not
    /// ours, or a malformed `os=` filter).
    Drop,
    /// Not shown and not counted: well-formed, but for another system.
    Hide,
}

/// The password of a login, when it has a non-empty one.
pub open spec fn usable_password(login: RawLogin) -> Option<Seq<char>> {
    match login.password {
        Some(p) => if p@.len() > 0 {
            Some(p@)
        } else {
            None
        },
        None => None,
    }
}

pub open spec fn has_totp_spec(login: RawLogin) -> bool {
    match login.totp {
        Some(t) => t@.len() > 0,
        None => false,
    }
}

/// The fate of `item` under `prefix` on the build whose token is `os`.
pub open spec fn outcome(item: RawItem, prefix: Seq<char>, os: Seq<char>) -> Outcome {
    if item.ty != 1 {
        Outcome::Drop
    } else {
        match item.login {
            None => Outcome::Drop,
            Some(login) => match tag_of_uris(uri_texts(login.uris@), prefix, os) {
                None => Outcome::Drop,
                Some(t) => match t.verdict {
                    Verdict::BadOs => Outcome::Drop,
                    Verdict::OtherOs => Outcome::Hide,
                    Verdict::Show(ord) => match usable_password(login) {
                        None => Outcome::Drop,
                        Some(pw) => Outcome::Keep(
                            EntryView {
                                id: item.id@,
                                name: item.name@,
                                username: opt_text(login.username),
                                ord,
                                password: pw,
                                has_totp: has_totp_spec(login),
                            },
                        ),
                    },
                },
            },
        }
    }
}

/// The entries shown for `items`, in item order.
pub open spec fn kept(items: Seq<RawItem>, prefix: Seq<char>, os: Seq<char>) -> Seq<EntryView>
    decreases items.len(),
{
    if items.len() == 0 {
        Seq::empty()
    } else {
        let rest = kept(items.drop_last(), prefix, os);
        match outcome(items.last(), prefix, os) {
            Outcome::Keep(e) => rest.push(e),
            _ => rest,
        }
    }
}

/// How many of `items` are dropped.
pub open spec fn dropped_count(items: Seq<RawItem>, prefix: Seq<char>, os: Seq<char>) -> nat
    decreases items.len(),
{
    if items.len() == 0 {
        0
    } else {
        dropped_count(items.drop_last(), prefix, os) + match outcome(items.last(), prefix, os) {
            Outcome::Drop => 1nat,
            _ => 0nat,
        }
    }
}

/// How many of `items` are hidden as meant for another system.
pub open spec fn hidden_count(items: Seq<RawItem>, prefix: Seq<char>, os: Seq<char>) -> nat
    decreases items.len(),
{
    if items.len() == 0 {
        0
    } else {
        hidden_count(items.drop_last(), prefix, os) + match outcome(items.last(), prefix, os) {
            Outcome::Hide => 1nat,
            _ => 0nat,
        }
    }
}

/// Every item is shown, dropped, or hidden for another system: exactly
/// one of the three.
pub proof fn lemma_every_item_accounted_for(items: Seq<RawItem>, prefix: Seq<char>, os: Seq<char>)
    ensures
        kept(items, prefix, os).len() + dropped_count(items, prefix, os) + hidden_count(
            items,
            prefix,
            os,
        ) == items.len(),
    decreases items.len(),
{
    if items.len() > 0 {
        lemma_every_item_accounted_for(items.drop_last(), prefix, os);
    }
}

/// `e` is the popup entry of `item`: a login item's id and name, its
/// login's username as it is (`None` when the login has none), and its
/// login's non-empty password.
pub open spec fn entry_of_login(e: EntryView, item: RawItem) -> bool {
    &&& item.ty == 1
    &&& e.id == item.id@
    &&& e.name == item.name@
    &&& item.login matches Some(l) && {
        &&& (l.username matches Some(u) ==> e.username == Some(u@))
        &&& (l.username is None ==> e.username is None)
        &&& l.password matches Some(p) && p@.len() > 0 && e.password == p@
    }
}

/// Every entry shown comes from an item, carrying that item's login
/// username and password unchanged: Shift+Enter types the login's
/// username, and an item without one has none.
pub proof fn lemma_entries_carry_their_logins(items: Seq<RawItem>, prefix: Seq<char>, os: Seq<char>)
    ensures
        forall|j: int|
            0 <= j < kept(items, prefix, os).len() ==> exists|i: int|
                0 <= i < items.len() && entry_of_login(#[trigger] kept(items, prefix, os)[j], items[i]),
    decreases items.len(),
{
    if items.len() > 0 {
        let rest = items.drop_last();
        lemma_entries_carry_their_logins(rest, prefix, os);
        let k = kept(items, prefix, os);
        let kr = kept(rest, prefix, os);
        assert forall|j: int| 0 <= j < k.len() implies exists|i: int|
            0 <= i < items.len() && entry_of_login(#[trigger] k[j], items[i]) by {
            if j < kr.len() {
                assert(k[j] == kr[j]);
                let i = choose|i: int| 0 <= i < rest.len() && entry_of_login(kr[j], rest[i]);
                assert(items[i] == rest[i]);
            } else {
                let i = items.len() - 1;
                assert(items[i] == items.last());
            }
        }
    }
}

/// The resolved tag for `login`, or `None` if none of its uris belong to
/// this app at all. With several tag uris, the first `Show` wins; failing
/// that the first `BadOs`; failing that `OtherOs`.
fn tag_of(login: &RawLogin, prefix: &Vec<char>, os: &Vec<char>) -> (t: Option<Tag>)
    ensures
        match tag_of_uris(uri_texts(login.uris@), prefix@, os@) {
            Some(v) => t matches Some(x) && x@ == v,
            None => t is None,
        },
{
    let ghost us = uri_texts(login.uris@);
    let mut best: Option<Tag> = None;
    let mut i: usize = 0;
    while i < login.uris.len()
        invariant
            i <= login.uris.len(),
            us == uri_texts(login.uris@),
            match tag_of_uris(us.take(i as int), prefix@, os@) {
                Some(v) => best matches Some(x) && x@ == v,
                None => best is None,
            },
        decreases login.uris.len() - i,
    {
        proof {
            assert(us.take(i + 1).drop_last() =~= us.take(i as int));
            assert(us.take(i + 1).last() == login.uris@[i as int].uri@);
        }
        let uri = crate::text::chars_of(login.uris[i].uri.as_str());
        match tag::from_uri_chars(&uri, prefix, os) {
            Some(t) => {
                best = tag::best(best, t);
            },
            None => {},
        }
        i += 1;
    }
    assert(us.take(login.uris.len() as int) =~= us);
    best
}

fn clone_opt(s: &Option<String>) -> (r: Option<String>)
    ensures
        opt_text(r) == opt_text(*s),
{
    match s {
        Some(t) => Some(t.clone()),
        None => None,
    }
}

/// Filters and sorts raw `bw list items` output into the popup's entries.
/// Returns the entries and the number of items dropped (wrong type, no
/// password, not ours, or a malformed `os=` filter). Items hidden by a
/// well-formed `os=` filter for another system are not counted.
pub fn build_entries(items: Vec<RawItem>, prefix: &str, os: &str) -> (r: (Vec<Entry>, usize))
    ensures
        is_sorted_from(entry_views(r.0@), kept(items@, prefix@, os@)),
        forall|j: int|
            0 <= j < r.0.len() ==> exists|i: int|
                0 <= i < items.len() && entry_of_login(#[trigger] r.0@[j]@, items@[i]),
        r.1 == dropped_count(items@, prefix@, os@),
        r.0.len() + r.1 + hidden_count(items@, prefix@, os@) == items.len(),
{
    let p = crate::text::chars_of(prefix);
    let o = crate::text::chars_of(os);
    let mut entries: Vec<Entry> = Vec::new();
    let mut dropped: usize = 0;
    let mut i: usize = 0;
    while i < items.len()
        invariant
            i <= items.len(),
            p@ == prefix@,
            o@ == os@,
            entry_views(entries@) == kept(items@.take(i as int), prefix@, os@),
            dropped == dropped_count(items@.take(i as int), prefix@, os@),
            dropped <= i,
        decreases items.len() - i,
    {
        let item = &items[i];
        let ghost before = entry_views(entries@);
        proof {
            assert(items@.take(i + 1).drop_last() =~= items@.take(i as int));
            assert(items@.take(i + 1).last() == *item);
        }
        if item.ty != 1 {
            dropped += 1;
            i += 1;
            continue;
        }
        let login = match &item.login {
            Some(l) => l,
            None => {
                dropped += 1;
                i += 1;
                continue;
            },
        };
        let tag = match tag_of(login, &p, &o) {
            Some(t) => t,
            None => {
                dropped += 1;
                i += 1;
                continue;
            },
        };
        let ord = match tag.verdict {
            Verdict::Show(ord) => ord,
            Verdict::BadOs => {
                dropped += 1;
                i += 1;
                continue;
            },
            Verdict::OtherOs => {
                i += 1;
                continue;
            },
        };
        let password = match &login.password {
            Some(pw) => {
                if pw.as_str().is_empty() {
                    dropped += 1;
                    i += 1;
                    continue;
                }
                pw.clone()
            },
            None => {
                dropped += 1;
                i += 1;
                continue;
            },
        };
        let has_totp = match &login.totp {
            Some(t) => !t.as_str().is_empty(),
            None => false,
        };
        let entry = Entry {
            id: item.id.clone(),
            name: item.name.clone(),
            username: clone_opt(&login.username),
            ord,
            password: Secret::new(password),
            has_totp,
        };
        let ghost ev = entry@;
        entries.push(entry);
        proof {
            assert(entry_views(entries@) =~= before.push(ev));
        }
        i += 1;
    }
    assert(items@.take(items.len() as int) =~= items@);
    proof {
        lemma_every_item_accounted_for(items@, prefix@, os@);
    }
    let ghost unsorted = entry_views(entries@);
    sort_entries(&mut entries);
    proof {
        assert(entry_views(entries@).len() == entries.len());
        assert(unsorted.len() == kept(items@, prefix@, os@).len());
        assert(entry_views(entries@).to_multiset().len() == unsorted.to_multiset().len());
        lemma_entries_carry_their_logins(items@, prefix@, os@);
        let ks = kept(items@, prefix@, os@);
        assert forall|j: int| 0 <= j < entries.len() implies exists|i: int|
            0 <= i < items.len() && entry_of_login(#[trigger] entries@[j]@, items@[i]) by {
            let ev = entry_views(entries@);
            assert(ev[j] == entries@[j]@);
            assert(ev.to_multiset().count(ev[j]) > 0);
            assert(ks.to_multiset().count(ev[j]) > 0);
            let t = choose|t: int| 0 <= t < ks.len() && ks[t] == ev[j];
            assert(ks[t] == ev[j]);
        }
    }
    (entries, dropped)
}

} // verus!
