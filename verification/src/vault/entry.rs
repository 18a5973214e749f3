//! The provider-agnostic popup entry, and the sort order both providers
//! apply to it. Nothing here derives `Debug`: a stray debug print of an
//! entry is the realistic way a vault leaks into a log. [`Entry::log_line`]
//! is the one sanctioned way to describe an entry in a log message.

use vstd::prelude::*;
use vstd::string::StringExecFns;

use crate::secret::Secret;
use crate::text::{
    chars_lt, chars_of, decimal, i64_decimal, lemma_seq_lt_irreflexive,
    lemma_seq_lt_transitive, lowercase, lowercase_chars, seq_lt, string_of,
};

verus! {

broadcast use vstd::seq_lib::group_to_multiset_ensures;

/// One entry in the popup cache. `id` is opaque and owned by the provider
/// that built the entry.
pub struct Entry {
    pub id: String,
    pub name: String,
    pub username: Option<String>,
    /// `None` when the tag's ORD is missing or unparseable; such entries
    /// sort last.
    pub ord: Option<i64>,
    pub password: Secret,
    /// Whether the item has a TOTP source configured.
    pub has_totp: bool,
}

/// The mathematical content of an [`Entry`].
pub struct EntryView {
    pub id: Seq<char>,
    pub name: Seq<char>,
    pub username: Option<Seq<char>>,
    pub ord: Option<i64>,
    pub password: Seq<char>,
    pub has_totp: bool,
}

pub open spec fn opt_text(s: Option<String>) -> Option<Seq<char>> {
    match s {
        Some(t) => Some(t@),
        None => None,
    }
}

impl View for Entry {
    type V = EntryView;

    open spec fn view(&self) -> EntryView {
        EntryView {
            id: self.id@,
            name: self.name@,
            username: opt_text(self.username),
            ord: self.ord,
            password: self.password@,
            has_totp: self.has_totp,
        }
    }
}

/// The views of a sequence of entries.
pub open spec fn entry_views(s: Seq<Entry>) -> Seq<EntryView> {
    s.map_values(|e: Entry| e@)
}

/// The redacted log line of an entry: its ORD and name, never a secret.
pub open spec fn log_line_spec(e: EntryView) -> Seq<char> {
    match e.ord {
        Some(ord) => decimal(ord as int) + ": "@ + e.name,
        None => "?: "@ + e.name + " (missing/invalid ORD)"@,
    }
}

impl Entry {
    /// A redacted line for logging: never the password.
    pub fn log_line(&self) -> (r: String)
        ensures
            r@ == log_line_spec(self@),
    {
        match self.ord {
            Some(ord) => {
                let mut s = string_of(&i64_decimal(ord));
                s.append(": ");
                s.append(self.name.as_str());
                s
            },
            None => {
                let mut s = String::from_str("?: ");
                s.append(self.name.as_str());
                s.append(" (missing/invalid ORD)");
                s
            },
        }
    }
}

/// The sort key of an entry: ORD missing (missing last), ORD (`0` when
/// missing), then the name lowercased.
pub open spec fn sort_key(e: EntryView) -> (bool, i64, Seq<char>) {
    (
        e.ord is None,
        match e.ord {
            Some(o) => o,
            None => 0,
        },
        lowercase(e.name),
    )
}

/// Lexicographic order on sort keys, `false < true` on the first part.
pub open spec fn key_lt(a: (bool, i64, Seq<char>), b: (bool, i64, Seq<char>)) -> bool {
    if a.0 != b.0 {
        !a.0
    } else if a.1 != b.1 {
        a.1 < b.1
    } else {
        seq_lt(a.2, b.2)
    }
}

/// `a` sorts strictly before `b`.
pub open spec fn sorts_before(a: EntryView, b: EntryView) -> bool {
    key_lt(sort_key(a), sort_key(b))
}

/// No entry sorts strictly before one that precedes it.
pub open spec fn entries_sorted(s: Seq<EntryView>) -> bool {
    forall|i: int, j: int| 0 <= i < j < s.len() ==> !sorts_before(#[trigger] s[j], #[trigger] s[i])
}

/// Whether an entry has sort key `k`.
pub open spec fn has_key(k: (bool, i64, Seq<char>)) -> spec_fn(EntryView) -> bool {
    |e: EntryView| sort_key(e) == k
}

/// The entries of `s` that tie on sort key `k`, in their order in `s`.
pub open spec fn ties(s: Seq<EntryView>, k: (bool, i64, Seq<char>)) -> Seq<EntryView> {
    s.filter(has_key(k))
}

/// `out` is `input` in sort order: the same entries, sorted, with entries
/// that tie in their order in `input`.
pub open spec fn is_sorted_from(out: Seq<EntryView>, input: Seq<EntryView>) -> bool {
    &&& out.to_multiset() == input.to_multiset()
    &&& entries_sorted(out)
    &&& forall|k: (bool, i64, Seq<char>)| #[trigger] ties(out, k) == ties(input, k)
}

proof fn lemma_ties_of_empty(k: (bool, i64, Seq<char>))
    ensures
        ties(Seq::<EntryView>::empty(), k) == Seq::<EntryView>::empty(),
{
    reveal(Seq::filter);
}

proof fn lemma_ties_of_one(x: EntryView, k: (bool, i64, Seq<char>))
    ensures
        ties(seq![x], k) == (if sort_key(x) == k {
            seq![x]
        } else {
            Seq::<EntryView>::empty()
        }),
{
    lemma_ties_of_empty(k);
    assert(seq![x] =~= Seq::<EntryView>::empty().push(x));
    Seq::<EntryView>::empty().lemma_filter_push(x, has_key(k));
}

/// Taking out the first entry with its sort key takes it out of its ties
/// and leaves every other key's ties as they were.
proof fn lemma_ties_after_remove(s: Seq<EntryView>, m: int, k: (bool, i64, Seq<char>))
    requires
        0 <= m < s.len(),
        forall|t: int| 0 <= t < m ==> sort_key(#[trigger] s[t]) != sort_key(s[m]),
    ensures
        ties(s, k) == (if sort_key(s[m]) == k {
            seq![s[m]] + ties(s.remove(m), k)
        } else {
            ties(s.remove(m), k)
        }),
{
    let x = s[m];
    let p = s.subrange(0, m);
    let q = s.subrange(m + 1, s.len() as int);
    assert(s =~= p + seq![x] + q);
    assert(s.remove(m) =~= p + q);
    Seq::filter_distributes_over_add(p + seq![x], q, has_key(k));
    Seq::filter_distributes_over_add(p, seq![x], has_key(k));
    Seq::filter_distributes_over_add(p, q, has_key(k));
    lemma_ties_of_one(x, k);
    if sort_key(x) == k {
        assert(p.all(|e: EntryView| !has_key(k)(e)));
        p.lemma_all_neg_filter_empty(has_key(k));
        assert(ties(p, k) =~= Seq::<EntryView>::empty());
        assert(ties(s, k) =~= seq![x] + ties(s.remove(m), k));
    } else {
        assert(ties(s, k) =~= ties(s.remove(m), k));
    }
}

proof fn lemma_key_lt_transitive(
    a: (bool, i64, Seq<char>),
    b: (bool, i64, Seq<char>),
    c: (bool, i64, Seq<char>),
)
    requires
        key_lt(a, b),
        key_lt(b, c),
    ensures
        key_lt(a, c),
{
    if a.0 == b.0 && b.0 == c.0 && a.1 == b.1 && b.1 == c.1 {
        lemma_seq_lt_transitive(a.2, b.2, c.2);
    }
}

proof fn lemma_key_lt_irreflexive(a: (bool, i64, Seq<char>))
    ensures
        !key_lt(a, a),
{
    lemma_seq_lt_irreflexive(a.2);
}

struct SortKey {
    missing: bool,
    ord: i64,
    lname: Vec<char>,
}

impl SortKey {
    spec fn key(&self) -> (bool, i64, Seq<char>) {
        (self.missing, self.ord, self.lname@)
    }
}

fn sort_key_of(e: &Entry) -> (k: SortKey)
    ensures
        k.key() == sort_key(e@),
{
    let name = chars_of(e.name.as_str());
    let lname = lowercase_chars(&name);
    match e.ord {
        Some(o) => SortKey { missing: false, ord: o, lname },
        None => SortKey { missing: true, ord: 0, lname },
    }
}

fn key_less(a: &SortKey, b: &SortKey) -> (r: bool)
    ensures
        r == key_lt(a.key(), b.key()),
{
    if a.missing != b.missing {
        !a.missing
    } else if a.ord != b.ord {
        a.ord < b.ord
    } else {
        chars_lt(&a.lname, &b.lname)
    }
}

/// Sorts entries by ORD (missing ORDs last, not as `0`), then by name,
/// case-insensitively. The sort is stable: entries that tie keep their
/// relative order.
pub fn sort_entries(entries: &mut Vec<Entry>)
    ensures
        is_sorted_from(entry_views(final(entries)@), entry_views(old(entries)@)),
{
    let ghost orig = entry_views(entries@);
    let mut rest: Vec<Entry> = Vec::new();
    std::mem::swap(entries, &mut rest);
    let mut keys: Vec<SortKey> = Vec::new();
    let mut i: usize = 0;
    while i < rest.len()
        invariant
            i <= rest.len(),
            keys.len() == i,
            forall|j: int| 0 <= j < i ==> (#[trigger] keys@[j]).key() == sort_key(rest@[j]@),
        decreases rest.len() - i,
    {
        let k = sort_key_of(&rest[i]);
        keys.push(k);
        i += 1;
    }
    let mut out: Vec<Entry> = Vec::new();
    assert(entry_views(out@).to_multiset().add(entry_views(rest@).to_multiset()) =~= orig.to_multiset());
    assert forall|k: (bool, i64, Seq<char>)|
        ties(entry_views(out@), k) + ties(entry_views(rest@), k) == #[trigger] ties(orig, k) by {
        assert(entry_views(out@) =~= Seq::<EntryView>::empty());
        lemma_ties_of_empty(k);
        assert(entry_views(rest@) =~= orig);
        assert(ties(entry_views(out@), k) + ties(entry_views(rest@), k) =~= ties(orig, k));
    }
    while rest.len() > 0
        invariant
            keys.len() == rest.len(),
            forall|j: int| 0 <= j < rest.len() ==> (#[trigger] keys@[j]).key() == sort_key(rest@[j]@),
            entry_views(out@).to_multiset().add(entry_views(rest@).to_multiset()) == orig.to_multiset(),
            entries_sorted(entry_views(out@)),
            forall|k: (bool, i64, Seq<char>)|
                ties(entry_views(out@), k) + ties(entry_views(rest@), k) == #[trigger] ties(orig, k),
            forall|a: int, b: int|
                0 <= a < out.len() && 0 <= b < rest.len() ==> !sorts_before(
                    #[trigger] rest@[b]@,
                    #[trigger] out@[a]@,
                ),
        decreases rest.len(),
    {
        let mut m: usize = 0;
        let mut j: usize = 1;
        proof {
            lemma_key_lt_irreflexive(keys@[0].key());
        }
        while j < rest.len()
            invariant
                keys.len() == rest.len(),
                m < j <= rest.len(),
                forall|t: int| 0 <= t < j ==> !key_lt(#[trigger] keys@[t].key(), keys@[m as int].key()),
                forall|t: int| 0 <= t < m ==> (#[trigger] keys@[t]).key() != keys@[m as int].key(),
            decreases rest.len() - j,
        {
            proof {
                lemma_key_lt_irreflexive(keys@[j as int].key());
            }
            if key_less(&keys[j], &keys[m]) {
                proof {
                    assert forall|t: int| 0 <= t < j + 1 implies !key_lt(
                        #[trigger] keys@[t].key(),
                        keys@[j as int].key(),
                    ) by {
                        if t < j && key_lt(keys@[t].key(), keys@[j as int].key()) {
                            lemma_key_lt_transitive(
                                keys@[t].key(),
                                keys@[j as int].key(),
                                keys@[m as int].key(),
                            );
                        }
                    }
                }
                m = j;
            }
            j += 1;
        }
        let ghost old_rest = rest@;
        let ghost old_out = out@;
        let ghost old_keys = keys@;
        let e = rest.remove(m);
        let _k = keys.remove(m);
        proof {
            assert(entry_views(rest@) =~= entry_views(old_rest).remove(m as int));
            assert(entry_views(old_rest)[m as int] == e@);
        }
        out.push(e);
        proof {
            assert(entry_views(out@) =~= entry_views(old_out).push(e@));
            let ov = entry_views(old_out);
            let rv = entry_views(old_rest);
            assert(rv.to_multiset().count(e@) > 0) by {
                assert(rv.contains(e@));
            }
            assert(entry_views(out@).to_multiset().add(entry_views(rest@).to_multiset())
                =~= ov.to_multiset().add(rv.to_multiset()));
            assert forall|t: int| 0 <= t < rest.len() implies (#[trigger] keys@[t]).key()
                == sort_key(rest@[t]@) by {
                if t < m {
                    assert(keys@[t] == old_keys[t]);
                    assert(rest@[t] == old_rest[t]);
                } else {
                    assert(keys@[t] == old_keys[t + 1]);
                    assert(rest@[t] == old_rest[t + 1]);
                }
            }
            assert forall|a: int, b: int| 0 <= a < out.len() && 0 <= b < rest.len() implies !sorts_before(
                #[trigger] rest@[b]@,
                #[trigger] out@[a]@,
            ) by {
                let ob = if b < m {
                    b
                } else {
                    b + 1
                };
                assert(rest@[b] == old_rest[ob]);
                if a < old_out.len() {
                    assert(out@[a] == old_out[a]);
                } else {
                    assert(out@[a] == e);
                    assert(old_keys[ob].key() == sort_key(old_rest[ob]@));
                    assert(!key_lt(old_keys[ob].key(), old_keys[m as int].key()));
                }
            }
            assert forall|t: int| 0 <= t < m implies sort_key(#[trigger] rv[t]) != sort_key(rv[m as int]) by {
                assert(old_keys[t].key() == sort_key(old_rest[t]@));
                assert(old_keys[m as int].key() == sort_key(old_rest[m as int]@));
            }
            assert forall|k: (bool, i64, Seq<char>)|
                ties(entry_views(out@), k) + ties(entry_views(rest@), k) == #[trigger] ties(orig, k) by {
                lemma_ties_after_remove(rv, m as int, k);
                ov.lemma_filter_push(e@, has_key(k));
                assert(ties(ov, k) + ties(rv, k) == ties(orig, k));
                assert(ties(entry_views(out@), k) + ties(entry_views(rest@), k) =~= ties(ov, k) + ties(rv, k));
            }
            let nv = entry_views(out@);
            assert forall|x: int, y: int| 0 <= x < y < nv.len() implies !sorts_before(
                #[trigger] nv[y],
                #[trigger] nv[x],
            ) by {
                if y < old_out.len() {
                    assert(nv[y] == ov[y]);
                    assert(nv[x] == ov[x]);
                } else {
                    assert(nv[y] == e@);
                    assert(nv[x] == old_out[x]@);
                    assert(old_rest[m as int] == e);
                }
            }
        }
    }
    assert(entry_views(rest@) =~= Seq::<EntryView>::empty());
    assert forall|k: (bool, i64, Seq<char>)| #[trigger] ties(entry_views(out@), k) == ties(orig, k) by {
        lemma_ties_of_empty(k);
        assert(ties(entry_views(out@), k) + ties(entry_views(rest@), k) == ties(orig, k));
        assert(ties(entry_views(out@), k) + ties(entry_views(rest@), k) =~= ties(entry_views(out@), k));
    }
    assert(entry_views(out@).to_multiset() == orig.to_multiset());
    assert(entries_sorted(entry_views(out@)));
    assert(is_sorted_from(entry_views(out@), orig));
    *entries = out;
}

} // verus!
