//! The shared tag grammar: what one `context-password` tag means for this
//! build, independent of how it was stored.
//!
//! A Bitwarden login uri (`<prefix>/<ORD>[?os=...]`, matched by
//! [`from_uri`]) and a KeePass `context-password` custom field (whose
//! value is exactly the tag body, matched by [`from_body`]) carry the same
//! grammar: an optional decimal ORD, then an optional query whose `os`
//! pairs list the systems the item is meant for.

use vstd::prelude::*;

use crate::platform::{is_os_tag, is_os_tag_spec};
use crate::text::{
    all_ws, is_ws, last_extended, lemma_split_append, lemma_split_once_append,
    lemma_trim_appended_ws, lemma_trim_end_appended_ws, lemma_trim_end_shape,
    lemma_trim_start_all_ws, lemma_ws_lacks, trim_end, trim_start, ascii_lower, ascii_lowercase, chars_eq, chars_of, has_prefix, join, join_chars,
    lowercase, lowercase_chars, parse_i64, parse_i64_chars, slice_of, split, split_chars,
    split_once, split_once_chars, starts_with, string_of, trim, trim_chars, trim_start_char,
    trim_start_char_chars, views,
};

verus! {

/// What one tag means for this build.
#[derive(Debug, Clone, PartialEq, Eq)]
pub enum Verdict {
    /// Ours and meant for this build. `None`: the ORD is missing or
    /// unparseable; such an item is kept and sorted last.
    Show(Option<i64>),
    /// Ours, but its `os=` list names only other systems: hidden without
    /// counting as dropped.
    OtherOs,
    /// Ours, but `os=` holds no token this build recognises: hidden and
    /// counted as dropped.
    BadOs,
}

/// One resolved tag.
#[derive(Debug, Clone, PartialEq, Eq)]
pub struct Tag {
    pub verdict: Verdict,
    /// Set when the tag's `os=` value carried a token outside the
    /// vocabulary, or when every `os=` value was empty.
    pub unknown_os: Option<String>,
}

/// The mathematical content of a [`Tag`].
pub struct TagView {
    pub verdict: Verdict,
    pub unknown_os: Option<Seq<char>>,
}

impl View for Tag {
    type V = TagView;

    open spec fn view(&self) -> TagView {
        TagView {
            verdict: self.verdict,
            unknown_os: match self.unknown_os {
                Some(s) => Some(s@),
                None => None,
            },
        }
    }
}

/// The priority by which one item's several tags are folded: `Show` over
/// `BadOs` over `OtherOs`.
pub open spec fn priority(v: Verdict) -> u8 {
    match v {
        Verdict::Show(_) => 2,
        Verdict::BadOs => 1,
        Verdict::OtherOs => 0,
    }
}

// ---------------------------------------------------------------------
// The grammar, stated over character sequences
// ---------------------------------------------------------------------

/// The key `os`, compared ASCII-case-insensitively after trimming.
pub open spec fn os_key() -> Seq<char> {
    seq!['o', 's']
}

/// A query pair split at its first `=`; no `=` means an empty value.
pub open spec fn pair_kv(pair: Seq<char>) -> (Seq<char>, Seq<char>) {
    match split_once(pair, '=') {
        Some(kv) => kv,
        None => (pair, Seq::empty()),
    }
}

/// A non-empty pair whose trimmed key is `os` in any ASCII case.
pub open spec fn is_os_pair(pair: Seq<char>) -> bool {
    pair.len() > 0 && ascii_lower(trim(pair_kv(pair).0)) == os_key()
}

/// The values of the `os` pairs among `pairs`, in order.
pub open spec fn os_values(pairs: Seq<Seq<char>>) -> Seq<Seq<char>>
    decreases pairs.len(),
{
    if pairs.len() == 0 {
        Seq::empty()
    } else {
        let rest = os_values(pairs.drop_last());
        if is_os_pair(pairs.last()) {
            rest.push(pair_kv(pairs.last()).1)
        } else {
            rest
        }
    }
}

/// Each part trimmed and lowercased, empty results left out.
pub open spec fn norm_tokens(parts: Seq<Seq<char>>) -> Seq<Seq<char>>
    decreases parts.len(),
{
    if parts.len() == 0 {
        Seq::empty()
    } else {
        let rest = norm_tokens(parts.drop_last());
        let t = lowercase(trim(parts.last()));
        if t.len() == 0 {
            rest
        } else {
            rest.push(t)
        }
    }
}

/// The tokens of every `os` value (each value split at `,`), in order.
pub open spec fn value_tokens(values: Seq<Seq<char>>) -> Seq<Seq<char>>
    decreases values.len(),
{
    if values.len() == 0 {
        Seq::empty()
    } else {
        value_tokens(values.drop_last()) + norm_tokens(split(values.last(), ','))
    }
}

/// Some token is in the `?os=` vocabulary.
pub open spec fn any_recognized(toks: Seq<Seq<char>>) -> bool
    decreases toks.len(),
{
    toks.len() > 0 && (any_recognized(toks.drop_last()) || is_os_tag_spec(toks.last()))
}

/// Some token is in the vocabulary and equal to `os`.
pub open spec fn any_matched(toks: Seq<Seq<char>>, os: Seq<char>) -> bool
    decreases toks.len(),
{
    toks.len() > 0 && (any_matched(toks.drop_last(), os) || (is_os_tag_spec(toks.last())
        && toks.last() == os))
}

/// The tokens outside the vocabulary, in order.
pub open spec fn unknown_tokens(toks: Seq<Seq<char>>) -> Seq<Seq<char>>
    decreases toks.len(),
{
    if toks.len() == 0 {
        Seq::empty()
    } else {
        let rest = unknown_tokens(toks.drop_last());
        if is_os_tag_spec(toks.last()) {
            rest
        } else {
            rest.push(toks.last())
        }
    }
}

/// Each value trimmed.
pub open spec fn trimmed_all(values: Seq<Seq<char>>) -> Seq<Seq<char>> {
    Seq::new(values.len(), |i: int| trim(values[i]))
}

/// The meaning of a tag with ORD `ord` and query `query` (the text after
/// `?`, empty when there was none) on the build whose token is `os`.
pub open spec fn classify_spec(ord: Option<i64>, query: Seq<char>, os: Seq<char>) -> TagView {
    let values = os_values(split(query, '&'));
    if query.len() == 0 || values.len() == 0 {
        TagView { verdict: Verdict::Show(ord), unknown_os: None }
    } else {
        let toks = value_tokens(values);
        let recognized = any_recognized(toks);
        let verdict = if !recognized {
            Verdict::BadOs
        } else if any_matched(toks, os) {
            Verdict::Show(ord)
        } else {
            Verdict::OtherOs
        };
        let unknown = unknown_tokens(toks);
        let unknown_os = if unknown.len() > 0 {
            Some(join(unknown, ','))
        } else if !recognized {
            Some(join(trimmed_all(values), ','))
        } else {
            None
        };
        TagView { verdict, unknown_os }
    }
}

/// The ORD of a tag body's ORD part: missing when blank, otherwise an
/// `i64` parse (which may fail).
pub open spec fn ord_of(ord_part: Seq<char>) -> Option<i64> {
    let s = trim(ord_part);
    if s.len() == 0 {
        None
    } else {
        parse_i64(s)
    }
}

/// The meaning of a tag body (`"1"`, `"1?os=mac"`, `"?os=mac"`, `""`).
pub open spec fn from_body_spec(body: Seq<char>, os: Seq<char>) -> TagView {
    match split_once(body, '?') {
        Some((ord_part, query)) => classify_spec(ord_of(ord_part), query, os),
        None => classify_spec(ord_of(body), Seq::empty(), os),
    }
}

/// The meaning of a full uri: `None` unless, after trimming, it starts
/// with `prefix` followed by `/` or by nothing at all.
pub open spec fn from_uri_spec(uri: Seq<char>, prefix: Seq<char>, os: Seq<char>) -> Option<
    TagView,
> {
    let t = trim(uri);
    if !has_prefix(t, prefix) {
        None
    } else {
        let rest = t.skip(prefix.len() as int);
        if rest.len() > 0 && rest[0] != '/' {
            None
        } else {
            Some(from_body_spec(trim_start_char(rest, '/'), os))
        }
    }
}

/// A query pair followed by whitespace: still an `os` pair exactly when
/// it was one, and its value grows by the whitespace only when it has one.
proof fn lemma_pair_append(p: Seq<char>, w: Seq<char>)
    requires
        all_ws(w),
    ensures
        is_os_pair(p + w) == is_os_pair(p),
        pair_kv(p + w).1 == (if split_once(p, '=') is Some {
            pair_kv(p).1 + w
        } else {
            pair_kv(p).1
        }),
{
    lemma_ws_lacks(w, '=');
    lemma_split_once_append(p, w, '=');
    match split_once(p, '=') {
        Some((key, value)) => {
            assert(pair_kv(p) == (key, value));
            assert(pair_kv(p + w) == (key, value + w));
            assert(p.len() > 0);
            assert((p + w).len() > 0);
        },
        None => {
            lemma_trim_appended_ws(p, w);
            assert(pair_kv(p) == (p, Seq::<char>::empty()));
            assert(pair_kv(p + w) == (p + w, Seq::<char>::empty()));
            if p.len() == 0 {
                assert(p + w =~= w);
                lemma_trim_start_all_ws(w);
                assert(trim(p) == Seq::<char>::empty());
                assert(ascii_lower(trim(p + w)).len() == 0);
                assert(!is_os_pair(p + w));
                assert(!is_os_pair(p));
            } else {
                assert((p + w).len() > 0);
            }
        },
    }
}

/// The tokens of a value followed by whitespace are the value's tokens.
proof fn lemma_norm_tokens_append(parts: Seq<Seq<char>>, w: Seq<char>)
    requires
        all_ws(w),
        parts.len() > 0,
    ensures
        norm_tokens(last_extended(parts, w)) == norm_tokens(parts),
{
    let e = last_extended(parts, w);
    assert(e.drop_last() =~= parts.drop_last());
    assert(e.last() == parts.last() + w);
    lemma_trim_appended_ws(parts.last(), w);
}

/// The `os` values of pairs whose last one is followed by whitespace: as
/// many, with the same tokens and the same trimmed text.
proof fn lemma_os_values_append(pairs: Seq<Seq<char>>, w: Seq<char>)
    requires
        all_ws(w),
        pairs.len() > 0,
    ensures
        os_values(last_extended(pairs, w)).len() == os_values(pairs).len(),
        value_tokens(os_values(last_extended(pairs, w))) == value_tokens(os_values(pairs)),
        trimmed_all(os_values(last_extended(pairs, w))) == trimmed_all(os_values(pairs)),
{
    let e = last_extended(pairs, w);
    let last = pairs.last();
    assert(e.drop_last() =~= pairs.drop_last());
    assert(e.last() == last + w);
    lemma_pair_append(last, w);
    let rest = os_values(pairs.drop_last());
    if is_os_pair(last) {
        let v = pair_kv(last).1;
        let v2 = pair_kv(last + w).1;
        assert(os_values(pairs) == rest.push(v));
        assert(os_values(e) == rest.push(v2));
        assert(rest.push(v).drop_last() =~= rest);
        assert(rest.push(v2).drop_last() =~= rest);
        if split_once(last, '=') is Some {
            lemma_ws_lacks(w, ',');
            lemma_split_append(v, w, ',');
            lemma_norm_tokens_append(split(v, ','), w);
            lemma_trim_appended_ws(v, w);
        }
        assert(trimmed_all(rest.push(v2)) =~= trimmed_all(rest.push(v)));
    }
}

/// A query followed by whitespace means what the query means.
proof fn lemma_classify_append(ord: Option<i64>, query: Seq<char>, w: Seq<char>, os: Seq<char>)
    requires
        all_ws(w),
    ensures
        classify_spec(ord, query + w, os) == classify_spec(ord, query, os),
{
    lemma_ws_lacks(w, '&');
    lemma_split_append(query, w, '&');
    lemma_os_values_append(split(query, '&'), w);
    if query.len() == 0 {
        assert(split(query, '&') == seq![query]);
        assert(!is_os_pair(query));
        assert(os_values(seq![query]).len() == 0) by {
            assert(seq![query].drop_last() =~= Seq::<Seq<char>>::empty());
            assert(os_values(Seq::<Seq<char>>::empty()) == Seq::<Seq<char>>::empty());
            assert(seq![query].last() == query);
        }
    }
}

/// A tag body followed by whitespace means what the body means.
proof fn lemma_body_append(body: Seq<char>, w: Seq<char>, os: Seq<char>)
    requires
        all_ws(w),
    ensures
        from_body_spec(body + w, os) == from_body_spec(body, os),
{
    lemma_ws_lacks(w, '?');
    lemma_split_once_append(body, w, '?');
    match split_once(body, '?') {
        Some((ord_part, query)) => {
            lemma_classify_append(ord_of(ord_part), query, w, os);
        },
        None => {
            lemma_trim_appended_ws(body, w);
        },
    }
}

/// The uri form and the custom-field form mean the same thing: the tag
/// `<prefix>/<body>` parses exactly as the body alone. It holds for every
/// body that does not itself start with `/` (the uri form strips every
/// leading `/`), and for every prefix that does not start with whitespace
/// (the uri form is trimmed).
pub proof fn lemma_uri_agrees_with_body(prefix: Seq<char>, body: Seq<char>, os: Seq<char>)
    requires
        prefix.len() == 0 || !is_ws(prefix[0]),
        body.len() == 0 || body[0] != '/',
    ensures
        from_uri_spec(prefix + seq!['/'] + body, prefix, os) == Some(from_body_spec(body, os)),
{
    let k = lemma_trim_end_shape(body);
    let b = body.take(k);
    let w = body.skip(k);
    assert(body =~= b + w);
    let head = prefix + seq!['/'] + b;
    let uri = prefix + seq!['/'] + body;
    assert(uri =~= head + w);
    assert(uri.len() > 0);
    if prefix.len() == 0 {
        assert(uri[0] == '/');
    } else {
        assert(uri[0] == prefix[0]);
    }
    assert(!is_ws(uri[0]));
    assert(trim_start(uri) == uri);
    lemma_trim_end_appended_ws(head, w);
    if b.len() == 0 {
        assert(head.last() == '/');
    } else {
        assert(head.last() == b.last());
        assert(b.last() == body[k - 1]);
    }
    assert(trim_end(head) == head);
    assert(trim(uri) == head);
    assert(head.take(prefix.len() as int) =~= prefix);
    let rest = head.skip(prefix.len() as int);
    assert(rest =~= seq!['/'] + b);
    assert(rest.drop_first() =~= b);
    assert(trim_start_char(rest, '/') == trim_start_char(b, '/'));
    if b.len() > 0 {
        assert(b[0] == body[0]);
    }
    assert(trim_start_char(b, '/') == b);
    lemma_body_append(b, w, os);
}

// ---------------------------------------------------------------------
// Executable
// ---------------------------------------------------------------------

/// The fold priority of a verdict.
pub fn verdict_priority(v: &Verdict) -> (p: u8)
    ensures
        p == priority(*v),
{
    match v {
        Verdict::Show(_) => 2,
        Verdict::BadOs => 1,
        Verdict::OtherOs => 0,
    }
}

/// Parses a tag body, the text after `<prefix>/` in the uri form and the
/// entire value in the custom-field form.
pub fn from_body(body: &str, os: &str) -> (t: Tag)
    ensures
        t@ == from_body_spec(body@, os@),
{
    let b = chars_of(body);
    let o = chars_of(os);
    from_body_chars(&b, &o)
}

/// Strips `prefix` from a full uri, enforces the `/` boundary (so
/// `app://context-password-other/1` is not ours), and parses the rest as
/// a body. `None` when the uri isn't ours at all.
pub fn from_uri(uri: &str, prefix: &str, os: &str) -> (t: Option<Tag>)
    ensures
        match from_uri_spec(uri@, prefix@, os@) {
            Some(v) => t matches Some(x) && x@ == v,
            None => t is None,
        },
{
    let u = chars_of(uri);
    let p = chars_of(prefix);
    let o = chars_of(os);
    from_uri_chars(&u, &p, &o)
}

/// [`from_uri`] on character sequences.
pub fn from_uri_chars(uri: &Vec<char>, prefix: &Vec<char>, os: &Vec<char>) -> (t: Option<Tag>)
    ensures
        match from_uri_spec(uri@, prefix@, os@) {
            Some(v) => t matches Some(x) && x@ == v,
            None => t is None,
        },
{
    let trimmed = trim_chars(uri);
    if !starts_with(&trimmed, prefix) {
        return None;
    }
    let rest = slice_of(&trimmed, prefix.len(), trimmed.len());
    assert(rest@ =~= trimmed@.skip(prefix.len() as int));
    if rest.len() > 0 && rest[0] != '/' {
        return None;
    }
    let body = trim_start_char_chars(&rest, '/');
    Some(from_body_chars(&body, os))
}

/// [`from_body`] on character sequences.
pub fn from_body_chars(body: &Vec<char>, os: &Vec<char>) -> (t: Tag)
    ensures
        t@ == from_body_spec(body@, os@),
{
    match split_once_chars(body, '?') {
        Some((ord_part, query)) => {
            let ord = ord_of_chars(&ord_part);
            classify(ord, &query, os)
        },
        None => {
            let ord = ord_of_chars(body);
            let empty: Vec<char> = Vec::new();
            assert(empty@ =~= Seq::<char>::empty());
            classify(ord, &empty, os)
        },
    }
}

fn ord_of_chars(ord_part: &Vec<char>) -> (r: Option<i64>)
    ensures
        r == ord_of(ord_part@),
{
    let s = trim_chars(ord_part);
    if s.len() == 0 {
        None
    } else {
        parse_i64_chars(&s)
    }
}

/// `candidate` folded into `current` by priority, the first one winning a
/// tie.
pub open spec fn best_spec(current: Option<Tag>, candidate: Tag) -> Option<Tag> {
    match current {
        Some(c) => if priority(c.verdict) >= priority(candidate.verdict) {
            Some(c)
        } else {
            Some(candidate)
        },
        None => Some(candidate),
    }
}

/// The tags folded in order with [`best`], from nothing.
pub open spec fn best_of(tags: Seq<Tag>) -> Option<Tag>
    decreases tags.len(),
{
    if tags.len() == 0 {
        None
    } else {
        best_spec(best_of(tags.drop_last()), tags.last())
    }
}

/// Folding [`best`] over tags gives the tag of highest priority (`Show` >
/// `BadOs` > `OtherOs`), the earliest of them on a tie: the tag at the
/// returned index.
pub proof fn lemma_best_of_is_the_first_highest(tags: Seq<Tag>) -> (i: int)
    requires
        tags.len() > 0,
    ensures
        0 <= i < tags.len(),
        best_of(tags) == Some(tags[i]),
        forall|j: int| 0 <= j < tags.len() ==> priority(#[trigger] tags[j].verdict) <= priority(tags[i].verdict),
        forall|j: int| 0 <= j < i ==> priority(#[trigger] tags[j].verdict) < priority(tags[i].verdict),
    decreases tags.len(),
{
    let n = tags.len() - 1;
    let last = tags[n];
    if n == 0 {
        assert(tags.drop_last().len() == 0);
        0
    } else {
        let p = tags.drop_last();
        let k = lemma_best_of_is_the_first_highest(p);
        assert(p[k] == tags[k]);
        if priority(tags[k].verdict) >= priority(last.verdict) {
            assert forall|j: int| 0 <= j < tags.len() implies priority(#[trigger] tags[j].verdict)
                <= priority(tags[k].verdict) by {
                if j < n {
                    assert(p[j] == tags[j]);
                }
            }
            assert forall|j: int| 0 <= j < k implies priority(#[trigger] tags[j].verdict) < priority(
                tags[k].verdict,
            ) by {
                assert(p[j] == tags[j]);
            }
            k
        } else {
            assert forall|j: int| 0 <= j < tags.len() implies priority(#[trigger] tags[j].verdict)
                <= priority(tags[n].verdict) by {
                if j < n {
                    assert(p[j] == tags[j]);
                }
            }
            assert forall|j: int| 0 <= j < n implies priority(#[trigger] tags[j].verdict) < priority(
                tags[n].verdict,
            ) by {
                assert(p[j] == tags[j]);
            }
            n
        }
    }
}

/// Folds `candidate` into `current` by priority (`Show` > `BadOs` >
/// `OtherOs`), the first one winning a tie.
pub fn best(current: Option<Tag>, candidate: Tag) -> (r: Option<Tag>)
    ensures
        r == best_spec(current, candidate),
{
    match current {
        Some(c) => {
            if verdict_priority(&c.verdict) >= verdict_priority(&candidate.verdict) {
                Some(c)
            } else {
                Some(candidate)
            }
        },
        None => Some(candidate),
    }
}

/// Applies one token to the running classification state.
fn absorb_token(
    token: Vec<char>,
    os: &Vec<char>,
    recognized: &mut bool,
    matched: &mut bool,
    unknown: &mut Vec<Vec<char>>,
    Ghost(toks): Ghost<Seq<Seq<char>>>,
)
    requires
        *old(recognized) == any_recognized(toks),
        *old(matched) == any_matched(toks, os@),
        views(old(unknown)@) == unknown_tokens(toks),
    ensures
        *final(recognized) == any_recognized(toks.push(token@)),
        *final(matched) == any_matched(toks.push(token@), os@),
        views(final(unknown)@) == unknown_tokens(toks.push(token@)),
{
    let ghost t2 = toks.push(token@);
    assert(t2.drop_last() =~= toks);
    if is_os_tag(&token) {
        *recognized = true;
        if chars_eq(&token, os) {
            *matched = true;
        }
    } else {
        let ghost before = unknown@;
        unknown.push(token);
        assert(views(unknown@) =~= views(before).push(t2.last()));
    }
}

/// The verdict for a tag with ORD `ord` and query `query`.
fn classify(ord: Option<i64>, query: &Vec<char>, os: &Vec<char>) -> (t: Tag)
    ensures
        t@ == classify_spec(ord, query@, os@),
{
    if query.len() == 0 {
        return Tag { verdict: Verdict::Show(ord), unknown_os: None };
    }
    let pairs = split_chars(query, '&');
    let ghost ps = views(pairs@);
    let mut saw_os_pair = false;
    let mut recognized = false;
    let mut matched = false;
    let mut unknown: Vec<Vec<char>> = Vec::new();
    let mut raw_values: Vec<Vec<char>> = Vec::new();
    let ghost mut values: Seq<Seq<char>> = Seq::empty();
    let ghost mut toks: Seq<Seq<char>> = Seq::empty();
    let mut i: usize = 0;
    assert(views(unknown@) =~= unknown_tokens(toks));
    assert(views(raw_values@) =~= trimmed_all(values));
    while i < pairs.len()
        invariant
            i <= pairs.len(),
            ps == views(pairs@),
            values == os_values(ps.take(i as int)),
            toks == value_tokens(values),
            saw_os_pair == (values.len() > 0),
            recognized == any_recognized(toks),
            matched == any_matched(toks, os@),
            views(unknown@) == unknown_tokens(toks),
            views(raw_values@) == trimmed_all(values),
        decreases pairs.len() - i,
    {
        let pair = &pairs[i];
        proof {
            assert(ps.take(i + 1).drop_last() =~= ps.take(i as int));
            assert(ps.take(i + 1).last() == pair@);
        }
        if pair.len() == 0 {
            i += 1;
            continue;
        }
        let (key, value) = match split_once_chars(pair, '=') {
            Some((k, v)) => (k, v),
            None => (slice_of(pair, 0, pair.len()), Vec::new()),
        };
        proof {
            assert(key@ =~= pair_kv(pair@).0);
            assert(value@ =~= pair_kv(pair@).1);
        }
        let key_norm = ascii_lowercase(&trim_chars(&key));
        let os_word = vec!['o', 's'];
        assert(os_word@ =~= os_key());
        if !chars_eq(&key_norm, &os_word) {
            i += 1;
            continue;
        }
        saw_os_pair = true;
        let ghost old_values = values;
        proof {
            values = values.push(value@);
        }
        let ghost before_raw = raw_values@;
        let trimmed_value = trim_chars(&value);
        let ghost tvv = trimmed_value@;
        raw_values.push(trimmed_value);
        assert(views(raw_values@) =~= views(before_raw).push(tvv));
        assert(trimmed_all(values) =~= trimmed_all(old_values).push(trim(value@)));
        let parts = split_chars(&value, ',');
        let ghost qs = views(parts@);
        let ghost base = toks;
        let mut k: usize = 0;
        while k < parts.len()
            invariant
                k <= parts.len(),
                qs == views(parts@),
                qs == split(value@, ','),
                toks == base + norm_tokens(qs.take(k as int)),
                recognized == any_recognized(toks),
                matched == any_matched(toks, os@),
                views(unknown@) == unknown_tokens(toks),
            decreases parts.len() - k,
        {
            let part = &parts[k];
            proof {
                assert(qs.take(k + 1).drop_last() =~= qs.take(k as int));
                assert(qs.take(k + 1).last() == part@);
            }
            let trimmed = trim_chars(part);
            let token = lowercase_chars(&trimmed);
            if token.len() == 0 {
                k += 1;
                continue;
            }
            let ghost tv = token@;
            absorb_token(token, os, &mut recognized, &mut matched, &mut unknown, Ghost(toks));
            proof {
                assert(base + norm_tokens(qs.take(k + 1)) =~= toks.push(tv));
                toks = toks.push(tv);
            }
            k += 1;
        }
        proof {
            assert(qs.take(parts.len() as int) =~= qs);
            assert(toks =~= value_tokens(values)) by {
                assert(values.drop_last() =~= old_values);
            }
        }
        i += 1;
    }
    assert(ps.take(pairs.len() as int) =~= ps);
    if !saw_os_pair {
        return Tag { verdict: Verdict::Show(ord), unknown_os: None };
    }
    let verdict = if !recognized {
        Verdict::BadOs
    } else if matched {
        Verdict::Show(ord)
    } else {
        Verdict::OtherOs
    };
    let unknown_os = if unknown.len() > 0 {
        Some(string_of(&join_chars(&unknown, ',')))
    } else if !recognized {
        Some(string_of(&join_chars(&raw_values, ',')))
    } else {
        None
    };
    Tag { verdict, unknown_os }
}

} // verus!
