//! Character-level text helpers shared by the tag grammar and the error
//! classifier. Text is handled as `Vec<char>` so that every operation can
//! be stated over `Seq<char>`, the view vstd gives `str` and `String`.

use vstd::prelude::*;

verus! {

// ---------------------------------------------------------------------
// Specifications
// ---------------------------------------------------------------------

/// `char::is_whitespace`: the Unicode `White_Space` property.
pub open spec fn is_ws(c: char) -> bool {
    let u = c as u32;
    ||| 0x09 <= u <= 0x0d
    ||| u == 0x20
    ||| u == 0x85
    ||| u == 0xa0
    ||| u == 0x1680
    ||| 0x2000 <= u <= 0x200a
    ||| u == 0x2028
    ||| u == 0x2029
    ||| u == 0x202f
    ||| u == 0x205f
    ||| u == 0x3000
}

/// `s` without its leading whitespace (`str::trim_start`).
pub open spec fn trim_start(s: Seq<char>) -> Seq<char>
    decreases s.len(),
{
    if s.len() > 0 && is_ws(s[0]) {
        trim_start(s.drop_first())
    } else {
        s
    }
}

/// `s` without its trailing whitespace (`str::trim_end`).
pub open spec fn trim_end(s: Seq<char>) -> Seq<char>
    decreases s.len(),
{
    if s.len() > 0 && is_ws(s.last()) {
        trim_end(s.drop_last())
    } else {
        s
    }
}

/// `str::trim`: both ends.
pub open spec fn trim(s: Seq<char>) -> Seq<char> {
    trim_end(trim_start(s))
}

/// `s` without its leading `c`s (`str::trim_start_matches(c)`).
pub open spec fn trim_start_char(s: Seq<char>, c: char) -> Seq<char>
    decreases s.len(),
{
    if s.len() > 0 && s[0] == c {
        trim_start_char(s.drop_first(), c)
    } else {
        s
    }
}

/// `char::to_ascii_lowercase`.
pub open spec fn ascii_lower_char(c: char) -> char {
    if 'A' <= c && c <= 'Z' {
        ((c as u32) + 32) as char
    } else {
        c
    }
}

/// `str::to_ascii_lowercase`.
pub open spec fn ascii_lower(s: Seq<char>) -> Seq<char> {
    Seq::new(s.len(), |i: int| ascii_lower_char(s[i]))
}

/// Every character of `s` is ASCII.
pub open spec fn all_ascii(s: Seq<char>) -> bool {
    forall|i: int| 0 <= i < s.len() ==> (s[i] as u32) < 128
}

/// What `str::to_lowercase` returns for `s` (full Unicode case mapping).
pub uninterp spec fn lowercase(s: Seq<char>) -> Seq<char>;

/// Index of the first `c` in `s`, or `s.len()` when there is none.
pub open spec fn find_char(s: Seq<char>, c: char) -> int
    decreases s.len(),
{
    if s.len() == 0 {
        0
    } else if s[0] == c {
        0
    } else {
        1 + find_char(s.drop_first(), c)
    }
}

/// `str::split_once(c)`: the text before and after the first `c`.
pub open spec fn split_once(s: Seq<char>, c: char) -> Option<(Seq<char>, Seq<char>)> {
    let i = find_char(s, c);
    if i < s.len() {
        Some((s.take(i), s.skip(i + 1)))
    } else {
        None
    }
}

/// `str::split(c)`: the pieces between occurrences of `c` (at least one).
pub open spec fn split(s: Seq<char>, c: char) -> Seq<Seq<char>>
    decreases s.len(),
{
    let i = find_char(s, c);
    if i < s.len() {
        proof {
            lemma_find_char_bounds(s, c);
        }
        seq![s.take(i)] + split(s.skip(i + 1), c)
    } else {
        seq![s]
    }
}

/// `p` is a prefix of `s`.
pub open spec fn has_prefix(s: Seq<char>, p: Seq<char>) -> bool {
    p.len() <= s.len() && s.take(p.len() as int) == p
}

/// `needle` occurs in `haystack` at position `i`.
pub open spec fn occurs_at(haystack: Seq<char>, needle: Seq<char>, i: int) -> bool {
    0 <= i && i + needle.len() <= haystack.len() && haystack.subrange(i, i + needle.len()) == needle
}

/// `str::contains`: `needle` occurs somewhere in `haystack`.
pub open spec fn contains(haystack: Seq<char>, needle: Seq<char>) -> bool {
    exists|i: int| occurs_at(haystack, needle, i)
}

/// `pieces` joined with `sep` between consecutive pieces (`[..].join(sep)`).
pub open spec fn join(pieces: Seq<Seq<char>>, sep: char) -> Seq<char>
    decreases pieces.len(),
{
    if pieces.len() == 0 {
        Seq::empty()
    } else if pieces.len() == 1 {
        pieces[0]
    } else {
        join(pieces.drop_last(), sep).push(sep) + pieces.last()
    }
}

pub open spec fn is_digit(c: char) -> bool {
    '0' <= c && c <= '9'
}

/// The value of a run of decimal digits.
pub open spec fn digits_value(s: Seq<char>) -> int
    decreases s.len(),
{
    if s.len() == 0 {
        0
    } else {
        digits_value(s.drop_last()) * 10 + ((s.last() as u32) - ('0' as u32))
    }
}

pub open spec fn all_digits(s: Seq<char>) -> bool {
    s.len() > 0 && forall|i: int| 0 <= i < s.len() ==> is_digit(#[trigger] s[i])
}

/// `i64::from_str`: an optional sign, then one or more decimal digits,
/// whose value fits in an `i64`.
pub open spec fn parse_i64(s: Seq<char>) -> Option<i64> {
    let neg = s.len() > 0 && s[0] == '-';
    let body = if s.len() > 0 && (s[0] == '-' || s[0] == '+') {
        s.drop_first()
    } else {
        s
    };
    let v = if neg {
        -digits_value(body)
    } else {
        digits_value(body)
    };
    if all_digits(body) && i64::MIN <= v <= i64::MAX {
        Some(v as i64)
    } else {
        None
    }
}

// ---------------------------------------------------------------------
// Lemmas
// ---------------------------------------------------------------------

pub proof fn lemma_find_char(s: Seq<char>, c: char, i: int)
    requires
        0 <= i <= s.len(),
        forall|j: int| 0 <= j < i ==> s[j] != c,
        i == s.len() || s[i] == c,
    ensures
        find_char(s, c) == i,
    decreases i,
{
    if i > 0 {
        lemma_find_char(s.drop_first(), c, i - 1);
    }
}

pub proof fn lemma_find_char_bounds(s: Seq<char>, c: char)
    ensures
        0 <= find_char(s, c) <= s.len(),
        find_char(s, c) < s.len() ==> s[find_char(s, c)] == c,
        forall|j: int| 0 <= j < find_char(s, c) ==> s[j] != c,
    decreases s.len(),
{
    if s.len() > 0 && s[0] != c {
        lemma_find_char_bounds(s.drop_first(), c);
        assert forall|j: int| 0 <= j < find_char(s, c) implies s[j] != c by {
            if j > 0 {
                assert(s[j] == s.drop_first()[j - 1]);
            }
        }
    }
}

/// Every character of `w` is whitespace.
pub open spec fn all_ws(w: Seq<char>) -> bool {
    forall|i: int| 0 <= i < w.len() ==> is_ws(#[trigger] w[i])
}

/// `w` has no `c`.
pub open spec fn lacks(w: Seq<char>, c: char) -> bool {
    forall|i: int| 0 <= i < w.len() ==> #[trigger] w[i] != c
}

/// A character that isn't whitespace is in no run of whitespace.
pub proof fn lemma_ws_lacks(w: Seq<char>, c: char)
    requires
        all_ws(w),
        !is_ws(c),
    ensures
        lacks(w, c),
{
    assert forall|i: int| 0 <= i < w.len() implies #[trigger] w[i] != c by {
        assert(is_ws(w[i]));
    }
}

/// `trim_end(s)` is the prefix of `s` before its trailing whitespace.
pub proof fn lemma_trim_end_shape(s: Seq<char>) -> (k: int)
    ensures
        0 <= k <= s.len(),
        trim_end(s) == s.take(k),
        all_ws(s.skip(k)),
        k == 0 || !is_ws(s[k - 1]),
    decreases s.len(),
{
    if s.len() > 0 && is_ws(s.last()) {
        let k = lemma_trim_end_shape(s.drop_last());
        assert(s.drop_last().take(k) =~= s.take(k));
        assert forall|i: int| 0 <= i < s.skip(k).len() implies is_ws(#[trigger] s.skip(k)[i]) by {
            if k + i < s.len() - 1 {
                assert(s.skip(k)[i] == s.drop_last().skip(k)[i]);
            }
        }
        k
    } else {
        assert(s.take(s.len() as int) =~= s);
        s.len() as int
    }
}

/// Whitespace appended to `s` doesn't change `trim_end(s)`.
pub proof fn lemma_trim_end_appended_ws(s: Seq<char>, w: Seq<char>)
    requires
        all_ws(w),
    ensures
        trim_end(s + w) == trim_end(s),
{
    let t = s + w;
    assert forall|j: int| s.len() <= j < t.len() implies is_ws(#[trigger] t[j]) by {
        assert(t[j] == w[j - s.len()]);
    }
    lemma_trim_end_cut(t, s.len() as int);
    assert(t.subrange(0, s.len() as int) =~= s);
}

/// A run of whitespace trims to nothing from the start.
pub proof fn lemma_trim_start_all_ws(w: Seq<char>)
    requires
        all_ws(w),
    ensures
        trim_start(w) == Seq::<char>::empty(),
    decreases w.len(),
{
    if w.len() > 0 {
        assert(is_ws(w[0]));
        let t = w.drop_first();
        assert forall|i: int| 0 <= i < t.len() implies is_ws(#[trigger] t[i]) by {
            assert(t[i] == w[i + 1]);
        }
        lemma_trim_start_all_ws(t);
    }
}

/// `trim_start` of `s` followed by whitespace.
pub proof fn lemma_trim_start_appended_ws(s: Seq<char>, w: Seq<char>)
    requires
        all_ws(w),
    ensures
        trim_start(s + w) == (if trim_start(s).len() > 0 {
            trim_start(s) + w
        } else {
            Seq::<char>::empty()
        }),
    decreases s.len(),
{
    if s.len() == 0 {
        assert(s + w =~= w);
        lemma_trim_start_all_ws(w);
    } else if is_ws(s[0]) {
        assert((s + w)[0] == s[0]);
        assert((s + w).drop_first() =~= s.drop_first() + w);
        lemma_trim_start_appended_ws(s.drop_first(), w);
    } else {
        assert((s + w)[0] == s[0]);
    }
}

/// Whitespace appended to `s` doesn't change `trim(s)`.
pub proof fn lemma_trim_appended_ws(s: Seq<char>, w: Seq<char>)
    requires
        all_ws(w),
    ensures
        trim(s + w) == trim(s),
{
    lemma_trim_start_appended_ws(s, w);
    if trim_start(s).len() > 0 {
        lemma_trim_end_appended_ws(trim_start(s), w);
    }
}

/// Where `c` is first found in `s` followed by text without `c`.
pub proof fn lemma_find_char_append(s: Seq<char>, w: Seq<char>, c: char)
    requires
        lacks(w, c),
    ensures
        find_char(s + w, c) == (if find_char(s, c) < s.len() {
            find_char(s, c)
        } else {
            (s.len() + w.len()) as int
        }),
{
    lemma_find_char_bounds(s, c);
    let i = find_char(s, c);
    let t = s + w;
    if i < s.len() {
        assert forall|j: int| 0 <= j < i implies t[j] != c by {
            assert(t[j] == s[j]);
        }
        assert(t[i] == s[i]);
        lemma_find_char(t, c, i);
    } else {
        assert forall|j: int| 0 <= j < t.len() implies t[j] != c by {
            if j < s.len() {
                assert(t[j] == s[j]);
            } else {
                assert(t[j] == w[j - s.len()]);
            }
        }
        lemma_find_char(t, c, t.len() as int);
    }
}

/// The last piece, extended by `w`.
pub open spec fn last_extended(v: Seq<Seq<char>>, w: Seq<char>) -> Seq<Seq<char>> {
    if v.len() == 0 {
        v
    } else {
        v.drop_last().push(v.last() + w)
    }
}

/// Splitting `s` followed by text without the separator: the text ends up
/// on the last piece.
pub proof fn lemma_split_append(s: Seq<char>, w: Seq<char>, c: char)
    requires
        lacks(w, c),
    ensures
        split(s, c).len() > 0,
        split(s + w, c) == last_extended(split(s, c), w),
    decreases s.len(),
{
    lemma_find_char_bounds(s, c);
    lemma_find_char_append(s, w, c);
    let i = find_char(s, c);
    let t = s + w;
    if i < s.len() {
        assert(t.take(i) =~= s.take(i));
        assert(t.skip(i + 1) =~= s.skip(i + 1) + w);
        lemma_split_append(s.skip(i + 1), w, c);
        let rest = split(s.skip(i + 1), c);
        assert(split(s, c) == seq![s.take(i)] + rest);
        assert(split(t, c) == seq![s.take(i)] + split(s.skip(i + 1) + w, c));
        assert(seq![s.take(i)] + last_extended(rest, w) =~= last_extended(seq![s.take(i)] + rest, w));
    } else {
        assert(split(s, c) == seq![s]);
        assert(split(t, c) == seq![t]);
        assert(last_extended(seq![s], w) =~= seq![t]);
    }
}

/// `split_once` of `s` followed by text without the separator.
pub proof fn lemma_split_once_append(s: Seq<char>, w: Seq<char>, c: char)
    requires
        lacks(w, c),
    ensures
        match split_once(s, c) {
            Some((a, b)) => split_once(s + w, c) == Some((a, b + w)),
            None => split_once(s + w, c) is None,
        },
{
    lemma_find_char_bounds(s, c);
    lemma_find_char_append(s, w, c);
    let i = find_char(s, c);
    let t = s + w;
    if i < s.len() {
        assert(t.take(i) =~= s.take(i));
        assert(t.skip(i + 1) =~= s.skip(i + 1) + w);
    }
}

proof fn lemma_digits_value_nonneg(s: Seq<char>)
    requires
        forall|i: int| 0 <= i < s.len() ==> is_digit(#[trigger] s[i]),
    ensures
        digits_value(s) >= 0,
    decreases s.len(),
{
    if s.len() > 0 {
        lemma_digits_value_nonneg(s.drop_last());
        assert(is_digit(s[s.len() - 1]));
    }
}


proof fn lemma_trim_start_skip(s: Seq<char>, i: int)
    requires
        0 <= i <= s.len(),
        forall|j: int| 0 <= j < i ==> is_ws(#[trigger] s[j]),
    ensures
        trim_start(s) == trim_start(s.subrange(i, s.len() as int)),
    decreases i,
{
    if i == 0 {
        assert(s.subrange(0, s.len() as int) =~= s);
    } else {
        assert(is_ws(s[0]));
        let t = s.drop_first();
        assert forall|j: int| 0 <= j < i - 1 implies is_ws(#[trigger] t[j]) by {
            assert(t[j] == s[j + 1]);
        }
        lemma_trim_start_skip(t, i - 1);
        assert(t.subrange(i - 1, t.len() as int) =~= s.subrange(i, s.len() as int));
    }
}

proof fn lemma_trim_start_char_skip(s: Seq<char>, c: char, i: int)
    requires
        0 <= i <= s.len(),
        forall|j: int| 0 <= j < i ==> #[trigger] s[j] == c,
    ensures
        trim_start_char(s, c) == trim_start_char(s.subrange(i, s.len() as int), c),
    decreases i,
{
    if i == 0 {
        assert(s.subrange(0, s.len() as int) =~= s);
    } else {
        assert(s[0] == c);
        let t = s.drop_first();
        assert forall|j: int| 0 <= j < i - 1 implies #[trigger] t[j] == c by {
            assert(t[j] == s[j + 1]);
        }
        lemma_trim_start_char_skip(t, c, i - 1);
        assert(t.subrange(i - 1, t.len() as int) =~= s.subrange(i, s.len() as int));
    }
}

proof fn lemma_trim_end_cut(s: Seq<char>, k: int)
    requires
        0 <= k <= s.len(),
        forall|j: int| k <= j < s.len() ==> is_ws(#[trigger] s[j]),
    ensures
        trim_end(s) == trim_end(s.subrange(0, k)),
    decreases s.len() - k,
{
    if k == s.len() {
        assert(s.subrange(0, k) =~= s);
    } else {
        assert(is_ws(s[s.len() - 1]));
        let t = s.drop_last();
        assert forall|j: int| k <= j < t.len() implies is_ws(#[trigger] t[j]) by {
            assert(t[j] == s[j]);
        }
        lemma_trim_end_cut(t, k);
        assert(t.subrange(0, k) =~= s.subrange(0, k));
    }
}

proof fn lemma_digits_value_push(t: Seq<char>, d: char)
    ensures
        digits_value(t.push(d)) == digits_value(t) * 10 + ((d as u32) - ('0' as u32)),
{
    assert(t.push(d).drop_last() =~= t);
}

/// The views of a vector of character vectors.
pub open spec fn views(v: Seq<Vec<char>>) -> Seq<Seq<char>> {
    Seq::new(v.len(), |i: int| v[i]@)
}

// ---------------------------------------------------------------------
// Executable operations
// ---------------------------------------------------------------------

/// The characters of `s`, in order.
pub fn chars_of(s: &str) -> (r: Vec<char>)
    ensures
        r@ == s@,
{
    let mut r: Vec<char> = Vec::new();
    for c in it: s.chars()
        invariant
            r@ == it.seq().take(it.index()),
    {
        r.push(c);
    }
    r
}

/// `String::from_iter` over characters: a `String` holding exactly
/// `chars`, in order.
#[verifier::external_body]
pub(crate) fn string_of(chars: &Vec<char>) -> (s: String)
    ensures
        s@ == chars@,
{
    String::from_iter(chars.iter())
}

/// `str::to_lowercase`: Unicode's lowercase mapping, which on ASCII text
/// is the ASCII one (`A` to `Z` become `a` to `z`, nothing else changes).
#[verifier::external_body]
fn str_to_lowercase(s: &str) -> (r: String)
    ensures
        r@ == lowercase(s@),
        all_ascii(s@) ==> r@ == ascii_lower(s@),
{
    s.to_lowercase()
}

/// The full Unicode lowercase of `chars`.
pub fn lowercase_chars(chars: &Vec<char>) -> (r: Vec<char>)
    ensures
        r@ == lowercase(chars@),
        all_ascii(chars@) ==> r@ == ascii_lower(chars@),
{
    let s = string_of(chars);
    let l = str_to_lowercase(s.as_str());
    chars_of(l.as_str())
}

/// `char::is_whitespace`.
pub fn is_whitespace(c: char) -> (b: bool)
    ensures
        b == is_ws(c),
{
    let u = c as u32;
    (0x09 <= u && u <= 0x0d) || u == 0x20 || u == 0x85 || u == 0xa0 || u == 0x1680 || (0x2000
        <= u && u <= 0x200a) || u == 0x2028 || u == 0x2029 || u == 0x202f || u == 0x205f || u
        == 0x3000
}

/// `v[lo..hi]` as a new vector.
pub fn slice_of(v: &Vec<char>, lo: usize, hi: usize) -> (r: Vec<char>)
    requires
        lo <= hi <= v.len(),
    ensures
        r@ == v@.subrange(lo as int, hi as int),
{
    let mut r: Vec<char> = Vec::new();
    let mut i = lo;
    while i < hi
        invariant
            lo <= i <= hi <= v.len(),
            r@ == v@.subrange(lo as int, i as int),
        decreases hi - i,
    {
        r.push(v[i]);
        i += 1;
    }
    r
}

/// Whether `a` and `b` hold the same characters.
pub fn chars_eq(a: &Vec<char>, b: &Vec<char>) -> (r: bool)
    ensures
        r == (a@ == b@),
{
    if a.len() != b.len() {
        return false;
    }
    let mut i: usize = 0;
    while i < a.len()
        invariant
            a.len() == b.len(),
            i <= a.len(),
            forall|j: int| 0 <= j < i ==> a@[j] == b@[j],
        decreases a.len() - i,
    {
        if a[i] != b[i] {
            return false;
        }
        i += 1;
    }
    assert(a@ =~= b@);
    true
}

/// Whether `s` starts with `p`.
pub fn starts_with(s: &Vec<char>, p: &Vec<char>) -> (r: bool)
    ensures
        r == has_prefix(s@, p@),
{
    if p.len() > s.len() {
        return false;
    }
    let mut i: usize = 0;
    while i < p.len()
        invariant
            p.len() <= s.len(),
            i <= p.len(),
            forall|j: int| 0 <= j < i ==> s@[j] == p@[j],
        decreases p.len() - i,
    {
        if s[i] != p[i] {
            assert(s@.take(p.len() as int)[i as int] != p@[i as int]);
            return false;
        }
        i += 1;
    }
    assert(s@.take(p.len() as int) =~= p@);
    true
}

/// Whether `needle` occurs at position `at` of `haystack`.
fn occurs_at_exec(haystack: &Vec<char>, needle: &Vec<char>, at: usize) -> (r: bool)
    requires
        at + needle.len() <= haystack.len(),
    ensures
        r == occurs_at(haystack@, needle@, at as int),
{
    let mut i: usize = 0;
    while i < needle.len()
        invariant
            at + needle.len() <= haystack.len(),
            i <= needle.len(),
            forall|j: int| 0 <= j < i ==> haystack@[at + j] == needle@[j],
        decreases needle.len() - i,
    {
        if haystack[at + i] != needle[i] {
            assert(haystack@.subrange(at as int, at + needle.len())[i as int] != needle@[i as int]);
            return false;
        }
        i += 1;
    }
    assert(haystack@.subrange(at as int, at + needle.len()) =~= needle@);
    true
}

/// `str::contains` on character sequences.
pub fn contains_chars(haystack: &Vec<char>, needle: &Vec<char>) -> (r: bool)
    ensures
        r == contains(haystack@, needle@),
{
    if needle.len() > haystack.len() {
        return false;
    }
    let last = haystack.len() - needle.len();
    let mut at: usize = 0;
    loop
        invariant
            last == haystack.len() - needle.len(),
            needle.len() <= haystack.len(),
            at <= last,
            forall|j: int| 0 <= j < at ==> !occurs_at(haystack@, needle@, j),
        ensures
            forall|j: int| 0 <= j <= last ==> !occurs_at(haystack@, needle@, j),
        decreases last - at,
    {
        if occurs_at_exec(haystack, needle, at) {
            return true;
        }
        if at == last {
            break;
        }
        at += 1;
    }
    assert forall|j: int| !occurs_at(haystack@, needle@, j) by {
        if 0 <= j && j + needle.len() <= haystack.len() {
            assert(j <= last);
        }
    }
    false
}

/// `str::to_ascii_lowercase`.
pub fn ascii_lowercase(s: &Vec<char>) -> (r: Vec<char>)
    ensures
        r@ == ascii_lower(s@),
{
    let mut r: Vec<char> = Vec::new();
    let mut i: usize = 0;
    while i < s.len()
        invariant
            i <= s.len(),
            r@ =~= ascii_lower(s@).take(i as int),
        decreases s.len() - i,
    {
        let c = s[i];
        let l = if 'A' <= c && c <= 'Z' {
            ((c as u8) + 32) as char
        } else {
            c
        };
        r.push(l);
        i += 1;
    }
    r
}


/// `str::trim` on character sequences.
pub fn trim_chars(v: &Vec<char>) -> (r: Vec<char>)
    ensures
        r@ == trim(v@),
{
    let n = v.len();
    let mut start: usize = 0;
    while start < n && is_whitespace(v[start])
        invariant
            start <= n == v.len(),
            forall|j: int| 0 <= j < start ==> is_ws(#[trigger] v@[j]),
        decreases n - start,
    {
        start += 1;
    }
    proof {
        lemma_trim_start_skip(v@, start as int);
        let t = v@.subrange(start as int, n as int);
        if start < n {
            assert(t[0] == v@[start as int]);
        }
        assert(trim_start(t) == t);
    }
    let mut end: usize = n;
    while end > start && is_whitespace(v[end - 1])
        invariant
            start <= end <= n == v.len(),
            forall|j: int| end <= j < n ==> is_ws(#[trigger] v@[j]),
        decreases end - start,
    {
        end -= 1;
    }
    proof {
        let t = v@.subrange(start as int, n as int);
        assert forall|j: int| end - start <= j < t.len() implies is_ws(#[trigger] t[j]) by {
            assert(t[j] == v@[start + j]);
        }
        lemma_trim_end_cut(t, end - start);
        let u = t.subrange(0, end - start);
        assert(u =~= v@.subrange(start as int, end as int));
        if end > start {
            assert(u.last() == v@[end - 1]);
        }
        assert(trim_end(u) == u);
    }
    slice_of(v, start, end)
}

/// `str::trim_start_matches(c)` on character sequences.
pub fn trim_start_char_chars(v: &Vec<char>, c: char) -> (r: Vec<char>)
    ensures
        r@ == trim_start_char(v@, c),
{
    let n = v.len();
    let mut start: usize = 0;
    while start < n && v[start] == c
        invariant
            start <= n == v.len(),
            forall|j: int| 0 <= j < start ==> #[trigger] v@[j] == c,
        decreases n - start,
    {
        start += 1;
    }
    proof {
        lemma_trim_start_char_skip(v@, c, start as int);
        let t = v@.subrange(start as int, n as int);
        if start < n {
            assert(t[0] == v@[start as int]);
        }
        assert(trim_start_char(t, c) == t);
    }
    slice_of(v, start, n)
}

/// `str::split_once(c)` on character sequences.
pub fn split_once_chars(v: &Vec<char>, c: char) -> (r: Option<(Vec<char>, Vec<char>)>)
    ensures
        match split_once(v@, c) {
            Some((a, b)) => r matches Some((x, y)) && x@ == a && y@ == b,
            None => r is None,
        },
{
    let n = v.len();
    let mut i: usize = 0;
    while i < n && v[i] != c
        invariant
            i <= n == v.len(),
            forall|j: int| 0 <= j < i ==> v@[j] != c,
        decreases n - i,
    {
        i += 1;
    }
    proof {
        lemma_find_char(v@, c, i as int);
    }
    if i < n {
        let a = slice_of(v, 0, i);
        let b = slice_of(v, i + 1, n);
        assert(a@ =~= v@.take(i as int));
        assert(b@ =~= v@.skip(i + 1));
        Some((a, b))
    } else {
        None
    }
}

/// `str::split(c)` on character sequences.
pub fn split_chars(v: &Vec<char>, c: char) -> (r: Vec<Vec<char>>)
    ensures
        views(r@) == split(v@, c),
{
    let n = v.len();
    let mut out: Vec<Vec<char>> = Vec::new();
    let mut cur: Vec<char> = Vec::new();
    let mut start: usize = 0;
    let mut i: usize = 0;
    assert(v@.subrange(0, n as int) =~= v@);
    assert(views(out@) + split(v@, c) =~= split(v@, c));
    while i < n
        invariant
            start <= i <= n == v.len(),
            cur@ == v@.subrange(start as int, i as int),
            forall|j: int| start <= j < i ==> v@[j] != c,
            views(out@) + split(v@.subrange(start as int, n as int), c) == split(v@, c),
        decreases n - i,
    {
        if v[i] == c {
            proof {
                let t = v@.subrange(start as int, n as int);
                assert forall|j: int| 0 <= j < i - start implies t[j] != c by {
                    assert(t[j] == v@[start + j]);
                }
                lemma_find_char(t, c, i - start);
                assert(t.take(i - start) =~= cur@);
                assert(t.skip(i - start + 1) =~= v@.subrange(i + 1, n as int));
                assert(views(out@.push(cur)) =~= views(out@).push(cur@));
                assert(split(t, c) == seq![cur@] + split(v@.subrange(i + 1, n as int), c));
                assert(views(out@.push(cur)) + split(v@.subrange(i + 1, n as int), c)
                    =~= views(out@) + split(t, c));
            }
            out.push(cur);
            cur = Vec::new();
            start = i + 1;
        } else {
            cur.push(v[i]);
        }
        i += 1;
    }
    proof {
        let t = v@.subrange(start as int, n as int);
        assert forall|j: int| 0 <= j < t.len() implies t[j] != c by {
            assert(t[j] == v@[start + j]);
        }
        lemma_find_char(t, c, t.len() as int);
        assert(split(t, c) == seq![t]);
        assert(views(out@.push(cur)) =~= views(out@).push(cur@));
        assert(views(out@.push(cur)) =~= views(out@) + split(t, c));
    }
    out.push(cur);
    out
}

/// `pieces.join(sep)` on character sequences.
pub fn join_chars(pieces: &Vec<Vec<char>>, sep: char) -> (r: Vec<char>)
    ensures
        r@ == join(views(pieces@), sep),
{
    let mut r: Vec<char> = Vec::new();
    let mut i: usize = 0;
    while i < pieces.len()
        invariant
            i <= pieces.len(),
            r@ == join(views(pieces@).take(i as int), sep),
        decreases pieces.len() - i,
    {
        let ghost before = r@;
        if i > 0 {
            r.push(sep);
        }
        let p = &pieces[i];
        let mut k: usize = 0;
        let ghost mid = r@;
        while k < p.len()
            invariant
                k <= p.len(),
                r@ == mid + p@.take(k as int),
            decreases p.len() - k,
        {
            r.push(p[k]);
            k += 1;
            assert(p@.take(k as int) =~= p@.take(k - 1).push(p@[k - 1]));
        }
        proof {
            let w = views(pieces@).take(i + 1);
            assert(w.drop_last() =~= views(pieces@).take(i as int));
            assert(w.last() == p@);
            assert(p@.take(p.len() as int) =~= p@);
            if i == 0 {
                assert(r@ =~= p@);
            } else {
                assert(r@ =~= before.push(sep) + p@);
            }
        }
        i += 1;
    }
    assert(views(pieces@).take(pieces.len() as int) =~= views(pieces@));
    r
}

/// `i64::from_str` on character sequences.
pub fn parse_i64_chars(v: &Vec<char>) -> (r: Option<i64>)
    ensures
        r == parse_i64(v@),
{
    let n = v.len();
    if n == 0 {
        return None;
    }
    let neg = v[0] == '-';
    let start: usize = if v[0] == '-' || v[0] == '+' {
        1
    } else {
        0
    };
    let ghost body = if v@.len() > 0 && (v@[0] == '-' || v@[0] == '+') {
        v@.drop_first()
    } else {
        v@
    };
    assert(body =~= v@.subrange(start as int, n as int));
    if start == n {
        assert(body.len() == 0);
        return None;
    }
    let limit: u128 = 9223372036854775808;
    let mut acc: u128 = 0;
    let mut big = false;
    let mut i: usize = start;
    while i < n
        invariant
            start <= i <= n == v.len(),
            start < n,
            body =~= v@.subrange(start as int, n as int),
            forall|j: int| start <= j < i ==> is_digit(#[trigger] v@[j]),
            !big ==> acc == digits_value(body.take(i - start)) && acc <= limit,
            big ==> digits_value(body.take(i - start)) > limit,
            limit == 9223372036854775808u128,
            body == (if v@.len() > 0 && (v@[0] == '-' || v@[0] == '+') {
                v@.drop_first()
            } else {
                v@
            }),
            neg == (v@.len() > 0 && v@[0] == '-'),
        decreases n - i,
    {
        let c = v[i];
        if !('0' <= c && c <= '9') {
            proof {
                assert(body[i - start] == c);
                assert(!all_digits(body));
            }
            return None;
        }
        let d = (c as u32 - '0' as u32) as u128;
        proof {
            let t = body.take(i - start);
            assert(body.take(i - start + 1) =~= t.push(c));
            lemma_digits_value_push(t, c);
            lemma_digits_value_nonneg(t);
        }
        if !big {
            acc = acc * 10 + d;
            if acc > limit {
                big = true;
            }
        }
        i += 1;
    }
    assert(body.take(n - start) =~= body);
    assert(all_digits(body)) by {
        assert forall|j: int| 0 <= j < body.len() implies is_digit(#[trigger] body[j]) by {
            assert(body[j] == v@[start + j]);
        }
    }
    if big {
        return None;
    }
    if neg {
        let x = -(acc as i128);
        Some(x as i64)
    } else if acc < limit {
        Some(acc as i64)
    } else {
        None
    }
}


/// Code-point lexicographic order (`Ord for str`: byte order of UTF-8,
/// which orders code points by their values).
pub open spec fn seq_lt(a: Seq<char>, b: Seq<char>) -> bool
    decreases a.len(),
{
    if a.len() == 0 {
        b.len() > 0
    } else if b.len() == 0 {
        false
    } else if a[0] != b[0] {
        (a[0] as u32) < (b[0] as u32)
    } else {
        seq_lt(a.drop_first(), b.drop_first())
    }
}

pub proof fn lemma_seq_lt_transitive(a: Seq<char>, b: Seq<char>, c: Seq<char>)
    requires
        seq_lt(a, b),
        seq_lt(b, c),
    ensures
        seq_lt(a, c),
    decreases a.len(),
{
    if a.len() > 0 && b.len() > 0 && c.len() > 0 && a[0] == b[0] && b[0] == c[0] {
        lemma_seq_lt_transitive(a.drop_first(), b.drop_first(), c.drop_first());
    }
}

pub proof fn lemma_seq_lt_irreflexive(a: Seq<char>)
    ensures
        !seq_lt(a, a),
    decreases a.len(),
{
    if a.len() > 0 {
        lemma_seq_lt_irreflexive(a.drop_first());
    }
}

proof fn lemma_seq_lt_skip(a: Seq<char>, b: Seq<char>, i: int)
    requires
        0 <= i <= a.len(),
        i <= b.len(),
        forall|j: int| 0 <= j < i ==> a[j] == b[j],
    ensures
        seq_lt(a, b) == seq_lt(a.skip(i), b.skip(i)),
    decreases i,
{
    if i > 0 {
        lemma_seq_lt_skip(a.drop_first(), b.drop_first(), i - 1);
        assert(a.drop_first().skip(i - 1) =~= a.skip(i));
        assert(b.drop_first().skip(i - 1) =~= b.skip(i));
    } else {
        assert(a.skip(0) =~= a);
        assert(b.skip(0) =~= b);
    }
}

/// Whether `a` sorts strictly before `b` (`Ord for str`).
pub fn chars_lt(a: &Vec<char>, b: &Vec<char>) -> (r: bool)
    ensures
        r == seq_lt(a@, b@),
{
    let mut i: usize = 0;
    while i < a.len() && i < b.len() && a[i] == b[i]
        invariant
            i <= a.len(),
            i <= b.len(),
            forall|j: int| 0 <= j < i ==> a@[j] == b@[j],
        decreases a.len() - i,
    {
        i += 1;
    }
    proof {
        lemma_seq_lt_skip(a@, b@, i as int);
    }
    if i == a.len() {
        i < b.len()
    } else if i == b.len() {
        false
    } else {
        (a[i] as u32) < (b[i] as u32)
    }
}

/// The decimal digit character for `d` (`0 <= d < 10`).
pub open spec fn digit_char(d: int) -> char {
    (d + ('0' as u32)) as char
}

/// The decimal representation of a natural number, without leading zeros.
pub open spec fn nat_digits(n: nat) -> Seq<char>
    decreases n,
{
    if n < 10 {
        seq![digit_char(n as int)]
    } else {
        nat_digits(n / 10).push(digit_char((n % 10) as int))
    }
}

/// `i64::to_string`: an optional `-`, then the decimal digits.
pub open spec fn decimal(n: int) -> Seq<char> {
    if n < 0 {
        seq!['-'] + nat_digits((-n) as nat)
    } else {
        nat_digits(n as nat)
    }
}

/// The decimal digits of `n`.
fn u64_digits(n: u64) -> (r: Vec<char>)
    ensures
        r@ == nat_digits(n as nat),
{
    let mut m: u64 = n;
    let mut acc: Vec<char> = Vec::new();
    while m >= 10
        invariant
            nat_digits(n as nat) == nat_digits(m as nat) + acc@,
        decreases m,
    {
        let d = (m % 10) as u32;
        let ghost old_acc = acc@;
        let c = char_of_digit(d);
        let mut next: Vec<char> = Vec::new();
        next.push(c);
        let mut k: usize = 0;
        while k < acc.len()
            invariant
                k <= acc.len(),
                next@ == seq![c] + acc@.take(k as int),
            decreases acc.len() - k,
        {
            next.push(acc[k]);
            k += 1;
            assert(acc@.take(k as int) =~= acc@.take(k - 1).push(acc@[k - 1]));
        }
        assert(acc@.take(acc.len() as int) =~= acc@);
        assert(nat_digits(m as nat) == nat_digits((m / 10) as nat).push(digit_char((m % 10) as int)));
        acc = next;
        m = m / 10;
        assert(nat_digits(n as nat) =~= nat_digits(m as nat) + acc@);
    }
    let c = char_of_digit(m as u32);
    let mut r: Vec<char> = Vec::new();
    r.push(c);
    let mut k: usize = 0;
    while k < acc.len()
        invariant
            k <= acc.len(),
            r@ == seq![c] + acc@.take(k as int),
        decreases acc.len() - k,
    {
        r.push(acc[k]);
        k += 1;
        assert(acc@.take(k as int) =~= acc@.take(k - 1).push(acc@[k - 1]));
    }
    assert(acc@.take(acc.len() as int) =~= acc@);
    assert(nat_digits(m as nat) == seq![c]);
    r
}

fn char_of_digit(d: u32) -> (c: char)
    requires
        d < 10,
    ensures
        c == digit_char(d as int),
{
    if d == 0 {
        '0'
    } else if d == 1 {
        '1'
    } else if d == 2 {
        '2'
    } else if d == 3 {
        '3'
    } else if d == 4 {
        '4'
    } else if d == 5 {
        '5'
    } else if d == 6 {
        '6'
    } else if d == 7 {
        '7'
    } else if d == 8 {
        '8'
    } else {
        '9'
    }
}

/// `i64::to_string` as characters.
pub fn i64_decimal(n: i64) -> (r: Vec<char>)
    ensures
        r@ == decimal(n as int),
{
    if n < 0 {
        let abs: u64 = if n == i64::MIN {
            9223372036854775808u64
        } else {
            (-n) as u64
        };
        let digits = u64_digits(abs);
        let mut r: Vec<char> = Vec::new();
        r.push('-');
        let mut k: usize = 0;
        while k < digits.len()
            invariant
                k <= digits.len(),
                r@ == seq!['-'] + digits@.take(k as int),
            decreases digits.len() - k,
        {
            r.push(digits[k]);
            k += 1;
            assert(digits@.take(k as int) =~= digits@.take(k - 1).push(digits@[k - 1]));
        }
        assert(digits@.take(digits.len() as int) =~= digits@);
        r
    } else {
        u64_digits(n as u64)
    }
}

/// `u64::to_string` as characters.
pub fn u64_decimal(n: u64) -> (r: Vec<char>)
    ensures
        r@ == nat_digits(n as nat),
{
    u64_digits(n)
}

/// `usize::to_string` as characters.
pub fn usize_decimal(n: usize) -> (r: Vec<char>)
    ensures
        r@ == nat_digits(n as nat),
{
    u64_digits(n as u64)
}

} // verus!
