//! Splitting text into UTF-16 chunks for Unicode keystroke injection.
//! Control characters are skipped and counted; chunks are built from whole
//! characters, so a surrogate pair is never split across two chunks.

use vstd::prelude::*;

use crate::text::chars_of;

verus! {

/// At most this many UTF-16 code units go into one injected event.
pub const MAX_CHUNK_UNITS: usize = 20;

/// `char::is_control`: the Unicode general category `Cc`.
pub open spec fn is_control(c: char) -> bool {
    let u = c as u32;
    u <= 0x1f || (0x7f <= u && u <= 0x9f)
}

/// `char::encode_utf16`: one code unit below U+10000, a surrogate pair
/// above.
pub open spec fn utf16_of(c: char) -> Seq<u16> {
    let u = c as u32;
    if u < 0x10000 {
        seq![u as u16]
    } else {
        let v = u - 0x10000;
        seq![(0xd800 + v / 1024) as u16, (0xdc00 + v % 1024) as u16]
    }
}

/// The UTF-16 encoding of a character sequence.
pub open spec fn encode(cs: Seq<char>) -> Seq<u16>
    decreases cs.len(),
{
    if cs.len() == 0 {
        Seq::empty()
    } else {
        encode(cs.drop_last()) + utf16_of(cs.last())
    }
}

/// The characters of `cs` that are not control characters.
pub open spec fn printable(cs: Seq<char>) -> Seq<char>
    decreases cs.len(),
{
    if cs.len() == 0 {
        Seq::empty()
    } else if is_control(cs.last()) {
        printable(cs.drop_last())
    } else {
        printable(cs.drop_last()).push(cs.last())
    }
}

/// How many characters of `cs` are control characters.
pub open spec fn control_count(cs: Seq<char>) -> nat
    decreases cs.len(),
{
    if cs.len() == 0 {
        0
    } else {
        control_count(cs.drop_last()) + if is_control(cs.last()) {
            1nat
        } else {
            0nat
        }
    }
}

/// Greedy packing of the printable characters into runs: the closed runs
/// and the run still being filled. A character that would push a
/// non-empty run past `max` units starts a new run.
pub open spec fn runs_state(cs: Seq<char>, max: nat) -> (Seq<Seq<char>>, Seq<char>)
    decreases cs.len(),
{
    if cs.len() == 0 {
        (Seq::empty(), Seq::empty())
    } else {
        let (done, cur) = runs_state(cs.drop_last(), max);
        let c = cs.last();
        if is_control(c) {
            (done, cur)
        } else if encode(cur).len() + utf16_of(c).len() > max && cur.len() > 0 {
            (done.push(cur), seq![c])
        } else {
            (done, cur.push(c))
        }
    }
}

/// The runs of characters that make up the chunks.
pub open spec fn runs(cs: Seq<char>, max: nat) -> Seq<Seq<char>> {
    let (done, cur) = runs_state(cs, max);
    if cur.len() > 0 {
        done.push(cur)
    } else {
        done
    }
}

/// The chunks: each run, encoded.
pub open spec fn chunks_spec(cs: Seq<char>, max: nat) -> Seq<Seq<u16>> {
    Seq::new(runs(cs, max).len(), |i: int| encode(runs(cs, max)[i]))
}

/// The runs of characters, concatenated.
pub open spec fn concat_runs(rs: Seq<Seq<char>>) -> Seq<char>
    decreases rs.len(),
{
    if rs.len() == 0 {
        Seq::empty()
    } else {
        concat_runs(rs.drop_last()) + rs.last()
    }
}

/// The chunks, concatenated.
pub open spec fn concat_units(rs: Seq<Seq<u16>>) -> Seq<u16>
    decreases rs.len(),
{
    if rs.len() == 0 {
        Seq::empty()
    } else {
        concat_units(rs.drop_last()) + rs.last()
    }
}

pub open spec fn views16(v: Seq<Vec<u16>>) -> Seq<Seq<u16>> {
    Seq::new(v.len(), |i: int| v[i]@)
}

// ---------------------------------------------------------------------
// Laws
// ---------------------------------------------------------------------

proof fn lemma_encode_len(cs: Seq<char>)
    ensures
        encode(cs).len() >= cs.len(),
    decreases cs.len(),
{
    if cs.len() > 0 {
        lemma_encode_len(cs.drop_last());
    }
}

proof fn lemma_encode_single(c: char)
    ensures
        encode(seq![c]) == utf16_of(c),
{
    assert(seq![c].drop_last() =~= Seq::<char>::empty());
    assert(encode(Seq::<char>::empty()) =~= Seq::<u16>::empty());
    assert(Seq::<u16>::empty() + utf16_of(c) =~= utf16_of(c));
}

proof fn lemma_encode_push(cs: Seq<char>, c: char)
    ensures
        encode(cs.push(c)) == encode(cs) + utf16_of(c),
{
    assert(cs.push(c).drop_last() =~= cs);
}

proof fn lemma_encode_concat(a: Seq<char>, b: Seq<char>)
    ensures
        encode(a + b) == encode(a) + encode(b),
    decreases b.len(),
{
    if b.len() == 0 {
        assert(a + b =~= a);
        assert(encode(a) + encode(b) =~= encode(a));
    } else {
        lemma_encode_concat(a, b.drop_last());
        assert((a + b).drop_last() =~= a + b.drop_last());
        assert(encode(a + b) =~= encode(a) + encode(b));
    }
}

proof fn lemma_runs_state(cs: Seq<char>, max: nat)
    ensures
        concat_runs(runs_state(cs, max).0) + runs_state(cs, max).1 == printable(cs),
        forall|i: int|
            0 <= i < runs_state(cs, max).0.len() ==> (#[trigger] runs_state(cs, max).0[i]).len()
                > 0,
        max >= 2 ==> forall|i: int|
            0 <= i < runs_state(cs, max).0.len() ==> encode(
                #[trigger] runs_state(cs, max).0[i],
            ).len() <= max,
        max >= 2 ==> encode(runs_state(cs, max).1).len() <= max,
    decreases cs.len(),
{
    if cs.len() == 0 {
        assert(concat_runs(Seq::<Seq<char>>::empty()) + Seq::<char>::empty() =~= Seq::<char>::empty());
    } else {
        let prev = cs.drop_last();
        lemma_runs_state(prev, max);
        let (done, cur) = runs_state(prev, max);
        let c = cs.last();
        if is_control(c) {
        } else if encode(cur).len() + utf16_of(c).len() > max && cur.len() > 0 {
            let d2 = done.push(cur);
            assert(d2.drop_last() =~= done);
            assert(concat_runs(d2) + seq![c] =~= (concat_runs(done) + cur).push(c));
            lemma_encode_single(c);
        } else {
            assert(concat_runs(done) + cur.push(c) =~= (concat_runs(done) + cur).push(c));
            lemma_encode_push(cur, c);
            if cur.len() == 0 {
                assert(cur =~= Seq::<char>::empty());
            } else {
                lemma_encode_len(cur);
            }
        }
    }
}

/// The chunks hold exactly the printable characters, in order: joined back
/// together they are the UTF-16 encoding of the text without its control
/// characters.
pub proof fn lemma_chunks_reassemble(cs: Seq<char>, max: nat)
    ensures
        concat_runs(runs(cs, max)) == printable(cs),
        concat_units(chunks_spec(cs, max)) == encode(printable(cs)),
{
    lemma_runs_state(cs, max);
    let (done, cur) = runs_state(cs, max);
    let rs = runs(cs, max);
    if cur.len() > 0 {
        assert(rs.drop_last() =~= done);
    } else {
        assert(cur =~= Seq::<char>::empty());
        assert(concat_runs(done) + cur =~= concat_runs(done));
    }
    lemma_concat_encodes(rs);
}

proof fn lemma_concat_encodes(rs: Seq<Seq<char>>)
    ensures
        concat_units(Seq::new(rs.len(), |i: int| encode(rs[i]))) == encode(concat_runs(rs)),
    decreases rs.len(),
{
    let es = Seq::new(rs.len(), |i: int| encode(rs[i]));
    if rs.len() == 0 {
        assert(encode(Seq::<char>::empty()) =~= Seq::<u16>::empty());
    } else {
        let prev = rs.drop_last();
        lemma_concat_encodes(prev);
        assert(es.drop_last() =~= Seq::new(prev.len(), |i: int| encode(prev[i])));
        lemma_encode_concat(concat_runs(prev), rs.last());
    }
}

proof fn lemma_printable_is_a_filter(cs: Seq<char>, p: spec_fn(char) -> bool)
    requires
        forall|c: char| #[trigger] p(c) == !is_control(c),
    ensures
        printable(cs) == cs.filter(p),
        control_count(cs) + printable(cs).len() == cs.len(),
    decreases cs.len(),
{
    reveal(Seq::filter);
    if cs.len() > 0 {
        lemma_printable_is_a_filter(cs.drop_last(), p);
        assert(p(cs.last()) == !is_control(cs.last()));
    }
}

/// Only Unicode control characters (`Cc`: U+0000 to U+001F and U+007F to
/// U+009F) are skipped, and each of them is: the chunks joined back
/// together are the UTF-16 of the text with exactly those characters taken
/// out (a space, or any other character, is typed), and the count returned
/// is how many were taken out.
pub proof fn lemma_only_control_characters_are_skipped(cs: Seq<char>, max: nat)
    ensures
        concat_units(chunks_spec(cs, max)) == encode(
            cs.filter(|c: char| !((c as u32) <= 0x1f || (0x7f <= (c as u32) && (c as u32) <= 0x9f))),
        ),
        control_count(cs) + cs.filter(
            |c: char| !((c as u32) <= 0x1f || (0x7f <= (c as u32) && (c as u32) <= 0x9f)),
        ).len() == cs.len(),
{
    let p = |c: char| !((c as u32) <= 0x1f || (0x7f <= (c as u32) && (c as u32) <= 0x9f));
    lemma_printable_is_a_filter(cs, p);
    lemma_chunks_reassemble(cs, max);
}

/// No chunk is empty, and with room for a surrogate pair (`max >= 2`) no
/// chunk is longer than `max` code units. Each chunk is the encoding of
/// whole characters (see [`chunks_spec`]), so no surrogate pair is split.
pub proof fn lemma_chunks_bounded(cs: Seq<char>, max: nat)
    ensures
        forall|i: int| 0 <= i < chunks_spec(cs, max).len() ==> (#[trigger] chunks_spec(cs, max)[i]).len() > 0,
        max >= 2 ==> forall|i: int|
            0 <= i < chunks_spec(cs, max).len() ==> (#[trigger] chunks_spec(cs, max)[i]).len()
                <= max,
{
    lemma_runs_state(cs, max);
    let (done, cur) = runs_state(cs, max);
    let rs = runs(cs, max);
    assert forall|i: int| 0 <= i < rs.len() implies (#[trigger] rs[i]).len() > 0 && (max >= 2
        ==> encode(rs[i]).len() <= max) by {
        if i < done.len() {
            assert(rs[i] == done[i]);
        } else {
            assert(rs[i] == cur);
        }
    }
    assert forall|i: int| 0 <= i < rs.len() implies encode(#[trigger] rs[i]).len() > 0 by {
        lemma_encode_len(rs[i]);
    }
}

// ---------------------------------------------------------------------
// Executable
// ---------------------------------------------------------------------

fn encode_char(c: char) -> (r: Vec<u16>)
    ensures
        r@ == utf16_of(c),
{
    let u = c as u32;
    let mut r: Vec<u16> = Vec::new();
    if u < 0x10000 {
        r.push(u as u16);
    } else {
        let v = u - 0x10000;
        assert(v < 0x100000) by {
            assert(u <= 0x10ffff);
        }
        r.push((0xd800 + v / 1024) as u16);
        r.push((0xdc00 + v % 1024) as u16);
    }
    assert(r@ =~= utf16_of(c));
    r
}

fn is_control_char(c: char) -> (b: bool)
    ensures
        b == is_control(c),
{
    let u = c as u32;
    u <= 0x1f || (0x7f <= u && u <= 0x9f)
}

/// Splits `text` into UTF-16 chunks of at most `max_units` code units each
/// (a lone surrogate pair when `max_units` is below 2), dropping control
/// characters and returning how many were dropped.
pub fn chunk_utf16(text: &str, max_units: usize) -> (r: (Vec<Vec<u16>>, usize))
    ensures
        views16(r.0@) == chunks_spec(text@, max_units as nat),
        r.1 == control_count(text@),
{
    let cs = chars_of(text);
    let ghost max = max_units as nat;
    let mut chunks: Vec<Vec<u16>> = Vec::new();
    let mut skipped: usize = 0;
    let mut current: Vec<u16> = Vec::new();
    let ghost mut done: Seq<Seq<char>> = Seq::empty();
    let ghost mut cur: Seq<char> = Seq::empty();
    let mut i: usize = 0;
    assert(views16(chunks@) =~= Seq::new(done.len(), |k: int| encode(done[k])));
    while i < cs.len()
        invariant
            i <= cs.len(),
            cs@ == text@,
            max == max_units as nat,
            (done, cur) == runs_state(cs@.take(i as int), max),
            views16(chunks@) == Seq::new(done.len(), |k: int| encode(done[k])),
            current@ == encode(cur),
            skipped == control_count(cs@.take(i as int)),
            skipped <= i,
        decreases cs.len() - i,
    {
        let c = cs[i];
        proof {
            assert(cs@.take(i + 1).drop_last() =~= cs@.take(i as int));
            assert(cs@.take(i + 1).last() == c);
        }
        if is_control_char(c) {
            skipped += 1;
        } else {
            let units = encode_char(c);
            if (units.len() > max_units || current.len() > max_units - units.len())
                && current.len() > 0 {
                proof {
                    lemma_encode_len(cur);
                    if cur.len() == 0 {
                        assert(cur =~= Seq::<char>::empty());
                    }
                }
                let ghost old_chunks = chunks@;
                let mut finished: Vec<u16> = Vec::new();
                std::mem::swap(&mut finished, &mut current);
                let ghost fv = finished@;
                chunks.push(finished);
                proof {
                    assert(views16(chunks@) =~= views16(old_chunks).push(fv));
                    done = done.push(cur);
                    cur = seq![c];
                    assert(views16(chunks@) =~= Seq::new(done.len(), |k: int| encode(done[k])));
                    lemma_encode_single(c);
                    assert(current@ =~= Seq::<u16>::empty());
                    assert(encode(cur) =~= current@ + utf16_of(c));
                }
            } else {
                proof {
                    lemma_encode_len(cur);
                    if current.len() == 0 {
                        assert(cur.len() == 0);
                    }
                    lemma_encode_push(cur, c);
                    cur = cur.push(c);
                }
            }
            let ghost before = current@;
            assert(encode(cur) == before + utf16_of(c));
            let mut k: usize = 0;
            while k < units.len()
                invariant
                    k <= units.len(),
                    current@ == before + units@.take(k as int),
                decreases units.len() - k,
            {
                current.push(units[k]);
                k += 1;
                assert(units@.take(k as int) =~= units@.take(k - 1).push(units@[k - 1]));
            }
            assert(units@.take(units.len() as int) =~= units@);
            assert(current@ =~= encode(cur));
        }
        i += 1;
    }
    assert(cs@.take(cs.len() as int) =~= cs@);
    if current.len() > 0 {
        let ghost old_chunks = chunks@;
        let ghost fv = current@;
        chunks.push(current);
        proof {
            assert(cur.len() > 0) by {
                if cur.len() == 0 {
                    assert(cur =~= Seq::<char>::empty());
                }
            }
            assert(views16(chunks@) =~= views16(old_chunks).push(fv));
            assert(views16(chunks@) =~= chunks_spec(text@, max));
        }
    } else {
        proof {
            lemma_encode_len(cur);
            assert(views16(chunks@) =~= chunks_spec(text@, max));
        }
    }
    (chunks, skipped)
}

} // verus!
