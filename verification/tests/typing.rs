use context_password::platform::mac::typing::{chunk_utf16, MAX_CHUNK_UNITS};
#[test]
fn ascii_text_fits_in_one_chunk() {
    let (chunks, skipped) = chunk_utf16("hello", 20);
    assert_eq!(skipped, 0);
    assert_eq!(chunks, vec![vec![
        'h' as u16, 'e' as u16, 'l' as u16, 'l' as u16, 'o' as u16
    ]]);
}

#[test]
fn control_characters_are_skipped_and_counted() {
    let (chunks, skipped) = chunk_utf16("a\tb\nc", 20);
    assert_eq!(skipped, 2);
    let flat: Vec<u16> = chunks.into_iter().flatten().collect();
    assert_eq!(flat, vec!['a' as u16, 'b' as u16, 'c' as u16]);
}

#[test]
fn splits_into_multiple_chunks_at_the_boundary() {
    // Greedy packing: 2 units per chunk fits "ab" exactly, then "c"
    // starts a new chunk rather than being dropped or corrupted.
    let (chunks, _) = chunk_utf16("abc", 2);
    assert_eq!(chunks, vec![vec!['a' as u16, 'b' as u16], vec!['c' as u16]]);
}

/// The whole reason `chunk_utf16` builds from `char`s instead of raw
/// UTF-16 units: a naive `.encode_utf16().collect::<Vec<_>>().chunks(n)`
/// can slice a surrogate pair in half, corrupting a non-BMP character
/// (most emoji, some symbols) silently.
#[test]
fn never_splits_a_surrogate_pair_across_chunks() {
    // U+1F600 GRINNING FACE — a real 2-unit surrogate pair, not a
    // contrived example.
    let text = "a😀b";
    let (chunks, skipped) = chunk_utf16(text, 2);
    assert_eq!(skipped, 0);
    for chunk in &chunks {
        // Every chunk must decode back to whole chars — a split
        // surrogate pair would fail `char::decode_utf16` here.
        assert!(
            char::decode_utf16(chunk.iter().copied()).all(|r| r.is_ok()),
            "chunk {chunk:?} contains a split surrogate pair"
        );
    }
    let flat: Vec<u16> = chunks.into_iter().flatten().collect();
    assert_eq!(flat, text.encode_utf16().collect::<Vec<_>>());
}

#[test]
fn non_ascii_password_round_trips_through_chunking() {
    let text = "pässwörd–✓";
    let (chunks, skipped) = chunk_utf16(text, MAX_CHUNK_UNITS);
    assert_eq!(skipped, 0);
    let flat: Vec<u16> = chunks.into_iter().flatten().collect();
    let decoded: String = char::decode_utf16(flat).map(|r| r.unwrap()).collect();
    assert_eq!(decoded, text);
}

#[test]
fn empty_text_produces_no_chunks() {
    let (chunks, skipped) = chunk_utf16("", 20);
    assert!(chunks.is_empty());
    assert_eq!(skipped, 0);
}
