use weatherbot::chunker::chunk_message;
use weatherbot::chunker::CHUNK_LIMIT;

#[test]
fn chunks_concatenate_back_to_the_text() {
    let text = "abcdefghij";
    let chunks = chunk_message(text, 3);
    assert_eq!(chunks, vec!["abc", "def", "ghi", "j"]);
    let joined: String = chunks.concat();
    assert_eq!(joined, text);
    assert!(chunks.iter().all(|c| c.chars().count() <= 3));
}

#[test]
fn empty_text_yields_no_chunks() {
    let chunks = chunk_message("", 400);
    assert!(chunks.is_empty());
}

#[test]
fn text_at_the_limit_is_one_chunk() {
    let text = "x".repeat(400);
    let chunks = chunk_message(&text, CHUNK_LIMIT);
    assert_eq!(chunks.len(), 1);
    assert_eq!(chunks[0], text);
}

#[test]
fn text_over_the_limit_splits_in_order() {
    let text = "y".repeat(401);
    let chunks = chunk_message(&text, CHUNK_LIMIT);
    assert_eq!(chunks.len(), 2);
    assert_eq!(chunks[0].chars().count(), 400);
    assert_eq!(chunks[1], "y");
    assert_eq!(chunks.concat(), text);
}

#[test]
fn chunking_counts_characters_not_bytes() {
    // Five two-or-more-byte characters, limit two: split by character.
    let text = "\u{b0}\u{2022}\u{f8ff}\u{201a}\u{e8}";
    let chunks = chunk_message(text, 2);
    assert_eq!(chunks.len(), 3);
    assert_eq!(chunks[0], "\u{b0}\u{2022}");
    assert_eq!(chunks[1], "\u{f8ff}\u{201a}");
    assert_eq!(chunks[2], "\u{e8}");
    assert_eq!(chunks.concat(), text);
}

#[test]
fn one_character_chunks() {
    let chunks = chunk_message("abc", 1);
    assert_eq!(chunks, vec!["a", "b", "c"]);
}
