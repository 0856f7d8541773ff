use meeting_summarizer::text_processing::{find_sentence_end, split_text_into_chunks};

#[test]
fn test_split_small_text() {
    let text = "Short text";
    let chunks = split_text_into_chunks(text, 100);
    assert_eq!(chunks.len(), 1);
    assert_eq!(chunks[0], "Short text");
}

#[test]
fn test_split_at_sentence_boundary() {
    let text = "First sentence. Second sentence. Third sentence.";
    let chunks = split_text_into_chunks(text, 20);
    assert!(chunks.len() > 1);
    assert!(chunks[0].ends_with('.'));
}

#[test]
fn test_split_at_paragraph_boundary() {
    let text = "First paragraph.\n\nSecond paragraph.\n\nThird paragraph.";
    let chunks = split_text_into_chunks(text, 25);
    assert!(chunks.len() > 1);
}

#[test]
fn test_split_preserves_content() {
    let text = "This is a test. It has multiple sentences. Some are longer than others. The last one is short.";
    let chunks = split_text_into_chunks(text, 30);
    let reconstructed = chunks.join(" ").replace("  ", " ");
    let normalized_original = text.replace("  ", " ");
    assert_eq!(reconstructed.trim(), normalized_original.trim());
}

#[test]
fn test_split_respects_max_chars() {
    let text = "A".repeat(1000);
    let chunks = split_text_into_chunks(&text, 100);
    for chunk in &chunks {
        assert!(chunk.len() <= 100, "Chunk too long: {}", chunk.len());
    }
}

#[test]
fn test_find_sentence_end() {
    assert_eq!(find_sentence_end("Hello. World"), Some(5));
    assert_eq!(find_sentence_end("Hello? World"), Some(5));
    assert_eq!(find_sentence_end("Hello! World"), Some(5));
    assert_eq!(find_sentence_end("Hello.\nWorld"), Some(5));
    assert_eq!(find_sentence_end("No sentence end"), None);
}

#[test]
fn test_empty_text() {
    let chunks = split_text_into_chunks("", 100);
    assert_eq!(chunks.len(), 1);
    assert_eq!(chunks[0], "");
}

#[test]
fn test_whitespace_only() {
    let chunks = split_text_into_chunks("   \n\t  ", 100);
    assert_eq!(chunks.len(), 1);
    assert_eq!(chunks[0], "");
}

#[test]
fn test_split_breaks_after_terminator_not_mid_word() {
    let chunks = split_text_into_chunks("First sentence. Second sentence.", 20);
    assert_eq!(chunks[0], "First sentence.");
    assert_eq!(chunks[1], "Second sentence.");
}

#[test]
fn test_split_multibyte_characters_never_split() {
    let text = "ä".repeat(10);
    let chunks = split_text_into_chunks(&text, 3);
    for chunk in &chunks {
        assert!(chunk.chars().count() <= 3);
        assert!(chunk.chars().all(|c| c == 'ä'));
    }
    let total: usize = chunks.iter().map(|c| c.chars().count()).sum();
    assert_eq!(total, 10);
}

#[test]
fn test_split_latest_terminator_wins() {
    // Both a period-space and a question-space occur; the later one is the
    // break point.
    let chunks = split_text_into_chunks("One. Two? Three and more words here", 12);
    assert_eq!(chunks[0], "One. Two?");
}

#[test]
fn test_split_falls_back_to_space() {
    let chunks = split_text_into_chunks("alpha beta gamma delta", 11);
    assert_eq!(chunks[0], "alpha beta");
    assert_eq!(chunks[1], "gamma delta");
}

#[test]
fn test_split_hard_break_without_whitespace() {
    let text = "abcdefghij".repeat(3);
    let chunks = split_text_into_chunks(&text, 10);
    assert_eq!(chunks.len(), 3);
    for chunk in &chunks {
        assert_eq!(chunk, "abcdefghij");
    }
}

#[test]
fn test_split_minimum_chunk_size() {
    let chunks = split_text_into_chunks("abc", 1);
    assert_eq!(chunks, vec!["a", "b", "c"]);
}

#[test]
fn test_split_exact_fit_is_verbatim() {
    let text = " padded text ";
    let chunks = split_text_into_chunks(text, 13);
    assert_eq!(chunks.len(), 1);
    assert_eq!(chunks[0], " padded text ");
}
