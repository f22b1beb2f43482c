use app_core::ingestion::{
    batches, chunk_document, ingest_document, stored_count, BATCH_SIZE, CHUNK_CAPACITY,
    CHUNK_OVERLAP,
};

fn numbered(n: usize) -> Vec<String> {
    (0..n).map(|i| format!("c{}", i)).collect()
}

#[test]
fn constants() {
    assert_eq!(CHUNK_CAPACITY, 1000);
    assert_eq!(CHUNK_OVERLAP, 100);
    assert_eq!(BATCH_SIZE, 32);
}

#[test]
fn short_document_is_one_trimmed_chunk() {
    assert_eq!(
        chunk_document("  Some text\n\nfrom a\ndocument \n"),
        vec!["Some text\n\nfrom a\ndocument".to_string()]
    );
}

#[test]
fn empty_document_has_no_chunks() {
    assert!(chunk_document("").is_empty());
    assert!(ingest_document("").is_empty());
}

#[test]
fn long_document_is_cut_into_chunks_within_capacity() {
    let sentence = "The quick brown fox jumps over the lazy dog. ";
    let document: String = sentence.repeat(100);
    let chunks = chunk_document(&document);
    assert!(chunks.len() >= 5);
    for chunk in &chunks {
        assert!(chunk.chars().count() <= 1000);
        assert!(!chunk.is_empty());
        assert_eq!(chunk.trim(), chunk);
        assert!(document.contains(chunk.as_str()));
    }
    assert!(chunks[0].starts_with("The quick brown fox"));
    assert_ne!(chunks[0], document);
}

#[test]
fn batches_are_consecutive_groups() {
    let chunks = numbered(7);
    assert_eq!(
        batches(&chunks, 3),
        vec![
            vec!["c0".to_string(), "c1".to_string(), "c2".to_string()],
            vec!["c3".to_string(), "c4".to_string(), "c5".to_string()],
            vec!["c6".to_string()],
        ]
    );
}

#[test]
fn batches_of_an_exact_multiple_are_all_full() {
    let chunks = numbered(64);
    let groups = batches(&chunks, 32);
    assert_eq!(groups.len(), 2);
    assert_eq!(groups[0].len(), 32);
    assert_eq!(groups[1].len(), 32);
    assert_eq!(groups.concat(), chunks);
}

#[test]
fn batches_lose_and_reorder_nothing() {
    for n in [0usize, 1, 31, 32, 33, 100] {
        let chunks = numbered(n);
        let groups = batches(&chunks, 32);
        assert_eq!(groups.concat(), chunks);
        assert_eq!(groups.len(), (n + 31) / 32);
        for (i, group) in groups.iter().enumerate() {
            assert!(!group.is_empty());
            if i + 1 < groups.len() {
                assert_eq!(group.len(), 32);
            }
        }
    }
}

#[test]
fn batch_of_size_one() {
    assert_eq!(batches(&numbered(2), 1), vec![vec!["c0".to_string()], vec!["c1".to_string()]]);
}

#[test]
fn ingestion_batches_are_the_chunks_in_groups() {
    let document: String = "word ".repeat(10000);
    let chunks = chunk_document(&document);
    let groups = ingest_document(&document);
    assert!(chunks.len() > 32);
    assert_eq!(groups.concat(), chunks);
    assert_eq!(groups[0].len(), 32);
}

#[test]
fn chunks_and_vectors_are_paired_off() {
    assert_eq!(stored_count(32, 32), 32);
    assert_eq!(stored_count(32, 0), 0);
    assert_eq!(stored_count(5, 3), 3);
    assert_eq!(stored_count(3, 5), 3);
    assert_eq!(stored_count(0, 0), 0);
}
