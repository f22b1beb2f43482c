//! Document ingestion, up to the vector store: cutting a document into
//! chunks (by `text_splitter`) and grouping the chunks into the batches that
//! are embedded and stored together.

use vstd::prelude::*;
use crate::text::{nested_texts, texts};

verus! {

/// The size of a chunk, in characters.
pub const CHUNK_CAPACITY: usize = 1000;

/// How many characters neighbouring chunks share.
pub const CHUNK_OVERLAP: usize = 100;

/// How many chunks are embedded and stored at once.
pub const BATCH_SIZE: usize = 32;

/// The chunks that `text_splitter` cuts a document into, by characters, with
/// the given capacity and overlap, trimmed of surrounding whitespace or not.
/// `None` where the overlap is not below the capacity.
pub uninterp spec fn text_chunks(
    document: Seq<char>,
    capacity: nat,
    overlap: nat,
    trim: bool,
) -> Option<Seq<Seq<char>>>;

/// Builds a `text_splitter::ChunkConfig` for sizes in characters with
/// `ChunkConfig::new`, `with_overlap` and `with_trim`, and collects what
/// `TextSplitter::chunks` hands out. Trusted: the chunks depend on the four
/// arguments alone, and there are none exactly where `with_overlap` refuses
/// the overlap, which is where it is not below the capacity.
#[verifier::external_body]
fn split_text(document: &str, capacity: usize, overlap: usize, trim: bool) -> (r: Option<
    Vec<String>,
>)
    ensures
        match r {
            Some(chunks) => text_chunks(document@, capacity as nat, overlap as nat, trim) == Some(
                texts(chunks@),
            ),
            None => text_chunks(document@, capacity as nat, overlap as nat, trim) is None,
        },
        r is Some <==> overlap < capacity,
{
    let config = text_splitter::ChunkConfig::new(capacity).with_overlap(overlap).ok()?;
    let splitter = text_splitter::TextSplitter::new(config.with_trim(trim));
    Some(splitter.chunks(document).map(String::from).collect())
}

/// Cuts a document into trimmed chunks of up to [`CHUNK_CAPACITY`]
/// characters, neighbours sharing up to [`CHUNK_OVERLAP`].
pub fn chunk_document(document: &str) -> (r: Vec<String>)
    ensures
        text_chunks(document@, CHUNK_CAPACITY as nat, CHUNK_OVERLAP as nat, true) == Some(
            texts(r@),
        ),
{
    match split_text(document, CHUNK_CAPACITY, CHUNK_OVERLAP, true) {
        Some(chunks) => chunks,
        None => Vec::new(),
    }
}

/// `items` cut into consecutive groups of `size`; the last group holds what
/// is left, at least one item.
pub open spec fn batched<T>(items: Seq<T>, size: nat) -> Seq<Seq<T>>
    decreases items.len(),
{
    if items.len() == 0 || size == 0 {
        Seq::empty()
    } else if items.len() <= size {
        seq![items]
    } else {
        seq![items.take(size as int)] + batched(items.skip(size as int), size)
    }
}

/// Groups `chunks` into batches of `size`, in order.
pub fn batches(chunks: &Vec<String>, size: usize) -> (r: Vec<Vec<String>>)
    requires
        size > 0,
    ensures
        nested_texts(r@) == batched(texts(chunks@), size as nat),
{
    let mut out: Vec<Vec<String>> = Vec::new();
    let ghost all = texts(chunks@);
    let mut i: usize = 0;
    assert(all.skip(0) =~= all);
    assert(nested_texts(out@) + batched(all, size as nat) =~= batched(all, size as nat));
    while i < chunks.len()
        invariant
            i <= chunks.len(),
            size > 0,
            all == texts(chunks@),
            batched(all, size as nat) == nested_texts(out@) + batched(
                all.skip(i as int),
                size as nat,
            ),
        decreases chunks.len() - i,
    {
        let left = chunks.len() - i;
        let count = if left < size {
            left
        } else {
            size
        };
        let mut batch: Vec<String> = Vec::new();
        let mut k: usize = 0;
        while k < count
            invariant
                k <= count,
                i + count <= chunks.len(),
                all == texts(chunks@),
                batch.len() == k,
                forall|j: int| 0 <= j < k ==> (#[trigger] batch[j])@ == chunks[i + j]@,
            decreases count - k,
        {
            batch.push(chunks[i + k].clone());
            k = k + 1;
        }
        assert(texts(batch@) =~= all.subrange(i as int, i + count));
        let ghost rest = all.skip(i as int);
        let ghost done = nested_texts(out@);
        assert(texts(batch@) =~= rest.take(count as int));
        proof {
            if left <= size {
                assert(rest.take(count as int) =~= rest);
                assert(rest.skip(count as int) =~= Seq::<Seq<char>>::empty());
                assert(all.skip(i + count) =~= Seq::<Seq<char>>::empty());
                assert(batched(all.skip(i + count), size as nat) =~= Seq::<
                    Seq<Seq<char>>,
                >::empty());
            } else {
                assert(rest.skip(size as int) =~= all.skip(i + count));
            }
            assert(batched(rest, size as nat) =~= seq![texts(batch@)] + batched(
                all.skip(i + count),
                size as nat,
            ));
        }
        out.push(batch);
        assert(nested_texts(out@) =~= done + seq![texts(batch@)]);
        assert(batched(all, size as nat) =~= nested_texts(out@) + batched(
            all.skip(i + count),
            size as nat,
        ));
        i = i + count;
    }
    assert(all.skip(chunks.len() as int) =~= Seq::<Seq<char>>::empty());
    assert(nested_texts(out@) + Seq::<Seq<Seq<char>>>::empty() =~= nested_texts(out@));
    out
}

/// The batches in which a document is embedded and stored: its chunks, in
/// groups of [`BATCH_SIZE`].
pub fn ingest_document(document: &str) -> (r: Vec<Vec<String>>)
    ensures
        text_chunks(document@, CHUNK_CAPACITY as nat, CHUNK_OVERLAP as nat, true) matches Some(
            chunks,
        ) && nested_texts(r@) == batched(chunks, BATCH_SIZE as nat),
{
    let chunks = chunk_document(document);
    batches(&chunks, BATCH_SIZE)
}

/// How many chunks of a batch are stored, given how many vectors the
/// embedding gave for it: chunks and vectors are paired off in order, so the
/// shorter of the two decides, and no vector means nothing is stored.
pub fn stored_count(batch_len: usize, vector_count: usize) -> (r: usize)
    ensures
        r == if vector_count < batch_len {
            vector_count
        } else {
            batch_len
        },
{
    if vector_count < batch_len {
        vector_count
    } else {
        batch_len
    }
}

/// Batching loses nothing and reorders nothing: the batches, written one
/// after another, are the items; every batch but the last is full, and none
/// is empty.
pub proof fn lemma_batched<T>(items: Seq<T>, size: nat)
    requires
        size > 0,
    ensures
        batched(items, size).flatten() == items,
        forall|b: int|
            0 <= b < batched(items, size).len() ==> 0 < (#[trigger] batched(items, size)[b]).len()
                <= size,
        forall|b: int|
            0 <= b < batched(items, size).len() - 1 ==> (#[trigger] batched(items, size)[b]).len()
                == size,
    decreases items.len(),
{
    broadcast use vstd::seq_lib::group_seq_properties;

    if items.len() == 0 {
        assert(batched(items, size).flatten() =~= items);
    } else if items.len() <= size {
        assert(seq![items].flatten() =~= items) by {
            assert(seq![items].drop_first() =~= Seq::<Seq<T>>::empty());
            assert(seq![items].first() == items);
            assert(Seq::<Seq<T>>::empty().flatten() =~= Seq::<T>::empty());
        }
    } else {
        let head = items.take(size as int);
        let tail = items.skip(size as int);
        lemma_batched(tail, size);
        let all = seq![head] + batched(tail, size);
        assert(all.first() == head);
        assert(all.drop_first() =~= batched(tail, size));
        assert(all.flatten() =~= head + batched(tail, size).flatten());
        assert(head + tail =~= items);
        assert forall|b: int| 0 <= b < all.len() implies 0 < (#[trigger] all[b]).len() <= size by {
            if b > 0 {
                assert(all[b] == batched(tail, size)[b - 1]);
            }
        }
        assert forall|b: int| 0 <= b < all.len() - 1 implies (#[trigger] all[b]).len() == size by {
            if b > 0 {
                assert(all[b] == batched(tail, size)[b - 1]);
            }
        }
    }
}

} // verus!
