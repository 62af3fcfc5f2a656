//! The guarantees that relate the digest operations to one another. Every
//! digest operation of this crate ensures that its result equals
//! [`digest_string`] of the algorithm and the input bytes, so these statements
//! carry over to any pair of calls.

use vstd::prelude::*;
use crate::algorithm::Algorithm;
use crate::session::{digest_string, flatten_chunks};

verus! {

/// Determinism: two digests of the same input with the same algorithm are
/// the identical string.
pub proof fn lemma_digest_deterministic(
    a: Algorithm,
    input: Seq<u8>,
    r1: Seq<char>,
    r2: Seq<char>,
)
    requires
        r1 == digest_string(a, input),
        r2 == digest_string(a, input),
    ensures
        r1 == r2,
{
}

/// File/byte equivalence: a digest computed chunk by chunk (as over a file)
/// and a digest of the whole byte sequence agree whenever the chunks
/// concatenate to that sequence.
pub proof fn lemma_file_byte_equivalence(
    a: Algorithm,
    chunks: Seq<Seq<u8>>,
    whole: Seq<u8>,
    chunked_result: Seq<char>,
    whole_result: Seq<char>,
)
    requires
        flatten_chunks(chunks) == whole,
        chunked_result == digest_string(a, flatten_chunks(chunks)),
        whole_result == digest_string(a, whole),
    ensures
        chunked_result == whole_result,
{
}

/// Chunk-size invariance: any two chunkings of the same content digest to the
/// identical string, whatever buffer size produced them.
pub proof fn lemma_chunk_size_invariance(a: Algorithm, chunks1: Seq<Seq<u8>>, chunks2: Seq<Seq<u8>>)
    requires
        flatten_chunks(chunks1) == flatten_chunks(chunks2),
    ensures
        digest_string(a, flatten_chunks(chunks1)) == digest_string(a, flatten_chunks(chunks2)),
{
}

/// Empty input: a digest over no chunks (a zero-length file) is the digest of
/// the empty byte sequence.
pub proof fn lemma_empty_input(a: Algorithm)
    ensures
        digest_string(a, flatten_chunks(Seq::<Seq<u8>>::empty())) == digest_string(
            a,
            Seq::<u8>::empty(),
        ),
{
}

} // verus!
