//! A streaming digest computation: fresh state, absorb chunks, finish to hex.
//!
//! The session is the compute half of file digesting: a caller reads a file in
//! chunks of its chosen size and absorbs each chunk; the digest depends only
//! on the concatenation of the absorbed bytes, never on the chunking.

use vstd::prelude::*;
use crate::algorithm::Algorithm;
use crate::hex::{hex_of_bytes, is_hex_char, lemma_hex_of_bytes_is_hex, encode_hex};
use crate::primitives::{
    HasherState, hasher_fed, hasher_tag, raw_digest, blake3_fed, blake3_digest, alg_tag,
    tag_digest_len, new_md5, new_sha1, new_sha256, new_sha512, new_sha3_256, new_blake2b,
    new_blake2s, new_blake3, hasher_update, blake3_update, hasher_finalize, blake3_finalize,
};

verus! {

/// The digest bytes an algorithm produces over an input.
pub open spec fn digest_bytes_of(a: Algorithm, input: Seq<u8>) -> Seq<u8> {
    match a {
        Algorithm::Blake3 => blake3_digest(input),
        _ => raw_digest(alg_tag(a), input),
    }
}

/// The hex string an algorithm's digest renders to: the observable result of
/// every digest operation of this crate.
pub open spec fn digest_string(a: Algorithm, input: Seq<u8>) -> Seq<char> {
    hex_of_bytes(digest_bytes_of(a, input))
}

/// The views of a list of chunks.
pub open spec fn views_of(chunks: Seq<Vec<u8>>) -> Seq<Seq<u8>> {
    chunks.map_values(|c: Vec<u8>| c@)
}

/// The concatenation of a list of chunks, in order.
pub open spec fn flatten_chunks(chunks: Seq<Seq<u8>>) -> Seq<u8>
    decreases chunks.len(),
{
    if chunks.len() == 0 {
        Seq::empty()
    } else {
        flatten_chunks(chunks.drop_last()) + chunks.last()
    }
}

/// Appending one chunk extends the concatenation by exactly that chunk.
pub proof fn lemma_flatten_chunks_push(chunks: Seq<Seq<u8>>, c: Seq<u8>)
    ensures
        flatten_chunks(chunks.push(c)) == flatten_chunks(chunks) + c,
{
    assert(chunks.push(c).drop_last() =~= chunks);
}

enum SessionState {
    Shared(HasherState),
    Native(blake3::Hasher),
}

/// An in-progress digest over one algorithm: absorbs byte chunks, then
/// finishes to the hex digest of everything absorbed.
pub struct DigestSession {
    algorithm: Algorithm,
    state: SessionState,
}

impl DigestSession {
    /// The bytes absorbed so far.
    pub closed spec fn view(&self) -> Seq<u8> {
        match self.state {
            SessionState::Shared(h) => hasher_fed(h),
            SessionState::Native(h) => blake3_fed(h),
        }
    }

    /// The algorithm this session digests with.
    pub closed spec fn alg(&self) -> Algorithm {
        self.algorithm
    }

    /// The session's state holds the primitive of its algorithm.
    pub closed spec fn wf(&self) -> bool {
        match self.state {
            SessionState::Shared(h) => self.algorithm != Algorithm::Blake3 && hasher_tag(h)
                == alg_tag(self.algorithm),
            SessionState::Native(_) => self.algorithm == Algorithm::Blake3,
        }
    }

    /// Start a digest: a fresh primitive that has absorbed nothing.
    pub fn new(algorithm: Algorithm) -> (s: Self)
        ensures
            s.wf(),
            s.alg() == algorithm,
            s@ == Seq::<u8>::empty(),
    {
        let state = match algorithm {
            Algorithm::MD5 => SessionState::Shared(new_md5()),
            Algorithm::SHA1 => SessionState::Shared(new_sha1()),
            Algorithm::SHA256 => SessionState::Shared(new_sha256()),
            Algorithm::SHA512 => SessionState::Shared(new_sha512()),
            Algorithm::SHA3_256 => SessionState::Shared(new_sha3_256()),
            Algorithm::Blake2b => SessionState::Shared(new_blake2b()),
            Algorithm::Blake2s => SessionState::Shared(new_blake2s()),
            Algorithm::Blake3 => SessionState::Native(new_blake3()),
        };
        DigestSession { algorithm, state }
    }

    /// Absorb one chunk: exactly these bytes follow what was absorbed before.
    pub fn update(self, chunk: &[u8]) -> (s: Self)
        requires
            self.wf(),
        ensures
            s.wf(),
            s.alg() == self.alg(),
            s@ == self@ + chunk@,
    {
        let algorithm = self.algorithm;
        match self.state {
            SessionState::Shared(mut h) => {
                hasher_update(&mut h, chunk);
                DigestSession { algorithm, state: SessionState::Shared(h) }
            },
            SessionState::Native(mut h) => {
                blake3_update(&mut h, chunk);
                DigestSession { algorithm, state: SessionState::Native(h) }
            },
        }
    }

    /// Finish: the lowercase hex digest of all absorbed bytes, twice the
    /// algorithm's digest length, hex digits only.
    pub fn finish(self) -> (r: String)
        requires
            self.wf(),
        ensures
            r@ == digest_string(self.alg(), self@),
            r@.len() == 2 * self.alg().digest_len(),
            forall|i: int| 0 <= i < r@.len() ==> is_hex_char(#[trigger] r@[i]),
    {
        let ghost a = self.alg();
        let ghost fed = self@;
        let bytes = match self.state {
            SessionState::Shared(h) => {
                proof {
                    lemma_tag_digest_len_agrees(a);
                }
                hasher_finalize(h)
            },
            SessionState::Native(h) => blake3_finalize(h),
        };
        proof {
            assert(bytes@ == digest_bytes_of(a, fed));
            lemma_hex_of_bytes_is_hex(bytes@);
        }
        encode_hex(bytes.as_slice())
    }
}

/// For the shared-interface algorithms, the tag's output size is the
/// algorithm's digest length.
proof fn lemma_tag_digest_len_agrees(a: Algorithm)
    requires
        a != Algorithm::Blake3,
    ensures
        tag_digest_len(alg_tag(a)) == a.digest_len(),
{
    match a {
        Algorithm::MD5 => {},
        Algorithm::SHA1 => {},
        Algorithm::SHA256 => {},
        Algorithm::SHA512 => {},
        Algorithm::SHA3_256 => {},
        Algorithm::Blake2b => {},
        Algorithm::Blake2s => {},
        Algorithm::Blake3 => {},
    }
}

} // verus!
