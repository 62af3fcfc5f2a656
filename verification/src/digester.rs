//! The digester facade: immutable configuration, dispatch, and the two
//! in-memory digest operations. File contents reach it as chunks through
//! [`crate::session::DigestSession`] or [`Hashery::digest_chunks`].

use vstd::prelude::*;
use vstd::string::StringSliceAdditionalSpecFns;
use crate::algorithm::Algorithm;
use crate::hex::is_hex_char;
use crate::session::{
    DigestSession, digest_string, flatten_chunks, lemma_flatten_chunks_push, views_of,
};

verus! {

/// The read-buffer size used when none is configured: 1 MiB.
pub const DEFAULT_BUFFER_SIZE: usize = 1048576;

/// Rejected digester configuration.
#[derive(Debug, Clone, Copy, PartialEq, Eq, Structural)]
pub enum ConfigError {
    /// A zero-length read buffer would make the read loop degenerate.
    ZeroBufferSize,
    /// The algorithm's primitive is not in this build's capability set.
    UnsupportedAlgorithm,
}

/// Failure of a digest operation itself. Dispatch is exhaustive over the
/// capability set, so a digester built through [`Hashery::build`] never
/// produces one.
#[derive(Debug, Clone, Copy, PartialEq, Eq, Structural)]
pub enum DigestError {
    /// Dispatch reached an algorithm outside the capability set.
    UnsupportedAlgorithm,
}

/// Immutable digesting configuration: an algorithm and a read-buffer size.
#[derive(Debug)]
pub struct Hashery {
    algorithm: Algorithm,
    buffer_size: usize,
}

/// The buffer size a configuration asks for: the given one, or the default.
pub open spec fn requested_buffer_size(buffer_size: Option<usize>) -> usize {
    match buffer_size {
        Some(n) => n,
        None => DEFAULT_BUFFER_SIZE,
    }
}

impl Hashery {
    /// The configured algorithm.
    pub closed spec fn spec_algorithm(&self) -> Algorithm {
        self.algorithm
    }

    /// The configured read-buffer size.
    pub closed spec fn spec_buffer_size(&self) -> usize {
        self.buffer_size
    }

    /// A digester is well formed when its buffer size is positive and its
    /// algorithm is available.
    pub open spec fn wf(&self) -> bool {
        self.spec_buffer_size() > 0 && self.spec_algorithm().is_enabled()
    }

    /// Build a digester. Fails fast on a zero buffer size or an algorithm
    /// outside the capability set; otherwise the configuration is exactly the
    /// requested one, with the buffer size defaulting to 1 MiB.
    pub fn build(algorithm: Algorithm, buffer_size: Option<usize>) -> (r: Result<
        Hashery,
        ConfigError,
    >)
        ensures
            match r {
                Ok(h) => algorithm.is_enabled() && buffer_size != Some(0usize) && h.wf()
                    && h.spec_algorithm() == algorithm && h.spec_buffer_size()
                    == requested_buffer_size(buffer_size),
                Err(ConfigError::UnsupportedAlgorithm) => !algorithm.is_enabled(),
                Err(ConfigError::ZeroBufferSize) => algorithm.is_enabled() && buffer_size == Some(
                    0usize,
                ),
            },
    {
        if !algorithm.enabled() {
            return Err(ConfigError::UnsupportedAlgorithm);
        }
        let size = match buffer_size {
            Some(n) => n,
            None => DEFAULT_BUFFER_SIZE,
        };
        if size == 0 {
            return Err(ConfigError::ZeroBufferSize);
        }
        Ok(Hashery { algorithm, buffer_size: size })
    }

    /// The configured algorithm.
    pub fn algorithm(&self) -> (a: Algorithm)
        ensures
            a == self.spec_algorithm(),
    {
        self.algorithm
    }

    /// The configured read-buffer size.
    pub fn buffer_size(&self) -> (n: usize)
        ensures
            n == self.spec_buffer_size(),
    {
        self.buffer_size
    }

    /// Digest an in-memory byte slice in a single pass: a fresh primitive,
    /// one update, finalize, hex. Infallible.
    pub fn digest_bytes(&self, bytes: &[u8]) -> (r: Result<String, DigestError>)
        ensures
            r matches Ok(s) && s@ == digest_string(self.spec_algorithm(), bytes@),
            r matches Ok(s) ==> s@.len() == 2 * self.spec_algorithm().digest_len(),
            r matches Ok(s) ==> forall|i: int| 0 <= i < s@.len() ==> is_hex_char(#[trigger] s@[i]),
    {
        let session = DigestSession::new(self.algorithm);
        let session = session.update(bytes);
        proof {
            assert(Seq::<u8>::empty() + bytes@ =~= bytes@);
        }
        Ok(session.finish())
    }

    /// Digest a list of chunks one after another, as the chunked file path
    /// does: the result is the digest of their concatenation and owes nothing
    /// to where the chunk boundaries fall.
    pub fn digest_chunks(&self, chunks: &Vec<Vec<u8>>) -> (r: Result<String, DigestError>)
        ensures
            r matches Ok(s) && s@ == digest_string(
                self.spec_algorithm(),
                flatten_chunks(views_of(chunks@)),
            ),
            r matches Ok(s) ==> s@.len() == 2 * self.spec_algorithm().digest_len(),
            r matches Ok(s) ==> forall|i: int| 0 <= i < s@.len() ==> is_hex_char(#[trigger] s@[i]),
    {
        let mut session = DigestSession::new(self.algorithm);
        proof {
            assert(views_of(chunks@.take(0)) =~= Seq::<Seq<u8>>::empty());
        }
        let mut i: usize = 0;
        while i < chunks.len()
            invariant
                session.wf(),
                session.alg() == self.spec_algorithm(),
                i <= chunks@.len(),
                session@ == flatten_chunks(views_of(chunks@.take(i as int))),
            decreases chunks@.len() - i,
        {
            session = session.update(chunks[i].as_slice());
            proof {
                let taken = views_of(chunks@.take(i as int));
                assert(views_of(chunks@.take(i + 1)) =~= taken.push(chunks@[i as int]@));
                lemma_flatten_chunks_push(taken, chunks@[i as int]@);
            }
            i = i + 1;
        }
        proof {
            assert(chunks@.take(chunks@.len() as int) =~= chunks@);
        }
        Ok(session.finish())
    }

    /// Digest a text string: its UTF-8 bytes, through [`Hashery::digest_bytes`].
    pub fn digest_str(&self, s: &str) -> (r: Result<String, DigestError>)
        ensures
            r matches Ok(d) && d@ == digest_string(self.spec_algorithm(), s.spec_bytes()),
            r matches Ok(d) ==> d@.len() == 2 * self.spec_algorithm().digest_len(),
            r matches Ok(d) ==> forall|i: int| 0 <= i < d@.len() ==> is_hex_char(#[trigger] d@[i]),
    {
        self.digest_bytes(s.as_bytes())
    }
}

} // verus!
