//! The trusted boundary around the outside hash primitives.
//!
//! Seven hashers share the `digest` crate's object-safe interface and are held
//! behind one trait object; BLAKE3 has its own interface and is held apart.
//! Each state is modelled by the sequence of bytes it has absorbed, plus (for
//! the shared kind) a tag telling which concrete primitive sits in the box.

use vstd::prelude::*;
use crate::algorithm::Algorithm;

verus! {

/// Streaming state of one of the `digest`-crate hashers, behind a trait object.
#[verifier::external_body]
pub struct HasherState {
    inner: Box<dyn digest::DynDigest>,
}

/// The BLAKE3 hasher's own streaming state type.
#[verifier::external_type_specification]
#[verifier::external_body]
pub struct ExBlake3Hasher(blake3::Hasher);

/// The bytes a shared-interface hasher state has absorbed so far.
pub uninterp spec fn hasher_fed(h: HasherState) -> Seq<u8>;

/// Which concrete primitive a shared-interface hasher state holds,
/// as the tag of the algorithm it was created for.
pub uninterp spec fn hasher_tag(h: HasherState) -> u8;

/// The digest that the primitive tagged `tag` produces over `input`.
/// This names the result of `digest::DynDigest::finalize`: for a fixed
/// primitive it depends on the absorbed bytes alone.
pub uninterp spec fn raw_digest(tag: u8, input: Seq<u8>) -> Seq<u8>;

/// The bytes a BLAKE3 hasher state has absorbed so far.
pub uninterp spec fn blake3_fed(h: blake3::Hasher) -> Seq<u8>;

/// The BLAKE3 digest (default 32-byte output) over `input`.
/// This names the result of `blake3::Hasher::finalize`: it depends on the
/// absorbed bytes alone.
pub uninterp spec fn blake3_digest(input: Seq<u8>) -> Seq<u8>;

/// The tag a shared-interface state carries for each algorithm it can hold.
pub open spec fn alg_tag(a: Algorithm) -> u8 {
    match a {
        Algorithm::MD5 => 0,
        Algorithm::SHA1 => 1,
        Algorithm::SHA256 => 2,
        Algorithm::SHA512 => 3,
        Algorithm::SHA3_256 => 4,
        Algorithm::Blake2b => 5,
        Algorithm::Blake2s => 6,
        Algorithm::Blake3 => 7,
    }
}

/// The digest length in bytes of the primitive behind each tag.
pub open spec fn tag_digest_len(tag: u8) -> nat {
    if tag == 0 {
        16
    } else if tag == 1 {
        20
    } else if tag == 2 {
        32
    } else if tag == 3 {
        64
    } else if tag == 4 {
        32
    } else if tag == 5 {
        64
    } else {
        32
    }
}

/// Relies on `md5::Md5::new` (`digest::Digest`): a fresh MD5 hasher that has
/// absorbed no bytes.
#[verifier::external_body]
pub(crate) fn new_md5() -> (h: HasherState)
    ensures
        hasher_fed(h) == Seq::<u8>::empty(),
        hasher_tag(h) == alg_tag(Algorithm::MD5),
{
    HasherState { inner: Box::new(<md5::Md5 as digest::Digest>::new()) }
}

/// Relies on `sha1::Sha1::new` (`digest::Digest`): a fresh SHA-1 hasher that
/// has absorbed no bytes.
#[verifier::external_body]
pub(crate) fn new_sha1() -> (h: HasherState)
    ensures
        hasher_fed(h) == Seq::<u8>::empty(),
        hasher_tag(h) == alg_tag(Algorithm::SHA1),
{
    HasherState { inner: Box::new(<sha1::Sha1 as digest::Digest>::new()) }
}

/// Relies on `sha2::Sha256::new` (`digest::Digest`): a fresh SHA-256 hasher
/// that has absorbed no bytes.
#[verifier::external_body]
pub(crate) fn new_sha256() -> (h: HasherState)
    ensures
        hasher_fed(h) == Seq::<u8>::empty(),
        hasher_tag(h) == alg_tag(Algorithm::SHA256),
{
    HasherState { inner: Box::new(<sha2::Sha256 as digest::Digest>::new()) }
}

/// Relies on `sha2::Sha512::new` (`digest::Digest`): a fresh SHA-512 hasher
/// that has absorbed no bytes.
#[verifier::external_body]
pub(crate) fn new_sha512() -> (h: HasherState)
    ensures
        hasher_fed(h) == Seq::<u8>::empty(),
        hasher_tag(h) == alg_tag(Algorithm::SHA512),
{
    HasherState { inner: Box::new(<sha2::Sha512 as digest::Digest>::new()) }
}

/// Relies on `sha3::Sha3_256::new` (`digest::Digest`): a fresh SHA3-256
/// hasher that has absorbed no bytes.
#[verifier::external_body]
pub(crate) fn new_sha3_256() -> (h: HasherState)
    ensures
        hasher_fed(h) == Seq::<u8>::empty(),
        hasher_tag(h) == alg_tag(Algorithm::SHA3_256),
{
    HasherState { inner: Box::new(<sha3::Sha3_256 as digest::Digest>::new()) }
}

/// Relies on `blake2::Blake2b512::new` (`digest::Digest`): a fresh BLAKE2b-512
/// hasher that has absorbed no bytes.
#[verifier::external_body]
pub(crate) fn new_blake2b() -> (h: HasherState)
    ensures
        hasher_fed(h) == Seq::<u8>::empty(),
        hasher_tag(h) == alg_tag(Algorithm::Blake2b),
{
    HasherState { inner: Box::new(<blake2::Blake2b512 as digest::Digest>::new()) }
}

/// Relies on `blake2::Blake2s256::new` (`digest::Digest`): a fresh BLAKE2s-256
/// hasher that has absorbed no bytes.
#[verifier::external_body]
pub(crate) fn new_blake2s() -> (h: HasherState)
    ensures
        hasher_fed(h) == Seq::<u8>::empty(),
        hasher_tag(h) == alg_tag(Algorithm::Blake2s),
{
    HasherState { inner: Box::new(<blake2::Blake2s256 as digest::Digest>::new()) }
}

/// Relies on `digest::DynDigest::update`: absorbs exactly the given bytes
/// after those already absorbed, and leaves the primitive itself unchanged.
#[verifier::external_body]
pub(crate) fn hasher_update(h: &mut HasherState, chunk: &[u8])
    ensures
        hasher_fed(*final(h)) == hasher_fed(*old(h)) + chunk@,
        hasher_tag(*final(h)) == hasher_tag(*old(h)),
{
    h.inner.update(chunk);
}

/// Relies on `digest::DynDigest::finalize`: the digest of all absorbed bytes,
/// whose length is the output size of the primitive behind the tag.
#[verifier::external_body]
pub(crate) fn hasher_finalize(h: HasherState) -> (r: Vec<u8>)
    ensures
        r@ == raw_digest(hasher_tag(h), hasher_fed(h)),
        r@.len() == tag_digest_len(hasher_tag(h)),
{
    h.inner.finalize().into_vec()
}

/// Relies on `blake3::Hasher::new`: a fresh BLAKE3 hasher that has absorbed
/// no bytes.
#[verifier::external_body]
pub(crate) fn new_blake3() -> (h: blake3::Hasher)
    ensures
        blake3_fed(h) == Seq::<u8>::empty(),
{
    blake3::Hasher::new()
}

/// Relies on `blake3::Hasher::update`: absorbs exactly the given bytes after
/// those already absorbed.
#[verifier::external_body]
pub(crate) fn blake3_update(h: &mut blake3::Hasher, chunk: &[u8])
    ensures
        blake3_fed(*final(h)) == blake3_fed(*old(h)) + chunk@,
{
    h.update(chunk);
}

/// Relies on `blake3::Hasher::finalize` and `blake3::Hash::as_bytes`: the
/// 32-byte BLAKE3 digest of all absorbed bytes.
#[verifier::external_body]
pub(crate) fn blake3_finalize(h: blake3::Hasher) -> (r: Vec<u8>)
    ensures
        r@ == blake3_digest(blake3_fed(h)),
        r@.len() == 32,
{
    h.finalize().as_bytes().to_vec()
}

} // verus!
