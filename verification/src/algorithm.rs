use vstd::prelude::*;

verus! {

/// The closed set of supported hash algorithms.
#[derive(Debug, Clone, Copy, PartialEq, Eq, Structural)]
pub enum Algorithm {
    MD5,
    SHA1,
    SHA256,
    SHA512,
    SHA3_256,
    Blake2b,
    Blake2s,
    Blake3,
}

impl Algorithm {
    /// The length in bytes of this algorithm's digest.
    pub open spec fn digest_len(self) -> nat {
        match self {
            Algorithm::MD5 => 16,
            Algorithm::SHA1 => 20,
            Algorithm::SHA256 => 32,
            Algorithm::SHA512 => 64,
            Algorithm::SHA3_256 => 32,
            Algorithm::Blake2b => 64,
            Algorithm::Blake2s => 32,
            Algorithm::Blake3 => 32,
        }
    }

    /// Whether this algorithm's primitive is part of the capability set of
    /// this build. Every variant's backing crate is linked in here.
    pub open spec fn is_enabled(self) -> bool {
        match self {
            Algorithm::MD5 => true,
            Algorithm::SHA1 => true,
            Algorithm::SHA256 => true,
            Algorithm::SHA512 => true,
            Algorithm::SHA3_256 => true,
            Algorithm::Blake2b => true,
            Algorithm::Blake2s => true,
            Algorithm::Blake3 => true,
        }
    }

    /// Runtime view of the capability set.
    pub fn enabled(&self) -> (r: bool)
        ensures
            r == self.is_enabled(),
    {
        match self {
            Algorithm::MD5 => true,
            Algorithm::SHA1 => true,
            Algorithm::SHA256 => true,
            Algorithm::SHA512 => true,
            Algorithm::SHA3_256 => true,
            Algorithm::Blake2b => true,
            Algorithm::Blake2s => true,
            Algorithm::Blake3 => true,
        }
    }
}

} // verus!
