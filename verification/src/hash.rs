//! Message digest algorithms that can sign a certificate or compute its fingerprint.
use vstd::prelude::*;

verus! {

/// A message digest algorithm.
#[derive(Clone, Copy, Debug, PartialEq, Eq, Structural)]
pub enum HashType {
    MD5,
    SHA1,
    SHA224,
    SHA256,
    SHA384,
    SHA512,
    RIPEMD160,
}

/// Number of bytes in a digest produced by `t`.
pub open spec fn spec_digest_len(t: HashType) -> nat {
    match t {
        HashType::MD5 => 16,
        HashType::SHA1 => 20,
        HashType::SHA224 => 28,
        HashType::SHA256 => 32,
        HashType::SHA384 => 48,
        HashType::SHA512 => 64,
        HashType::RIPEMD160 => 20,
    }
}

impl HashType {
    /// Number of bytes in a digest produced by this algorithm.
    pub fn digest_len(&self) -> (len: usize)
        ensures
            len == spec_digest_len(*self),
    {
        match self {
            HashType::MD5 => 16,
            HashType::SHA1 => 20,
            HashType::SHA224 => 28,
            HashType::SHA256 => 32,
            HashType::SHA384 => 48,
            HashType::SHA512 => 64,
            HashType::RIPEMD160 => 20,
        }
    }
}

} // verus!
