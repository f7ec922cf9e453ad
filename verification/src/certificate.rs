//! Facts about an existing certificate: the encodings a certificate file can
//! have, and how a fingerprint is read off the digest of a certificate.
use vstd::prelude::*;

use crate::hash::{spec_digest_len, HashType};

verus! {

/// The encoding of a certificate file.
#[derive(Clone, Copy, Debug, PartialEq, Eq, Structural)]
pub enum X509FileType {
    PEM,
    ASN1,
    Default,
}

/// The number by which OpenSSL names the encoding `t`.
pub open spec fn file_type_code(t: X509FileType) -> i32 {
    match t {
        X509FileType::PEM => 1,
        X509FileType::ASN1 => 2,
        X509FileType::Default => 3,
    }
}

impl X509FileType {
    /// The number by which OpenSSL names this encoding.
    pub fn raw_value(&self) -> (code: i32)
        ensures
            code == file_type_code(*self),
    {
        match self {
            X509FileType::PEM => 1,
            X509FileType::ASN1 => 2,
            X509FileType::Default => 3,
        }
    }
}

/// A zeroed buffer of the size of a digest by `hash_type`, into which the
/// digest of a certificate is written.
pub fn fingerprint_buffer(hash_type: HashType) -> (buf: Vec<u8>)
    ensures
        buf@.len() == spec_digest_len(hash_type),
        forall|i: int| 0 <= i < buf@.len() ==> buf@[i] == 0,
{
    let len = hash_type.digest_len();
    let mut buf: Vec<u8> = Vec::new();
    for i in 0..len
        invariant
            buf@.len() == i,
            forall|j: int| 0 <= j < buf@.len() ==> buf@[j] == 0,
    {
        buf.push(0);
    }
    buf
}

/// Whether a digest call overran its buffer: it succeeded (`status` is not
/// zero) and wrote more than the `expected_len` bytes that the algorithm's
/// digest holds. Memory is then corrupted and no fingerprint can be given.
pub fn digest_overran(status: i32, expected_len: usize, written_len: u32) -> (overran: bool)
    ensures
        overran == (status != 0 && written_len > expected_len),
{
    status != 0 && (written_len as usize) > expected_len
}

/// The fingerprint of a certificate, from the outcome of digesting it:
/// `status` is what the digest call returned (zero for failure),
/// `expected_len` the size of the digest the algorithm produces,
/// `written_len` the number of bytes the call wrote into `digest`, a buffer
/// of `expected_len` bytes.
/// A failed call, or one that wrote fewer bytes than the algorithm
/// produces, gives no fingerprint. A call that wrote more bytes than the
/// buffer holds has corrupted memory and is not a case this function takes.
pub fn fingerprint_result(status: i32, expected_len: usize, written_len: u32, digest: Vec<u8>) -> (res: Option<Vec<u8>>)
    requires
        digest@.len() == expected_len,
        status == 0 || written_len <= expected_len,
    ensures
        res matches Some(v) ==> v@.len() == expected_len,
        status == 0 ==> res is None,
        status != 0 && written_len < expected_len ==> res is None,
        status != 0 && written_len == expected_len ==> res == Some(digest),
{
    if status == 0 {
        None
    } else {
        let written = written_len as usize;
        if written < expected_len {
            None
        } else {
            Some(digest)
        }
    }
}

} // verus!
