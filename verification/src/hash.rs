//! SHA-256, computed by the `sha2` crate.

use sha2::{Digest, Sha256};
use vstd::prelude::*;

verus! {

/// Length of a SHA-256 digest in bytes.
pub const DIGEST_LEN: usize = 32;

/// What `sha2::Sha256::digest` returns for `data`.
pub uninterp spec fn sha256_output(data: Seq<u8>) -> Seq<u8>;

/// The SHA-256 digest of `data`: thirty-two bytes.
pub open spec fn sha256(data: Seq<u8>) -> Seq<u8> {
    let out = sha256_output(data);
    if out.len() == 32 {
        out
    } else {
        Seq::new(32, |i: int| 0u8)
    }
}

/// SHA-256 applied twice.
pub open spec fn sha256d(data: Seq<u8>) -> Seq<u8> {
    sha256(sha256(data))
}

/// Calls `sha2::Sha256::digest`. Trusted: the result is the digest the crate
/// computes for these bytes, a function of the bytes alone, and it is
/// thirty-two bytes long.
#[verifier::external_body]
pub(crate) fn sha256_digest(data: &[u8]) -> (digest: Vec<u8>)
    ensures
        digest@ == sha256_output(data@),
        digest@.len() == 32,
{
    Sha256::digest(data).to_vec()
}

/// Hashes `data` with SHA-256.
pub fn hash(data: &[u8]) -> (digest: Vec<u8>)
    ensures
        digest@ == sha256(data@),
        digest@.len() == DIGEST_LEN,
{
    sha256_digest(data)
}

/// Hashes `data` with SHA-256 twice.
pub fn hash_twice(data: &[u8]) -> (digest: Vec<u8>)
    ensures
        digest@ == sha256d(data@),
        digest@.len() == DIGEST_LEN,
{
    let once = sha256_digest(data);
    sha256_digest(once.as_slice())
}

} // verus!
