//! SHA3-256, the hash behind fingerprints, user ids and license signatures.

use sha3::Digest;
use vstd::prelude::*;

verus! {

/// The SHA3-256 digest of a byte string.
pub uninterp spec fn sha3_256(data: Seq<u8>) -> Seq<u8>;

/// Number of bytes in a SHA3-256 digest.
pub const DIGEST_LEN: usize = 32;

/// Calls `sha3::Sha3_256::digest`. Trusted: the result is the SHA3-256 digest
/// of `data`, which is always 32 bytes long.
#[verifier::external_body]
pub(crate) fn sha3_256_digest(data: &[u8]) -> (digest: Vec<u8>)
    ensures
        digest@ == sha3_256(data@),
        digest@.len() == DIGEST_LEN,
{
    sha3::Sha3_256::digest(data).to_vec()
}

} // verus!
