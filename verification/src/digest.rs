//! The cryptographic digest behind every commitment.

use vstd::prelude::*;

verus! {

/// The 32-byte BLAKE2b digest of `data` without a key: what cryptoxide's
/// `Blake2b::blake2b` writes into an output of 32 bytes.
pub uninterp spec fn blake2b_256_digest(data: Seq<u8>) -> Seq<u8>;

/// Hashes `data` with cryptoxide's `Blake2b::blake2b`, with an output of 32
/// bytes and an empty key.
///
/// Trusted: that the digest depends on the hashed bytes alone. Its length is
/// the length of the output array.
#[verifier::external_body]
pub(crate) fn blake2b_256(data: &[u8]) -> (digest: [u8; 32])
    ensures
        digest@ == blake2b_256_digest(data@),
{
    let mut digest = [0u8; 32];
    cryptoxide::blake2b::Blake2b::blake2b(&mut digest, data, &[]);
    digest
}

} // verus!
