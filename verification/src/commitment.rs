//! Hash commitments: a fresh random text stays with its maker, and only its
//! digest is published.

use crate::digest::{blake2b_256, blake2b_256_digest};
use crate::entropy::{is_alphanumeric_text, random_alphanumeric};
use vstd::prelude::*;
use vstd::utf8::encode_utf8;

verus! {

/// The number of characters in a committed text.
pub const PREIMAGE_LENGTH: usize = 30;

/// The number of bytes in a commitment.
pub const DIGEST_LENGTH: usize = 32;

/// The digest that commits to `text`.
pub open spec fn commitment_of(text: Seq<char>) -> Seq<u8> {
    blake2b_256_digest(encode_utf8(text))
}

/// `digest` is what the commitment procedure can publish: 32 bytes that
/// commit to some text of 30 ASCII letters and digits.
pub open spec fn is_commitment(digest: Seq<u8>) -> bool {
    &&& digest.len() == DIGEST_LENGTH
    &&& exists|text: Seq<char>|
        is_alphanumeric_text(text, PREIMAGE_LENGTH as nat) && digest == #[trigger] commitment_of(
            text,
        )
}

/// Commits to a given text.
pub fn commit(text: &str) -> (digest: [u8; 32])
    ensures
        digest@ == commitment_of(text@),
        digest@.len() == DIGEST_LENGTH,
{
    blake2b_256(text.as_bytes())
}

/// Draws a fresh text of 30 letters and digits and commits to it. Returns
/// the text, which is the secret to reveal later, and its digest.
pub fn random_then_hash() -> (drawn: (String, [u8; 32]))
    ensures
        is_alphanumeric_text(drawn.0@, PREIMAGE_LENGTH as nat),
        drawn.1@ == commitment_of(drawn.0@),
        is_commitment(drawn.1@),
{
    let text = random_alphanumeric(PREIMAGE_LENGTH);
    let digest = commit(text.as_str());
    (text, digest)
}

/// A fresh secret and the commitment that is published in its place.
pub fn secret_generate() -> (drawn: (String, [u8; 32]))
    ensures
        is_alphanumeric_text(drawn.0@, PREIMAGE_LENGTH as nat),
        drawn.1@ == commitment_of(drawn.0@),
        is_commitment(drawn.1@),
{
    random_then_hash()
}

/// A fresh amount token and the commitment that is published in its place.
pub fn amount() -> (drawn: (String, [u8; 32]))
    ensures
        is_alphanumeric_text(drawn.0@, PREIMAGE_LENGTH as nat),
        drawn.1@ == commitment_of(drawn.0@),
        is_commitment(drawn.1@),
{
    random_then_hash()
}

} // verus!
