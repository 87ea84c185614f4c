//! Filter indices: what a label or an identity is reduced to before it is
//! matched.
//!
//! The reduction itself is the bloom-filter index of the packet crate; four
//! 16-bit words come back, and the library keeps them packed in one number.

use vstd::prelude::*;

verus! {

/// The four words of the bloom-filter index of `text`, or `None` where the
/// reduction fails: what `copernica_packets::bloom_filter_index` returns.
pub uninterp spec fn bloom_filter_index_of(text: Seq<char>) -> Option<Seq<u16>>;

/// Reduces a text with `copernica_packets::bloom_filter_index`.
///
/// Trusted: that the outcome depends on the text alone.
#[verifier::external_body]
pub(crate) fn reduce(text: &str) -> (words: Option<[u16; 4]>)
    ensures
        match words {
            Some(w) => bloom_filter_index_of(text@) == Some(w@),
            None => bloom_filter_index_of(text@) is None,
        },
{
    copernica_packets::bloom_filter_index(text).ok().map(|bfi| bfi.0)
}

/// Four words as one number, the first word in the highest place.
pub open spec fn spec_pack(words: Seq<u16>) -> u64 {
    ((words[0] as u64) << 48) | ((words[1] as u64) << 32) | ((words[2] as u64) << 16) | (
    words[3] as u64)
}

/// The filter index of `text`, if it has one.
pub open spec fn spec_index_of(text: Seq<char>) -> Option<u64> {
    match bloom_filter_index_of(text) {
        Some(words) => Some(spec_pack(words)),
        None => None,
    }
}

pub fn pack(words: &[u16; 4]) -> (index: u64)
    ensures
        index == spec_pack(words@),
{
    ((words[0] as u64) << 48) | ((words[1] as u64) << 32) | ((words[2] as u64) << 16) | (
    words[3] as u64)
}

/// The four words of an index: the inverse of [`pack`].
pub fn unpack(index: u64) -> (words: [u16; 4])
    ensures
        spec_pack(words@) == index,
{
    let words = [
        (index >> 48) as u16,
        ((index >> 32) & 0xffff) as u16,
        ((index >> 16) & 0xffff) as u16,
        (index & 0xffff) as u16,
    ];
    assert((((index >> 48) as u16 as u64) << 48) | ((((index >> 32) & 0xffff) as u16 as u64) << 32)
        | ((((index >> 16) & 0xffff) as u16 as u64) << 16) | ((index & 0xffff) as u16 as u64)
        == index) by (bit_vector);
    words
}

/// Reduces a text to its filter index.
pub fn index_of(text: &str) -> (index: Option<u64>)
    ensures
        index == spec_index_of(text@),
{
    match reduce(text) {
        Some(words) => Some(pack(&words)),
        None => None,
    }
}

/// Packing loses nothing: two indices are equal exactly when their words
/// are. Indices collide only where the reduction itself does.
pub proof fn lemma_pack_injective(a: Seq<u16>, b: Seq<u16>)
    requires
        a.len() == 4,
        b.len() == 4,
        spec_pack(a) == spec_pack(b),
    ensures
        a == b,
{
    let (a0, a1, a2, a3) = (a[0], a[1], a[2], a[3]);
    let (b0, b1, b2, b3) = (b[0], b[1], b[2], b[3]);
    assert(((a0 as u64) << 48) | ((a1 as u64) << 32) | ((a2 as u64) << 16) | (a3 as u64) == ((
    b0 as u64) << 48) | ((b1 as u64) << 32) | ((b2 as u64) << 16) | (b3 as u64) ==> a0 == b0
        && a1 == b1 && a2 == b2 && a3 == b3) by (bit_vector);
    assert(a =~= b);
}

} // verus!
