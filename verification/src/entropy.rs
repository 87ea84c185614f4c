//! Random draws. Nothing is known of a draw but the range it falls in.

use rand::Rng;
use vstd::prelude::*;

verus! {

/// An ASCII letter or digit.
pub open spec fn is_alphanumeric(c: char) -> bool {
    let code = c as u32;
    ||| 48 <= code <= 57
    ||| 65 <= code <= 90
    ||| 97 <= code <= 122
}

/// A text of `count` characters, each an ASCII letter or digit.
pub open spec fn is_alphanumeric_text(text: Seq<char>, count: nat) -> bool {
    &&& text.len() == count
    &&& forall|i: int| 0 <= i < text.len() ==> is_alphanumeric(#[trigger] text[i])
}

/// Draws `count` characters from rand's `Alphanumeric` distribution with the
/// thread's generator (`thread_rng`, `Rng::sample_iter`).
///
/// Trusted: the number of characters, and that the distribution yields only
/// ASCII letters and digits.
#[verifier::external_body]
pub(crate) fn random_alphanumeric(count: usize) -> (text: String)
    ensures
        is_alphanumeric_text(text@, count as nat),
{
    rand::thread_rng().sample_iter(&rand::distributions::Alphanumeric).take(count).map(
        char::from,
    ).collect()
}

/// Draws a number from a half-open range with rand's `Rng::gen_range` on the
/// thread's generator.
///
/// Trusted: that the draw lies in the range. An empty range is left out, as
/// `gen_range` panics on it.
#[verifier::external_body]
pub(crate) fn random_in_range(low: u64, high: u64) -> (drawn: u64)
    requires
        low < high,
    ensures
        low <= drawn < high,
{
    rand::thread_rng().gen_range(low..high)
}

/// Draws any 64-bit number with rand's `Rng::gen` on the thread's generator.
#[verifier::external_body]
pub(crate) fn random_word() -> (drawn: u64) {
    rand::thread_rng().gen()
}

} // verus!
