//! The text payloads of the ping exchange, in bincode's encoding of a
//! string: the length of its UTF-8 form as eight little-endian bytes, then
//! that form.

use crate::error::Error;
use crate::wire::spec_word_at;
use vstd::bytes::{lemma_auto_spec_u64_to_from_le_bytes, spec_u64_to_le_bytes};
use vstd::prelude::*;
use vstd::string::StringExecFns;
use vstd::utf8::{
    decode_utf8, encode_utf8, encode_utf8_decode_utf8, encode_utf8_valid_utf8, valid_utf8,
};

verus! {

/// The encoding of `text`.
pub open spec fn spec_encode_text(text: Seq<char>) -> Seq<u8> {
    spec_u64_to_le_bytes(encode_utf8(text).len() as u64) + encode_utf8(text)
}

/// The text at the front of `bytes`, if one is encoded there. Bytes after
/// it are ignored.
pub open spec fn spec_decode_text(bytes: Seq<u8>) -> Option<Seq<char>> {
    if bytes.len() < 8 {
        None
    } else if bytes.len() - 8 < spec_word_at(bytes, 0) {
        None
    } else if !valid_utf8(bytes.subrange(8, 8 + spec_word_at(bytes, 0))) {
        None
    } else {
        Some(decode_utf8(bytes.subrange(8, 8 + spec_word_at(bytes, 0))))
    }
}

/// Decoding reads back every encoded text whose UTF-8 form is short enough
/// for the length field, whatever bytes follow it.
pub proof fn lemma_decode_encoded_text(text: Seq<char>, rest: Seq<u8>)
    requires
        encode_utf8(text).len() <= u64::MAX,
    ensures
        spec_decode_text(spec_encode_text(text) + rest) == Some(text),
{
    lemma_auto_spec_u64_to_from_le_bytes();
    encode_utf8_valid_utf8(text);
    encode_utf8_decode_utf8(text);
    let form = encode_utf8(text);
    let bytes = spec_encode_text(text) + rest;
    assert(bytes.subrange(0, 8) =~= spec_u64_to_le_bytes(form.len() as u64));
    assert(spec_word_at(bytes, 0) == form.len());
    assert(bytes.subrange(8, 8 + form.len() as int) =~= form);
}

/// Decoding reads back every encoded text whose UTF-8 form is short enough
/// for the length field.
pub proof fn lemma_echo_round_trip(text: Seq<char>)
    requires
        encode_utf8(text).len() <= u64::MAX,
    ensures
        spec_decode_text(spec_encode_text(text)) == Some(text),
{
    lemma_decode_encoded_text(text, Seq::empty());
    assert(spec_encode_text(text) + Seq::<u8>::empty() =~= spec_encode_text(text));
}

/// Encodes a text with `bincode::serialize`.
///
/// Trusted: that it succeeds, as writing a string into a byte vector
/// without a size limit has no way to fail there, and that what comes back
/// is the length of the text's UTF-8 form in eight little-endian bytes
/// followed by that form.
#[verifier::external_body]
pub(crate) fn encode_text(text: &str) -> (bytes: Option<Vec<u8>>)
    ensures
        bytes is Some,
        bytes->Some_0@ == spec_encode_text(text@),
{
    bincode::serialize(text).ok()
}

/// Decodes a text with `bincode::deserialize`.
///
/// Trusted: that it succeeds exactly when the bytes hold a length prefix,
/// at least as many bytes after it, and valid UTF-8 in them, and that it
/// then returns the text they encode.
#[verifier::external_body]
pub(crate) fn decode_text<'a>(bytes: &'a [u8]) -> (text: Option<&'a str>)
    ensures
        match text {
            Some(t) => spec_decode_text(bytes@) == Some(t@),
            None => spec_decode_text(bytes@) is None,
        },
{
    bincode::deserialize::<&str>(bytes).ok()
}

/// The texts of all chunks, one after the other.
pub open spec fn spec_joined(chunks: Seq<Seq<u8>>) -> Seq<char>
    decreases chunks.len(),
{
    if chunks.len() == 0 {
        Seq::empty()
    } else {
        spec_joined(chunks.drop_last()) + spec_decode_text(chunks.last())->Some_0
    }
}

/// The chunks as byte strings.
pub open spec fn chunk_views(chunks: Seq<Vec<u8>>) -> Seq<Seq<u8>> {
    chunks.map_values(|chunk: Vec<u8>| chunk@)
}

/// Reads the echo of a ping: decodes every chunk and joins the texts in
/// order. One chunk that holds no text fails the whole echo.
pub fn read_echo(echo: &Vec<Vec<u8>>) -> (text: Result<String, Error>)
    ensures
        text is Ok <==> forall|i: int|
            0 <= i < echo@.len() ==> spec_decode_text(#[trigger] echo@[i]@) is Some,
        text is Ok ==> text->Ok_0@ == spec_joined(chunk_views(echo@)),
        text is Err ==> text->Err_0 == Error::MalformedEcho,
{
    let mut joined = String::new();
    let mut i: usize = 0;
    while i < echo.len()
        invariant
            i <= echo@.len(),
            forall|k: int| 0 <= k < i ==> spec_decode_text(#[trigger] echo@[k]@) is Some,
            joined@ == spec_joined(chunk_views(echo@.subrange(0, i as int))),
        decreases echo@.len() - i,
    {
        match decode_text(echo[i].as_slice()) {
            Some(chunk) => {
                proof {
                    let before = echo@.subrange(0, i as int);
                    let now = echo@.subrange(0, i + 1);
                    assert(chunk_views(now).drop_last() =~= chunk_views(before));
                    assert(chunk_views(now).last() == echo@[i as int]@);
                }
                joined.append(chunk);
            },
            None => {
                return Err(Error::MalformedEcho);
            },
        }
        i = i + 1;
    }
    assert(echo@.subrange(0, i as int) =~= echo@);
    Ok(joined)
}

} // verus!
