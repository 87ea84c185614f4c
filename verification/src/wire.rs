//! The byte encoding of identifiers and packets.
//!
//! Every number is eight little-endian bytes. An identifier is its responder
//! index, one byte that tells whether a requester follows, the requester index
//! if there is one, and the six remaining numbers. A packet is one byte for
//! its kind, its identifier, and its own fields; a payload is preceded by its
//! length.

use crate::hbfi::HBFI;
use crate::packet::{NarrowWaistPacket, PacketView};
use vstd::bytes::{
    lemma_auto_spec_u64_to_from_le_bytes, spec_u64_from_le_bytes, spec_u64_to_le_bytes,
    u64_from_le_bytes, u64_to_le_bytes,
};
use vstd::prelude::*;
use vstd::slice::{slice_subrange, slice_to_vec};

verus! {

/// The number held in the eight bytes of `s` that start at `at`.
pub open spec fn spec_word_at(s: Seq<u8>, at: int) -> u64 {
    spec_u64_from_le_bytes(s.subrange(at, at + 8))
}

/// The bytes that tell whether a requester is present, and which.
pub open spec fn spec_encode_requester(requester: Option<u64>) -> Seq<u8> {
    match requester {
        Some(index) => seq![1u8] + spec_u64_to_le_bytes(index),
        None => seq![0u8],
    }
}

/// The encoding of an identifier.
pub open spec fn spec_encode_hbfi(h: HBFI) -> Seq<u8> {
    spec_u64_to_le_bytes(h.responder_index) + spec_encode_requester(h.requester_index)
        + spec_u64_to_le_bytes(h.app) + spec_u64_to_le_bytes(h.module) + spec_u64_to_le_bytes(
        h.function,
    ) + spec_u64_to_le_bytes(h.argument) + spec_u64_to_le_bytes(h.offset)
        + spec_u64_to_le_bytes(h.window)
}

/// The length of an identifier's encoding.
pub open spec fn spec_hbfi_len(h: HBFI) -> int {
    if h.requester_index is Some {
        65
    } else {
        57
    }
}

/// The encoding of a packet.
pub open spec fn spec_encode_packet(p: PacketView) -> Seq<u8> {
    match p {
        PacketView::Request { hbfi, window_metadata } => seq![0u8] + spec_encode_hbfi(hbfi)
            + spec_u64_to_le_bytes(window_metadata),
        PacketView::Response { hbfi, payload, offset, total } => seq![1u8] + spec_encode_hbfi(hbfi)
            + spec_u64_to_le_bytes(payload.len() as u64) + payload + spec_u64_to_le_bytes(offset)
            + spec_u64_to_le_bytes(total),
    }
}

/// The identifier that the front of `s` encodes, with the number of bytes it
/// takes up.
pub open spec fn spec_parse_hbfi(s: Seq<u8>) -> Option<(HBFI, int)> {
    if s.len() < 9 {
        None
    } else if s[8] == 0 {
        if s.len() < 57 {
            None
        } else {
            Some(
                (
                    HBFI {
                        responder_index: spec_word_at(s, 0),
                        requester_index: None,
                        app: spec_word_at(s, 9),
                        module: spec_word_at(s, 17),
                        function: spec_word_at(s, 25),
                        argument: spec_word_at(s, 33),
                        offset: spec_word_at(s, 41),
                        window: spec_word_at(s, 49),
                    },
                    57,
                ),
            )
        }
    } else if s[8] == 1 {
        if s.len() < 65 {
            None
        } else {
            Some(
                (
                    HBFI {
                        responder_index: spec_word_at(s, 0),
                        requester_index: Some(spec_word_at(s, 9)),
                        app: spec_word_at(s, 17),
                        module: spec_word_at(s, 25),
                        function: spec_word_at(s, 33),
                        argument: spec_word_at(s, 41),
                        offset: spec_word_at(s, 49),
                        window: spec_word_at(s, 57),
                    },
                    65,
                ),
            )
        }
    } else {
        None
    }
}

/// The length of every encoded identifier follows from its requester.
pub proof fn lemma_hbfi_len(h: HBFI)
    ensures
        spec_encode_hbfi(h).len() == spec_hbfi_len(h),
{
    lemma_auto_spec_u64_to_from_le_bytes();
}

/// Parsing reads back an encoded identifier, whatever follows it.
pub proof fn lemma_parse_encoded_hbfi(h: HBFI, rest: Seq<u8>)
    ensures
        spec_parse_hbfi(spec_encode_hbfi(h) + rest) == Some((h, spec_hbfi_len(h))),
{
    lemma_auto_spec_u64_to_from_le_bytes();
    let s = spec_encode_hbfi(h) + rest;
    assert(s.subrange(0, 8) =~= spec_u64_to_le_bytes(h.responder_index));
    match h.requester_index {
        Some(index) => {
            assert(s[8] == 1);
            assert(s.subrange(9, 17) =~= spec_u64_to_le_bytes(index));
            assert(s.subrange(17, 25) =~= spec_u64_to_le_bytes(h.app));
            assert(s.subrange(25, 33) =~= spec_u64_to_le_bytes(h.module));
            assert(s.subrange(33, 41) =~= spec_u64_to_le_bytes(h.function));
            assert(s.subrange(41, 49) =~= spec_u64_to_le_bytes(h.argument));
            assert(s.subrange(49, 57) =~= spec_u64_to_le_bytes(h.offset));
            assert(s.subrange(57, 65) =~= spec_u64_to_le_bytes(h.window));
        },
        None => {
            assert(s[8] == 0);
            assert(s.subrange(9, 17) =~= spec_u64_to_le_bytes(h.app));
            assert(s.subrange(17, 25) =~= spec_u64_to_le_bytes(h.module));
            assert(s.subrange(25, 33) =~= spec_u64_to_le_bytes(h.function));
            assert(s.subrange(33, 41) =~= spec_u64_to_le_bytes(h.argument));
            assert(s.subrange(41, 49) =~= spec_u64_to_le_bytes(h.offset));
            assert(s.subrange(49, 57) =~= spec_u64_to_le_bytes(h.window));
        },
    }
}

/// What parsing accepts is the encoding of what it returns.
pub proof fn lemma_parsed_hbfi_is_encoded(s: Seq<u8>)
    requires
        spec_parse_hbfi(s) is Some,
    ensures
        0 <= spec_parse_hbfi(s)->Some_0.1 <= s.len(),
        spec_parse_hbfi(s)->Some_0.1 == spec_hbfi_len(spec_parse_hbfi(s)->Some_0.0),
        s.subrange(0, spec_parse_hbfi(s)->Some_0.1) == spec_encode_hbfi(
            spec_parse_hbfi(s)->Some_0.0,
        ),
{
    lemma_auto_spec_u64_to_from_le_bytes();
    let (h, n) = spec_parse_hbfi(s)->Some_0;
    assert(spec_u64_to_le_bytes(spec_word_at(s, 0)) == s.subrange(0, 8));
    assert(spec_u64_to_le_bytes(spec_word_at(s, 9)) == s.subrange(9, 17));
    assert(spec_u64_to_le_bytes(spec_word_at(s, 17)) == s.subrange(17, 25));
    assert(spec_u64_to_le_bytes(spec_word_at(s, 25)) == s.subrange(25, 33));
    assert(spec_u64_to_le_bytes(spec_word_at(s, 33)) == s.subrange(33, 41));
    assert(spec_u64_to_le_bytes(spec_word_at(s, 41)) == s.subrange(41, 49));
    assert(spec_u64_to_le_bytes(spec_word_at(s, 49)) == s.subrange(49, 57));
    if s[8] == 1 {
        assert(spec_u64_to_le_bytes(spec_word_at(s, 57)) == s.subrange(57, 65));
    }
    assert(s.subrange(0, n) =~= spec_encode_hbfi(h));
}

/// The packet that `s` encodes, if it encodes one.
pub open spec fn spec_decode_packet(s: Seq<u8>) -> Option<PacketView> {
    if s.len() < 1 {
        None
    } else {
        match spec_parse_hbfi(s.subrange(1, s.len() as int)) {
            None => None,
            Some((hbfi, n)) => {
                let at = 1 + n;
                if s[0] == 0 {
                    if s.len() == at + 8 {
                        Some(PacketView::Request { hbfi, window_metadata: spec_word_at(s, at) })
                    } else {
                        None
                    }
                } else if s[0] == 1 {
                    if s.len() < at + 24 {
                        None
                    } else if s.len() - (at + 24) != spec_word_at(s, at) {
                        None
                    } else {
                        let end = at + 8 + spec_word_at(s, at);
                        Some(
                            PacketView::Response {
                                hbfi,
                                payload: s.subrange(at + 8, end),
                                offset: spec_word_at(s, end),
                                total: spec_word_at(s, end + 8),
                            },
                        )
                    }
                } else {
                    None
                }
            },
        }
    }
}

/// Decoding reads back every encoded packet whose payload length fits the
/// length field.
pub proof fn lemma_decode_encoded_packet(p: PacketView)
    requires
        p is Response ==> p->payload.len() <= u64::MAX,
    ensures
        spec_decode_packet(spec_encode_packet(p)) == Some(p),
{
    lemma_auto_spec_u64_to_from_le_bytes();
    let s = spec_encode_packet(p);
    let h = p.hbfi();
    let n = spec_hbfi_len(h);
    lemma_hbfi_len(h);
    match p {
        PacketView::Request { hbfi, window_metadata } => {
            let rest = spec_u64_to_le_bytes(window_metadata);
            assert(s.subrange(1, s.len() as int) =~= spec_encode_hbfi(h) + rest);
            lemma_parse_encoded_hbfi(h, rest);
            assert(s.subrange(1 + n, 1 + n + 8) =~= rest);
        },
        PacketView::Response { hbfi, payload, offset, total } => {
            let rest = spec_u64_to_le_bytes(payload.len() as u64) + payload + spec_u64_to_le_bytes(
                offset,
            ) + spec_u64_to_le_bytes(total);
            assert(s.subrange(1, s.len() as int) =~= spec_encode_hbfi(h) + rest);
            lemma_parse_encoded_hbfi(h, rest);
            let at = 1 + n;
            assert(s.subrange(at, at + 8) =~= spec_u64_to_le_bytes(payload.len() as u64));
            let end = at + 8 + payload.len();
            assert(s.subrange(at + 8, end) =~= payload);
            assert(s.subrange(end, end + 8) =~= spec_u64_to_le_bytes(offset));
            assert(s.subrange(end + 8, end + 16) =~= spec_u64_to_le_bytes(total));
        },
    }
}

/// What decoding accepts is the encoding of what it returns.
pub proof fn lemma_decoded_packet_is_encoded(s: Seq<u8>)
    requires
        spec_decode_packet(s) is Some,
    ensures
        spec_encode_packet(spec_decode_packet(s)->Some_0) == s,
{
    lemma_auto_spec_u64_to_from_le_bytes();
    let p = spec_decode_packet(s)->Some_0;
    let tail = s.subrange(1, s.len() as int);
    lemma_parsed_hbfi_is_encoded(tail);
    let (h, n) = spec_parse_hbfi(tail)->Some_0;
    assert(s.subrange(1, 1 + n) =~= tail.subrange(0, n));
    let at = 1 + n;
    assert(spec_u64_to_le_bytes(spec_word_at(s, at)) == s.subrange(at, at + 8));
    if s[0] == 1 {
        let end = at + 8 + spec_word_at(s, at);
        assert(spec_u64_to_le_bytes(spec_word_at(s, end)) == s.subrange(end, end + 8));
        assert(spec_u64_to_le_bytes(spec_word_at(s, end + 8)) == s.subrange(end + 8, end + 16));
        assert(s.subrange(at + 8, end).len() == spec_word_at(s, at));
    }
    assert(spec_encode_packet(p) =~= s);
}

/// Two packets with one encoding are one packet.
pub proof fn lemma_encode_packet_injective(p: PacketView, q: PacketView)
    requires
        p is Response ==> p->payload.len() <= u64::MAX,
        q is Response ==> q->payload.len() <= u64::MAX,
        spec_encode_packet(p) == spec_encode_packet(q),
    ensures
        p == q,
{
    lemma_decode_encoded_packet(p);
    lemma_decode_encoded_packet(q);
}

/// Two identifiers with one encoding are one identifier.
pub proof fn lemma_encode_hbfi_injective(h: HBFI, k: HBFI)
    requires
        spec_encode_hbfi(h) == spec_encode_hbfi(k),
    ensures
        h == k,
{
    lemma_parse_encoded_hbfi(h, Seq::empty());
    lemma_parse_encoded_hbfi(k, Seq::empty());
}

/// No packet encodes to bytes that decoding refuses.
pub proof fn lemma_undecodable_is_no_encoding(s: Seq<u8>)
    requires
        spec_decode_packet(s) is None,
        s.len() <= u64::MAX,
    ensures
        forall|p: PacketView| spec_encode_packet(p) != s,
{
    assert forall|p: PacketView| spec_encode_packet(p) != s by {
        if spec_encode_packet(p) == s {
            if p is Response && p->payload.len() > u64::MAX {
                assert(spec_encode_packet(p).len() >= p->payload.len());
            } else {
                lemma_decode_encoded_packet(p);
            }
        }
    }
}

fn put_word(buf: &mut Vec<u8>, word: u64)
    ensures
        final(buf)@ == old(buf)@ + spec_u64_to_le_bytes(word),
{
    let mut bytes = u64_to_le_bytes(word);
    buf.append(&mut bytes);
}

fn word_at(bytes: &[u8], at: usize) -> (word: u64)
    requires
        at + 8 <= bytes@.len(),
    ensures
        word == spec_word_at(bytes@, at as int),
{
    let size = bytes.len();
    assert(at + 8 <= size);
    u64_from_le_bytes(slice_subrange(bytes, at, at + 8))
}

fn put_hbfi(buf: &mut Vec<u8>, hbfi: &HBFI)
    ensures
        final(buf)@ == old(buf)@ + spec_encode_hbfi(*hbfi),
{
    put_word(buf, hbfi.responder_index);
    match hbfi.requester_index {
        Some(index) => {
            buf.push(1u8);
            put_word(buf, index);
        },
        None => {
            buf.push(0u8);
        },
    }
    put_word(buf, hbfi.app);
    put_word(buf, hbfi.module);
    put_word(buf, hbfi.function);
    put_word(buf, hbfi.argument);
    put_word(buf, hbfi.offset);
    put_word(buf, hbfi.window);
    assert(buf@ =~= old(buf)@ + spec_encode_hbfi(*hbfi));
}

/// Encodes an identifier; the result is the key under which its response is
/// cached.
pub fn encode_hbfi(hbfi: &HBFI) -> (bytes: Vec<u8>)
    ensures
        bytes@ == spec_encode_hbfi(*hbfi),
{
    let mut buf: Vec<u8> = Vec::new();
    put_hbfi(&mut buf, hbfi);
    assert(buf@ =~= spec_encode_hbfi(*hbfi));
    buf
}

fn parse_hbfi(s: &[u8]) -> (parsed: Option<(HBFI, usize)>)
    ensures
        match parsed {
            Some((h, n)) => spec_parse_hbfi(s@) == Some((h, n as int)),
            None => spec_parse_hbfi(s@) is None,
        },
{
    if s.len() < 9 {
        return None;
    }
    let tag = s[8];
    if tag == 0 {
        if s.len() < 57 {
            return None;
        }
        Some(
            (
                HBFI {
                    responder_index: word_at(s, 0),
                    requester_index: None,
                    app: word_at(s, 9),
                    module: word_at(s, 17),
                    function: word_at(s, 25),
                    argument: word_at(s, 33),
                    offset: word_at(s, 41),
                    window: word_at(s, 49),
                },
                57,
            ),
        )
    } else if tag == 1 {
        if s.len() < 65 {
            return None;
        }
        Some(
            (
                HBFI {
                    responder_index: word_at(s, 0),
                    requester_index: Some(word_at(s, 9)),
                    app: word_at(s, 17),
                    module: word_at(s, 25),
                    function: word_at(s, 33),
                    argument: word_at(s, 41),
                    offset: word_at(s, 49),
                    window: word_at(s, 57),
                },
                65,
            ),
        )
    } else {
        None
    }
}

/// Decodes an identifier: the inverse of [`encode_hbfi`], and `None` on
/// every byte string that is no identifier's encoding.
pub fn decode_hbfi(bytes: &[u8]) -> (hbfi: Option<HBFI>)
    ensures
        match hbfi {
            Some(h) => spec_encode_hbfi(h) == bytes@,
            None => forall|h: HBFI| spec_encode_hbfi(h) != bytes@,
        },
{
    let parsed = parse_hbfi(bytes);
    proof {
        assert forall|h: HBFI| spec_encode_hbfi(h) == bytes@ implies spec_parse_hbfi(bytes@)
            == Some((h, bytes@.len() as int)) by {
            lemma_parse_encoded_hbfi(h, Seq::empty());
            lemma_hbfi_len(h);
            assert(spec_encode_hbfi(h) + Seq::<u8>::empty() =~= spec_encode_hbfi(h));
        }
    }
    match parsed {
        Some((h, n)) => {
            if n == bytes.len() {
                proof {
                    lemma_parsed_hbfi_is_encoded(bytes@);
                    assert(bytes@.subrange(0, n as int) =~= bytes@);
                }
                Some(h)
            } else {
                None
            }
        },
        None => None,
    }
}

/// Encodes a packet; the result is the value under which a response is
/// cached.
pub fn encode_packet(packet: &NarrowWaistPacket) -> (bytes: Vec<u8>)
    ensures
        bytes@ == spec_encode_packet(packet@),
{
    let mut buf: Vec<u8> = Vec::new();
    match packet {
        NarrowWaistPacket::Request { hbfi, window_metadata } => {
            buf.push(0u8);
            put_hbfi(&mut buf, hbfi);
            put_word(&mut buf, *window_metadata);
        },
        NarrowWaistPacket::Response { hbfi, payload, offset, total } => {
            buf.push(1u8);
            put_hbfi(&mut buf, hbfi);
            put_word(&mut buf, payload.len() as u64);
            let ghost before = buf@;
            let mut i: usize = 0;
            while i < payload.len()
                invariant
                    i <= payload.len(),
                    buf@ == before + payload@.subrange(0, i as int),
                decreases payload.len() - i,
            {
                buf.push(payload[i]);
                assert(payload@.subrange(0, i + 1) =~= payload@.subrange(0, i as int).push(
                    payload@[i as int],
                ));
                i = i + 1;
            }
            assert(payload@.subrange(0, i as int) =~= payload@);
            put_word(&mut buf, *offset);
            put_word(&mut buf, *total);
        },
    }
    assert(buf@ =~= spec_encode_packet(packet@));
    buf
}

/// Decodes a packet: the inverse of [`encode_packet`], and `None` on every
/// byte string that is no packet's encoding.
pub fn decode_packet(bytes: &[u8]) -> (packet: Option<NarrowWaistPacket>)
    ensures
        match packet {
            Some(p) => spec_encode_packet(p@) == bytes@,
            None => forall|p: PacketView| spec_encode_packet(p) != bytes@,
        },
{
    let decoded = read_packet(bytes);
    let size = bytes.len();
    proof {
        assert(bytes@.len() == size);
        if decoded is Some {
            lemma_decoded_packet_is_encoded(bytes@);
        } else {
            lemma_undecodable_is_no_encoding(bytes@);
        }
    }
    decoded
}

fn read_packet(bytes: &[u8]) -> (packet: Option<NarrowWaistPacket>)
    ensures
        match packet {
            Some(p) => spec_decode_packet(bytes@) == Some(p@),
            None => spec_decode_packet(bytes@) is None,
        },
{
    if bytes.len() < 1 {
        return None;
    }
    let tail = slice_subrange(bytes, 1, bytes.len());
    match parse_hbfi(tail) {
        None => None,
        Some((hbfi, n)) => {
            proof {
                lemma_parsed_hbfi_is_encoded(tail@);
            }
            let at = 1 + n;
            let kind = bytes[0];
            if kind == 0 {
                if bytes.len() - at == 8 {
                    Some(NarrowWaistPacket::Request { hbfi, window_metadata: word_at(bytes, at) })
                } else {
                    None
                }
            } else if kind == 1 {
                if bytes.len() - at < 24 {
                    return None;
                }
                let room = bytes.len() - at - 24;
                let length = word_at(bytes, at);
                if room as u64 != length {
                    return None;
                }
                let end = at + 8 + room;
                let payload = slice_to_vec(slice_subrange(bytes, at + 8, end));
                Some(
                    NarrowWaistPacket::Response {
                        hbfi,
                        payload,
                        offset: word_at(bytes, end),
                        total: word_at(bytes, end + 8),
                    },
                )
            } else {
                None
            }
        },
    }
}

} // verus!
