use locd::hbfi::HBFI;
use locd::packet::NarrowWaistPacket;
use locd::wire::{decode_hbfi, decode_packet, encode_hbfi, encode_packet};

fn anonymous() -> HBFI {
    HBFI {
        responder_index: 0x0102030405060708,
        requester_index: None,
        app: 1,
        module: 2,
        function: 3,
        argument: 4,
        offset: 5,
        window: 6,
    }
}

fn anonymous_bytes() -> Vec<u8> {
    let mut bytes = vec![8u8, 7, 6, 5, 4, 3, 2, 1, 0];
    for n in 1u8..=6 {
        bytes.extend_from_slice(&[n, 0, 0, 0, 0, 0, 0, 0]);
    }
    bytes
}

fn known() -> HBFI {
    HBFI { requester_index: Some(u64::MAX), ..anonymous() }
}

fn known_bytes() -> Vec<u8> {
    let mut bytes = vec![8u8, 7, 6, 5, 4, 3, 2, 1, 1, 255, 255, 255, 255, 255, 255, 255, 255];
    for n in 1u8..=6 {
        bytes.extend_from_slice(&[n, 0, 0, 0, 0, 0, 0, 0]);
    }
    bytes
}

#[test]
fn encode_hbfi_lays_out_little_endian_words() {
    assert_eq!(encode_hbfi(&anonymous()), anonymous_bytes());
    assert_eq!(encode_hbfi(&anonymous()).len(), 57);
    assert_eq!(encode_hbfi(&known()), known_bytes());
    assert_eq!(encode_hbfi(&known()).len(), 65);
}

#[test]
fn decode_hbfi_inverts_encode_hbfi() {
    assert_eq!(decode_hbfi(&anonymous_bytes()), Some(anonymous()));
    assert_eq!(decode_hbfi(&known_bytes()), Some(known()));
    assert_eq!(decode_hbfi(&encode_hbfi(&known())), Some(known()));
}

#[test]
fn decode_hbfi_refuses_what_is_no_encoding() {
    assert_eq!(decode_hbfi(&[]), None);
    assert_eq!(decode_hbfi(&[0u8; 8]), None);
    assert_eq!(decode_hbfi(&anonymous_bytes()[..56]), None);
    let mut long = anonymous_bytes();
    long.push(0);
    assert_eq!(decode_hbfi(&long), None);
    let mut bad_tag = anonymous_bytes();
    bad_tag[8] = 2;
    assert_eq!(decode_hbfi(&bad_tag), None);
    let mut tagged = anonymous_bytes();
    tagged[8] = 1;
    assert_eq!(decode_hbfi(&tagged), None);
    assert_eq!(decode_hbfi(&known_bytes()[..64]), None);
}

#[test]
fn encode_request_packet() {
    let packet = NarrowWaistPacket::Request { hbfi: anonymous(), window_metadata: 0x0a0b };
    let mut expected = vec![0u8];
    expected.extend_from_slice(&anonymous_bytes());
    expected.extend_from_slice(&[0x0b, 0x0a, 0, 0, 0, 0, 0, 0]);
    assert_eq!(encode_packet(&packet), expected);
    assert_eq!(decode_packet(&expected), Some(packet));
}

#[test]
fn encode_response_packet() {
    let packet = NarrowWaistPacket::Response {
        hbfi: known(),
        payload: vec![9, 8, 7],
        offset: 1,
        total: 2,
    };
    let mut expected = vec![1u8];
    expected.extend_from_slice(&known_bytes());
    expected.extend_from_slice(&[3, 0, 0, 0, 0, 0, 0, 0]);
    expected.extend_from_slice(&[9, 8, 7]);
    expected.extend_from_slice(&[1, 0, 0, 0, 0, 0, 0, 0]);
    expected.extend_from_slice(&[2, 0, 0, 0, 0, 0, 0, 0]);
    assert_eq!(encode_packet(&packet), expected);
    assert_eq!(decode_packet(&expected), Some(packet));
}

#[test]
fn response_with_empty_payload_round_trips() {
    let packet =
        NarrowWaistPacket::Response { hbfi: anonymous(), payload: vec![], offset: 0, total: 0 };
    assert_eq!(decode_packet(&encode_packet(&packet)), Some(packet));
}

#[test]
fn decode_packet_refuses_what_is_no_encoding() {
    assert_eq!(decode_packet(&[]), None);
    assert_eq!(decode_packet(&[0]), None);
    let request = encode_packet(&NarrowWaistPacket::Request {
        hbfi: anonymous(),
        window_metadata: 1,
    });
    assert_eq!(decode_packet(&request[..request.len() - 1]), None);
    let mut longer = request.clone();
    longer.push(0);
    assert_eq!(decode_packet(&longer), None);
    let mut bad_kind = request.clone();
    bad_kind[0] = 2;
    assert_eq!(decode_packet(&bad_kind), None);

    let response = encode_packet(&NarrowWaistPacket::Response {
        hbfi: anonymous(),
        payload: vec![1, 2, 3, 4],
        offset: 0,
        total: 1,
    });
    assert_eq!(decode_packet(&response[..response.len() - 1]), None);
    let mut wrong_length = response.clone();
    wrong_length[58] = 5;
    assert_eq!(decode_packet(&wrong_length), None);
    let mut huge_length = response.clone();
    for b in huge_length[58..66].iter_mut() {
        *b = 255;
    }
    assert_eq!(decode_packet(&huge_length), None);
    let mut swapped_kind = response.clone();
    swapped_kind[0] = 0;
    assert_eq!(decode_packet(&swapped_kind), None);
}

#[test]
fn packet_hbfi_is_the_identifier_it_carries() {
    let request = NarrowWaistPacket::Request { hbfi: known(), window_metadata: 0 };
    let response =
        NarrowWaistPacket::Response { hbfi: anonymous(), payload: vec![], offset: 0, total: 0 };
    assert_eq!(request.hbfi(), known());
    assert_eq!(response.hbfi(), anonymous());
}
