use locd::contract::{
    ContractDetails, DONATION_CEILING, FUNDING_CEILING, FUNDING_FLOOR,
};

#[test]
fn bounds_are_the_stated_ones() {
    assert_eq!(FUNDING_FLOOR, 10_000);
    assert_eq!(FUNDING_CEILING, 1_000_000);
    assert_eq!(DONATION_CEILING, 1_000);
}

#[test]
fn generated_details_are_within_bounds() {
    for _ in 0..200 {
        let details = ContractDetails::generate();
        assert!(10_000 <= details.funding_amount && details.funding_amount < 1_000_000);
        assert!(details.donation_request < 1_000);
        assert!(details.is_within_bounds());
    }
}

#[test]
fn within_bounds_at_the_edges() {
    let d = |funding_amount, donation_request| ContractDetails {
        address: 0,
        funding_amount,
        donation_request,
    };
    assert!(d(10_000, 0).is_within_bounds());
    assert!(d(999_999, 999).is_within_bounds());
    assert!(!d(9_999, 0).is_within_bounds());
    assert!(!d(1_000_000, 0).is_within_bounds());
    assert!(!d(10_000, 1_000).is_within_bounds());
}

#[test]
fn signing_message_is_the_three_numbers_in_order() {
    let details = ContractDetails { address: 0x0102, funding_amount: 10_000, donation_request: 7 };
    let expected: Vec<u8> = vec![
        2, 1, 0, 0, 0, 0, 0, 0, 0x10, 0x27, 0, 0, 0, 0, 0, 0, 7, 0, 0, 0, 0, 0, 0, 0,
    ];
    assert_eq!(details.signing_message(), expected);
}

#[test]
fn signed_payload_is_message_then_signature() {
    let details = ContractDetails { address: 1, funding_amount: 2, donation_request: 3 };
    let mut expected = details.signing_message();
    expected.extend_from_slice(&[0xaa, 0xbb]);
    assert_eq!(details.signed_payload(&vec![0xaa, 0xbb]), expected);
    assert_eq!(details.signed_payload(&vec![]), details.signing_message());
}
