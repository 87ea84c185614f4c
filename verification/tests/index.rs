use copernica_packets::{bloom_filter_index, PrivateIdentityInterface};
use locd::identity::PublicIdentity;
use locd::index::{index_of, pack};

fn key_of(sid: &PrivateIdentityInterface) -> [u8; 64] {
    let public = sid.public_id();
    let mut key = [0u8; 64];
    key[..32].copy_from_slice(public.key().as_ref());
    key[32..].copy_from_slice(public.chain_code().as_ref());
    key
}

#[test]
fn pack_puts_the_first_word_highest() {
    assert_eq!(pack(&[0, 0, 0, 0]), 0);
    assert_eq!(pack(&[0, 0, 0, 1]), 1);
    assert_eq!(pack(&[1, 2, 3, 4]), 0x0001_0002_0003_0004);
    assert_eq!(pack(&[u16::MAX; 4]), u64::MAX);
    assert_eq!(pack(&[19283, 50425, 20212, 47266]), 5427898550962141346);
}

#[test]
fn index_of_is_the_packed_bloom_filter_index() {
    assert_eq!(index_of("9"), Some(5427898550962141346));
    for label in ["locd", "htlc", "peer", "ping", "", "secret"] {
        let words = bloom_filter_index(label).unwrap();
        assert_eq!(index_of(label), Some(pack(&words.0)));
    }
    assert_ne!(index_of("locd"), index_of("htlc"));
}

#[test]
fn identity_index_is_the_index_of_its_text() {
    let sid = PrivateIdentityInterface::new_key();
    let pid = PublicIdentity { key: key_of(&sid) };
    let text = format!("{}", sid.public_id());
    assert!(text.starts_with("id1"));
    assert_eq!(pid.index(), index_of(&text));
    assert_eq!(pid.index(), PublicIdentity { key: key_of(&sid) }.index());
    let other = PrivateIdentityInterface::new_key();
    assert_ne!(pid.index(), PublicIdentity { key: key_of(&other) }.index());
}

#[test]
fn identity_of_zero_bytes_has_an_index() {
    let pid = PublicIdentity { key: [0u8; 64] };
    let text = format!("{}", copernica_packets::PublicIdentity::from([0u8; 64]));
    assert_eq!(pid.index(), index_of(&text));
    assert!(pid.index().is_some());
}
