use locd::commitment::{amount, commit, random_then_hash, secret_generate};

const HELLO_WORLD_DIGEST: [u8; 32] = [
    37, 108, 131, 178, 151, 17, 77, 32, 27, 48, 23, 159, 63, 14, 240, 202, 206, 151, 131, 98, 45,
    165, 151, 67, 38, 180, 54, 23, 138, 238, 246, 16,
];

const EMPTY_DIGEST: [u8; 32] = [
    14, 87, 81, 192, 38, 229, 67, 178, 232, 171, 46, 176, 96, 153, 218, 161, 209, 229, 223, 71,
    119, 143, 119, 135, 250, 171, 69, 205, 241, 47, 227, 168,
];

#[test]
fn commit_is_blake2b_256_of_the_text() {
    assert_eq!(commit("hello world"), HELLO_WORLD_DIGEST);
    assert_eq!(commit(""), EMPTY_DIGEST);
}

#[test]
fn commit_differs_from_its_argument() {
    let text = "abcdefghijklmnopqrstuvwxyz012345";
    assert_eq!(text.len(), 32);
    assert_ne!(&commit(text)[..], text.as_bytes());
}

#[test]
fn secret_digest_is_32_bytes_and_commits_to_the_text() {
    let (text, digest) = secret_generate();
    assert_eq!(text.chars().count(), 30);
    assert!(text.chars().all(|c| c.is_ascii_alphanumeric()));
    assert_eq!(digest.len(), 32);
    assert_eq!(commit(&text), digest);
}

#[test]
fn amount_digest_commits_to_its_text() {
    let (text, digest) = amount();
    assert_eq!(text.chars().count(), 30);
    assert!(text.chars().all(|c| c.is_ascii_alphanumeric()));
    assert_eq!(commit(&text), digest);
}

#[test]
fn two_draws_differ() {
    let (first_text, first_digest) = random_then_hash();
    let (second_text, second_digest) = random_then_hash();
    assert_ne!(first_text, second_text);
    assert_ne!(first_digest, second_digest);
}
