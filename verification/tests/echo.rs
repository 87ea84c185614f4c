use locd::echo::read_echo;
use locd::error::Error;

fn ping_bytes() -> Vec<u8> {
    vec![4, 0, 0, 0, 0, 0, 0, 0, b'p', b'i', b'n', b'g']
}

#[test]
fn read_echo_joins_the_chunks_in_order() {
    let second = vec![2, 0, 0, 0, 0, 0, 0, 0, 0xc3, 0xa9];
    assert_eq!(read_echo(&vec![ping_bytes(), second]), Ok("ping\u{e9}".to_string()));
    assert_eq!(read_echo(&vec![ping_bytes()]), Ok("ping".to_string()));
}

#[test]
fn read_echo_of_nothing_is_empty() {
    assert_eq!(read_echo(&vec![]), Ok(String::new()));
    assert_eq!(read_echo(&vec![vec![0; 8]]), Ok(String::new()));
}

#[test]
fn read_echo_ignores_bytes_after_the_text() {
    let mut chunk = ping_bytes();
    chunk.extend_from_slice(&[1, 2, 3]);
    assert_eq!(read_echo(&vec![chunk]), Ok("ping".to_string()));
}

#[test]
fn read_echo_fails_on_a_malformed_chunk() {
    assert_eq!(read_echo(&vec![vec![]]), Err(Error::MalformedEcho));
    assert_eq!(read_echo(&vec![vec![4, 0, 0]]), Err(Error::MalformedEcho));
    assert_eq!(read_echo(&vec![ping_bytes()[..11].to_vec()]), Err(Error::MalformedEcho));
    assert_eq!(
        read_echo(&vec![vec![1, 0, 0, 0, 0, 0, 0, 0, 0xff]]),
        Err(Error::MalformedEcho)
    );
    assert_eq!(
        read_echo(&vec![vec![255, 255, 255, 255, 255, 255, 255, 255, b'a']]),
        Err(Error::MalformedEcho)
    );
    assert_eq!(read_echo(&vec![ping_bytes(), vec![9]]), Err(Error::MalformedEcho));
}
