use globed_relay::relay_error::RelayError;
use globed_relay::wire::{
    encode_relay_error, encode_relay_established, encode_udp_question, read_claim, read_login,
    LoginProgress, MAX_HOST_LEN, RELAY_MAGIC,
};

fn login(marker: u8, host: &[u8]) -> Vec<u8> {
    let mut bytes = vec![marker];
    bytes.extend_from_slice(&RELAY_MAGIC.to_be_bytes());
    bytes.extend_from_slice(&(host.len() as u32).to_be_bytes());
    bytes.extend_from_slice(host);
    bytes
}

fn wanted(received: &[u8]) -> usize {
    match read_login(&received.to_vec()) {
        LoginProgress::Read(n) => n,
        _ => panic!("the login should not be decided yet"),
    }
}

fn host(received: &[u8]) -> String {
    match read_login(&received.to_vec()) {
        LoginProgress::Host(host) => host,
        _ => panic!("the login should be complete"),
    }
}

#[test]
fn question_bytes() {
    assert_eq!(
        encode_udp_question(0x0102_0304),
        vec![0, 0, 0, 5, 1, 1, 2, 3, 4]
    );
    assert_eq!(
        encode_udp_question(u32::MAX),
        vec![0, 0, 0, 5, 1, 255, 255, 255, 255]
    );
}

#[test]
fn established_is_a_single_one() {
    assert_eq!(encode_relay_established(), vec![1]);
}

#[test]
fn refusal_bytes() {
    assert_eq!(
        encode_relay_error(b"no"),
        vec![0, 0, 0, 7, 0, 0, 0, 0, 2, b'n', b'o']
    );
    assert_eq!(encode_relay_error(b""), vec![0, 0, 0, 5, 0, 0, 0, 0, 0]);
    let long = vec![b'x'; 300];
    let frame = encode_relay_error(&long);
    assert_eq!(&frame[..9], &[0, 0, 1, 49, 0, 0, 0, 1, 44]);
    assert_eq!(&frame[9..], &long[..]);
    assert_eq!(frame.len(), 4 + 305);
}

#[test]
fn claim_of_a_number() {
    assert_eq!(
        read_claim(&[0x7f, 0x8a, 0x9b, 0x0c, 0x0a, 0x0b, 0x0c, 0x0d]),
        Some(0x0a0b_0c0d)
    );
    assert_eq!(
        read_claim(&[0x7f, 0x8a, 0x9b, 0x0c, 0, 0, 0, 0]),
        Some(0)
    );
}

#[test]
fn no_claim() {
    // one byte too few, one too many, one wrong, and a number that is the wrong way round
    assert_eq!(read_claim(&[0x7f, 0x8a, 0x9b, 0x0c, 0, 0, 5]), None);
    assert_eq!(read_claim(&[0x7f, 0x8a, 0x9b, 0x0c, 0, 0, 0, 5, 0]), None);
    assert_eq!(read_claim(&[0x7f, 0x8a, 0x9b, 0x0d, 0, 0, 0, 5]), None);
    assert_eq!(read_claim(&[0x0c, 0x9b, 0x8a, 0x7f, 0, 0, 0, 5]), None);
    assert_eq!(read_claim(&[]), None);
}

#[test]
fn login_is_read_part_by_part() {
    let bytes = login(9, b"10.0.0.1:4200");
    assert_eq!(wanted(&bytes[..0]), 1);
    assert_eq!(wanted(&bytes[..1]), 4);
    assert_eq!(wanted(&bytes[..3]), 2);
    assert_eq!(wanted(&bytes[..5]), 4);
    assert_eq!(wanted(&bytes[..8]), 1);
    assert_eq!(wanted(&bytes[..9]), 13);
    assert_eq!(wanted(&bytes[..21]), 1);
    assert_eq!(host(&bytes), "10.0.0.1:4200");
}

#[test]
fn bytes_after_a_login_are_not_part_of_it() {
    let mut bytes = login(0, b"host");
    bytes.extend_from_slice(b"traffic");
    assert_eq!(host(&bytes), "host");
}

#[test]
fn empty_host_needs_no_more_bytes() {
    assert_eq!(host(&login(1, b"")), "");
}

#[test]
fn longest_host() {
    assert_eq!(MAX_HOST_LEN, 64);
    let name = vec![b'h'; 64];
    assert_eq!(host(&login(1, &name)).len(), 64);
    let name = vec![b'h'; 65];
    assert!(matches!(
        read_login(&login(1, &name)[..9].to_vec()),
        LoginProgress::Refused(RelayError::InvalidHost)
    ));
}

#[test]
fn wrong_magic_is_refused_before_the_length_is_read() {
    assert!(matches!(
        read_login(&vec![1, 0x7f, 0x8a, 0x9b, 0x0d]),
        LoginProgress::Refused(RelayError::InvalidMagic)
    ));
    assert!(matches!(
        read_login(&vec![1, 0, 0, 0, 0, 255, 255, 255, 255]),
        LoginProgress::Refused(RelayError::InvalidMagic)
    ));
}

#[test]
fn host_that_is_no_utf8_is_patched() {
    assert_eq!(host(&login(1, &[b'a', 0xff, b'b'])), "a\u{fffd}b");
    assert_eq!(host(&login(1, "hôte".as_bytes())), "hôte");
}
