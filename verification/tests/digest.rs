use proof_of_work::digest::{digest, DIGEST_SIZE};
use proof_of_work::NONCE_SIZE;

fn framed(payload: &[u8], nonce: &[u8; NONCE_SIZE]) -> Vec<u8> {
    let mut input = nonce.to_vec();
    input.extend_from_slice(payload);
    input
}

#[test]
fn sizes_are_those_of_the_format() {
    assert_eq!(NONCE_SIZE, 10);
    assert_eq!(DIGEST_SIZE, 32);
    assert_eq!(DIGEST_SIZE, blake3::OUT_LEN);
}

#[test]
fn digest_is_blake3_of_nonce_then_payload() {
    let nonce = [1, 2, 3, 4, 5, 6, 7, 8, 9, 10];
    let payload = b"124124125124214121";
    let expected = blake3::hash(&framed(payload, &nonce));
    assert_eq!(&digest(payload, &nonce), expected.as_bytes());
}

#[test]
fn digest_of_empty_payload_is_blake3_of_nonce() {
    let nonce = [0xa5; NONCE_SIZE];
    assert_eq!(&digest(b"", &nonce), blake3::hash(&nonce).as_bytes());
}

#[test]
fn digest_of_long_payloads_is_blake3_of_nonce_then_payload() {
    let nonce = [9, 8, 7, 6, 5, 4, 3, 2, 1, 0];
    for len in [1usize, 53, 54, 55, 1013, 1014, 1015, 1024, 4096, 70_000] {
        let payload: Vec<u8> = (0..len).map(|at| (at % 251) as u8).collect();
        let expected = blake3::hash(&framed(&payload, &nonce));
        assert_eq!(&digest(&payload, &nonce), expected.as_bytes());
    }
}

#[test]
fn digest_puts_the_nonce_first() {
    let nonce = [1, 2, 3, 4, 5, 6, 7, 8, 9, 10];
    let payload = b"payload";
    let mut reversed = payload.to_vec();
    reversed.extend_from_slice(&nonce);
    assert_ne!(&digest(payload, &nonce), blake3::hash(&reversed).as_bytes());
    assert_ne!(&digest(payload, &nonce), blake3::hash(payload).as_bytes());
    assert_ne!(&digest(payload, &nonce), blake3::hash(&nonce).as_bytes());
}

#[test]
fn digest_is_not_its_input() {
    let nonce = [0u8; NONCE_SIZE];
    let payload = [0u8; 22];
    let hash = digest(&payload, &nonce);
    assert_ne!(hash, [0u8; DIGEST_SIZE]);
    assert_ne!(hash.to_vec(), framed(&payload, &nonce));
}

#[test]
fn digest_is_the_same_each_time() {
    let nonce = [3; NONCE_SIZE];
    let payload = b"the same bytes";
    assert_eq!(digest(payload, &nonce), digest(payload, &nonce));
}

#[test]
fn digest_changes_with_each_byte() {
    let nonce = [0x5a; NONCE_SIZE];
    let payload = *b"124124125124214121";
    let hash = digest(&payload, &nonce);
    for at in 0..NONCE_SIZE {
        let mut other = nonce;
        other[at] ^= 1;
        assert_ne!(digest(&payload, &other), hash);
    }
    for at in 0..payload.len() {
        let mut other = payload;
        other[at] ^= 1;
        assert_ne!(digest(&other, &nonce), hash);
    }
}
