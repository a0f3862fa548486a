use pq_core::protocol::PQError;
use pq_core::transport::{advance, assemble_frame, frame_nonce, open, parse_frame, seal};

const KEY: [u8; 32] = [
    225, 83, 90, 172, 137, 204, 162, 59, 247, 226, 126, 199, 174, 100, 20, 168, 237, 193, 56, 50,
    170, 32, 236, 25, 195, 56, 42, 37, 220, 191, 107, 230,
];

#[test]
fn counters_advance_and_wrap() {
    assert_eq!(advance(0), 1);
    assert_eq!(advance(41), 42);
    assert_eq!(advance(u64::MAX - 1), u64::MAX);
    assert_eq!(advance(u64::MAX), 0);
}

#[test]
fn nonce_holds_the_counter_in_its_low_bytes() {
    assert_eq!(frame_nonce(0), vec![0u8; 12]);
    assert_eq!(frame_nonce(0x0102030405060708), vec![8, 7, 6, 5, 4, 3, 2, 1, 0, 0, 0, 0]);
    assert_eq!(
        frame_nonce(u64::MAX),
        vec![255, 255, 255, 255, 255, 255, 255, 255, 0, 0, 0, 0]
    );
}

#[test]
fn frame_is_counter_then_body() {
    assert_eq!(assemble_frame(1, &[9, 8]), vec![1, 0, 0, 0, 0, 0, 0, 0, 9, 8]);
    assert_eq!(assemble_frame(256, &[]), vec![0, 1, 0, 0, 0, 0, 0, 0]);
}

#[test]
fn parsing_checks_length_then_counter() {
    assert_eq!(parse_frame(&[1, 2, 3], 0), Err(PQError::InvalidCiphertext));
    assert_eq!(parse_frame(&[], 0), Err(PQError::InvalidCiphertext));
    let frame = [5u8, 0, 0, 0, 0, 0, 0, 0, 7, 7];
    assert_eq!(parse_frame(&frame, 6), Err(PQError::ReplayRejected));
    assert_eq!(parse_frame(&frame, 5), Ok((5, &[7u8, 7][..])));
    assert_eq!(parse_frame(&frame, 0), Ok((5, &[7u8, 7][..])));
    assert_eq!(parse_frame(&frame[..8], 0), Ok((5, &[][..])));
}

#[test]
fn sealing_gives_the_known_frame() {
    let frame = seal(&KEY, 0, b"hello").unwrap();
    assert_eq!(
        frame,
        vec![
            0, 0, 0, 0, 0, 0, 0, 0, 244, 167, 18, 225, 48, 154, 10, 42, 35, 133, 254, 42, 175, 80,
            120, 234, 81, 110, 101, 248, 227
        ]
    );
    let later = seal(&KEY, 7, b"hello").unwrap();
    assert_eq!(&later[..8], &[7, 0, 0, 0, 0, 0, 0, 0]);
    assert_ne!(&later[8..], &frame[8..]);
}

#[test]
fn opening_returns_plaintext_and_next_counter() {
    let frame = seal(&KEY, 7, b"hello").unwrap();
    assert_eq!(open(&KEY, 7, &frame), Ok((b"hello".to_vec(), 8)));
    assert_eq!(open(&KEY, 0, &frame), Ok((b"hello".to_vec(), 8)));
    assert_eq!(open(&KEY, 8, &frame), Err(PQError::ReplayRejected));
    assert_eq!(open(&[0u8; 32], 0, &frame), Err(PQError::InvalidCiphertext));
    assert_eq!(open(&KEY, 0, &frame[..7]), Err(PQError::InvalidCiphertext));
    assert_eq!(open(&KEY, 0, &frame[..20]), Err(PQError::InvalidCiphertext));
}

#[test]
fn frame_with_the_last_counter_wraps_the_expectation() {
    let frame = seal(&KEY, u64::MAX, b"end").unwrap();
    assert_eq!(open(&KEY, u64::MAX, &frame), Ok((b"end".to_vec(), 0)));
}
