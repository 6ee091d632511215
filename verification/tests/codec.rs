//! Frame codec tests: round-trip framing, checksum sensitivity, stop-marker
//! enforcement, and the two length-field variants.

use vesc_comm::frame::parse_frame;
use vesc_comm::frame::serialize_frame;
use vesc_comm::Error;

fn sample_payload(len: usize) -> Vec<u8> {
    (0..len).map(|i| (i * 7 + 3) as u8).collect()
}

#[test]
fn round_trip_empty_payload() {
    let payload: Vec<u8> = Vec::new();
    let frame = serialize_frame(&payload);
    assert_eq!(parse_frame(&frame), Ok(payload));
}

#[test]
fn round_trip_one_byte_payload() {
    let payload = vec![0xA5u8];
    let frame = serialize_frame(&payload);
    assert_eq!(parse_frame(&frame), Ok(payload));
}

#[test]
fn round_trip_all_lengths_up_to_127() {
    for len in 0..=127usize {
        let payload = sample_payload(len);
        let frame = serialize_frame(&payload);
        assert_eq!(frame.len(), len + 5);
        assert_eq!(parse_frame(&frame), Ok(payload));
    }
}

#[test]
fn round_trip_capacity_limit_payload() {
    let payload = sample_payload(128);
    let frame = serialize_frame(&payload);
    assert_eq!(parse_frame(&frame), Ok(payload));
}

#[test]
fn serialize_layout_and_known_checksum() {
    // The XMODEM checksum of "123456789" is 0x31C3.
    let payload: Vec<u8> = b"123456789".to_vec();
    let frame = serialize_frame(&payload);
    assert_eq!(frame[0], 0x02);
    assert_eq!(frame[1], 9);
    assert_eq!(&frame[2..11], payload.as_slice());
    assert_eq!(frame[11], 0x31);
    assert_eq!(frame[12], 0xC3);
    assert_eq!(frame[13], 0x03);
    assert_eq!(frame.len(), 14);
}

#[test]
fn flipping_any_payload_or_crc_bit_fails_checksum() {
    let payload = sample_payload(17);
    let frame = serialize_frame(&payload);
    // Payload region: bytes 2..19; checksum region: bytes 19..21.
    for idx in 2..frame.len() - 1 {
        for bit in 0..8 {
            let mut corrupted = frame.clone();
            corrupted[idx] ^= 1u8 << bit;
            assert_eq!(parse_frame(&corrupted), Err(Error::ChecksumError));
        }
    }
}

#[test]
fn truncated_frame_is_parse_error() {
    let payload = sample_payload(5);
    let mut frame = serialize_frame(&payload);
    frame.pop();
    assert_eq!(parse_frame(&frame), Err(Error::ParseError));
}

#[test]
fn wrong_stop_byte_is_parse_error() {
    let payload = sample_payload(5);
    let mut frame = serialize_frame(&payload);
    let last = frame.len() - 1;
    frame[last] = 0x00;
    assert_eq!(parse_frame(&frame), Err(Error::ParseError));
}

#[test]
fn unknown_start_marker_is_io_error() {
    let payload = sample_payload(4);
    let mut frame = serialize_frame(&payload);
    frame[0] = 0x04;
    assert_eq!(parse_frame(&frame), Err(Error::IoError));
}

#[test]
fn empty_input_is_io_error() {
    assert_eq!(parse_frame(&Vec::new()), Err(Error::IoError));
}

#[test]
fn long_frame_variant_parses() {
    let payload = sample_payload(20);
    let short = serialize_frame(&payload);
    // Rebuild the same content with the two-byte length field.
    let mut long = vec![0x03u8, 0x00, 20];
    long.extend_from_slice(&payload);
    long.extend_from_slice(&short[short.len() - 3..]);
    assert_eq!(parse_frame(&long), Ok(payload));
}

#[test]
fn declared_length_beyond_capacity_is_io_error() {
    // A short frame announcing 129 payload bytes exceeds the 128-byte buffer.
    let mut frame = vec![0x02u8, 129];
    frame.extend(std::iter::repeat(0u8).take(140));
    assert_eq!(parse_frame(&frame), Err(Error::IoError));
    // Same through the two-byte length field.
    let mut long = vec![0x03u8, 0x01, 0x00];
    long.extend(std::iter::repeat(0u8).take(300));
    assert_eq!(parse_frame(&long), Err(Error::IoError));
}

#[test]
fn trailing_bytes_after_frame_are_ignored() {
    let payload = sample_payload(3);
    let mut frame = serialize_frame(&payload);
    frame.extend_from_slice(&[0xDE, 0xAD]);
    assert_eq!(parse_frame(&frame), Ok(payload));
}
