use client_sample::envelope::{decode_envelope, encode_envelope, length_prefix, payload_length, EnvelopeError};

fn round_trip(n: usize) {
    let payload: Vec<u8> = (0..n).map(|i| (i % 251) as u8).collect();
    let framed = encode_envelope(&payload).unwrap();
    assert_eq!(framed.len(), n + 4);
    let (back, used) = decode_envelope(&framed).unwrap();
    assert_eq!(back, payload);
    assert_eq!(used, n + 4);
}

#[test]
fn envelope_round_trip_empty() {
    round_trip(0);
}

#[test]
fn envelope_round_trip_one_byte() {
    round_trip(1);
}

#[test]
fn envelope_round_trip_65536() {
    round_trip(65536);
}

#[test]
fn envelope_round_trip_larger_than_a_buffer() {
    round_trip(3 * 1024 * 1024 + 17);
}

#[test]
fn envelope_prefix_is_big_endian() {
    assert_eq!(length_prefix(0x0102_0304), vec![1, 2, 3, 4]);
    assert_eq!(length_prefix(0), vec![0, 0, 0, 0]);
    assert_eq!(length_prefix(u32::MAX), vec![255, 255, 255, 255]);
    let framed = encode_envelope(&[7, 8, 9]).unwrap();
    assert_eq!(framed, vec![0, 0, 0, 3, 7, 8, 9]);
}

#[test]
fn envelope_payload_length_reads_prefix() {
    assert_eq!(payload_length(&[0, 1, 0, 0]), Ok(65536));
    assert_eq!(payload_length(&[255, 255, 255, 255, 9]), Ok(u32::MAX as usize));
    assert_eq!(payload_length(&[0, 1, 0]), Err(EnvelopeError::Truncated));
}

#[test]
fn envelope_prefix_alone_is_truncated() {
    assert_eq!(decode_envelope(&[0, 0, 0, 5]), Err(EnvelopeError::Truncated));
}

#[test]
fn envelope_partial_payload_is_truncated() {
    assert_eq!(decode_envelope(&[0, 0, 0, 5, 1, 2, 3]), Err(EnvelopeError::Truncated));
    assert_eq!(decode_envelope(&[0, 0]), Err(EnvelopeError::Truncated));
    assert_eq!(decode_envelope(&[]), Err(EnvelopeError::Truncated));
}

#[test]
fn envelope_decode_stops_at_its_end() {
    let (p, used) = decode_envelope(&[0, 0, 0, 2, 10, 11, 0, 0, 0, 1, 12]).unwrap();
    assert_eq!(p, vec![10, 11]);
    assert_eq!(used, 6);
}
