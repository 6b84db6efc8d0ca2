use bytes::BytesMut;
use golem_net::codec::error::CodecError;
use golem_net::codec::frame::{decode, decode_impl, encode, encode_impl, LEN_SZ};
use golem_net::message::SerializableMessage;

#[test]
fn frame_round_trip_small_payload() {
    let framed = encode(&[1u8, 2u8]).unwrap();
    assert_eq!(framed, vec![0u8, 0, 0, 2, 1, 2]);
    assert_eq!(decode(&framed), Some(vec![1u8, 2u8]));
}

#[test]
fn frame_of_empty_payload_is_four_zero_bytes() {
    let framed = encode(&[]).unwrap();
    assert_eq!(framed, vec![0u8, 0, 0, 0]);
    assert_eq!(decode(&framed), Some(Vec::<u8>::new()));
}

#[test]
fn frame_length_is_big_endian() {
    let payload = vec![7u8; 0x0102];
    let framed = encode(&payload).unwrap();
    assert_eq!(framed.len(), LEN_SZ + 0x0102);
    assert_eq!(&framed[..4], &[0u8, 0, 1, 2]);
    assert_eq!(decode(&framed), Some(payload));
}

#[test]
fn frame_on_wire_starts_with_encoded_size() {
    // A blob for protocol "p2p" with payload 01 02, as the structural
    // serializer writes it: variant 0, the three id bytes, the length, the bytes.
    let mut body: Vec<u8> = vec![0, 0, 0, 0];
    body.extend_from_slice(b"p2p");
    body.extend_from_slice(&[0, 0, 0, 0, 0, 0, 0, 2, 1, 2]);
    let n = body.len() as u8;
    let framed = encode(&body).unwrap();
    assert_eq!(&framed[..4], &[0u8, 0, 0, n]);
    assert_eq!(&framed[4..], &body[..]);
}

#[test]
fn every_proper_prefix_is_incomplete() {
    let framed = encode(&[9u8, 8, 7, 6, 5]).unwrap();
    for k in 0..framed.len() {
        assert_eq!(decode(&framed[..k]), None);
    }
    assert_eq!(decode(&framed), Some(vec![9u8, 8, 7, 6, 5]));
}

#[test]
fn decode_reads_the_first_frame_only() {
    let mut bytes = encode(&[1u8]).unwrap();
    bytes.extend_from_slice(&encode(&[2u8, 3]).unwrap());
    assert_eq!(decode(&bytes), Some(vec![1u8]));
}

#[test]
fn decode_impl_consumes_exactly_one_frame() {
    let mut buf = BytesMut::new();
    encode_impl(&[1u8, 2, 3], &mut buf).unwrap();
    encode_impl(&[4u8], &mut buf).unwrap();
    assert_eq!(buf.len(), 4 + 3 + 4 + 1);
    assert_eq!(decode_impl(&mut buf), Some(vec![1u8, 2, 3]));
    assert_eq!(&buf[..], &[0u8, 0, 0, 1, 4]);
    assert_eq!(decode_impl(&mut buf), Some(vec![4u8]));
    assert_eq!(buf.len(), 0);
    assert_eq!(decode_impl(&mut buf), None);
}

#[test]
fn decode_impl_leaves_an_incomplete_buffer_alone() {
    let mut buf = BytesMut::from(&[0u8, 0, 0, 5, 1, 2][..]);
    assert_eq!(decode_impl(&mut buf), None);
    assert_eq!(&buf[..], &[0u8, 0, 0, 5, 1, 2]);
    let mut short = BytesMut::from(&[0u8, 0, 0][..]);
    assert_eq!(decode_impl(&mut short), None);
    assert_eq!(&short[..], &[0u8, 0, 0]);
}

#[test]
fn encode_impl_appends_behind_what_is_there() {
    let mut buf = BytesMut::from(&[0xaau8][..]);
    encode_impl(&[0x10u8, 0x20], &mut buf).unwrap();
    assert_eq!(&buf[..], &[0xaau8, 0, 0, 0, 2, 0x10, 0x20]);
}

#[test]
fn length_prefix_reads_all_four_bytes() {
    // 0x01000000 bytes are announced and only two are there.
    assert_eq!(decode(&[1u8, 0, 0, 0, 1, 2]), None);
    assert_eq!(decode(&[0u8, 1, 0, 0, 1, 2]), None);
    assert_eq!(decode(&[0u8, 0, 1, 0, 1, 2]), None);
    assert_eq!(decode(&[0u8, 0, 0, 1, 1, 2]), Some(vec![1u8]));
}

#[test]
fn codec_error_keeps_its_message() {
    let e = CodecError::new("bincode error: eof");
    assert_eq!(e.description(), "bincode error: eof");
    assert_eq!(CodecError::unknown().description(), "unknown error");
}

#[test]
fn raw_bytes_are_their_own_wire_form() {
    let bytes = vec![1u8, 2, 3];
    assert_eq!(bytes.clone().into_bytes(), vec![1u8, 2, 3]);
    assert_eq!(<Vec<u8> as SerializableMessage>::from_bytes(&bytes), Ok(vec![1u8, 2, 3]));
}
