use ogurpchik::error::HandshakeError;
use ogurpchik::wire::{
    decode_ack, decode_ack_packet, decode_client_auth, decode_hello, encode_ack, encode_client_auth,
    encode_frame, encode_hello, frame_body_len, rejection_reason, ACK_OK, ACK_REJECTED, HANDSHAKE_VERSION,
    MAX_PACKET_LEN,
};

#[test]
fn hello_has_the_documented_layout() {
    let nonce = [0xAAu8; 32];
    let body = encode_hello(1, &nonce);
    assert_eq!(body.len(), 1 + 2 + 1 + 2 + 32);
    assert_eq!(&body[..6], &[1u8, 1, 0, 1, 32, 0]);
    assert_eq!(decode_hello(&body), Ok((HANDSHAKE_VERSION, 1, nonce.to_vec())));
}

#[test]
fn client_auth_roundtrip() {
    let body = encode_client_auth(2, b"proof");
    assert_eq!(decode_client_auth(&body), Ok((HANDSHAKE_VERSION, 2, b"proof".to_vec())));
}

#[test]
fn packet_kinds_do_not_decode_as_each_other() {
    let hello = encode_hello(1, &[0u8; 32]);
    let auth = encode_client_auth(1, &[0u8; 32]);
    assert_eq!(decode_client_auth(&hello), Err(HandshakeError::MalformedPacket));
    assert_eq!(decode_hello(&auth), Err(HandshakeError::MalformedPacket));
    assert_eq!(decode_ack(&hello), Err(HandshakeError::MalformedPacket));
}

#[test]
fn trailing_or_missing_bytes_are_malformed() {
    let mut body = encode_hello(1, &[7u8; 4]);
    body.push(0);
    assert_eq!(decode_hello(&body), Err(HandshakeError::MalformedPacket));
    let short = encode_hello(1, &[7u8; 4]);
    assert_eq!(decode_hello(&short[..short.len() - 1]), Err(HandshakeError::MalformedPacket));
}

#[test]
fn ack_outcomes() {
    assert_eq!(decode_ack(&encode_ack(ACK_OK, b"")), Ok(()));
    assert_eq!(decode_ack(&encode_ack(ACK_REJECTED, b"no")), Err(HandshakeError::Rejected));
    assert_eq!(decode_ack_packet(&encode_ack(ACK_REJECTED, b"why")), Ok((ACK_REJECTED, b"why".to_vec())));
}

#[test]
fn frame_header_is_little_endian_length() {
    let frame = encode_frame(&[1, 2, 3]);
    assert_eq!(frame, vec![3, 0, 0, 0, 1, 2, 3]);
    assert_eq!(frame_body_len([3, 0, 0, 0]), Ok(3));
    assert_eq!(frame_body_len([0, 16, 0, 0]), Ok(MAX_PACKET_LEN));
    assert_eq!(frame_body_len([1, 16, 0, 0]), Err(HandshakeError::MalformedPacket));
}

#[test]
fn rejection_reason_only_for_rejections() {
    assert_eq!(rejection_reason(&encode_ack(ACK_REJECTED, b"busy")), Some(b"busy".to_vec()));
    assert_eq!(rejection_reason(&encode_ack(ACK_OK, b"")), None);
    assert_eq!(rejection_reason(&[9, 9]), None);
}
