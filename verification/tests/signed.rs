use base64::Engine;
use ed25519_dalek::{Signer, SigningKey};
use ogurpchik::error::HandshakeError;
use ogurpchik::signed::{
    parse_signature, parse_verifying_key, process_verdict, signature_path_for, verify_signed_image,
};

fn encode(bytes: &[u8]) -> String {
    base64::engine::general_purpose::STANDARD.encode(bytes)
}

#[test]
fn verify_signed_file_accepts_detached_signature() {
    let image = b"fake gui binary";
    let secret_key = [7u8; 32];
    let signing_key = SigningKey::from_bytes(&secret_key);
    let signature = signing_key.sign(image);
    let signature_file = encode(&signature.to_bytes());

    verify_signed_image(
        &signing_key.verifying_key().to_bytes(),
        image,
        Some(signature_file.as_bytes()),
        false,
    )
    .expect("signature should verify");
}

/// The dev relaxation: an absent signature file passes only in the relaxed
/// (debug-build) mode and fails in the strict (release) one.
#[test]
fn missing_signature_is_accepted_only_in_debug_builds() {
    let image = b"freshly rebuilt, never signed";
    let public_key = SigningKey::from_bytes(&[7u8; 32]).verifying_key().to_bytes();

    verify_signed_image(&public_key, image, None, true)
        .expect("a debug build must accept a missing signature");
    let err = verify_signed_image(&public_key, image, None, false)
        .expect_err("a release build must reject a missing signature");
    assert_eq!(err, HandshakeError::SignedProcessVerificationFailed);
}

#[test]
fn present_but_invalid_signature_is_rejected_in_every_profile() {
    let signing_key = SigningKey::from_bytes(&[7u8; 32]);
    // A valid signature over *different* bytes - structurally fine, wrong image.
    let signature = signing_key.sign(b"some other binary");
    let signature_file = encode(&signature.to_bytes());
    for relaxed in [true, false] {
        verify_signed_image(
            &signing_key.verifying_key().to_bytes(),
            b"the actual binary",
            Some(signature_file.as_bytes()),
            relaxed,
        )
        .expect_err("a mismatched signature must be rejected");
    }
}

#[test]
fn raw_signature_bytes_and_base64_key_are_accepted() {
    let signing_key = SigningKey::from_bytes(&[3u8; 32]);
    let image = b"image";
    let raw = signing_key.sign(image).to_bytes();
    let key_text = format!("  {}\n", encode(&signing_key.verifying_key().to_bytes()));
    verify_signed_image(key_text.as_bytes(), image, Some(&raw), false).expect("raw signature");
}

#[test]
fn malformed_keys_and_signatures_are_refused() {
    assert_eq!(parse_verifying_key(b"not base64 at all!"), Err(HandshakeError::SignedProcessVerificationFailed));
    assert_eq!(parse_verifying_key(encode(&[1u8; 31]).as_bytes()), Err(HandshakeError::SignedProcessVerificationFailed));
    let key = SigningKey::from_bytes(&[5u8; 32]).verifying_key().to_bytes();
    assert_eq!(parse_verifying_key(&key), Ok(key.to_vec()));
    assert_eq!(parse_signature(&[0u8; 63]), Err(HandshakeError::SignedProcessVerificationFailed));
    assert_eq!(parse_signature(&[0u8; 64]), Ok(vec![0u8; 64]));
    assert_eq!(parse_signature(encode(&[9u8; 64]).as_bytes()), Ok(vec![9u8; 64]));
}

#[test]
fn signature_sits_next_to_the_image() {
    assert_eq!(signature_path_for(r"C:\apps\gui.exe"), r"C:\apps\gui.exe.sig");
}

#[test]
fn reused_pid_fails_closed() {
    assert_eq!(process_verdict(Ok(100), Ok(()), Ok(100)), Ok(()));
    assert_eq!(
        process_verdict(Ok(100), Ok(()), Ok(101)),
        Err(HandshakeError::SignedProcessVerificationFailed)
    );
    assert_eq!(process_verdict(Err(HandshakeError::Io), Ok(()), Ok(1)), Err(HandshakeError::Io));
    assert_eq!(
        process_verdict(Ok(1), Err(HandshakeError::SignedProcessVerificationFailed), Err(HandshakeError::Io)),
        Err(HandshakeError::SignedProcessVerificationFailed)
    );
}
