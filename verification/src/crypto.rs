//! Trusted boundary to the cryptography and randomness crates: HMAC-SHA256
//! (`hmac` + `sha2`), the OS random source (`getrandom`), base64 decoding
//! (`base64`) and Ed25519 (`ed25519-dalek`). Everything else in the library
//! is proved against the contracts stated here.

use vstd::prelude::*;
use vstd::string::StringSliceAdditionalSpecFns;

#[allow(unused_imports)]
use hmac::Mac;
#[allow(unused_imports)]
use base64::Engine;
#[allow(unused_imports)]
use ed25519_dalek::Verifier;

verus! {

/// HMAC-SHA256 of `message` under `key`, as the `hmac` crate computes it
/// over `sha2::Sha256`. A function of its two arguments alone.
pub uninterp spec fn spec_hmac_sha256(key: Seq<u8>, message: Seq<u8>) -> Seq<u8>;

/// Calls `Hmac::<Sha256>::new_from_slice(key)`, `update(message)` and
/// `finalize()`. Claimed: the tag is `spec_hmac_sha256(key, message)` and is
/// 32 bytes long (the output size of SHA-256). `new_from_slice` never fails
/// for HMAC, which accepts keys of any length.
#[verifier::external_body]
pub(crate) fn hmac_sha256(key: &[u8], message: &[u8]) -> (tag: Vec<u8>)
    ensures
        tag@ == spec_hmac_sha256(key@, message@),
        tag@.len() == 32,
{
    let mut mac = <hmac::Hmac<sha2::Sha256> as Mac>::new_from_slice(key).expect("any key length");
    mac.update(message);
    mac.finalize().into_bytes().to_vec()
}

/// Calls `Hmac::<Sha256>::new_from_slice(key)`, `update(message)` and
/// `verify_slice(proof)`. Claimed: it accepts exactly when `proof` equals the
/// tag `spec_hmac_sha256(key, message)` (`verify_slice` rejects a proof of
/// another length and compares the rest in constant time).
#[verifier::external_body]
pub(crate) fn hmac_sha256_verify(key: &[u8], message: &[u8], proof: &[u8]) -> (ok: bool)
    ensures
        ok == (proof@ == spec_hmac_sha256(key@, message@)),
{
    let mut mac = <hmac::Hmac<sha2::Sha256> as Mac>::new_from_slice(key).expect("any key length");
    mac.update(message);
    mac.verify_slice(proof).is_ok()
}

/// Evidence that the OS random source reported an error. Its field is
/// private: only [`random_bytes_32`] makes one, when the source failed.
#[derive(Debug)]
pub struct RandomSourceFailed {
    reported: (),
}

/// Calls `getrandom::fill` on a fresh 32-byte buffer. Claimed only that a
/// success yields 32 bytes; which bytes is chance. A failure of the source
/// comes back as a [`RandomSourceFailed`].
#[verifier::external_body]
pub(crate) fn random_bytes_32() -> (r: Result<Vec<u8>, RandomSourceFailed>)
    ensures
        r matches Ok(bytes) ==> bytes@.len() == 32,
{
    let mut buf = [0u8; 32];
    match getrandom::fill(&mut buf) {
        Ok(()) => Ok(buf.to_vec()),
        Err(_) => Err(RandomSourceFailed { reported: () }),
    }
}

/// Standard-alphabet, padded base64 decoding as the `base64` crate's
/// `general_purpose::STANDARD` engine does it; `None` for input it rejects.
pub uninterp spec fn spec_base64_decode(input: Seq<u8>) -> Option<Seq<u8>>;

/// Calls `base64::engine::general_purpose::STANDARD.decode(input)`.
/// Claimed: the outcome is `spec_base64_decode(input)`.
#[verifier::external_body]
pub(crate) fn base64_decode(input: &[u8]) -> (r: Option<Vec<u8>>)
    ensures
        match r {
            Some(v) => spec_base64_decode(input@) == Some(v@),
            None => spec_base64_decode(input@) is None,
        },
{
    base64::engine::general_purpose::STANDARD.decode(input).ok()
}

/// Whether 32 bytes are the compressed form of a point on the Ed25519
/// curve, as `ed25519_dalek::VerifyingKey::from_bytes` decides it.
pub uninterp spec fn spec_ed25519_key_valid(key: Seq<u8>) -> bool;

/// Whether `signature` is a valid Ed25519 signature of `message` under
/// `key`, as `ed25519_dalek`'s `Verifier::verify` decides it.
pub uninterp spec fn spec_ed25519_verify(key: Seq<u8>, message: Seq<u8>, signature: Seq<u8>) -> bool;

/// Calls `ed25519_dalek::VerifyingKey::from_bytes`. Claimed: it accepts
/// exactly the keys `spec_ed25519_key_valid` holds of.
#[verifier::external_body]
pub(crate) fn ed25519_key_is_valid(key: &[u8]) -> (ok: bool)
    requires
        key@.len() == 32,
    ensures
        ok == spec_ed25519_key_valid(key@),
{
    let bytes: [u8; 32] = key.try_into().expect("32 bytes");
    ed25519_dalek::VerifyingKey::from_bytes(&bytes).is_ok()
}

/// Calls `ed25519_dalek::VerifyingKey::from_bytes(key)` and `verify(message,
/// &Signature::from_bytes(signature))`. Claimed: the result is
/// `spec_ed25519_verify(key, message, signature)`.
#[verifier::external_body]
pub(crate) fn ed25519_verify(key: &[u8], message: &[u8], signature: &[u8]) -> (ok: bool)
    requires
        key@.len() == 32,
        signature@.len() == 64,
        spec_ed25519_key_valid(key@),
    ensures
        ok == spec_ed25519_verify(key@, message@, signature@),
{
    let key_bytes: [u8; 32] = key.try_into().expect("32 bytes");
    let sig_bytes: [u8; 64] = signature.try_into().expect("64 bytes");
    match ed25519_dalek::VerifyingKey::from_bytes(&key_bytes) {
        Ok(k) => k.verify(message, &ed25519_dalek::Signature::from_bytes(&sig_bytes)).is_ok(),
        Err(_) => false,
    }
}

/// Calls `std::str::from_utf8`. Claimed, as std documents: it succeeds
/// exactly on valid UTF-8, and the text it returns has exactly these bytes.
#[verifier::external_body]
pub(crate) fn utf8_text(bytes: &[u8]) -> (r: Option<&str>)
    ensures
        r is Some <==> vstd::utf8::valid_utf8(bytes@),
        r matches Some(s) ==> s.spec_bytes() == bytes@,
{
    std::str::from_utf8(bytes).ok()
}

} // verus!
