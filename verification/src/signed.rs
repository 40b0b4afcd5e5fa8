//! Signed-process attestation: the public key and detached signature
//! formats, the signature check of a process image, and the PID-reuse guard
//! around it. Reading files and querying the OS is the caller's part; every
//! failure here is `SignedProcessVerificationFailed`.

use vstd::prelude::*;
use vstd::string::StringSliceAdditionalSpecFns;
use vstd::utf8::{decode_utf8, encode_utf8, valid_utf8};
use crate::crypto::{
    base64_decode, ed25519_key_is_valid, ed25519_verify, spec_base64_decode,
    spec_ed25519_key_valid, spec_ed25519_verify, utf8_text,
};
use crate::error::HandshakeError;
use crate::text::{is_ws, lemma_trim_surrounded, trim, trim_str};

verus! {

/// The bytes base64 text decodes to once surrounding whitespace is
/// trimmed, when the bytes are UTF-8 text and the text is valid base64.
pub open spec fn spec_base64_text(bytes: Seq<u8>) -> Option<Seq<u8>> {
    if valid_utf8(bytes) {
        spec_base64_decode(encode_utf8(trim(decode_utf8(bytes))))
    } else {
        None
    }
}

/// A configured public key: raw 32 bytes, or base64 text of them; it must
/// be a valid Ed25519 point.
pub open spec fn spec_parse_public_key(pk: Seq<u8>) -> Option<Seq<u8>> {
    let decoded = if pk.len() == 32 {
        Some(pk)
    } else {
        spec_base64_text(pk)
    };
    match decoded {
        Some(d) => if d.len() == 32 && spec_ed25519_key_valid(d) {
            Some(d)
        } else {
            None
        },
        None => None,
    }
}

/// A detached signature file: base64 text when it is that, the raw bytes
/// otherwise; it must come to exactly 64 bytes.
pub open spec fn spec_parse_signature(file: Seq<u8>) -> Option<Seq<u8>> {
    let raw = match spec_base64_text(file) {
        Some(d) => d,
        None => file,
    };
    if raw.len() == 64 {
        Some(raw)
    } else {
        None
    }
}

fn base64_text(bytes: &[u8]) -> (r: Option<Vec<u8>>)
    ensures
        match r {
            Some(v) => spec_base64_text(bytes@) == Some(v@),
            None => spec_base64_text(bytes@) is None,
        },
{
    match utf8_text(bytes) {
        None => None,
        Some(text) => {
            proof {
                vstd::utf8::decode_utf8_encode_utf8(bytes@);
                vstd::utf8::encode_utf8_decode_utf8(text@);
            }
            let trimmed = trim_str(text);
            let t = trimmed.as_str();
            base64_decode(t.as_bytes())
        },
    }
}

/// Reads a configured public key; see [`spec_parse_public_key`].
pub fn parse_verifying_key(public_key: &[u8]) -> (r: Result<Vec<u8>, HandshakeError>)
    ensures
        match r {
            Ok(k) => spec_parse_public_key(public_key@) == Some(k@),
            Err(e) => e == HandshakeError::SignedProcessVerificationFailed
                && spec_parse_public_key(public_key@) is None,
        },
{
    let decoded = if public_key.len() == 32 {
        vstd::slice::slice_to_vec(public_key)
    } else {
        match base64_text(public_key) {
            Some(d) => d,
            None => {
                return Err(HandshakeError::SignedProcessVerificationFailed);
            },
        }
    };
    if decoded.len() != 32 {
        return Err(HandshakeError::SignedProcessVerificationFailed);
    }
    if !ed25519_key_is_valid(decoded.as_slice()) {
        return Err(HandshakeError::SignedProcessVerificationFailed);
    }
    Ok(decoded)
}

/// Reads a detached signature file; see [`spec_parse_signature`].
pub fn parse_signature(file: &[u8]) -> (r: Result<Vec<u8>, HandshakeError>)
    ensures
        match r {
            Ok(s) => spec_parse_signature(file@) == Some(s@),
            Err(e) => e == HandshakeError::SignedProcessVerificationFailed
                && spec_parse_signature(file@) is None,
        },
{
    let raw = match base64_text(file) {
        Some(d) => d,
        None => vstd::slice::slice_to_vec(file),
    };
    if raw.len() == 64 {
        Ok(raw)
    } else {
        Err(HandshakeError::SignedProcessVerificationFailed)
    }
}

/// Whether an image with an optional detached signature passes: the key
/// must parse; an absent signature passes only when `accept_missing` (a
/// development build); a present one must parse and verify.
pub open spec fn spec_image_accepted(
    public_key: Seq<u8>,
    image: Seq<u8>,
    signature_file: Option<Seq<u8>>,
    accept_missing: bool,
) -> bool {
    match spec_parse_public_key(public_key) {
        None => false,
        Some(key) => match signature_file {
            None => accept_missing,
            Some(file) => match spec_parse_signature(file) {
                None => false,
                Some(sig) => spec_ed25519_verify(key, image, sig),
            },
        },
    }
}

/// Checks the signature of a process image. `signature_file` is `None` when
/// there is no signature file at all: tolerated only when `accept_missing`
/// (debug builds, so an unsigned rebuild can connect during development).
/// A signature that is present but wrong is fatal either way.
pub fn verify_signed_image(
    public_key: &[u8],
    image: &[u8],
    signature_file: Option<&[u8]>,
    accept_missing: bool,
) -> (r: Result<(), HandshakeError>)
    ensures
        r is Ok <==> spec_image_accepted(
            public_key@,
            image@,
            match signature_file {
                Some(f) => Some(f@),
                None => None,
            },
            accept_missing,
        ),
        r matches Err(e) ==> e == HandshakeError::SignedProcessVerificationFailed,
{
    let key = parse_verifying_key(public_key)?;
    let file = match signature_file {
        None => {
            return if accept_missing {
                Ok(())
            } else {
                Err(HandshakeError::SignedProcessVerificationFailed)
            };
        },
        Some(f) => f,
    };
    let sig = parse_signature(file)?;
    if ed25519_verify(key.as_slice(), image, sig.as_slice()) {
        Ok(())
    } else {
        Err(HandshakeError::SignedProcessVerificationFailed)
    }
}

/// The signature file next to an image: its path with `.sig` appended.
pub fn signature_path_for(image_path: &str) -> (p: String)
    ensures
        p@ == image_path@ + ".sig"@,
{
    let mut p = String::from_str(image_path);
    p.append(".sig");
    p
}

/// The PID-reuse guard: the process's creation time is read before the
/// (slow) image check and again after it; the first failure wins, and a
/// changed creation time means the PID was recycled in between.
pub open spec fn spec_process_verdict(
    created_before: Result<u64, HandshakeError>,
    image_check: Result<(), HandshakeError>,
    created_after: Result<u64, HandshakeError>,
) -> Result<(), HandshakeError> {
    match created_before {
        Err(e) => Err(e),
        Ok(t0) => match image_check {
            Err(e) => Err(e),
            Ok(()) => match created_after {
                Err(e) => Err(e),
                Ok(t1) => if t0 == t1 {
                    Ok(())
                } else {
                    Err(HandshakeError::SignedProcessVerificationFailed)
                },
            },
        },
    }
}

pub fn process_verdict(
    created_before: Result<u64, HandshakeError>,
    image_check: Result<(), HandshakeError>,
    created_after: Result<u64, HandshakeError>,
) -> (r: Result<(), HandshakeError>)
    ensures
        r == spec_process_verdict(created_before, image_check, created_after),
{
    let t0 = created_before?;
    image_check?;
    let t1 = created_after?;
    if t0 == t1 {
        Ok(())
    } else {
        Err(HandshakeError::SignedProcessVerificationFailed)
    }
}

/// A missing signature is waved through only in the relaxed mode, and only
/// for a valid key; a present signature is judged on its merits alone, the
/// same in both modes.
pub proof fn law_missing_signature_relaxation(public_key: Seq<u8>, image: Seq<u8>, file: Seq<u8>)
    ensures
        spec_image_accepted(public_key, image, None, true) == spec_parse_public_key(
            public_key,
        ) is Some,
        !spec_image_accepted(public_key, image, None, false),
        spec_image_accepted(public_key, image, Some(file), true) == spec_image_accepted(
            public_key,
            image,
            Some(file),
            false,
        ),
{
}

/// A detached signature written as base64 text parses to the signature it
/// encodes whatever whitespace surrounds the text (a trailing newline from
/// a text tool included).
pub proof fn law_signature_file_whitespace(
    before: Seq<char>,
    text: Seq<char>,
    after: Seq<char>,
    signature: Seq<u8>,
)
    requires
        forall|i: int| 0 <= i < before.len() ==> is_ws(#[trigger] before[i]),
        forall|i: int| 0 <= i < after.len() ==> is_ws(#[trigger] after[i]),
        text.len() > 0,
        !is_ws(text[0]),
        !is_ws(text.last()),
        spec_base64_decode(encode_utf8(text)) == Some(signature),
        signature.len() == 64,
    ensures
        spec_parse_signature(encode_utf8(before + text + after)) == Some(signature),
{
    let whole = before + text + after;
    vstd::utf8::encode_utf8_valid_utf8(whole);
    vstd::utf8::encode_utf8_decode_utf8(whole);
    lemma_trim_surrounded(before, text, after);
}

/// A public key given as base64 text parses to the key it encodes whatever
/// whitespace surrounds the text, when the text is not itself 32 bytes
/// long (32 bytes are taken as the raw key).
pub proof fn law_key_text_whitespace(before: Seq<char>, text: Seq<char>, after: Seq<char>, key: Seq<u8>)
    requires
        forall|i: int| 0 <= i < before.len() ==> is_ws(#[trigger] before[i]),
        forall|i: int| 0 <= i < after.len() ==> is_ws(#[trigger] after[i]),
        text.len() > 0,
        !is_ws(text[0]),
        !is_ws(text.last()),
        spec_base64_decode(encode_utf8(text)) == Some(key),
        key.len() == 32,
        spec_ed25519_key_valid(key),
        encode_utf8(before + text + after).len() != 32,
    ensures
        spec_parse_public_key(encode_utf8(before + text + after)) == Some(key),
{
    let whole = before + text + after;
    vstd::utf8::encode_utf8_valid_utf8(whole);
    vstd::utf8::encode_utf8_decode_utf8(whole);
    lemma_trim_surrounded(before, text, after);
}

} // verus!
