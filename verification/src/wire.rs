//! Handshake wire format.
//!
//! Every packet travels as a frame: a `u32` little-endian body length, then
//! the body. Bodies (all integers little-endian):
//!
//! - `Hello`      (server→client): `tag=1, version:u16, scheme:u8, nonce_len:u16, nonce`
//! - `ClientAuth` (client→server): `tag=2, version:u16, scheme:u8, proof_len:u16, proof`
//! - `Ack`        (server→client): `tag=3, status:u8, reason_len:u16, reason`
//!
//! A body decodes only if it is exactly as long as its declared payload says:
//! a short body or trailing bytes are both malformed.

use vstd::prelude::*;
use crate::error::HandshakeError;

verus! {

pub const HANDSHAKE_VERSION: u16 = 1;
pub const NONCE_LEN: usize = 32;
/// Legitimate handshake packets are tiny; a bigger declared length is a peer to drop.
pub const MAX_PACKET_LEN: u32 = 4096;
pub const TAG_HELLO: u8 = 1;
pub const TAG_CLIENT_AUTH: u8 = 2;
pub const TAG_ACK: u8 = 3;
pub const ACK_OK: u8 = 0;
pub const ACK_REJECTED: u8 = 1;

// ---- byte-level model ----

pub open spec fn le16(v: u16) -> Seq<u8> {
    seq![(v % 256) as u8, (v / 256) as u8]
}

pub open spec fn read_le16(b: Seq<u8>, i: int) -> u16 {
    (b[i] as int + 256 * (b[i + 1] as int)) as u16
}

pub open spec fn le32(v: u32) -> Seq<u8> {
    seq![
        (v % 256) as u8,
        ((v / 256) % 256) as u8,
        ((v / 65536) % 256) as u8,
        (v / 16777216) as u8,
    ]
}

pub open spec fn read_le32(b: Seq<u8>) -> u32 {
    (b[0] as int + 256 * (b[1] as int) + 65536 * (b[2] as int) + 16777216 * (b[3] as int)) as u32
}

/// The value a `u16` length field holds for a payload of `n` bytes: the
/// length, cut to 16 bits as the field's width cuts it.
pub open spec fn len16(n: nat) -> u16 {
    (n % 65536) as u16
}

/// The value a `u32` frame header holds for a body of `n` bytes.
pub open spec fn len32(n: nat) -> u32 {
    (n % 4294967296) as u32
}

/// A tagged body: tag, fixed header bytes, 16-bit payload length, payload.
pub open spec fn spec_tagged(tag: u8, header: Seq<u8>, payload: Seq<u8>) -> Seq<u8> {
    seq![tag] + header + le16(len16(payload.len())) + payload
}

pub open spec fn spec_hello_body(version: u16, scheme: u8, nonce: Seq<u8>) -> Seq<u8> {
    spec_tagged(TAG_HELLO, le16(version) + seq![scheme], nonce)
}

pub open spec fn spec_client_auth_body(version: u16, scheme: u8, proof: Seq<u8>) -> Seq<u8> {
    spec_tagged(TAG_CLIENT_AUTH, le16(version) + seq![scheme], proof)
}

pub open spec fn spec_ack_body(status: u8, reason: Seq<u8>) -> Seq<u8> {
    spec_tagged(TAG_ACK, seq![status], reason)
}

pub open spec fn spec_frame(body: Seq<u8>) -> Seq<u8> {
    le32(len32(body.len())) + body
}

/// Splits a body with `header_len` fixed header bytes into (tag, header,
/// payload), when its length matches the declared payload length exactly.
pub open spec fn spec_split_tagged(body: Seq<u8>, header_len: int) -> Option<(u8, Seq<u8>, Seq<u8>)> {
    if body.len() >= header_len + 3 && body.len() == header_len + 3 + read_le16(
        body,
        header_len + 1,
    ) {
        Some(
            (
                body[0],
                body.subrange(1, header_len + 1),
                body.subrange(header_len + 3, body.len() as int),
            ),
        )
    } else {
        None
    }
}

/// `Some((version, scheme, payload))` when `body` is a well-formed packet with tag `tag`.
pub open spec fn spec_decode_versioned(body: Seq<u8>, tag: u8) -> Option<(u16, u8, Seq<u8>)> {
    match spec_split_tagged(body, 3) {
        Some((t, header, payload)) => if t == tag {
            Some((read_le16(header, 0), header[2], payload))
        } else {
            None
        },
        None => None,
    }
}

pub open spec fn spec_decode_hello(body: Seq<u8>) -> Option<(u16, u8, Seq<u8>)> {
    spec_decode_versioned(body, TAG_HELLO)
}

pub open spec fn spec_decode_client_auth(body: Seq<u8>) -> Option<(u16, u8, Seq<u8>)> {
    spec_decode_versioned(body, TAG_CLIENT_AUTH)
}

/// `Some((status, reason))` when `body` is a well-formed `Ack`.
pub open spec fn spec_decode_ack(body: Seq<u8>) -> Option<(u8, Seq<u8>)> {
    match spec_split_tagged(body, 1) {
        Some((t, header, payload)) => if t == TAG_ACK {
            Some((header[0], payload))
        } else {
            None
        },
        None => None,
    }
}

/// What an `Ack` body means to the client: `Ok` for an accepting ack,
/// `Rejected` for any other status, `MalformedPacket` if it is no ack at all.
pub open spec fn spec_ack_result(body: Seq<u8>) -> Result<(), HandshakeError> {
    match spec_decode_ack(body) {
        Some((status, _)) => if status == ACK_OK {
            Ok(())
        } else {
            Err(HandshakeError::Rejected)
        },
        None => Err(HandshakeError::MalformedPacket),
    }
}

/// The reason text of a rejecting `Ack` body; `None` for an accepting or
/// malformed one.
pub open spec fn spec_rejection_reason(body: Seq<u8>) -> Option<Seq<u8>> {
    match spec_decode_ack(body) {
        Some((status, reason)) => if status != ACK_OK {
            Some(reason)
        } else {
            None
        },
        None => None,
    }
}

// ---- exec helpers ----

fn push_le16(out: &mut Vec<u8>, v: u16)
    ensures
        final(out)@ == old(out)@ + le16(v),
{
    out.push((v % 256) as u8);
    out.push((v / 256) as u8);
    assert(final(out)@ =~= old(out)@ + le16(v));
}

fn push_all(out: &mut Vec<u8>, src: &[u8])
    ensures
        final(out)@ == old(out)@ + src@,
{
    let ghost start = out@;
    let mut i: usize = 0;
    while i < src.len()
        invariant
            i <= src@.len(),
            out@ == start + src@.subrange(0, i as int),
        decreases src@.len() - i,
    {
        out.push(src[i]);
        i = i + 1;
        assert(out@ =~= start + src@.subrange(0, i as int));
    }
    assert(src@.subrange(0, src@.len() as int) =~= src@);
}

fn copy_range(src: &[u8], from: usize, to: usize) -> (out: Vec<u8>)
    requires
        from <= to <= src@.len(),
    ensures
        out@ == src@.subrange(from as int, to as int),
{
    let mut out: Vec<u8> = Vec::new();
    let mut i = from;
    while i < to
        invariant
            from <= i <= to <= src@.len(),
            out@ == src@.subrange(from as int, i as int),
        decreases to - i,
    {
        out.push(src[i]);
        i = i + 1;
        assert(out@ =~= src@.subrange(from as int, i as int));
    }
    out
}

fn get_le16(b: &[u8], i: usize) -> (v: u16)
    requires
        i + 1 < b@.len(),
    ensures
        v == read_le16(b@, i as int),
{
    (b[i] as u16) + 256 * (b[i + 1] as u16)
}

/// Builds a tagged body; the payload length field is cut to 16 bits.
fn encode_tagged(tag: u8, header: &[u8], payload: &[u8]) -> (out: Vec<u8>)
    ensures
        out@ == spec_tagged(tag, header@, payload@),
{
    let mut out: Vec<u8> = Vec::new();
    out.push(tag);
    push_all(&mut out, header);
    let n: u16 = (payload.len() % 65536) as u16;
    push_le16(&mut out, n);
    push_all(&mut out, payload);
    assert(out@ =~= spec_tagged(tag, header@, payload@));
    out
}

fn version_header(version: u16, scheme: u8) -> (h: Vec<u8>)
    ensures
        h@ == le16(version) + seq![scheme],
{
    let mut h: Vec<u8> = Vec::new();
    push_le16(&mut h, version);
    h.push(scheme);
    h
}

/// Splits a body into tag, header and payload; see [`spec_split_tagged`].
fn split_tagged(body: &[u8], header_len: usize) -> (r: Option<(u8, Vec<u8>, Vec<u8>)>)
    requires
        header_len <= 8,
    ensures
        match r {
            Some((t, h, p)) => spec_split_tagged(body@, header_len as int) == Some(
                (t, h@, p@),
            ),
            None => spec_split_tagged(body@, header_len as int) is None,
        },
{
    if body.len() < header_len + 3 {
        return None;
    }
    let declared = get_le16(body, header_len + 1);
    if body.len() - (header_len + 3) != declared as usize {
        return None;
    }
    let header = copy_range(body, 1, header_len + 1);
    let payload = copy_range(body, header_len + 3, body.len());
    Some((body[0], header, payload))
}

fn decode_versioned(body: &[u8], tag: u8) -> (r: Result<(u16, u8, Vec<u8>), HandshakeError>)
    ensures
        match r {
            Ok((v, s, p)) => spec_decode_versioned(body@, tag) == Some((v, s, p@)),
            Err(e) => e == HandshakeError::MalformedPacket && spec_decode_versioned(
                body@,
                tag,
            ) is None,
        },
{
    match split_tagged(body, 3) {
        Some((t, header, payload)) => {
            if t != tag {
                return Err(HandshakeError::MalformedPacket);
            }
            let version = get_le16(header.as_slice(), 0);
            Ok((version, header[2], payload))
        },
        None => Err(HandshakeError::MalformedPacket),
    }
}

// ---- public codec ----

/// The `Hello` body the server opens with.
pub fn encode_hello(scheme: u8, nonce: &[u8]) -> (out: Vec<u8>)
    ensures
        out@ == spec_hello_body(HANDSHAKE_VERSION, scheme, nonce@),
{
    let header = version_header(HANDSHAKE_VERSION, scheme);
    encode_tagged(TAG_HELLO, header.as_slice(), nonce)
}

/// Decodes a `Hello` body into `(version, scheme, nonce)`.
pub fn decode_hello(body: &[u8]) -> (r: Result<(u16, u8, Vec<u8>), HandshakeError>)
    ensures
        match r {
            Ok((v, s, n)) => spec_decode_hello(body@) == Some((v, s, n@)),
            Err(e) => e == HandshakeError::MalformedPacket && spec_decode_hello(body@) is None,
        },
{
    decode_versioned(body, TAG_HELLO)
}

/// The `ClientAuth` body the client answers with.
pub fn encode_client_auth(scheme: u8, proof: &[u8]) -> (out: Vec<u8>)
    ensures
        out@ == spec_client_auth_body(HANDSHAKE_VERSION, scheme, proof@),
{
    let header = version_header(HANDSHAKE_VERSION, scheme);
    encode_tagged(TAG_CLIENT_AUTH, header.as_slice(), proof)
}

/// Decodes a `ClientAuth` body into `(version, scheme, proof)`.
pub fn decode_client_auth(body: &[u8]) -> (r: Result<(u16, u8, Vec<u8>), HandshakeError>)
    ensures
        match r {
            Ok((v, s, p)) => spec_decode_client_auth(body@) == Some((v, s, p@)),
            Err(e) => e == HandshakeError::MalformedPacket && spec_decode_client_auth(body@) is None,
        },
{
    decode_versioned(body, TAG_CLIENT_AUTH)
}

/// The `Ack` body that ends a handshake, with a status and a reason.
pub fn encode_ack(status: u8, reason: &[u8]) -> (out: Vec<u8>)
    ensures
        out@ == spec_ack_body(status, reason@),
{
    let mut header: Vec<u8> = Vec::new();
    header.push(status);
    encode_tagged(TAG_ACK, header.as_slice(), reason)
}

/// Decodes an `Ack` body into `(status, reason)`.
pub fn decode_ack_packet(body: &[u8]) -> (r: Result<(u8, Vec<u8>), HandshakeError>)
    ensures
        match r {
            Ok((s, reason)) => spec_decode_ack(body@) == Some((s, reason@)),
            Err(e) => e == HandshakeError::MalformedPacket && spec_decode_ack(body@) is None,
        },
{
    match split_tagged(body, 1) {
        Some((t, header, payload)) => {
            if t != TAG_ACK {
                return Err(HandshakeError::MalformedPacket);
            }
            Ok((header[0], payload))
        },
        None => Err(HandshakeError::MalformedPacket),
    }
}

/// What an `Ack` means to the client: `Ok(())` when the server accepted,
/// `Rejected` for any other status, `MalformedPacket` for a broken body.
pub fn decode_ack(body: &[u8]) -> (r: Result<(), HandshakeError>)
    ensures
        r == spec_ack_result(body@),
{
    match decode_ack_packet(body) {
        Ok((status, _reason)) => if status == ACK_OK {
            Ok(())
        } else {
            Err(HandshakeError::Rejected)
        },
        Err(e) => Err(e),
    }
}

/// The reason a rejecting `Ack` gives; see [`spec_rejection_reason`].
pub fn rejection_reason(body: &[u8]) -> (r: Option<Vec<u8>>)
    ensures
        match r {
            Some(v) => spec_rejection_reason(body@) == Some(v@),
            None => spec_rejection_reason(body@) is None,
        },
{
    match decode_ack_packet(body) {
        Ok((status, reason)) => if status != ACK_OK {
            Some(reason)
        } else {
            None
        },
        Err(_) => None,
    }
}

/// Frames a body for the wire: its `u32` little-endian length, then the body.
/// The length field is cut to 32 bits.
pub fn encode_frame(body: &[u8]) -> (out: Vec<u8>)
    ensures
        out@ == spec_frame(body@),
{
    let n: u32 = (body.len() as u64 % 4294967296u64) as u32;
    let mut out: Vec<u8> = Vec::new();
    out.push((n % 256) as u8);
    out.push(((n / 256) % 256) as u8);
    out.push(((n / 65536) % 256) as u8);
    out.push((n / 16777216) as u8);
    push_all(&mut out, body);
    assert(out@ =~= spec_frame(body@));
    out
}

/// Reads a frame header: the body length it declares, or `MalformedPacket`
/// when that exceeds [`MAX_PACKET_LEN`] (checked before any body is read).
pub fn frame_body_len(header: [u8; 4]) -> (r: Result<u32, HandshakeError>)
    ensures
        read_le32(header@) <= MAX_PACKET_LEN ==> r == Ok::<u32, HandshakeError>(
            read_le32(header@),
        ),
        read_le32(header@) > MAX_PACKET_LEN ==> r == Err::<u32, HandshakeError>(
            HandshakeError::MalformedPacket,
        ),
{
    let len: u64 = header[0] as u64 + 256 * (header[1] as u64) + 65536 * (header[2] as u64)
        + 16777216 * (header[3] as u64);
    if len > MAX_PACKET_LEN as u64 {
        Err(HandshakeError::MalformedPacket)
    } else {
        Ok(len as u32)
    }
}

// ---- laws ----

pub proof fn lemma_le16_roundtrip(v: u16)
    ensures
        le16(v).len() == 2,
        read_le16(le16(v), 0) == v,
{
}

pub proof fn lemma_split_tagged(tag: u8, header: Seq<u8>, payload: Seq<u8>)
    requires
        payload.len() <= 65535,
    ensures
        spec_split_tagged(spec_tagged(tag, header, payload), header.len() as int) == Some(
            (tag, header, payload),
        ),
{
    let b = spec_tagged(tag, header, payload);
    let h = header.len() as int;
    let l = le16(len16(payload.len()));
    assert(b[h + 1] == l[0]);
    assert(b[h + 2] == l[1]);
    assert(read_le16(b, h + 1) == read_le16(l, 0));
    lemma_le16_roundtrip(len16(payload.len()));
    assert(b.subrange(1, h + 1) =~= header);
    assert(b.subrange(h + 3, b.len() as int) =~= payload);
}

/// A `Hello` decodes to exactly the version, scheme and nonce it was encoded
/// from, for any nonce a 16-bit length can describe.
pub proof fn law_hello_roundtrip(version: u16, scheme: u8, nonce: Seq<u8>)
    requires
        nonce.len() <= 65535,
    ensures
        spec_decode_hello(spec_hello_body(version, scheme, nonce)) == Some((version, scheme, nonce)),
{
    let header = le16(version) + seq![scheme];
    lemma_split_tagged(TAG_HELLO, header, nonce);
    lemma_le16_roundtrip(version);
    assert(read_le16(header, 0) == read_le16(le16(version), 0));
}

/// A `ClientAuth` decodes to exactly the version, scheme and proof it was
/// encoded from, for any proof a 16-bit length can describe.
pub proof fn law_client_auth_roundtrip(version: u16, scheme: u8, proof: Seq<u8>)
    requires
        proof.len() <= 65535,
    ensures
        spec_decode_client_auth(spec_client_auth_body(version, scheme, proof)) == Some(
            (version, scheme, proof),
        ),
{
    let header = le16(version) + seq![scheme];
    lemma_split_tagged(TAG_CLIENT_AUTH, header, proof);
    lemma_le16_roundtrip(version);
    assert(read_le16(header, 0) == read_le16(le16(version), 0));
}

/// An `Ack` decodes to exactly the status and reason it was encoded from;
/// the client reads it as accepted exactly when the status is `ACK_OK`.
pub proof fn law_ack_roundtrip(status: u8, reason: Seq<u8>)
    requires
        reason.len() <= 65535,
    ensures
        spec_decode_ack(spec_ack_body(status, reason)) == Some((status, reason)),
        spec_ack_result(spec_ack_body(status, reason)) == (if status == ACK_OK {
            Ok::<(), HandshakeError>(())
        } else {
            Err::<(), HandshakeError>(HandshakeError::Rejected)
        }),
        spec_rejection_reason(spec_ack_body(status, reason)) == (if status == ACK_OK {
            None
        } else {
            Some(reason)
        }),
{
    lemma_split_tagged(TAG_ACK, seq![status], reason);
}

/// An `Ack` reads as `Rejected` exactly when it carries a rejection reason.
pub proof fn law_rejected_exactly_with_reason(body: Seq<u8>)
    ensures
        spec_ack_result(body) == Err::<(), HandshakeError>(HandshakeError::Rejected)
            <==> spec_rejection_reason(body) is Some,
{
}

/// A well-formed body is the encoding of what it decodes to: decoding loses
/// nothing and accepts no second spelling of a packet.
pub proof fn law_hello_decode_is_canonical(body: Seq<u8>)
    requires
        spec_decode_hello(body) is Some,
    ensures
        ({
            let (v, s, n) = spec_decode_hello(body)->Some_0;
            body == spec_hello_body(v, s, n)
        }),
{
    let (v, s, n) = spec_decode_hello(body)->Some_0;
    let h = body.subrange(1, 4);
    assert(h =~= le16(read_le16(h, 0)) + seq![h[2]]);
    assert(body.subrange(4, 6) =~= le16(len16(n.len())));
    assert(body =~= spec_hello_body(v, s, n));
}

/// Packets of different kinds never decode as one another: a body carries
/// its kind in its first byte.
pub proof fn law_packet_kinds_are_distinct(body: Seq<u8>)
    ensures
        !(spec_decode_hello(body) is Some && spec_decode_client_auth(body) is Some),
        !(spec_decode_hello(body) is Some && spec_decode_ack(body) is Some),
        !(spec_decode_client_auth(body) is Some && spec_decode_ack(body) is Some),
{
}

/// The `ClientAuth` a client sends has the documented byte layout: tag 2,
/// the version as `u16` little-endian (bytes 1-2), the scheme (byte 3),
/// the proof length as `u16` little-endian (bytes 4-5), then the proof.
pub proof fn law_client_auth_layout(scheme: u8, proof: Seq<u8>)
    requires
        proof.len() <= 65535,
    ensures
        ({
            let b = spec_client_auth_body(HANDSHAKE_VERSION, scheme, proof);
            &&& b.len() == 6 + proof.len()
            &&& b[0] == 2 && b[1] == 1 && b[2] == 0 && b[3] == scheme
            &&& b[4] as int == proof.len() % 256 && b[5] as int == proof.len() / 256
            &&& b.subrange(6, b.len() as int) == proof
        }),
{
    let b = spec_client_auth_body(HANDSHAKE_VERSION, scheme, proof);
    assert(b.subrange(6, b.len() as int) =~= proof);
}

/// A body in the documented `ClientAuth` layout reads as the version in
/// bytes 1-2, the scheme in byte 3 and the proof after byte 5, whenever
/// the length in bytes 4-5 matches.
pub proof fn law_client_auth_reads_documented_layout(body: Seq<u8>)
    requires
        body.len() >= 6,
        body[0] == 2,
        body.len() == 6 + body[4] + 256 * body[5],
    ensures
        spec_decode_client_auth(body) == Some(
            ((body[1] + 256 * body[2]) as u16, body[3], body.subrange(6, body.len() as int)),
        ),
{
    let header = body.subrange(1, 4);
    assert(header[0] == body[1] && header[1] == body[2] && header[2] == body[3]);
}

/// The `Hello` a server sends has the documented byte layout: tag 1, the
/// version (bytes 1-2), the scheme (byte 3), the nonce length (bytes
/// 4-5), then the nonce.
pub proof fn law_hello_layout(scheme: u8, nonce: Seq<u8>)
    requires
        nonce.len() <= 65535,
    ensures
        ({
            let b = spec_hello_body(HANDSHAKE_VERSION, scheme, nonce);
            &&& b.len() == 6 + nonce.len()
            &&& b[0] == 1 && b[1] == 1 && b[2] == 0 && b[3] == scheme
            &&& b[4] as int == nonce.len() % 256 && b[5] as int == nonce.len() / 256
            &&& b.subrange(6, b.len() as int) == nonce
        }),
{
    let b = spec_hello_body(HANDSHAKE_VERSION, scheme, nonce);
    assert(b.subrange(6, b.len() as int) =~= nonce);
}

/// A body in the documented `Hello` layout reads as the version in bytes
/// 1-2, the scheme in byte 3 and the nonce after byte 5.
pub proof fn law_hello_reads_documented_layout(body: Seq<u8>)
    requires
        body.len() >= 6,
        body[0] == 1,
        body.len() == 6 + body[4] + 256 * body[5],
    ensures
        spec_decode_hello(body) == Some(
            ((body[1] + 256 * body[2]) as u16, body[3], body.subrange(6, body.len() as int)),
        ),
{
    let header = body.subrange(1, 4);
    assert(header[0] == body[1] && header[1] == body[2] && header[2] == body[3]);
}

/// The `Ack` has the documented byte layout: tag 3, the status (byte 1),
/// the reason length (bytes 2-3), then the reason.
pub proof fn law_ack_layout(status: u8, reason: Seq<u8>)
    requires
        reason.len() <= 65535,
    ensures
        ({
            let b = spec_ack_body(status, reason);
            &&& b.len() == 4 + reason.len()
            &&& b[0] == 3 && b[1] == status
            &&& b[2] as int == reason.len() % 256 && b[3] as int == reason.len() / 256
            &&& b.subrange(4, b.len() as int) == reason
        }),
{
    let b = spec_ack_body(status, reason);
    assert(b.subrange(4, b.len() as int) =~= reason);
}

/// A frame is the body's length as `u32` little-endian, then the body.
pub proof fn law_frame_layout(body: Seq<u8>)
    requires
        body.len() <= 0xffff_ffff,
    ensures
        ({
            let f = spec_frame(body);
            &&& f.len() == 4 + body.len()
            &&& f[0] as int == body.len() % 256
            &&& f[1] as int == (body.len() / 256) % 256
            &&& f[2] as int == (body.len() / 65536) % 256
            &&& f[3] as int == body.len() / 16777216
            &&& f.subrange(4, f.len() as int) == body
        }),
{
    let f = spec_frame(body);
    assert(f.subrange(4, f.len() as int) =~= body);
}

/// A frame header reads back the length of the body it was built for.
pub proof fn law_frame_header_roundtrip(body: Seq<u8>)
    ensures
        spec_frame(body).subrange(4, spec_frame(body).len() as int) == body,
        read_le32(spec_frame(body).subrange(0, 4)) == len32(body.len()),
{
    let f = spec_frame(body);
    assert(f.subrange(4, f.len() as int) =~= body);
    let n = len32(body.len());
    assert(f.subrange(0, 4) =~= le32(n));
}

} // verus!
