//! The pre-RPC handshake as two decision machines.
//!
//! The server sends one `Hello`, reads one `ClientAuth`, verifies it and
//! answers with an `Ack`; on any validation failure a rejecting `Ack` is
//! sent first (best effort) so the client gets a reason instead of a silent
//! hang. The client reads the `Hello` (or an immediate rejecting `Ack`),
//! answers with its proof and reads the final `Ack`.
//!
//! The machines decide; the caller moves bytes. A step takes the current
//! state and one event (a packet read, a send that failed, ...) and yields the
//! next state and at most one frame to send.

use vstd::prelude::*;
use crate::crypto::{
    hmac_sha256, hmac_sha256_verify, random_bytes_32, spec_hmac_sha256, RandomSourceFailed,
};
use crate::error::HandshakeError;
use vstd::string::StringSliceAdditionalSpecFns;
use crate::wire::{
    law_ack_roundtrip, law_client_auth_roundtrip, law_frame_header_roundtrip, law_hello_roundtrip,
    encode_ack, encode_client_auth, encode_frame, encode_hello, decode_ack, decode_client_auth,
    decode_hello, le16, rejection_reason, spec_ack_body, spec_ack_result, spec_client_auth_body,
    spec_decode_client_auth, spec_decode_hello, spec_rejection_reason, spec_frame, spec_hello_body, ACK_OK, ACK_REJECTED, HANDSHAKE_VERSION,
    NONCE_LEN, TAG_ACK, TAG_HELLO,
};

verus! {

/// How a connection authenticates before the RPC session starts.
#[derive(Clone, Debug)]
pub enum HandshakeMode {
    /// No handshake at all.
    Disabled,
    /// Only the protocol version and scheme are checked.
    VersionOnly,
    /// The client proves knowledge of a shared secret over a fresh nonce.
    HmacSha256 { secret: Vec<u8> },
    /// The server attests the client process through the OS and checks the
    /// signature of its image against a public key.
    SignedProcess { public_key: Vec<u8> },
}

/// The mathematical model of a [`HandshakeMode`].
pub enum ModeModel {
    Disabled,
    VersionOnly,
    HmacSha256 { secret: Seq<u8> },
    SignedProcess { public_key: Seq<u8> },
}

impl View for HandshakeMode {
    type V = ModeModel;

    open spec fn view(&self) -> ModeModel {
        match self {
            HandshakeMode::Disabled => ModeModel::Disabled,
            HandshakeMode::VersionOnly => ModeModel::VersionOnly,
            HandshakeMode::HmacSha256 { secret } => ModeModel::HmacSha256 { secret: secret@ },
            HandshakeMode::SignedProcess { public_key } => ModeModel::SignedProcess {
                public_key: public_key@,
            },
        }
    }
}

/// The scheme number a mode announces on the wire.
pub open spec fn spec_scheme_id(m: ModeModel) -> u8 {
    match m {
        ModeModel::Disabled => 0,
        ModeModel::VersionOnly => 0,
        ModeModel::HmacSha256 { .. } => 1,
        ModeModel::SignedProcess { .. } => 2,
    }
}

impl Default for HandshakeMode {
    fn default() -> (m: Self)
        ensures
            m@ == ModeModel::Disabled,
    {
        HandshakeMode::Disabled
    }
}

impl HandshakeMode {
    /// A copy of this mode, secret or key included.
    pub fn duplicate(&self) -> (m: Self)
        ensures
            m@ == self@,
    {
        match self {
            HandshakeMode::Disabled => HandshakeMode::Disabled,
            HandshakeMode::VersionOnly => HandshakeMode::VersionOnly,
            HandshakeMode::HmacSha256 { secret } => HandshakeMode::HmacSha256 { secret: secret.clone() },
            HandshakeMode::SignedProcess { public_key } => HandshakeMode::SignedProcess {
                public_key: public_key.clone(),
            },
        }
    }

    pub fn version_only() -> (m: Self)
        ensures
            m@ == ModeModel::VersionOnly,
    {
        HandshakeMode::VersionOnly
    }

    pub fn hmac(secret: Vec<u8>) -> (m: Self)
        ensures
            m@ == (ModeModel::HmacSha256 { secret: secret@ }),
    {
        HandshakeMode::HmacSha256 { secret }
    }

    pub fn signed_process(public_key: Vec<u8>) -> (m: Self)
        ensures
            m@ == (ModeModel::SignedProcess { public_key: public_key@ }),
    {
        HandshakeMode::SignedProcess { public_key }
    }

    /// The scheme number this mode announces on the wire.
    pub fn scheme_id(&self) -> (id: u8)
        ensures
            id == spec_scheme_id(self@),
    {
        match self {
            HandshakeMode::Disabled => 0,
            HandshakeMode::VersionOnly => 0,
            HandshakeMode::HmacSha256 { .. } => 1,
            HandshakeMode::SignedProcess { .. } => 2,
        }
    }
}

/// What a transport can tell about the process on the other end, taken from
/// the OS and never from anything the peer sent.
#[derive(Debug, Clone, Copy, PartialEq, Eq, Structural)]
pub enum PeerIdentity {
    Pid { pid: u32 },
    Unknown,
}

// ---- shared pieces of the protocol ----

/// The bytes the HMAC proof covers: a fixed label, the version, the nonce.
pub open spec fn spec_hmac_message(nonce: Seq<u8>) -> Seq<u8> {
    "ogurpchik/handshake/v1".spec_bytes() + le16(HANDSHAKE_VERSION) + nonce
}

/// The proof a client in mode `m` sends for `nonce`.
pub open spec fn spec_client_proof(m: ModeModel, nonce: Seq<u8>) -> Seq<u8> {
    match m {
        ModeModel::HmacSha256 { secret } => spec_hmac_sha256(secret, spec_hmac_message(nonce)),
        _ => Seq::empty(),
    }
}

/// Decimal digits of `n`, most significant first.
pub open spec fn spec_decimal(n: nat) -> Seq<u8>
    decreases n,
{
    if n < 10 {
        seq![(48 + n) as u8]
    } else {
        spec_decimal(n / 10).push((48 + n % 10) as u8)
    }
}

pub open spec fn spec_version_reason(client: u16) -> Seq<u8> {
    "unsupported handshake version: client=".spec_bytes() + spec_decimal(client as nat)
        + " server=".spec_bytes() + spec_decimal(HANDSHAKE_VERSION as nat)
}

pub open spec fn spec_scheme_reason(client: u8, server: u8) -> Seq<u8> {
    "handshake auth mismatch: client=".spec_bytes() + spec_decimal(client as nat)
        + " server=".spec_bytes() + spec_decimal(server as nat)
}

fn push_decimal(out: &mut Vec<u8>, n: u64)
    ensures
        final(out)@ == old(out)@ + spec_decimal(n as nat),
    decreases n,
{
    if n < 10 {
        out.push((48 + n) as u8);
    } else {
        push_decimal(out, n / 10);
        out.push((48 + n % 10) as u8);
    }
}

fn push_str(out: &mut Vec<u8>, s: &str)
    ensures
        final(out)@ == old(out)@ + s.spec_bytes(),
{
    let bytes = s.as_bytes();
    let ghost start = out@;
    let mut i: usize = 0;
    while i < bytes.len()
        invariant
            i <= bytes@.len(),
            bytes@ == s.spec_bytes(),
            out@ == start + bytes@.subrange(0, i as int),
        decreases bytes@.len() - i,
    {
        out.push(bytes[i]);
        i = i + 1;
        assert(out@ =~= start + bytes@.subrange(0, i as int));
    }
    assert(bytes@.subrange(0, bytes@.len() as int) =~= bytes@);
}

fn hmac_message(nonce: &[u8]) -> (m: Vec<u8>)
    ensures
        m@ == spec_hmac_message(nonce@),
{
    let mut m: Vec<u8> = Vec::new();
    push_str(&mut m, "ogurpchik/handshake/v1");
    m.push((HANDSHAKE_VERSION % 256) as u8);
    m.push((HANDSHAKE_VERSION / 256) as u8);
    let ghost before = m@;
    let mut i: usize = 0;
    while i < nonce.len()
        invariant
            i <= nonce@.len(),
            m@ == before + nonce@.subrange(0, i as int),
        decreases nonce@.len() - i,
    {
        m.push(nonce[i]);
        i = i + 1;
        assert(m@ =~= before + nonce@.subrange(0, i as int));
    }
    assert(m@ =~= spec_hmac_message(nonce@));
    m
}

fn version_reason(client: u16) -> (r: Vec<u8>)
    ensures
        r@ == spec_version_reason(client),
{
    let mut r: Vec<u8> = Vec::new();
    push_str(&mut r, "unsupported handshake version: client=");
    push_decimal(&mut r, client as u64);
    push_str(&mut r, " server=");
    push_decimal(&mut r, HANDSHAKE_VERSION as u64);
    r
}

fn scheme_reason(client: u8, server: u8) -> (r: Vec<u8>)
    ensures
        r@ == spec_scheme_reason(client, server),
{
    let mut r: Vec<u8> = Vec::new();
    push_str(&mut r, "handshake auth mismatch: client=");
    push_decimal(&mut r, client as u64);
    push_str(&mut r, " server=");
    push_decimal(&mut r, server as u64);
    r
}

fn str_bytes(s: &str) -> (r: Vec<u8>)
    ensures
        r@ == s.spec_bytes(),
{
    let mut r: Vec<u8> = Vec::new();
    push_str(&mut r, s);
    r
}

/// A frame the caller must write to the connection. When `must_deliver` is
/// set and the write fails, the caller reports `SendFailed`; otherwise the
/// write is best effort.
pub struct Outgoing {
    pub frame: Vec<u8>,
    pub must_deliver: bool,
}

pub open spec fn spec_outgoing(o: Option<Outgoing>) -> Option<(Seq<u8>, bool)> {
    match o {
        Some(out) => Some((out.frame@, out.must_deliver)),
        None => None,
    }
}

pub open spec fn spec_reject(reason: Seq<u8>) -> Option<(Seq<u8>, bool)> {
    Some((spec_frame(spec_ack_body(ACK_REJECTED, reason)), false))
}

pub open spec fn spec_accept() -> Option<(Seq<u8>, bool)> {
    Some((spec_frame(spec_ack_body(ACK_OK, Seq::empty())), true))
}

fn reject(reason: &[u8]) -> (o: Option<Outgoing>)
    ensures
        spec_outgoing(o) == spec_reject(reason@),
{
    let body = encode_ack(ACK_REJECTED, reason);
    Some(Outgoing { frame: encode_frame(body.as_slice()), must_deliver: false })
}

fn accept() -> (o: Option<Outgoing>)
    ensures
        spec_outgoing(o) == spec_accept(),
{
    let empty: Vec<u8> = Vec::new();
    let body = encode_ack(ACK_OK, empty.as_slice());
    assert(empty@ =~= Seq::<u8>::empty());
    Some(Outgoing { frame: encode_frame(body.as_slice()), must_deliver: true })
}

// ---- server ----

/// Where the server is in its handshake.
pub enum ServerState {
    /// Nothing happened yet.
    Start,
    /// `Hello` went out; waiting for the client's proof.
    AwaitAuth { nonce: Vec<u8>, attested_pid: Option<u32> },
    /// The proof checked out so far; the OS must verify the signed process `pid`.
    AwaitProcessCheck { pid: u32 },
    /// The handshake is over.
    Finished { result: Result<(), HandshakeError> },
}

pub enum ServerStateModel {
    Start,
    AwaitAuth { nonce: Seq<u8>, attested_pid: Option<u32> },
    AwaitProcessCheck { pid: u32 },
    Finished { result: Result<(), HandshakeError> },
}

impl View for ServerState {
    type V = ServerStateModel;

    open spec fn view(&self) -> ServerStateModel {
        match self {
            ServerState::Start => ServerStateModel::Start,
            ServerState::AwaitAuth { nonce, attested_pid } => ServerStateModel::AwaitAuth {
                nonce: nonce@,
                attested_pid: *attested_pid,
            },
            ServerState::AwaitProcessCheck { pid } => ServerStateModel::AwaitProcessCheck {
                pid: *pid,
            },
            ServerState::Finished { result } => ServerStateModel::Finished { result: *result },
        }
    }
}

/// What happened since the last step.
pub enum ServerEvent {
    /// The connection is up: the peer identity the OS reports, and a fresh
    /// nonce (`None` when the random source failed).
    Opened { peer: PeerIdentity, nonce: Option<Vec<u8>> },
    /// A packet body was read, or reading failed (I/O error, timeout, oversize).
    Packet { body: Result<Vec<u8>, HandshakeError> },
    /// The OS verdict on the attested process.
    ProcessChecked { verdict: Result<(), HandshakeError> },
    /// A frame marked `must_deliver` could not be written.
    SendFailed,
}

pub enum ServerEventModel {
    Opened { peer: PeerIdentity, nonce: Option<Seq<u8>> },
    Packet { body: Result<Seq<u8>, HandshakeError> },
    ProcessChecked { verdict: Result<(), HandshakeError> },
    SendFailed,
}

impl View for ServerEvent {
    type V = ServerEventModel;

    open spec fn view(&self) -> ServerEventModel {
        match self {
            ServerEvent::Opened { peer, nonce } => ServerEventModel::Opened {
                peer: *peer,
                nonce: opt_bytes(*nonce),
            },
            ServerEvent::Packet { body } => ServerEventModel::Packet {
                body: match body {
                    Ok(b) => Ok(b@),
                    Err(e) => Err(*e),
                },
            },
            ServerEvent::ProcessChecked { verdict } => ServerEventModel::ProcessChecked {
                verdict: *verdict,
            },
            ServerEvent::SendFailed => ServerEventModel::SendFailed,
        }
    }
}

pub open spec fn opt_bytes(o: Option<Vec<u8>>) -> Option<Seq<u8>> {
    match o {
        Some(v) => Some(v@),
        None => None,
    }
}

pub open spec fn server_done(r: Result<(), HandshakeError>) -> ServerStateModel {
    ServerStateModel::Finished { result: r }
}

/// The server's answer to a `ClientAuth` body.
pub open spec fn spec_server_on_auth(
    m: ModeModel,
    nonce: Seq<u8>,
    attested_pid: Option<u32>,
    body: Seq<u8>,
) -> (ServerStateModel, Option<(Seq<u8>, bool)>) {
    match spec_decode_client_auth(body) {
        None => (server_done(Err(HandshakeError::MalformedPacket)), None),
        Some((version, scheme, proof)) => {
            if version != HANDSHAKE_VERSION {
                (
                    server_done(Err(HandshakeError::UnsupportedVersion)),
                    spec_reject(spec_version_reason(version)),
                )
            } else if scheme != spec_scheme_id(m) {
                (
                    server_done(Err(HandshakeError::SchemeMismatch)),
                    spec_reject(spec_scheme_reason(scheme, spec_scheme_id(m))),
                )
            } else {
                match m {
                    ModeModel::HmacSha256 { secret } => {
                        if proof == spec_hmac_sha256(secret, spec_hmac_message(nonce)) {
                            (server_done(Ok(())), spec_accept())
                        } else {
                            (
                                server_done(Err(HandshakeError::InvalidProof)),
                                spec_reject("invalid handshake proof".spec_bytes()),
                            )
                        }
                    },
                    ModeModel::SignedProcess { .. } => match attested_pid {
                        Some(pid) => (ServerStateModel::AwaitProcessCheck { pid }, None),
                        None => (server_done(Err(HandshakeError::PeerAttestationUnavailable)), None),
                    },
                    _ => {
                        if proof.len() > 0 {
                            (
                                server_done(Err(HandshakeError::InvalidProof)),
                                spec_reject("unexpected auth proof".spec_bytes()),
                            )
                        } else {
                            (server_done(Ok(())), spec_accept())
                        }
                    },
                }
            }
        },
    }
}

/// The server's opening move once the connection is up.
pub open spec fn spec_server_open(
    m: ModeModel,
    peer: PeerIdentity,
    nonce: Option<Seq<u8>>,
) -> (ServerStateModel, Option<(Seq<u8>, bool)>) {
    if m is Disabled {
        (server_done(Ok(())), None)
    } else if m is SignedProcess && peer is Unknown {
        (server_done(Err(HandshakeError::PeerAttestationUnavailable)), None)
    } else {
        match nonce {
            None => (server_done(Err(HandshakeError::Io)), None),
            Some(n) => (
                ServerStateModel::AwaitAuth {
                    nonce: n,
                    attested_pid: match (m, peer) {
                        (ModeModel::SignedProcess { .. }, PeerIdentity::Pid { pid }) => Some(pid),
                        _ => None,
                    },
                },
                Some((spec_frame(spec_hello_body(HANDSHAKE_VERSION, spec_scheme_id(m), n)), true)),
            ),
        }
    }
}

/// The server's answer to the OS verdict on the attested process.
pub open spec fn spec_server_on_verdict(verdict: Result<(), HandshakeError>) -> (
    ServerStateModel,
    Option<(Seq<u8>, bool)>,
) {
    if verdict is Ok {
        (server_done(verdict), spec_accept())
    } else {
        (server_done(verdict), spec_reject("signed-process verification failed".spec_bytes()))
    }
}

/// One server step. Events that do not fit the current state change nothing.
pub open spec fn spec_server_step(m: ModeModel, s: ServerStateModel, e: ServerEventModel) -> (
    ServerStateModel,
    Option<(Seq<u8>, bool)>,
) {
    match e {
        ServerEventModel::SendFailed => match s {
            ServerStateModel::Finished { result: Err(_) } => (s, None),
            _ => (server_done(Err(HandshakeError::Io)), None),
        },
        ServerEventModel::Opened { peer, nonce } => match s {
            ServerStateModel::Start => spec_server_open(m, peer, nonce),
            _ => (s, None),
        },
        ServerEventModel::Packet { body } => match s {
            ServerStateModel::AwaitAuth { nonce, attested_pid } => match body {
                Err(err) => (server_done(Err(err)), None),
                Ok(b) => spec_server_on_auth(m, nonce, attested_pid, b),
            },
            _ => (s, None),
        },
        ServerEventModel::ProcessChecked { verdict } => match s {
            ServerStateModel::AwaitProcessCheck { .. } => spec_server_on_verdict(verdict),
            _ => (s, None),
        },
    }
}

/// Whether the opening move needs a nonce at all.
pub open spec fn spec_server_needs_nonce(m: ModeModel, peer: PeerIdentity) -> bool {
    !(m is Disabled) && !(m is SignedProcess && peer is Unknown)
}

/// The server side of one handshake.
pub struct ServerMachine {
    mode: HandshakeMode,
    state: ServerState,
    random_failure: Option<RandomSourceFailed>,
}

impl ServerMachine {
    pub closed spec fn spec_mode(&self) -> ModeModel {
        self.mode@
    }

    pub closed spec fn spec_state(&self) -> ServerStateModel {
        self.state@
    }

    /// Whether the OS random source failed when this handshake drew its
    /// nonce.
    pub closed spec fn spec_random_failed(&self) -> bool {
        self.random_failure is Some
    }

    pub fn new(mode: HandshakeMode) -> (sm: Self)
        ensures
            sm.spec_mode() == mode@,
            sm.spec_state() == ServerStateModel::Start,
            !sm.spec_random_failed(),
    {
        ServerMachine { mode, state: ServerState::Start, random_failure: None }
    }

    /// Whether the OS random source failed when this handshake drew its
    /// nonce.
    pub fn random_source_failed(&self) -> (b: bool)
        ensures
            b == self.spec_random_failed(),
    {
        self.random_failure.is_some()
    }

    pub fn state(&self) -> (s: &ServerState)
        ensures
            s@ == self.spec_state(),
    {
        &self.state
    }

    /// The outcome, once the handshake is over.
    pub fn outcome(&self) -> (r: Option<Result<(), HandshakeError>>)
        ensures
            match self.spec_state() {
                ServerStateModel::Finished { result } => r == Some(result),
                _ => r is None,
            },
    {
        match &self.state {
            ServerState::Finished { result } => Some(*result),
            _ => None,
        }
    }

    /// Feeds one event; returns the frame to write, if any.
    pub fn step(&mut self, event: ServerEvent) -> (out: Option<Outgoing>)
        ensures
            final(self).spec_mode() == old(self).spec_mode(),
            (final(self).spec_state(), spec_outgoing(out)) == spec_server_step(
                old(self).spec_mode(),
                old(self).spec_state(),
                event@,
            ),
    {
        let ghost ev = event@;
        match event {
            ServerEvent::SendFailed => {
                match &self.state {
                    ServerState::Finished { result: Err(_) } => {},
                    _ => {
                        self.state = ServerState::Finished { result: Err(HandshakeError::Io) };
                    },
                }
                None
            },
            ServerEvent::Opened { peer, nonce } => {
                match &self.state {
                    ServerState::Start => {},
                    _ => {
                        return None;
                    },
                }
                self.open(peer, nonce)
            },
            ServerEvent::Packet { body } => {
                let (nonce, attested_pid) = match &self.state {
                    ServerState::AwaitAuth { nonce, attested_pid } => (nonce.clone(), *attested_pid),
                    _ => {
                        return None;
                    },
                };
                match body {
                    Err(err) => {
                        self.state = ServerState::Finished { result: Err(err) };
                        None
                    },
                    Ok(b) => self.on_auth(nonce.as_slice(), attested_pid, b.as_slice()),
                }
            },
            ServerEvent::ProcessChecked { verdict } => {
                match &self.state {
                    ServerState::AwaitProcessCheck { .. } => {},
                    _ => {
                        return None;
                    },
                }
                self.state = ServerState::Finished { result: verdict };
                if verdict.is_ok() {
                    accept()
                } else {
                    let reason = str_bytes("signed-process verification failed");
                    reject(reason.as_slice())
                }
            },
        }
    }

    fn open(&mut self, peer: PeerIdentity, nonce: Option<Vec<u8>>) -> (out: Option<Outgoing>)
        ensures
            final(self).mode@ == old(self).mode@,
            (final(self).state@, spec_outgoing(out)) == spec_server_open(
                old(self).mode@,
                peer,
                opt_bytes(nonce),
            ),
    {
        let signed = match &self.mode {
            HandshakeMode::Disabled => {
                self.state = ServerState::Finished { result: Ok(()) };
                return None;
            },
            HandshakeMode::SignedProcess { .. } => true,
            _ => false,
        };
        if signed {
            if let PeerIdentity::Unknown = peer {
                self.state = ServerState::Finished {
                    result: Err(HandshakeError::PeerAttestationUnavailable),
                };
                return None;
            }
        }
        match nonce {
            None => {
                self.state = ServerState::Finished { result: Err(HandshakeError::Io) };
                None
            },
            Some(n) => {
                let scheme = self.mode.scheme_id();
                let body = encode_hello(scheme, n.as_slice());
                let frame = encode_frame(body.as_slice());
                let attested_pid = if signed {
                    match peer {
                        PeerIdentity::Pid { pid } => Some(pid),
                        PeerIdentity::Unknown => None,
                    }
                } else {
                    None
                };
                self.state = ServerState::AwaitAuth { nonce: n, attested_pid };
                Some(Outgoing { frame, must_deliver: true })
            },
        }
    }

    fn on_auth(&mut self, nonce: &[u8], attested_pid: Option<u32>, body: &[u8]) -> (out: Option<
        Outgoing,
    >)
        ensures
            final(self).mode@ == old(self).mode@,
            (final(self).state@, spec_outgoing(out)) == spec_server_on_auth(
                old(self).mode@,
                nonce@,
                attested_pid,
                body@,
            ),
    {
        let (version, scheme, proof) = match decode_client_auth(body) {
            Ok(parts) => parts,
            Err(e) => {
                self.state = ServerState::Finished { result: Err(e) };
                return None;
            },
        };
        if version != HANDSHAKE_VERSION {
            self.state = ServerState::Finished { result: Err(HandshakeError::UnsupportedVersion) };
            let reason = version_reason(version);
            return reject(reason.as_slice());
        }
        let expected = self.mode.scheme_id();
        if scheme != expected {
            self.state = ServerState::Finished { result: Err(HandshakeError::SchemeMismatch) };
            let reason = scheme_reason(scheme, expected);
            return reject(reason.as_slice());
        }
        let verdict: Result<(), HandshakeError> = match &self.mode {
            HandshakeMode::HmacSha256 { secret } => {
                let message = hmac_message(nonce);
                if hmac_sha256_verify(secret.as_slice(), message.as_slice(), proof.as_slice()) {
                    Ok(())
                } else {
                    Err(HandshakeError::InvalidProof)
                }
            },
            HandshakeMode::SignedProcess { .. } => {
                match attested_pid {
                    Some(pid) => {
                        self.state = ServerState::AwaitProcessCheck { pid };
                    },
                    None => {
                        self.state = ServerState::Finished {
                            result: Err(HandshakeError::PeerAttestationUnavailable),
                        };
                    },
                }
                return None;
            },
            _ => {
                if proof.len() > 0 {
                    Err(HandshakeError::InvalidProof)
                } else {
                    Ok(())
                }
            },
        };
        match verdict {
            Ok(()) => {
                self.state = ServerState::Finished { result: Ok(()) };
                accept()
            },
            Err(e) => {
                self.state = ServerState::Finished { result: Err(e) };
                let reason = if self.mode.scheme_id() == 1 {
                    str_bytes("invalid handshake proof")
                } else {
                    str_bytes("unexpected auth proof")
                };
                reject(reason.as_slice())
            },
        }
    }
}

/// Opens the server side: draws a nonce from the OS random source when the
/// mode needs one, and takes the first step. Whatever the random source
/// gives, the step is the one [`spec_server_open`] describes for it, and the
/// nonce is missing only when the mode needs none or the source failed.
pub fn server_open(machine: &mut ServerMachine, peer: PeerIdentity) -> (out: Option<Outgoing>)
    requires
        old(machine).spec_state() == ServerStateModel::Start,
    ensures
        final(machine).spec_mode() == old(machine).spec_mode(),
        final(machine).spec_random_failed() ==> spec_server_needs_nonce(old(machine).spec_mode(), peer),
        exists|nonce: Option<Seq<u8>>|
            {
                &&& (nonce matches Some(n) ==> n.len() == NONCE_LEN)
                &&& (!spec_server_needs_nonce(old(machine).spec_mode(), peer) ==> nonce is None)
                &&& (spec_server_needs_nonce(old(machine).spec_mode(), peer)
                    && !final(machine).spec_random_failed() ==> nonce is Some)
                &&& (final(machine).spec_state(), spec_outgoing(out)) == spec_server_open(
                    old(machine).spec_mode(),
                    peer,
                    nonce,
                )
            },
{
    let needs = match &machine.mode {
        HandshakeMode::Disabled => false,
        HandshakeMode::SignedProcess { .. } => !(peer == PeerIdentity::Unknown),
        _ => true,
    };
    let (nonce, failure) = if needs {
        match random_bytes_32() {
            Ok(bytes) => (Some(bytes), None),
            Err(failed) => (None, Some(failed)),
        }
    } else {
        (None, None)
    };
    let ghost nv = opt_bytes(nonce);
    let out = machine.step(ServerEvent::Opened { peer, nonce });
    machine.random_failure = failure;
    assert(spec_server_open(old(machine).spec_mode(), peer, nv) == spec_server_step(
        old(machine).spec_mode(),
        ServerStateModel::Start,
        ServerEventModel::Opened { peer, nonce: nv },
    ));
    out
}

/// Every mode but `Disabled` opens with a `Hello` carrying the drawn nonce,
/// whatever identity the transport reports; only signed-process mode needs
/// an attested peer. With a nonce the server sends the `Hello` (which must
/// be delivered) and waits for the client's proof.
pub proof fn law_open_sends_hello(m: ModeModel, peer: PeerIdentity, nonce: Seq<u8>)
    ensures
        !(m is Disabled) && !(m is SignedProcess) ==> spec_server_needs_nonce(m, peer),
        m is SignedProcess ==> (spec_server_needs_nonce(m, peer) <==> peer is Pid),
        spec_server_needs_nonce(m, peer) ==> {
            let (state, out) = spec_server_open(m, peer, Some(nonce));
            &&& state matches ServerStateModel::AwaitAuth { nonce: n, .. } && n == nonce
            &&& out == Some((spec_frame(spec_hello_body(HANDSHAKE_VERSION, spec_scheme_id(m), nonce)), true))
        },
        !(m is Disabled) && !(m is SignedProcess) ==> forall|other: PeerIdentity|
            #[trigger] spec_server_open(m, other, Some(nonce)) == spec_server_open(m, peer, Some(nonce)),
{
}

// ---- client ----

/// Where the client is in its handshake.
#[derive(Clone, Copy, Debug)]
pub enum ClientState {
    /// Nothing happened yet.
    Start,
    /// Waiting for the server's `Hello` (or an immediate rejection).
    AwaitHello,
    /// The proof went out; waiting for the final `Ack`.
    AwaitAck,
    /// The handshake is over.
    Finished { result: Result<(), HandshakeError> },
}

impl View for ClientState {
    type V = ClientState;

    open spec fn view(&self) -> ClientState {
        *self
    }
}

/// What happened since the last client step.
pub enum ClientEvent {
    /// The connection is up.
    Begin,
    /// A packet body was read, or reading failed.
    Packet { body: Result<Vec<u8>, HandshakeError> },
    /// A frame marked `must_deliver` could not be written.
    SendFailed,
}

pub enum ClientEventModel {
    Begin,
    Packet { body: Result<Seq<u8>, HandshakeError> },
    SendFailed,
}

impl View for ClientEvent {
    type V = ClientEventModel;

    open spec fn view(&self) -> ClientEventModel {
        match self {
            ClientEvent::Begin => ClientEventModel::Begin,
            ClientEvent::Packet { body } => ClientEventModel::Packet {
                body: match body {
                    Ok(b) => Ok(b@),
                    Err(e) => Err(*e),
                },
            },
            ClientEvent::SendFailed => ClientEventModel::SendFailed,
        }
    }
}

pub open spec fn client_done(r: Result<(), HandshakeError>) -> ClientState {
    ClientState::Finished { result: r }
}

/// The client's answer to the server's opening packet.
pub open spec fn spec_client_on_hello(m: ModeModel, body: Seq<u8>) -> (
    ClientState,
    Option<(Seq<u8>, bool)>,
) {
    if body.len() > 0 && body[0] == TAG_ACK {
        (client_done(spec_ack_result(body)), None)
    } else {
        match spec_decode_hello(body) {
            None => (client_done(Err(HandshakeError::MalformedPacket)), None),
            Some((version, scheme, nonce)) => {
                if version != HANDSHAKE_VERSION {
                    (client_done(Err(HandshakeError::UnsupportedVersion)), None)
                } else if scheme != spec_scheme_id(m) {
                    (client_done(Err(HandshakeError::SchemeMismatch)), None)
                } else {
                    (
                        ClientState::AwaitAck,
                        Some(
                            (
                                spec_frame(
                                    spec_client_auth_body(
                                        HANDSHAKE_VERSION,
                                        scheme,
                                        spec_client_proof(m, nonce),
                                    ),
                                ),
                                true,
                            ),
                        ),
                    )
                }
            },
        }
    }
}

/// One client step. Events that do not fit the current state change nothing.
pub open spec fn spec_client_step(m: ModeModel, s: ClientState, e: ClientEventModel) -> (
    ClientState,
    Option<(Seq<u8>, bool)>,
) {
    match e {
        ClientEventModel::SendFailed => match s {
            ClientState::Finished { result: Err(_) } => (s, None),
            _ => (client_done(Err(HandshakeError::Io)), None),
        },
        ClientEventModel::Begin => match s {
            ClientState::Start => if m is Disabled {
                (client_done(Ok(())), None)
            } else {
                (ClientState::AwaitHello, None)
            },
            _ => (s, None),
        },
        ClientEventModel::Packet { body } => match (s, body) {
            (ClientState::AwaitHello, Err(err)) => (client_done(Err(err)), None),
            (ClientState::AwaitHello, Ok(b)) => spec_client_on_hello(m, b),
            (ClientState::AwaitAck, Err(err)) => (client_done(Err(err)), None),
            (ClientState::AwaitAck, Ok(b)) => (client_done(spec_ack_result(b)), None),
            _ => (s, None),
        },
    }
}

/// The reason text the client keeps after a step: the reason of the
/// rejecting `Ack` the step consumed, or what it kept before when the step
/// consumed no `Ack`.
pub open spec fn spec_client_rejection(
    s: ClientState,
    e: ClientEventModel,
    kept: Option<Seq<u8>>,
) -> Option<Seq<u8>> {
    match (s, e) {
        (ClientState::AwaitHello, ClientEventModel::Packet { body: Ok(b) }) => if b.len() > 0 && b[0]
            == TAG_ACK {
            spec_rejection_reason(b)
        } else {
            kept
        },
        (ClientState::AwaitAck, ClientEventModel::Packet { body: Ok(b) }) => spec_rejection_reason(b),
        _ => kept,
    }
}

/// The client side of one handshake.
pub struct ClientMachine {
    mode: HandshakeMode,
    state: ClientState,
    rejection: Option<Vec<u8>>,
}

impl ClientMachine {
    pub closed spec fn spec_mode(&self) -> ModeModel {
        self.mode@
    }

    pub closed spec fn spec_state(&self) -> ClientState {
        self.state
    }

    /// The reason text of the server's rejection, once one arrived.
    pub closed spec fn spec_rejection(&self) -> Option<Seq<u8>> {
        opt_bytes(self.rejection)
    }

    pub fn new(mode: HandshakeMode) -> (cm: Self)
        ensures
            cm.spec_mode() == mode@,
            cm.spec_state() == ClientState::Start,
            cm.spec_rejection() is None,
    {
        ClientMachine { mode, state: ClientState::Start, rejection: None }
    }

    /// The reason the server gave when it rejected this client.
    pub fn rejection_reason(&self) -> (r: Option<Vec<u8>>)
        ensures
            opt_bytes(r) == self.spec_rejection(),
    {
        match &self.rejection {
            Some(v) => Some(v.clone()),
            None => None,
        }
    }

    pub fn state(&self) -> (s: ClientState)
        ensures
            s == self.spec_state(),
    {
        self.state
    }

    /// The outcome, once the handshake is over.
    pub fn outcome(&self) -> (r: Option<Result<(), HandshakeError>>)
        ensures
            match self.spec_state() {
                ClientState::Finished { result } => r == Some(result),
                _ => r is None,
            },
    {
        match self.state {
            ClientState::Finished { result } => Some(result),
            _ => None,
        }
    }

    /// Feeds one event; returns the frame to write, if any.
    pub fn step(&mut self, event: ClientEvent) -> (out: Option<Outgoing>)
        ensures
            final(self).spec_mode() == old(self).spec_mode(),
            (final(self).spec_state(), spec_outgoing(out)) == spec_client_step(
                old(self).spec_mode(),
                old(self).spec_state(),
                event@,
            ),
            final(self).spec_rejection() == spec_client_rejection(
                old(self).spec_state(),
                event@,
                old(self).spec_rejection(),
            ),
    {
        match event {
            ClientEvent::SendFailed => {
                match self.state {
                    ClientState::Finished { result: Err(_) } => {},
                    _ => {
                        self.state = ClientState::Finished { result: Err(HandshakeError::Io) };
                    },
                }
                None
            },
            ClientEvent::Begin => {
                if let ClientState::Start = self.state {
                    if let HandshakeMode::Disabled = self.mode {
                        self.state = ClientState::Finished { result: Ok(()) };
                    } else {
                        self.state = ClientState::AwaitHello;
                    }
                }
                None
            },
            ClientEvent::Packet { body } => {
                match self.state {
                    ClientState::AwaitHello => match body {
                        Err(err) => {
                            self.state = ClientState::Finished { result: Err(err) };
                            None
                        },
                        Ok(b) => self.on_hello(b.as_slice()),
                    },
                    ClientState::AwaitAck => {
                        match body {
                            Err(err) => {
                                self.state = ClientState::Finished { result: Err(err) };
                            },
                            Ok(b) => {
                                self.state = ClientState::Finished { result: decode_ack(b.as_slice()) };
                                self.rejection = rejection_reason(b.as_slice());
                            },
                        }
                        None
                    },
                    _ => None,
                }
            },
        }
    }

    fn on_hello(&mut self, body: &[u8]) -> (out: Option<Outgoing>)
        ensures
            final(self).mode@ == old(self).mode@,
            (final(self).state, spec_outgoing(out)) == spec_client_on_hello(old(self).mode@, body@),
            opt_bytes(final(self).rejection) == if body@.len() > 0 && body@[0] == TAG_ACK {
                spec_rejection_reason(body@)
            } else {
                opt_bytes(old(self).rejection)
            },
    {
        if body.len() > 0 && body[0] == TAG_ACK {
            self.state = ClientState::Finished { result: decode_ack(body) };
            self.rejection = rejection_reason(body);
            return None;
        }
        let (version, scheme, nonce) = match decode_hello(body) {
            Ok(parts) => parts,
            Err(e) => {
                self.state = ClientState::Finished { result: Err(e) };
                return None;
            },
        };
        if version != HANDSHAKE_VERSION {
            self.state = ClientState::Finished { result: Err(HandshakeError::UnsupportedVersion) };
            return None;
        }
        if scheme != self.mode.scheme_id() {
            self.state = ClientState::Finished { result: Err(HandshakeError::SchemeMismatch) };
            return None;
        }
        let proof: Vec<u8> = match &self.mode {
            HandshakeMode::HmacSha256 { secret } => {
                let message = hmac_message(nonce.as_slice());
                hmac_sha256(secret.as_slice(), message.as_slice())
            },
            _ => Vec::new(),
        };
        assert(proof@ =~= spec_client_proof(self.mode@, nonce@));
        let body = encode_client_auth(scheme, proof.as_slice());
        self.state = ClientState::AwaitAck;
        Some(Outgoing { frame: encode_frame(body.as_slice()), must_deliver: true })
    }
}

/// The frame that turns a connection away before any handshake state
/// exists (admission refused it): a rejecting `Ack` carrying
/// `reason`, written best effort.
pub fn reject_connection(reason: &str) -> (frame: Vec<u8>)
    ensures
        frame@ == spec_frame(spec_ack_body(ACK_REJECTED, reason.spec_bytes())),
{
    let body = encode_ack(ACK_REJECTED, reason.as_bytes());
    encode_frame(body.as_slice())
}

// ---- laws of the exchange ----


/// The fixed rejection reasons are short ASCII texts.
pub proof fn lemma_fixed_reasons_fit()
    ensures
        "invalid handshake proof".spec_bytes().len() == 23,
        "unexpected auth proof".spec_bytes().len() == 21,
        "signed-process verification failed".spec_bytes().len() == 34,
{
    broadcast use vstd::string::is_ascii_spec_bytes;
    reveal_strlit("invalid handshake proof");
    reveal_strlit("unexpected auth proof");
    reveal_strlit("signed-process verification failed");
    assert(vstd::string::is_ascii("invalid handshake proof"));
    assert(vstd::string::is_ascii("unexpected auth proof"));
    assert(vstd::string::is_ascii("signed-process verification failed"));
}

/// The body a frame carries.
pub open spec fn frame_body(frame: Seq<u8>) -> Seq<u8> {
    frame.subrange(4, frame.len() as int)
}

/// The body of the frame a step sent (empty when it sent nothing).
pub open spec fn sent_body(o: Option<(Seq<u8>, bool)>) -> Seq<u8> {
    match o {
        Some((f, _)) => frame_body(f),
        None => Seq::empty(),
    }
}

proof fn lemma_frame_body(body: Seq<u8>)
    ensures
        frame_body(spec_frame(body)) == body,
{
    law_frame_header_roundtrip(body);
}

/// The client's answer to the `Hello` of a server in mode `ms`, then the
/// server's verdict on it; the server opened with `nonce` for `peer`.
#[verifier::opaque]
pub open spec fn spec_exchange(
    ms: ModeModel,
    mc: ModeModel,
    peer: PeerIdentity,
    nonce: Seq<u8>,
) -> (ServerStateModel, Option<(Seq<u8>, bool)>, ClientState, Option<(Seq<u8>, bool)>) {
    let (s1, o1) = spec_server_step(
        ms,
        ServerStateModel::Start,
        ServerEventModel::Opened { peer, nonce: Some(nonce) },
    );
    let (c1, _) = spec_client_step(mc, ClientState::Start, ClientEventModel::Begin);
    let (c2, o2) = spec_client_step(mc, c1, ClientEventModel::Packet { body: Ok(sent_body(o1)) });
    let (s2, o3) = spec_server_step(ms, s1, ServerEventModel::Packet { body: Ok(sent_body(o2)) });
    (s2, o3, c2, o2)
}

proof fn lemma_hello_reaches_client(ms: ModeModel, mc: ModeModel, peer: PeerIdentity, nonce: Seq<u8>)
    requires
        !(ms is Disabled),
        !(mc is Disabled),
        nonce.len() == NONCE_LEN,
        ms is SignedProcess ==> peer is Pid,
    ensures
        ({
            let (s1, o1) = spec_server_step(
                ms,
                ServerStateModel::Start,
                ServerEventModel::Opened { peer, nonce: Some(nonce) },
            );
            &&& sent_body(o1) == spec_hello_body(HANDSHAKE_VERSION, spec_scheme_id(ms), nonce)
            &&& spec_decode_hello(sent_body(o1)) == Some(
                (HANDSHAKE_VERSION, spec_scheme_id(ms), nonce),
            )
            &&& s1 matches ServerStateModel::AwaitAuth { nonce: n, attested_pid: a } && n == nonce
                && (ms is SignedProcess ==> a is Some)
        }),
{
    let body = spec_hello_body(HANDSHAKE_VERSION, spec_scheme_id(ms), nonce);
    lemma_frame_body(body);
    law_hello_roundtrip(HANDSHAKE_VERSION, spec_scheme_id(ms), nonce);
}

/// Both ends configured alike (version-only or the same HMAC secret): the
/// server accepts the client's proof and both ends finish successfully.
/// Left out are only proofs too long for the 16-bit length field.
pub proof fn law_handshake_completes(m: ModeModel, peer: PeerIdentity, nonce: Seq<u8>)
    requires
        m is VersionOnly || m is HmacSha256,
        nonce.len() == NONCE_LEN,
        spec_client_proof(m, nonce).len() <= 65535,
    ensures
        ({
            let (s2, o3, c2, o2) = spec_exchange(m, m, peer, nonce);
            let (c3, _) = spec_client_step(m, c2, ClientEventModel::Packet { body: Ok(sent_body(o3)) });
            &&& s2 == server_done(Ok(()))
            &&& c3 == client_done(Ok(()))
        }),
{
    reveal(spec_exchange);
    lemma_hello_reaches_client(m, m, peer, nonce);
    let proof = spec_client_proof(m, nonce);
    let auth = spec_client_auth_body(HANDSHAKE_VERSION, spec_scheme_id(m), proof);
    lemma_frame_body(auth);
    law_client_auth_roundtrip(HANDSHAKE_VERSION, spec_scheme_id(m), proof);
    let ack = spec_ack_body(ACK_OK, Seq::empty());
    lemma_frame_body(ack);
    law_ack_roundtrip(ACK_OK, Seq::empty());
}

proof fn lemma_signed_exchange(public_key: Seq<u8>, pid: u32, nonce: Seq<u8>)
    requires
        nonce.len() == NONCE_LEN,
    ensures
        ({
            let m = ModeModel::SignedProcess { public_key };
            let (s2, o3, c2, o2) = spec_exchange(m, m, PeerIdentity::Pid { pid }, nonce);
            &&& s2 == ServerStateModel::AwaitProcessCheck { pid }
            &&& o3 is None
            &&& c2 == ClientState::AwaitAck
        }),
{
    reveal(spec_exchange);
    let m = ModeModel::SignedProcess { public_key };
    let peer = PeerIdentity::Pid { pid };
    lemma_hello_reaches_client(m, m, peer, nonce);
    let hello = spec_hello_body(HANDSHAKE_VERSION, 2, nonce);
    assert(hello[0] == TAG_HELLO);
    let auth = spec_client_auth_body(HANDSHAKE_VERSION, 2, Seq::empty());
    lemma_frame_body(auth);
    law_client_auth_roundtrip(HANDSHAKE_VERSION, 2, Seq::empty());
    assert(spec_client_proof(m, nonce) == Seq::<u8>::empty());
}

/// Signed-process mode on an attesting transport: once the OS check passes,
/// both ends finish successfully; when it fails, the server reports that
/// failure and the client is rejected.
pub proof fn law_signed_process_handshake(
    public_key: Seq<u8>,
    pid: u32,
    nonce: Seq<u8>,
    verdict: Result<(), HandshakeError>,
)
    requires
        nonce.len() == NONCE_LEN,
    ensures
        ({
            let m = ModeModel::SignedProcess { public_key };
            let (s2, o3, c2, o2) = spec_exchange(m, m, PeerIdentity::Pid { pid }, nonce);
            let (s3, o4) = spec_server_step(m, s2, ServerEventModel::ProcessChecked { verdict });
            let (c3, _) = spec_client_step(m, c2, ClientEventModel::Packet { body: Ok(sent_body(o4)) });
            &&& s2 == ServerStateModel::AwaitProcessCheck { pid }
            &&& o3 is None
            &&& s3 == server_done(verdict)
            &&& c3 == client_done(
                if verdict is Ok {
                    Ok(())
                } else {
                    Err(HandshakeError::Rejected)
                },
            )
        }),
{
    lemma_signed_exchange(public_key, pid, nonce);
    let m = ModeModel::SignedProcess { public_key };
    let s2 = ServerStateModel::AwaitProcessCheck { pid };
    let ok = spec_ack_body(ACK_OK, Seq::empty());
    lemma_frame_body(ok);
    law_ack_roundtrip(ACK_OK, Seq::empty());
    lemma_fixed_reasons_fit();
    let no = spec_ack_body(ACK_REJECTED, "signed-process verification failed".spec_bytes());
    lemma_frame_body(no);
    law_ack_roundtrip(ACK_REJECTED, "signed-process verification failed".spec_bytes());
    let (s3, o4) = spec_server_step(m, s2, ServerEventModel::ProcessChecked { verdict });
    if verdict is Ok {
        assert(sent_body(o4) == ok);
    } else {
        assert(sent_body(o4) == no);
    }
}

/// A client whose HMAC proof differs from the one the server expects is
/// refused: the server fails with `InvalidProof` and tells the client, which
/// fails with `Rejected`. Left out: secrets whose proofs collide.
#[verifier::rlimit(60)]
pub proof fn law_wrong_secret_is_rejected(
    server_secret: Seq<u8>,
    client_secret: Seq<u8>,
    peer: PeerIdentity,
    nonce: Seq<u8>,
)
    requires
        nonce.len() == NONCE_LEN,
        spec_hmac_sha256(client_secret, spec_hmac_message(nonce)) != spec_hmac_sha256(
            server_secret,
            spec_hmac_message(nonce),
        ),
        spec_hmac_sha256(client_secret, spec_hmac_message(nonce)).len() <= 65535,
    ensures
        ({
            let ms = ModeModel::HmacSha256 { secret: server_secret };
            let mc = ModeModel::HmacSha256 { secret: client_secret };
            let (s2, o3, c2, o2) = spec_exchange(ms, mc, peer, nonce);
            let (c3, _) = spec_client_step(mc, c2, ClientEventModel::Packet { body: Ok(sent_body(o3)) });
            &&& s2 == server_done(Err(HandshakeError::InvalidProof))
            &&& o3 == spec_reject("invalid handshake proof".spec_bytes())
            &&& c3 == client_done(Err(HandshakeError::Rejected))
        }),
{
    reveal(spec_exchange);
    let ms = ModeModel::HmacSha256 { secret: server_secret };
    let mc = ModeModel::HmacSha256 { secret: client_secret };
    lemma_hello_reaches_client(ms, mc, peer, nonce);
    let hello = spec_hello_body(HANDSHAKE_VERSION, 1, nonce);
    assert(hello[0] == TAG_HELLO);
    let (s1, o1) = spec_server_step(
        ms,
        ServerStateModel::Start,
        ServerEventModel::Opened { peer, nonce: Some(nonce) },
    );
    assert(s1 == ServerStateModel::AwaitAuth { nonce, attested_pid: None });
    let proof = spec_client_proof(mc, nonce);
    let auth = spec_client_auth_body(HANDSHAKE_VERSION, 1, proof);
    lemma_frame_body(auth);
    law_client_auth_roundtrip(HANDSHAKE_VERSION, 1, proof);
    let (c2, o2) = spec_client_on_hello(mc, hello);
    assert(c2 == ClientState::AwaitAck);
    assert(sent_body(o2) == auth);
    let (s2, o3) = spec_server_on_auth(ms, nonce, None, auth);
    assert(s2 == server_done(Err(HandshakeError::InvalidProof)));
    lemma_fixed_reasons_fit();
    let no = spec_ack_body(ACK_REJECTED, "invalid handshake proof".spec_bytes());
    lemma_frame_body(no);
    law_ack_roundtrip(ACK_REJECTED, "invalid handshake proof".spec_bytes());
    assert(sent_body(o3) == no);
}

/// Ends configured with different schemes never get past the `Hello`: the
/// client detects the mismatch and sends nothing.
pub proof fn law_scheme_mismatch_detected_by_client(
    ms: ModeModel,
    mc: ModeModel,
    peer: PeerIdentity,
    nonce: Seq<u8>,
)
    requires
        !(ms is Disabled),
        !(mc is Disabled),
        spec_scheme_id(ms) != spec_scheme_id(mc),
        ms is SignedProcess ==> peer is Pid,
        nonce.len() == NONCE_LEN,
    ensures
        ({
            let (s2, o3, c2, o2) = spec_exchange(ms, mc, peer, nonce);
            &&& c2 == client_done(Err(HandshakeError::SchemeMismatch))
            &&& o2 is None
        }),
{
    reveal(spec_exchange);
    lemma_hello_reaches_client(ms, mc, peer, nonce);
}

/// Signed-process auth on a transport that cannot attest the peer is
/// refused before a single byte is sent.
pub proof fn law_signed_process_needs_attestation(public_key: Seq<u8>, nonce: Option<Seq<u8>>)
    ensures
        spec_server_step(
            ModeModel::SignedProcess { public_key },
            ServerStateModel::Start,
            ServerEventModel::Opened { peer: PeerIdentity::Unknown, nonce },
        ) == (server_done(Err(HandshakeError::PeerAttestationUnavailable)), None::<(Seq<u8>, bool)>),
{
}

/// A disabled handshake exchanges nothing and succeeds on both ends.
pub proof fn law_disabled_handshake_is_silent(peer: PeerIdentity, nonce: Option<Seq<u8>>)
    ensures
        spec_server_step(
            ModeModel::Disabled,
            ServerStateModel::Start,
            ServerEventModel::Opened { peer, nonce },
        ) == (server_done(Ok(())), None::<(Seq<u8>, bool)>),
        spec_client_step(ModeModel::Disabled, ClientState::Start, ClientEventModel::Begin) == (
            client_done(Ok(())),
            None::<(Seq<u8>, bool)>,
        ),
{
}

/// A finished handshake stays finished with the same outcome, whatever
/// else happens (a failed best-effort send included); only a lost
/// must-deliver frame can turn a success into an `Io` failure.
pub proof fn law_finished_is_final(
    m: ModeModel,
    result: Result<(), HandshakeError>,
    se: ServerEventModel,
    ce: ClientEventModel,
)
    ensures
        ({
            let (s, o) = spec_server_step(m, server_done(result), se);
            s == (if se is SendFailed && result is Ok {
                server_done(Err(HandshakeError::Io))
            } else {
                server_done(result)
            }) && o is None
        }),
        ({
            let (c, o) = spec_client_step(m, client_done(result), ce);
            c == (if ce is SendFailed && result is Ok {
                client_done(Err(HandshakeError::Io))
            } else {
                client_done(result)
            }) && o is None
        }),
{
}

} // verus!
