//! Error contexts, one small enum per layer:
//! `EndpointError` (naming) → `TransportError` (bind/connect/io) →
//! `HandshakeError` (version/scheme/attestation) → `RpcError` (public).
//!
//! Each enum has a `description` method: the short, deliberately written text
//! that is the only part of an error allowed to cross the wire.

use vstd::prelude::*;

verus! {

/// Errors from turning a service name into a concrete endpoint.
#[derive(Debug, Clone, Copy, PartialEq, Eq, Structural)]
#[non_exhaustive]
pub enum EndpointError {
    /// The service name holds characters that are unsafe in a path or pipe name.
    InvalidServiceName,
    /// A vsock target could not be parsed or resolved.
    InvalidVsockTarget,
    /// The requested transport kind is not available on this platform.
    UnsupportedOnPlatform,
    /// No runtime directory was available for a unix socket.
    NoRuntimeDirectory,
}

/// Errors from the transport layer: binding, connecting, accepting, moving bytes.
#[derive(Debug, Clone, Copy, PartialEq, Eq, Structural)]
#[non_exhaustive]
pub enum TransportError {
    Bind,
    Connect,
    Accept,
    Io,
}

/// Errors from the pre-RPC handshake.
#[derive(Debug, Clone, Copy, PartialEq, Eq, Structural)]
#[non_exhaustive]
pub enum HandshakeError {
    /// Client and server disagree on the handshake wire version.
    UnsupportedVersion,
    /// Client and server were configured with different schemes.
    SchemeMismatch,
    /// The client's proof did not verify.
    InvalidProof,
    /// The server explicitly rejected the connection.
    Rejected,
    /// No response arrived within the step timeout.
    Timeout,
    /// A packet could not be decoded, or had a trailing/missing byte count.
    MalformedPacket,
    /// Signed-process auth on a transport that cannot attest the peer.
    PeerAttestationUnavailable,
    /// The peer's image signature did not verify, or its PID was reused.
    SignedProcessVerificationFailed,
    /// The server is one-to-one and already has an active session.
    ConnectionLimitReached,
    /// A local OS facility or the transport failed mid-handshake.
    Io,
}

/// Top-level public error context.
#[derive(Debug, Clone, Copy, PartialEq, Eq, Structural)]
#[non_exhaustive]
pub enum RpcError {
    /// Failed while establishing a connection.
    Setup,
    /// The remote peer's RPC layer returned an exception for a call we made.
    Remote { kind: RemoteErrorKind },
    /// This side's handler for an incoming call returned an error.
    Handler,
    /// A remote call targeted a method this side does not implement.
    Unimplemented,
    /// The peer's message exceeded a configured limit.
    LimitExceeded,
}

/// The RPC-relevant subset of the wire protocol's error kinds; every other
/// kind collapses to `Other`.
#[derive(Debug, Clone, Copy, PartialEq, Eq, Structural)]
#[non_exhaustive]
pub enum RemoteErrorKind {
    Failed,
    Overloaded,
    Disconnected,
    Unimplemented,
    Other,
}

/// The text of a remote exception, kept for local diagnostics only and never
/// forwarded to another peer.
#[derive(Debug, Clone)]
pub struct RemoteMessage(pub String);

impl EndpointError {
    pub open spec fn spec_description(self) -> Seq<char> {
        match self {
            EndpointError::InvalidServiceName => "invalid service name"@,
            EndpointError::InvalidVsockTarget => "invalid vsock target"@,
            EndpointError::UnsupportedOnPlatform => "transport not supported on this platform"@,
            EndpointError::NoRuntimeDirectory => "no usable runtime directory"@,
        }
    }

    /// The display text of this error.
    pub fn description(&self) -> (s: String)
        ensures
            s@ == self.spec_description(),
    {
        match self {
            EndpointError::InvalidServiceName => String::from_str("invalid service name"),
            EndpointError::InvalidVsockTarget => String::from_str("invalid vsock target"),
            EndpointError::UnsupportedOnPlatform => String::from_str(
                "transport not supported on this platform",
            ),
            EndpointError::NoRuntimeDirectory => String::from_str("no usable runtime directory"),
        }
    }
}

impl TransportError {
    pub open spec fn spec_description(self) -> Seq<char> {
        match self {
            TransportError::Bind => "failed to bind transport listener"@,
            TransportError::Connect => "failed to connect"@,
            TransportError::Accept => "failed to accept connection"@,
            TransportError::Io => "transport i/o error"@,
        }
    }

    /// The display text of this error.
    pub fn description(&self) -> (s: String)
        ensures
            s@ == self.spec_description(),
    {
        match self {
            TransportError::Bind => String::from_str("failed to bind transport listener"),
            TransportError::Connect => String::from_str("failed to connect"),
            TransportError::Accept => String::from_str("failed to accept connection"),
            TransportError::Io => String::from_str("transport i/o error"),
        }
    }
}

impl HandshakeError {
    pub open spec fn spec_description(self) -> Seq<char> {
        match self {
            HandshakeError::UnsupportedVersion => "unsupported handshake version"@,
            HandshakeError::SchemeMismatch => "handshake auth scheme mismatch"@,
            HandshakeError::InvalidProof => "invalid handshake proof"@,
            HandshakeError::Rejected => "handshake rejected by peer"@,
            HandshakeError::Timeout => "handshake timed out"@,
            HandshakeError::MalformedPacket => "malformed handshake packet"@,
            HandshakeError::PeerAttestationUnavailable =>
                "signed-process auth requires a transport that can attest the peer's identity"@,
            HandshakeError::SignedProcessVerificationFailed => "signed-process verification failed"@,
            HandshakeError::ConnectionLimitReached =>
                "connection rejected: server is in one-to-one mode"@,
            HandshakeError::Io => "i/o failure during handshake"@,
        }
    }

    /// The display text of this error.
    pub fn description(&self) -> (s: String)
        ensures
            s@ == self.spec_description(),
    {
        match self {
            HandshakeError::UnsupportedVersion => String::from_str("unsupported handshake version"),
            HandshakeError::SchemeMismatch => String::from_str("handshake auth scheme mismatch"),
            HandshakeError::InvalidProof => String::from_str("invalid handshake proof"),
            HandshakeError::Rejected => String::from_str("handshake rejected by peer"),
            HandshakeError::Timeout => String::from_str("handshake timed out"),
            HandshakeError::MalformedPacket => String::from_str("malformed handshake packet"),
            HandshakeError::PeerAttestationUnavailable => String::from_str(
                "signed-process auth requires a transport that can attest the peer's identity",
            ),
            HandshakeError::SignedProcessVerificationFailed => String::from_str(
                "signed-process verification failed",
            ),
            HandshakeError::ConnectionLimitReached => String::from_str(
                "connection rejected: server is in one-to-one mode",
            ),
            HandshakeError::Io => String::from_str("i/o failure during handshake"),
        }
    }
}

impl RemoteErrorKind {
    pub open spec fn spec_debug_name(self) -> Seq<char> {
        match self {
            RemoteErrorKind::Failed => "Failed"@,
            RemoteErrorKind::Overloaded => "Overloaded"@,
            RemoteErrorKind::Disconnected => "Disconnected"@,
            RemoteErrorKind::Unimplemented => "Unimplemented"@,
            RemoteErrorKind::Other => "Other"@,
        }
    }

    /// The variant's name, as `{:?}` prints it.
    pub fn debug_name(&self) -> (s: String)
        ensures
            s@ == self.spec_debug_name(),
    {
        match self {
            RemoteErrorKind::Failed => String::from_str("Failed"),
            RemoteErrorKind::Overloaded => String::from_str("Overloaded"),
            RemoteErrorKind::Disconnected => String::from_str("Disconnected"),
            RemoteErrorKind::Unimplemented => String::from_str("Unimplemented"),
            RemoteErrorKind::Other => String::from_str("Other"),
        }
    }
}

impl RpcError {
    pub open spec fn spec_description(self) -> Seq<char> {
        match self {
            RpcError::Setup => "failed to establish rpc connection"@,
            RpcError::Remote { kind } => "remote rpc error ("@ + kind.spec_debug_name() + ")"@,
            RpcError::Handler => "local handler failed"@,
            RpcError::Unimplemented => "method not implemented"@,
            RpcError::LimitExceeded => "message exceeded configured limits"@,
        }
    }

    /// The display text of this error.
    pub fn description(&self) -> (s: String)
        ensures
            s@ == self.spec_description(),
    {
        match self {
            RpcError::Setup => String::from_str("failed to establish rpc connection"),
            RpcError::Remote { kind } => {
                let mut s = String::from_str("remote rpc error (");
                let name = kind.debug_name();
                s.append(name.as_str());
                s.append(")");
                s
            },
            RpcError::Handler => String::from_str("local handler failed"),
            RpcError::Unimplemented => String::from_str("method not implemented"),
            RpcError::LimitExceeded => String::from_str("message exceeded configured limits"),
        }
    }
}

impl RemoteMessage {
    /// The message text, as `Display` prints it.
    pub fn text(&self) -> (s: &str)
        ensures
            s@ == self.0@,
    {
        self.0.as_str()
    }
}

} // verus!
