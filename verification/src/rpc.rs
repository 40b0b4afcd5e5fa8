//! The boundary between this library's errors and Cap'n Proto exceptions,
//! and the reader limits a session is opened with.
//!
//! Incoming exceptions keep their kind and text apart: the kind becomes
//! `RpcError::Remote`, the text a `RemoteMessage` for local logs only.
//! Outgoing exceptions carry exactly one deliberately written description
//! and a kind chosen from the error layer, never anything attached to it.

use vstd::prelude::*;
use crate::error::{RemoteErrorKind, RemoteMessage, RpcError};

verus! {

/// The kind of a Cap'n Proto exception as this library reads it: the four
/// kinds an RPC peer sends, and `Internal` for every decoding or limit
/// error that the message layer raises on its own.
#[derive(Debug, Clone, Copy, PartialEq, Eq, Structural)]
pub enum ExceptionKind {
    Failed,
    Overloaded,
    Disconnected,
    Unimplemented,
    Internal,
}

/// A Cap'n Proto exception held as plain values: its kind and its text.
#[derive(Debug, Clone)]
pub struct Exception {
    pub kind: ExceptionKind,
    pub extra: String,
}

/// Declares `capnp::Error` so it can cross the library's signatures.
#[verifier::external_type_specification]
#[verifier::external_body]
pub struct ExCapnpError(capnp::Error);

/// Declares `capnp::message::ReaderOptions`.
#[verifier::external_type_specification]
#[verifier::external_body]
pub struct ExReaderOptions(capnp::message::ReaderOptions);

/// What the two public fields of a `capnp::Error` hold: its kind, read as
/// an [`ExceptionKind`] (the four RPC kinds one for one, every other
/// `capnp::ErrorKind` as `Internal`), and its `extra` text.
pub uninterp spec fn spec_read_capnp_error(err: capnp::Error) -> (ExceptionKind, Seq<char>);

/// What the two public fields of a `capnp::message::ReaderOptions` hold:
/// `traversal_limit_in_words` and `nesting_limit`.
pub uninterp spec fn spec_reader_options_limits(options: capnp::message::ReaderOptions) -> (
    Option<usize>,
    i32,
);

/// Reads the `kind` and `extra` fields of a `capnp::Error`, one arm per
/// RPC kind; every other `capnp::ErrorKind` reads as `Internal`. Claimed:
/// the result is what [`spec_read_capnp_error`] names for `err`.
#[verifier::external_body]
fn read_capnp_error(err: &capnp::Error) -> (e: Exception)
    ensures
        (e.kind, e.extra@) == spec_read_capnp_error(*err),
{
    let kind = match err.kind {
        capnp::ErrorKind::Failed => ExceptionKind::Failed,
        capnp::ErrorKind::Overloaded => ExceptionKind::Overloaded,
        capnp::ErrorKind::Disconnected => ExceptionKind::Disconnected,
        capnp::ErrorKind::Unimplemented => ExceptionKind::Unimplemented,
        _ => ExceptionKind::Internal,
    };
    Exception { kind, extra: err.extra.clone() }
}

/// Calls `capnp::Error::failed`, which builds an error of kind `Failed`
/// whose `extra` is `description`; claimed as read back by
/// [`spec_read_capnp_error`].
#[verifier::external_body]
fn capnp_failed(description: String) -> (e: capnp::Error)
    ensures
        spec_read_capnp_error(e) == (ExceptionKind::Failed, description@),
{
    capnp::Error::failed(description)
}

/// Calls `capnp::Error::disconnected` (kind `Disconnected`, `extra` is
/// `description`); claimed as read back by [`spec_read_capnp_error`].
#[verifier::external_body]
fn capnp_disconnected(description: String) -> (e: capnp::Error)
    ensures
        spec_read_capnp_error(e) == (ExceptionKind::Disconnected, description@),
{
    capnp::Error::disconnected(description)
}

/// Calls `capnp::Error::unimplemented` (kind `Unimplemented`, `extra` is
/// `description`); claimed as read back by [`spec_read_capnp_error`].
#[verifier::external_body]
fn capnp_unimplemented(description: String) -> (e: capnp::Error)
    ensures
        spec_read_capnp_error(e) == (ExceptionKind::Unimplemented, description@),
{
    capnp::Error::unimplemented(description)
}

/// Calls `capnp::message::ReaderOptions::new()` and its two setters with
/// the given limits; the setters store them in the two fields as given.
#[verifier::external_body]
fn capnp_reader_options(traversal_limit_in_words: Option<usize>, nesting_limit: i32) -> (o:
    capnp::message::ReaderOptions)
    ensures
        spec_reader_options_limits(o) == (traversal_limit_in_words, nesting_limit),
{
    let mut options = capnp::message::ReaderOptions::new();
    options.traversal_limit_in_words(traversal_limit_in_words);
    options.nesting_limit(nesting_limit);
    options
}

/// How the kind of a received exception is reported.
pub open spec fn spec_remote_kind(kind: ExceptionKind) -> RemoteErrorKind {
    match kind {
        ExceptionKind::Failed => RemoteErrorKind::Failed,
        ExceptionKind::Overloaded => RemoteErrorKind::Overloaded,
        ExceptionKind::Disconnected => RemoteErrorKind::Disconnected,
        ExceptionKind::Unimplemented => RemoteErrorKind::Unimplemented,
        ExceptionKind::Internal => RemoteErrorKind::Other,
    }
}

/// The kind of the exception sent for an error whose report holds the RPC
/// layer `rpc` (`None`: no RPC layer at all). A forwarded remote failure is
/// `Disconnected`, so the peer does not read it as this side's own bug.
pub open spec fn spec_outgoing_kind(rpc: Option<RpcError>) -> ExceptionKind {
    match rpc {
        Some(RpcError::Unimplemented) => ExceptionKind::Unimplemented,
        Some(RpcError::Remote { .. }) => ExceptionKind::Disconnected,
        _ => ExceptionKind::Failed,
    }
}

/// Maps a received exception: the kind becomes `RpcError::Remote`, the text
/// is kept apart as a `RemoteMessage`.
pub fn remote_error(exception: &Exception) -> (r: (RpcError, RemoteMessage))
    ensures
        r.0 == (RpcError::Remote { kind: spec_remote_kind(exception.kind) }),
        r.1.0@ == exception.extra@,
{
    let kind = match exception.kind {
        ExceptionKind::Failed => RemoteErrorKind::Failed,
        ExceptionKind::Overloaded => RemoteErrorKind::Overloaded,
        ExceptionKind::Disconnected => RemoteErrorKind::Disconnected,
        ExceptionKind::Unimplemented => RemoteErrorKind::Unimplemented,
        ExceptionKind::Internal => RemoteErrorKind::Other,
    };
    (RpcError::Remote { kind }, RemoteMessage(exception.extra.clone()))
}

/// Converts an incoming `capnp::Error` into `RpcError::Remote` plus the
/// remote's text for local diagnostics.
pub fn from_capnp_exception(err: &capnp::Error) -> (r: (RpcError, RemoteMessage))
    ensures
        r.0 == (RpcError::Remote { kind: spec_remote_kind(spec_read_capnp_error(*err).0) }),
        r.1.0@ == spec_read_capnp_error(*err).1,
{
    let exception = read_capnp_error(err);
    remote_error(&exception)
}

/// The exception sent to the peer for a local error: only `description`
/// (the short display text of the error's current context) crosses the
/// wire, under the kind chosen by the RPC layer found in the report.
pub fn outgoing_exception(description: &str, rpc: Option<RpcError>) -> (e: Exception)
    ensures
        e.kind == spec_outgoing_kind(rpc),
        e.extra@ == description@,
{
    let kind = match rpc {
        Some(RpcError::Unimplemented) => ExceptionKind::Unimplemented,
        Some(RpcError::Remote { .. }) => ExceptionKind::Disconnected,
        _ => ExceptionKind::Failed,
    };
    Exception { kind, extra: String::from_str(description) }
}

/// Builds the `capnp::Error` for [`outgoing_exception`]: `unimplemented`,
/// `disconnected` or `failed`, with `description` as its only text.
pub fn to_capnp_exception(description: &str, rpc: Option<RpcError>) -> (e: capnp::Error)
    ensures
        spec_read_capnp_error(e) == (spec_outgoing_kind(rpc), description@),
{
    let exception = outgoing_exception(description, rpc);
    match exception.kind {
        ExceptionKind::Unimplemented => capnp_unimplemented(exception.extra),
        ExceptionKind::Disconnected => capnp_disconnected(exception.extra),
        _ => capnp_failed(exception.extra),
    }
}

/// Limits on what a peer's message may make the reader traverse.
#[derive(Debug, Clone, Copy, PartialEq, Eq, Structural)]
pub struct ReaderLimits {
    /// Total 8-byte words a message may make the reader visit; `None` is
    /// no limit.
    pub traversal_limit_in_words: Option<usize>,
    /// How deeply structs and lists may nest.
    pub nesting_limit: i32,
}

/// The tightened limits for peers that are not fully trusted: 1 Mi words
/// (8 MiB) of traversal and a nesting depth of 32, in place of the message
/// layer's 8 Mi words and 64.
pub fn default_reader_limits() -> (l: ReaderLimits)
    ensures
        l.traversal_limit_in_words == Some(1048576usize),
        l.nesting_limit == 32,
{
    ReaderLimits { traversal_limit_in_words: Some(1024 * 1024), nesting_limit: 32 }
}

impl ReaderLimits {
    /// These limits as Cap'n Proto reader options.
    pub fn to_reader_options(&self) -> (o: capnp::message::ReaderOptions)
        ensures
            spec_reader_options_limits(o) == (self.traversal_limit_in_words, self.nesting_limit),
    {
        capnp_reader_options(self.traversal_limit_in_words, self.nesting_limit)
    }
}

/// Reader options carrying [`default_reader_limits`].
pub fn default_reader_options() -> (o: capnp::message::ReaderOptions)
    ensures
        spec_reader_options_limits(o) == (Some(1048576usize), 32i32),
{
    default_reader_limits().to_reader_options()
}

/// A forwarded remote failure never goes out as a local `Failed`: whatever
/// kind arrived, re-sending the resulting error reports `Disconnected`.
pub proof fn law_remote_forwarded_as_disconnected(kind: ExceptionKind)
    ensures
        spec_outgoing_kind(Some(RpcError::Remote { kind: spec_remote_kind(kind) }))
            == ExceptionKind::Disconnected,
{
}

} // verus!
