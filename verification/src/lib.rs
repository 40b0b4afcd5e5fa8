//! Verified core of an RPC transport library: the pre-RPC handshake wire
//! format and its client/server decision machines, connection admission,
//! endpoint naming conventions, discovery key/topology bookkeeping, message
//! dispatch, buffer-pool accounting and the error vocabulary of every layer.

pub mod error;
pub mod wire;
pub mod crypto;
pub mod handshake;
pub mod gate;
pub mod endpoint;
pub mod discovery;
pub mod text;
pub mod signed;
pub mod rpc;
pub mod session;
pub mod pool;
pub mod worker;
pub mod watch;
pub mod node;
