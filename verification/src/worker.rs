//! The decisions of a server's accept loop.
//!
//! Each accepted connection is split into its two halves, admitted through
//! the [`ConnectionGate`] and authenticated; only then does a session run,
//! holding its lease until it ends. A failed accept or split backs off for
//! a second; a connection that is not admitted gets a rejecting `Ack` with a
//! reason; a failed handshake gives its lease back at once.

use vstd::prelude::*;
use vstd::string::StringSliceAdditionalSpecFns;
use crate::gate::{
    law_admission_over_any_history, spec_acquire, spec_history_valid, spec_release, spec_replay,
    AdmissionStep, ConnectionGate, ConnectionLease, ConnectionMode,
};
use crate::handshake::reject_connection;
use crate::wire::{spec_ack_body, spec_frame, ACK_REJECTED};

verus! {

/// How long the loop pauses after a failed accept or split.
pub const ACCEPT_BACKOFF_MILLIS: u64 = 1000;

/// The frame a refused connection receives: a rejecting `Ack` whose reason
/// says the server is in one-to-one mode.
pub open spec fn spec_refusal_frame() -> Seq<u8> {
    spec_frame(spec_ack_body(ACK_REJECTED, "Connection rejected: server is in one-to-one mode".spec_bytes()))
}

/// What the transport reported for one turn of the accept loop.
#[derive(Debug, Clone, Copy, PartialEq, Eq, Structural)]
pub enum AcceptEvent {
    /// Accepting failed.
    AcceptFailed,
    /// A connection arrived but could not be split into its two halves.
    SplitFailed,
    /// A connection arrived and was split.
    Connected,
}

/// What the loop does next.
pub enum AcceptAction {
    /// Pause, then accept again.
    BackOff { millis: u64 },
    /// Write `frame` (best effort), close the connection, accept again.
    Reject { frame: Vec<u8> },
    /// Run the handshake; the session, if any, holds `lease`.
    Authenticate { lease: ConnectionLease },
}

/// A server worker's accept loop, one per core: it binds its listener,
/// then accepts, admits, authenticates and hands each connection to a
/// session of its own.
pub struct ServerWorker;

impl ServerWorker {
    /// Decides one turn of the accept loop.
    pub fn on_accept(gate: &mut ConnectionGate, event: AcceptEvent) -> (a: AcceptAction)
        ensures
            final(gate).spec_mode() == old(gate).spec_mode(),
            event != AcceptEvent::Connected ==> {
                &&& a == (AcceptAction::BackOff { millis: ACCEPT_BACKOFF_MILLIS })
                &&& final(gate).spec_active() == old(gate).spec_active()
            },
            event == AcceptEvent::Connected ==> {
                let (active, granted) = spec_acquire(old(gate).spec_mode(), old(gate).spec_active());
                &&& final(gate).spec_active() == active
                &&& match granted {
                    Some(holds_slot) => a matches AcceptAction::Authenticate { lease }
                        && lease.spec_holds_slot() == holds_slot,
                    None => a matches AcceptAction::Reject { frame } && frame@ == spec_refusal_frame(),
                }
            },
    {
        match event {
            AcceptEvent::AcceptFailed => AcceptAction::BackOff { millis: ACCEPT_BACKOFF_MILLIS },
            AcceptEvent::SplitFailed => AcceptAction::BackOff { millis: ACCEPT_BACKOFF_MILLIS },
            AcceptEvent::Connected => match gate.try_acquire() {
                Some(lease) => AcceptAction::Authenticate { lease },
                None => AcceptAction::Reject {
                    frame: reject_connection("Connection rejected: server is in one-to-one mode"),
                },
            },
        }
    }

    /// After the handshake: a session starts holding the lease when it
    /// succeeded; otherwise the lease is given back at once.
    pub fn on_handshake_done(gate: &mut ConnectionGate, lease: ConnectionLease, succeeded: bool) -> (kept:
        Option<ConnectionLease>)
        ensures
            final(gate).spec_mode() == old(gate).spec_mode(),
            succeeded ==> kept == Some(lease) && final(gate).spec_active() == old(gate).spec_active(),
            !succeeded ==> kept is None && final(gate).spec_active() == spec_release(
                old(gate).spec_active(),
                lease.spec_holds_slot(),
            ),
    {
        if succeeded {
            Some(lease)
        } else {
            gate.release(lease);
            None
        }
    }
}

/// Workers that share one admission state in one-to-one mode run at most
/// one session at a time. Over any history of admissions on it (each
/// worker's [`ServerWorker::on_accept`], and the leases failed handshakes
/// and ended sessions give back), at most one lease holding the slot is
/// alive, and while it is, every connection accepted is refused (and gets
/// the refusal frame, by `on_accept`) without changing the state.
pub proof fn law_one_session_at_a_time(steps: Seq<AdmissionStep>)
    requires
        spec_history_valid(ConnectionMode::OneToOne, steps),
    ensures
        ({
            let (active, held) = spec_replay(ConnectionMode::OneToOne, steps);
            &&& held <= 1
            &&& held == 1 ==> spec_acquire(ConnectionMode::OneToOne, active) == (active, None::<bool>)
        }),
{
    law_admission_over_any_history(ConnectionMode::OneToOne, steps);
}

} // verus!
