//! Message correlation inside one connection.
//!
//! Every message is an [`Envelope`]: a request (answered under its id), a
//! response (to a request this side sent) or a one-way event. A client
//! registers each outgoing call in its [`PendingCalls`] table under a fresh
//! id; the session loop routes every inbound message with
//! [`route_inbound`]: a response goes to the call waiting for its id and
//! leaves the table, a request or event goes to the handler, and only a
//! successful handler result for a request is answered ([`reply_for`]).

use vstd::prelude::*;
use std::collections::HashMap;
use crate::handshake::HandshakeMode;
use crate::endpoint::{decimal_string, spec_decimal_chars};

verus! {

broadcast use vstd::std_specs::hash::group_hash_axioms;

/// One message on an established connection.
#[allow(inconsistent_fields)]
#[derive(Debug, Clone)]
pub enum Envelope<Req, Res> {
    Request { id: u64, payload: Req },
    Response { id: u64, payload: Res },
    Event { payload: Req },
}

/// Scheduling class of a call.
#[derive(Clone, Copy, Debug, PartialEq, Eq, Structural)]
pub enum Priority {
    Critical,
    Normal,
    Bulk,
}

/// The calls of one client connection that still wait for a response,
/// each under the id its request was sent with, and the next id to hand
/// out. Ids count up from 0 and wrap around after `u64::MAX`.
pub struct PendingCalls<T> {
    next_id: u64,
    waiting: HashMap<u64, T>,
}

impl<T> View for PendingCalls<T> {
    type V = Map<u64, T>;

    closed spec fn view(&self) -> Map<u64, T> {
        self.waiting@
    }
}

impl<T> PendingCalls<T> {
    pub closed spec fn spec_next_id(&self) -> u64 {
        self.next_id
    }

    /// Every waiting id was handed out before the current `next_id`: true
    /// of a fresh table and kept by every call until the counter wraps.
    pub open spec fn ids_below_next(&self) -> bool {
        forall|id: u64| #[trigger] self@.contains_key(id) ==> id < self.spec_next_id()
    }

    /// An empty table whose first id is 0.
    pub fn new() -> (p: Self)
        ensures
            p@ == Map::<u64, T>::empty(),
            p.spec_next_id() == 0,
            p.ids_below_next(),
    {
        PendingCalls { next_id: 0, waiting: HashMap::new() }
    }

    /// The id the next call will get.
    pub fn next_id(&self) -> (id: u64)
        ensures
            id == self.spec_next_id(),
    {
        self.next_id
    }

    /// How many calls wait.
    pub fn len(&self) -> (n: usize)
        ensures
            n == self@.len(),
    {
        self.waiting.len()
    }

    /// Whether a call waits under `id`.
    pub fn is_waiting(&self, id: u64) -> (b: bool)
        ensures
            b == self@.contains_key(id),
    {
        self.waiting.contains_key(&id)
    }

    /// Registers a call: it gets the next id, under which `waiter` now
    /// waits, and the counter moves on by one (wrapping).
    pub fn register(&mut self, waiter: T) -> (id: u64)
        ensures
            id == old(self).spec_next_id(),
            final(self)@ == old(self)@.insert(id, waiter),
            final(self).spec_next_id() == old(self).spec_next_id().wrapping_add(1),
            old(self).ids_below_next() && old(self).spec_next_id() < u64::MAX ==> {
                &&& !old(self)@.contains_key(id)
                &&& final(self).ids_below_next()
            },
    {
        let id = self.next_id;
        self.next_id = self.next_id.wrapping_add(1);
        self.waiting.insert(id, waiter);
        id
    }

    /// Takes the call waiting under `id` out of the table, if there is one.
    pub fn take(&mut self, id: u64) -> (w: Option<T>)
        ensures
            final(self)@ == old(self)@.remove(id),
            final(self).spec_next_id() == old(self).spec_next_id(),
            old(self).ids_below_next() ==> final(self).ids_below_next(),
            match w {
                Some(v) => old(self)@.contains_key(id) && v == old(self)@[id],
                None => !old(self)@.contains_key(id),
            },
    {
        self.waiting.remove(&id)
    }
}

/// What the session loop does with one inbound message.
pub enum Inbound<Req, T> {
    /// A response whose call still waits: hand the message to `waiter`.
    Deliver { id: u64, waiter: T },
    /// A response nobody waits for any more (timed out or unknown): drop it.
    Unclaimed { id: u64 },
    /// A request (`reply_to` is its id) or an event (`None`) for the handler.
    Handle { reply_to: Option<u64>, payload: Req },
    /// The bytes did not decode: skip them.
    Undecodable,
}

/// Routes one inbound message; `decoded` is `None` when it did not
/// decode. A response takes its call out of `pending`; nothing else
/// changes the table.
pub fn route_inbound<Req, Res, T>(
    pending: &mut PendingCalls<T>,
    decoded: Option<Envelope<Req, Res>>,
) -> (r: Inbound<Req, T>)
    ensures
        final(pending).spec_next_id() == old(pending).spec_next_id(),
        match decoded {
            None => r is Undecodable && final(pending)@ == old(pending)@,
            Some(Envelope::Response { id, .. }) => {
                &&& final(pending)@ == old(pending)@.remove(id)
                &&& if old(pending)@.contains_key(id) {
                    r == (Inbound::<Req, T>::Deliver { id, waiter: old(pending)@[id] })
                } else {
                    r == (Inbound::<Req, T>::Unclaimed { id })
                }
            },
            Some(Envelope::Request { id, payload }) => r == (Inbound::<Req, T>::Handle {
                reply_to: Some(id),
                payload,
            }) && final(pending)@ == old(pending)@,
            Some(Envelope::Event { payload }) => r == (Inbound::<Req, T>::Handle {
                reply_to: None,
                payload,
            }) && final(pending)@ == old(pending)@,
        },
{
    match decoded {
        None => Inbound::Undecodable,
        Some(Envelope::Response { id, payload: _ }) => match pending.take(id) {
            Some(waiter) => Inbound::Deliver { id, waiter },
            None => Inbound::Unclaimed { id },
        },
        Some(Envelope::Request { id, payload }) => Inbound::Handle { reply_to: Some(id), payload },
        Some(Envelope::Event { payload }) => Inbound::Handle { reply_to: None, payload },
    }
}

/// The message sent back once the handler is done: a response under the
/// request's id when the handler succeeded on a request; nothing for an
/// event or a failed handler.
pub fn reply_for<Req, Res, E>(reply_to: Option<u64>, outcome: Result<Res, E>) -> (r: Option<
    Envelope<Req, Res>,
>)
    ensures
        match (reply_to, outcome) {
            (Some(id), Ok(payload)) => r == Some(Envelope::<Req, Res>::Response { id, payload }),
            _ => r is None,
        },
{
    match reply_to {
        Some(id) => match outcome {
            Ok(payload) => Some(Envelope::Response { id, payload }),
            Err(_) => None,
        },
        None => None,
    }
}

/// Why a call failed on the client side.
#[derive(Debug, Clone, Copy, PartialEq, Eq, Structural)]
pub enum CallError {
    /// The worker serving the call is gone.
    WorkerGone,
    /// The worker dropped the call before answering.
    WorkerCancelled,
    /// The session ended before the response arrived.
    ChannelClosed,
    /// No response arrived within the configured time.
    Timeout { seconds: u64 },
    /// The response bytes did not decode.
    InvalidResponse,
    /// The message under the call's id was not a response.
    NotAResponse,
}

impl CallError {
    pub open spec fn spec_description(self) -> Seq<char> {
        match self {
            CallError::WorkerGone => "Worker task dropped"@,
            CallError::WorkerCancelled => "Worker response cancelled"@,
            CallError::ChannelClosed => "Channel closed"@,
            CallError::Timeout { seconds } => "Request timeout ("@ + spec_decimal_chars(
                seconds as nat,
            ) + "s)"@,
            CallError::InvalidResponse => "Invalid response data"@,
            CallError::NotAResponse => "Not a response"@,
        }
    }

    /// The display text of this error.
    pub fn description(&self) -> (s: String)
        ensures
            s@ == self.spec_description(),
    {
        match self {
            CallError::WorkerGone => String::from_str("Worker task dropped"),
            CallError::WorkerCancelled => String::from_str("Worker response cancelled"),
            CallError::ChannelClosed => String::from_str("Channel closed"),
            CallError::Timeout { seconds } => {
                let mut s = String::from_str("Request timeout (");
                let n = decimal_string(*seconds);
                s.append(n.as_str());
                s.append("s)");
                s
            },
            CallError::InvalidResponse => String::from_str("Invalid response data"),
            CallError::NotAResponse => String::from_str("Not a response"),
        }
    }
}

/// How the wait for a response ended.
#[derive(Debug, Clone, Copy, PartialEq, Eq, Structural)]
pub enum WaitOutcome {
    /// The session delivered the response (and took the call out).
    Arrived,
    /// The session ended first.
    Closed,
    /// The timeout elapsed first.
    TimedOut,
}

/// Ends the wait of call `id`. A call that got no response leaves the
/// table here, so a late response is dropped as unclaimed.
pub fn finish_wait<T>(
    pending: &mut PendingCalls<T>,
    id: u64,
    outcome: WaitOutcome,
    timeout_seconds: u64,
) -> (r: Result<(), CallError>)
    ensures
        final(pending).spec_next_id() == old(pending).spec_next_id(),
        match outcome {
            WaitOutcome::Arrived => r is Ok && final(pending)@ == old(pending)@,
            WaitOutcome::Closed => r == Err::<(), CallError>(CallError::ChannelClosed)
                && final(pending)@ == old(pending)@.remove(id),
            WaitOutcome::TimedOut => r == Err::<(), CallError>(
                CallError::Timeout { seconds: timeout_seconds },
            ) && final(pending)@ == old(pending)@.remove(id),
        },
{
    match outcome {
        WaitOutcome::Arrived => Ok(()),
        WaitOutcome::Closed => {
            let _ = pending.take(id);
            Err(CallError::ChannelClosed)
        },
        WaitOutcome::TimedOut => {
            let _ = pending.take(id);
            Err(CallError::Timeout { seconds: timeout_seconds })
        },
    }
}

/// A delivered response: the buffer it arrived in, kept alive with the
/// payload decoded from it.
pub struct ResponseGuard<Rx, Res> {
    payload: Rx,
    view: Res,
}

impl<Rx, Res> ResponseGuard<Rx, Res> {
    pub closed spec fn spec_buffer(&self) -> Rx {
        self.payload
    }

    pub closed spec fn spec_view(&self) -> Res {
        self.view
    }

    /// Wraps the bytes of a delivered response; `decoded` is what they
    /// decode to, `None` when they do not. Only a response is accepted.
    pub fn try_new<Req>(payload: Rx, decoded: Option<Envelope<Req, Res>>) -> (r: Result<Self, CallError>)
        ensures
            match decoded {
                None => r == Err::<Self, CallError>(CallError::InvalidResponse),
                Some(Envelope::Response { payload: view, .. }) => r matches Ok(g)
                    && g.spec_view() == view && g.spec_buffer() == payload,
                Some(_) => r == Err::<Self, CallError>(CallError::NotAResponse),
            },
    {
        match decoded {
            None => Err(CallError::InvalidResponse),
            Some(Envelope::Response { id: _, payload: view }) => Ok(ResponseGuard { payload, view }),
            Some(_) => Err(CallError::NotAResponse),
        }
    }

    /// The decoded response.
    pub fn view(&self) -> (v: &Res)
        ensures
            *v == self.spec_view(),
    {
        &self.view
    }

    /// The buffer the response arrived in.
    pub fn buffer(&self) -> (b: &Rx)
        ensures
            *b == self.spec_buffer(),
    {
        &self.payload
    }
}

/// The handler a pure client runs for the session loop: it serves
/// nothing, so every request fails and none is answered.
#[derive(Debug, Clone, Copy)]
pub struct NoOpHandler;

impl NoOpHandler {
    /// Refuses the request.
    pub fn on_request<Req, Res>(&self, request: Req) -> (r: Result<Res, String>)
        ensures
            r matches Err(e) && e@ == "no op"@,
    {
        Err(String::from_str("no op"))
    }
}

/// Per-connection client settings.
#[derive(Clone, Debug)]
pub struct ClientConfig {
    /// How long a call waits for its response.
    pub timeout_seconds: u64,
    /// The handshake run before the session starts.
    pub handshake: HandshakeMode,
}

impl Default for ClientConfig {
    /// Ten seconds per call, no handshake.
    fn default() -> (c: Self)
        ensures
            c.timeout_seconds == 10,
            c.handshake@ is Disabled,
    {
        ClientConfig { timeout_seconds: 10, handshake: HandshakeMode::Disabled }
    }
}

impl ClientConfig {
    /// A copy of these settings.
    pub fn clone_config(&self) -> (c: Self)
        ensures
            c.timeout_seconds == self.timeout_seconds,
            c.handshake@ == self.handshake@,
    {
        ClientConfig { timeout_seconds: self.timeout_seconds, handshake: self.handshake.duplicate() }
    }
}

/// Spreads calls over the workers of a client in turn. The counter
/// wraps around like the atomic it stands for.
pub struct RoundRobin {
    next: usize,
}

impl RoundRobin {
    pub closed spec fn spec_next(&self) -> usize {
        self.next
    }

    pub fn new() -> (r: Self)
        ensures
            r.spec_next() == 0,
    {
        RoundRobin { next: 0 }
    }

    /// The worker for the next call, out of `workers`.
    pub fn pick(&mut self, workers: usize) -> (i: usize)
        requires
            workers > 0,
        ensures
            i == old(self).spec_next() % workers,
            i < workers,
            final(self).spec_next() == old(self).spec_next().wrapping_add(1),
    {
        let i = self.next % workers;
        self.next = self.next.wrapping_add(1);
        i
    }
}

/// What one worker reports while a client starts up.
pub enum StartupReport<E> {
    /// The worker for `core` is connected.
    Ready { core: usize },
    /// A worker failed to connect.
    Failed(E),
    /// The report channel closed before every worker reported.
    ChannelClosed,
}

/// Where the startup stands after a report.
pub enum StartupStep<E> {
    /// More workers must report.
    Waiting,
    /// Every worker is connected: the client is ready.
    AllReady,
    /// A worker failed: the client does not start.
    Failed(E),
    /// Reports stopped early: the client does not start.
    ChannelClosed,
}

/// Counts worker reports until all `expected` are connected; the first
/// failure ends the startup.
pub struct StartupTally {
    expected: usize,
    ready: usize,
}

impl StartupTally {
    pub closed spec fn spec_expected(&self) -> usize {
        self.expected
    }

    pub closed spec fn spec_ready(&self) -> usize {
        self.ready
    }

    pub fn new(expected: usize) -> (t: Self)
        ensures
            t.spec_expected() == expected,
            t.spec_ready() == 0,
    {
        StartupTally { expected, ready: 0 }
    }

    /// Whether every worker has reported ready (at once for none).
    pub fn all_ready(&self) -> (b: bool)
        ensures
            b == (self.spec_ready() >= self.spec_expected()),
    {
        self.ready >= self.expected
    }

    /// Takes one report while workers are still outstanding.
    pub fn on_report<E>(&mut self, report: StartupReport<E>) -> (s: StartupStep<E>)
        requires
            old(self).spec_ready() < old(self).spec_expected(),
        ensures
            final(self).spec_expected() == old(self).spec_expected(),
            match report {
                StartupReport::Ready { .. } => {
                    &&& final(self).spec_ready() == old(self).spec_ready() + 1
                    &&& if final(self).spec_ready() == final(self).spec_expected() {
                        s is AllReady
                    } else {
                        s is Waiting
                    }
                },
                StartupReport::Failed(e) => s == StartupStep::Failed(e) && final(self).spec_ready()
                    == old(self).spec_ready(),
                StartupReport::ChannelClosed => s is ChannelClosed && final(self).spec_ready()
                    == old(self).spec_ready(),
            },
    {
        match report {
            StartupReport::Ready { core: _ } => {
                self.ready = self.ready + 1;
                if self.ready == self.expected {
                    StartupStep::AllReady
                } else {
                    StartupStep::Waiting
                }
            },
            StartupReport::Failed(e) => StartupStep::Failed(e),
            StartupReport::ChannelClosed => StartupStep::ChannelClosed,
        }
    }
}

/// The model of routing a response under `id`: what the table becomes and
/// which waiter, if any, receives it.
pub open spec fn spec_route_response<T>(table: Map<u64, T>, id: u64) -> (Map<u64, T>, Option<T>) {
    if table.contains_key(id) {
        (table.remove(id), Some(table[id]))
    } else {
        (table, None)
    }
}

/// A response reaches the call that registered its id, exactly once: the
/// first response under the id delivers that call's waiter, a second one
/// under the same id is unclaimed, and no other waiting call is touched.
pub proof fn law_response_reaches_its_caller_once<T>(table: Map<u64, T>, id: u64, waiter: T)
    ensures
        ({
            let registered = table.insert(id, waiter);
            let (after_first, first) = spec_route_response(registered, id);
            let (after_second, second) = spec_route_response(after_first, id);
            &&& first == Some(waiter)
            &&& second is None
            &&& after_second == table.remove(id)
            &&& forall|other: u64| other != id && #[trigger] table.contains_key(other)
                ==> after_first.contains_key(other) && after_first[other] == table[other]
        }),
{
    let registered = table.insert(id, waiter);
    let (after_first, first) = spec_route_response(registered, id);
    assert(after_first =~= table.remove(id));
}

/// While the counter has not wrapped, a registered call gets an id no
/// waiting call holds, and every waiting id stays below the counter.
pub proof fn law_fresh_call_ids<T>(table: Map<u64, T>, next_id: u64, waiter: T)
    requires
        forall|id: u64| #[trigger] table.contains_key(id) ==> id < next_id,
        next_id < u64::MAX,
    ensures
        !table.contains_key(next_id),
        forall|id: u64| #[trigger] table.insert(next_id, waiter).contains_key(id) ==> id
            < next_id.wrapping_add(1),
{
}

/// A call that timed out leaves the table, so a response arriving later
/// for it is unclaimed rather than delivered.
pub proof fn law_late_response_is_unclaimed<T>(table: Map<u64, T>, id: u64)
    ensures
        spec_route_response(table.remove(id), id).1 is None,
{
}

/// Consecutive picks visit the workers in turn: each pick is the one after
/// the previous, modulo the number of workers.
pub proof fn law_round_robin_in_turn(next: usize, workers: usize)
    requires
        workers > 0,
        next < usize::MAX,
    ensures
        next.wrapping_add(1) % workers == (next % workers + 1) % (workers as int),
{
    if workers == 1 {
        assert(next.wrapping_add(1) % 1 == 0);
        assert((next % 1 + 1) % 1int == 0);
    } else {
        vstd::arithmetic::div_mod::lemma_small_mod(1nat, workers as nat);
        vstd::arithmetic::div_mod::lemma_add_mod_noop(next as int, 1, workers as int);
    }
}

} // verus!
