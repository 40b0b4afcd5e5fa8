//! Enforces a server's connection mode at the accept loop: in one-to-one
//! mode only one lease is out at a time.

use vstd::prelude::*;

verus! {

#[derive(Clone, Copy, Debug, PartialEq, Eq, Structural)]
pub enum ConnectionMode {
    OneToOne,
    OneToMany,
}

impl Default for ConnectionMode {
    fn default() -> (m: Self)
        ensures
            m == ConnectionMode::OneToMany,
    {
        ConnectionMode::OneToMany
    }
}

/// The admission state of one accept loop. Single-threaded by design.
#[derive(Debug)]
pub struct ConnectionGate {
    mode: ConnectionMode,
    active: bool,
}

/// Permission to run one session. A lease granted in one-to-one mode
/// holds the slot: no other is granted until it is released.
#[derive(Debug)]
pub struct ConnectionLease {
    holds_slot: bool,
}

impl ConnectionLease {
    pub closed spec fn spec_holds_slot(&self) -> bool {
        self.holds_slot
    }

    /// Whether releasing this lease lets the next connection in.
    pub fn holds_slot(&self) -> (t: bool)
        ensures
            t == self.spec_holds_slot(),
    {
        self.holds_slot
    }
}

impl ConnectionGate {
    pub closed spec fn spec_mode(&self) -> ConnectionMode {
        self.mode
    }

    /// Whether a lease holding the slot is out.
    pub closed spec fn spec_active(&self) -> bool {
        self.active
    }

    pub fn new(mode: ConnectionMode) -> (g: Self)
        ensures
            g.spec_mode() == mode,
            !g.spec_active(),
    {
        ConnectionGate { mode, active: false }
    }

    pub fn mode(&self) -> (m: ConnectionMode)
        ensures
            m == self.spec_mode(),
    {
        self.mode
    }

    /// Whether a lease holding the slot is out.
    pub fn is_active(&self) -> (a: bool)
        ensures
            a == self.spec_active(),
    {
        self.active
    }

    /// One-to-many: always an lease that holds no slot. One-to-one: a lease holding the slot
    /// when none is out (the slot is taken), otherwise `None`.
    pub fn try_acquire(&mut self) -> (lease: Option<ConnectionLease>)
        ensures
            final(self).spec_mode() == old(self).spec_mode(),
            (final(self).spec_active(), match lease {
                Some(l) => Some(l.spec_holds_slot()),
                None => None,
            }) == spec_acquire(old(self).spec_mode(), old(self).spec_active()),
    {
        match self.mode {
            ConnectionMode::OneToMany => Some(ConnectionLease { holds_slot: false }),
            ConnectionMode::OneToOne => {
                if !self.active {
                    self.active = true;
                    Some(ConnectionLease { holds_slot: true })
                } else {
                    None
                }
            },
        }
    }

    /// Ends a session: a lease holding the slot frees it, one that holds no slot
    /// changes nothing. Meant for leases granted here.
    pub fn release(&mut self, lease: ConnectionLease)
        ensures
            final(self).spec_mode() == old(self).spec_mode(),
            final(self).spec_active() == spec_release(old(self).spec_active(), lease.spec_holds_slot()),
    {
        if lease.holds_slot {
            self.active = false;
        }
    }
}

/// The admission state after `try_acquire` from `active`, and whether
/// (and how) a lease was granted: `Some(holds_slot)` or `None`.
pub open spec fn spec_acquire(mode: ConnectionMode, active: bool) -> (bool, Option<bool>) {
    match mode {
        ConnectionMode::OneToMany => (active, Some(false)),
        ConnectionMode::OneToOne => if active {
            (true, None)
        } else {
            (true, Some(true))
        },
    }
}

/// The admission state after releasing a lease.
pub open spec fn spec_release(active: bool, holds_slot: bool) -> bool {
    active && !holds_slot
}

/// One-to-one: while a lease is out no second one is granted, and releasing
/// it admits the next connection. One-to-many never refuses and never
/// closes.
pub proof fn law_gate_admission(active: bool)
    ensures
        ({
            let (a1, l1) = spec_acquire(ConnectionMode::OneToOne, false);
            let (a2, l2) = spec_acquire(ConnectionMode::OneToOne, a1);
            let a3 = spec_release(a2, l1->Some_0);
            let (a4, l4) = spec_acquire(ConnectionMode::OneToOne, a3);
            &&& l1 == Some(true)
            &&& l2 is None
            &&& l4 == Some(true)
        }),
        spec_acquire(ConnectionMode::OneToMany, active) == (active, Some(false)),
        spec_release(active, false) == active,
{
}

/// One admission event: a `try_acquire`, or the release of a lease that
/// holds the slot or not.
pub enum AdmissionStep {
    Acquire,
    Release { holds_slot: bool },
}

/// The admission state after a history of steps from a fresh state, and
/// how many leases holding the slot are alive.
pub open spec fn spec_replay(mode: ConnectionMode, steps: Seq<AdmissionStep>) -> (bool, nat)
    decreases steps.len(),
{
    if steps.len() == 0 {
        (false, 0)
    } else {
        let (active, held) = spec_replay(mode, steps.drop_last());
        match steps.last() {
            AdmissionStep::Acquire => {
                let (next, granted) = spec_acquire(mode, active);
                (next, if granted == Some(true) { held + 1 } else { held })
            },
            AdmissionStep::Release { holds_slot } => (
                spec_release(active, holds_slot),
                if holds_slot && held > 0 { (held - 1) as nat } else { held },
            ),
        }
    }
}

/// A history in which every lease released as holding the slot was one
/// that is alive at that point.
pub open spec fn spec_history_valid(mode: ConnectionMode, steps: Seq<AdmissionStep>) -> bool
    decreases steps.len(),
{
    if steps.len() == 0 {
        true
    } else {
        &&& spec_history_valid(mode, steps.drop_last())
        &&& (steps.last() matches AdmissionStep::Release { holds_slot } && holds_slot ==> spec_replay(
            mode,
            steps.drop_last(),
        ).1 > 0)
    }
}

/// Over any history of acquires and releases: in one-to-one mode at most one
/// lease holding the slot is alive, the slot is taken exactly while it is,
/// and the next acquire is refused exactly then; in one-to-many mode no
/// lease ever holds the slot and no acquire is refused.
pub proof fn law_admission_over_any_history(mode: ConnectionMode, steps: Seq<AdmissionStep>)
    requires
        spec_history_valid(mode, steps),
    ensures
        ({
            let (active, held) = spec_replay(mode, steps);
            &&& held <= 1
            &&& active == (held == 1)
            &&& (spec_acquire(mode, active).1 is None <==> (mode == ConnectionMode::OneToOne
                && held == 1))
            &&& (mode == ConnectionMode::OneToMany ==> held == 0)
        }),
    decreases steps.len(),
{
    if steps.len() > 0 {
        law_admission_over_any_history(mode, steps.drop_last());
    }
}

} // verus!
