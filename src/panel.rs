use vstd::prelude::*;
use crate::outcome::{StopError, StopResult};
use crate::shared::{new_mutex, swap_locked};
use crate::slot::ServerSlot;

verus! {

/// Seconds a graceful shutdown waits for in-flight requests unless configured
/// otherwise.
pub const DEFAULT_GRACE_SECS: u64 = 1;

/// What a stop request does, decided while the slot's lock is held and carried
/// out after it is released.
pub enum StopPlan<H> {
    /// Stop this server, gracefully: in-flight requests get at most
    /// `grace_secs` seconds before they are dropped.
    Shutdown { handle: H, graceful: bool, grace_secs: u64 },
    /// No server was published: report `NotRunning` at once.
    NotRunning,
}

/// The plan a stop request makes from the slot it reads.
pub open spec fn plan_for<H>(slot: Option<H>, grace_secs: u64) -> StopPlan<H> {
    match slot {
        Some(h) => StopPlan::Shutdown { handle: h, graceful: true, grace_secs },
        None => StopPlan::NotRunning,
    }
}

/// A stop request on a slot holding `slot`: its plan, and what the slot holds
/// afterwards.
pub open spec fn stop_step<H>(slot: Option<H>, grace_secs: u64) -> (StopPlan<H>, Option<H>) {
    (plan_for(slot, grace_secs), None)
}

/// The outcome a stop request reports once its plan has been carried out. A
/// shutdown counts as done when the server's stop returns, whether the drain
/// finished within the grace period or in-flight work was dropped.
pub open spec fn reply_of<H>(plan: StopPlan<H>) -> StopResult {
    match plan {
        StopPlan::Shutdown { .. } => Ok(()),
        StopPlan::NotRunning => Err(StopError::NotRunning),
    }
}

/// Why a start did not publish a server.
#[derive(Clone, Copy, Debug, PartialEq, Eq, Structural)]
pub enum StartError {
    /// The address could not be bound (in use, or not an address).
    BindFailure,
}

/// The controller of one server: the address it binds, the grace period of
/// its shutdown, and the slot it publishes the running server into. The slot
/// sits behind a lock that is held for one exchange at a time, never across a
/// shutdown; share the controller between threads with `Arc`.
///
/// A stop request empties the slot when it finds a server there, so at most
/// one shutdown is ever under way for a published server, and a later request
/// reports `NotRunning` until a server is published again.
#[verifier::reject_recursive_types(H)]
pub struct ControlPanel<H> {
    address: String,
    grace_secs: u64,
    slot: parking_lot::Mutex<ServerSlot<H>>,
}

impl<H> ControlPanel<H> {
    /// The address the server binds.
    pub closed spec fn spec_address(&self) -> Seq<char> {
        self.address@
    }

    /// The grace period of a shutdown, in seconds.
    pub closed spec fn spec_grace_secs(&self) -> u64 {
        self.grace_secs
    }

    /// A controller for a server on `address`, with the default grace period
    /// and no server published.
    pub fn new(address: &str) -> (r: ControlPanel<H>)
        ensures
            r.spec_address() == address@,
            r.spec_grace_secs() == DEFAULT_GRACE_SECS,
    {
        Self::with_grace(address, DEFAULT_GRACE_SECS)
    }

    /// A controller for a server on `address` whose shutdown waits at most
    /// `grace_secs` seconds for in-flight requests, with no server published.
    pub fn with_grace(address: &str, grace_secs: u64) -> (r: ControlPanel<H>)
        ensures
            r.spec_address() == address@,
            r.spec_grace_secs() == grace_secs,
    {
        ControlPanel { address: address.to_owned(), grace_secs, slot: new_mutex(ServerSlot::new()) }
    }

    pub fn address(&self) -> (r: &str)
        ensures
            r@ == self.spec_address(),
    {
        self.address.as_str()
    }

    pub fn grace_secs(&self) -> (r: u64)
        ensures
            r == self.spec_grace_secs(),
    {
        self.grace_secs
    }

    /// Publishes the server once its address is bound (`bound` is `Some`),
    /// to be called before it serves a request. A server that was published
    /// before is handed back in `Ok(Some(..))`, for the caller to stop, so
    /// that no live server is lost track of. When binding failed (`None`) the
    /// slot is not touched and `BindFailure` comes back.
    pub fn publish(&self, bound: Option<H>) -> (r: Result<Option<H>, StartError>)
        ensures
            bound is Some <==> r is Ok,
            bound is None ==> r == Err::<Option<H>, StartError>(StartError::BindFailure),
    {
        match bound {
            Some(h) => {
                let mut fresh = ServerSlot::new();
                fresh.set(h);
                let mut prev = swap_locked(&self.slot, fresh);
                Ok(prev.take())
            },
            None => Err(StartError::BindFailure),
        }
    }

    /// A stop request: empties the slot under its lock and plans from what it
    /// held. Which plan comes back depends on what other threads did to the
    /// slot; a shutdown is always graceful, with this controller's grace
    /// period. Carry the plan out after this returns, with the lock released.
    pub fn request_stop(&self) -> (p: StopPlan<H>)
        ensures
            p is Shutdown ==> p->graceful && p->grace_secs == self.spec_grace_secs(),
    {
        let mut taken = swap_locked(&self.slot, ServerSlot::new());
        self.plan_stop(&mut taken)
    }

    /// The decision of a stop request on the slot it read. A published server
    /// is taken out and is to be shut down gracefully with this controller's
    /// grace period; an empty slot means `NotRunning`. Either way the slot is
    /// empty afterwards.
    pub fn plan_stop(&self, slot: &mut ServerSlot<H>) -> (p: StopPlan<H>)
        ensures
            (p, final(slot)@) == stop_step(old(slot)@, self.spec_grace_secs()),
    {
        match slot.take() {
            Some(h) => StopPlan::Shutdown { handle: h, graceful: true, grace_secs: self.grace_secs },
            None => StopPlan::NotRunning,
        }
    }
}

/// The outcome to deliver through a request's completion signal once its plan
/// has been carried out: `Ok` after a shutdown, `NotRunning` otherwise.
pub fn reply_for<H>(plan: &StopPlan<H>) -> (r: StopResult)
    ensures
        r == reply_of(*plan),
{
    match plan {
        StopPlan::Shutdown { .. } => Ok(()),
        StopPlan::NotRunning => Err(StopError::NotRunning),
    }
}

} // verus!
