//! Properties of stop requests, over the slot states that the lock
//! serialises them into.
use vstd::prelude::*;
use crate::outcome::StopError;
use crate::panel::{reply_of, stop_step, StopPlan};
use crate::slot::publish_step;

verus! {

/// Two stop requests against one running server, in whichever order the lock
/// lets them read the slot: the first takes the server and plans its one
/// graceful shutdown, which leaves the slot empty, so the second plans none.
/// Exactly one shutdown is planned, and the request that planned it reports
/// `Ok`.
pub proof fn concurrent_stops_shut_down_once<H>(handle: H, grace_secs: u64)
    ensures
        ({
            let (first, between) = stop_step(Some(handle), grace_secs);
            let (second, after) = stop_step(between, grace_secs);
            &&& first == (StopPlan::Shutdown { handle, graceful: true, grace_secs })
            &&& second is NotRunning
            &&& after is None
            &&& reply_of(first) == Ok::<(), StopError>(())
            &&& reply_of(second) == Err::<(), StopError>(StopError::NotRunning)
        }),
{
}

/// A stop request that reads the slot before a start has published its
/// server reports `NotRunning` and leaves the slot empty; publishing the
/// server afterwards still makes it running, and the next stop request shuts
/// it down and reports `Ok`.
pub proof fn stop_before_start_does_not_poison<H>(handle: H, grace_secs: u64)
    ensures
        ({
            let (early, left) = stop_step(None::<H>, grace_secs);
            let (_, published) = publish_step(left, handle);
            let (late, _) = stop_step(published, grace_secs);
            &&& reply_of(early) == Err::<(), StopError>(StopError::NotRunning)
            &&& left is None
            &&& published == Some(handle)
            &&& late == (StopPlan::Shutdown { handle, graceful: true, grace_secs })
            &&& reply_of(late) == Ok::<(), StopError>(())
        }),
{
}

/// Stop requests clear the slot: whatever the slot held before a stop
/// request, a second request right after it reports `NotRunning`.
pub proof fn stop_after_stop_is_not_running<H>(before: Option<H>, grace_secs: u64)
    ensures
        ({
            let (_, between) = stop_step(before, grace_secs);
            let (second, _) = stop_step(between, grace_secs);
            reply_of(second) == Err::<(), StopError>(StopError::NotRunning)
        }),
{
}

} // verus!
