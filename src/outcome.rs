use vstd::prelude::*;

verus! {

/// Why a stop request did not stop a server.
#[derive(Clone, Copy, Debug, PartialEq, Eq, Structural)]
pub enum StopError {
    /// The slot held no server when the request read it.
    NotRunning,
    /// The side that owed the outcome went away without delivering it.
    Disconnected,
}

/// What a stop request reports to its caller.
pub type StopResult = Result<(), StopError>;

/// The outcome a requester sees once its completion signal has been awaited:
/// the delivered value, or `Disconnected` when the producer was dropped before
/// sending (`None`).
pub fn received_outcome(delivered: Option<StopResult>) -> (r: StopResult)
    ensures
        delivered is None ==> r == Err::<(), StopError>(StopError::Disconnected),
        delivered is Some ==> r == delivered->0,
{
    match delivered {
        Some(v) => v,
        None => Err(StopError::Disconnected),
    }
}

/// HTTP status for a stop endpoint that has awaited the outcome:
/// 204 (no content) on success, 500 on any failure.
pub fn stop_status(outcome: StopResult) -> (r: u16)
    ensures
        outcome is Ok ==> r == 204,
        outcome is Err ==> r == 500,
{
    match outcome {
        Ok(()) => 204,
        Err(_) => 500,
    }
}

/// Text of an error, as an operator would read it in a log.
pub open spec fn error_text(e: StopError) -> Seq<char> {
    match e {
        StopError::NotRunning => "server is not running"@,
        StopError::Disconnected => "stop outcome was never delivered"@,
    }
}

impl StopError {
    /// A human-readable description of the error.
    pub fn message(&self) -> (r: String)
        ensures
            r@ == error_text(*self),
    {
        match self {
            StopError::NotRunning => "server is not running".to_string(),
            StopError::Disconnected => "stop outcome was never delivered".to_string(),
        }
    }
}

} // verus!
