//! The decisions of a future that runs a blocking C API call on a thread of
//! its own: when to start the call, and when a poll is ready.

use vstd::prelude::*;

verus! {

/// Where a worker future stands.
#[derive(Debug, Copy, Clone, PartialEq, Eq, Structural)]
pub enum FuturePhase {
    /// The C API call has not been started.
    NotStarted,
    /// The call runs on its thread; its result may not have arrived yet.
    InProgress,
    /// The result was handed out; the future must not be polled again.
    Completed,
}

/// What a poll does.
#[derive(Debug)]
pub enum PollAction<T> {
    /// Start the call on a thread of its own, and report that the result is
    /// pending.
    Start,
    /// Hand out the result.
    Ready(T),
    /// Report that the result is still pending.
    Pending,
}

/// One poll of a worker future in `phase`, given the result that arrived
/// from the call's thread, if any: a future that has not started starts and
/// is pending (a result cannot have arrived yet); a future in progress is
/// ready once the result has arrived and pending before. Polling a completed
/// future is an error of the caller.
pub fn poll_step<T>(phase: FuturePhase, received: Option<T>) -> (res: (FuturePhase, PollAction<T>))
    requires
        phase != FuturePhase::Completed,
        phase == FuturePhase::NotStarted ==> received is None,
    ensures
        phase == FuturePhase::NotStarted ==> res.0 == FuturePhase::InProgress && res.1 is Start,
        phase == FuturePhase::InProgress ==> match received {
            Some(v) => res.0 == FuturePhase::Completed && res.1 == PollAction::Ready(v),
            None => res.0 == FuturePhase::InProgress && res.1 is Pending,
        },
{
    match phase {
        FuturePhase::NotStarted => (FuturePhase::InProgress, PollAction::Start),
        _ => match received {
            Some(v) => (FuturePhase::Completed, PollAction::Ready(v)),
            None => (FuturePhase::InProgress, PollAction::Pending),
        },
    }
}

} // verus!
