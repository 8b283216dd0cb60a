use vstd::prelude::*;

verus! {

/// What a request to shut down asks of the program.
#[derive(Copy, Clone, Debug, PartialEq, Eq, Structural)]
pub enum ShutdownAction {
    /// Leave the control loop at its next turn.
    Graceful,
    /// End the program at once.
    Forced,
}

impl ShutdownAction {
    /// The action for a request that `earlier_requests` requests came
    /// before: the first request is graceful, every further one is forced.
    pub open spec fn for_request_spec(earlier_requests: nat) -> ShutdownAction {
        if earlier_requests == 0 {
            ShutdownAction::Graceful
        } else {
            ShutdownAction::Forced
        }
    }

    /// The action for a request that `earlier_requests` requests came
    /// before.
    pub fn for_request(earlier_requests: usize) -> (action: ShutdownAction)
        ensures
            action == Self::for_request_spec(earlier_requests as nat),
    {
        if earlier_requests == 0 {
            ShutdownAction::Graceful
        } else {
            ShutdownAction::Forced
        }
    }
}

/// Whether the control loop goes on after `requests` requests to shut down:
/// it does until the first.
pub fn keeps_running(requests: usize) -> (running: bool)
    ensures
        running == (requests == 0),
{
    requests == 0
}

} // verus!
