//! The decisions of the background poller: when to look for devices, when
//! to poll, and when to stop.

use vstd::prelude::*;

verus! {

/// Where the poller stands.
#[derive(Debug, Clone, Copy, PartialEq, Eq, Structural)]
pub enum WorkerPoint {
    /// Just started.
    Start,
    /// Discovery has run.
    Discovered,
    /// A poll round was handed to the main loop; `first` for the round
    /// right after start, `delivered` when the main loop still listens.
    Sent { first: bool, delivered: bool },
    /// The pause between rounds is over.
    Woke,
}

/// What the poller does next.
#[derive(Debug, Clone, Copy, PartialEq, Eq, Structural)]
pub enum WorkerAction {
    /// Replace the registered devices by those found now.
    Discover,
    /// Poll every registered device and send the statuses.
    PollAndSend,
    /// Pause for the current poll interval.
    Sleep,
    /// End the poller.
    Stop,
}

/// The poller's next action: discovery at start and whenever it wakes with
/// no device registered, a poll round after discovery or on waking, a
/// pause after each round, and the end once a round after the first could
/// not be delivered.
pub open spec fn worker_next(at: WorkerPoint, registry_empty: bool) -> WorkerAction {
    match at {
        WorkerPoint::Start => WorkerAction::Discover,
        WorkerPoint::Discovered => WorkerAction::PollAndSend,
        WorkerPoint::Sent { first, delivered } => if first || delivered {
            WorkerAction::Sleep
        } else {
            WorkerAction::Stop
        },
        WorkerPoint::Woke => if registry_empty {
            WorkerAction::Discover
        } else {
            WorkerAction::PollAndSend
        },
    }
}

/// The poller's next action at `at`, `registry_empty` telling whether no
/// device is registered.
pub fn worker_action(at: WorkerPoint, registry_empty: bool) -> (r: WorkerAction)
    ensures
        r == worker_next(at, registry_empty),
{
    match at {
        WorkerPoint::Start => WorkerAction::Discover,
        WorkerPoint::Discovered => WorkerAction::PollAndSend,
        WorkerPoint::Sent { first, delivered } => if first || delivered {
            WorkerAction::Sleep
        } else {
            WorkerAction::Stop
        },
        WorkerPoint::Woke => if registry_empty {
            WorkerAction::Discover
        } else {
            WorkerAction::PollAndSend
        },
    }
}

/// After start, discovery runs only when no device is registered.
pub proof fn lemma_discovery_only_when_empty(at: WorkerPoint, registry_empty: bool)
    requires
        at != WorkerPoint::Start,
        worker_next(at, registry_empty) == WorkerAction::Discover,
    ensures
        registry_empty,
        at == WorkerPoint::Woke,
{
}

/// Every wake-up leads to exactly one poll round: directly, or after one
/// discovery.
pub proof fn lemma_one_round_per_wake(registry_empty: bool, empty_after: bool)
    ensures
        worker_next(WorkerPoint::Woke, registry_empty) == WorkerAction::PollAndSend || (
        worker_next(WorkerPoint::Woke, registry_empty) == WorkerAction::Discover && worker_next(
            WorkerPoint::Discovered,
            empty_after,
        ) == WorkerAction::PollAndSend),
{
}

/// The poller stops exactly when a round after the first could not be
/// delivered; otherwise every round is followed by a pause.
pub proof fn lemma_stops_only_when_unheard(at: WorkerPoint, registry_empty: bool)
    ensures
        worker_next(at, registry_empty) == WorkerAction::Stop <==> at == (WorkerPoint::Sent {
            first: false,
            delivered: false,
        }),
        at is Sent ==> worker_next(at, registry_empty) == WorkerAction::Sleep
            || worker_next(at, registry_empty) == WorkerAction::Stop,
{
}

} // verus!
