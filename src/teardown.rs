use vstd::prelude::*;

verus! {

/// What the pool found when, being disposed, it tried to lock the dispatch
/// queue's receive end.
#[derive(Debug, Clone, Copy, PartialEq, Eq, Structural)]
pub enum TeardownLockOutcome {
    /// The lock was taken: no worker is inside it.
    Acquired,
    /// A worker holds the lock.
    Busy,
    /// A thread ended abnormally while holding the lock.
    Poisoned,
}

/// What the disposing pool does next.
#[derive(Debug, Clone, Copy, PartialEq, Eq, Structural)]
pub enum TeardownAction {
    /// Release the lock and drop the queues; the workers stop by themselves.
    Proceed,
    /// Yield, then try the lock again.
    Retry,
}

/// The disposer's rule: a poisoned lock has no live holder left, so it counts
/// as acquired; only a lock held by a live worker is waited for.
pub open spec fn teardown_transition(outcome: TeardownLockOutcome) -> TeardownAction {
    match outcome {
        TeardownLockOutcome::Acquired => TeardownAction::Proceed,
        TeardownLockOutcome::Poisoned => TeardownAction::Proceed,
        TeardownLockOutcome::Busy => TeardownAction::Retry,
    }
}

/// Decides what the disposing pool does after a try on the lock.
pub fn on_teardown_lock(outcome: TeardownLockOutcome) -> (r: TeardownAction)
    ensures
        r == teardown_transition(outcome),
{
    match outcome {
        TeardownLockOutcome::Acquired => TeardownAction::Proceed,
        TeardownLockOutcome::Poisoned => TeardownAction::Proceed,
        TeardownLockOutcome::Busy => TeardownAction::Retry,
    }
}

} // verus!
