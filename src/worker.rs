use vstd::prelude::*;

verus! {

/// What a worker found when it tried to take an envelope from the dispatch queue.
#[derive(Debug, Clone, Copy, PartialEq, Eq, Structural)]
pub enum PollOutcome {
    /// The pool is gone: the shared handle to the dispatch queue has expired.
    HandleExpired,
    /// Another worker holds the lock on the dispatch queue's receive end.
    LockBusy,
    /// A thread ended abnormally while holding that lock.
    LockPoisoned,
    /// The dispatch queue is empty.
    QueueEmpty,
    /// The dispatch queue's transmit end is closed.
    QueueClosed,
    /// An envelope was taken.
    Received,
}

/// What a worker found when it tried to send an envelope on the collection queue.
#[derive(Debug, Clone, Copy, PartialEq, Eq, Structural)]
pub enum SendOutcome {
    Sent,
    QueueFull,
    /// The collection queue's receive end is gone.
    QueueClosed,
}

/// Why a worker stopped with a fatal error.
#[derive(Debug, Clone, Copy, PartialEq, Eq, Structural)]
pub enum WorkerFault {
    /// The lock on the dispatch queue was poisoned.
    LockPoisoned,
    /// The coordinator's collection queue closed while the worker still had a result.
    CollectionClosed,
}

/// Where a worker stands.
#[derive(Debug, Clone, Copy, PartialEq, Eq, Structural)]
pub enum WorkerState {
    /// Waiting for an envelope from the dispatch queue.
    Polling,
    /// Holding an envelope to transform and send on the collection queue.
    Sending,
    /// Stopped without error: the pool was disposed.
    Stopped,
    /// Stopped with a fatal error.
    Failed(WorkerFault),
}

/// What the thread running a worker does next.
#[derive(Debug, Clone, Copy, PartialEq, Eq, Structural)]
pub enum WorkerAction {
    /// Yield, then try to take an envelope again.
    Poll,
    /// Run the transformation on the envelope taken, then send it.
    Work,
    /// Yield, then try the send again.
    RetrySend,
    /// End the thread quietly.
    Exit,
    /// End the thread with this fatal error.
    Fail(WorkerFault),
}

/// A worker's next state and action after a poll of the dispatch queue.
pub open spec fn poll_transition(outcome: PollOutcome) -> (WorkerState, WorkerAction) {
    match outcome {
        PollOutcome::HandleExpired => (WorkerState::Stopped, WorkerAction::Exit),
        PollOutcome::QueueClosed => (WorkerState::Stopped, WorkerAction::Exit),
        PollOutcome::LockPoisoned => (
            WorkerState::Failed(WorkerFault::LockPoisoned),
            WorkerAction::Fail(WorkerFault::LockPoisoned),
        ),
        PollOutcome::LockBusy => (WorkerState::Polling, WorkerAction::Poll),
        PollOutcome::QueueEmpty => (WorkerState::Polling, WorkerAction::Poll),
        PollOutcome::Received => (WorkerState::Sending, WorkerAction::Work),
    }
}

/// A worker's next state and action after a send on the collection queue.
pub open spec fn send_transition(outcome: SendOutcome) -> (WorkerState, WorkerAction) {
    match outcome {
        SendOutcome::Sent => (WorkerState::Polling, WorkerAction::Poll),
        SendOutcome::QueueFull => (WorkerState::Sending, WorkerAction::RetrySend),
        SendOutcome::QueueClosed => (
            WorkerState::Failed(WorkerFault::CollectionClosed),
            WorkerAction::Fail(WorkerFault::CollectionClosed),
        ),
    }
}

/// The decisions of one worker thread: poll, work, send, and when to stop.
pub struct Worker {
    id: usize,
    state: WorkerState,
}

impl Worker {
    pub closed spec fn id_spec(&self) -> usize {
        self.id
    }

    pub closed spec fn state_spec(&self) -> WorkerState {
        self.state
    }

    /// A worker with the given identifier, waiting for its first envelope.
    pub fn new(id: usize) -> (r: Self)
        ensures
            r.id_spec() == id,
            r.state_spec() == WorkerState::Polling,
    {
        Worker { id, state: WorkerState::Polling }
    }

    pub fn get_id(&self) -> (r: usize)
        ensures
            r == self.id_spec(),
    {
        self.id
    }

    pub fn state(&self) -> (r: WorkerState)
        ensures
            r == self.state_spec(),
    {
        self.state
    }

    /// Takes in what a poll of the dispatch queue found.
    ///
    /// An expired handle or a closed queue ends the worker quietly; a poisoned
    /// lock ends it with a fatal error; contention or an empty queue means
    /// polling again; an envelope means work.
    pub fn on_poll(&mut self, outcome: PollOutcome) -> (r: WorkerAction)
        requires
            old(self).state_spec() == WorkerState::Polling,
        ensures
            (final(self).state_spec(), r) == poll_transition(outcome),
            final(self).id_spec() == old(self).id_spec(),
    {
        let (state, action) = match outcome {
            PollOutcome::HandleExpired => (WorkerState::Stopped, WorkerAction::Exit),
            PollOutcome::QueueClosed => (WorkerState::Stopped, WorkerAction::Exit),
            PollOutcome::LockPoisoned => (
                WorkerState::Failed(WorkerFault::LockPoisoned),
                WorkerAction::Fail(WorkerFault::LockPoisoned),
            ),
            PollOutcome::LockBusy => (WorkerState::Polling, WorkerAction::Poll),
            PollOutcome::QueueEmpty => (WorkerState::Polling, WorkerAction::Poll),
            PollOutcome::Received => (WorkerState::Sending, WorkerAction::Work),
        };
        self.state = state;
        action
    }

    /// Takes in what a send on the collection queue found.
    ///
    /// A sent envelope means polling again; a full queue means trying again;
    /// a closed queue ends the worker with a fatal error.
    pub fn on_send(&mut self, outcome: SendOutcome) -> (r: WorkerAction)
        requires
            old(self).state_spec() == WorkerState::Sending,
        ensures
            (final(self).state_spec(), r) == send_transition(outcome),
            final(self).id_spec() == old(self).id_spec(),
    {
        let (state, action) = match outcome {
            SendOutcome::Sent => (WorkerState::Polling, WorkerAction::Poll),
            SendOutcome::QueueFull => (WorkerState::Sending, WorkerAction::RetrySend),
            SendOutcome::QueueClosed => (
                WorkerState::Failed(WorkerFault::CollectionClosed),
                WorkerAction::Fail(WorkerFault::CollectionClosed),
            ),
        };
        self.state = state;
        action
    }
}

/// Identifiers for the workers to start so that `alive` running workers reach
/// `target`: the next ones after `last_id`, in increasing order, none reused.
pub fn new_worker_ids(alive: usize, target: usize, last_id: usize) -> (r: Vec<usize>)
    requires
        last_id + target <= usize::MAX,
    ensures
        alive >= target ==> r@.len() == 0,
        alive < target ==> r@.len() == target - alive,
        forall|i: int| 0 <= i < r@.len() ==> r@[i] == last_id + 1 + i,
{
    let mut ids: Vec<usize> = Vec::new();
    let mut count: usize = alive;
    let mut next: usize = last_id;
    while count < target
        invariant
            last_id + target <= usize::MAX,
            alive <= target ==> alive <= count <= target,
            alive > target ==> count == alive,
            next == last_id + ids@.len(),
            ids@.len() == count - alive,
            forall|i: int| 0 <= i < ids@.len() ==> ids@[i] == last_id + 1 + i,
        decreases target - count,
    {
        next = next + 1;
        ids.push(next);
        count = count + 1;
    }
    ids
}

} // verus!
