//! The life of a single worker.

use vstd::prelude::*;

verus! {

/// Where a worker stands in its loop.
#[derive(Clone, Copy, Debug, PartialEq, Eq, Structural)]
pub enum WorkerState {
    /// Waiting to claim a job.  Every worker starts here.
    Idle,
    /// Running the one job it has claimed.
    Executing,
    /// Its loop has ended; it claims nothing any more.
    Terminated,
}

/// How a job's run ended.
#[derive(Clone, Copy, Debug, PartialEq, Eq, Structural)]
pub enum JobOutcome {
    /// The job ran to its end.
    Returned,
    /// The job unwound before its end.
    Unwound,
}

/// What can happen to a worker.
#[derive(Clone, Copy, Debug, PartialEq, Eq, Structural)]
pub enum WorkerEvent {
    /// A claim handed the worker a job.
    Claimed,
    /// A claim found the queue closed and drained.
    QueueClosed,
    /// The job in flight ended.
    Finished(JobOutcome),
}

impl WorkerState {
    /// The transition table.  `None` marks an event that cannot occur in the
    /// given state.  A job that unwinds costs the pool nothing: the worker
    /// goes back to `Idle` exactly as after a job that returned.
    pub open spec fn step_spec(self, event: WorkerEvent) -> Option<WorkerState> {
        match (self, event) {
            (WorkerState::Idle, WorkerEvent::Claimed) => Some(WorkerState::Executing),
            (WorkerState::Idle, WorkerEvent::QueueClosed) => Some(WorkerState::Terminated),
            (WorkerState::Executing, WorkerEvent::Finished(_)) => Some(WorkerState::Idle),
            _ => None,
        }
    }

    /// The state that follows `self` on `event`, or `None` where the event
    /// does not belong to the state.
    pub fn step(self, event: WorkerEvent) -> (next: Option<WorkerState>)
        ensures
            next == self.step_spec(event),
    {
        match self {
            WorkerState::Idle => match event {
                WorkerEvent::Claimed => Some(WorkerState::Executing),
                WorkerEvent::QueueClosed => Some(WorkerState::Terminated),
                WorkerEvent::Finished(_) => None,
            },
            WorkerState::Executing => match event {
                WorkerEvent::Finished(_) => Some(WorkerState::Idle),
                _ => None,
            },
            WorkerState::Terminated => None,
        }
    }
}

/// One worker of a pool: its id and where it stands.
#[derive(Clone, Copy, Debug, PartialEq, Eq, Structural)]
pub struct Worker {
    id: usize,
    state: WorkerState,
}

impl Worker {
    /// The id the worker was made with.
    pub closed spec fn spec_id(&self) -> usize {
        self.id
    }

    /// The state the worker is in.
    pub closed spec fn spec_state(&self) -> WorkerState {
        self.state
    }

    /// A worker that has not claimed anything yet.
    pub fn new(id: usize) -> (worker: Worker)
        ensures
            worker.spec_id() == id,
            worker.spec_state() == WorkerState::Idle,
    {
        Worker { id, state: WorkerState::Idle }
    }

    #[verifier::when_used_as_spec(spec_id)]
    pub fn id(&self) -> (id: usize)
        ensures
            id == self.spec_id(),
    {
        self.id
    }

    #[verifier::when_used_as_spec(spec_state)]
    pub fn state(&self) -> (state: WorkerState)
        ensures
            state == self.spec_state(),
    {
        self.state
    }

    /// Takes the worker through `event`.  An event that does not belong to
    /// the worker's state changes nothing and is answered with `false`.
    pub fn advance(&mut self, event: WorkerEvent) -> (moved: bool)
        ensures
            final(self).id() == old(self).id(),
            moved == old(self).state().step_spec(event).is_some(),
            final(self).state() == match old(self).state().step_spec(event) {
                Some(next) => next,
                None => old(self).state(),
            },
    {
        match self.state.step(event) {
            Some(next) => {
                self.state = next;
                true
            },
            None => false,
        }
    }
}

} // verus!
