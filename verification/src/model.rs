//! The pool as contracts see it: its state, with the history of every job,
//! the four moves that change it, and what holds of every state that the
//! moves can reach.
//!
//! A job is known by its ticket, its place in the order of acceptance.  The
//! oldest accepted job has ticket 0.

use crate::error::PoolError;
use crate::queue::Claim;
use crate::worker::{JobOutcome, WorkerState};
use vstd::prelude::*;

verus! {

/// A worker's state, together with the ticket of the job it runs.
pub enum Phase {
    /// Waiting to claim a job.
    Idle,
    /// Running the job with this ticket.
    Executing { ticket: int },
    /// Stopped for good.
    Terminated,
}

impl Phase {
    /// The state alone, without the ticket.
    pub open spec fn state(self) -> WorkerState {
        match self {
            Phase::Idle => WorkerState::Idle,
            Phase::Executing { .. } => WorkerState::Executing,
            Phase::Terminated => WorkerState::Terminated,
        }
    }
}

/// A move of the pool.
pub enum Event<J> {
    /// A caller submits a job.
    Execute(J),
    /// The worker with this id asks for a job.
    Claim(int),
    /// The worker with this id reports how its job ended.
    Finish(int, JobOutcome),
    /// The owner begins shutdown.
    Shutdown,
}

/// The jobs that a series of moves submits, first to last.
pub open spec fn offered<J>(events: Seq<Event<J>>) -> Seq<J>
    decreases events.len(),
{
    if events.len() == 0 {
        Seq::empty()
    } else {
        match events.last() {
            Event::Execute(job) => offered(events.drop_last()).push(job),
            _ => offered(events.drop_last()),
        }
    }
}

/// The state of a pool, past included.
pub struct PoolView<J> {
    /// Every job accepted so far, in the order of acceptance.
    pub accepted: Seq<J>,
    /// For every job handed out so far, by ticket, the id of the worker that
    /// claimed it.  Jobs leave in the order they came, so the tickets handed
    /// out are exactly those below `dispatch.len()`.
    pub dispatch: Seq<int>,
    /// The tickets of the jobs whose run has ended, each with its outcome.
    pub finished: Map<int, JobOutcome>,
    /// Whether jobs are still accepted.
    pub open: bool,
    /// The workers, by id.
    pub workers: Seq<Phase>,
}

impl<J> PoolView<J> {
    /// A new pool of `size` workers: all idle, nothing accepted.
    pub open spec fn fresh(size: int) -> Self {
        PoolView {
            accepted: Seq::empty(),
            dispatch: Seq::empty(),
            finished: Map::empty(),
            open: true,
            workers: Seq::new(size as nat, |w: int| Phase::Idle),
        }
    }

    /// The jobs that wait to be claimed, oldest first.
    pub open spec fn pending(self) -> Seq<J> {
        self.accepted.subrange(self.dispatch.len() as int, self.accepted.len() as int)
    }

    /// Whether `w` is the id of one of the workers.
    pub open spec fn has_worker(self, w: int) -> bool {
        0 <= w < self.workers.len()
    }

    /// Whether the job with ticket `t` still waits in the queue.
    pub open spec fn queued(self, t: int) -> bool {
        self.dispatch.len() <= t < self.accepted.len()
    }

    /// Whether the job with ticket `t` was handed out and has not ended.
    pub open spec fn in_flight(self, t: int) -> bool {
        0 <= t < self.dispatch.len() && !self.finished.contains_key(t)
    }

    /// Whether the run of the job with ticket `t` has ended.
    pub open spec fn done(self, t: int) -> bool {
        self.finished.contains_key(t)
    }

    /// Whether worker `w` is running the job with ticket `t`.
    pub open spec fn runs(self, w: int, t: int) -> bool {
        self.has_worker(w) && self.workers[w] == (Phase::Executing { ticket: t })
    }

    /// Whether every worker has stopped: the shutdown is complete.
    pub open spec fn shut_down(self) -> bool {
        forall|w: int| self.has_worker(w) ==> #[trigger] self.workers[w] is Terminated
    }

    /// What holds of every pool.
    ///
    /// There is at least one worker.  No more jobs were handed out than were
    /// accepted, each to a worker of the pool.  Only jobs that were handed out
    /// have ended.  A worker runs only a job that was handed to it and has
    /// not ended, and a job that was handed out and has not ended is being
    /// run by the worker that claimed it.  A worker has stopped only after
    /// the pool was closed and its queue drained.
    pub open spec fn wf(self) -> bool {
        &&& self.workers.len() > 0
        &&& self.dispatch.len() <= self.accepted.len()
        &&& forall|t: int|
            0 <= t < self.dispatch.len() ==> self.has_worker(#[trigger] self.dispatch[t])
        &&& forall|t: int| #[trigger] self.done(t) ==> 0 <= t < self.dispatch.len()
        &&& forall|w: int, t: int| #[trigger]
            self.runs(w, t) ==> self.in_flight(t) && self.dispatch[t] == w
        &&& forall|t: int| #[trigger] self.in_flight(t) ==> self.runs(self.dispatch[t], t)
        &&& forall|w: int|
            self.has_worker(w) && #[trigger] self.workers[w] is Terminated ==> !self.open
                && self.dispatch.len() == self.accepted.len()
    }

    /// The pool after a caller submitted `job`: an open pool has accepted it
    /// as its newest job, a closed pool is as before.
    pub open spec fn submit(self, job: J) -> Self {
        if self.open {
            PoolView { accepted: self.accepted.push(job), ..self }
        } else {
            self
        }
    }

    /// What a submission is answered with.
    pub open spec fn submit_result(self) -> Result<(), PoolError> {
        if self.open {
            Ok(())
        } else {
            Err(PoolError::Closed)
        }
    }

    /// The pool after worker `w` asked for a job.  An idle worker gets the
    /// oldest pending job and runs it; with nothing pending it stops if the
    /// pool is closed, and stays idle if not.  Any other request changes
    /// nothing.
    pub open spec fn claim(self, w: int) -> Self {
        if self.has_worker(w) && self.workers[w] is Idle {
            if self.pending().len() > 0 {
                PoolView {
                    dispatch: self.dispatch.push(w),
                    workers: self.workers.update(
                        w,
                        Phase::Executing { ticket: self.dispatch.len() as int },
                    ),
                    ..self
                }
            } else if self.open {
                self
            } else {
                PoolView { workers: self.workers.update(w, Phase::Terminated), ..self }
            }
        } else {
            self
        }
    }

    /// What worker `w` is answered when it asks for a job.
    pub open spec fn claim_result(self, w: int) -> Result<Claim<J>, PoolError> {
        if !self.has_worker(w) {
            Err(PoolError::UnknownWorker)
        } else if !(self.workers[w] is Idle) {
            Err(PoolError::NotIdle)
        } else if self.pending().len() > 0 {
            Ok(Claim::Job(self.pending()[0]))
        } else if self.open {
            Ok(Claim::Wait)
        } else {
            Ok(Claim::Closed)
        }
    }

    /// The pool after worker `w` reported the end of its job: the job is
    /// recorded with its outcome and the worker is idle again, whatever the
    /// outcome.  A report from a worker that runs no job changes nothing.
    pub open spec fn finish(self, w: int, outcome: JobOutcome) -> Self {
        if self.has_worker(w) && self.workers[w] is Executing {
            PoolView {
                finished: self.finished.insert(self.workers[w]->ticket, outcome),
                workers: self.workers.update(w, Phase::Idle),
                ..self
            }
        } else {
            self
        }
    }

    /// What worker `w` is answered when it reports the end of a job.
    pub open spec fn finish_result(self, w: int) -> Result<(), PoolError> {
        if !self.has_worker(w) {
            Err(PoolError::UnknownWorker)
        } else if !(self.workers[w] is Executing) {
            Err(PoolError::NotExecuting)
        } else {
            Ok(())
        }
    }

    /// The pool after shutdown began: closed, and otherwise as before.
    pub open spec fn close(self) -> Self {
        PoolView { open: false, ..self }
    }

    /// The pool after one move.
    pub open spec fn next(self, event: Event<J>) -> Self {
        match event {
            Event::Execute(job) => self.submit(job),
            Event::Claim(w) => self.claim(w),
            Event::Finish(w, outcome) => self.finish(w, outcome),
            Event::Shutdown => self.close(),
        }
    }

    /// The pool after a series of moves, first to last.
    pub open spec fn run(self, events: Seq<Event<J>>) -> Self
        decreases events.len(),
    {
        if events.len() == 0 {
            self
        } else {
            self.run(events.drop_last()).next(events.last())
        }
    }
}

} // verus!
