//! The job queue: one ordered line of pending jobs that can be closed once.

use crate::error::PoolError;
use std::collections::VecDeque;
use vstd::prelude::*;

verus! {

/// What a claim on the queue comes back with.
#[derive(Debug, PartialEq, Eq)]
pub enum Claim<J> {
    /// The oldest pending job, now owned by the claimer.
    Job(J),
    /// Nothing is pending, but the queue is open: more may come.
    Wait,
    /// The queue is closed and drained: nothing will ever come.
    Closed,
}

/// A queue as contracts see it.
pub struct QueueView<J> {
    /// The jobs that wait, oldest first.
    pub pending: Seq<J>,
    /// Whether the queue still accepts jobs.
    pub open: bool,
}

impl<J> QueueView<J> {
    /// An open queue with nothing in it.
    pub open spec fn empty() -> Self {
        QueueView { pending: Seq::empty(), open: true }
    }

    /// The queue after a submission of `job`: an open queue holds it last, a
    /// closed one is as before.
    pub open spec fn submit(self, job: J) -> Self {
        if self.open {
            QueueView { pending: self.pending.push(job), open: true }
        } else {
            self
        }
    }

    /// What a claim returns.
    pub open spec fn claimed(self) -> Claim<J> {
        if self.pending.len() > 0 {
            Claim::Job(self.pending[0])
        } else if self.open {
            Claim::Wait
        } else {
            Claim::Closed
        }
    }

    /// The queue after a claim: without its oldest job, if it had one.
    pub open spec fn claim(self) -> Self {
        if self.pending.len() > 0 {
            QueueView { pending: self.pending.drop_first(), open: self.open }
        } else {
            self
        }
    }

    /// The queue after it was closed: the backlog stays.
    pub open spec fn close(self) -> Self {
        QueueView { pending: self.pending, open: false }
    }
}

/// A first-in, first-out queue of jobs with a one-way switch from open to
/// closed.  A closed queue takes no more jobs, but hands out what it holds.
pub struct JobQueue<J> {
    jobs: VecDeque<J>,
    open: bool,
}

impl<J> View for JobQueue<J> {
    type V = QueueView<J>;

    closed spec fn view(&self) -> QueueView<J> {
        QueueView { pending: self.jobs@, open: self.open }
    }
}

impl<J> JobQueue<J> {
    /// An open queue with nothing in it.
    pub fn new() -> (queue: Self)
        ensures
            queue@ == QueueView::<J>::empty(),
    {
        JobQueue { jobs: VecDeque::new(), open: true }
    }

    /// Puts `job` at the end of the line.  A closed queue refuses it, reports
    /// `PoolError::Closed`, and stays as it is.
    pub fn submit(&mut self, job: J) -> (result: Result<(), PoolError>)
        ensures
            final(self)@ == old(self)@.submit(job),
            result == if old(self)@.open {
                Ok::<(), PoolError>(())
            } else {
                Err::<(), PoolError>(PoolError::Closed)
            },
    {
        if self.open {
            self.jobs.push_back(job);
            Ok(())
        } else {
            Err(PoolError::Closed)
        }
    }

    /// Takes the oldest pending job.  Where nothing is pending, the answer
    /// tells an open queue (`Wait`) from a closed one (`Closed`).
    pub fn claim(&mut self) -> (claim: Claim<J>)
        ensures
            claim == old(self)@.claimed(),
            final(self)@ == old(self)@.claim(),
    {
        match self.jobs.pop_front() {
            Some(job) => Claim::Job(job),
            None => if self.open {
                Claim::Wait
            } else {
                Claim::Closed
            },
        }
    }

    /// Closes the queue for good.  Jobs already in line stay claimable.
    pub fn close(&mut self)
        ensures
            final(self)@ == old(self)@.close(),
    {
        self.open = false;
    }

    /// Whether the queue still accepts jobs.
    pub fn is_open(&self) -> (open: bool)
        ensures
            open == self@.open,
    {
        self.open
    }

    /// The number of jobs in line.
    pub fn len(&self) -> (len: usize)
        ensures
            len == self@.pending.len(),
    {
        self.jobs.len()
    }

    /// Whether no job is in line.
    pub fn is_empty(&self) -> (empty: bool)
        ensures
            empty == (self@.pending.len() == 0),
    {
        self.jobs.len() == 0
    }
}

} // verus!
