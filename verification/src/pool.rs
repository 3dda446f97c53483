//! The pool: a fixed set of workers around one job queue.

use crate::error::PoolError;
use crate::laws::lemma_next_wf;
use crate::model::{Event, PoolView};
use crate::queue::{Claim, JobQueue};
use crate::worker::{JobOutcome, Worker, WorkerEvent, WorkerState};
use vstd::prelude::*;

verus! {

/// A pool of a fixed, positive number of workers that share one queue of
/// jobs of type `J`.
///
/// The pool does not run anything itself.  Its owner submits jobs with
/// [`execute`](ThreadPool::execute) and begins shutdown with
/// [`shutdown`](ThreadPool::shutdown); each worker's thread asks for work
/// with [`claim`](ThreadPool::claim), runs what it is handed, and reports
/// back with [`finish`](ThreadPool::finish).
pub struct ThreadPool<J> {
    workers: Vec<Worker>,
    queue: JobQueue<J>,
    model: Ghost<PoolView<J>>,
}

impl<J> View for ThreadPool<J> {
    type V = PoolView<J>;

    closed spec fn view(&self) -> PoolView<J> {
        self.model@
    }
}

impl<J> ThreadPool<J> {
    /// Whether the workers and the queue are as the view says.
    pub closed spec fn agrees(&self) -> bool {
        &&& self.workers@.len() == self@.workers.len()
        &&& forall|w: int|
            0 <= w < self.workers@.len() ==> (#[trigger] self.workers@[w]).id() == w
                && self.workers@[w].state() == self@.workers[w].state()
        &&& self.queue@.pending == self@.pending()
        &&& self.queue@.open == self@.open
    }

    /// What holds of every pool made by [`new`](ThreadPool::new), after any
    /// series of calls.
    pub open spec fn wf(&self) -> bool {
        self@.wf() && self.agrees()
    }

    /// A pool of `size` idle workers with ids `0..size`, open, with nothing
    /// accepted.  A pool of no workers cannot exist: for `size == 0` nothing
    /// is made and `PoolError::ZeroWorkers` is reported.
    pub fn new(size: usize) -> (result: Result<Self, PoolError>)
        ensures
            match result {
                Ok(pool) => size > 0 && pool.wf() && pool@ == PoolView::<J>::fresh(size as int),
                Err(e) => size == 0 && e == PoolError::ZeroWorkers,
            },
    {
        if size == 0 {
            return Err(PoolError::ZeroWorkers);
        }
        let mut workers: Vec<Worker> = Vec::with_capacity(size);
        let mut id: usize = 0;
        while id < size
            invariant
                id <= size,
                workers@.len() == id,
                forall|w: int|
                    0 <= w < id ==> (#[trigger] workers@[w]).id() == w && workers@[w].state()
                        == WorkerState::Idle,
            decreases size - id,
        {
            workers.push(Worker::new(id));
            id = id + 1;
        }
        let pool = ThreadPool {
            workers,
            queue: JobQueue::new(),
            model: Ghost(PoolView::fresh(size as int)),
        };
        proof {
            assert(pool.queue@.pending =~= pool@.pending());
        }
        Ok(pool)
    }

    /// Submits `job`.  An open pool puts it last in the queue, where it waits
    /// for a worker's claim.  After shutdown has begun the job is not taken:
    /// the pool stays as it is and reports `PoolError::Closed`.
    pub fn execute(&mut self, job: J) -> (result: Result<(), PoolError>)
        requires
            old(self).wf(),
        ensures
            final(self).wf(),
            final(self)@ == old(self)@.submit(job),
            result == old(self)@.submit_result(),
    {
        let result = self.queue.submit(job);
        proof {
            lemma_next_wf(self@, Event::Execute(job));
            self.model = Ghost(self@.submit(job));
            assert(self.queue@.pending =~= self@.pending());
        }
        result
    }

    /// Worker `id` asks for a job.
    ///
    /// An idle worker is handed the oldest pending job and is `Executing`
    /// from then on.  With nothing pending it is told to `Wait` while the
    /// pool is open, and stays idle; once the pool is closed it is told
    /// `Closed` and is `Terminated`.  A request in the name of no worker, or
    /// of one that is not idle, changes nothing and is an error.
    pub fn claim(&mut self, id: usize) -> (result: Result<Claim<J>, PoolError>)
        requires
            old(self).wf(),
        ensures
            final(self).wf(),
            final(self)@ == old(self)@.claim(id as int),
            result == old(self)@.claim_result(id as int),
    {
        if id >= self.workers.len() {
            return Err(PoolError::UnknownWorker);
        }
        let mut worker = self.workers[id];
        if worker.state() != WorkerState::Idle {
            return Err(PoolError::NotIdle);
        }
        proof {
            lemma_next_wf(self@, Event::Claim(id as int));
        }
        let claim = self.queue.claim();
        match claim {
            Claim::Job(_) => {
                worker.advance(WorkerEvent::Claimed);
                self.workers.set(id, worker);
            },
            Claim::Wait => {},
            Claim::Closed => {
                worker.advance(WorkerEvent::QueueClosed);
                self.workers.set(id, worker);
            },
        }
        proof {
            self.model = Ghost(self@.claim(id as int));
            assert(self.queue@.pending =~= self@.pending());
        }
        Ok(claim)
    }

    /// Worker `id` reports that the job it was running has ended.
    ///
    /// The worker is idle again, whether the job returned or unwound: a
    /// failing job costs the pool no worker.  A report in the name of no
    /// worker, or of one that runs no job, changes nothing and is an error.
    pub fn finish(&mut self, id: usize, outcome: JobOutcome) -> (result: Result<(), PoolError>)
        requires
            old(self).wf(),
        ensures
            final(self).wf(),
            final(self)@ == old(self)@.finish(id as int, outcome),
            result == old(self)@.finish_result(id as int),
    {
        if id >= self.workers.len() {
            return Err(PoolError::UnknownWorker);
        }
        let mut worker = self.workers[id];
        if !worker.advance(WorkerEvent::Finished(outcome)) {
            return Err(PoolError::NotExecuting);
        }
        self.workers.set(id, worker);
        proof {
            lemma_next_wf(self@, Event::Finish(id as int, outcome));
            self.model = Ghost(self@.finish(id as int, outcome));
            assert(self.queue@.pending =~= self@.pending());
        }
        Ok(())
    }

    /// Begins shutdown: the pool is closed, once and for all.  Jobs already
    /// accepted stay in line and are still handed out; workers that find
    /// the queue drained from now on are told to stop.
    pub fn shutdown(&mut self)
        requires
            old(self).wf(),
        ensures
            final(self).wf(),
            final(self)@ == old(self)@.close(),
    {
        self.queue.close();
        proof {
            lemma_next_wf(self@, Event::Shutdown);
            self.model = Ghost(self@.close());
            assert(self.queue@.pending =~= self@.pending());
        }
    }

    /// Whether shutdown is complete: every worker has stopped.
    pub fn is_shut_down(&self) -> (stopped: bool)
        requires
            self.wf(),
        ensures
            stopped == self@.shut_down(),
    {
        let mut id: usize = 0;
        while id < self.workers.len()
            invariant
                self.wf(),
                id <= self.workers@.len(),
                forall|w: int| 0 <= w < id ==> #[trigger] self@.workers[w] is Terminated,
            decreases self.workers@.len() - id,
        {
            if self.workers[id].state() != WorkerState::Terminated {
                assert(!(self@.workers[id as int] is Terminated));
                return false;
            }
            id = id + 1;
        }
        true
    }

    /// The number of workers, fixed when the pool was made.
    pub fn size(&self) -> (size: usize)
        requires
            self.wf(),
        ensures
            size == self@.workers.len(),
            size > 0,
    {
        self.workers.len()
    }

    /// Worker `id` as it stands, or `None` where the pool has no such worker.
    pub fn worker(&self, id: usize) -> (worker: Option<Worker>)
        requires
            self.wf(),
        ensures
            worker.is_some() == self@.has_worker(id as int),
            match worker {
                Some(w) => w.id() == id && w.state() == self@.workers[id as int].state(),
                None => true,
            },
    {
        if id < self.workers.len() {
            Some(self.workers[id])
        } else {
            None
        }
    }

    /// The number of jobs that wait to be claimed.
    pub fn queued(&self) -> (queued: usize)
        requires
            self.wf(),
        ensures
            queued == self@.pending().len(),
    {
        self.queue.len()
    }

    /// Whether the pool still accepts jobs.
    pub fn is_open(&self) -> (open: bool)
        requires
            self.wf(),
        ensures
            open == self@.open,
    {
        self.queue.is_open()
    }
}

} // verus!
