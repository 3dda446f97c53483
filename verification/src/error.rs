//! What the pool reports when it turns a request away.

use vstd::prelude::*;

verus! {

/// Why a request to the pool failed.
#[derive(Clone, Copy, Debug, PartialEq, Eq, Structural)]
pub enum PoolError {
    /// A pool needs at least one worker.
    ZeroWorkers,
    /// The job came after shutdown had begun; it was not queued.
    Closed,
    /// No worker of the pool has the given id.
    UnknownWorker,
    /// Only an idle worker can claim a job.
    NotIdle,
    /// Only a worker that is running a job can finish one.
    NotExecuting,
}

} // verus!
