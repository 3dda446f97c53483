//! A fixed-size worker pool, verified as a state machine.
//!
//! The crate holds every decision a thread pool makes: which job a worker
//! gets, when a submission is turned away, when a worker stops, and when a
//! shutdown is complete.  Threads, locks and blocking are left to the caller,
//! who keeps the pool behind a lock and reports to it what happened.

pub mod error;
pub mod laws;
pub mod model;
pub mod pool;
pub mod queue;
pub mod worker;

pub use error::PoolError;
pub use model::{Event, Phase, PoolView};
pub use pool::ThreadPool;
pub use queue::{Claim, JobQueue, QueueView};
pub use worker::{JobOutcome, Worker, WorkerEvent, WorkerState};
