use std::cell::{Cell, RefCell};
use std::rc::Rc;

use thread_pool::{Claim, JobOutcome, PoolError, ThreadPool, WorkerState};

type Job = Box<dyn FnOnce()>;

fn state(pool: &ThreadPool<Job>, id: usize) -> WorkerState {
    pool.worker(id).expect("a worker of the pool").state()
}

fn counting_job(counter: &Rc<Cell<usize>>) -> Job {
    let counter = Rc::clone(counter);
    Box::new(move || counter.set(counter.get() + 1))
}

fn logging_job(log: &Rc<RefCell<Vec<usize>>>, name: usize) -> Job {
    let log = Rc::clone(log);
    Box::new(move || log.borrow_mut().push(name))
}

/// Lets worker `id` claim once and, if it is handed a job, run and finish it.
/// Says whether a job was run.
fn work_once(pool: &mut ThreadPool<Job>, id: usize) -> bool {
    match pool.claim(id) {
        Ok(Claim::Job(job)) => {
            job();
            assert_eq!(pool.finish(id, JobOutcome::Returned), Ok(()));
            true
        }
        Ok(_) => false,
        Err(error) => panic!("worker {id} could not claim: {error:?}"),
    }
}

/// Lets the workers take turns until a whole round runs nothing.
fn work_until_quiet(pool: &mut ThreadPool<Job>) -> usize {
    let mut ran = 0;
    loop {
        let mut progress = false;
        for id in 0..pool.size() {
            if state(pool, id) == WorkerState::Idle && work_once(pool, id) {
                ran += 1;
                progress = true;
            }
        }
        if !progress {
            return ran;
        }
    }
}

#[test]
fn new_pool_has_exactly_the_workers_asked_for_all_idle() {
    for size in [1usize, 2, 4, 17] {
        let pool: ThreadPool<Job> = ThreadPool::new(size).expect("a pool");
        assert_eq!(pool.size(), size);
        for id in 0..size {
            let worker = pool.worker(id).expect("a worker");
            assert_eq!(worker.id(), id);
            assert_eq!(worker.state(), WorkerState::Idle);
        }
        assert!(pool.worker(size).is_none());
        assert_eq!(pool.queued(), 0);
        assert!(pool.is_open());
        assert!(!pool.is_shut_down());
    }
}

#[test]
fn pool_of_no_workers_is_refused() {
    let result: Result<ThreadPool<Job>, PoolError> = ThreadPool::new(0);
    assert!(matches!(result, Err(PoolError::ZeroWorkers)));
    let again: Result<ThreadPool<u8>, PoolError> = ThreadPool::new(0);
    assert!(matches!(again, Err(PoolError::ZeroWorkers)));
}

#[test]
fn ten_jobs_on_four_workers_count_to_ten() {
    let counter = Rc::new(Cell::new(0));
    let mut pool: ThreadPool<Job> = ThreadPool::new(4).expect("a pool");
    for _ in 0..10 {
        assert_eq!(pool.execute(counting_job(&counter)), Ok(()));
    }
    assert_eq!(pool.queued(), 10);
    assert_eq!(work_until_quiet(&mut pool), 10);
    pool.shutdown();
    for id in 0..4 {
        assert!(matches!(pool.claim(id), Ok(Claim::Closed)));
    }
    assert!(pool.is_shut_down());
    assert_eq!(counter.get(), 10);
}

#[test]
fn second_worker_runs_a_job_while_the_first_is_busy() {
    let a_ran = Rc::new(Cell::new(0));
    let counter = Rc::new(Cell::new(0));
    let mut pool: ThreadPool<Job> = ThreadPool::new(2).expect("a pool");
    assert_eq!(pool.execute(counting_job(&a_ran)), Ok(()));
    assert_eq!(pool.execute(counting_job(&counter)), Ok(()));

    let job_a = match pool.claim(0) {
        Ok(Claim::Job(job)) => job,
        _ => panic!("worker 0 should be handed job A"),
    };
    assert_eq!(state(&pool, 0), WorkerState::Executing);

    let job_b = match pool.claim(1) {
        Ok(Claim::Job(job)) => job,
        _ => panic!("worker 1 should be handed job B"),
    };
    job_b();
    assert_eq!(pool.finish(1, JobOutcome::Returned), Ok(()));

    assert_eq!(counter.get(), 1);
    assert_eq!(a_ran.get(), 0);
    assert_eq!(state(&pool, 0), WorkerState::Executing);
    assert_eq!(state(&pool, 1), WorkerState::Idle);

    job_a();
    assert_eq!(pool.finish(0, JobOutcome::Returned), Ok(()));
    assert_eq!(a_ran.get(), 1);
    assert_eq!(counter.get(), 1);
}

#[test]
fn busy_worker_keeps_no_later_job_from_the_others() {
    let log = Rc::new(RefCell::new(Vec::new()));
    let mut pool: ThreadPool<Job> = ThreadPool::new(3).expect("a pool");
    assert_eq!(pool.execute(logging_job(&log, 0)), Ok(()));
    let long_job = match pool.claim(0) {
        Ok(Claim::Job(job)) => job,
        _ => panic!("worker 0 should be handed the long job"),
    };
    for name in 1..=6 {
        assert_eq!(pool.execute(logging_job(&log, name)), Ok(()));
    }
    assert_eq!(work_until_quiet(&mut pool), 6);
    assert_eq!(*log.borrow(), vec![1, 2, 3, 4, 5, 6]);
    assert_eq!(state(&pool, 0), WorkerState::Executing);
    long_job();
    assert_eq!(pool.finish(0, JobOutcome::Returned), Ok(()));
    assert_eq!(*log.borrow(), vec![1, 2, 3, 4, 5, 6, 0]);
}

#[test]
fn every_job_runs_once_whatever_the_pool_size() {
    for (size, jobs) in [(1usize, 0usize), (1, 1), (1, 9), (3, 2), (3, 3), (3, 4), (4, 25), (8, 5)] {
        let log = Rc::new(RefCell::new(Vec::new()));
        let mut pool: ThreadPool<Job> = ThreadPool::new(size).expect("a pool");
        for name in 0..jobs {
            assert_eq!(pool.execute(logging_job(&log, name)), Ok(()));
        }
        assert_eq!(work_until_quiet(&mut pool), jobs);
        assert_eq!(pool.queued(), 0);
        let expected: Vec<usize> = (0..jobs).collect();
        assert_eq!(*log.borrow(), expected);
        for id in 0..size {
            assert_eq!(state(&pool, id), WorkerState::Idle);
            assert!(matches!(pool.claim(id), Ok(Claim::Wait)));
        }
        assert_eq!(*log.borrow(), expected);
    }
}

#[test]
fn jobs_are_handed_out_in_the_order_submitted() {
    let mut pool: ThreadPool<u32> = ThreadPool::new(3).expect("a pool");
    for job in [5u32, 3, 8] {
        assert_eq!(pool.execute(job), Ok(()));
    }
    assert_eq!(pool.claim(2), Ok(Claim::Job(5)));
    assert_eq!(pool.claim(0), Ok(Claim::Job(3)));
    assert_eq!(pool.execute(1), Ok(()));
    assert_eq!(pool.claim(1), Ok(Claim::Job(8)));
    assert_eq!(pool.finish(0, JobOutcome::Returned), Ok(()));
    assert_eq!(pool.claim(0), Ok(Claim::Job(1)));
    assert_eq!(pool.queued(), 0);
}

#[test]
fn shutdown_leaves_no_accepted_job_behind() {
    let log = Rc::new(RefCell::new(Vec::new()));
    let mut pool: ThreadPool<Job> = ThreadPool::new(2).expect("a pool");
    for name in 0..7 {
        assert_eq!(pool.execute(logging_job(&log, name)), Ok(()));
    }
    let in_flight = match pool.claim(1) {
        Ok(Claim::Job(job)) => job,
        _ => panic!("worker 1 should be handed the first job"),
    };
    pool.shutdown();
    assert!(!pool.is_open());
    assert_eq!(pool.queued(), 6);
    assert!(!pool.is_shut_down());

    assert_eq!(work_until_quiet(&mut pool), 6);
    assert_eq!(pool.queued(), 0);
    assert_eq!(state(&pool, 0), WorkerState::Terminated);
    assert_eq!(state(&pool, 1), WorkerState::Executing);
    assert!(!pool.is_shut_down());

    in_flight();
    assert_eq!(pool.finish(1, JobOutcome::Returned), Ok(()));
    assert!(!pool.is_shut_down());
    assert!(matches!(pool.claim(1), Ok(Claim::Closed)));
    assert!(pool.is_shut_down());

    let mut ran = log.borrow().clone();
    ran.sort_unstable();
    assert_eq!(ran, vec![0, 1, 2, 3, 4, 5, 6]);
}

#[test]
fn job_submitted_after_shutdown_is_refused() {
    let counter = Rc::new(Cell::new(0));
    let mut pool: ThreadPool<Job> = ThreadPool::new(2).expect("a pool");
    assert_eq!(pool.execute(counting_job(&counter)), Ok(()));
    pool.shutdown();
    assert_eq!(pool.execute(counting_job(&counter)), Err(PoolError::Closed));
    assert_eq!(pool.queued(), 1);
    assert_eq!(work_until_quiet(&mut pool), 1);
    assert_eq!(pool.execute(counting_job(&counter)), Err(PoolError::Closed));
    assert_eq!(pool.queued(), 0);
    assert_eq!(counter.get(), 1);
}

#[test]
fn unwound_job_costs_the_pool_no_worker() {
    let counter = Rc::new(Cell::new(0));
    let mut pool: ThreadPool<Job> = ThreadPool::new(1).expect("a pool");
    assert_eq!(pool.execute(counting_job(&counter)), Ok(()));
    let failing = match pool.claim(0) {
        Ok(Claim::Job(job)) => job,
        _ => panic!("worker 0 should be handed the failing job"),
    };
    drop(failing);
    assert_eq!(pool.finish(0, JobOutcome::Unwound), Ok(()));
    assert_eq!(state(&pool, 0), WorkerState::Idle);
    assert_eq!(pool.size(), 1);
    assert!(pool.is_open());

    assert_eq!(pool.execute(counting_job(&counter)), Ok(()));
    assert_eq!(pool.execute(counting_job(&counter)), Ok(()));
    assert_eq!(work_until_quiet(&mut pool), 2);
    assert_eq!(counter.get(), 2);

    pool.shutdown();
    assert!(matches!(pool.claim(0), Ok(Claim::Closed)));
    assert!(pool.is_shut_down());
}

#[test]
fn idle_worker_waits_while_the_pool_is_open() {
    let mut pool: ThreadPool<u32> = ThreadPool::new(2).expect("a pool");
    assert_eq!(pool.claim(0), Ok(Claim::Wait));
    assert_eq!(pool.claim(1), Ok(Claim::Wait));
    assert_eq!(pool.worker(0).map(|w| w.state()), Some(WorkerState::Idle));
    assert_eq!(pool.worker(1).map(|w| w.state()), Some(WorkerState::Idle));
    assert_eq!(pool.execute(4), Ok(()));
    assert_eq!(pool.claim(1), Ok(Claim::Job(4)));
    assert_eq!(pool.claim(0), Ok(Claim::Wait));
}

#[test]
fn claim_is_refused_to_strangers_and_to_workers_not_idle() {
    let mut pool: ThreadPool<u32> = ThreadPool::new(2).expect("a pool");
    assert_eq!(pool.execute(1), Ok(()));
    assert_eq!(pool.execute(2), Ok(()));
    assert_eq!(pool.claim(2), Err(PoolError::UnknownWorker));
    assert_eq!(pool.claim(usize::MAX), Err(PoolError::UnknownWorker));
    assert_eq!(pool.queued(), 2);

    assert_eq!(pool.claim(0), Ok(Claim::Job(1)));
    assert_eq!(pool.claim(0), Err(PoolError::NotIdle));
    assert_eq!(pool.queued(), 1);
    assert_eq!(pool.worker(0).map(|w| w.state()), Some(WorkerState::Executing));

    pool.shutdown();
    assert_eq!(pool.claim(1), Ok(Claim::Job(2)));
    assert_eq!(pool.finish(1, JobOutcome::Returned), Ok(()));
    assert_eq!(pool.claim(1), Ok(Claim::Closed));
    assert_eq!(pool.claim(1), Err(PoolError::NotIdle));
    assert_eq!(pool.worker(1).map(|w| w.state()), Some(WorkerState::Terminated));
}

#[test]
fn finish_is_refused_to_strangers_and_to_workers_without_a_job() {
    let mut pool: ThreadPool<u32> = ThreadPool::new(2).expect("a pool");
    assert_eq!(pool.finish(2, JobOutcome::Returned), Err(PoolError::UnknownWorker));
    assert_eq!(pool.finish(0, JobOutcome::Returned), Err(PoolError::NotExecuting));
    assert_eq!(pool.finish(0, JobOutcome::Unwound), Err(PoolError::NotExecuting));
    assert_eq!(pool.execute(1), Ok(()));
    assert_eq!(pool.claim(0), Ok(Claim::Job(1)));
    assert_eq!(pool.finish(1, JobOutcome::Returned), Err(PoolError::NotExecuting));
    assert_eq!(pool.worker(0).map(|w| w.state()), Some(WorkerState::Executing));
    assert_eq!(pool.finish(0, JobOutcome::Returned), Ok(()));
    assert_eq!(pool.finish(0, JobOutcome::Returned), Err(PoolError::NotExecuting));
    pool.shutdown();
    assert_eq!(pool.claim(0), Ok(Claim::Closed));
    assert_eq!(pool.finish(0, JobOutcome::Returned), Err(PoolError::NotExecuting));
    assert_eq!(pool.worker(0).map(|w| w.state()), Some(WorkerState::Terminated));
}

#[test]
fn shutdown_twice_is_shutdown_once() {
    let mut pool: ThreadPool<u32> = ThreadPool::new(1).expect("a pool");
    assert_eq!(pool.execute(7), Ok(()));
    pool.shutdown();
    pool.shutdown();
    assert!(!pool.is_open());
    assert_eq!(pool.queued(), 1);
    assert_eq!(pool.claim(0), Ok(Claim::Job(7)));
    assert_eq!(pool.finish(0, JobOutcome::Returned), Ok(()));
    assert_eq!(pool.claim(0), Ok(Claim::Closed));
    assert!(pool.is_shut_down());
    pool.shutdown();
    assert!(pool.is_shut_down());
}

#[test]
fn shutdown_is_complete_only_when_every_worker_has_stopped() {
    let mut pool: ThreadPool<u32> = ThreadPool::new(3).expect("a pool");
    pool.shutdown();
    assert!(!pool.is_shut_down());
    assert_eq!(pool.claim(1), Ok(Claim::Closed));
    assert!(!pool.is_shut_down());
    assert_eq!(pool.claim(0), Ok(Claim::Closed));
    assert!(!pool.is_shut_down());
    assert_eq!(pool.claim(2), Ok(Claim::Closed));
    assert!(pool.is_shut_down());
}
