//! What holds of every pool, proved over the model.

use crate::model::{offered, Event, PoolView};
use crate::queue::Claim;
use crate::worker::JobOutcome;
use vstd::prelude::*;

verus! {

/// A new pool with at least one worker is well formed, has exactly the
/// workers asked for, all of them idle, and has accepted nothing.
pub proof fn lemma_fresh_pool<J>(size: int)
    requires
        size > 0,
    ensures
        PoolView::<J>::fresh(size).wf(),
        PoolView::<J>::fresh(size).workers.len() == size,
        forall|w: int| 0 <= w < size ==> PoolView::<J>::fresh(size).workers[w] is Idle,
        PoolView::<J>::fresh(size).accepted.len() == 0,
        PoolView::<J>::fresh(size).pending().len() == 0,
        PoolView::<J>::fresh(size).open,
{
}

/// No move leads out of the well-formed pools.
pub proof fn lemma_next_wf<J>(s: PoolView<J>, event: Event<J>)
    requires
        s.wf(),
    ensures
        s.next(event).wf(),
{
    let n = s.next(event);
    match event {
        Event::Execute(job) => {
            assert forall|w: int, t: int| #[trigger] n.runs(w, t) implies n.in_flight(t)
                && n.dispatch[t] == w by {
                assert(s.runs(w, t));
            }
            assert forall|t: int| #[trigger] n.in_flight(t) implies n.runs(n.dispatch[t], t) by {
                assert(s.in_flight(t));
            }
            assert forall|t: int| #[trigger] n.done(t) implies 0 <= t < n.dispatch.len() by {
                assert(s.done(t));
            }
        },
        Event::Claim(w0) => {
            if s.has_worker(w0) && s.workers[w0] is Idle {
                if s.pending().len() > 0 {
                    let t0 = s.dispatch.len() as int;
                    assert(!s.done(t0));
                    assert forall|t: int| #[trigger] n.done(t) implies 0 <= t
                        < n.dispatch.len() by {
                        assert(s.done(t));
                    }
                    assert forall|w: int, t: int| #[trigger] n.runs(w, t) implies n.in_flight(t)
                        && n.dispatch[t] == w by {
                        if w != w0 {
                            assert(s.runs(w, t));
                        }
                    }
                    assert forall|t: int| #[trigger] n.in_flight(t) implies n.runs(
                        n.dispatch[t],
                        t,
                    ) by {
                        if t != t0 {
                            assert(s.in_flight(t));
                            assert(s.runs(s.dispatch[t], t));
                        }
                    }
                    assert forall|w: int| n.has_worker(w) && #[trigger] n.workers[w] is Terminated
                        implies false by {
                        assert(s.workers[w] is Terminated);
                    }
                } else if !s.open {
                    assert forall|w: int, t: int| #[trigger] n.runs(w, t) implies n.in_flight(t)
                        && n.dispatch[t] == w by {
                        assert(s.runs(w, t));
                    }
                    assert forall|t: int| #[trigger] n.in_flight(t) implies n.runs(
                        n.dispatch[t],
                        t,
                    ) by {
                        assert(s.in_flight(t));
                        assert(s.runs(s.dispatch[t], t));
                    }
                    assert forall|t: int| #[trigger] n.done(t) implies 0 <= t
                        < n.dispatch.len() by {
                        assert(s.done(t));
                    }
                }
            }
        },
        Event::Finish(w0, outcome) => {
            if s.has_worker(w0) && s.workers[w0] is Executing {
                let t0 = s.workers[w0]->ticket;
                assert(s.runs(w0, t0));
                assert forall|t: int| #[trigger] n.done(t) implies 0 <= t < n.dispatch.len() by {
                    if t != t0 {
                        assert(s.done(t));
                    }
                }
                assert forall|w: int, t: int| #[trigger] n.runs(w, t) implies n.in_flight(t)
                    && n.dispatch[t] == w by {
                    assert(s.runs(w, t));
                }
                assert forall|t: int| #[trigger] n.in_flight(t) implies n.runs(
                    n.dispatch[t],
                    t,
                ) by {
                    assert(s.in_flight(t));
                    assert(s.runs(s.dispatch[t], t));
                }
                assert forall|w: int| n.has_worker(w) && #[trigger] n.workers[w] is Terminated
                    implies !n.open && n.dispatch.len() == n.accepted.len() by {
                    assert(s.workers[w] is Terminated);
                }
            }
        },
        Event::Shutdown => {
            assert forall|w: int, t: int| #[trigger] n.runs(w, t) implies n.in_flight(t)
                && n.dispatch[t] == w by {
                assert(s.runs(w, t));
            }
            assert forall|t: int| #[trigger] n.in_flight(t) implies n.runs(n.dispatch[t], t) by {
                assert(s.in_flight(t));
            }
            assert forall|t: int| #[trigger] n.done(t) implies 0 <= t < n.dispatch.len() by {
                assert(s.done(t));
            }
        },
    }
}

/// Every pool that a series of moves reaches from a well-formed pool is well
/// formed, and has the workers it began with.
pub proof fn lemma_run_wf<J>(s: PoolView<J>, events: Seq<Event<J>>)
    requires
        s.wf(),
    ensures
        s.run(events).wf(),
        s.run(events).workers.len() == s.workers.len(),
    decreases events.len(),
{
    if events.len() > 0 {
        lemma_run_wf(s, events.drop_last());
        lemma_next_wf(s.run(events.drop_last()), events.last());
    }
}

/// The past is never rewritten.  A move keeps every job that was accepted,
/// the worker of every job that was handed out, and the outcome of every job
/// that has ended; it adds at most one job, hands out at most one, and ends
/// at most one.  A closed pool stays closed and accepts nothing more, and
/// the number of workers never changes.
pub proof fn lemma_history_grows<J>(s: PoolView<J>, event: Event<J>)
    requires
        s.wf(),
    ensures
        s.accepted.is_prefix_of(s.next(event).accepted),
        s.next(event).accepted.len() <= s.accepted.len() + 1,
        s.dispatch.is_prefix_of(s.next(event).dispatch),
        s.next(event).dispatch.len() <= s.dispatch.len() + 1,
        s.finished.submap_of(s.next(event).finished),
        forall|t: int| #[trigger]
            s.next(event).done(t) && !s.done(t) ==> s.in_flight(t) && event is Finish
                && s.runs(event->Finish_0, t),
        s.next(event).workers.len() == s.workers.len(),
        !s.open ==> !s.next(event).open && s.next(event).accepted == s.accepted,
{
    if let Event::Finish(w0, _) = event {
        if s.has_worker(w0) && s.workers[w0] is Executing {
            let t0 = s.workers[w0]->ticket;
            assert(s.runs(w0, t0));
            assert(!s.done(t0));
        }
    }
}

/// While a pool is open it turns no job away: if it is still open after a
/// series of moves, it has accepted every job those moves submitted, in the
/// order they came, after the jobs it had accepted before.
pub proof fn lemma_open_pool_accepts_all<J>(s: PoolView<J>, events: Seq<Event<J>>)
    requires
        s.wf(),
        s.run(events).open,
    ensures
        s.open,
        s.run(events).accepted == s.accepted + offered(events),
    decreases events.len(),
{
    if events.len() == 0 {
        assert(s.accepted + offered(events) =~= s.accepted);
    } else {
        let before = s.run(events.drop_last());
        lemma_run_wf(s, events.drop_last());
        lemma_history_grows(before, events.last());
        lemma_open_pool_accepts_all(s, events.drop_last());
        assert(s.run(events).accepted =~= s.accepted + offered(events));
    }
}

/// A closed pool stays closed and accepts nothing, whatever moves follow.
pub proof fn lemma_closed_pool_accepts_nothing<J>(s: PoolView<J>, events: Seq<Event<J>>)
    requires
        s.wf(),
        !s.open,
    ensures
        !s.run(events).open,
        s.run(events).accepted == s.accepted,
    decreases events.len(),
{
    if events.len() > 0 {
        lemma_run_wf(s, events.drop_last());
        lemma_closed_pool_accepts_nothing(s, events.drop_last());
        lemma_history_grows(s.run(events.drop_last()), events.last());
    }
}

/// The whole life of a pool.  Take a new pool, any moves `before` that leave
/// it open, the start of shutdown, and any moves `after` at whose end every
/// worker has stopped.  Then the jobs that the pool accepted are exactly the
/// jobs submitted before shutdown began, in order; every one of them was
/// handed out, to one worker of the pool, and every one has run to its end.
/// None was skipped, and none is left to run again.
pub proof fn lemma_every_job_runs_once<J>(
    size: int,
    before: Seq<Event<J>>,
    after: Seq<Event<J>>,
)
    requires
        size > 0,
        PoolView::<J>::fresh(size).run(before).open,
        PoolView::<J>::fresh(size).run(before).close().run(after).shut_down(),
    ensures
        ({
            let end = PoolView::<J>::fresh(size).run(before).close().run(after);
            &&& end.wf()
            &&& end.accepted == offered(before)
            &&& end.dispatch.len() == offered(before).len()
            &&& end.pending().len() == 0
            &&& forall|t: int|
                0 <= t < offered(before).len() ==> #[trigger] end.done(t) && !end.in_flight(t)
                    && end.has_worker(end.dispatch[t])
        }),
{
    let start = PoolView::<J>::fresh(size);
    let open_end = start.run(before);
    let closing = open_end.close();
    let end = closing.run(after);
    lemma_fresh_pool::<J>(size);
    lemma_run_wf(start, before);
    lemma_open_pool_accepts_all(start, before);
    assert(start.accepted + offered(before) =~= offered(before));
    lemma_next_wf(open_end, Event::Shutdown);
    lemma_run_wf(closing, after);
    lemma_closed_pool_accepts_nothing(closing, after);
    lemma_shut_down_leaves_nothing(end);
}

/// Every accepted job is, at any moment, in exactly one of three places: in
/// the queue, with exactly one worker, or done.  While it runs, the worker
/// that runs it is the one recorded for it and no other; before and after,
/// no worker runs it.
pub proof fn lemma_one_place_per_job<J>(s: PoolView<J>, t: int)
    requires
        s.wf(),
        0 <= t < s.accepted.len(),
    ensures
        s.queued(t) || s.in_flight(t) || s.done(t),
        !(s.queued(t) && s.in_flight(t)),
        !(s.queued(t) && s.done(t)),
        !(s.in_flight(t) && s.done(t)),
        s.in_flight(t) ==> forall|w: int| #[trigger] s.runs(w, t) <==> w == s.dispatch[t],
        !s.in_flight(t) ==> forall|w: int| !#[trigger] s.runs(w, t),
{
    if s.in_flight(t) {
        assert(s.runs(s.dispatch[t], t));
    }
}

/// A worker runs at most one job, and two workers never run the same job.
pub proof fn lemma_one_job_per_worker<J>(s: PoolView<J>, w1: int, t1: int, w2: int, t2: int)
    requires
        s.wf(),
        s.runs(w1, t1),
        s.runs(w2, t2),
    ensures
        w1 == w2 <==> t1 == t2,
{
}

/// Jobs leave in the order they came.  The job that a claim hands out is the
/// oldest accepted job not handed out before; its ticket is the number of
/// jobs handed out before it, and from then on the claimer is recorded as its
/// worker and runs it.
pub proof fn lemma_first_in_first_out<J>(s: PoolView<J>, w: int)
    requires
        s.wf(),
        s.claim_result(w) is Ok,
        s.claim_result(w)->Ok_0 is Job,
    ensures
        s.claim_result(w)->Ok_0->Job_0 == s.accepted[s.dispatch.len() as int],
        s.queued(s.dispatch.len() as int),
        s.claim(w).in_flight(s.dispatch.len() as int),
        s.claim(w).runs(w, s.dispatch.len() as int),
        s.claim(w).pending() == s.pending().drop_first(),
{
    assert(!s.done(s.dispatch.len() as int));
    assert(s.claim(w).pending() =~= s.pending().drop_first());
}

/// A worker that is busy, however long, keeps no other worker from a job:
/// what an idle worker is handed depends on the queue alone, and its claim
/// leaves every other worker as it was.
pub proof fn lemma_busy_worker_blocks_no_one<J>(s: PoolView<J>, busy: int, idle: int)
    requires
        s.wf(),
        s.has_worker(busy),
        s.workers[busy] is Executing,
        s.has_worker(idle),
        s.workers[idle] is Idle,
        s.pending().len() > 0,
    ensures
        s.claim_result(idle) == Ok::<Claim<J>, crate::error::PoolError>(
            Claim::Job(s.pending()[0]),
        ),
        s.claim(idle).workers[idle] is Executing,
        s.claim(idle).workers[busy] == s.workers[busy],
{
}

/// Once every worker has stopped, every job that was ever accepted has been
/// run to its end: none waits, none is in flight, and the pool is closed.
pub proof fn lemma_shut_down_leaves_nothing<J>(s: PoolView<J>)
    requires
        s.wf(),
        s.shut_down(),
    ensures
        !s.open,
        s.pending().len() == 0,
        s.dispatch.len() == s.accepted.len(),
        forall|t: int| 0 <= t < s.accepted.len() ==> #[trigger] s.done(t),
{
    assert(s.workers[0] is Terminated);
    assert forall|t: int| 0 <= t < s.accepted.len() implies #[trigger] s.done(t) by {
        if !s.done(t) {
            assert(s.in_flight(t));
            assert(s.runs(s.dispatch[t], t));
            assert(s.workers[s.dispatch[t]] is Terminated);
        }
    }
}

/// After shutdown has begun no idle worker is left waiting: its claim is
/// answered with a job while one is pending, and with `Closed` after that,
/// which stops the worker.
pub proof fn lemma_closed_pool_keeps_no_one_waiting<J>(s: PoolView<J>, w: int)
    requires
        s.wf(),
        !s.open,
        s.has_worker(w),
        s.workers[w] is Idle,
    ensures
        s.claim_result(w) is Ok,
        !(s.claim_result(w)->Ok_0 is Wait),
        s.pending().len() > 0 ==> s.claim(w).workers[w] is Executing,
        s.pending().len() == 0 ==> s.claim(w).workers[w] is Terminated,
{
}

/// A job that unwinds costs the pool no worker.  The worker that ran it is
/// idle afterwards, the same workers are there, and apart from the recorded
/// outcome the pool is as if the job had returned; the worker is then handed
/// the next pending job like any other.
pub proof fn lemma_unwound_job_keeps_worker<J>(s: PoolView<J>, w: int)
    requires
        s.wf(),
        s.has_worker(w),
        s.workers[w] is Executing,
    ensures
        s.finish(w, JobOutcome::Unwound).workers[w] is Idle,
        s.finish(w, JobOutcome::Unwound).workers == s.finish(w, JobOutcome::Returned).workers,
        s.finish(w, JobOutcome::Unwound).pending() == s.pending(),
        s.finish(w, JobOutcome::Unwound).open == s.open,
        forall|v: int|
            s.has_worker(v) && v != w ==> #[trigger] s.finish(w, JobOutcome::Unwound).workers[v]
                == s.workers[v],
        s.pending().len() > 0 ==> s.finish(w, JobOutcome::Unwound).claim_result(w) == Ok::<
            Claim<J>,
            crate::error::PoolError,
        >(Claim::Job(s.pending()[0])),
{
}

} // verus!
