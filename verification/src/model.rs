//! A mathematical model of the pool's counter protocol.
//!
//! The executable pool shares its counters between threads, so nothing useful
//! can be stated about a single atomic read in isolation.  This module states
//! the protocol those counters follow over a ghost [`PoolState`]: submission
//! pushes a job message and raises the pending count, a worker step consumes
//! the front message and settles the counters, and `drain` runs worker steps
//! until the queue is empty — the quiescent point that `join` waits for.  The
//! laws at the end of the module are the pool's central guarantees, proved
//! over this model.

use vstd::prelude::*;

use crate::thread_pool::Message;

verus! {

/// What a submitted job does when a worker runs it: it either runs to
/// completion or terminates abnormally part-way through.
pub enum JobSpec {
    Runs,
    Panics,
}

/// The pool's shared state as the synchronization protocol sees it.
///
/// `workers` counts live worker threads; `queue` holds the messages submitted
/// but not yet consumed, oldest first; `active` counts jobs currently
/// executing; `pending` counts jobs submitted but not yet started; `failed`
/// counts jobs that terminated abnormally; `completed` counts jobs that ran
/// to completion.
#[verifier::ext_equal]
pub struct PoolState {
    pub workers: nat,
    pub queue: Seq<Message<JobSpec>>,
    pub active: nat,
    pub pending: nat,
    pub failed: nat,
    pub completed: nat,
}

/// The wait predicate of the completion barrier: some job is still executing
/// or still waiting to be started.
pub open spec fn has_works(s: PoolState) -> bool {
    s.active > 0 || s.pending > 0
}

/// How many messages of each kind a queue holds.
pub struct QueueCounts {
    pub jobs: nat,
    pub runs: nat,
    pub panics: nat,
    pub stops: nat,
}

/// Counts the messages of each kind in `q`.
pub open spec fn counts(q: Seq<Message<JobSpec>>) -> QueueCounts
    decreases q.len(),
{
    if q.len() == 0 {
        QueueCounts { jobs: 0, runs: 0, panics: 0, stops: 0 }
    } else {
        let c = counts(q.drop_first());
        match q[0] {
            Message::NewJob(JobSpec::Runs) => QueueCounts {
                jobs: c.jobs + 1,
                runs: c.runs + 1,
                ..c
            },
            Message::NewJob(JobSpec::Panics) => QueueCounts {
                jobs: c.jobs + 1,
                panics: c.panics + 1,
                ..c
            },
            Message::Shutdown => QueueCounts { stops: c.stops + 1, ..c },
        }
    }
}

/// A pool state is well formed when it is observed at a quiescent point (no
/// worker mid-transition) and its pending counter agrees with the number of
/// job messages still queued.
pub open spec fn wf(s: PoolState) -> bool {
    s.active == 0 && s.pending == counts(s.queue).jobs
}

/// Submitting one job: the job message is enqueued and the pending counter
/// rises by one.
pub open spec fn submit(s: PoolState, j: JobSpec) -> PoolState {
    PoolState {
        queue: s.queue.push(Message::NewJob(j)),
        pending: s.pending + 1,
        ..s
    }
}

/// Submitting a sequence of jobs in order.
pub open spec fn submit_all(s: PoolState, js: Seq<JobSpec>) -> PoolState
    decreases js.len(),
{
    if js.len() == 0 {
        s
    } else {
        submit_all(submit(s, js[0]), js.drop_first())
    }
}

/// A run of `n` shutdown messages.
pub open spec fn stop_messages(n: nat) -> Seq<Message<JobSpec>>
    decreases n,
{
    if n == 0 {
        Seq::empty()
    } else {
        stop_messages((n - 1) as nat).push(Message::Shutdown)
    }
}

/// A shutdown call that found `observed_active` jobs executing: one shutdown
/// message is enqueued per such job — not per worker, which is the shutdown
/// path's known gap: workers beyond that count are never told to stop.
pub open spec fn shutdown_enqueue(s: PoolState, observed_active: nat) -> PoolState {
    PoolState { queue: s.queue + stop_messages(observed_active), ..s }
}

/// One whole worker step on the front message.
///
/// A job message is taken (active up, pending down), run, and settled (active
/// back down).  An abnormal termination raises the failed counter and costs
/// the worker its life, but a replacement is spawned before the dying
/// thread's resources are released, so `workers` is unchanged either way.  A
/// shutdown message retires the worker that receives it, with no
/// replacement.
pub open spec fn step(s: PoolState) -> PoolState
    recommends
        s.queue.len() > 0,
{
    let rest = s.queue.drop_first();
    match s.queue[0] {
        Message::NewJob(JobSpec::Runs) => PoolState {
            queue: rest,
            pending: (s.pending - 1) as nat,
            completed: s.completed + 1,
            ..s
        },
        Message::NewJob(JobSpec::Panics) => PoolState {
            queue: rest,
            pending: (s.pending - 1) as nat,
            failed: s.failed + 1,
            ..s
        },
        Message::Shutdown => PoolState { queue: rest, workers: (s.workers - 1) as nat, ..s },
    }
}

/// Worker steps applied until the queue is empty: the state `join` observes
/// once the barrier opens.
pub open spec fn drain(s: PoolState) -> PoolState
    decreases s.queue.len(),
{
    if s.queue.len() == 0 {
        s
    } else {
        drain(step(s))
    }
}

/// How many jobs of a submission sequence run to completion.
pub open spec fn run_count(js: Seq<JobSpec>) -> nat
    decreases js.len(),
{
    if js.len() == 0 {
        0
    } else {
        (match js[0] {
            JobSpec::Runs => 1nat,
            JobSpec::Panics => 0nat,
        }) + run_count(js.drop_first())
    }
}

/// How many jobs of a submission sequence terminate abnormally.
pub open spec fn panic_count(js: Seq<JobSpec>) -> nat
    decreases js.len(),
{
    if js.len() == 0 {
        0
    } else {
        (match js[0] {
            JobSpec::Runs => 0nat,
            JobSpec::Panics => 1nat,
        }) + panic_count(js.drop_first())
    }
}

/// `c` is one of the orders in which two producers' submission sequences `a`
/// and `b` can reach the queue: `c` merges `a` and `b`, keeping the relative
/// order of each.
pub open spec fn is_interleaving(c: Seq<JobSpec>, a: Seq<JobSpec>, b: Seq<JobSpec>) -> bool
    decreases c.len(),
{
    if c.len() == 0 {
        a.len() == 0 && b.len() == 0
    } else {
        (a.len() > 0 && a[0] == c[0] && is_interleaving(c.drop_first(), a.drop_first(), b)) || (
        b.len() > 0 && b[0] == c[0] && is_interleaving(c.drop_first(), a, b.drop_first()))
    }
}

/// Pushing a message on the back of a queue raises exactly the counters of
/// its kind by one.
proof fn lemma_counts_push(q: Seq<Message<JobSpec>>, m: Message<JobSpec>)
    ensures
        counts(q.push(m)).jobs == counts(q).jobs + (if m is NewJob {
            1nat
        } else {
            0nat
        }),
        counts(q.push(m)).runs == counts(q).runs + (if m == Message::NewJob(JobSpec::Runs) {
            1nat
        } else {
            0nat
        }),
        counts(q.push(m)).panics == counts(q).panics + (if m == Message::NewJob(JobSpec::Panics) {
            1nat
        } else {
            0nat
        }),
        counts(q.push(m)).stops == counts(q).stops + (if m is Shutdown {
            1nat
        } else {
            0nat
        }),
    decreases q.len(),
{
    if q.len() == 0 {
        assert(q.push(m).drop_first() =~= q);
    } else {
        assert(q.push(m).drop_first() =~= q.drop_first().push(m));
        lemma_counts_push(q.drop_first(), m);
    }
}

/// Submission preserves well-formedness and touches nothing but the queue and
/// the pending counter.
pub proof fn lemma_submit_wf(s: PoolState, j: JobSpec)
    requires
        wf(s),
    ensures
        wf(submit(s, j)),
        counts(submit(s, j).queue).runs == counts(s.queue).runs + (if j is Runs {
            1nat
        } else {
            0nat
        }),
        counts(submit(s, j).queue).panics == counts(s.queue).panics + (if j is Panics {
            1nat
        } else {
            0nat
        }),
        counts(submit(s, j).queue).stops == counts(s.queue).stops,
        submit(s, j).workers == s.workers,
        submit(s, j).failed == s.failed,
        submit(s, j).completed == s.completed,
{
    lemma_counts_push(s.queue, Message::NewJob(j));
}

/// Submitting a whole sequence preserves well-formedness; the queued run and
/// panic counts rise by exactly the sequence's own counts, and the other
/// components are untouched.
pub proof fn lemma_submit_all_wf(s: PoolState, js: Seq<JobSpec>)
    requires
        wf(s),
    ensures
        wf(submit_all(s, js)),
        counts(submit_all(s, js).queue).runs == counts(s.queue).runs + run_count(js),
        counts(submit_all(s, js).queue).panics == counts(s.queue).panics + panic_count(js),
        counts(submit_all(s, js).queue).stops == counts(s.queue).stops,
        submit_all(s, js).workers == s.workers,
        submit_all(s, js).failed == s.failed,
        submit_all(s, js).completed == s.completed,
    decreases js.len(),
{
    if js.len() > 0 {
        lemma_submit_wf(s, js[0]);
        lemma_submit_all_wf(submit(s, js[0]), js.drop_first());
    }
}

/// One worker step on a non-empty queue preserves well-formedness and settles
/// the counters of the message it consumed.
proof fn lemma_step_wf(s: PoolState)
    requires
        wf(s),
        s.queue.len() > 0,
    ensures
        wf(step(s)),
        step(s).queue.len() == s.queue.len() - 1,
        step(s).completed == s.completed + counts(s.queue).runs - counts(step(s).queue).runs,
        step(s).failed == s.failed + counts(s.queue).panics - counts(step(s).queue).panics,
        counts(step(s).queue).stops <= counts(s.queue).stops,
        counts(s.queue).stops <= s.workers ==> {
            &&& step(s).workers == s.workers - (counts(s.queue).stops - counts(step(s).queue).stops)
            &&& counts(step(s).queue).stops <= step(s).workers
        },
{
}

/// Drain invariant: once every queued message has been consumed, no work is
/// active and none is pending, whatever was submitted beforehand.
pub proof fn lemma_drain_invariant(s: PoolState)
    requires
        wf(s),
    ensures
        wf(drain(s)),
        drain(s).queue.len() == 0,
        !has_works(drain(s)),
    decreases s.queue.len(),
{
    if s.queue.len() > 0 {
        lemma_step_wf(s);
        lemma_drain_invariant(step(s));
    }
}

/// Draining settles every queued message exactly once: the completed and
/// failed counters rise by exactly the number of queued jobs of each kind —
/// no job is lost and none is run twice — and each queued shutdown message
/// retires exactly one worker.
pub proof fn lemma_drain_counts(s: PoolState)
    requires
        wf(s),
        counts(s.queue).stops <= s.workers,
    ensures
        drain(s).completed == s.completed + counts(s.queue).runs,
        drain(s).failed == s.failed + counts(s.queue).panics,
        drain(s).workers == s.workers - counts(s.queue).stops,
        drain(s).active == 0,
        drain(s).pending == 0,
    decreases s.queue.len(),
{
    if s.queue.len() == 0 {
    } else {
        lemma_step_wf(s);
        lemma_drain_counts(step(s));
    }
}

/// Drain invariant for whole dispatches: after any sequence of submissions to
/// a well-formed pool, draining leaves no active and no pending work.
pub proof fn lemma_join_drains(s: PoolState, js: Seq<JobSpec>)
    requires
        wf(s),
    ensures
        !has_works(drain(submit_all(s, js))),
        wf(drain(submit_all(s, js))),
    decreases js.len(),
{
    lemma_submit_all_wf(s, js);
    lemma_drain_invariant(submit_all(s, js));
}

/// Self-healing under failure: draining a batch of abnormally terminating
/// jobs raises the failed counter by exactly the batch size and leaves the
/// worker count untouched; the pool then accepts a batch of healthy jobs and
/// completes every one of them.
pub proof fn lemma_self_healing(s: PoolState, js: Seq<JobSpec>, ks: Seq<JobSpec>)
    requires
        wf(s),
        s.queue.len() == 0,
        forall|i: int| 0 <= i < js.len() ==> js[i] is Panics,
        forall|i: int| 0 <= i < ks.len() ==> ks[i] is Runs,
    ensures
        ({
            let s1 = drain(submit_all(s, js));
            let s2 = drain(submit_all(s1, ks));
            &&& s1.failed == s.failed + js.len()
            &&& s1.completed == s.completed
            &&& s1.workers == s.workers
            &&& !has_works(s1)
            &&& s2.completed == s1.completed + ks.len()
            &&& s2.failed == s1.failed
            &&& s2.workers == s.workers
            &&& !has_works(s2)
        }),
{
    lemma_all_panics_counts(js);
    lemma_all_runs_counts(ks);
    lemma_submit_all_wf(s, js);
    lemma_drain_invariant(submit_all(s, js));
    lemma_drain_counts(submit_all(s, js));
    let s1 = drain(submit_all(s, js));
    lemma_drain_empties(submit_all(s, js));
    lemma_submit_all_wf(s1, ks);
    lemma_drain_invariant(submit_all(s1, ks));
    lemma_drain_counts(submit_all(s1, ks));
}

/// A fully drained queue holds no messages of any kind.
proof fn lemma_drain_empties(s: PoolState)
    requires
        wf(s),
    ensures
        counts(drain(s).queue).runs == 0,
        counts(drain(s).queue).panics == 0,
        counts(drain(s).queue).stops == 0,
        drain(s).queue.len() == 0,
    decreases s.queue.len(),
{
    lemma_drain_invariant(s);
}

/// In a batch of abnormally terminating jobs nothing runs to completion.
proof fn lemma_all_panics_counts(js: Seq<JobSpec>)
    requires
        forall|i: int| 0 <= i < js.len() ==> js[i] is Panics,
    ensures
        run_count(js) == 0,
        panic_count(js) == js.len(),
    decreases js.len(),
{
    if js.len() > 0 {
        lemma_all_panics_counts(js.drop_first());
    }
}

/// In a batch of healthy jobs nothing terminates abnormally.
proof fn lemma_all_runs_counts(js: Seq<JobSpec>)
    requires
        forall|i: int| 0 <= i < js.len() ==> js[i] is Runs,
    ensures
        run_count(js) == js.len(),
        panic_count(js) == 0,
    decreases js.len(),
{
    if js.len() > 0 {
        lemma_all_runs_counts(js.drop_first());
    }
}

/// Appending a run of shutdown messages raises the queue's stop count by
/// exactly their number and touches no other count.
proof fn lemma_counts_append_stops(q: Seq<Message<JobSpec>>, n: nat)
    ensures
        counts(q + stop_messages(n)).jobs == counts(q).jobs,
        counts(q + stop_messages(n)).runs == counts(q).runs,
        counts(q + stop_messages(n)).panics == counts(q).panics,
        counts(q + stop_messages(n)).stops == counts(q).stops + n,
    decreases n,
{
    if n == 0 {
        assert(q + stop_messages(0) =~= q);
    } else {
        lemma_counts_append_stops(q, (n - 1) as nat);
        assert(q + stop_messages(n) =~= (q + stop_messages((n - 1) as nat)).push(
            Message::Shutdown,
        ));
        lemma_counts_push(q + stop_messages((n - 1) as nat), Message::Shutdown);
    }
}

/// Best-effort shutdown: a shutdown call that observed `n` executing jobs
/// retires exactly `n` workers once the queue drains, while every queued job
/// is still settled exactly once.  The remaining workers are never told to
/// stop and live on — the shutdown path's known gap, stated rather than
/// papered over.
pub proof fn lemma_shutdown_best_effort(s: PoolState, n: nat)
    requires
        wf(s),
        counts(s.queue).stops == 0,
        n <= s.workers,
    ensures
        ({
            let sd = drain(shutdown_enqueue(s, n));
            &&& sd.workers == s.workers - n
            &&& sd.completed == s.completed + counts(s.queue).runs
            &&& sd.failed == s.failed + counts(s.queue).panics
            &&& !has_works(sd)
        }),
{
    lemma_counts_append_stops(s.queue, n);
    lemma_drain_invariant(shutdown_enqueue(s, n));
    lemma_drain_counts(shutdown_enqueue(s, n));
}

/// Idempotent join: the quiescent state the barrier observes is a fixed
/// point — a second join on an idle pool observes the same state, and a pool
/// that is already idle is left exactly as it was.
pub proof fn lemma_join_idempotent(s: PoolState)
    requires
        wf(s),
    ensures
        drain(drain(s)) == drain(s),
        s.queue.len() == 0 ==> drain(s) == s,
{
    lemma_drain_invariant(s);
}

/// Merging two producers' submissions preserves their job counts: nothing is
/// duplicated and nothing is dropped, whichever way the two interleave.
proof fn lemma_interleaving_counts(c: Seq<JobSpec>, a: Seq<JobSpec>, b: Seq<JobSpec>)
    requires
        is_interleaving(c, a, b),
    ensures
        c.len() == a.len() + b.len(),
        run_count(c) == run_count(a) + run_count(b),
        panic_count(c) == panic_count(a) + panic_count(b),
    decreases c.len(),
{
    if c.len() > 0 {
        if a.len() > 0 && a[0] == c[0] && is_interleaving(c.drop_first(), a.drop_first(), b) {
            lemma_interleaving_counts(c.drop_first(), a.drop_first(), b);
        } else {
            lemma_interleaving_counts(c.drop_first(), a, b.drop_first());
        }
    }
}

/// Concurrent submission safety: two producers submitting healthy batches of
/// sizes K and L to the same pool, in whatever interleaved order the queue
/// receives them, yield exactly K + L completions after the drain — no
/// duplicate and no missing execution.
pub proof fn lemma_concurrent_submissions(
    s: PoolState,
    c: Seq<JobSpec>,
    a: Seq<JobSpec>,
    b: Seq<JobSpec>,
)
    requires
        wf(s),
        s.queue.len() == 0,
        is_interleaving(c, a, b),
        forall|i: int| 0 <= i < a.len() ==> a[i] is Runs,
        forall|i: int| 0 <= i < b.len() ==> b[i] is Runs,
    ensures
        drain(submit_all(s, c)).completed == s.completed + a.len() + b.len(),
        drain(submit_all(s, c)).failed == s.failed,
        !has_works(drain(submit_all(s, c))),
{
    lemma_interleaving_counts(c, a, b);
    lemma_all_runs_counts(a);
    lemma_all_runs_counts(b);
    lemma_interleaving_all_runs(c, a, b);
    lemma_all_runs_counts(c);
    lemma_submit_all_wf(s, c);
    lemma_drain_invariant(submit_all(s, c));
    lemma_drain_counts(submit_all(s, c));
}

/// An interleaving of two healthy batches is itself a healthy batch.
proof fn lemma_interleaving_all_runs(c: Seq<JobSpec>, a: Seq<JobSpec>, b: Seq<JobSpec>)
    requires
        is_interleaving(c, a, b),
        forall|i: int| 0 <= i < a.len() ==> a[i] is Runs,
        forall|i: int| 0 <= i < b.len() ==> b[i] is Runs,
    ensures
        forall|i: int| 0 <= i < c.len() ==> c[i] is Runs,
    decreases c.len(),
{
    if c.len() > 0 {
        if a.len() > 0 && a[0] == c[0] && is_interleaving(c.drop_first(), a.drop_first(), b) {
            assert(forall|i: int|
                0 <= i < a.drop_first().len() ==> a.drop_first()[i] == a[i + 1]);
            lemma_interleaving_all_runs(c.drop_first(), a.drop_first(), b);
        } else {
            assert(forall|i: int|
                0 <= i < b.drop_first().len() ==> b.drop_first()[i] == b[i + 1]);
            lemma_interleaving_all_runs(c.drop_first(), a, b.drop_first());
        }
        assert(forall|i: int|
            1 <= i < c.len() ==> c[i] == c.drop_first()[i - 1]);
    }
}

} // verus!
