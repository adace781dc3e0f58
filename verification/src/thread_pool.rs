//! The worker pool itself.

use vstd::prelude::*;

use core::sync::atomic::AtomicUsize;
use core::sync::atomic::Ordering;
use std::sync::Arc;

use crate::ctx::clone_ctx;
use crate::ctx::ThreadPoolContext;
use crate::event::lock_event;
use crate::event::new_event_condvar;
use crate::event::new_event_lock;
use crate::event::wait_event_while;
use crate::host::new_host;
use crate::job::Job;
use crate::queue::action_channel;
use crate::queue::recv_action;
use crate::queue::send_action;
use crate::sentinel::Sentinel;

verus! {

/// One message on the pool's job queue: either a job to run, or an
/// instruction to the receiving worker to shut down.  Every message is
/// produced by one pool handle and consumed by exactly one worker.
pub enum Message<T> {
    NewJob(T),
    Shutdown,
}

/// The messages the pool's queue actually carries.
pub type Action = Message<Job>;

/// A handle on a fixed-size worker pool.
///
/// Handles are cheaply duplicable: a clone shares the same context and the
/// same send endpoint, so jobs may be submitted concurrently from several
/// threads.  The counter protocol the handles and workers follow, and the
/// guarantees it yields (the drain invariant, self-healing under failure,
/// idempotent join, concurrent submission safety), are stated and proved in
/// [`crate::model`].
///
/// A nested `join` — a job that itself joins the pool it runs on — can
/// deadlock and must be avoided by callers.
#[derive(Clone)]
pub struct ThreadPool {
    sender: crossbeam_channel::Sender<Action>,
    ctx: Arc<ThreadPoolContext>,
}

impl ThreadPool {
    /// Creates a pool and spawns `size` workers immediately.  A size of zero
    /// is a construction-time programmer error, ruled out here, not a runtime
    /// condition.
    pub fn new(size: usize) -> ThreadPool
        requires
            size > 0,
    {
        let (sender, receiver) = action_channel();
        let ctx = Arc::new(
            ThreadPoolContext {
                receiver,
                host: new_host(size),
                actived_count: AtomicUsize::new(0),
                pending_count: AtomicUsize::new(0),
                packing_count: AtomicUsize::new(0),
                cond_lock: new_event_lock(),
                cond: new_event_condvar(),
            },
        );
        let mut i: usize = 0;
        while i < size
            invariant
                i <= size,
            decreases size - i,
        {
            spawn_in_pool(clone_ctx(&ctx));
            i = i + 1;
        }
        ThreadPool { sender, ctx }
    }

    /// Snapshot of the number of jobs currently executing.
    pub fn actived_count(&self) -> usize {
        self.ctx.actived_count.load(Ordering::SeqCst)
    }

    /// Snapshot of the number of jobs submitted but not yet started.
    pub fn pending_count(&self) -> usize {
        self.ctx.pending_count.load(Ordering::Relaxed)
    }

    /// Snapshot of the number of jobs that terminated abnormally.
    pub fn panicing_count(&self) -> usize {
        self.ctx.packing_count.load(Ordering::Relaxed)
    }

    /// Submits one job: raises the pending counter, then enqueues the job
    /// ([`crate::model::submit`]).  Never blocks the caller beyond queue
    /// insertion, and may be called concurrently from several threads and
    /// from several handles sharing the same state.
    pub fn execute<F>(&self, job: F) where F: FnOnce() + Send + 'static {
        self.ctx.pending_count.fetch_add(1, Ordering::SeqCst);
        send_action(&self.sender, Message::NewJob(Job::new(job)));
    }

    /// Shuts workers down, best-effort: a no-op on an idle pool, otherwise
    /// one shutdown message is enqueued per job counted as executing at the
    /// instant of the call ([`crate::model::shutdown_enqueue`]).  Workers
    /// idle at that instant may therefore never receive one and keep
    /// blocking on the queue — a known gap in the shutdown path, kept as it
    /// is pending a settled shutdown design and stated as such in
    /// [`crate::model::lemma_shutdown_best_effort`].
    pub fn shutdown(&self) {
        if !self.ctx.has_works() {
            return ;
        }
        let actived_count = self.ctx.actived_count.load(Ordering::SeqCst);
        let mut i: usize = 0;
        while i < actived_count
            invariant
                i <= actived_count,
            decreases actived_count - i,
        {
            send_action(&self.sender, Message::Shutdown);
            i = i + 1;
        }
    }

    /// Blocks the calling thread until no work is active and none is pending:
    /// a fast-path return when the pool is already idle, otherwise a wait on
    /// the completion event, re-checking the predicate under the event lock
    /// on every wake (spurious wakeups, and new work submitted by a
    /// concurrent caller mid-wait, both lead back into the wait).  Safe to
    /// call repeatedly and from several threads at once; the quiescent state
    /// it observes is a fixed point ([`crate::model::lemma_join_idempotent`]).
    ///
    /// A submitted job that never returns holds the barrier open
    /// indefinitely; that is an accepted limitation of the pool.
    pub fn join(&self) {
        if !self.ctx.has_works() {
            return ;
        }
        let guard = lock_event(&self.ctx.cond_lock);
        let _guard = wait_event_while(&self.ctx.cond, guard, &self.ctx);
    }
}

/// Spawns one worker bound to the given shared state.
///
/// Relies on `threadpool::ThreadPool::execute`: the host schedules the
/// closure on one of its threads without blocking the caller, and replaces a
/// thread whose occupant died.  The closure only hands the shared state to
/// the verified [`worker_turn`].
#[verifier::external_body]
pub fn spawn_in_pool(ctx: Arc<ThreadPoolContext>) {
    let worker_ctx = Arc::clone(&ctx);
    ctx.host.execute(move || worker_turn(worker_ctx));
}

/// One turn of a worker: dequeue one message and handle it.
///
/// On a shutdown message, or on a closed queue, the worker retires
/// deliberately.  On a job message it runs the job between the counter
/// updates of [`crate::model::step`] — actived up and pending down before the
/// job, actived down and a wakeup after it, no lock of the pool's held while
/// the job runs — and then re-arms itself for the next turn, so a worker
/// lives until it is told to shut down.  A job that terminates abnormally
/// unwinds the turn before its decrement is reached; the [`Sentinel`] armed
/// around the job then compensates and respawns a replacement worker, so the
/// pool's cardinality stays constant.
fn worker_turn(ctx: Arc<ThreadPoolContext>) {
    let msg = recv_action(&ctx.receiver);
    let job = match msg {
        None => { return ; },
        Some(Message::Shutdown) => { return ; },
        Some(Message::NewJob(job)) => job,
    };
    ctx.actived_count.fetch_add(1, Ordering::SeqCst);
    ctx.pending_count.fetch_sub(1, Ordering::SeqCst);
    let mut sentinel = Sentinel::new(&ctx);
    job.run();
    sentinel.done();
    ctx.actived_count.fetch_sub(1, Ordering::SeqCst);
    ctx.no_work_notify_all();
    spawn_in_pool(ctx);
}

} // verus!
