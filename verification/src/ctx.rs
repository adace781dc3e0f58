//! The state shared by every pool handle and every worker.

use vstd::prelude::*;

use core::sync::atomic::AtomicUsize;
use core::sync::atomic::Ordering;
use threadpool::ThreadPool as HostPool;

use crate::event::lock_event;
use crate::event::notify_event;
use crate::thread_pool::Action;

verus! {

/// The mutable state shared — through a reference-counted handle — by every
/// pool handle and every worker thread.
///
/// The counters are atomics shared between threads, so no contract over a
/// single read of them can say more than that some value came back; the
/// protocol the counters follow, and the guarantees it yields, are stated and
/// proved over [`crate::model::PoolState`].
pub struct ThreadPoolContext {
    /// The single shared receive endpoint of the job queue; concurrent
    /// receives are serialized by the endpoint itself, so only one worker is
    /// mid-dequeue at a time.
    pub receiver: crossbeam_channel::Receiver<Action>,
    /// The thread substrate the workers occupy; the sentinel's respawn path
    /// places the replacement worker here.
    pub host: HostPool,
    /// Number of jobs currently executing (`PoolState::active`).
    pub actived_count: AtomicUsize,
    /// Number of jobs submitted but not yet started (`PoolState::pending`).
    pub pending_count: AtomicUsize,
    /// Number of jobs that terminated abnormally (`PoolState::failed`);
    /// monotonically non-decreasing.
    pub packing_count: AtomicUsize,
    /// Lock of the completion event; held only long enough to inspect the
    /// counters and wake waiters, never while a job executes.
    pub cond_lock: std::sync::Mutex<()>,
    /// The completion event itself, signaling "no active and no pending
    /// work".
    pub cond: std::sync::Condvar,
}

/// Relies on `std::sync::Arc::clone`: the clone is a handle to the very same
/// shared value.
#[verifier::external_body]
pub(crate) fn clone_ctx(ctx: &std::sync::Arc<ThreadPoolContext>) -> (res: std::sync::Arc<
    ThreadPoolContext,
>)
    ensures
        res == *ctx,
{
    std::sync::Arc::clone(ctx)
}

impl ThreadPoolContext {
    /// The wait predicate of the completion barrier: true iff some job is
    /// executing or some job is waiting to be started, at the instants the
    /// two counters were read ([`crate::model::has_works`]).  Used both to
    /// short-circuit `join` and `shutdown` and as the predicate re-checked on
    /// every wakeup.
    pub fn has_works(&self) -> bool {
        let actived_count = self.actived_count.load(Ordering::SeqCst);
        let pending_count = self.pending_count.load(Ordering::SeqCst);
        actived_count > 0 || pending_count > 0
    }

    /// Wakes all threads blocked in `join`.  Called by a worker immediately
    /// after it decrements `actived_count`, for a normal and for an abnormal
    /// job ending alike; taking the event lock first closes the window in
    /// which a waiter could check the predicate and miss this wakeup.
    pub fn no_work_notify_all(&self) {
        let _lock = lock_event(&self.cond_lock);
        notify_event(&self.cond);
    }
}

} // verus!
