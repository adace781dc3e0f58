//! The sentinel a worker arms around each job it runs.
//!
//! A job is arbitrary caller code; when it terminates abnormally, the stack
//! of the worker running it unwinds and the worker dies without reaching its
//! own counter updates.  The sentinel's cleanup runs on every exit path out
//! of the job — a job that ran to completion is marked `done` before the
//! worker moves on, so nothing happens for it — and on the abnormal path it
//! performs the compensating updates and respawns a replacement worker
//! before the dying thread's resources are released.

use vstd::prelude::*;

use core::sync::atomic::Ordering;
use std::sync::Arc;

use crate::ctx::ThreadPoolContext;
use crate::thread_pool::spawn_in_pool;

verus! {

/// The guard itself.  It holds a `scopeguard::ScopeGuard` whose type names a
/// closure and so cannot be declared on its own; the two operations on it are
/// the trusted functions below, and the cleanup it arms is the verified
/// [`worker_failed`].
#[verifier::external_body]
pub struct Sentinel {
    inner: Option<scopeguard::ScopeGuard<Arc<ThreadPoolContext>, fn(Arc<ThreadPoolContext>)>>,
}

impl Sentinel {
    /// Relies on `scopeguard::guard`: arms a cleanup that runs exactly once,
    /// when the guard is dropped — be that by falling out of scope or during
    /// the stack unwinding of an abnormally terminating job.  The cleanup is
    /// one call of [`worker_failed`] on the given shared state.
    #[verifier::external_body]
    pub fn new(ctx: &Arc<ThreadPoolContext>) -> Sentinel {
        Sentinel { inner: Some(scopeguard::guard(Arc::clone(ctx), worker_failed)) }
    }

    /// Relies on `scopeguard::ScopeGuard::into_inner`: disarms the guard, so
    /// that no corrective action is taken.  The worker calls this only once
    /// the guarded job has run to completion.
    #[verifier::external_body]
    pub fn done(&mut self) {
        if let Some(guard) = self.inner.take() {
            let _ctx = scopeguard::ScopeGuard::into_inner(guard);
        }
    }
}

/// The compensating updates for a worker whose job terminated abnormally:
/// the decrement the job never reached, one increment of the failure counter
/// — exactly once per abnormal termination — a wakeup of the completion
/// event's waiters, and the spawn of a brand-new worker bound to the same
/// shared state, keeping the pool's cardinality constant.  Armed by
/// [`Sentinel::new`]; nothing else calls it.
pub fn worker_failed(ctx: Arc<ThreadPoolContext>) {
    ctx.actived_count.fetch_sub(1, Ordering::SeqCst);
    ctx.packing_count.fetch_add(1, Ordering::SeqCst);
    ctx.no_work_notify_all();
    spawn_in_pool(ctx);
}

} // verus!
