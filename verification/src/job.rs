//! Jobs: opaque units of work.

use vstd::prelude::*;

verus! {

/// One unit of work submitted to the pool: a zero-argument, no-return closure
/// with an arbitrary side effect, runnable exactly once and transferable
/// across thread boundaries.  What the closure does is entirely the caller's
/// business, so the pool holds it as an opaque value.
#[verifier::external_body]
pub struct Job {
    inner: Box<dyn FnOnce() + Send + 'static>,
}

impl Job {
    /// Relies on `Box::new` alone: the caller's closure is wrapped unchanged.
    #[verifier::external_body]
    pub fn new<F: FnOnce() + Send + 'static>(job: F) -> Job {
        Job { inner: Box::new(job) }
    }

    /// Invokes the wrapped caller closure.  The closure is arbitrary outside
    /// code: it may terminate abnormally and unwind the calling worker, and
    /// confining exactly that is what the pool's sentinel is for, so nothing
    /// is promised of the call.
    #[verifier::external_body]
    pub(crate) fn run(self) {
        (self.inner)()
    }
}

} // verus!
