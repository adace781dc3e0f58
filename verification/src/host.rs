//! The thread substrate: the pool's workers are long-running loops, each
//! occupying one thread of a host pool from the `threadpool` crate.  The host
//! contributes nothing but threads — every job, counter and synchronization
//! decision is this crate's own — and it replaces a thread whose occupant
//! died, which keeps the worker cardinality constant together with the
//! sentinel's respawn.

use threadpool::ThreadPool as HostPool;
use vstd::prelude::*;

verus! {

/// `threadpool::ThreadPool`, declared so that the shared context can hold the
/// thread substrate; the value is opaque.
#[verifier::external_type_specification]
#[verifier::external_body]
pub struct ExHostPool(HostPool);

/// Relies on `threadpool::ThreadPool::new`: a host with `size` threads.
/// `threadpool` panics on a size of zero, so that input is ruled out.
#[verifier::external_body]
pub(crate) fn new_host(size: usize) -> HostPool
    requires
        size > 0,
{
    HostPool::new(size)
}

} // verus!
