//! The completion event: a mutex paired with a condition variable, from
//! `std::sync`.  The lock is held only to inspect the counters and wake
//! waiters, never while a job runs, so the critical contract — that the
//! predicate check and the wait are atomic with respect to the notifying
//! side — holds without serializing job throughput.

use vstd::prelude::*;

verus! {

/// `std::sync::Mutex`, declared so that it can stand in fields and
/// signatures; the value is opaque.
#[verifier::external_type_specification]
#[verifier::external_body]
#[verifier::reject_recursive_types(T)]
pub struct ExMutex<T: ?Sized>(std::sync::Mutex<T>);

/// `std::sync::MutexGuard`, declared so that waiting can hand the held lock
/// back and forth.
#[verifier::external_type_specification]
#[verifier::external_body]
#[verifier::reject_recursive_types(T)]
pub struct ExMutexGuard<'a, T: ?Sized + 'a>(std::sync::MutexGuard<'a, T>);

/// `std::sync::Condvar`, declared like the mutex.
#[verifier::external_type_specification]
#[verifier::external_body]
pub struct ExCondvar(std::sync::Condvar);

/// Relies on `std::sync::Mutex::new`.
#[verifier::external_body]
pub(crate) fn new_event_lock() -> std::sync::Mutex<()> {
    std::sync::Mutex::new(())
}

/// Relies on `std::sync::Condvar::new`.
#[verifier::external_body]
pub(crate) fn new_event_condvar() -> std::sync::Condvar {
    std::sync::Condvar::new()
}

/// Relies on `std::sync::Mutex::lock`: blocks until the lock is held.  The
/// lock can be poisoned only by a thread panicking inside one of these
/// critical sections, which hold no code that panics; that case would be a
/// fatal internal invariant violation, and this call then panics as the
/// lock user's `unwrap` would.
#[verifier::external_body]
pub(crate) fn lock_event<'a>(lock: &'a std::sync::Mutex<()>) -> std::sync::MutexGuard<'a, ()> {
    lock.lock().unwrap()
}

/// Relies on `std::sync::Condvar::wait_while`: releases the guard and blocks
/// until the given predicate returns false, re-checking it under the lock on
/// every wakeup, so neither a spurious wakeup nor work submitted mid-wait can
/// end the wait early, and no wakeup can fall between the check and the wait.
/// The predicate handed in is the pool's own verified wait predicate.
#[verifier::external_body]
pub(crate) fn wait_event_while<'a>(
    cond: &std::sync::Condvar,
    guard: std::sync::MutexGuard<'a, ()>,
    ctx: &crate::ctx::ThreadPoolContext,
) -> std::sync::MutexGuard<'a, ()> {
    cond.wait_while(guard, |_unit| ctx.has_works()).unwrap()
}

/// Relies on `std::sync::Condvar::notify_all`: wakes every waiter.
#[verifier::external_body]
pub(crate) fn notify_event(cond: &std::sync::Condvar) {
    cond.notify_all();
}

} // verus!
