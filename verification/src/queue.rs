//! The job queue: a thread-safe multi-producer, multi-consumer channel with
//! blocking receive and exactly-once delivery per message, taken from the
//! `crossbeam_channel` crate.

use vstd::prelude::*;

use crate::thread_pool::Action;

verus! {

/// `crossbeam_channel::Sender`, declared so that it can stand in fields and
/// signatures.  The value is opaque; every operation on it goes through one
/// of the trusted functions below.
#[verifier::external_type_specification]
#[verifier::external_body]
#[verifier::reject_recursive_types(T)]
pub struct ExSender<T>(crossbeam_channel::Sender<T>);

/// `crossbeam_channel::Receiver`, declared like the sender.  It is shared by
/// every worker (the endpoint serializes concurrent receives internally, so
/// no message is ever handed to two workers).
#[verifier::external_type_specification]
#[verifier::external_body]
#[verifier::reject_recursive_types(T)]
pub struct ExReceiver<T>(crossbeam_channel::Receiver<T>);

/// Relies on `crossbeam_channel::unbounded`: a fresh first-in-first-out
/// channel of unbounded capacity; sends on it never block.
#[verifier::external_body]
pub(crate) fn action_channel() -> (crossbeam_channel::Sender<Action>, crossbeam_channel::Receiver<
    Action,
>) {
    crossbeam_channel::unbounded()
}

/// Relies on `crossbeam_channel::Sender::send`: enqueues the message without
/// blocking.  Sending fails only when every receive endpoint is gone, which
/// the pool's lifecycle rules out while a handle exists; that case is a fatal
/// internal invariant violation, and this call then panics as the queue
/// user's `unwrap` would.
#[verifier::external_body]
pub(crate) fn send_action(sender: &crossbeam_channel::Sender<Action>, action: Action) {
    sender.send(action).unwrap()
}

/// Relies on `crossbeam_channel::Sender::clone`: the clone sends into the
/// very same channel.
pub assume_specification<T>[ <crossbeam_channel::Sender<T> as std::clone::Clone>::clone ](
    sender: &crossbeam_channel::Sender<T>,
) -> crossbeam_channel::Sender<T>;

/// Relies on `crossbeam_channel::Receiver::recv`: blocks until a message is
/// available and hands it to exactly one caller (`Some`), or reports that the
/// channel is empty and every sender is gone (`None`).
#[verifier::external_body]
pub(crate) fn recv_action(receiver: &crossbeam_channel::Receiver<Action>) -> Option<Action> {
    match receiver.recv() {
        Ok(action) => Some(action),
        Err(_) => None,
    }
}

} // verus!
