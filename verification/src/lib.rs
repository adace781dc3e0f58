//! A fixed-size, self-healing worker pool for short-lived parallel jobs, and
//! the link-dispatch logic built on top of it.
//!
//! The pool executes arbitrary submitted jobs on a constant number of worker
//! threads, survives a job terminating abnormally without shrinking or
//! corrupting its shared state, and offers a blocking barrier (`join`) that
//! waits until all submitted work has drained.  The counter protocol the
//! workers follow is stated and proved over a mathematical model in [`model`].
//!
//! Around the pool sit the pieces of a small file-linking utility: a plain
//! configuration type, path transformation, the rewrite-policy check for each
//! (source, target) pair, and the dispatcher that turns a list of pairs into
//! filtered, submitted jobs plus a blocking wait for their completion.

pub mod checker;
pub mod config;
pub mod ctx;
pub mod error;
pub mod event;
pub mod host;
pub mod job;
pub mod link_transform;
pub mod linker;
pub mod model;
pub mod queue;
pub mod read_config;
pub mod sentinel;
pub mod thread_pool;
