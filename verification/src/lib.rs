//! A distributed counting semaphore backed by a shared ordered queue.
//!
//! Clients bound concurrent access to a resource across independent processes
//! by joining a single ordered queue held in a shared key-value store. An
//! entry's 0-indexed rank in the queue decides everything: ranks below the
//! configured capacity hold a slot, the rest wait, polling with an adaptive
//! backoff, and an optional ceiling on tolerated queue depth turns a hopeless
//! wait into an error.
//!
//! This crate holds the verified core of the protocol: the admission decision
//! taken after each poll, the backoff estimation, the fallback applied when a
//! position lookup finds nothing, and a model of the queue operations the
//! store must provide (atomic append, first-match rank lookup, head pop,
//! expiry refresh). The store round-trips themselves, and the task plumbing
//! that drives the poll loop and the two concurrent release legs, live in the
//! surrounding (unverified) driver code, which feeds observed positions in and
//! carries the decisions out.

pub mod admission;
pub mod backoff;
pub mod errors;
pub mod laws;
pub mod store;
