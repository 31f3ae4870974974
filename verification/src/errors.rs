//! The error taxonomy of the semaphore.
//!
//! Every failure is returned to the caller; nothing is retried or swallowed
//! inside the core. Partial store-side effects (an entry already pushed, a
//! head already popped, an expiry already refreshed) are never rolled back.

use vstd::prelude::*;

verus! {

/// Why an acquire or release call failed.
#[derive(Debug, PartialEq, Eq)]
pub enum SemaphoreError {
    /// A connection to the shared store could not be established or used.
    Connection(String),
    /// The observed queue position exceeded the configured ceiling.
    /// Terminal for that acquire call; the identity stays queued and the
    /// caller must still release it.
    MaxPositionExceeded { position: u32, max_position: u32 },
    /// A single store command (push, pop, expiry, position lookup) failed.
    StoreCommand(String),
    /// Joining one of the two concurrent release sub-operations failed.
    TaskJoin(String),
}

} // verus!
