//! The admission decision of the acquire protocol.
//!
//! After joining the queue, a caller repeatedly observes its position and asks
//! one question: am I admitted, rejected, or still waiting? `poll_step`
//! answers it. The very first observation is the raw 1-based queue length
//! returned by the atomic append; every later one is the 0-indexed rank
//! reported by the store's first-match lookup, with a fixed fallback when the
//! identity is not found. The driver around this core performs the store
//! round-trips and the sleeps; the decisions are all taken here.

use vstd::prelude::*;

use crate::backoff::backoff_millis;
use crate::backoff::estimate_appropriate_sleep_duration;
use crate::errors::SemaphoreError;

verus! {

/// What the acquire loop should do after observing a queue position.
#[derive(Clone, Copy, Debug, PartialEq, Eq, Structural)]
pub enum PollAction {
    /// The position is within capacity: the caller now holds a slot.
    Admitted,
    /// Still waiting: suspend for this many milliseconds, then poll again.
    Wait { sleep_millis: u64 },
}

/// The caller-supplied configuration of one semaphore, immutable for the
/// duration of one acquire/release pair. The connection target for the store
/// belongs to the unverified driver and is not part of this bundle.
pub struct SemaphoreConfig {
    /// Name of the shared ordered queue in the store. The same key names the
    /// same semaphore, across processes.
    pub queue_key: String,
    /// This requester's queue entry, unique per outstanding request.
    pub id: String,
    /// Number of concurrently admitted holders; positive.
    pub capacity: u32,
    /// Largest tolerated queue position before acquire fails; 0 disables the
    /// ceiling.
    pub max_position: u32,
    /// Baseline poll interval, in milliseconds, from which backoff is derived.
    pub base_sleep_millis: u64,
    /// Time-to-live, in seconds, that a release puts back on the queue key.
    pub expiry_seconds: u64,
}

/// The decision taken after observing `position`, as a function of the
/// configuration alone: admitted below `capacity`; rejected past a positive
/// `max_position` (carrying the offending position and the bound); otherwise
/// wait for the estimated backoff.
pub open spec fn poll_verdict(
    position: u32,
    capacity: u32,
    max_position: u32,
    base_millis: u64,
) -> Result<PollAction, SemaphoreError> {
    if position < capacity {
        Ok(PollAction::Admitted)
    } else if max_position > 0 && position > max_position {
        Err(SemaphoreError::MaxPositionExceeded { position, max_position })
    } else {
        Ok(PollAction::Wait { sleep_millis: backoff_millis(position, capacity, base_millis) })
    }
}

/// The position assumed after a lookup: the reported 0-indexed rank, or 1 when
/// the identity was not found. The fallback means "assume still waiting, not
/// yet admitted"; it is not a precise position.
pub open spec fn fallback_position(found: Option<u32>) -> u32 {
    match found {
        Option::Some(i) => i,
        Option::None => 1,
    }
}

/// Turn the store's first-match lookup result into the position the next poll
/// decides on, applying the not-found fallback.
pub fn position_after_lookup(found: Option<u32>) -> (p: u32)
    ensures
        p == fallback_position(found),
{
    match found {
        Option::Some(i) => i,
        Option::None => 1,
    }
}

impl SemaphoreConfig {
    /// A well-formed configuration admits at least one holder.
    pub open spec fn wf(&self) -> bool {
        self.capacity >= 1
    }

    /// Decide what the acquire loop does after observing `position`: exactly
    /// `poll_verdict`. Admission is checked first, so a position within
    /// capacity is admitted even when it also lies past the ceiling; the
    /// ceiling is ignored entirely when `max_position` is 0.
    pub fn poll_step(&self, position: u32) -> (r: Result<PollAction, SemaphoreError>)
        requires
            self.wf(),
        ensures
            r == poll_verdict(position, self.capacity, self.max_position, self.base_sleep_millis),
            (r matches Ok(a) && a is Admitted) <==> position < self.capacity,
            r is Err <==> (position >= self.capacity && self.max_position > 0 && position
                > self.max_position),
    {
        if position < self.capacity {
            Ok(PollAction::Admitted)
        } else if self.max_position > 0 && position > self.max_position {
            Err(SemaphoreError::MaxPositionExceeded {
                position,
                max_position: self.max_position,
            })
        } else {
            let sleep_millis = estimate_appropriate_sleep_duration(
                position,
                self.capacity,
                self.base_sleep_millis,
            );
            Ok(PollAction::Wait { sleep_millis })
        }
    }
}

} // verus!
