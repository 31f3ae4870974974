//! The protocol's guarantees, stated and proved over the store model and the
//! admission decision.
//!
//! Backoff monotonicity and its floor live beside the backoff estimation in
//! `crate::backoff`; the laws here tie queue ranks to poll verdicts.

use vstd::prelude::*;

use crate::admission::PollAction;
use crate::admission::poll_verdict;
use crate::errors::SemaphoreError;
use crate::store::StoreModel;
use crate::store::first_match;
use crate::store::lemma_first_match_found;
use crate::store::refreshed_model;
use crate::store::remaining_entries;

verus! {

/// No identity occurs twice among `ids`.
pub open spec fn pairwise_distinct(ids: Seq<Seq<char>>) -> bool {
    forall|i: int, j: int| 0 <= i < j < ids.len() ==> ids[i] != ids[j]
}

/// Admission order. When distinct identities are pushed in order onto an empty
/// queue, each one's first-match rank is exactly its push rank, and the poll
/// verdict at that rank admits precisely the first `capacity` of them: the
/// ones pushed below capacity are admitted at once, the rest observe a
/// position at or past capacity and are not admitted at that poll.
pub proof fn lemma_admission_order(
    ids: Seq<Seq<char>>,
    k: int,
    capacity: u32,
    max_position: u32,
    base_millis: u64,
)
    requires
        pairwise_distinct(ids),
        0 <= k < ids.len(),
        ids.len() <= u32::MAX,
        capacity >= 1,
    ensures
        first_match(ids, ids[k]) == Option::Some(k),
        k < capacity ==> poll_verdict(k as u32, capacity, max_position, base_millis) == Result::<
            PollAction,
            SemaphoreError,
        >::Ok(PollAction::Admitted),
        k >= capacity ==> !(poll_verdict(k as u32, capacity, max_position, base_millis) matches Ok(
            a,
        ) && a is Admitted),
{
    lemma_first_match_found(ids, ids[k], k);
}

/// The length returned by an atomic append overstates the new entry's rank by
/// exactly one: an identity not yet queued that is pushed onto a queue of
/// length `n` gets rank `n`, while the append reports `n + 1`. Treating the
/// raw length as the first position is therefore conservative: it never makes
/// a waiter look closer to the head than it is.
pub proof fn lemma_push_rank(entries: Seq<Seq<char>>, id: Seq<char>)
    requires
        forall|j: int| 0 <= j < entries.len() ==> entries[j] != id,
    ensures
        first_match(entries.push(id), id) == Option::Some(entries.len() as int),
{
    let pushed = entries.push(id);
    assert(forall|j: int| 0 <= j < entries.len() ==> pushed[j] == entries[j]);
    lemma_first_match_found(pushed, id, entries.len() as int);
}

/// Bound enforcement. A waiting position past a positive ceiling is rejected
/// with exactly that position and that ceiling; with the ceiling disabled
/// (`max_position == 0`) no position, however large, is ever rejected.
pub proof fn lemma_bound_enforcement(
    position: u32,
    capacity: u32,
    max_position: u32,
    base_millis: u64,
)
    ensures
        (position >= capacity && max_position > 0 && position > max_position) ==> poll_verdict(
            position,
            capacity,
            max_position,
            base_millis,
        ) == Result::<PollAction, SemaphoreError>::Err(
            SemaphoreError::MaxPositionExceeded { position, max_position },
        ),
        max_position == 0 ==> !(poll_verdict(position, capacity, max_position, base_millis)
            is Err),
{
}

/// A release frees a slot. With capacity 1, a holder at the head and one
/// distinct waiter behind it: the waiter's rank is 1, so it waits (it is
/// neither admitted nor rejected); after one head pop, only the waiter
/// remains, its rank is 0, and it is admitted.
pub proof fn lemma_release_frees_slot(
    holder: Seq<char>,
    waiter: Seq<char>,
    max_position: u32,
    base_millis: u64,
)
    requires
        holder != waiter,
    ensures
        first_match(seq![holder, waiter], waiter) == Option::Some(1int),
        poll_verdict(1, 1, max_position, base_millis) matches Ok(a) && a matches
            PollAction::Wait { .. },
        remaining_entries(seq![holder, waiter], 1) == seq![waiter],
        first_match(seq![waiter], waiter) == Option::Some(0int),
        poll_verdict(0, 1, max_position, base_millis) == Result::<
            PollAction,
            SemaphoreError,
        >::Ok(PollAction::Admitted),
{
    let q = seq![holder, waiter];
    assert(q[0] == holder);
    assert(q[1] == waiter);
    lemma_first_match_found(q, waiter, 1);
    assert(remaining_entries(q, 1) =~= seq![waiter]);
    assert(seq![waiter][0] == waiter);
}

/// Refreshing the expiry is total and idempotent: it never fails, it always
/// resets the time-to-live to the given value whatever the queue holds, and
/// refreshing an already refreshed state changes nothing.
pub proof fn lemma_expire_refresh_idempotent(m: StoreModel, seconds: u64)
    ensures
        refreshed_model(m, seconds).entries == m.entries,
        refreshed_model(m, seconds).ttl_seconds == Option::Some(seconds),
        refreshed_model(refreshed_model(m, seconds), seconds) == refreshed_model(m, seconds),
{
}

} // verus!
