//! A model of the shared ordered queue that the store must provide.
//!
//! The protocol relies on four single-key commands with atomic semantics:
//! append an entry and report the new length, look up the 0-indexed rank of an
//! entry's first occurrence, pop up to a count of entries from the head, and
//! refresh the key's time-to-live. `StoreQueue` realises exactly those
//! semantics over one queue, so the admission and release logic can be stated
//! and proved against them; a real deployment runs the same commands against a
//! shared store.

use vstd::prelude::*;

verus! {

/// The abstract state of one queue: its entries, head first, and the
/// time-to-live currently set on its key (`None` when none is set).
pub struct StoreModel {
    pub entries: Seq<Seq<char>>,
    pub ttl_seconds: Option<u64>,
}

/// The 0-indexed rank of the first occurrence of `id`, scanning from the head;
/// `None` when `id` does not occur.
pub open spec fn first_match(entries: Seq<Seq<char>>, id: Seq<char>) -> Option<int>
    decreases entries.len(),
{
    if entries.len() == 0 {
        Option::None
    } else if entries[0] == id {
        Option::Some(0)
    } else {
        match first_match(entries.skip(1), id) {
            Option::Some(i) => Option::Some(i + 1),
            Option::None => Option::None,
        }
    }
}

/// What remains of the entries after popping up to `count` from the head.
pub open spec fn remaining_entries(entries: Seq<Seq<char>>, count: int) -> Seq<Seq<char>> {
    if count >= entries.len() {
        Seq::empty()
    } else {
        entries.skip(count)
    }
}

/// The entries that popping up to `count` from the head removes.
pub open spec fn popped_entries(entries: Seq<Seq<char>>, count: int) -> Seq<Seq<char>> {
    if count >= entries.len() {
        entries
    } else {
        entries.take(count)
    }
}

/// The state after an expiry refresh: the entries untouched, the time-to-live
/// reset to `seconds`.
pub open spec fn refreshed_model(m: StoreModel, seconds: u64) -> StoreModel {
    StoreModel { entries: m.entries, ttl_seconds: Option::Some(seconds) }
}

/// A first match at rank `i` means: `id` stands at `i` and nowhere earlier.
pub proof fn lemma_first_match_found(entries: Seq<Seq<char>>, id: Seq<char>, i: int)
    requires
        0 <= i < entries.len(),
        entries[i] == id,
        forall|j: int| 0 <= j < i ==> entries[j] != id,
    ensures
        first_match(entries, id) == Option::Some(i),
    decreases i,
{
    if i == 0 {
    } else {
        assert(entries[0] != id);
        let rest = entries.skip(1);
        assert(rest[i - 1] == entries[i]);
        assert(forall|j: int| 0 <= j < i - 1 ==> rest[j] == entries[j + 1] && rest[j] != id);
        lemma_first_match_found(rest, id, i - 1);
    }
}

/// When `id` occurs nowhere, there is no first match.
pub proof fn lemma_first_match_absent(entries: Seq<Seq<char>>, id: Seq<char>)
    requires
        forall|j: int| 0 <= j < entries.len() ==> entries[j] != id,
    ensures
        first_match(entries, id) is None,
    decreases entries.len(),
{
    if entries.len() > 0 {
        let rest = entries.skip(1);
        assert(forall|j: int| 0 <= j < rest.len() ==> rest[j] == entries[j + 1] && rest[j] != id);
        lemma_first_match_absent(rest, id);
    }
}

/// One shared ordered queue with the store's command semantics.
pub struct StoreQueue {
    entries: Vec<String>,
    ttl_seconds: Option<u64>,
}

impl View for StoreQueue {
    type V = StoreModel;

    closed spec fn view(&self) -> StoreModel {
        StoreModel {
            entries: self.entries@.map_values(|s: String| s@),
            ttl_seconds: self.ttl_seconds,
        }
    }
}

impl StoreQueue {
    /// An empty queue whose key carries no time-to-live yet.
    pub fn new() -> (q: StoreQueue)
        ensures
            q@.entries == Seq::<Seq<char>>::empty(),
            q@.ttl_seconds is None,
    {
        let q = StoreQueue { entries: Vec::new(), ttl_seconds: Option::None };
        proof {
            assert(q@.entries =~= Seq::<Seq<char>>::empty());
        }
        q
    }

    /// Atomic append: push `id` onto the tail and report the resulting length.
    pub fn rpush(&mut self, id: &String) -> (len: usize)
        ensures
            final(self)@.entries == old(self)@.entries.push(id@),
            final(self)@.ttl_seconds == old(self)@.ttl_seconds,
            len == final(self)@.entries.len(),
    {
        self.entries.push(id.clone());
        proof {
            assert(self@.entries =~= old(self)@.entries.push(id@));
        }
        self.entries.len()
    }

    /// The 0-indexed rank of the first occurrence of `id`, or `None` when it
    /// is not queued.
    pub fn lpos(&self, id: &String) -> (r: Option<usize>)
        ensures
            match r {
                Option::Some(i) => first_match(self@.entries, id@) == Option::Some(i as int),
                Option::None => first_match(self@.entries, id@) is None,
            },
    {
        let n = self.entries.len();
        let mut i: usize = 0;
        while i < n
            invariant
                n == self.entries.len(),
                i <= n,
                forall|j: int| 0 <= j < i ==> self@.entries[j] != id@,
            decreases n - i,
        {
            if self.entries[i] == *id {
                proof {
                    lemma_first_match_found(self@.entries, id@, i as int);
                }
                return Option::Some(i);
            }
            i = i + 1;
        }
        proof {
            lemma_first_match_absent(self@.entries, id@);
        }
        Option::None
    }

    /// Pop up to `count` entries from the head and hand them out, head first.
    pub fn lpop(&mut self, count: usize) -> (popped: Vec<String>)
        ensures
            final(self)@.entries == remaining_entries(old(self)@.entries, count as int),
            final(self)@.ttl_seconds == old(self)@.ttl_seconds,
            popped@.map_values(|s: String| s@) == popped_entries(old(self)@.entries, count as int),
    {
        let mut popped: Vec<String> = Vec::new();
        let n = if count < self.entries.len() {
            count
        } else {
            self.entries.len()
        };
        let mut k: usize = 0;
        while k < n
            invariant
                k <= n,
                n <= old(self).entries@.len(),
                n == if count < old(self).entries@.len() {
                    count as int
                } else {
                    old(self).entries@.len() as int
                },
                self.entries@ == old(self).entries@.skip(k as int),
                popped@ == old(self).entries@.take(k as int),
                self.ttl_seconds == old(self).ttl_seconds,
            decreases n - k,
        {
            let e = self.entries.remove(0);
            popped.push(e);
            proof {
                assert(self.entries@ =~= old(self).entries@.skip(k as int + 1));
                assert(popped@ =~= old(self).entries@.take(k as int + 1));
            }
            k = k + 1;
        }
        proof {
            if count as int >= old(self)@.entries.len() {
                assert(self.entries@ =~= Seq::<String>::empty());
                assert(self@.entries =~= Seq::<Seq<char>>::empty());
                assert(popped@ =~= old(self).entries@);
                assert(popped@.map_values(|s: String| s@) =~= old(self)@.entries);
            } else {
                assert(self@.entries =~= old(self)@.entries.skip(count as int));
                assert(popped@.map_values(|s: String| s@) =~= old(self)@.entries.take(
                    count as int,
                ));
            }
        }
        popped
    }

    /// Set or refresh the key's time-to-live: the entries are untouched and
    /// the time-to-live is `seconds`, whatever it was before.
    pub fn expire(&mut self, seconds: u64)
        ensures
            final(self)@ == refreshed_model(old(self)@, seconds),
    {
        self.ttl_seconds = Option::Some(seconds);
        proof {
            assert(self@.entries =~= old(self)@.entries);
        }
    }

    /// The time-to-live currently set on the key, if any.
    pub fn ttl(&self) -> (t: Option<u64>)
        ensures
            t == self@.ttl_seconds,
    {
        self.ttl_seconds
    }

    /// The release step's effect on the queue: pop one entry from the head and
    /// refresh the key's time-to-live. The two commands are independent; a
    /// real deployment may issue them concurrently over separate connections,
    /// and this is their combined effect in either order.
    pub fn release(&mut self, expiry_seconds: u64)
        ensures
            final(self)@.entries == remaining_entries(old(self)@.entries, 1),
            final(self)@.ttl_seconds == Option::Some(expiry_seconds),
    {
        let _popped = self.lpop(1);
        self.expire(expiry_seconds);
    }
}

} // verus!
