//! Blocks that workers hold and that nobody may own any more.

use crate::clock;
use crate::ids::{BlockId, WorkerId};
use vstd::prelude::*;

verus! {

/// How long a suspicion has to stand before it is acted on, unless told otherwise.
pub const DEFAULT_MIN_AGE_MS: u64 = 60_000;

/// A block of a worker that is suspected since a time.
#[derive(Clone, Copy, Debug, PartialEq, Eq, Structural)]
pub struct OrphanEntry {
    pub block_id: BlockId,
    pub worker_id: WorkerId,
    pub added_ms: u64,
}

/// Suspected blocks, in the order in which they came, each of a worker once.
#[derive(Debug)]
pub struct OrphanQueue {
    pub entries: Vec<OrphanEntry>,
    pub capacity: usize,
    pub min_age_ms: u64,
}

/// The block of the worker is in the list.
pub open spec fn suspected(entries: Seq<OrphanEntry>, block_id: BlockId, worker_id: WorkerId) -> bool {
    exists|i: int|
        0 <= i < entries.len() && (#[trigger] entries[i]).block_id == block_id && entries[i].worker_id == worker_id
}

/// No block of a worker stands in the list twice.
pub open spec fn suspected_once(entries: Seq<OrphanEntry>) -> bool {
    forall|i: int, j: int|
        0 <= i < j < entries.len() ==> !((#[trigger] entries[i]).block_id == (#[trigger] entries[j]).block_id
            && entries[i].worker_id == entries[j].worker_id)
}

/// The suspicion has stood long enough.
pub open spec fn old_enough(entry: OrphanEntry, min_age_ms: u64, now_ms: u64) -> bool {
    now_ms - entry.added_ms >= min_age_ms || (min_age_ms == 0 && now_ms < entry.added_ms)
}

/// How many suspicions have stood long enough.
pub open spec fn eligible(entries: Seq<OrphanEntry>, min_age_ms: u64, now_ms: u64) -> nat
    decreases entries.len(),
{
    if entries.len() == 0 {
        0
    } else {
        eligible(entries.drop_last(), min_age_ms, now_ms) + if old_enough(entries.last(), min_age_ms, now_ms) {
            1nat
        } else {
            0nat
        }
    }
}

/// The list once the block of the worker has been reported: one that is there already keeps its
/// time, and a full list takes no more.
pub open spec fn reported(entries: Seq<OrphanEntry>, capacity: usize, entry: OrphanEntry) -> Seq<OrphanEntry> {
    if suspected(entries, entry.block_id, entry.worker_id) || entries.len() >= capacity {
        entries
    } else {
        entries.push(entry)
    }
}

/// What taking a suspicion gives: the oldest, once it has stood long enough.
pub open spec fn taken(entries: Seq<OrphanEntry>, min_age_ms: u64, now_ms: u64) -> Option<(BlockId, WorkerId)> {
    if entries.len() > 0 && old_enough(entries[0], min_age_ms, now_ms) {
        Some((entries[0].block_id, entries[0].worker_id))
    } else {
        None
    }
}

fn is_old_enough(entry: &OrphanEntry, min_age_ms: u64, now_ms: u64) -> (old: bool)
    ensures
        old == old_enough(*entry, min_age_ms, now_ms),
{
    let age: u64 = if now_ms >= entry.added_ms {
        now_ms - entry.added_ms
    } else {
        0
    };
    age >= min_age_ms
}

impl OrphanQueue {
    /// What holds of the queue at all times.
    pub open spec fn inv(&self) -> bool {
        suspected_once(self.entries@) && self.entries@.len() <= self.capacity
    }

    pub fn new(capacity: usize) -> (queue: Self)
        ensures
            queue.inv(),
            queue.entries@.len() == 0,
            queue.capacity == capacity,
            queue.min_age_ms == DEFAULT_MIN_AGE_MS,
    {
        Self::with_config(capacity, DEFAULT_MIN_AGE_MS)
    }

    pub fn with_config(capacity: usize, min_age_ms: u64) -> (queue: Self)
        ensures
            queue.inv(),
            queue.entries@.len() == 0,
            queue.capacity == capacity,
            queue.min_age_ms == min_age_ms,
    {
        OrphanQueue { entries: Vec::new(), capacity, min_age_ms }
    }

    /// Reports a block of a worker, at this time.
    pub fn add_at(&mut self, block_id: BlockId, worker_id: WorkerId, now_ms: u64)
        requires
            old(self).inv(),
        ensures
            final(self).inv(),
            final(self).capacity == old(self).capacity,
            final(self).min_age_ms == old(self).min_age_ms,
            final(self).entries@ == reported(
                old(self).entries@,
                old(self).capacity,
                (OrphanEntry { block_id, worker_id, added_ms: now_ms }),
            ),
    {
        let mut i: usize = 0;
        while i < self.entries.len()
            invariant
                i <= self.entries@.len(),
                *self == *old(self),
                self.inv(),
                forall|j: int|
                    0 <= j < i ==> !((#[trigger] self.entries@[j]).block_id == block_id && self.entries@[j].worker_id
                        == worker_id),
            decreases self.entries@.len() - i,
        {
            if self.entries[i].block_id == block_id && self.entries[i].worker_id == worker_id {
                return;
            }
            i += 1;
        }
        if self.entries.len() < self.capacity {
            self.entries.push(OrphanEntry { block_id, worker_id, added_ms: now_ms });
        }
    }

    /// Reports a block of a worker.
    pub fn add(&mut self, block_id: BlockId, worker_id: WorkerId)
        requires
            old(self).inv(),
        ensures
            final(self).inv(),
            final(self).capacity == old(self).capacity,
            final(self).min_age_ms == old(self).min_age_ms,
            exists|now_ms: u64|
                final(self).entries@ == #[trigger] reported(
                    old(self).entries@,
                    old(self).capacity,
                    (OrphanEntry { block_id, worker_id, added_ms: now_ms }),
                ),
    {
        let now_ms: u64 = clock::unix_millis();
        self.add_at(block_id, worker_id, now_ms);
    }

    /// Takes the oldest suspicion, where it has stood long enough at this time.
    pub fn dequeue_at(&mut self, now_ms: u64) -> (orphan: Option<(BlockId, WorkerId)>)
        requires
            old(self).inv(),
        ensures
            final(self).inv(),
            final(self).capacity == old(self).capacity,
            final(self).min_age_ms == old(self).min_age_ms,
            orphan == taken(old(self).entries@, old(self).min_age_ms, now_ms),
            final(self).entries@ == (if orphan is Some {
                old(self).entries@.skip(1)
            } else {
                old(self).entries@
            }),
    {
        if self.entries.len() == 0 || !is_old_enough(&self.entries[0], self.min_age_ms, now_ms) {
            return None;
        }
        let entry = self.entries.remove(0);
        assert(self.entries@ =~= old(self).entries@.skip(1));
        Some((entry.block_id, entry.worker_id))
    }

    /// Takes the oldest suspicion, where it has stood long enough.
    pub fn dequeue(&mut self) -> (orphan: Option<(BlockId, WorkerId)>)
        requires
            old(self).inv(),
        ensures
            final(self).inv(),
            final(self).capacity == old(self).capacity,
            final(self).min_age_ms == old(self).min_age_ms,
            exists|now_ms: u64| orphan == #[trigger] taken(old(self).entries@, old(self).min_age_ms, now_ms),
            final(self).entries@ == (if orphan is Some {
                old(self).entries@.skip(1)
            } else {
                old(self).entries@
            }),
    {
        let now_ms: u64 = clock::unix_millis();
        self.dequeue_at(now_ms)
    }

    /// The oldest suspicion.
    pub fn peek_oldest(&self) -> (orphan: Option<(BlockId, WorkerId)>)
        ensures
            orphan == (if self.entries@.len() > 0 {
                Some((self.entries@[0].block_id, self.entries@[0].worker_id))
            } else {
                None
            }),
    {
        if self.entries.len() == 0 {
            None
        } else {
            Some((self.entries[0].block_id, self.entries[0].worker_id))
        }
    }

    pub fn len(&self) -> (n: usize)
        ensures
            n == self.entries@.len(),
    {
        self.entries.len()
    }

    /// How many suspicions have stood long enough at this time.
    pub fn len_eligible_at(&self, now_ms: u64) -> (n: usize)
        ensures
            n == eligible(self.entries@, self.min_age_ms, now_ms),
    {
        let mut n: usize = 0;
        let mut i: usize = 0;
        assert(self.entries@.take(0) =~= Seq::<OrphanEntry>::empty());
        while i < self.entries.len()
            invariant
                i <= self.entries@.len(),
                n <= i,
                n == eligible(self.entries@.take(i as int), self.min_age_ms, now_ms),
            decreases self.entries@.len() - i,
        {
            assert(self.entries@.take(i + 1).drop_last() =~= self.entries@.take(i as int));
            if is_old_enough(&self.entries[i], self.min_age_ms, now_ms) {
                n += 1;
            }
            i += 1;
        }
        assert(self.entries@.take(i as int) =~= self.entries@);
        n
    }

    /// How many suspicions have stood long enough.
    pub fn len_eligible(&self) -> (n: usize)
        ensures
            exists|now_ms: u64| n == #[trigger] eligible(self.entries@, self.min_age_ms, now_ms),
    {
        let now_ms: u64 = clock::unix_millis();
        self.len_eligible_at(now_ms)
    }
}

/// Reporting a block of a worker a second time changes nothing.
pub proof fn law_orphans_are_suspected_once(
    entries: Seq<OrphanEntry>,
    capacity: usize,
    block_id: BlockId,
    worker_id: WorkerId,
    first_ms: u64,
    second_ms: u64,
)
    ensures
        reported(
            reported(entries, capacity, OrphanEntry { block_id, worker_id, added_ms: first_ms }),
            capacity,
            OrphanEntry { block_id, worker_id, added_ms: second_ms },
        ) == reported(entries, capacity, OrphanEntry { block_id, worker_id, added_ms: first_ms }),
{
    let once = reported(entries, capacity, OrphanEntry { block_id, worker_id, added_ms: first_ms });
    if !suspected(entries, block_id, worker_id) && entries.len() < capacity {
        assert(once.last().block_id == block_id);
        assert(suspected(once, block_id, worker_id));
    }
}

/// No suspicion is acted on before it has stood for the time that was set.
pub proof fn law_orphans_wait(entries: Seq<OrphanEntry>, min_age_ms: u64, now_ms: u64)
    requires
        taken(entries, min_age_ms, now_ms) is Some,
    ensures
        min_age_ms == 0 || now_ms >= entries[0].added_ms + min_age_ms,
{
}

} // verus!
