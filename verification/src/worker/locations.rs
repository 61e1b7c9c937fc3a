//! The index from blocks to the workers that hold them.

use crate::ids::{BlockId, GroupName, WorkerId};
use crate::table::{Table, TableKey};
use crate::worker::types::{BlockLocationKey, BlockReportBlock, BlockReportBlockState, WorkerRegistrationKey};
use vstd::prelude::*;

verus! {

/// Blocks of a report by their identity.
pub type BlockTable = Table<BlockId, BlockReportBlock>;

/// Workers by block.
pub type BlockLocations = Table<BlockLocationKey, Vec<WorkerRegistrationKey>>;

/// The blocks that are ready.
pub open spec fn ready(blocks: Map<BlockId, BlockReportBlock>) -> Set<BlockId> {
    Set::new(|b: BlockId| blocks.contains_key(b) && blocks[b].block_state == BlockReportBlockState::Ready)
}

/// Every block stands under its own identity.
pub open spec fn self_keyed(blocks: Map<BlockId, BlockReportBlock>) -> bool {
    forall|b: BlockId| #[trigger] blocks.contains_key(b) ==> blocks[b].block_id == b
}

/// `worker` stands in the list.
pub open spec fn listed(workers: Seq<WorkerRegistrationKey>, worker: (Seq<char>, WorkerId)) -> bool {
    exists|i: int| 0 <= i < workers.len() && #[trigger] workers[i]@ == worker
}

/// The index names `worker` as a holder of `block`.
pub open spec fn holds(
    index: Map<(Seq<char>, BlockId), Vec<WorkerRegistrationKey>>,
    block: (Seq<char>, BlockId),
    worker: (Seq<char>, WorkerId),
) -> bool {
    index.contains_key(block) && listed(index[block]@, worker)
}

/// No worker is listed twice.
pub open spec fn distinct_workers(workers: Seq<WorkerRegistrationKey>) -> bool {
    forall|i: int, j: int| 0 <= i < j < workers.len() ==> #[trigger] workers[i]@ != #[trigger] workers[j]@
}

/// No block stands in the index without a holder, and no holder stands twice.
pub open spec fn tidy(index: Map<(Seq<char>, BlockId), Vec<WorkerRegistrationKey>>) -> bool {
    forall|b: (Seq<char>, BlockId)|
        #[trigger]
        index.contains_key(b) ==> index[b]@.len() > 0 && distinct_workers(index[b]@)
}

/// The identities of the ready blocks, each once, in no promised order.
pub fn ready_block_ids(blocks: &BlockTable) -> (ids: Vec<BlockId>)
    requires
        self_keyed(blocks@),
    ensures
        ids@.no_duplicates(),
        ids@.to_set() == ready(blocks@),
{
    let mut ids: Vec<BlockId> = Vec::new();
    let rows = blocks.rows();
    let mut i: usize = 0;
    while i < rows.len()
        invariant
            i <= rows@.len(),
            rows@ == blocks.spec_rows(),
            crate::table::distinct_keys(rows@),
            blocks@ == crate::table::rows_map(rows@),
            self_keyed(blocks@),
            ids@.no_duplicates(),
            forall|b: BlockId| #[trigger]
                ids@.contains(b) <==> exists|j: int|
                    0 <= j < i && (#[trigger] rows@[j]).0 == b && rows@[j].1.block_state
                        == BlockReportBlockState::Ready,
        decreases rows@.len() - i,
    {
        let ghost before = ids@;
        proof {
            crate::table::lemma_row_in_map(rows@, i as int);
        }
        if rows[i].1.block_state == BlockReportBlockState::Ready {
            let id = rows[i].0;
            proof {
                if before.contains(id) {
                    let j = choose|j: int|
                        0 <= j < i && (#[trigger] rows@[j]).0 == id && rows@[j].1.block_state
                            == BlockReportBlockState::Ready;
                    assert(rows@[j].0@ != rows@[i as int].0@);
                }
            }
            ids.push(id);
            proof {
                assert forall|b: BlockId| #[trigger]
                    ids@.contains(b) <==> exists|j: int|
                        0 <= j < i + 1 && (#[trigger] rows@[j]).0 == b && rows@[j].1.block_state
                            == BlockReportBlockState::Ready by {
                    if ids@.contains(b) {
                        let p = choose|p: int| 0 <= p < ids@.len() && ids@[p] == b;
                        if p < before.len() {
                            assert(before[p] == b);
                            assert(before.contains(b));
                        } else {
                            assert(rows@[i as int].0 == b);
                        }
                    }
                    if exists|j: int|
                        0 <= j < i + 1 && (#[trigger] rows@[j]).0 == b && rows@[j].1.block_state
                            == BlockReportBlockState::Ready {
                        let j = choose|j: int|
                            0 <= j < i + 1 && (#[trigger] rows@[j]).0 == b && rows@[j].1.block_state
                                == BlockReportBlockState::Ready;
                        if j < i {
                            assert(before.contains(b));
                            let p = choose|p: int| 0 <= p < before.len() && before[p] == b;
                            assert(ids@[p] == b);
                        } else {
                            assert(ids@[before.len() as int] == b);
                        }
                    }
                }
            }
        }
        i += 1;
    }
    proof {
        assert forall|b: BlockId| ids@.to_set().contains(b) == ready(blocks@).contains(b) by {
            if ready(blocks@).contains(b) {
                let j = crate::table::lemma_map_in_rows(rows@, b);
                assert(rows@[j].0 == b);
                assert(ids@.contains(b));
            }
            if ids@.contains(b) {
                let j = choose|j: int|
                    0 <= j < rows@.len() && (#[trigger] rows@[j]).0 == b && rows@[j].1.block_state
                        == BlockReportBlockState::Ready;
                crate::table::lemma_row_in_map(rows@, j);
            }
        }
        assert(ids@.to_set() =~= ready(blocks@));
    }
    ids
}

/// The members of `left` that are not in `right`, each once.
pub fn difference(left: &Vec<BlockId>, right: &Vec<BlockId>) -> (only_left: Vec<BlockId>)
    requires
        left@.no_duplicates(),
    ensures
        only_left@.no_duplicates(),
        only_left@.to_set() == left@.to_set().difference(right@.to_set()),
{
    let mut only_left: Vec<BlockId> = Vec::new();
    let mut i: usize = 0;
    while i < left.len()
        invariant
            i <= left@.len(),
            left@.no_duplicates(),
            only_left@.no_duplicates(),
            forall|b: BlockId| #[trigger]
                only_left@.contains(b) <==> left@.take(i as int).contains(b) && !right@.contains(b),
        decreases left@.len() - i,
    {
        let id = left[i];
        let found = contains_block(right, id);
        let ghost before = only_left@;
        proof {
            assert(left@.take(i + 1) =~= left@.take(i as int).push(id));
            assert(!left@.take(i as int).contains(id)) by {
                if left@.take(i as int).contains(id) {
                    let p = choose|p: int| 0 <= p < i && left@.take(i as int)[p] == id;
                    assert(left@[p] == left@[i as int]);
                }
            }
            vstd::seq_lib::lemma_seq_contains_after_push(left@.take(i as int), id, id);
        }
        if !found {
            assert(!before.contains(id));
            only_left.push(id);
        }
        proof {
            assert forall|b: BlockId| #[trigger]
                only_left@.contains(b) <==> left@.take(i + 1).contains(b) && !right@.contains(b) by {
                vstd::seq_lib::lemma_seq_contains_after_push(left@.take(i as int), id, b);
                vstd::seq_lib::lemma_seq_contains_after_push(before, id, b);
            }
        }
        i += 1;
    }
    proof {
        assert(left@.take(left@.len() as int) =~= left@);
        assert(only_left@.to_set() =~= left@.to_set().difference(right@.to_set()));
    }
    only_left
}

/// Whether the block stands in the list.
pub fn contains_block(ids: &Vec<BlockId>, id: BlockId) -> (found: bool)
    ensures
        found == ids@.contains(id),
{
    let mut i: usize = 0;
    while i < ids.len()
        invariant
            i <= ids@.len(),
            forall|j: int| 0 <= j < i ==> ids@[j] != id,
        decreases ids@.len() - i,
    {
        if ids[i] == id {
            return true;
        }
        i += 1;
    }
    false
}

/// Whether the worker stands in the list.
fn contains_worker(workers: &Vec<WorkerRegistrationKey>, worker: &WorkerRegistrationKey) -> (found: bool)
    ensures
        found == listed(workers@, worker@),
{
    let mut i: usize = 0;
    while i < workers.len()
        invariant
            i <= workers@.len(),
            forall|j: int| 0 <= j < i ==> (#[trigger] workers@[j])@ != worker@,
        decreases workers@.len() - i,
    {
        if workers[i].same_key(worker) {
            return true;
        }
        i += 1;
    }
    false
}

/// `k` stands among the first `n` workers and is not `worker`.
spec fn kept(
    workers: Seq<WorkerRegistrationKey>,
    n: int,
    worker: (Seq<char>, WorkerId),
    k: (Seq<char>, WorkerId),
) -> bool {
    k != worker && exists|p: int| 0 <= p < n && #[trigger] workers[p]@ == k
}

/// The list without one worker.
fn without_worker(workers: &Vec<WorkerRegistrationKey>, worker: &WorkerRegistrationKey) -> (rest: Vec<
    WorkerRegistrationKey,
>)
    requires
        distinct_workers(workers@),
    ensures
        distinct_workers(rest@),
        forall|k: (Seq<char>, WorkerId)| #[trigger] listed(rest@, k) <==> listed(workers@, k) && k != worker@,
{
    let mut rest: Vec<WorkerRegistrationKey> = Vec::new();
    let mut i: usize = 0;
    while i < workers.len()
        invariant
            i <= workers@.len(),
            distinct_workers(workers@),
            distinct_workers(rest@),
            forall|k: (Seq<char>, WorkerId)| #[trigger]
                listed(rest@, k) <==> kept(workers@, i as int, worker@, k),
        decreases workers@.len() - i,
    {
        let ghost before = rest@;
        let ghost next = workers@[i as int]@;
        if !workers[i].same_key(worker) {
            rest.push(workers[i].copy_key());
            proof {
                assert(!listed(before, next)) by {
                    if kept(workers@, i as int, worker@, next) {
                        let p = choose|p: int| 0 <= p < i && #[trigger] workers@[p]@ == next;
                        assert(workers@[p]@ != workers@[i as int]@);
                    }
                }
                assert forall|a: int, b: int| 0 <= a < b < rest@.len() implies #[trigger] rest@[a]@
                    != #[trigger] rest@[b]@ by {
                    if b == before.len() {
                        assert(before[a]@ == rest@[a]@);
                    } else {
                        assert(before[a]@ != before[b]@);
                    }
                }
            }
        }
        proof {
            assert forall|k: (Seq<char>, WorkerId)| #[trigger]
                listed(rest@, k) <==> kept(workers@, i + 1, worker@, k) by {
                if listed(rest@, k) {
                    let j = choose|j: int| 0 <= j < rest@.len() && #[trigger] rest@[j]@ == k;
                    if j < before.len() {
                        assert(before[j]@ == k);
                        assert(listed(before, k));
                        assert(kept(workers@, i as int, worker@, k));
                        let p = choose|p: int| 0 <= p < i && #[trigger] workers@[p]@ == k;
                        assert(workers@[p]@ == k);
                    } else {
                        assert(workers@[i as int]@ == k);
                    }
                }
                if kept(workers@, i + 1, worker@, k) {
                    let p = choose|p: int| 0 <= p < i + 1 && #[trigger] workers@[p]@ == k;
                    if p < i {
                        assert(kept(workers@, i as int, worker@, k));
                        assert(listed(before, k));
                        let j = choose|j: int| 0 <= j < before.len() && #[trigger] before[j]@ == k;
                        assert(rest@[j]@ == k);
                    } else {
                        assert(rest@[before.len() as int]@ == k);
                    }
                }
            }
        }
        i += 1;
    }
    rest
}

/// Takes one worker out as a holder of one block.
pub fn drop_holder(index: &mut BlockLocations, block: &BlockLocationKey, worker: &WorkerRegistrationKey)
    requires
        tidy(old(index)@),
    ensures
        tidy(final(index)@),
        forall|b: (Seq<char>, BlockId), k: (Seq<char>, WorkerId)| #[trigger]
            holds(final(index)@, b, k) <==> holds(old(index)@, b, k) && !(b == block@ && k == worker@),
{
    let ghost before = index@;
    let rest: Option<Vec<WorkerRegistrationKey>> = match index.get(block) {
        Some(workers) => Some(without_worker(workers, worker)),
        None => None,
    };
    match rest {
        Some(rest) => {
            if rest.len() == 0 {
                index.remove(block);
                proof {
                    assert forall|k: (Seq<char>, WorkerId)| holds(before, block@, k) implies k == worker@ by {
                        if k != worker@ {
                            assert(listed(rest@, k));
                        }
                    }
                    assert(index@ == before.remove(block@));
                }
            } else {
                index.insert(block.copy_key(), rest);
                proof {
                    assert(index@ == before.insert(block@, rest));
                }
            }
        },
        None => {},
    }
}

/// Adds one worker as a holder of one block.
pub fn add_holder(index: &mut BlockLocations, block: &BlockLocationKey, worker: &WorkerRegistrationKey)
    requires
        tidy(old(index)@),
    ensures
        tidy(final(index)@),
        forall|b: (Seq<char>, BlockId), k: (Seq<char>, WorkerId)| #[trigger]
            holds(final(index)@, b, k) <==> holds(old(index)@, b, k) || (b == block@ && k == worker@),
{
    let ghost before = index@;
    let mut workers: Vec<WorkerRegistrationKey> = match index.remove(block) {
        Some(workers) => workers,
        None => Vec::new(),
    };
    let ghost listed_before = workers@;
    proof {
        if !before.contains_key(block@) {
            assert(forall|k: (Seq<char>, WorkerId)| !listed(listed_before, k));
        }
    }
    if !contains_worker(&workers, worker) {
        workers.push(worker.copy_key());
        proof {
            assert forall|k: (Seq<char>, WorkerId)| #[trigger] listed(workers@, k) <==> listed(listed_before, k) || k == worker@ by {
                if listed(workers@, k) && k != worker@ {
                    let i = choose|i: int| 0 <= i < workers@.len() && #[trigger] workers@[i]@ == k;
                    assert(listed_before[i]@ == k);
                }
                if listed(listed_before, k) {
                    let i = choose|i: int| 0 <= i < listed_before.len() && #[trigger] listed_before[i]@ == k;
                    assert(workers@[i]@ == k);
                }
                if k == worker@ {
                    assert(workers@[listed_before.len() as int]@ == k);
                }
            }
        }
    }
    proof {
        assert forall|k: (Seq<char>, WorkerId)| #[trigger] listed(workers@, k) <==> listed(listed_before, k) || k == worker@ by {}
        assert(distinct_workers(workers@)) by {
            assert forall|i: int, j: int| 0 <= i < j < workers@.len() implies #[trigger] workers@[i]@ != #[trigger] workers@[j]@ by {
                if workers@.len() > listed_before.len() && j == listed_before.len() {
                    assert(listed_before[i]@ == workers@[i]@);
                    if workers@[i]@ == worker@ {
                        assert(listed(listed_before, worker@));
                    }
                }
            }
        }
        assert(workers@.len() > 0) by {
            assert(listed(workers@, worker@));
        }
    }
    index.insert(block.copy_key(), workers);
    proof {
        assert(index@ =~= before.insert(block@, workers));
    }
}

/// Takes one worker out as a holder of any block of a list.
pub fn drop_holder_of_all(
    index: &mut BlockLocations,
    group_name: &GroupName,
    blocks: &Vec<BlockId>,
    worker: &WorkerRegistrationKey,
)
    requires
        tidy(old(index)@),
    ensures
        tidy(final(index)@),
        forall|b: (Seq<char>, BlockId), k: (Seq<char>, WorkerId)| #[trigger]
            holds(final(index)@, b, k) <==> holds(old(index)@, b, k) && !(b.0 == group_name@ && blocks@.contains(b.1)
                && k == worker@),
{
    let ghost before = index@;
    let mut i: usize = 0;
    while i < blocks.len()
        invariant
            i <= blocks@.len(),
            tidy(index@),
            forall|b: (Seq<char>, BlockId), k: (Seq<char>, WorkerId)| #[trigger]
                holds(index@, b, k) <==> holds(before, b, k) && !(b.0 == group_name@ && blocks@.take(
                    i as int,
                ).contains(b.1) && k == worker@),
        decreases blocks@.len() - i,
    {
        let key = BlockLocationKey::new(group_name, blocks[i]);
        drop_holder(index, &key, worker);
        proof {
            assert(blocks@.take(i + 1) =~= blocks@.take(i as int).push(blocks@[i as int]));
            assert forall|b: (Seq<char>, BlockId), k: (Seq<char>, WorkerId)| #[trigger]
                holds(index@, b, k) <==> holds(before, b, k) && !(b.0 == group_name@ && blocks@.take(i + 1).contains(
                    b.1,
                ) && k == worker@) by {
                vstd::seq_lib::lemma_seq_contains_after_push(blocks@.take(i as int), blocks@[i as int], b.1);
            }
        }
        i += 1;
    }
    proof {
        assert(blocks@.take(blocks@.len() as int) =~= blocks@);
    }
}

/// Adds one worker as a holder of every block of a list.
pub fn add_holder_of_all(
    index: &mut BlockLocations,
    group_name: &GroupName,
    blocks: &Vec<BlockId>,
    worker: &WorkerRegistrationKey,
)
    requires
        tidy(old(index)@),
    ensures
        tidy(final(index)@),
        forall|b: (Seq<char>, BlockId), k: (Seq<char>, WorkerId)| #[trigger]
            holds(final(index)@, b, k) <==> holds(old(index)@, b, k) || (b.0 == group_name@ && blocks@.contains(b.1)
                && k == worker@),
{
    let ghost before = index@;
    let mut i: usize = 0;
    while i < blocks.len()
        invariant
            i <= blocks@.len(),
            tidy(index@),
            forall|b: (Seq<char>, BlockId), k: (Seq<char>, WorkerId)| #[trigger]
                holds(index@, b, k) <==> holds(before, b, k) || (b.0 == group_name@ && blocks@.take(
                    i as int,
                ).contains(b.1) && k == worker@),
        decreases blocks@.len() - i,
    {
        let key = BlockLocationKey::new(group_name, blocks[i]);
        add_holder(index, &key, worker);
        proof {
            assert(blocks@.take(i + 1) =~= blocks@.take(i as int).push(blocks@[i as int]));
            assert forall|b: (Seq<char>, BlockId), k: (Seq<char>, WorkerId)| #[trigger]
                holds(index@, b, k) <==> holds(before, b, k) || (b.0 == group_name@ && blocks@.take(i + 1).contains(
                    b.1,
                ) && k == worker@) by {
                vstd::seq_lib::lemma_seq_contains_after_push(blocks@.take(i as int), blocks@[i as int], b.1);
            }
        }
        i += 1;
    }
    proof {
        assert(blocks@.take(blocks@.len() as int) =~= blocks@);
    }
}

} // verus!
