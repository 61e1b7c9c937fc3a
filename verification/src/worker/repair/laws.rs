//! What repair promises as a whole: what a plan leaves of the copies of a block, where blocks move
//! to, and what becomes of a task.

use crate::ids::{BlockId, WorkerId};
use crate::text;
use crate::worker::repair::actions::ActionModel;
use crate::worker::repair::planner;
use crate::worker::repair::planner::WorkerLoad;
use crate::worker::repair::types::TaskModel;
use vstd::prelude::*;

verus! {

/// The workers that lose their copy by a plan.
pub open spec fn losing(plan: Seq<ActionModel>) -> Set<WorkerId> {
    Set::new(
        |w: WorkerId|
            exists|i: int|
                0 <= i < plan.len() && ((#[trigger] plan[i]) matches ActionModel::EvictReplica { target_worker, .. }
                    && target_worker == w),
    )
}

/// The workers that get a copy by a plan.
pub open spec fn getting(plan: Seq<ActionModel>) -> Set<WorkerId> {
    Set::new(
        |w: WorkerId|
            exists|i: int|
                0 <= i < plan.len() && ((#[trigger] plan[i]) matches ActionModel::Replicate { target_worker, .. }
                    && target_worker == w),
    )
}

/// A block with too many copies loses those on the first workers that have one, as many as are too
/// many. Where the copies are on as many workers, these are different ones, and exactly as many are
/// left as are wanted. A block with as many as wanted loses none.
pub proof fn law_evictions_leave_the_wanted_copies(
    block_id: BlockId,
    current: Seq<WorkerId>,
    factor: u8,
    available: Seq<WorkerId>,
)
    requires
        factor <= current.len(),
    ensures
        ({
            let plan = planner::replication_plan(block_id, current, factor, available);
            &&& plan.len() == current.len() - factor
            &&& forall|i: int|
                0 <= i < plan.len() ==> ((#[trigger] plan[i]) matches ActionModel::EvictReplica {
                    block_id: b,
                    target_worker,
                    reason,
                } && b == block_id && current.contains(target_worker) && target_worker == current[i] && reason
                    == "Excess replica removal: current="@ + text::decimal(current.len()) + ", desired="@
                    + text::decimal(factor as nat))
            &&& current.no_duplicates() ==> {
                &&& forall|i: int, j: int|
                    0 <= i < j < plan.len() ==> (#[trigger] plan[i])->EvictReplica_target_worker != (
                    #[trigger] plan[j])->EvictReplica_target_worker
                &&& losing(plan).len() == current.len() - factor
                &&& losing(plan).subset_of(current.to_set())
                &&& current.to_set().difference(losing(plan)).len() == factor
            }
        }),
{
    if current.no_duplicates() {
        lemma_evictions_leave(block_id, current, factor, available);
    }
}

proof fn lemma_evictions_leave(block_id: BlockId, current: Seq<WorkerId>, factor: u8, available: Seq<WorkerId>)
    requires
        current.no_duplicates(),
        factor <= current.len(),
    ensures
        ({
            let plan = planner::replication_plan(block_id, current, factor, available);
            &&& losing(plan).len() == current.len() - factor
            &&& losing(plan).subset_of(current.to_set())
            &&& current.to_set().difference(losing(plan)).len() == factor
        }),
{
    let plan = planner::replication_plan(block_id, current, factor, available);
    let k = current.len() - factor;
    let gone = current.take(k);
    let left = current.skip(k);
    assert(plan.len() == k);
    assert forall|i: int| 0 <= i < plan.len() implies (#[trigger] plan[i])->EvictReplica_target_worker
        == current[i] by {}
    assert(losing(plan) =~= gone.to_set()) by {
        assert forall|w: WorkerId| losing(plan).contains(w) == gone.to_set().contains(w) by {
            if losing(plan).contains(w) {
                let i = choose|i: int|
                    0 <= i < plan.len() && ((#[trigger] plan[i]) matches ActionModel::EvictReplica {
                        target_worker,
                        ..
                    } && target_worker == w);
                assert(gone[i] == w);
            }
            if gone.to_set().contains(w) {
                let i = choose|i: int| 0 <= i < gone.len() && gone[i] == w;
                assert(plan[i]->EvictReplica_target_worker == w);
            }
        }
    }
    assert(current.to_set().difference(losing(plan)) =~= left.to_set()) by {
        assert forall|w: WorkerId| current.to_set().difference(losing(plan)).contains(w) == left.to_set().contains(
            w,
        ) by {
            if current.to_set().difference(losing(plan)).contains(w) {
                let i = choose|i: int| 0 <= i < current.len() && current[i] == w;
                if i < k {
                    assert(gone[i] == w);
                }
                assert(left[i - k] == w);
            }
            if left.to_set().contains(w) {
                let i = choose|i: int| 0 <= i < left.len() && left[i] == w;
                assert(current[i + k] == w);
                if gone.to_set().contains(w) {
                    let j = choose|j: int| 0 <= j < gone.len() && gone[j] == w;
                    assert(current[j] == w);
                }
            }
        }
    }
    assert(gone.no_duplicates());
    assert(left.no_duplicates());
    gone.unique_seq_to_set();
    left.unique_seq_to_set();
}

proof fn lemma_without_copy_each(available: Seq<WorkerId>, current: Seq<WorkerId>)
    ensures
        forall|w: WorkerId|
            #![trigger planner::without_copy(available, current).contains(w)]
            planner::without_copy(available, current).contains(w) <==> available.contains(w) && !current.contains(w),
        available.no_duplicates() ==> planner::without_copy(available, current).no_duplicates(),
    decreases available.len(),
{
    let found = planner::without_copy(available, current);
    if available.len() > 0 {
        let rest = available.drop_last();
        let last = available.last();
        let before = planner::without_copy(rest, current);
        lemma_without_copy_each(rest, current);
        assert(available =~= rest.push(last));
        assert forall|w: WorkerId| #[trigger] found.contains(w) <==> available.contains(w) && !current.contains(w) by {
            if rest.contains(w) {
                let i = choose|i: int| 0 <= i < rest.len() && rest[i] == w;
                assert(available[i] == w);
            }
            if available.contains(w) && w != last {
                let i = choose|i: int| 0 <= i < available.len() && available[i] == w;
                assert(rest[i] == w);
            }
            if before.contains(w) {
                let i = choose|i: int| 0 <= i < before.len() && before[i] == w;
                assert(found[i] == w);
            }
            if found.contains(w) && (current.contains(last) || w != last) {
                let i = choose|i: int| 0 <= i < found.len() && found[i] == w;
                assert(before[i] == w);
            }
            if w == last {
                assert(available[available.len() - 1] == w);
                if !current.contains(last) {
                    assert(found[found.len() - 1] == w);
                }
            }
        }
        if available.no_duplicates() {
            assert(rest.no_duplicates());
            if !current.contains(last) {
                assert(!rest.contains(last)) by {
                    if rest.contains(last) {
                        let i = choose|i: int| 0 <= i < rest.len() && rest[i] == last;
                        assert(available[i] == available[available.len() - 1]);
                    }
                }
                assert(!before.contains(last));
                assert(found =~= before.push(last));
                assert forall|i: int, j: int| 0 <= i < found.len() && 0 <= j < found.len() && i != j implies found[i]
                    != found[j] by {
                    if i == before.len() {
                        assert(before.contains(before[j]));
                    }
                    if j == before.len() {
                        assert(before.contains(before[i]));
                    }
                }
            }
        }
    }
}

/// A block with too few copies is copied, from the workers that have it, to different available
/// workers that have none: to as many as copies are missing, or to every such worker. Where the
/// copies are on different workers and enough others are available, as many have the block after
/// the plan as are wanted.
pub proof fn law_replication_reaches_the_wanted_copies(
    block_id: BlockId,
    current: Seq<WorkerId>,
    factor: u8,
    available: Seq<WorkerId>,
)
    requires
        current.len() < factor,
        available.no_duplicates(),
    ensures
        ({
            let plan = planner::replication_plan(block_id, current, factor, available);
            &&& plan.len() <= factor - current.len()
            &&& forall|i: int|
                0 <= i < plan.len() ==> ((#[trigger] plan[i]) matches ActionModel::Replicate {
                    block_id: b,
                    src_workers,
                    target_worker,
                    replication_factor,
                    reason,
                } && b == block_id && src_workers == current && !current.contains(target_worker)
                    && available.contains(target_worker) && replication_factor == Some(factor) && reason == Some(
                    "Replication factor "@ + text::decimal(factor as nat) + " not met (current: "@ + text::decimal(
                        current.len(),
                    ) + ")"@,
                ))
            &&& forall|i: int, j: int|
                0 <= i < j < plan.len() ==> (#[trigger] plan[i])->Replicate_target_worker != (
                #[trigger] plan[j])->Replicate_target_worker
            &&& plan.len() < factor - current.len() ==> forall|w: WorkerId|
                #[trigger] available.contains(w) ==> current.contains(w) || getting(plan).contains(w)
            &&& current.no_duplicates() && plan.len() == factor - current.len() ==> current.to_set().union(
                getting(plan),
            ).len() == factor
        }),
{
    let plan = planner::replication_plan(block_id, current, factor, available);
    let others = planner::without_copy(available, current);
    let needed = (factor - current.len()) as nat;
    let targets = planner::first(others, needed);
    lemma_without_copy_each(available, current);
    assert(plan.len() == targets.len());
    assert forall|i: int| 0 <= i < plan.len() implies (#[trigger] plan[i])->Replicate_target_worker == targets[i]
        && others.contains(targets[i]) by {
        assert(targets[i] == others[i]);
    }
    assert(targets.no_duplicates());
    assert(getting(plan) =~= targets.to_set()) by {
        assert forall|w: WorkerId| getting(plan).contains(w) == targets.to_set().contains(w) by {
            if getting(plan).contains(w) {
                let i = choose|i: int|
                    0 <= i < plan.len() && ((#[trigger] plan[i]) matches ActionModel::Replicate { target_worker, .. }
                        && target_worker == w);
                assert(targets[i] == w);
            }
            if targets.to_set().contains(w) {
                let i = choose|i: int| 0 <= i < targets.len() && targets[i] == w;
                assert(plan[i]->Replicate_target_worker == w);
            }
        }
    }
    if plan.len() < needed {
        assert(targets == others);
        assert forall|w: WorkerId| #[trigger] available.contains(w) implies current.contains(w) || getting(
            plan,
        ).contains(w) by {
            assert(others.contains(w) <==> available.contains(w) && !current.contains(w));
        }
    }
    if current.no_duplicates() && plan.len() == needed {
        targets.unique_seq_to_set();
        current.unique_seq_to_set();
        assert(current.to_set().disjoint(targets.to_set())) by {
            assert forall|w: WorkerId| current.to_set().contains(w) implies !targets.to_set().contains(w) by {
                if targets.contains(w) {
                    let i = choose|i: int| 0 <= i < targets.len() && targets[i] == w;
                    assert(others[i] == w);
                    assert(others.contains(w));
                }
            }
        }
        vstd::set_lib::lemma_set_disjoint_lens(current.to_set(), targets.to_set());
    }
}

/// The task of an action does what the action says. A copy is moved by copying the block from the
/// old holder to the new one.
pub proof fn law_tasks_carry_their_action_out(action: ActionModel)
    ensures
        action matches ActionModel::Replicate { block_id, src_workers, target_worker, replication_factor, reason }
            ==> action.block() == block_id && (action.task() matches TaskModel::Replicate {
            block_id: b,
            src_workers: s,
            target_worker: t,
            replication_factor: f,
            reason: r,
        } && b == block_id && s == src_workers && t == target_worker && f == replication_factor && r == reason),
        action matches ActionModel::MoveCopy { block_id, from_worker, to_worker } ==> action.block() == block_id && (
        action.task() matches TaskModel::Replicate { block_id: b, src_workers: s, target_worker: t, .. } && b
            == block_id && s.len() == 1 && s[0] == from_worker && t == to_worker),
        action matches ActionModel::EvictReplica { block_id, target_worker, reason } ==> action.block() == block_id && (
        action.task() matches TaskModel::EvictReplica { block_id: b, target_worker: t, reason: r } && b == block_id
            && t == target_worker && r == reason),
{
}

/// The moves off a worker take its blocks from the first on, at most five of them, each once, and
/// give them to the target workers in turn. The moves off the workers before it stay as they are.
pub proof fn law_moves_go_in_turn(
    from: Seq<WorkerId>,
    worker: WorkerId,
    blocks: Seq<Seq<BlockId>>,
    targets: Seq<WorkerId>,
)
    requires
        targets.len() > 0,
        blocks.len() == from.len() + 1,
    ensures
        planner::all_moves(Seq::empty(), blocks, targets).len() == 0,
        ({
            let earlier = planner::all_moves(from, blocks, targets);
            let moves = planner::all_moves(from.push(worker), blocks, targets);
            let own = blocks[from.len() as int];
            let n = earlier.len() as int;
            &&& moves.len() == n + (if own.len() < 5 {
                own.len() as int
            } else {
                5
            })
            &&& forall|i: int| 0 <= i < n ==> #[trigger] moves[i] == earlier[i]
            &&& forall|i: int|
                n <= i < moves.len() ==> ((#[trigger] moves[i]) matches ActionModel::MoveCopy {
                    block_id,
                    from_worker,
                    to_worker,
                } && block_id == own[i - n] && from_worker == worker && to_worker == targets[(i - n) % (
                targets.len() as int)])
        }),
{
    assert(from.push(worker).drop_last() =~= from);
}

/// A plan that balances workers holds the first moves, at most ten of them. It is empty where
/// there is nobody to take blocks from or to give them to.
pub proof fn law_rebalancing_makes_the_first_moves(loads: Seq<WorkerLoad>, blocks: Seq<Seq<BlockId>>)
    ensures
        ({
            let plan = planner::rebalance_plan(loads, blocks);
            let from = planner::overloaded(loads);
            let targets = planner::underloaded(loads);
            let moves = planner::all_moves(from, blocks, targets);
            &&& loads.len() < 2 || from.len() == 0 || targets.len() == 0 ==> plan.len() == 0
            &&& loads.len() >= 2 && from.len() > 0 && targets.len() > 0 ==> plan.len() == (if moves.len() < 10 {
                moves.len()
            } else {
                10
            })
            &&& forall|i: int| 0 <= i < plan.len() ==> #[trigger] plan[i] == moves[i]
        }),
{
}

proof fn lemma_busy_prefix(loads: Seq<WorkerLoad>)
    requires
        forall|i: int, j: int|
            0 <= i <= j < loads.len() ==> (#[trigger] loads[i]).load_rank >= (#[trigger] loads[j]).load_rank,
    ensures
        ({
            let found = planner::busy(loads);
            &&& found.len() <= loads.len()
            &&& forall|i: int|
                0 <= i < found.len() ==> #[trigger] found[i] == loads[i].worker_id && loads[i].load_rank
                    > planner::HIGH_LOAD_RANK
            &&& found.len() < loads.len() ==> loads[found.len() as int].load_rank <= planner::HIGH_LOAD_RANK
        }),
    decreases loads.len(),
{
    if loads.len() > 0 {
        let rest = loads.drop_last();
        lemma_busy_prefix(rest);
        let n = planner::busy(rest).len() as int;
        assert forall|i: int| 0 <= i < n implies #[trigger] planner::busy(loads)[i] == loads[i].worker_id
            && loads[i].load_rank > planner::HIGH_LOAD_RANK by {
            assert(planner::busy(rest)[i] == rest[i].worker_id);
        }
        if n < rest.len() {
            assert(rest[n] == loads[n]);
            assert(loads[n].load_rank >= loads[loads.len() - 1].load_rank);
        }
    }
}

proof fn lemma_idle_prefix(loads: Seq<WorkerLoad>)
    requires
        forall|i: int, j: int|
            0 <= i <= j < loads.len() ==> (#[trigger] loads[i]).load_rank <= (#[trigger] loads[j]).load_rank,
    ensures
        ({
            let found = planner::idle(loads);
            &&& found.len() <= loads.len()
            &&& forall|i: int|
                0 <= i < found.len() ==> #[trigger] found[i] == loads[i].worker_id && loads[i].load_rank
                    < planner::LOW_LOAD_RANK
            &&& found.len() < loads.len() ==> loads[found.len() as int].load_rank >= planner::LOW_LOAD_RANK
        }),
    decreases loads.len(),
{
    if loads.len() > 0 {
        let rest = loads.drop_last();
        lemma_idle_prefix(rest);
        let n = planner::idle(rest).len() as int;
        assert forall|i: int| 0 <= i < n implies #[trigger] planner::idle(loads)[i] == loads[i].worker_id
            && loads[i].load_rank < planner::LOW_LOAD_RANK by {
            assert(planner::idle(rest)[i] == rest[i].worker_id);
        }
        if n < rest.len() {
            assert(rest[n] == loads[n]);
            assert(loads[n].load_rank <= loads[loads.len() - 1].load_rank);
        }
    }
}

/// Blocks are taken from the busiest workers, busiest first, and given to the idlest, idlest first:
/// from and to no more than a fifth of them, rounded up, and from and to all of those that have a
/// load above 0.8, or below 0.3.
pub proof fn law_ends_are_the_extremes(loads: Seq<WorkerLoad>)
    ensures
        ({
            let sorted = planner::by_load(loads);
            let n = sorted.len() as int;
            let over = planner::overloaded(loads);
            let under = planner::underloaded(loads);
            &&& n == loads.len()
            &&& 5 * over.len() < n + 5
            &&& 5 * under.len() < n + 5
            &&& forall|i: int|
                0 <= i < over.len() ==> #[trigger] over[i] == sorted[n - 1 - i].worker_id && sorted[n - 1
                    - i].load_rank > 0x3FE9_9999_9999_999A
            &&& forall|i: int|
                0 <= i < under.len() ==> #[trigger] under[i] == sorted[i].worker_id && sorted[i].load_rank
                    < 0x3FD3_3333_3333_3333
            &&& 5 * (over.len() + 1) < n + 5 ==> sorted[n - 1 - over.len()].load_rank <= 0x3FE9_9999_9999_999A
            &&& 5 * (under.len() + 1) < n + 5 ==> sorted[under.len() as int].load_rank >= 0x3FD3_3333_3333_3333
        }),
{
    broadcast use vstd::seq_lib::group_to_multiset_ensures;

    let sorted = planner::by_load(loads);
    planner::law_sorting_keeps_workers(loads);
    assert(sorted.len() == loads.len()) by {
        assert(sorted.to_multiset().len() == sorted.len());
        assert(loads.to_multiset().len() == loads.len());
    }
    let fifth = planner::a_fifth(sorted.len()) as int;
    let top = sorted.reverse().take(fifth);
    let bottom = sorted.take(fifth);
    assert forall|i: int, j: int| 0 <= i <= j < top.len() implies (#[trigger] top[i]).load_rank >= (
    #[trigger] top[j]).load_rank by {
        assert(top[i] == sorted[sorted.len() - 1 - i]);
        assert(top[j] == sorted[sorted.len() - 1 - j]);
    }
    lemma_busy_prefix(top);
    lemma_idle_prefix(bottom);
    let over = planner::busy(top);
    assert forall|i: int| 0 <= i < over.len() implies #[trigger] over[i] == sorted[sorted.len() - 1 - i].worker_id
        && sorted[sorted.len() - 1 - i].load_rank > 0x3FE9_9999_9999_999A by {
        assert(top[i] == sorted[sorted.len() - 1 - i]);
    }
    if over.len() < top.len() {
        assert(top[over.len() as int] == sorted[sorted.len() - 1 - over.len()]);
    }
}

proof fn lemma_of_live_each(loads: Seq<WorkerLoad>, live: Set<WorkerId>)
    ensures
        forall|w: WorkerId| #[trigger]
            planner::names(planner::of_live(loads, live), w) <==> planner::names(loads, w) && live.contains(w),
        forall|i: int|
            0 <= i < planner::of_live(loads, live).len() ==> loads.contains(#[trigger] planner::of_live(loads, live)[i]),
    decreases loads.len(),
{
    let taken = planner::of_live(loads, live);
    if loads.len() > 0 {
        let rest = loads.drop_last();
        let last = loads.last();
        let before = planner::of_live(rest, live);
        lemma_of_live_each(rest, live);
        assert forall|w: WorkerId| #[trigger] planner::names(taken, w) <==> planner::names(loads, w)
            && live.contains(w) by {
            assert(planner::names(before, w) <==> planner::names(rest, w) && live.contains(w));
            if planner::names(before, w) {
                let i = choose|i: int| 0 <= i < before.len() && (#[trigger] before[i]).worker_id == w;
                assert(taken[i].worker_id == w);
            }
            if planner::names(rest, w) {
                let i = choose|i: int| 0 <= i < rest.len() && (#[trigger] rest[i]).worker_id == w;
                assert(loads[i].worker_id == w);
            }
            if planner::names(taken, w) && !planner::names(before, w) {
                let i = choose|i: int| 0 <= i < taken.len() && (#[trigger] taken[i]).worker_id == w;
                if i < before.len() {
                    assert(before[i].worker_id == w);
                }
                assert(loads[loads.len() - 1].worker_id == w);
            }
            if planner::names(loads, w) && live.contains(w) && !planner::names(rest, w) {
                let i = choose|i: int| 0 <= i < loads.len() && (#[trigger] loads[i]).worker_id == w;
                if i < rest.len() {
                    assert(rest[i].worker_id == w);
                }
                assert(last.worker_id == w);
                assert(taken[taken.len() - 1].worker_id == w);
            }
        }
        assert forall|i: int| 0 <= i < taken.len() implies loads.contains(#[trigger] taken[i]) by {
            if i < before.len() {
                assert(rest.contains(before[i]));
                let j = choose|j: int| 0 <= j < rest.len() && rest[j] == before[i];
                assert(loads[j] == taken[i]);
            } else {
                assert(loads[loads.len() - 1] == taken[i]);
            }
        }
    }
}

/// A plan for a group goes by loads of its live workers, and by no other load; every live worker
/// with a load is planned with.
pub proof fn law_live_workers_are_planned_with(loads: Seq<WorkerLoad>, live: Set<WorkerId>, w: WorkerId)
    ensures
        ({
            let taken = planner::of_live(loads, live);
            &&& (exists|i: int| 0 <= i < taken.len() && (#[trigger] taken[i]).worker_id == w) <==> live.contains(w)
                && exists|i: int| 0 <= i < loads.len() && (#[trigger] loads[i]).worker_id == w
            &&& forall|i: int| 0 <= i < taken.len() ==> loads.contains(#[trigger] taken[i])
        }),
{
    lemma_of_live_each(loads, live);
    assert(planner::names(planner::of_live(loads, live), w) <==> planner::names(loads, w) && live.contains(w));
}

/// Loads of this rank.
pub open spec fn of_rank(rank: u64) -> spec_fn(WorkerLoad) -> bool {
    |load: WorkerLoad| load.load_rank == rank
}

proof fn lemma_filter_push(loads: Seq<WorkerLoad>, load: WorkerLoad, rank: u64)
    ensures
        loads.push(load).filter(of_rank(rank)) == (if load.load_rank == rank {
            loads.filter(of_rank(rank)).push(load)
        } else {
            loads.filter(of_rank(rank))
        }),
{
    reveal(Seq::filter);
    assert(loads.push(load).drop_last() =~= loads);
}

proof fn lemma_insert_is_stable(sorted: Seq<WorkerLoad>, load: WorkerLoad, rank: u64)
    ensures
        planner::insert_sorted(sorted, load).filter(of_rank(rank)) == sorted.push(load).filter(of_rank(rank)),
    decreases sorted.len(),
{
    if !(sorted.len() == 0 || sorted.last().load_rank <= load.load_rank) {
        let rest = sorted.drop_last();
        lemma_insert_is_stable(rest, load, rank);
        lemma_filter_push(planner::insert_sorted(rest, load), sorted.last(), rank);
        lemma_filter_push(rest, load, rank);
        lemma_filter_push(sorted, load, rank);
        lemma_filter_push(rest, sorted.last(), rank);
        assert(rest.push(sorted.last()) =~= sorted);
    }
}

/// Workers with the same load are planned with in the order in which they were told.
pub proof fn law_equal_loads_keep_their_order(loads: Seq<WorkerLoad>, rank: u64)
    ensures
        planner::by_load(loads).filter(of_rank(rank)) == loads.filter(of_rank(rank)),
    decreases loads.len(),
{
    if loads.len() == 0 {
        assert(planner::by_load(loads) =~= loads);
    } else {
        let rest = loads.drop_last();
        law_equal_loads_keep_their_order(rest, rank);
        lemma_insert_is_stable(planner::by_load(rest), loads.last(), rank);
        lemma_filter_push(planner::by_load(rest), loads.last(), rank);
        lemma_filter_push(rest, loads.last(), rank);
        assert(rest.push(loads.last()) =~= loads);
    }
}

/// Workers that are told later come later: what is planned with does not change at its start when
/// more workers are told of, be it their loads or that they could take a copy.
pub proof fn law_workers_are_taken_in_the_order_told(
    loads: Seq<WorkerLoad>,
    more_loads: Seq<WorkerLoad>,
    live: Set<WorkerId>,
    available: Seq<WorkerId>,
    more: Seq<WorkerId>,
    current: Seq<WorkerId>,
)
    ensures
        planner::of_live(loads, live).is_prefix_of(planner::of_live(loads + more_loads, live)),
        planner::without_copy(available, current).is_prefix_of(planner::without_copy(available + more, current)),
    decreases more_loads.len() + more.len(),
{
    if more_loads.len() > 0 {
        law_workers_are_taken_in_the_order_told(loads, more_loads.drop_last(), live, available, more, current);
        assert((loads + more_loads).drop_last() =~= loads + more_loads.drop_last());
        let short = planner::of_live(loads + more_loads.drop_last(), live);
        let long = planner::of_live(loads + more_loads, live);
        assert(short.is_prefix_of(long));
    } else {
        assert(loads + more_loads =~= loads);
        assert(planner::of_live(loads, live).is_prefix_of(planner::of_live(loads, live)));
    }
    if more.len() > 0 {
        law_workers_are_taken_in_the_order_told(loads, more_loads, live, available, more.drop_last(), current);
        assert((available + more).drop_last() =~= available + more.drop_last());
        let short = planner::without_copy(available + more.drop_last(), current);
        let long = planner::without_copy(available + more, current);
        assert(short.is_prefix_of(long));
    } else {
        assert(available + more =~= available);
        assert(planner::without_copy(available, current).is_prefix_of(planner::without_copy(available, current)));
    }
}

/// A block that wants one copy more is copied to the same workers and one more, if there is one, or
/// keeps the last of those that it would have lost.
pub proof fn law_one_more_copy_goes_on_from_fewer(
    block_id: BlockId,
    current: Seq<WorkerId>,
    factor: u8,
    available: Seq<WorkerId>,
)
    requires
        factor < u8::MAX,
    ensures
        ({
            let plan = planner::replication_plan(block_id, current, factor, available);
            let more = planner::replication_plan(block_id, current, (factor + 1) as u8, available);
            &&& current.len() <= factor ==> more.len() <= (if current.len() == factor {
                1
            } else {
                plan.len() + 1
            })
            &&& current.len() < factor ==> plan.len() <= more.len() && forall|i: int|
                0 <= i < plan.len() ==> (#[trigger] more[i])->Replicate_target_worker
                    == plan[i]->Replicate_target_worker
            &&& current.len() > factor ==> more.len() == plan.len() - 1 && forall|i: int|
                0 <= i < more.len() ==> (#[trigger] more[i])->EvictReplica_target_worker
                    == plan[i]->EvictReplica_target_worker
        }),
{
}

} // verus!
