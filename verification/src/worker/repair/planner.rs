//! Planning of repairs: which copies of a block are missing or too many, and which blocks should
//! move from busy workers to idle ones. Planning changes nothing.

use crate::clock::Moment;
use crate::error::MetadataResult;
use crate::ids::{BlockId, GroupName, WorkerId};
use crate::text;
use crate::worker::manager;
use crate::worker::manager::WorkerManager;
use crate::worker::repair::actions;
use crate::worker::repair::actions::{ActionModel, RepairAction};
use crate::worker::repair::orphan::OrphanQueue;
use crate::worker::repair::queue::{QueueModel, RepairQueue};
use std::sync::Arc;
use vstd::prelude::*;

verus! {

/// How many moves are planned at a time.
pub const MAX_REBALANCE_ACTIONS: usize = 10;

/// How many blocks are moved off one worker at a time.
pub const MAX_BLOCKS_PER_WORKER: usize = 5;

/// The rank of the load 0.8, above which a worker is busy.
pub const HIGH_LOAD_RANK: u64 = 0x3FE9_9999_9999_999A;

/// The rank of the load 0.3, below which a worker is idle.
pub const LOW_LOAD_RANK: u64 = 0x3FD3_3333_3333_3333;

/// How busy a worker is. The rank is the bit pattern of the load, a number that is not negative,
/// in double precision; ranks are ordered as the loads are.
#[derive(Clone, Copy, Debug, PartialEq, Eq, Structural)]
pub struct WorkerLoad {
    pub worker_id: WorkerId,
    pub load_rank: u64,
}

// ---------------------------------------------------------------------------------------------
// Replication
// ---------------------------------------------------------------------------------------------

/// How many copies there are.
pub open spec fn copies(current: Seq<WorkerId>) -> nat {
    current.len()
}

/// The workers that have no copy yet, in their order.
pub open spec fn without_copy(available: Seq<WorkerId>, current: Seq<WorkerId>) -> Seq<WorkerId>
    decreases available.len(),
{
    if available.len() == 0 {
        Seq::empty()
    } else if current.contains(available.last()) {
        without_copy(available.drop_last(), current)
    } else {
        without_copy(available.drop_last(), current).push(available.last())
    }
}

/// At most the first so many.
pub open spec fn first<A>(s: Seq<A>, n: nat) -> Seq<A> {
    if s.len() <= n {
        s
    } else {
        s.take(n as int)
    }
}

pub open spec fn missing_text(factor: u8, count: nat) -> Seq<char> {
    "Replication factor "@ + text::decimal(factor as nat) + " not met (current: "@ + text::decimal(count) + ")"@
}

pub open spec fn excess_text(factor: u8, count: nat) -> Seq<char> {
    "Excess replica removal: current="@ + text::decimal(count) + ", desired="@ + text::decimal(factor as nat)
}

/// The plan for a block: the missing copies go to available workers that have none, the copies
/// that are too many leave the first workers that have one.
pub open spec fn replication_plan(
    block_id: BlockId,
    current: Seq<WorkerId>,
    factor: u8,
    available: Seq<WorkerId>,
) -> Seq<ActionModel> {
    let count = copies(current);
    if count < factor {
        let targets = first(without_copy(available, current), (factor - count) as nat);
        Seq::new(
            targets.len(),
            |i: int|
                ActionModel::Replicate {
                    block_id,
                    src_workers: current,
                    target_worker: targets[i],
                    replication_factor: Some(factor),
                    reason: Some(missing_text(factor, count)),
                },
        )
    } else {
        let targets = first(current, (count - factor) as nat);
        Seq::new(
            targets.len(),
            |i: int|
                ActionModel::EvictReplica {
                    block_id,
                    target_worker: targets[i],
                    reason: excess_text(factor, count),
                },
        )
    }
}

/// The queue after the tasks of the actions were queued, one after the other. A task that the
/// queue does not take is left out.
pub open spec fn queued(queue: QueueModel, plan: Seq<ActionModel>) -> QueueModel
    decreases plan.len(),
{
    if plan.len() == 0 {
        queue
    } else {
        queued(queue, plan.drop_last()).with_task(plan.last().task())
    }
}

fn slice_contains(workers: &[WorkerId], worker: WorkerId) -> (found: bool)
    ensures
        found == workers@.contains(worker),
{
    let mut i: usize = 0;
    while i < workers.len()
        invariant
            i <= workers@.len(),
            forall|j: int| 0 <= j < i ==> workers@[j] != worker,
        decreases workers@.len() - i,
    {
        if workers[i] == worker {
            return true;
        }
        i += 1;
    }
    false
}

fn slice_to_vec(workers: &[WorkerId]) -> (copy: Vec<WorkerId>)
    ensures
        copy@ == workers@,
{
    let mut copy: Vec<WorkerId> = Vec::new();
    let mut i: usize = 0;
    while i < workers.len()
        invariant
            i <= workers@.len(),
            copy@ == workers@.take(i as int),
        decreases workers@.len() - i,
    {
        copy.push(workers[i]);
        i += 1;
        assert(workers@.take(i as int) =~= workers@.take(i - 1).push(workers@[i - 1]));
    }
    assert(workers@.take(i as int) =~= workers@);
    copy
}

// ---------------------------------------------------------------------------------------------
// Balance
// ---------------------------------------------------------------------------------------------

/// Puts a load behind all that are no higher.
pub open spec fn insert_sorted(sorted: Seq<WorkerLoad>, load: WorkerLoad) -> Seq<WorkerLoad>
    decreases sorted.len(),
{
    if sorted.len() == 0 || sorted.last().load_rank <= load.load_rank {
        sorted.push(load)
    } else {
        insert_sorted(sorted.drop_last(), load).push(sorted.last())
    }
}

/// The loads from low to high; equal ones keep their order.
pub open spec fn by_load(loads: Seq<WorkerLoad>) -> Seq<WorkerLoad>
    decreases loads.len(),
{
    if loads.len() == 0 {
        Seq::empty()
    } else {
        insert_sorted(by_load(loads.drop_last()), loads.last())
    }
}

/// A fifth of so many, rounded up.
pub open spec fn a_fifth(n: nat) -> nat {
    ((n + 4) / 5) as nat
}

/// The busy ones among the first, in their order.
pub open spec fn busy(loads: Seq<WorkerLoad>) -> Seq<WorkerId>
    decreases loads.len(),
{
    if loads.len() == 0 {
        Seq::empty()
    } else if loads.last().load_rank > HIGH_LOAD_RANK {
        busy(loads.drop_last()).push(loads.last().worker_id)
    } else {
        busy(loads.drop_last())
    }
}

/// The idle ones among the first, in their order.
pub open spec fn idle(loads: Seq<WorkerLoad>) -> Seq<WorkerId>
    decreases loads.len(),
{
    if loads.len() == 0 {
        Seq::empty()
    } else if loads.last().load_rank < LOW_LOAD_RANK {
        idle(loads.drop_last()).push(loads.last().worker_id)
    } else {
        idle(loads.drop_last())
    }
}

/// The workers to take blocks from: the busy ones of the busiest fifth, busiest first.
pub open spec fn overloaded(loads: Seq<WorkerLoad>) -> Seq<WorkerId> {
    busy(by_load(loads).reverse().take(a_fifth(by_load(loads).len()) as int))
}

/// The workers to give blocks to: the idle ones of the idlest fifth, idlest first.
pub open spec fn underloaded(loads: Seq<WorkerLoad>) -> Seq<WorkerId> {
    idle(by_load(loads).take(a_fifth(by_load(loads).len()) as int))
}

/// The moves off one worker: its first blocks, to the idle workers in turn.
pub open spec fn moves_off(from_worker: WorkerId, blocks: Seq<BlockId>, targets: Seq<WorkerId>) -> Seq<ActionModel> {
    let moved = first(blocks, MAX_BLOCKS_PER_WORKER as nat);
    Seq::new(
        moved.len(),
        |i: int|
            ActionModel::MoveCopy {
                block_id: moved[i],
                from_worker,
                to_worker: targets[i % (targets.len() as int)],
            },
    )
}

/// The moves off workers, one worker after the other.
pub open spec fn all_moves(from: Seq<WorkerId>, blocks: Seq<Seq<BlockId>>, targets: Seq<WorkerId>) -> Seq<ActionModel>
    decreases from.len(),
{
    if from.len() == 0 {
        Seq::empty()
    } else {
        all_moves(from.drop_last(), blocks, targets) + moves_off(from.last(), blocks[from.len() - 1], targets)
    }
}

/// The plan that balances workers, given the blocks of each that is overloaded.
pub open spec fn rebalance_plan(loads: Seq<WorkerLoad>, blocks: Seq<Seq<BlockId>>) -> Seq<ActionModel> {
    if loads.len() < 2 || overloaded(loads).len() == 0 || underloaded(loads).len() == 0 {
        Seq::empty()
    } else {
        first(all_moves(overloaded(loads), blocks, underloaded(loads)), MAX_REBALANCE_ACTIONS as nat)
    }
}

/// The worker is named.
pub open spec fn names(loads: Seq<WorkerLoad>, worker_id: WorkerId) -> bool {
    exists|i: int| 0 <= i < loads.len() && (#[trigger] loads[i]).worker_id == worker_id
}

/// The loads that are planned with: those of live workers, the first of each.
pub open spec fn of_live(loads: Seq<WorkerLoad>, live: Set<WorkerId>) -> Seq<WorkerLoad>
    decreases loads.len(),
{
    if loads.len() == 0 {
        Seq::empty()
    } else {
        let rest = of_live(loads.drop_last(), live);
        if live.contains(loads.last().worker_id) && !names(rest, loads.last().worker_id) {
            rest.push(loads.last())
        } else {
            rest
        }
    }
}

/// The blocks under which each of the workers is found, as the manager lists them.
pub open spec fn lists_of(manager: WorkerManager, group_name: Seq<char>, workers: Seq<WorkerId>) -> Seq<Seq<BlockId>> {
    Seq::new(workers.len(), |i: int| manager.listed((group_name, workers[i])))
}

/// The plan that balances the live workers of a group. It is the same whoever plans.
pub open spec fn balance_plan(
    manager: WorkerManager,
    group_name: Seq<char>,
    loads: Seq<WorkerLoad>,
    now: Moment,
) -> Seq<ActionModel> {
    let planned_with = of_live(loads, manager::live_ids(manager@, group_name, now));
    rebalance_plan(planned_with, lists_of(manager, group_name, overloaded(planned_with)))
}

pub open spec fn block_lists(blocks: Seq<Vec<BlockId>>) -> Seq<Seq<BlockId>> {
    Seq::new(blocks.len(), |i: int| blocks[i]@)
}

/// Putting a load among others, seen from where it goes.
proof fn lemma_insert_at(sorted: Seq<WorkerLoad>, load: WorkerLoad, at: int)
    requires
        0 <= at <= sorted.len(),
        at == 0 || sorted[at - 1].load_rank <= load.load_rank,
        forall|i: int| at <= i < sorted.len() ==> (#[trigger] sorted[i]).load_rank > load.load_rank,
    ensures
        insert_sorted(sorted, load) == sorted.insert(at, load),
    decreases sorted.len(),
{
    if at < sorted.len() {
        lemma_insert_at(sorted.drop_last(), load, at);
        assert(sorted.insert(at, load) =~= sorted.drop_last().insert(at, load).push(sorted.last()));
    } else {
        assert(sorted.insert(at, load) =~= sorted.push(load));
    }
}

fn sort_by_load(loads: &Vec<WorkerLoad>) -> (sorted: Vec<WorkerLoad>)
    ensures
        sorted@ == by_load(loads@),
{
    let mut sorted: Vec<WorkerLoad> = Vec::new();
    let mut n: usize = 0;
    assert(loads@.take(0) =~= Seq::<WorkerLoad>::empty());
    while n < loads.len()
        invariant
            n <= loads@.len(),
            sorted@ == by_load(loads@.take(n as int)),
        decreases loads@.len() - n,
    {
        let load = loads[n];
        let mut at: usize = sorted.len();
        while at > 0 && sorted[at - 1].load_rank > load.load_rank
            invariant
                at <= sorted@.len(),
                forall|i: int| at <= i < sorted@.len() ==> (#[trigger] sorted@[i]).load_rank > load.load_rank,
            decreases at,
        {
            at -= 1;
        }
        proof {
            lemma_insert_at(sorted@, load, at as int);
            assert(loads@.take(n + 1).drop_last() =~= loads@.take(n as int));
        }
        sorted.insert(at, load);
        n += 1;
    }
    assert(loads@.take(n as int) =~= loads@);
    sorted
}

/// Plans repairs. It keeps sight of the suspected blocks, which it does not act on.
#[derive(Debug)]
pub struct RepairPlanner {
    pub orphan_queue: Arc<OrphanQueue>,
}

impl RepairPlanner {
    /// A planner. It does not queue anything by itself, so it has no use for the repair queue.
    pub fn new(_repair_queue: Arc<RepairQueue>, orphan_queue: Arc<OrphanQueue>) -> (planner: Self)
        ensures
            planner.orphan_queue == orphan_queue,
    {
        RepairPlanner { orphan_queue }
    }

    /// Plans the missing copies of a block, or the removal of those that are too many.
    pub fn plan_replication(
        &self,
        block_id: BlockId,
        current_locations: &[WorkerId],
        replication_factor: u8,
        available_workers: &[WorkerId],
    ) -> (planned: Vec<RepairAction>)
        ensures
            actions::views(planned@) == replication_plan(
                block_id,
                current_locations@,
                replication_factor,
                available_workers@,
            ),
    {
        let current_count: usize = current_locations.len();
        let wanted: usize = replication_factor as usize;
        let mut planned: Vec<RepairAction> = Vec::new();
        let ghost plan = replication_plan(block_id, current_locations@, replication_factor, available_workers@);
        if current_count < wanted {
            let needed: usize = wanted - current_count;
            let ghost count = copies(current_locations@);
            let ghost reason = missing_text(replication_factor, count);
            let ghost mut targets: Seq<WorkerId> = Seq::empty();
            let mut i: usize = 0;
            assert(available_workers@.take(0) =~= Seq::<WorkerId>::empty());
            assert(first(without_copy(available_workers@.take(0), current_locations@), needed as nat) =~= targets);
            while i < available_workers.len()
                invariant
                    i <= available_workers@.len(),
                    current_count == copies(current_locations@),
                    count == copies(current_locations@),
                    reason == missing_text(replication_factor, count),
                    targets == first(
                        without_copy(available_workers@.take(i as int), current_locations@),
                        needed as nat,
                    ),
                    planned@.len() == targets.len(),
                    forall|j: int|
                        0 <= j < planned@.len() ==> (#[trigger] planned@[j])@ == (ActionModel::Replicate {
                            block_id,
                            src_workers: current_locations@,
                            target_worker: targets[j],
                            replication_factor: Some(replication_factor),
                            reason: Some(reason),
                        }),
                decreases available_workers@.len() - i,
            {
                let ghost so_far = without_copy(available_workers@.take(i as int), current_locations@);
                proof {
                    assert(available_workers@.take(i + 1).drop_last() =~= available_workers@.take(i as int));
                }
                let worker = available_workers[i];
                if !slice_contains(current_locations, worker) {
                    assert(without_copy(available_workers@.take(i + 1), current_locations@) == so_far.push(worker));
                    if planned.len() < needed {
                        let mut message = text::with_number(
                            "Replication factor ",
                            replication_factor as u64,
                            " not met (current: ",
                        );
                        text::push_decimal(&mut message, current_count as u64);
                        message.append(")");
                        planned.push(
                            RepairAction::Replicate {
                                block_id,
                                src_workers: slice_to_vec(current_locations),
                                target_worker: worker,
                                replication_factor: Some(replication_factor),
                                reason: Some(message),
                            },
                        );
                        proof {
                            assert(first(so_far.push(worker), needed as nat) =~= targets.push(worker));
                            targets = targets.push(worker);
                        }
                    } else {
                        assert(first(so_far.push(worker), needed as nat) =~= targets);
                    }
                }
                i += 1;
            }
            proof {
                assert(available_workers@.take(i as int) =~= available_workers@);
                assert(actions::views(planned@) =~= plan);
            }
        } else {
            let excess: usize = current_count - wanted;
            let ghost count = copies(current_locations@);
            let ghost targets = first(current_locations@, excess as nat);
            let mut i: usize = 0;
            while i < current_locations.len() && i < excess
                invariant
                    i <= current_locations@.len(),
                    i <= excess,
                    current_count == copies(current_locations@),
                    count == copies(current_locations@),
                    targets == first(current_locations@, excess as nat),
                    planned@.len() == i,
                    forall|j: int|
                        0 <= j < planned@.len() ==> (#[trigger] planned@[j])@ == (ActionModel::EvictReplica {
                            block_id,
                            target_worker: current_locations@[j],
                            reason: excess_text(replication_factor, count),
                        }),
                decreases excess - i,
            {
                let mut message = text::with_number(
                    "Excess replica removal: current=",
                    current_count as u64,
                    ", desired=",
                );
                text::push_decimal(&mut message, replication_factor as u64);
                planned.push(
                    RepairAction::EvictReplica { block_id, target_worker: current_locations[i], reason: message },
                );
                i += 1;
            }
            proof {
                assert(actions::views(planned@) =~= plan);
            }
        }
        planned
    }

    /// Plans moves from busy workers to idle ones, given the blocks of each that is overloaded.
    pub fn plan_moves(&self, from: &Vec<WorkerId>, blocks: &Vec<Vec<BlockId>>, targets: &Vec<WorkerId>) -> (planned: Vec<
        RepairAction,
    >)
        requires
            blocks@.len() == from@.len(),
            targets@.len() > 0,
        ensures
            actions::views(planned@) == first(
                all_moves(from@, block_lists(blocks@), targets@),
                MAX_REBALANCE_ACTIONS as nat,
            ),
    {
        let ghost lists = block_lists(blocks@);
        let mut planned: Vec<RepairAction> = Vec::new();
        let mut i: usize = 0;
        proof {
            assert(from@.take(0) =~= Seq::<WorkerId>::empty());
            assert(actions::views(planned@) =~= Seq::<ActionModel>::empty());
        }
        while i < from.len()
            invariant
                i <= from@.len(),
                blocks@.len() == from@.len(),
                targets@.len() > 0,
                lists == block_lists(blocks@),
                actions::views(planned@) == first(
                    all_moves(from@.take(i as int), lists, targets@),
                    MAX_REBALANCE_ACTIONS as nat,
                ),
            decreases from@.len() - i,
        {
            let ghost earlier = all_moves(from@.take(i as int), lists, targets@);
            let ghost own = moves_off(from@[i as int], lists[i as int], targets@);
            proof {
                assert(from@.take(i + 1).drop_last() =~= from@.take(i as int));
                assert(all_moves(from@.take(i + 1), lists, targets@) == earlier + own);
            }
            let held = &blocks[i];
            let mut j: usize = 0;
            assert(earlier + own.take(0) =~= earlier);
            while j < held.len() && j < MAX_BLOCKS_PER_WORKER
                invariant
                    i < from@.len(),
                    j <= held@.len(),
                    j <= MAX_BLOCKS_PER_WORKER,
                    targets@.len() > 0,
                    lists[i as int] == held@,
                    own == moves_off(from@[i as int], held@, targets@),
                    actions::views(planned@) == first(earlier + own.take(j as int), MAX_REBALANCE_ACTIONS as nat),
                decreases held@.len() - j,
            {
                let ghost so_far = earlier + own.take(j as int);
                proof {
                    assert(own.take(j + 1) =~= own.take(j as int).push(own[j as int]));
                    assert(earlier + own.take(j + 1) =~= so_far.push(own[j as int]));
                }
                if planned.len() < MAX_REBALANCE_ACTIONS {
                    let to_worker = targets[j % targets.len()];
                    let ghost planned_before = planned@;
                    planned.push(RepairAction::MoveCopy { block_id: held[j], from_worker: from[i], to_worker });
                    proof {
                        assert(actions::views(planned@) =~= actions::views(planned_before).push(own[j as int]));
                        assert(first(so_far, MAX_REBALANCE_ACTIONS as nat) == so_far);
                        assert(first(so_far.push(own[j as int]), MAX_REBALANCE_ACTIONS as nat) =~= so_far.push(
                            own[j as int],
                        ));
                    }
                } else {
                    proof {
                        assert(first(so_far.push(own[j as int]), MAX_REBALANCE_ACTIONS as nat) =~= first(
                            so_far,
                            MAX_REBALANCE_ACTIONS as nat,
                        ));
                    }
                }
                j += 1;
            }
            assert(own.take(j as int) =~= own);
            i += 1;
        }
        assert(from@.take(i as int) =~= from@);
        planned
    }

    /// The workers to take blocks from and those to give blocks to.
    pub fn plan_ends(&self, loads: &Vec<WorkerLoad>) -> (ends: (Vec<WorkerId>, Vec<WorkerId>))
        ensures
            ends.0@ == overloaded(loads@),
            ends.1@ == underloaded(loads@),
    {
        let sorted = sort_by_load(loads);
        let n: usize = sorted.len();
        let fifth: usize = if n % 5 == 0 {
            n / 5
        } else {
            n / 5 + 1
        };
        assert(fifth == a_fifth(n as nat));
        let ghost top = sorted@.reverse().take(fifth as int);
        let ghost bottom = sorted@.take(fifth as int);
        let mut over: Vec<WorkerId> = Vec::new();
        let mut under: Vec<WorkerId> = Vec::new();
        let mut i: usize = 0;
        proof {
            assert(top.take(0) =~= Seq::<WorkerLoad>::empty());
            assert(bottom.take(0) =~= Seq::<WorkerLoad>::empty());
        }
        while i < fifth
            invariant
                i <= fifth <= n,
                n == sorted@.len(),
                top == sorted@.reverse().take(fifth as int),
                bottom == sorted@.take(fifth as int),
                over@ == busy(top.take(i as int)),
                under@ == idle(bottom.take(i as int)),
            decreases fifth - i,
        {
            proof {
                assert(top.take(i + 1).drop_last() =~= top.take(i as int));
                assert(bottom.take(i + 1).drop_last() =~= bottom.take(i as int));
                assert(top[i as int] == sorted@[n - 1 - i]);
            }
            let high = sorted[n - 1 - i];
            if high.load_rank > HIGH_LOAD_RANK {
                over.push(high.worker_id);
            }
            let low = sorted[i];
            if low.load_rank < LOW_LOAD_RANK {
                under.push(low.worker_id);
            }
            i += 1;
        }
        proof {
            assert(top.take(i as int) =~= top);
            assert(bottom.take(i as int) =~= bottom);
        }
        (over, under)
    }

    /// The loads that are planned with, at this time.
    fn loads_of_live(
        worker_manager: &WorkerManager,
        group_name: &GroupName,
        loads: &Vec<WorkerLoad>,
        now: Moment,
    ) -> (taken: Vec<WorkerLoad>)
        ensures
            taken@ == of_live(loads@, manager::live_ids(worker_manager@, group_name@, now)),
    {
        let ghost live = manager::live_ids(worker_manager@, group_name@, now);
        let mut taken: Vec<WorkerLoad> = Vec::new();
        let mut i: usize = 0;
        assert(loads@.take(0) =~= Seq::<WorkerLoad>::empty());
        while i < loads.len()
            invariant
                i <= loads@.len(),
                live == manager::live_ids(worker_manager@, group_name@, now),
                taken@ == of_live(loads@.take(i as int), live),
            decreases loads@.len() - i,
        {
            let load = loads[i];
            assert(loads@.take(i + 1).drop_last() =~= loads@.take(i as int));
            if worker_manager.is_worker_live_at(group_name, load.worker_id, now) {
                let mut j: usize = 0;
                while j < taken.len() && taken[j].worker_id != load.worker_id
                    invariant
                        j <= taken@.len(),
                        forall|a: int| 0 <= a < j ==> (#[trigger] taken@[a]).worker_id != load.worker_id,
                    decreases taken@.len() - j,
                {
                    j += 1;
                }
                if j == taken.len() {
                    taken.push(load);
                } else {
                    assert(taken@[j as int].worker_id == load.worker_id);
                }
            }
            i += 1;
        }
        assert(loads@.take(i as int) =~= loads@);
        taken
    }

    /// Plans moves from busy workers of a group to idle ones, at this time. Loads of workers that
    /// are not live, and further loads of the same worker, are left out.
    pub fn plan_rebalance_at(
        &self,
        worker_manager: &WorkerManager,
        group_name: &GroupName,
        loads: &Vec<WorkerLoad>,
        now: Moment,
    ) -> (planned: Vec<RepairAction>)
        requires
            worker_manager.inv(),
        ensures
            actions::views(planned@) == balance_plan(*worker_manager, group_name@, loads@, now),
    {
        let taken = Self::loads_of_live(worker_manager, group_name, loads, now);
        let (over, under) = self.plan_ends(&taken);
        let mut held: Vec<Vec<BlockId>> = Vec::new();
        let mut i: usize = 0;
        while i < over.len()
            invariant
                i <= over@.len(),
                held@.len() == i,
                worker_manager.inv(),
                forall|j: int|
                    0 <= j < i ==> (#[trigger] held@[j])@ == worker_manager.listed((group_name@, over@[j])),
            decreases over@.len() - i,
        {
            held.push(worker_manager.get_worker_blocks(group_name, over[i]));
            i += 1;
        }
        let ghost blocks = block_lists(held@);
        assert(blocks =~= lists_of(*worker_manager, group_name@, over@));
        if taken.len() < 2 || over.len() == 0 || under.len() == 0 {
            let none: Vec<RepairAction> = Vec::new();
            assert(actions::views(none@) =~= rebalance_plan(taken@, blocks));
            return none;
        }
        let planned = self.plan_moves(&over, &held, &under);
        assert(actions::views(planned@) == rebalance_plan(taken@, blocks));
        planned
    }

    /// Plans moves from busy workers of a group to idle ones.
    pub fn plan_rebalance(&self, worker_manager: &WorkerManager, group_name: &GroupName, loads: &Vec<WorkerLoad>) -> (planned: Vec<
        RepairAction,
    >)
        requires
            worker_manager.inv(),
        ensures
            exists|now: Moment|
                actions::views(planned@) == #[trigger] balance_plan(*worker_manager, group_name@, loads@, now),
    {
        let now = worker_manager.now();
        self.plan_rebalance_at(worker_manager, group_name, loads, now)
    }

    /// Plans the copies of a block and queues the tasks. What the queue does not take is left out.
    pub fn check_replication(
        &self,
        block_id: BlockId,
        current_locations: &[WorkerId],
        replication_factor: u8,
        available_workers: &[WorkerId],
        repair_queue: &mut RepairQueue,
    ) -> (result: MetadataResult<()>)
        requires
            old(repair_queue).inv(),
        ensures
            final(repair_queue).inv(),
            result is Ok,
            final(repair_queue)@ == queued(
                old(repair_queue)@,
                replication_plan(block_id, current_locations@, replication_factor, available_workers@),
            ),
    {
        let planned = self.plan_replication(block_id, current_locations, replication_factor, available_workers);
        queue_all(&planned, repair_queue);
        Ok(())
    }

    /// Plans moves from busy workers of a group to idle ones and queues the tasks. What the queue
    /// does not take is left out.
    pub fn check_rebalance(
        &self,
        worker_manager: &WorkerManager,
        group_name: &GroupName,
        loads: &Vec<WorkerLoad>,
        repair_queue: &mut RepairQueue,
    ) -> (result: MetadataResult<()>)
        requires
            worker_manager.inv(),
            old(repair_queue).inv(),
        ensures
            final(repair_queue).inv(),
            result is Ok,
            exists|now: Moment|
                final(repair_queue)@ == queued(
                    old(repair_queue)@,
                    #[trigger] balance_plan(*worker_manager, group_name@, loads@, now),
                ),
    {
        let planned = self.plan_rebalance(worker_manager, group_name, loads);
        queue_all(&planned, repair_queue);
        Ok(())
    }
}

fn queue_all(planned: &Vec<RepairAction>, repair_queue: &mut RepairQueue)
    requires
        old(repair_queue).inv(),
    ensures
        final(repair_queue).inv(),
        final(repair_queue)@ == queued(old(repair_queue)@, actions::views(planned@)),
{
    let ghost plan = actions::views(planned@);
    let ghost before = repair_queue@;
    let mut i: usize = 0;
    assert(plan.take(0) =~= Seq::<ActionModel>::empty());
    while i < planned.len()
        invariant
            i <= planned@.len(),
            plan == actions::views(planned@),
            repair_queue.inv(),
            repair_queue@ == queued(before, plan.take(i as int)),
        decreases planned@.len() - i,
    {
        proof {
            assert(plan.take(i + 1).drop_last() =~= plan.take(i as int));
        }
        let task = planned[i].to_task();
        match repair_queue.enqueue(task) {
            Ok(_) => {},
            Err(_) => {},
        }
        i += 1;
    }
    assert(plan.take(i as int) =~= plan);
}

// ---------------------------------------------------------------------------------------------
// Laws
// ---------------------------------------------------------------------------------------------

proof fn lemma_without_copy(available: Seq<WorkerId>, current: Seq<WorkerId>)
    ensures
        forall|i: int|
            0 <= i < without_copy(available, current).len() ==> !current.contains(
                #[trigger] without_copy(available, current)[i],
            ) && available.contains(without_copy(available, current)[i]),
    decreases available.len(),
{
    if available.len() > 0 {
        let rest = available.drop_last();
        lemma_without_copy(rest, current);
        assert forall|i: int| 0 <= i < without_copy(available, current).len() implies !current.contains(
            #[trigger] without_copy(available, current)[i],
        ) && available.contains(without_copy(available, current)[i]) by {
            if i < without_copy(rest, current).len() {
                let w = without_copy(rest, current)[i];
                let j = choose|j: int| 0 <= j < rest.len() && rest[j] == w;
                assert(available[j] == w);
            } else {
                assert(available[available.len() - 1] == available.last());
            }
        }
    }
}

/// A block with too few copies is copied only to available workers that have none, and as often
/// as copies are missing, if there are that many such workers.
pub proof fn law_missing_copies_go_to_new_workers(
    block_id: BlockId,
    current: Seq<WorkerId>,
    factor: u8,
    available: Seq<WorkerId>,
)
    requires
        copies(current) < factor,
    ensures
        ({
            let plan = replication_plan(block_id, current, factor, available);
            &&& plan.len() <= factor - copies(current)
            &&& without_copy(available, current).len() >= factor - copies(current) ==> plan.len() == factor - copies(
                current,
            )
            &&& forall|i: int|
                0 <= i < plan.len() ==> ((#[trigger] plan[i]) matches ActionModel::Replicate {
                    block_id: b,
                    target_worker,
                    ..
                } && b == block_id && !current.contains(target_worker) && available.contains(target_worker))
        }),
{
    lemma_without_copy(available, current);
}

/// A block with too many copies loses exactly those that are too many, each from a worker that has
/// one. One with as many as wanted is left alone.
pub proof fn law_excess_copies_leave_their_workers(
    block_id: BlockId,
    current: Seq<WorkerId>,
    factor: u8,
    available: Seq<WorkerId>,
)
    requires
        factor <= copies(current),
    ensures
        ({
            let plan = replication_plan(block_id, current, factor, available);
            &&& plan.len() == copies(current) - factor
            &&& forall|i: int|
                0 <= i < plan.len() ==> ((#[trigger] plan[i]) matches ActionModel::EvictReplica {
                    block_id: b,
                    target_worker,
                    ..
                } && b == block_id && current.contains(target_worker))
        }),
{
}

/// Sorting by load orders the workers and neither drops nor adds one.
pub proof fn law_sorting_keeps_workers(loads: Seq<WorkerLoad>)
    ensures
        by_load(loads).to_multiset() == loads.to_multiset(),
        forall|i: int, j: int|
            0 <= i <= j < by_load(loads).len() ==> (#[trigger] by_load(loads)[i]).load_rank <= (
            #[trigger] by_load(loads)[j]).load_rank,
    decreases loads.len(),
{
    broadcast use vstd::seq_lib::group_to_multiset_ensures;

    if loads.len() > 0 {
        let rest = loads.drop_last();
        law_sorting_keeps_workers(rest);
        lemma_insert_keeps(by_load(rest), loads.last());
        assert(rest.push(loads.last()) =~= loads);
    }
}

proof fn lemma_insert_keeps(sorted: Seq<WorkerLoad>, load: WorkerLoad)
    requires
        forall|i: int, j: int|
            0 <= i <= j < sorted.len() ==> (#[trigger] sorted[i]).load_rank <= (#[trigger] sorted[j]).load_rank,
    ensures
        insert_sorted(sorted, load).to_multiset() == sorted.to_multiset().insert(load),
        insert_sorted(sorted, load).len() == sorted.len() + 1,
        forall|i: int, j: int|
            0 <= i <= j < insert_sorted(sorted, load).len() ==> (#[trigger] insert_sorted(sorted, load)[i]).load_rank <= (
            #[trigger] insert_sorted(sorted, load)[j]).load_rank,
        sorted.len() > 0 ==> insert_sorted(sorted, load).last().load_rank == (if sorted.last().load_rank
            <= load.load_rank {
            load.load_rank
        } else {
            sorted.last().load_rank
        }),
        sorted.len() == 0 ==> insert_sorted(sorted, load).last().load_rank == load.load_rank,
    decreases sorted.len(),
{
    broadcast use vstd::seq_lib::group_to_multiset_ensures;

    if sorted.len() > 0 && sorted.last().load_rank > load.load_rank {
        let rest = sorted.drop_last();
        lemma_insert_keeps(rest, load);
        assert(rest.push(sorted.last()) =~= sorted);
        assert(insert_sorted(sorted, load).to_multiset() =~= sorted.to_multiset().insert(load));
        if rest.len() > 0 {
            assert(rest.last().load_rank <= sorted.last().load_rank);
        }
        let inserted = insert_sorted(rest, load);
        assert forall|i: int, j: int| 0 <= i <= j < insert_sorted(sorted, load).len() implies (
        #[trigger] insert_sorted(sorted, load)[i]).load_rank <= (#[trigger] insert_sorted(sorted, load)[j]).load_rank by {
            if j == inserted.len() && i < inserted.len() {
                assert(inserted[i].load_rank <= inserted[inserted.len() - 1].load_rank);
            }
        }
    }
}

/// A plan that balances workers moves few blocks at a time.
pub proof fn law_rebalancing_is_bounded(loads: Seq<WorkerLoad>, blocks: Seq<Seq<BlockId>>)
    ensures
        rebalance_plan(loads, blocks).len() <= MAX_REBALANCE_ACTIONS,
        loads.len() < 2 ==> rebalance_plan(loads, blocks).len() == 0,
{
}

/// A plan that balances workers takes blocks only from busy workers and gives them only to idle
/// ones.
pub proof fn law_blocks_move_from_busy_to_idle(loads: Seq<WorkerLoad>, blocks: Seq<Seq<BlockId>>, i: int)
    requires
        0 <= i < rebalance_plan(loads, blocks).len(),
    ensures
        rebalance_plan(loads, blocks)[i] matches ActionModel::MoveCopy { from_worker, to_worker, .. } && overloaded(
            loads,
        ).contains(from_worker) && underloaded(loads).contains(to_worker),
{
    lemma_moves_ends(overloaded(loads), blocks, underloaded(loads));
}

proof fn lemma_moves_ends(from: Seq<WorkerId>, blocks: Seq<Seq<BlockId>>, targets: Seq<WorkerId>)
    requires
        targets.len() > 0,
    ensures
        forall|i: int|
            0 <= i < all_moves(from, blocks, targets).len() ==> ((#[trigger] all_moves(from, blocks, targets)[i])
                matches ActionModel::MoveCopy { from_worker, to_worker, .. } && from.contains(from_worker)
                && targets.contains(to_worker)),
    decreases from.len(),
{
    if from.len() > 0 {
        let rest = from.drop_last();
        lemma_moves_ends(rest, blocks, targets);
        let earlier = all_moves(rest, blocks, targets);
        assert forall|i: int| 0 <= i < all_moves(from, blocks, targets).len() implies ((#[trigger] all_moves(
            from,
            blocks,
            targets,
        )[i]) matches ActionModel::MoveCopy { from_worker, to_worker, .. } && from.contains(from_worker)
            && targets.contains(to_worker)) by {
            if i < earlier.len() {
                let w = earlier[i]->from_worker;
                let j = choose|j: int| 0 <= j < rest.len() && rest[j] == w;
                assert(from[j] == w);
            } else {
                assert(from[from.len() - 1] == from.last());
                let k = (i - earlier.len()) % (targets.len() as int);
                assert(0 <= k < targets.len());
                assert(targets.contains(targets[k]));
            }
        }
    }
}

/// Loads of live workers, one of each, are all planned with.
pub proof fn law_loads_of_live_workers_are_kept(loads: Seq<WorkerLoad>, live: Set<WorkerId>)
    requires
        forall|i: int| 0 <= i < loads.len() ==> live.contains((#[trigger] loads[i]).worker_id),
        forall|i: int, j: int|
            0 <= i < j < loads.len() ==> (#[trigger] loads[i]).worker_id != (#[trigger] loads[j]).worker_id,
    ensures
        of_live(loads, live) == loads,
    decreases loads.len(),
{
    if loads.len() > 0 {
        let rest = loads.drop_last();
        law_loads_of_live_workers_are_kept(rest, live);
        assert(live.contains(loads[loads.len() - 1].worker_id));
        assert(!names(rest, loads.last().worker_id)) by {
            if names(rest, loads.last().worker_id) {
                let i = choose|i: int| 0 <= i < rest.len() && (#[trigger] rest[i]).worker_id == loads.last().worker_id;
                assert(loads[i].worker_id != loads[loads.len() - 1].worker_id);
            }
        }
        assert(rest.push(loads.last()) =~= loads);
    } else {
        assert(of_live(loads, live) =~= loads);
    }
}

proof fn lemma_of_live(loads: Seq<WorkerLoad>, live: Set<WorkerId>)
    ensures
        forall|i: int|
            0 <= i < of_live(loads, live).len() ==> live.contains((#[trigger] of_live(loads, live)[i]).worker_id),
        forall|i: int, j: int|
            0 <= i < j < of_live(loads, live).len() ==> (#[trigger] of_live(loads, live)[i]).worker_id != (
            #[trigger] of_live(loads, live)[j]).worker_id,
    decreases loads.len(),
{
    if loads.len() > 0 {
        lemma_of_live(loads.drop_last(), live);
        let rest = of_live(loads.drop_last(), live);
        let all = of_live(loads, live);
        assert forall|i: int, j: int| 0 <= i < j < all.len() implies (#[trigger] all[i]).worker_id != (
        #[trigger] all[j]).worker_id by {
            assert(all[i] == rest[i]);
            if j < rest.len() {
                assert(all[j] == rest[j]);
            }
        }
    }
}

/// What is sorted stands in the list that it was sorted from.
proof fn lemma_sorted_from(loads: Seq<WorkerLoad>, load: WorkerLoad)
    requires
        by_load(loads).contains(load),
    ensures
        loads.contains(load),
{
    broadcast use vstd::seq_lib::group_to_multiset_ensures;

    law_sorting_keeps_workers(loads);
    assert(by_load(loads).to_multiset().count(load) > 0);
    assert(loads.to_multiset().count(load) > 0);
}

proof fn lemma_busy(loads: Seq<WorkerLoad>, w: WorkerId)
    requires
        busy(loads).contains(w),
    ensures
        exists|i: int|
            0 <= i < loads.len() && (#[trigger] loads[i]).worker_id == w && loads[i].load_rank > HIGH_LOAD_RANK,
    decreases loads.len(),
{
    let rest = loads.drop_last();
    let n = choose|n: int| 0 <= n < busy(loads).len() && busy(loads)[n] == w;
    if loads.last().load_rank > HIGH_LOAD_RANK && n == busy(rest).len() {
        assert(loads[loads.len() - 1].worker_id == w);
    } else {
        assert(busy(rest)[n] == w);
        lemma_busy(rest, w);
        let i = choose|i: int|
            0 <= i < rest.len() && (#[trigger] rest[i]).worker_id == w && rest[i].load_rank > HIGH_LOAD_RANK;
        assert(loads[i].worker_id == w);
    }
}

proof fn lemma_idle(loads: Seq<WorkerLoad>, w: WorkerId)
    requires
        idle(loads).contains(w),
    ensures
        exists|i: int|
            0 <= i < loads.len() && (#[trigger] loads[i]).worker_id == w && loads[i].load_rank < LOW_LOAD_RANK,
    decreases loads.len(),
{
    let rest = loads.drop_last();
    let n = choose|n: int| 0 <= n < idle(loads).len() && idle(loads)[n] == w;
    if loads.last().load_rank < LOW_LOAD_RANK && n == idle(rest).len() {
        assert(loads[loads.len() - 1].worker_id == w);
    } else {
        assert(idle(rest)[n] == w);
        lemma_idle(rest, w);
        let i = choose|i: int|
            0 <= i < rest.len() && (#[trigger] rest[i]).worker_id == w && rest[i].load_rank < LOW_LOAD_RANK;
        assert(loads[i].worker_id == w);
    }
}

/// The workers that blocks are taken from have a high load, and those that get them a low one.
pub proof fn law_ends_are_busy_and_idle(loads: Seq<WorkerLoad>, w: WorkerId)
    ensures
        overloaded(loads).contains(w) ==> has_high_load(loads, w),
        underloaded(loads).contains(w) ==> has_low_load(loads, w),
{
    let sorted = by_load(loads);
    law_sorting_keeps_workers(loads);
    if overloaded(loads).contains(w) {
        let top = sorted.reverse().take(a_fifth(sorted.len()) as int);
        lemma_busy(top, w);
        let i = choose|i: int|
            0 <= i < top.len() && (#[trigger] top[i]).worker_id == w && top[i].load_rank > HIGH_LOAD_RANK;
        let load = sorted[sorted.len() - 1 - i];
        assert(top[i] == load);
        assert(sorted.contains(load));
        lemma_sorted_from(loads, load);
        let j = choose|j: int| 0 <= j < loads.len() && loads[j] == load;
        assert(loads[j].worker_id == w);
    }
    if underloaded(loads).contains(w) {
        let bottom = sorted.take(a_fifth(sorted.len()) as int);
        lemma_idle(bottom, w);
        let i = choose|i: int|
            0 <= i < bottom.len() && (#[trigger] bottom[i]).worker_id == w && bottom[i].load_rank < LOW_LOAD_RANK;
        let load = sorted[i];
        assert(bottom[i] == load);
        assert(sorted.contains(load));
        lemma_sorted_from(loads, load);
        let j = choose|j: int| 0 <= j < loads.len() && loads[j] == load;
        assert(loads[j].worker_id == w);
    }
}

pub open spec fn has_high_load(loads: Seq<WorkerLoad>, w: WorkerId) -> bool {
    exists|i: int| 0 <= i < loads.len() && (#[trigger] loads[i]).worker_id == w && loads[i].load_rank > HIGH_LOAD_RANK
}

pub open spec fn has_low_load(loads: Seq<WorkerLoad>, w: WorkerId) -> bool {
    exists|i: int| 0 <= i < loads.len() && (#[trigger] loads[i]).worker_id == w && loads[i].load_rank < LOW_LOAD_RANK
}

/// Every move of a plan for a group takes a block that its worker has, from a live worker with a
/// high load to another live worker with a low one.
pub proof fn law_moves_are_between_live_workers(
    manager: WorkerManager,
    group_name: Seq<char>,
    loads: Seq<WorkerLoad>,
    now: Moment,
    i: int,
)
    requires
        manager.inv(),
        0 <= i < balance_plan(manager, group_name, loads, now).len(),
    ensures
        ({
            let planned_with = of_live(loads, manager::live_ids(manager@, group_name, now));
            &&& balance_plan(manager, group_name, loads, now)[i] matches ActionModel::MoveCopy {
                block_id,
                from_worker,
                to_worker,
            }
            &&& manager@.live((group_name, from_worker), now)
            &&& manager@.live((group_name, to_worker), now)
            &&& from_worker != to_worker
            &&& has_high_load(planned_with, from_worker)
            &&& has_low_load(planned_with, to_worker)
            &&& manager@.blocks((group_name, from_worker)).contains(block_id)
        }),
{
    let live = manager::live_ids(manager@, group_name, now);
    let planned_with = of_live(loads, live);
    let from = overloaded(planned_with);
    let targets = underloaded(planned_with);
    let blocks = lists_of(manager, group_name, from);
    let moves = all_moves(from, blocks, targets);
    lemma_of_live(loads, live);
    lemma_moves_blocks(from, blocks, targets, i);
    let source = moves[i]->from_worker;
    let target = moves[i]->to_worker;
    let block = moves[i]->MoveCopy_block_id;
    law_ends_are_busy_and_idle(planned_with, source);
    law_ends_are_busy_and_idle(planned_with, target);
    let a = choose|a: int|
        0 <= a < planned_with.len() && (#[trigger] planned_with[a]).worker_id == source && planned_with[a].load_rank
            > HIGH_LOAD_RANK;
    let b = choose|b: int|
        0 <= b < planned_with.len() && (#[trigger] planned_with[b]).worker_id == target && planned_with[b].load_rank
            < LOW_LOAD_RANK;
    assert(a != b);
    assert(live.contains(planned_with[a].worker_id) && live.contains(planned_with[b].worker_id));
    let n = choose|n: int| 0 <= n < from.len() && from[n] == source && (#[trigger] blocks[n]).contains(block);
    manager.law_lists_are_published_blocks((group_name, source));
    assert(manager.listed((group_name, source)).to_set().contains(block));
}

/// Each move takes a block of the worker it is taken from.
proof fn lemma_moves_blocks(from: Seq<WorkerId>, blocks: Seq<Seq<BlockId>>, targets: Seq<WorkerId>, i: int)
    requires
        targets.len() > 0,
        0 <= i < all_moves(from, blocks, targets).len(),
    ensures
        all_moves(from, blocks, targets)[i] matches ActionModel::MoveCopy { block_id, from_worker, to_worker }
            && targets.contains(to_worker) && from.contains(from_worker) && exists|n: int|
            0 <= n < from.len() && from[n] == from_worker && (#[trigger] blocks[n]).contains(block_id),
    decreases from.len(),
{
    if from.len() > 0 {
        let rest = from.drop_last();
        let earlier = all_moves(rest, blocks, targets);
        if i < earlier.len() {
            lemma_moves_blocks(rest, blocks, targets, i);
            let n = choose|n: int|
                0 <= n < rest.len() && rest[n] == earlier[i]->from_worker && (#[trigger] blocks[n]).contains(
                    earlier[i]->MoveCopy_block_id,
                );
            assert(from[n] == rest[n]);
        } else {
            let at = i - earlier.len();
            let k = at % (targets.len() as int);
            assert(0 <= k < targets.len());
            assert(targets.contains(targets[k]));
            assert(from[from.len() - 1] == from.last());
            assert(blocks[from.len() - 1][at] == first(blocks[from.len() - 1], MAX_BLOCKS_PER_WORKER as nat)[at]);
            assert(blocks[from.len() - 1].contains(blocks[from.len() - 1][at]));
        }
    }
}

} // verus!
