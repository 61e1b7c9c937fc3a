//! Commands for workers: where they come from, and how many a worker is given at a time.

use crate::clock;
use crate::ids::{BlockId, WorkerId};
use crate::worker::repair::queue;
use crate::worker::repair::queue::RepairQueue;
use crate::worker::repair::types::{RecordModel, RepairTask, RepairTaskRecord, TaskModel};
use vstd::prelude::*;

verus! {

/// What kind of deletion an eviction is.
#[derive(Clone, Copy, Debug, PartialEq, Eq, Structural)]
pub enum DeleteOpKind {
    Unspecified,
    /// One copy of a block that has others.
    ReplicaEvict,
}

/// What a worker is told to do.
#[derive(Debug)]
pub enum WorkerOrder {
    Replicate { block_id: BlockId, target_worker_ids: Vec<u64> },
    Evict {
        block_ids: Vec<BlockId>,
        reason: String,
        intent_id: u64,
        op_kind: DeleteOpKind,
        not_before_ms: u64,
        expected_epoch: u64,
    },
}

/// A command with the identity under which the worker answers it.
#[derive(Debug)]
pub struct WorkerCommand {
    pub task_id: u64,
    pub order: WorkerOrder,
}

pub ghost enum OrderModel {
    Replicate(BlockId, Seq<u64>),
    Evict {
        block_ids: Seq<BlockId>,
        reason: Seq<char>,
        intent_id: u64,
        op_kind: DeleteOpKind,
        not_before_ms: u64,
        expected_epoch: u64,
    },
}

impl View for WorkerOrder {
    type V = OrderModel;

    open spec fn view(&self) -> OrderModel {
        match self {
            WorkerOrder::Replicate { block_id, target_worker_ids } => OrderModel::Replicate(
                *block_id,
                target_worker_ids@,
            ),
            WorkerOrder::Evict { block_ids, reason, intent_id, op_kind, not_before_ms, expected_epoch } =>
                OrderModel::Evict {
                block_ids: block_ids@,
                reason: reason@,
                intent_id: *intent_id,
                op_kind: *op_kind,
                not_before_ms: *not_before_ms,
                expected_epoch: *expected_epoch,
            },
        }
    }
}

/// Where commands for workers come from.
pub trait WorkerCommandSource: Sized {
    /// What the source needs to hold before it is asked, and holds again afterwards. Nothing,
    /// where the source does not say.
    open spec fn ready(&self) -> bool {
        true
    }

    /// Whether asking the source for so many commands for the worker can lead from one state of it
    /// to the other and give these commands. Anything can, where the source does not say.
    open spec fn gives(before: Self, after: Self, worker_id: WorkerId, max: usize, commands: Seq<WorkerCommand>) -> bool {
        true
    }

    /// At most so many commands for the worker.
    fn poll_commands(&mut self, worker_id: WorkerId, max: usize) -> (commands: Vec<WorkerCommand>)
        requires
            old(self).ready(),
        ensures
            final(self).ready(),
            Self::gives(*old(self), *final(self), worker_id, max, commands@),
    ;
}

/// A source, and how much it may give at a time.
pub struct RegisteredCommandSource<S: WorkerCommandSource> {
    pub source: S,
    pub max_per_poll: usize,
}

/// Gathers commands from sources, the first registered first, and numbers them anew.
pub struct WorkerCommandRouter<S: WorkerCommandSource> {
    pub sources: Vec<RegisteredCommandSource<S>>,
    pub next_external_task_id: u64,
}

/// The number after so many more. Numbers start over beyond their range.
#[verifier::opaque]
pub open spec fn number_after(start: u64, more: nat) -> u64 {
    ((start + more) % 0x1_0000_0000_0000_0000) as u64
}

proof fn lemma_number_after(start: u64, a: nat, b: nat)
    ensures
        number_after(start, 0) == start,
        number_after(number_after(start, a), b) == number_after(start, a + b),
        number_after(start, a).wrapping_add(1) == number_after(start, a + 1),
{
    reveal(number_after);
}

/// The commands are numbered one after the other.
pub open spec fn numbered_from(commands: Seq<WorkerCommand>, start: u64) -> bool {
    forall|i: int| 0 <= i < commands.len() ==> (#[trigger] commands[i]).task_id == number_after(start, i as nat)
}

/// The commands that are taken from a source: those that fit, in their order, numbered on.
pub open spec fn is_taken(
    before: Seq<WorkerCommand>,
    after: Seq<WorkerCommand>,
    polled: Seq<WorkerCommand>,
    budget: usize,
    start: u64,
) -> bool {
    let room = if before.len() < budget {
        budget - before.len()
    } else {
        0
    };
    let count = if polled.len() <= room {
        polled.len() as int
    } else {
        room
    };
    &&& after.len() == before.len() + count
    &&& after.take(before.len() as int) == before
    &&& forall|i: int|
        0 <= i < count ==> (#[trigger] after[before.len() + i]).order == polled[i].order && after[before.len()
            + i].task_id == number_after(start, i as nat)
}

/// Takes commands from a source as long as they fit, and numbers them on. Gives the next number.
pub fn take_commands(commands: &mut Vec<WorkerCommand>, polled: Vec<WorkerCommand>, budget: usize, start: u64) -> (next: u64)
    requires
        old(commands)@.len() <= budget,
    ensures
        is_taken(old(commands)@, final(commands)@, polled@, budget, start),
        next == number_after(start, (final(commands)@.len() - old(commands)@.len()) as nat),
        final(commands)@.len() <= budget,
{
    let ghost before = commands@;
    let ghost all = polled@;
    let mut next: u64 = start;
    let mut rest = polled;
    let ghost mut taken: int = 0;
    proof {
        assert(commands@.take(before.len() as int) =~= before);
        assert(rest@ =~= all.skip(0));
        lemma_number_after(start, 0, 0);
    }
    while commands.len() < budget && rest.len() > 0
        invariant
            before.len() <= budget,
            0 <= taken <= all.len(),
            rest@ == all.skip(taken),
            commands@.len() == before.len() + taken,
            commands@.len() <= budget,
            commands@.take(before.len() as int) == before,
            next == number_after(start, taken as nat),
            forall|i: int|
                0 <= i < taken ==> (#[trigger] commands@[before.len() + i]).order == all[i].order && commands@[before.len()
                    + i].task_id == number_after(start, i as nat),
        decreases rest@.len(),
    {
        let ghost so_far = commands@;
        let envelope = rest.remove(0);
        commands.push(WorkerCommand { task_id: next, order: envelope.order });
        next = next.wrapping_add(1);
        proof {
            lemma_number_after(start, taken as nat, 1);
            assert(rest@ =~= all.skip(taken + 1));
            assert(commands@.take(before.len() as int) =~= so_far.take(before.len() as int));
            assert forall|i: int| 0 <= i < taken + 1 implies (#[trigger] commands@[before.len() + i]).order
                == all[i].order && commands@[before.len() + i].task_id == number_after(start, i as nat) by {
                if i < taken {
                    assert(commands@[before.len() + i] == so_far[before.len() + i]);
                }
            }
            taken = taken + 1;
        }
    }
    next
}

/// For how many commands a source is asked: no more than it may give and no more than fits.
pub open spec fn asked_for(so_far: nat, budget: usize, max_per_poll: usize) -> usize {
    if budget - so_far < max_per_poll {
        (budget - so_far) as usize
    } else {
        max_per_poll
    }
}

/// What one source adds to the commands so far. It is not asked once the budget is used up;
/// otherwise it gives `polled`, of which those are taken that fit.
pub open spec fn source_adds<S: WorkerCommandSource>(
    before: RegisteredCommandSource<S>,
    after: RegisteredCommandSource<S>,
    worker_id: WorkerId,
    budget: usize,
    start: u64,
    so_far: Seq<WorkerCommand>,
    polled: Seq<WorkerCommand>,
    commands: Seq<WorkerCommand>,
) -> bool {
    &&& after.max_per_poll == before.max_per_poll
    &&& if so_far.len() >= budget {
        after == before && commands == so_far
    } else {
        &&& S::gives(
            before.source,
            after.source,
            worker_id,
            asked_for(so_far.len(), budget, before.max_per_poll),
            polled,
        )
        &&& is_taken(so_far, commands, polled, budget, number_after(start, so_far.len()))
    }
}

/// The commands are what the sources give for the worker, one source after the other as they were
/// registered, numbered from `start` on.
pub open spec fn gathered<S: WorkerCommandSource>(
    before: Seq<RegisteredCommandSource<S>>,
    after: Seq<RegisteredCommandSource<S>>,
    worker_id: WorkerId,
    budget: usize,
    start: u64,
    commands: Seq<WorkerCommand>,
) -> bool
    decreases before.len(),
{
    &&& after.len() == before.len()
    &&& if before.len() == 0 {
        commands.len() == 0
    } else {
        exists|so_far: Seq<WorkerCommand>, polled: Seq<WorkerCommand>|
            gathered(before.drop_last(), after.drop_last(), worker_id, budget, start, so_far)
                && #[trigger] source_adds(
                before.last(),
                after.last(),
                worker_id,
                budget,
                start,
                so_far,
                polled,
                commands,
            )
    }
}

/// All sources can be asked.
pub open spec fn all_ready<S: WorkerCommandSource>(sources: Seq<RegisteredCommandSource<S>>) -> bool {
    forall|i: int| 0 <= i < sources.len() ==> (#[trigger] sources[i]).source.ready()
}

impl<S: WorkerCommandSource> WorkerCommandRouter<S> {
    pub fn new() -> (router: Self)
        ensures
            router.sources@.len() == 0,
            router.next_external_task_id == 1,
    {
        WorkerCommandRouter { sources: Vec::new(), next_external_task_id: 1 }
    }

    /// Adds a source behind those that are there.
    pub fn register_source(&mut self, source: S, max_per_poll: usize)
        ensures
            final(self).sources@ == old(self).sources@.push(RegisteredCommandSource { source, max_per_poll }),
            final(self).next_external_task_id == old(self).next_external_task_id,
    {
        self.sources.push(RegisteredCommandSource { source, max_per_poll });
    }

    /// Gathers commands for a worker, no more than the budget, and numbers them on. The sources are
    /// asked in their order until the budget is used up, each for no more than it may give and no
    /// more than fits.
    pub fn poll_commands(&mut self, worker_id: WorkerId, budget: usize) -> (commands: Vec<WorkerCommand>)
        requires
            all_ready(old(self).sources@),
        ensures
            all_ready(final(self).sources@),
            gathered(
                old(self).sources@,
                final(self).sources@,
                worker_id,
                budget,
                old(self).next_external_task_id,
                commands@,
            ),
            commands@.len() <= budget,
            numbered_from(commands@, old(self).next_external_task_id),
            final(self).next_external_task_id == number_after(old(self).next_external_task_id, commands@.len()),
    {
        let ghost start = self.next_external_task_id;
        let ghost asked = self.sources@;
        let mut commands: Vec<WorkerCommand> = Vec::new();
        let mut i: usize = 0;
        proof {
            lemma_number_after(start, 0, 0);
        }
        while i < self.sources.len()
            invariant
                i <= self.sources@.len(),
                self.sources@.len() == asked.len(),
                all_ready(self.sources@),
                forall|j: int| i <= j < asked.len() ==> #[trigger] self.sources@[j] == asked[j],
                gathered(asked.take(i as int), self.sources@.take(i as int), worker_id, budget, start, commands@),
                commands@.len() <= budget,
                numbered_from(commands@, start),
                self.next_external_task_id == number_after(start, commands@.len()),
            decreases self.sources@.len() - i,
        {
            let ghost before = commands@;
            let ghost held = self.sources@;
            let ghost mut given: Seq<WorkerCommand> = Seq::empty();
            let remaining: usize = budget - commands.len();
            if remaining > 0 {
                let max_per_poll: usize = self.sources[i].max_per_poll;
                let max: usize = if remaining < max_per_poll {
                    remaining
                } else {
                    max_per_poll
                };
                let polled = self.sources[i].source.poll_commands(worker_id, max);
                proof {
                    given = polled@;
                }
                let ghost number = self.next_external_task_id;
                let next: u64 = take_commands(&mut commands, polled, budget, self.next_external_task_id);
                self.next_external_task_id = next;
                proof {
                    lemma_number_after(start, before.len(), (commands@.len() - before.len()) as nat);
                    assert forall|j: int| 0 <= j < commands@.len() implies (#[trigger] commands@[j]).task_id
                        == number_after(start, j as nat) by {
                        if j < before.len() {
                            assert(commands@.take(before.len() as int)[j] == before[j]);
                        } else {
                            let k = j - before.len();
                            lemma_number_after(start, before.len(), k as nat);
                            assert(commands@[before.len() + k].task_id == number_after(number, k as nat));
                        }
                    }
                }
            }
            proof {
                let was = asked.take(i + 1);
                let is = self.sources@.take(i + 1);
                assert(was.drop_last() =~= asked.take(i as int));
                assert(is.drop_last() =~= held.take(i as int));
                assert(source_adds(was.last(), is.last(), worker_id, budget, start, before, given, commands@));
            }
            i += 1;
        }
        proof {
            assert(asked.take(i as int) =~= asked);
            assert(self.sources@.take(i as int) =~= self.sources@);
        }
        commands
    }
}

/// Where the budget is nothing, no source is asked and nothing comes.
pub proof fn law_no_budget_asks_nobody<S: WorkerCommandSource>(
    before: Seq<RegisteredCommandSource<S>>,
    after: Seq<RegisteredCommandSource<S>>,
    worker_id: WorkerId,
    start: u64,
    commands: Seq<WorkerCommand>,
)
    requires
        gathered(before, after, worker_id, 0, start, commands),
    ensures
        after == before,
        commands.len() == 0,
    decreases before.len(),
{
    if before.len() > 0 {
        let (so_far, polled) = choose|so_far: Seq<WorkerCommand>, polled: Seq<WorkerCommand>|
            gathered(before.drop_last(), after.drop_last(), worker_id, 0, start, so_far) && #[trigger] source_adds(
                before.last(),
                after.last(),
                worker_id,
                0,
                start,
                so_far,
                polled,
                commands,
            );
        law_no_budget_asks_nobody(before.drop_last(), after.drop_last(), worker_id, start, so_far);
        assert(before.drop_last().push(before.last()) =~= before);
        assert(after.drop_last().push(after.last()) =~= after);
    } else {
        assert(after =~= before);
    }
}

/// The order that carries out a repair task.
pub open spec fn order_for(task: TaskModel) -> OrderModel {
    match task {
        TaskModel::Replicate { block_id, target_worker, .. } => OrderModel::Replicate(
            block_id,
            seq![target_worker.raw],
        ),
        TaskModel::EvictReplica { block_id, reason, .. } => OrderModel::Evict {
            block_ids: seq![block_id],
            reason,
            intent_id: 0,
            op_kind: DeleteOpKind::ReplicaEvict,
            not_before_ms: 0,
            expected_epoch: 0,
        },
    }
}

/// The command that carries out a repair task.
pub fn record_to_command(record: RepairTaskRecord) -> (command: WorkerCommand)
    ensures
        command.task_id == record@.id.0,
        command.order@ == order_for(record@.task),
{
    let task_id: u64 = record.id.0;
    let order = match record.task {
        RepairTask::Replicate { block_id, target_worker, .. } => {
            let mut target_worker_ids: Vec<u64> = Vec::new();
            target_worker_ids.push(target_worker.raw);
            assert(target_worker_ids@ =~= seq![target_worker.raw]);
            WorkerOrder::Replicate { block_id, target_worker_ids }
        },
        RepairTask::EvictReplica { block_id, reason, .. } => {
            let mut block_ids: Vec<BlockId> = Vec::new();
            block_ids.push(block_id);
            assert(block_ids@ =~= seq![block_id]);
            WorkerOrder::Evict {
                block_ids,
                reason,
                intent_id: 0,
                op_kind: DeleteOpKind::ReplicaEvict,
                not_before_ms: 0,
                expected_epoch: 0,
            }
        },
    };
    WorkerCommand { task_id, order }
}

/// The commands carry out the tasks.
pub open spec fn carry_out(commands: Seq<WorkerCommand>, records: Seq<RecordModel>) -> bool {
    &&& commands.len() == records.len()
    &&& forall|i: int|
        0 <= i < commands.len() ==> (#[trigger] commands[i]).task_id == records[i].id.0 && commands[i].order@
            == order_for(records[i].task)
}

/// Repair tasks as a source of commands.
pub struct RepairCommandSource {
    pub repair_queue: RepairQueue,
}

impl RepairCommandSource {
    pub fn new(repair_queue: RepairQueue) -> (source: Self)
        ensures
            source.repair_queue == repair_queue,
    {
        RepairCommandSource { repair_queue }
    }

    /// The commands for the repair tasks that are handed out to a worker at this time.
    pub fn poll_commands_at(&mut self, worker_id: WorkerId, max: usize, now_ms: u64) -> (commands: Vec<WorkerCommand>)
        requires
            old(self).repair_queue.inv(),
        ensures
            final(self).repair_queue.inv(),
            final(self).repair_queue@ == old(self).repair_queue@.polled(worker_id, max, now_ms),
            carry_out(
                commands@,
                queue::given(
                    old(self).repair_queue@.records,
                    worker_id,
                    now_ms,
                    old(self).repair_queue@.room(worker_id, max),
                ),
            ),
    {
        let records = self.repair_queue.poll_for_worker_at(worker_id, max, now_ms);
        let ghost handed = queue::record_views(records@);
        let mut commands: Vec<WorkerCommand> = Vec::new();
        let mut i: usize = 0;
        while i < records.len()
            invariant
                i <= records@.len(),
                handed == queue::record_views(records@),
                commands@.len() == i,
                forall|j: int|
                    0 <= j < i ==> (#[trigger] commands@[j]).task_id == handed[j].id.0 && commands@[j].order@ == order_for(
                        handed[j].task,
                    ),
            decreases records@.len() - i,
        {
            let command = record_to_command(records[i].clone());
            assert(handed[i as int] == records@[i as int]@);
            commands.push(command);
            i += 1;
        }
        commands
    }

    /// The commands for the repair tasks that are handed out to a worker.
    pub fn poll_repair_commands(&mut self, worker_id: WorkerId, max: usize) -> (commands: Vec<WorkerCommand>)
        requires
            old(self).repair_queue.inv(),
        ensures
            final(self).repair_queue.inv(),
            hands_out(*old(self), *final(self), worker_id, max, commands@),
    {
        let now_ms: u64 = clock::unix_millis();
        self.poll_commands_at(worker_id, max, now_ms)
    }
}

/// The commands carry out the repair tasks that are handed out to the worker at some time.
pub open spec fn hands_out(
    before: RepairCommandSource,
    after: RepairCommandSource,
    worker_id: WorkerId,
    max: usize,
    commands: Seq<WorkerCommand>,
) -> bool {
    exists|now_ms: u64|
        after.repair_queue@ == #[trigger] before.repair_queue@.polled(worker_id, max, now_ms) && carry_out(
            commands,
            queue::given(before.repair_queue@.records, worker_id, now_ms, before.repair_queue@.room(worker_id, max)),
        )
}

impl WorkerCommandSource for RepairCommandSource {
    open spec fn ready(&self) -> bool {
        self.repair_queue.inv()
    }

    open spec fn gives(
        before: RepairCommandSource,
        after: RepairCommandSource,
        worker_id: WorkerId,
        max: usize,
        commands: Seq<WorkerCommand>,
    ) -> bool {
        hands_out(before, after, worker_id, max, commands)
    }

    fn poll_commands(&mut self, worker_id: WorkerId, max: usize) -> (commands: Vec<WorkerCommand>) {
        self.poll_repair_commands(worker_id, max)
    }
}

/// A source is asked for as many commands as it may give at a time, or for as many as the budget
/// has left, whichever is less.
pub proof fn law_sources_are_asked_within_the_budget(so_far: nat, budget: usize, max_per_poll: usize)
    requires
        so_far <= budget,
    ensures
        asked_for(so_far, budget, max_per_poll) <= max_per_poll,
        so_far + asked_for(so_far, budget, max_per_poll) <= budget,
        asked_for(so_far, budget, max_per_poll) == max_per_poll || so_far + asked_for(so_far, budget, max_per_poll)
            == budget,
{
}

/// The commands of a source are taken behind those that are there, in their order and with their
/// orders, until there are no more or the budget is used up. They are numbered on.
pub proof fn law_commands_are_taken_in_order(
    before: Seq<WorkerCommand>,
    after: Seq<WorkerCommand>,
    polled: Seq<WorkerCommand>,
    budget: usize,
    start: u64,
)
    requires
        before.len() <= budget,
        is_taken(before, after, polled, budget, start),
    ensures
        before.len() <= after.len() <= budget,
        after.len() - before.len() <= polled.len(),
        after.len() == budget || after.len() - before.len() == polled.len(),
        forall|i: int| 0 <= i < before.len() ==> #[trigger] after[i] == before[i],
        forall|i: int|
            before.len() <= i < after.len() ==> (#[trigger] after[i]).order == polled[i - before.len()].order && (start
                + (i - before.len()) <= u64::MAX ==> after[i].task_id == start + (i - before.len())),
{
    reveal(number_after);
    assert forall|i: int| 0 <= i < before.len() implies #[trigger] after[i] == before[i] by {
        assert(after.take(before.len() as int)[i] == before[i]);
    }
    assert forall|i: int| before.len() <= i < after.len() implies (#[trigger] after[i]).order == polled[i
        - before.len()].order && (start + (i - before.len()) <= u64::MAX ==> after[i].task_id == start + (i
        - before.len())) by {
        assert(after[before.len() + (i - before.len())] == after[i]);
    }
}

/// A worker gets no more commands than its budget, numbered one after the other from the number
/// that comes next, while numbers last.
pub proof fn law_commands_are_numbered_within_the_budget<S: WorkerCommandSource>(
    before: Seq<RegisteredCommandSource<S>>,
    after: Seq<RegisteredCommandSource<S>>,
    worker_id: WorkerId,
    budget: usize,
    start: u64,
    commands: Seq<WorkerCommand>,
)
    requires
        gathered(before, after, worker_id, budget, start, commands),
    ensures
        commands.len() <= budget,
        forall|i: int|
            0 <= i < commands.len() && start + i <= u64::MAX ==> (#[trigger] commands[i]).task_id == start + i,
    decreases before.len(),
{
    reveal(number_after);
    if before.len() > 0 {
        let (so_far, polled) = choose|so_far: Seq<WorkerCommand>, polled: Seq<WorkerCommand>|
            gathered(before.drop_last(), after.drop_last(), worker_id, budget, start, so_far) && #[trigger] source_adds(
                before.last(),
                after.last(),
                worker_id,
                budget,
                start,
                so_far,
                polled,
                commands,
            );
        law_commands_are_numbered_within_the_budget(
            before.drop_last(),
            after.drop_last(),
            worker_id,
            budget,
            start,
            so_far,
        );
        if so_far.len() < budget {
            law_commands_are_taken_in_order(
                so_far,
                commands,
                polled,
                budget,
                number_after(start, so_far.len()),
            );
            assert forall|i: int| 0 <= i < commands.len() && start + i <= u64::MAX implies (
            #[trigger] commands[i]).task_id == start + i by {
                if i < so_far.len() {
                    assert(commands[i] == so_far[i]);
                }
            }
        }
    }
}

/// A command tells the worker what its task is: to copy the block to itself, or to drop its copy
/// for the reason that the task gives, as a removal of one copy, at once and under any epoch.
pub proof fn law_orders_carry_out_their_task(task: TaskModel)
    ensures
        task matches TaskModel::Replicate { block_id, target_worker, .. } ==> (order_for(task)
            matches OrderModel::Replicate(b, targets) && b == block_id && targets.len() == 1 && targets[0]
            == target_worker.raw),
        task matches TaskModel::EvictReplica { block_id, reason, .. } ==> (order_for(task) matches OrderModel::Evict {
            block_ids,
            reason: r,
            intent_id,
            op_kind,
            not_before_ms,
            expected_epoch,
        } && block_ids.len() == 1 && block_ids[0] == block_id && r == reason && intent_id == 0 && op_kind
            == DeleteOpKind::ReplicaEvict && not_before_ms == 0 && expected_epoch == 0),
{
}

} // verus!
