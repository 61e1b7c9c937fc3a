//! What becomes of repair tasks and of suspected blocks, told by what they are.

use crate::error::ErrorKind;
use crate::ids::{BlockId, WorkerId};
use crate::worker::command_router;
use crate::worker::command_router::{RepairCommandSource, WorkerCommand};
use crate::worker::repair::actions::ActionModel;
use crate::worker::repair::orphan;
use crate::worker::repair::orphan::OrphanEntry;
use crate::worker::repair::planner;
use crate::worker::repair::queue;
use crate::worker::repair::queue::QueueModel;
use crate::worker::repair::types::{RecordModel, RepairTaskId, RepairTaskState, TaskAckStatus, TaskModel};
use vstd::arithmetic::power2::pow2;
use vstd::prelude::*;

verus! {

// ---------------------------------------------------------------------------------------------
// Queueing
// ---------------------------------------------------------------------------------------------

/// The same kind of work on the same block by the same worker.
pub open spec fn same_job(a: TaskModel, b: TaskModel) -> bool {
    match (a, b) {
        (TaskModel::Replicate { block_id, target_worker, .. }, TaskModel::Replicate {
            block_id: other_block,
            target_worker: other_worker,
            ..
        }) => block_id == other_block && target_worker == other_worker,
        (TaskModel::EvictReplica { block_id, target_worker, .. }, TaskModel::EvictReplica {
            block_id: other_block,
            target_worker: other_worker,
            ..
        }) => block_id == other_block && target_worker == other_worker,
        _ => false,
    }
}

/// The worker that has to do the task.
pub open spec fn is_for(task: TaskModel, worker_id: WorkerId) -> bool {
    match task {
        TaskModel::Replicate { target_worker, .. } => target_worker == worker_id,
        TaskModel::EvictReplica { target_worker, .. } => target_worker == worker_id,
    }
}

/// Tasks have the same key exactly if they are the same job.
pub proof fn law_keys_tell_jobs(a: TaskModel, b: TaskModel)
    ensures
        a.key() == b.key() <==> same_job(a, b),
        is_for(a, a.key().target_worker),
        forall|w: WorkerId| #[trigger] is_for(a, w) ==> w == a.key().target_worker,
{
}

proof fn lemma_finds_key(queue: QueueModel, task: TaskModel)
    requires
        queue.wf(),
    ensures
        ({
            let at = queue::find_key(queue.records, task.key(), 0);
            &&& at >= 0 ==> at < queue.records.len() && same_job(queue.records[at].task, task)
            &&& at < 0 ==> forall|i: int|
                0 <= i < queue.records.len() ==> !same_job((#[trigger] queue.records[i]).task, task)
        }),
{
    lemma_find_key_from(queue.records, task, 0);
}

proof fn lemma_find_key_from(records: Seq<RecordModel>, task: TaskModel, from: int)
    requires
        0 <= from,
    ensures
        ({
            let at = queue::find_key(records, task.key(), from);
            &&& at >= 0 ==> from <= at < records.len() && same_job(records[at].task, task)
            &&& at < 0 ==> forall|i: int| from <= i < records.len() ==> !same_job((#[trigger] records[i]).task, task)
        }),
    decreases records.len() - from,
{
    if from < records.len() {
        law_keys_tell_jobs(records[from].task, task);
        if records[from].task.key() != task.key() {
            lemma_find_key_from(records, task, from + 1);
        }
    }
}

proof fn lemma_find_id_from(records: Seq<RecordModel>, id: RepairTaskId, from: int)
    requires
        0 <= from,
    ensures
        ({
            let at = queue::find_id(records, id, from);
            &&& at >= 0 ==> from <= at < records.len() && records[at].id == id
            &&& at < 0 ==> forall|i: int| from <= i < records.len() ==> (#[trigger] records[i]).id != id
        }),
    decreases records.len() - from,
{
    if from < records.len() && records[from].id != id {
        lemma_find_id_from(records, id, from + 1);
    }
}

/// A job that is queued keeps its task and its identity. Any other is queued behind all tasks, to
/// be handed out at once, under an identity that no task has; or it is turned down, because the
/// queue is full or has no identity left.
pub proof fn law_new_jobs_are_queued_last(queue: QueueModel, task: TaskModel)
    requires
        queue.wf(),
    ensures
        ({
            let got = queue.enqueued(task);
            let after = queue.with_task(task);
            let n = queue.records.len() as int;
            let known = exists|i: int| 0 <= i < n && same_job((#[trigger] queue.records[i]).task, task);
            &&& forall|i: int|
                0 <= i < n && same_job((#[trigger] queue.records[i]).task, task) ==> got == Ok::<
                    RepairTaskId,
                    (ErrorKind, Seq<char>),
                >(queue.records[i].id)
            &&& known || got is Err ==> after == queue
            &&& !known && n >= queue.config.capacity ==> got is Err && got->Err_0.0 == ErrorKind::ServiceUnavailable
            &&& !known && n < queue.config.capacity && queue.next_id == u64::MAX ==> got is Err && got->Err_0.0
                == ErrorKind::Internal
            &&& !known && n < queue.config.capacity && queue.next_id < u64::MAX ==> {
                &&& got is Ok
                &&& forall|i: int| 0 <= i < n ==> (#[trigger] queue.records[i]).id != got->Ok_0
                &&& after.records.len() == n + 1
                &&& forall|i: int| 0 <= i < n ==> #[trigger] after.records[i] == queue.records[i]
                &&& after.records[n].id == got->Ok_0
                &&& after.records[n].task == task
                &&& after.records[n].attempts == 0
                &&& after.records[n].state == (RepairTaskState::Pending { not_before_ms: 0 })
                &&& after.next_id > got->Ok_0.0
                &&& after.config == queue.config
            }
        }),
{
    lemma_finds_key(queue, task);
    let at = queue::find_key(queue.records, task.key(), 0);
    assert forall|i: int| 0 <= i < queue.records.len() && same_job((#[trigger] queue.records[i]).task, task) implies i
        == at by {
        law_keys_tell_jobs(queue.records[i].task, task);
        law_keys_tell_jobs(queue.records[at].task, task);
        if i < at {
            assert(queue.records[i].task.key() != queue.records[at].task.key());
        }
        if at < i {
            assert(queue.records[at].task.key() != queue.records[i].task.key());
        }
    }
}

// ---------------------------------------------------------------------------------------------
// Handing out
// ---------------------------------------------------------------------------------------------

/// The worker holds the task.
pub open spec fn is_held(record: RecordModel, worker_id: WorkerId) -> bool {
    record.state matches RepairTaskState::InFlight { worker_id: w, .. } && w == worker_id
}

/// The task is the worker's, waits, and may be handed out.
pub open spec fn is_waiting_for(record: RecordModel, worker_id: WorkerId, now_ms: u64) -> bool {
    is_for(record.task, worker_id) && (record.state matches RepairTaskState::Pending { not_before_ms } && not_before_ms
        <= now_ms)
}

/// The task was handed out to the worker at this time: one more attempt, nothing else.
pub open spec fn was_handed(before: RecordModel, after: RecordModel, worker_id: WorkerId, now_ms: u64) -> bool {
    &&& is_waiting_for(before, worker_id, now_ms)
    &&& after.id == before.id
    &&& after.task == before.task
    &&& after.state == (RepairTaskState::InFlight { worker_id, since_ms: now_ms })
    &&& before.attempts < u32::MAX ==> after.attempts == before.attempts + 1
    &&& before.attempts == u32::MAX ==> after.attempts == before.attempts
}

/// The task is one of those that were handed out.
pub open spec fn was_among(
    before: Seq<RecordModel>,
    after: Seq<RecordModel>,
    given: RecordModel,
    worker_id: WorkerId,
    now_ms: u64,
) -> bool {
    exists|i: int|
        0 <= i < before.len() && #[trigger] after[i] == given && was_handed(before[i], after[i], worker_id, now_ms)
}

proof fn lemma_handing(records: Seq<RecordModel>, w: WorkerId, now_ms: u64, room: nat)
    ensures
        ({
            let after = queue::after_giving(records, w, now_ms, room);
            let given = queue::given(records, w, now_ms, room);
            &&& after.len() == records.len()
            &&& given.len() <= room
            &&& forall|i: int|
                0 <= i < records.len() ==> (#[trigger] after[i] == records[i] && (is_waiting_for(records[i], w, now_ms)
                    ==> given.len() >= room)) || (was_handed(records[i], after[i], w, now_ms) && given.contains(after[i]))
            &&& forall|j: int|
                0 <= j < given.len() ==> was_among(records, after, #[trigger] given[j], w, now_ms)
        }),
    decreases records.len(),
{
    if records.len() > 0 {
        let rest = records.drop_last();
        let last = records.last();
        lemma_handing(rest, w, now_ms, room);
        let after = queue::after_giving(records, w, now_ms, room);
        let given = queue::given(records, w, now_ms, room);
        let after_rest = queue::after_giving(rest, w, now_ms, room);
        let given_rest = queue::given(rest, w, now_ms, room);
        let n = rest.len() as int;
        let taken = queue::is_due(last, w, now_ms) && given_rest.len() < room;
        law_keys_tell_jobs(last.task, last.task);
        assert(queue::is_due(last, w, now_ms) <==> is_waiting_for(last, w, now_ms));
        assert forall|i: int| 0 <= i < records.len() implies (#[trigger] after[i] == records[i] && (is_waiting_for(
            records[i],
            w,
            now_ms,
        ) ==> given.len() >= room)) || (was_handed(records[i], after[i], w, now_ms) && given.contains(after[i])) by {
            if i < n {
                assert(after[i] == after_rest[i]);
                if given_rest.contains(after_rest[i]) {
                    let j = choose|j: int| 0 <= j < given_rest.len() && given_rest[j] == after_rest[i];
                    assert(given[j] == after[i]);
                }
            } else if taken {
                assert(given[given.len() - 1] == after[i]);
            }
        }
        assert forall|j: int| 0 <= j < given.len() implies was_among(
            records,
            after,
            #[trigger] given[j],
            w,
            now_ms,
        ) by {
            if j < given_rest.len() {
                assert(given[j] == given_rest[j]);
                let i = choose|i: int|
                    0 <= i < rest.len() && #[trigger] after_rest[i] == given_rest[j] && was_handed(
                        rest[i],
                        after_rest[i],
                        w,
                        now_ms,
                    );
                assert(after[i] == after_rest[i]);
            } else {
                assert(after[n] == given[j]);
            }
        }
    }
}

proof fn lemma_held(records: Seq<RecordModel>, w: WorkerId)
    ensures
        queue::held_by(records, w) == records.filter(|r: RecordModel| is_held(r, w)).len(),
    decreases records.len(),
{
    reveal(Seq::filter);
    if records.len() > 0 {
        lemma_held(records.drop_last(), w);
    }
}

/// A worker that asks for tasks is handed those of its own that wait, as they are, each once more
/// attempted: no more than it asks for, and no more than it may hold together with those that it
/// holds. Every other task stays as it is. A task of its own that could be handed out and is not is
/// left only because there was no room.
pub proof fn law_workers_get_their_waiting_tasks(queue: QueueModel, worker_id: WorkerId, max: usize, now_ms: u64)
    ensures
        ({
            let after = queue.polled(worker_id, max, now_ms);
            let given = queue::given(queue.records, worker_id, now_ms, queue.room(worker_id, max));
            let held = queue.records.filter(|r: RecordModel| is_held(r, worker_id)).len();
            let limit = queue.config.max_inflight_per_worker;
            &&& after.records.len() == queue.records.len()
            &&& after.next_id == queue.next_id
            &&& after.config == queue.config
            &&& given.len() <= max
            &&& given.len() > 0 ==> held + given.len() <= limit
            &&& forall|i: int|
                0 <= i < queue.records.len() ==> #[trigger] after.records[i] == queue.records[i] || (was_handed(
                    queue.records[i],
                    after.records[i],
                    worker_id,
                    now_ms,
                ) && given.contains(after.records[i]))
            &&& forall|j: int|
                0 <= j < given.len() ==> was_among(
                    queue.records,
                    after.records,
                    #[trigger] given[j],
                    worker_id,
                    now_ms,
                )
            &&& forall|i: int|
                0 <= i < queue.records.len() && is_waiting_for(queue.records[i], worker_id, now_ms)
                    && #[trigger] after.records[i] == queue.records[i] ==> given.len() == max || held + given.len()
                    >= limit
        }),
{
    lemma_handing(queue.records, worker_id, now_ms, queue.room(worker_id, max));
    lemma_held(queue.records, worker_id);
}

/// Tasks are handed out in the order in which they stand in the queue.
pub proof fn law_tasks_are_handed_out_in_order(
    records: Seq<RecordModel>,
    worker_id: WorkerId,
    now_ms: u64,
    room: nat,
    one: int,
    other: int,
)
    requires
        0 <= one < other < records.len(),
        queue::after_giving(records, worker_id, now_ms, room)[one] != records[one],
        queue::after_giving(records, worker_id, now_ms, room)[other] != records[other],
    ensures
        ({
            let after = queue::after_giving(records, worker_id, now_ms, room);
            let given = queue::given(records, worker_id, now_ms, room);
            exists|a: int, b: int|
                0 <= a < b < given.len() && #[trigger] given[a] == after[one] && #[trigger] given[b] == after[other]
        }),
    decreases records.len(),
{
    let rest = records.drop_last();
    let after = queue::after_giving(records, worker_id, now_ms, room);
    let given = queue::given(records, worker_id, now_ms, room);
    let after_rest = queue::after_giving(rest, worker_id, now_ms, room);
    let given_rest = queue::given(rest, worker_id, now_ms, room);
    lemma_handing(rest, worker_id, now_ms, room);
    assert(after[one] == after_rest[one]);
    if other < rest.len() {
        assert(after[other] == after_rest[other]);
        law_tasks_are_handed_out_in_order(rest, worker_id, now_ms, room, one, other);
        let (a, b) = choose|a: int, b: int|
            0 <= a < b < given_rest.len() && #[trigger] given_rest[a] == after_rest[one] && #[trigger] given_rest[b]
                == after_rest[other];
        assert(given[a] == given_rest[a] && given[b] == given_rest[b]);
    } else {
        assert(given_rest.contains(after_rest[one]));
        let a = choose|a: int| 0 <= a < given_rest.len() && given_rest[a] == after_rest[one];
        let b = given.len() - 1;
        assert(given[a] == given_rest[a]);
        assert(given[b] == after[other]);
    }
}

// ---------------------------------------------------------------------------------------------
// Acknowledging
// ---------------------------------------------------------------------------------------------

proof fn lemma_backoff_doubles(base_ms: u64, max_ms: u64, failures: nat)
    requires
        failures >= 1,
    ensures
        base_ms * pow2((failures - 1) as nat) <= max_ms ==> queue::backoff(base_ms, max_ms, failures) == base_ms * pow2(
            (failures - 1) as nat,
        ),
        base_ms * pow2((failures - 1) as nat) > max_ms ==> queue::backoff(base_ms, max_ms, failures) == max_ms,
    decreases failures,
{
    if failures == 1 {
        vstd::arithmetic::power2::lemma2_to64();
    } else {
        let less = (failures - 1) as nat;
        lemma_backoff_doubles(base_ms, max_ms, less);
        vstd::arithmetic::power2::lemma_pow2_unfold(less);
        let p = pow2((less - 1) as nat) as int;
        let b = base_ms as int;
        assert(pow2(less) == 2 * p);
        assert(b * (2 * p) == 2 * (b * p)) by (nonlinear_arith);
    }
}

/// The wait after a failure: the base, doubled with every failure before it, and no longer than
/// the longest wait.
pub proof fn law_waits_double_up_to_the_longest(base_ms: u64, max_ms: u64, failures: nat)
    ensures
        queue::backoff(base_ms, max_ms, 0) == queue::backoff(base_ms, max_ms, 1),
        queue::backoff(base_ms, max_ms, failures) <= max_ms,
        failures >= 1 ==> {
            let wanted = base_ms * pow2((failures - 1) as nat);
            &&& wanted <= max_ms ==> queue::backoff(base_ms, max_ms, failures) == wanted
            &&& wanted > max_ms ==> queue::backoff(base_ms, max_ms, failures) == max_ms
        },
{
    if failures >= 1 {
        lemma_backoff_doubles(base_ms, max_ms, failures);
    }
}

/// An acknowledgement is taken from the worker that holds the task, and from nobody else. A task
/// that failed for now and was not handed out too often waits, as it is, for as long as its
/// attempts say; any other is taken out. All other tasks stay as they are.
pub proof fn law_acknowledged_tasks_wait_or_leave(
    queue: QueueModel,
    i: int,
    worker_id: WorkerId,
    status: TaskAckStatus,
    now_ms: u64,
)
    requires
        queue.wf(),
        0 <= i < queue.records.len(),
    ensures
        ({
            let record = queue.records[i];
            let refusal = queue.ack_refusal(record.id, worker_id);
            let after = queue.acked(record.id, status, now_ms);
            let again = status == TaskAckStatus::RetryableFailed && record.attempts <= queue.config.max_retries;
            let wait = queue::backoff(
                queue.config.backoff_base_ms,
                queue.config.backoff_max_ms,
                record.attempts as nat,
            );
            &&& refusal is None <==> is_held(record, worker_id)
            &&& refusal is Some ==> (refusal matches Some((kind, _)) && kind == ErrorKind::InvalidArgument)
            &&& after.next_id == queue.next_id && after.config == queue.config
            &&& !again ==> after.records == queue.records.remove(i)
            &&& again ==> {
                let left = after.records[i];
                &&& after.records.len() == queue.records.len()
                &&& forall|j: int|
                    0 <= j < queue.records.len() && j != i ==> #[trigger] after.records[j] == queue.records[j]
                &&& left.id == record.id && left.task == record.task && left.attempts == record.attempts
                &&& left.state is Pending
                &&& now_ms + wait <= u64::MAX ==> left.state == (RepairTaskState::Pending {
                    not_before_ms: (now_ms + wait) as u64,
                })
                &&& now_ms + wait > u64::MAX ==> left.state == (RepairTaskState::Pending { not_before_ms: u64::MAX })
            }
        }),
{
    let id = queue.records[i].id;
    lemma_find_id_from(queue.records, id, 0);
    let at = queue::find_id(queue.records, id, 0);
    if at < i {
        assert(queue.records[at].id != queue.records[i].id);
    }
    if i < at {
        assert(queue.records[i].id != queue.records[at].id);
    }
}

/// An acknowledgement of a task that is not there is turned down.
pub proof fn law_unknown_tasks_are_not_acknowledged(queue: QueueModel, id: RepairTaskId, worker_id: WorkerId)
    requires
        forall|i: int| 0 <= i < queue.records.len() ==> (#[trigger] queue.records[i]).id != id,
    ensures
        queue.ack_refusal(id, worker_id) matches Some((kind, _)) && kind == ErrorKind::NotFound,
{
    lemma_find_id_from(queue.records, id, 0);
}

/// The worker has had the task for longer than the timeout.
pub open spec fn is_overdue(record: RecordModel, timeout_ms: u64, now_ms: u64) -> bool {
    record.state matches RepairTaskState::InFlight { since_ms, .. } && now_ms > since_ms + timeout_ms
}

proof fn lemma_counts(records: Seq<RecordModel>, timeout_ms: u64, now_ms: u64)
    ensures
        queue::waiting(records) == records.filter(|r: RecordModel| r.state is Pending).len(),
        queue::forgotten(records, timeout_ms, now_ms) == records.filter(
            |r: RecordModel| is_overdue(r, timeout_ms, now_ms),
        ).len(),
    decreases records.len(),
{
    reveal(Seq::filter);
    if records.len() > 0 {
        lemma_counts(records.drop_last(), timeout_ms, now_ms);
    }
}

/// A task that its worker has had for too long waits again, to be handed out at once; every other
/// stays as it is. The number of those, and of those that wait, is told.
pub proof fn law_overdue_tasks_wait_again(queue: QueueModel, now_ms: u64, i: int)
    requires
        0 <= i < queue.records.len(),
    ensures
        ({
            let timeout_ms = queue.config.inflight_timeout_ms;
            let after = queue.requeued(now_ms);
            let record = queue.records[i];
            &&& after.records.len() == queue.records.len()
            &&& after.next_id == queue.next_id && after.config == queue.config
            &&& after.records[i].id == record.id && after.records[i].task == record.task && after.records[i].attempts
                == record.attempts
            &&& is_overdue(record, timeout_ms, now_ms) ==> after.records[i].state == (RepairTaskState::Pending {
                not_before_ms: 0,
            })
            &&& !is_overdue(record, timeout_ms, now_ms) ==> after.records[i].state == record.state
            &&& queue::forgotten(queue.records, timeout_ms, now_ms) == queue.records.filter(
                |r: RecordModel| is_overdue(r, timeout_ms, now_ms),
            ).len()
            &&& queue::waiting(queue.records) == queue.records.filter(|r: RecordModel| r.state is Pending).len()
        }),
{
    lemma_counts(queue.records, queue.config.inflight_timeout_ms, now_ms);
}

// ---------------------------------------------------------------------------------------------
// Suspected blocks
// ---------------------------------------------------------------------------------------------

/// A block of a worker that is suspected already, or for which there is no room, is left out. Any
/// other goes behind the rest, with the time at which it was reported.
pub proof fn law_suspicions_line_up(entries: Seq<OrphanEntry>, capacity: usize, entry: OrphanEntry)
    ensures
        ({
            let after = orphan::reported(entries, capacity, entry);
            let known = exists|i: int|
                0 <= i < entries.len() && (#[trigger] entries[i]).block_id == entry.block_id && entries[i].worker_id
                    == entry.worker_id;
            &&& known || entries.len() >= capacity ==> after == entries
            &&& !known && entries.len() < capacity ==> after.len() == entries.len() + 1 && after.last() == entry
                && after.drop_last() == entries
        }),
{
    let after = orphan::reported(entries, capacity, entry);
    if after.len() > entries.len() {
        assert(after.drop_last() =~= entries);
    }
}

proof fn lemma_eligible(entries: Seq<OrphanEntry>, min_age_ms: u64, now_ms: u64)
    ensures
        orphan::eligible(entries, min_age_ms, now_ms) == entries.filter(
            |e: OrphanEntry| has_stood(e, min_age_ms, now_ms),
        ).len(),
    decreases entries.len(),
{
    reveal(Seq::filter);
    if entries.len() > 0 {
        lemma_eligible(entries.drop_last(), min_age_ms, now_ms);
    }
}

/// The suspicion has stood for the time that was set.
pub open spec fn has_stood(entry: OrphanEntry, min_age_ms: u64, now_ms: u64) -> bool {
    min_age_ms == 0 || entry.added_ms + min_age_ms <= now_ms
}

/// The oldest suspicion is taken exactly once it has stood for the time that was set, and no other
/// before it; as many count as have stood that long.
pub proof fn law_the_oldest_suspicion_is_taken(entries: Seq<OrphanEntry>, min_age_ms: u64, now_ms: u64)
    ensures
        entries.len() == 0 ==> orphan::taken(entries, min_age_ms, now_ms) is None,
        entries.len() > 0 ==> (orphan::taken(entries, min_age_ms, now_ms) is Some <==> has_stood(
            entries[0],
            min_age_ms,
            now_ms,
        )),
        orphan::taken(entries, min_age_ms, now_ms) is Some ==> orphan::taken(entries, min_age_ms, now_ms) == Some(
            (entries[0].block_id, entries[0].worker_id),
        ),
        orphan::eligible(entries, min_age_ms, now_ms) == entries.filter(
            |e: OrphanEntry| has_stood(e, min_age_ms, now_ms),
        ).len(),
{
    lemma_eligible(entries, min_age_ms, now_ms);
}

// ---------------------------------------------------------------------------------------------
// Plans
// ---------------------------------------------------------------------------------------------

/// The task of some action of the plan.
pub open spec fn is_planned(plan: Seq<ActionModel>, task: TaskModel) -> bool {
    exists|i: int| 0 <= i < plan.len() && (#[trigger] plan[i]).task() == task
}

/// Some task of the queue is the same job.
pub open spec fn has_job(queue: QueueModel, task: TaskModel) -> bool {
    exists|i: int| 0 <= i < queue.records.len() && same_job((#[trigger] queue.records[i]).task, task)
}

/// A plan is queued behind the tasks that are there, which stay as they are. Whatever is queued was
/// planned, and, as far as there is room and there are identities, everything that was planned is
/// queued.
pub proof fn law_plans_are_queued(queue: QueueModel, plan: Seq<ActionModel>)
    requires
        queue.wf(),
    ensures
        ({
            let after = planner::queued(queue, plan);
            let n = queue.records.len() as int;
            &&& after.wf()
            &&& after.config == queue.config
            &&& n <= after.records.len() <= n + plan.len()
            &&& after.next_id <= queue.next_id + plan.len()
            &&& forall|i: int| 0 <= i < n ==> #[trigger] after.records[i] == queue.records[i]
            &&& forall|i: int| n <= i < after.records.len() ==> is_planned(plan, (#[trigger] after.records[i]).task)
            &&& n + plan.len() <= queue.config.capacity && queue.next_id + plan.len() <= u64::MAX ==> forall|i: int|
                0 <= i < plan.len() ==> has_job(after, (#[trigger] plan[i]).task())
        }),
    decreases plan.len(),
{
    if plan.len() > 0 {
        let rest = plan.drop_last();
        let task = plan.last().task();
        law_plans_are_queued(queue, rest);
        let before = planner::queued(queue, rest);
        let after = planner::queued(queue, plan);
        let n = queue.records.len() as int;
        lemma_finds_key(before, task);
        law_new_jobs_are_queued_last(before, task);
        assert(after == before.with_task(task));
        assert forall|i: int| 0 <= i < before.records.len() implies #[trigger] after.records[i] == before.records[i] by {
        }
        assert forall|t: TaskModel| #[trigger] is_planned(rest, t) implies is_planned(plan, t) by {
            let i = choose|i: int| 0 <= i < rest.len() && (#[trigger] rest[i]).task() == t;
            assert(plan[i].task() == t);
        }
        assert forall|t: TaskModel| #[trigger] has_job(before, t) implies has_job(after, t) by {
            let i = choose|i: int| 0 <= i < before.records.len() && same_job((#[trigger] before.records[i]).task, t);
            assert(after.records[i] == before.records[i]);
        }
        assert(plan[plan.len() - 1].task() == task);
        assert(is_planned(plan, task));
        assert(same_job(task, task));
        if after.records.len() > before.records.len() {
            let last = before.records.len() as int;
            assert(after.records[last].task == task);
            assert(has_job(after, task));
            assert forall|i: int| 0 <= i < last implies (#[trigger] before.records[i]).task.key() != task.key() by {
                law_keys_tell_jobs(before.records[i].task, task);
            }
        }
        assert forall|i: int| n <= i < after.records.len() implies is_planned(plan, (#[trigger] after.records[i]).task) by {
            if i < before.records.len() {
                assert(after.records[i] == before.records[i]);
                assert(is_planned(rest, before.records[i].task));
            }
        }
        if n + plan.len() <= queue.config.capacity && queue.next_id + plan.len() <= u64::MAX {
            assert forall|i: int| 0 <= i < plan.len() implies has_job(after, (#[trigger] plan[i]).task()) by {
                if i < rest.len() {
                    assert(rest[i] == plan[i]);
                    assert(has_job(before, rest[i].task()));
                }
            }
        }
    }
}

/// The command tells its worker to do the task of a record of the queue that waits for it.
pub open spec fn is_order_of(command: WorkerCommand, queue: QueueModel, worker_id: WorkerId, now_ms: u64) -> bool {
    exists|i: int|
        0 <= i < queue.records.len() && command.task_id == (#[trigger] queue.records[i]).id.0 && is_waiting_for(
            queue.records[i],
            worker_id,
            now_ms,
        ) && command.order@ == command_router::order_for(queue.records[i].task)
}

/// A worker is commanded to do its own tasks that wait, no more than it asks for, and each task that
/// it is commanded to do counts as handed out from then on.
pub proof fn law_commands_are_for_waiting_tasks(
    before: RepairCommandSource,
    after: RepairCommandSource,
    worker_id: WorkerId,
    max: usize,
    commands: Seq<WorkerCommand>,
) -> (now_ms: u64)
    requires
        command_router::hands_out(before, after, worker_id, max, commands),
    ensures
        commands.len() <= max,
        forall|i: int|
            0 <= i < commands.len() ==> is_order_of(#[trigger] commands[i], before.repair_queue@, worker_id, now_ms),
        after.repair_queue@.records.len() == before.repair_queue@.records.len(),
        forall|i: int|
            0 <= i < before.repair_queue@.records.len() ==> #[trigger] after.repair_queue@.records[i]
                == before.repair_queue@.records[i] || was_handed(
                before.repair_queue@.records[i],
                after.repair_queue@.records[i],
                worker_id,
                now_ms,
            ),
{
    let queue = before.repair_queue@;
    let now_ms = choose|now_ms: u64|
        after.repair_queue@ == #[trigger] queue.polled(worker_id, max, now_ms) && command_router::carry_out(
            commands,
            queue::given(queue.records, worker_id, now_ms, queue.room(worker_id, max)),
        );
    law_workers_get_their_waiting_tasks(queue, worker_id, max, now_ms);
    let given = queue::given(queue.records, worker_id, now_ms, queue.room(worker_id, max));
    let records = queue.polled(worker_id, max, now_ms).records;
    assert forall|j: int| 0 <= j < commands.len() implies is_order_of(#[trigger] commands[j], queue, worker_id, now_ms) by {
        assert(was_among(queue.records, records, given[j], worker_id, now_ms));
        let i = choose|i: int|
            0 <= i < queue.records.len() && #[trigger] records[i] == given[j] && was_handed(
                queue.records[i],
                records[i],
                worker_id,
                now_ms,
            );
        assert(queue.records[i].id == given[j].id);
    }
    now_ms
}

} // verus!
