//! The queue of repair tasks: one task per job, handed out to the worker that has to do it, and
//! handed out again where it failed or was forgotten.

use crate::clock;
use crate::error::{ErrorKind, MetadataError, MetadataResult};
use crate::ids::WorkerId;
use crate::text;
use crate::worker::repair::types::{
    ErrorClass, RecordModel, RepairDedupKey, RepairTask, RepairTaskId, RepairTaskRecord, RepairTaskState, TaskAckStatus,
    TaskModel,
};
use vstd::prelude::*;

verus! {

pub const DEFAULT_MAX_RETRIES: u32 = 3;

pub const DEFAULT_INFLIGHT_TIMEOUT_MS: u64 = 300_000;

pub const DEFAULT_BACKOFF_BASE_MS: u64 = 1_000;

pub const DEFAULT_BACKOFF_MAX_MS: u64 = 60_000;

pub const DEFAULT_MAX_INFLIGHT_PER_WORKER: usize = 4;

/// How a queue is set up.
#[derive(Clone, Copy, Debug, PartialEq, Eq, Structural)]
pub struct RepairQueueConfig {
    pub capacity: usize,
    /// How often a task that failed is handed out again.
    pub max_retries: u32,
    /// After how long a task that a worker has counts as forgotten.
    pub inflight_timeout_ms: u64,
    /// How long a task waits after its first failure. The wait doubles with each failure.
    pub backoff_base_ms: u64,
    /// The longest wait.
    pub backoff_max_ms: u64,
    pub max_inflight_per_worker: usize,
}

/// Repair tasks, in the order in which they came.
#[derive(Debug)]
pub struct RepairQueue {
    records: Vec<RepairTaskRecord>,
    next_id: u64,
    config: RepairQueueConfig,
}

/// What a queue holds.
#[verifier::ext_equal]
pub ghost struct QueueModel {
    pub records: Seq<RecordModel>,
    pub next_id: u64,
    pub config: RepairQueueConfig,
}

pub open spec fn record_views(records: Seq<RepairTaskRecord>) -> Seq<RecordModel> {
    Seq::new(records.len(), |i: int| records[i]@)
}

impl View for RepairQueue {
    type V = QueueModel;

    closed spec fn view(&self) -> QueueModel {
        QueueModel { records: record_views(self.records@), next_id: self.next_id, config: self.config }
    }
}

/// Where a task with this key stands in the list from a place on, or -1.
pub open spec fn find_key(records: Seq<RecordModel>, key: RepairDedupKey, from: int) -> int
    decreases records.len() - from,
{
    if from >= records.len() {
        -1
    } else if records[from].task.key() == key {
        from
    } else {
        find_key(records, key, from + 1)
    }
}

/// Where the task with this identity stands in the list from a place on, or -1.
pub open spec fn find_id(records: Seq<RecordModel>, id: RepairTaskId, from: int) -> int
    decreases records.len() - from,
{
    if from >= records.len() {
        -1
    } else if records[from].id == id {
        from
    } else {
        find_id(records, id, from + 1)
    }
}

/// How many tasks the worker has.
pub open spec fn held_by(records: Seq<RecordModel>, worker_id: WorkerId) -> nat
    decreases records.len(),
{
    if records.len() == 0 {
        0
    } else {
        held_by(records.drop_last(), worker_id) + if records.last().state matches RepairTaskState::InFlight {
            worker_id: w,
            ..
        } && w == worker_id {
            1nat
        } else {
            0nat
        }
    }
}

/// How many tasks wait.
pub open spec fn waiting(records: Seq<RecordModel>) -> nat
    decreases records.len(),
{
    if records.len() == 0 {
        0
    } else {
        waiting(records.drop_last()) + if records.last().state is Pending {
            1nat
        } else {
            0nat
        }
    }
}

/// How many tasks were forgotten.
pub open spec fn forgotten(records: Seq<RecordModel>, timeout_ms: u64, now_ms: u64) -> nat
    decreases records.len(),
{
    if records.len() == 0 {
        0
    } else {
        forgotten(records.drop_last(), timeout_ms, now_ms) + if is_forgotten(records.last(), timeout_ms, now_ms) {
            1nat
        } else {
            0nat
        }
    }
}

/// A worker has had the task for too long.
pub open spec fn is_forgotten(record: RecordModel, timeout_ms: u64, now_ms: u64) -> bool {
    record.state matches RepairTaskState::InFlight { since_ms, .. } && now_ms - since_ms > timeout_ms
}

/// The task can be handed out to the worker.
pub open spec fn is_due(record: RecordModel, worker_id: WorkerId, now_ms: u64) -> bool {
    record.task.key().target_worker == worker_id && (record.state matches RepairTaskState::Pending { not_before_ms }
        && not_before_ms <= now_ms)
}

/// The task once it is handed out.
pub open spec fn handed_out(record: RecordModel, worker_id: WorkerId, now_ms: u64) -> RecordModel {
    RecordModel {
        state: RepairTaskState::InFlight { worker_id, since_ms: now_ms },
        attempts: if record.attempts == u32::MAX {
            record.attempts
        } else {
            (record.attempts + 1) as u32
        },
        ..record
    }
}

/// What is handed out: the tasks that are due, in their order, as long as there is room.
pub open spec fn given(records: Seq<RecordModel>, worker_id: WorkerId, now_ms: u64, room: nat) -> Seq<RecordModel>
    decreases records.len(),
{
    if records.len() == 0 {
        Seq::empty()
    } else {
        let before = given(records.drop_last(), worker_id, now_ms, room);
        if is_due(records.last(), worker_id, now_ms) && before.len() < room {
            before.push(handed_out(records.last(), worker_id, now_ms))
        } else {
            before
        }
    }
}

/// The list once they are handed out.
pub open spec fn after_giving(records: Seq<RecordModel>, worker_id: WorkerId, now_ms: u64, room: nat) -> Seq<RecordModel>
    decreases records.len(),
{
    if records.len() == 0 {
        Seq::empty()
    } else {
        let before = given(records.drop_last(), worker_id, now_ms, room);
        let rest = after_giving(records.drop_last(), worker_id, now_ms, room);
        if is_due(records.last(), worker_id, now_ms) && before.len() < room {
            rest.push(handed_out(records.last(), worker_id, now_ms))
        } else {
            rest.push(records.last())
        }
    }
}

/// The wait after so many failures.
pub open spec fn backoff(base_ms: u64, max_ms: u64, failures: nat) -> nat
    decreases failures,
{
    if failures <= 1 {
        if base_ms <= max_ms {
            base_ms as nat
        } else {
            max_ms as nat
        }
    } else {
        let twice = 2 * backoff(base_ms, max_ms, (failures - 1) as nat);
        if twice <= max_ms {
            twice
        } else {
            max_ms as nat
        }
    }
}

pub open spec fn saturating_add(a: u64, b: nat) -> u64 {
    if a + b > u64::MAX {
        u64::MAX
    } else {
        (a + b) as u64
    }
}

impl QueueModel {
    /// Identities are given out in order and belong to one task each, and no job is queued twice.
    pub open spec fn wf(self) -> bool {
        &&& 0 < self.next_id
        &&& forall|i: int| 0 <= i < self.records.len() ==> 0 < (#[trigger] self.records[i]).id.0 < self.next_id
        &&& forall|i: int, j: int|
            0 <= i < j < self.records.len() ==> (#[trigger] self.records[i]).id != (#[trigger] self.records[j]).id
        &&& forall|i: int, j: int|
            0 <= i < j < self.records.len() ==> (#[trigger] self.records[i]).task.key() != (
            #[trigger] self.records[j]).task.key()
    }

    /// What queueing a task gives: the identity of the same job, a new one, or an error.
    pub open spec fn enqueued(self, task: TaskModel) -> Result<RepairTaskId, (ErrorKind, Seq<char>)> {
        let at = find_key(self.records, task.key(), 0);
        if at >= 0 {
            Ok(self.records[at].id)
        } else if self.records.len() >= self.config.capacity {
            Err((ErrorKind::ServiceUnavailable, "repair queue is full"@))
        } else if self.next_id == u64::MAX {
            Err((ErrorKind::Internal, "repair task ids are used up"@))
        } else {
            Ok(RepairTaskId(self.next_id))
        }
    }

    /// The queue after a task was queued.
    pub open spec fn with_task(self, task: TaskModel) -> QueueModel {
        if find_key(self.records, task.key(), 0) >= 0 || self.enqueued(task) is Err {
            self
        } else {
            QueueModel {
                records: self.records.push(
                    RecordModel {
                        id: RepairTaskId(self.next_id),
                        task,
                        state: RepairTaskState::Pending { not_before_ms: 0 },
                        attempts: 0,
                    },
                ),
                next_id: (self.next_id + 1) as u64,
                config: self.config,
            }
        }
    }

    /// How many tasks can be handed out to a worker that asks for at most so many.
    pub open spec fn room(self, worker_id: WorkerId, max: usize) -> nat {
        let held = held_by(self.records, worker_id);
        let free = if held >= self.config.max_inflight_per_worker {
            0nat
        } else {
            (self.config.max_inflight_per_worker - held) as nat
        };
        if max < free {
            max as nat
        } else {
            free
        }
    }

    /// The queue after a worker asked for tasks.
    pub open spec fn polled(self, worker_id: WorkerId, max: usize, now_ms: u64) -> QueueModel {
        QueueModel {
            records: after_giving(self.records, worker_id, now_ms, self.room(worker_id, max)),
            ..self
        }
    }

    /// Why an acknowledgement is turned down, where it is.
    pub open spec fn ack_refusal(self, id: RepairTaskId, worker_id: WorkerId) -> Option<(ErrorKind, Seq<char>)> {
        let at = find_id(self.records, id, 0);
        if at < 0 {
            Some((ErrorKind::NotFound, "repair task not found: "@ + text::decimal(id.0 as nat) + ""@))
        } else if !(self.records[at].state matches RepairTaskState::InFlight { worker_id: w, .. } && w == worker_id) {
            Some(
                (
                    ErrorKind::InvalidArgument,
                    "repair task "@ + text::decimal(id.0 as nat) + " is not held by worker "@ + text::decimal(
                        worker_id.raw as nat,
                    ),
                ),
            )
        } else {
            None
        }
    }

    /// The queue after an acknowledgement that was taken. A task that failed and may be tried
    /// again waits; any other is done with.
    pub open spec fn acked(self, id: RepairTaskId, status: TaskAckStatus, now_ms: u64) -> QueueModel {
        let at = find_id(self.records, id, 0);
        let record = self.records[at];
        if status == TaskAckStatus::RetryableFailed && record.attempts <= self.config.max_retries {
            QueueModel {
                records: self.records.update(
                    at,
                    RecordModel {
                        state: RepairTaskState::Pending {
                            not_before_ms: saturating_add(
                                now_ms,
                                backoff(
                                    self.config.backoff_base_ms,
                                    self.config.backoff_max_ms,
                                    record.attempts as nat,
                                ),
                            ),
                        },
                        ..record
                    },
                ),
                ..self
            }
        } else {
            QueueModel { records: self.records.remove(at), ..self }
        }
    }

    /// The queue after the tasks that were forgotten wait again.
    pub open spec fn requeued(self, now_ms: u64) -> QueueModel {
        QueueModel {
            records: Seq::new(
                self.records.len(),
                |i: int|
                    if is_forgotten(self.records[i], self.config.inflight_timeout_ms, now_ms) {
                        RecordModel { state: RepairTaskState::Pending { not_before_ms: 0 }, ..self.records[i] }
                    } else {
                        self.records[i]
                    },
            ),
            ..self
        }
    }
}

proof fn lemma_find_key(records: Seq<RecordModel>, key: RepairDedupKey, from: int)
    requires
        0 <= from,
    ensures
        ({
            let at = find_key(records, key, from);
            if at >= 0 {
                from <= at < records.len() && records[at].task.key() == key
            } else {
                at == -1 && forall|i: int| from <= i < records.len() ==> (#[trigger] records[i]).task.key() != key
            }
        }),
    decreases records.len() - from,
{
    if from < records.len() && records[from].task.key() != key {
        lemma_find_key(records, key, from + 1);
    }
}

proof fn lemma_find_id(records: Seq<RecordModel>, id: RepairTaskId, from: int)
    requires
        0 <= from,
    ensures
        ({
            let at = find_id(records, id, from);
            if at >= 0 {
                from <= at < records.len() && records[at].id == id
            } else {
                at == -1 && forall|i: int| from <= i < records.len() ==> (#[trigger] records[i]).id != id
            }
        }),
    decreases records.len() - from,
{
    if from < records.len() && records[from].id != id {
        lemma_find_id(records, id, from + 1);
    }
}

proof fn lemma_after_giving(records: Seq<RecordModel>, worker_id: WorkerId, now_ms: u64, room: nat)
    ensures
        after_giving(records, worker_id, now_ms, room).len() == records.len(),
        given(records, worker_id, now_ms, room).len() <= room,
        given(records, worker_id, now_ms, room).len() <= records.len(),
        forall|i: int|
            0 <= i < records.len() ==> (#[trigger] after_giving(records, worker_id, now_ms, room)[i]).id == records[i].id
                && after_giving(records, worker_id, now_ms, room)[i].task == records[i].task,
    decreases records.len(),
{
    if records.len() > 0 {
        lemma_after_giving(records.drop_last(), worker_id, now_ms, room);
    }
}

impl RepairQueue {
    /// What holds of the queue at all times.
    pub open spec fn inv(&self) -> bool {
        self@.wf()
    }

    pub fn new(capacity: usize) -> (queue: Self)
        ensures
            queue.inv(),
            queue@ == (QueueModel {
                records: Seq::empty(),
                next_id: 1,
                config: RepairQueueConfig {
                    capacity,
                    max_retries: DEFAULT_MAX_RETRIES,
                    inflight_timeout_ms: DEFAULT_INFLIGHT_TIMEOUT_MS,
                    backoff_base_ms: DEFAULT_BACKOFF_BASE_MS,
                    backoff_max_ms: DEFAULT_BACKOFF_MAX_MS,
                    max_inflight_per_worker: DEFAULT_MAX_INFLIGHT_PER_WORKER,
                },
            }),
    {
        Self::with_config(
            capacity,
            DEFAULT_MAX_RETRIES,
            DEFAULT_INFLIGHT_TIMEOUT_MS,
            DEFAULT_BACKOFF_BASE_MS,
            DEFAULT_BACKOFF_MAX_MS,
            DEFAULT_MAX_INFLIGHT_PER_WORKER,
        )
    }

    pub fn with_config(
        capacity: usize,
        max_retries: u32,
        inflight_timeout_ms: u64,
        backoff_base_ms: u64,
        backoff_max_ms: u64,
        max_inflight_per_worker: usize,
    ) -> (queue: Self)
        ensures
            queue.inv(),
            queue@ == (QueueModel {
                records: Seq::empty(),
                next_id: 1,
                config: RepairQueueConfig {
                    capacity,
                    max_retries,
                    inflight_timeout_ms,
                    backoff_base_ms,
                    backoff_max_ms,
                    max_inflight_per_worker,
                },
            }),
    {
        let queue = RepairQueue {
            records: Vec::new(),
            next_id: 1,
            config: RepairQueueConfig {
                capacity,
                max_retries,
                inflight_timeout_ms,
                backoff_base_ms,
                backoff_max_ms,
                max_inflight_per_worker,
            },
        };
        assert(queue@.records =~= Seq::<RecordModel>::empty());
        queue
    }

    fn position_of_key(&self, key: RepairDedupKey) -> (at: Option<usize>)
        ensures
            find_key(self@.records, key, 0) == (match at {
                Some(i) => i as int,
                None => -1,
            }),
            at is Some ==> at->0 < self.records@.len(),
    {
        let mut i: usize = 0;
        while i < self.records.len()
            invariant
                i <= self.records@.len(),
                find_key(self@.records, key, 0) == find_key(self@.records, key, i as int),
            decreases self.records@.len() - i,
        {
            if self.records[i].task.dedup_key() == key {
                return Some(i);
            }
            i += 1;
        }
        None
    }

    fn position_of_id(&self, id: RepairTaskId) -> (at: Option<usize>)
        ensures
            find_id(self@.records, id, 0) == (match at {
                Some(i) => i as int,
                None => -1,
            }),
            at is Some ==> at->0 < self.records@.len(),
    {
        let mut i: usize = 0;
        while i < self.records.len()
            invariant
                i <= self.records@.len(),
                find_id(self@.records, id, 0) == find_id(self@.records, id, i as int),
            decreases self.records@.len() - i,
        {
            if self.records[i].id == id {
                return Some(i);
            }
            i += 1;
        }
        None
    }

    /// Queues a task, unless the same job is queued already.
    pub fn enqueue(&mut self, task: RepairTask) -> (id: MetadataResult<RepairTaskId>)
        requires
            old(self).inv(),
        ensures
            final(self).inv(),
            final(self)@ == old(self)@.with_task(task@),
            match id {
                Ok(id) => old(self)@.enqueued(task@) == Ok::<RepairTaskId, (ErrorKind, Seq<char>)>(id),
                Err(e) => old(self)@.enqueued(task@) == Err::<RepairTaskId, (ErrorKind, Seq<char>)>(
                    (e.spec_kind(), e.spec_text()),
                ),
            },
    {
        let key = task.dedup_key();
        proof {
            lemma_find_key(self@.records, key, 0);
        }
        match self.position_of_key(key) {
            Some(i) => {
                return Ok(self.records[i].id);
            },
            None => {},
        }
        if self.records.len() >= self.config.capacity {
            return Err(MetadataError::ServiceUnavailable(text::literal("repair queue is full")));
        }
        if self.next_id == u64::MAX {
            return Err(MetadataError::Internal(text::literal("repair task ids are used up")));
        }
        let id = RepairTaskId(self.next_id);
        let ghost before = self@;
        self.records.push(
            RepairTaskRecord { id, task, state: RepairTaskState::Pending { not_before_ms: 0 }, attempts: 0 },
        );
        self.next_id = self.next_id + 1;
        assert(self@ =~= before.with_task(task@));
        Ok(id)
    }

    /// Hands out tasks to a worker, at this time.
    pub fn poll_for_worker_at(&mut self, worker_id: WorkerId, max: usize, now_ms: u64) -> (records: Vec<RepairTaskRecord>)
        requires
            old(self).inv(),
        ensures
            final(self).inv(),
            final(self)@ == old(self)@.polled(worker_id, max, now_ms),
            record_views(records@) == given(
                old(self)@.records,
                worker_id,
                now_ms,
                old(self)@.room(worker_id, max),
            ),
    {
        let held = self.count_held(worker_id);
        let free: usize = if held >= self.config.max_inflight_per_worker {
            0
        } else {
            self.config.max_inflight_per_worker - held
        };
        let room: usize = if max < free {
            max
        } else {
            free
        };
        let ghost before = self@;
        let mut out: Vec<RepairTaskRecord> = Vec::new();
        let mut i: usize = 0;
        proof {
            assert(before.records.take(0) =~= Seq::<RecordModel>::empty());
            assert(record_views(out@) =~= Seq::<RecordModel>::empty());
            assert(self@.records =~= after_giving(before.records.take(0), worker_id, now_ms, room as nat)
                + before.records.skip(0));
        }
        while i < self.records.len()
            invariant
                i <= self.records@.len(),
                self.records@.len() == before.records.len(),
                self.next_id == before.next_id,
                self.config == before.config,
                room == before.room(worker_id, max),
                record_views(out@) == given(before.records.take(i as int), worker_id, now_ms, room as nat),
                out@.len() <= room,
                after_giving(before.records.take(i as int), worker_id, now_ms, room as nat).len() == i,
                self@.records == after_giving(before.records.take(i as int), worker_id, now_ms, room as nat)
                    + before.records.skip(i as int),
            decreases self.records@.len() - i,
        {
            let ghost held_so_far = after_giving(before.records.take(i as int), worker_id, now_ms, room as nat);
            proof {
                assert(before.records.take(i + 1).drop_last() =~= before.records.take(i as int));
                assert(before.records.take(i + 1).last() == before.records[i as int]);
                assert(self@.records[i as int] == before.records.skip(i as int)[0]);
                assert(self.records@[i as int]@ == before.records[i as int]);
            }
            let due = out.len() < room && self.records[i].task.dedup_key().target_worker == worker_id
                && match self.records[i].state {
                RepairTaskState::Pending { not_before_ms } => not_before_ms <= now_ms,
                RepairTaskState::InFlight { .. } => false,
            };
            assert(due == (is_due(before.records[i as int], worker_id, now_ms) && out@.len() < room));
            assert(out@.len() == given(before.records.take(i as int), worker_id, now_ms, room as nat).len());
            if due {
                let attempts: u32 = if self.records[i].attempts == u32::MAX {
                    u32::MAX
                } else {
                    self.records[i].attempts + 1
                };
                let record = RepairTaskRecord {
                    id: self.records[i].id,
                    task: self.records[i].task.clone(),
                    state: RepairTaskState::InFlight { worker_id, since_ms: now_ms },
                    attempts,
                };
                let ghost out_before = out@;
                out.push(record.clone());
                assert(record_views(out@) =~= record_views(out_before).push(record@));
                let ghost records_before = self@.records;
                self.records.set(i, record);
                assert(self@.records =~= records_before.update(i as int, record@));
            }
            proof {
                assert(self@.records =~= after_giving(before.records.take(i + 1), worker_id, now_ms, room as nat)
                    + before.records.skip(i + 1));
            }
            i += 1;
        }
        proof {
            assert(before.records.take(i as int) =~= before.records);
            assert(self@ =~= before.polled(worker_id, max, now_ms));
            lemma_after_giving(before.records, worker_id, now_ms, room as nat);
        }
        out
    }

    /// Hands out tasks to a worker.
    pub fn poll_for_worker(&mut self, worker_id: WorkerId, max: usize) -> (records: Vec<RepairTaskRecord>)
        requires
            old(self).inv(),
        ensures
            final(self).inv(),
            exists|now_ms: u64|
                final(self)@ == #[trigger] old(self)@.polled(worker_id, max, now_ms) && record_views(records@) == given(
                    old(self)@.records,
                    worker_id,
                    now_ms,
                    old(self)@.room(worker_id, max),
                ),
    {
        let now_ms: u64 = clock::unix_millis();
        self.poll_for_worker_at(worker_id, max, now_ms)
    }

    fn count_held(&self, worker_id: WorkerId) -> (n: usize)
        ensures
            n == held_by(self@.records, worker_id),
    {
        let mut n: usize = 0;
        let mut i: usize = 0;
        assert(self@.records.take(0) =~= Seq::<RecordModel>::empty());
        while i < self.records.len()
            invariant
                i <= self.records@.len(),
                n <= i,
                n == held_by(self@.records.take(i as int), worker_id),
            decreases self.records@.len() - i,
        {
            assert(self@.records.take(i + 1).drop_last() =~= self@.records.take(i as int));
            match self.records[i].state {
                RepairTaskState::InFlight { worker_id: w, .. } => {
                    if w == worker_id {
                        n += 1;
                    }
                },
                RepairTaskState::Pending { .. } => {},
            }
            i += 1;
        }
        assert(self@.records.take(i as int) =~= self@.records);
        n
    }

    fn backoff_ms(&self, failures: u32) -> (wait: u64)
        ensures
            wait == backoff(self@.config.backoff_base_ms, self@.config.backoff_max_ms, failures as nat),
    {
        let max_ms: u64 = self.config.backoff_max_ms;
        let mut wait: u64 = if self.config.backoff_base_ms <= max_ms {
            self.config.backoff_base_ms
        } else {
            max_ms
        };
        let mut n: u32 = 1;
        while n < failures
            invariant
                1 <= n,
                n <= failures || n == 1,
                max_ms == self@.config.backoff_max_ms,
                wait <= max_ms,
                wait == backoff(self@.config.backoff_base_ms, max_ms, n as nat),
            decreases failures - n,
        {
            if wait <= max_ms / 2 {
                wait = wait * 2;
            } else {
                wait = max_ms;
            }
            n += 1;
        }
        wait
    }

    /// Takes a worker's word on how a task went, at this time. No task follows from it.
    pub fn ack_at(
        &mut self,
        id: RepairTaskId,
        worker_id: WorkerId,
        status: TaskAckStatus,
        error_msg: Option<String>,
        error_class: Option<ErrorClass>,
        now_ms: u64,
    ) -> (followup: MetadataResult<Option<RepairTask>>)
        requires
            old(self).inv(),
        ensures
            final(self).inv(),
            match old(self)@.ack_refusal(id, worker_id) {
                Some(refusal) => final(self)@ == old(self)@ && (followup matches Err(e) && e.says(refusal.0, refusal.1)),
                None => final(self)@ == old(self)@.acked(id, status, now_ms) && followup == Ok::<
                    Option<RepairTask>,
                    MetadataError,
                >(None),
            },
    {
        let ghost before = self@;
        proof {
            lemma_find_id(before.records, id, 0);
        }
        let at: usize = match self.position_of_id(id) {
            Some(at) => at,
            None => {
                return Err(MetadataError::NotFound(text::with_number("repair task not found: ", id.0, "")));
            },
        };
        let held = match self.records[at].state {
            RepairTaskState::InFlight { worker_id: w, .. } => w == worker_id,
            RepairTaskState::Pending { .. } => false,
        };
        if !held {
            let mut message = text::with_number("repair task ", id.0, " is not held by worker ");
            text::push_decimal(&mut message, worker_id.raw);
            return Err(MetadataError::InvalidArgument(message));
        }
        let attempts: u32 = self.records[at].attempts;
        if status == TaskAckStatus::RetryableFailed && attempts <= self.config.max_retries {
            let wait: u64 = self.backoff_ms(attempts);
            let not_before_ms: u64 = match now_ms.checked_add(wait) {
                Some(t) => t,
                None => u64::MAX,
            };
            let record = RepairTaskRecord {
                id: self.records[at].id,
                task: self.records[at].task.clone(),
                state: RepairTaskState::Pending { not_before_ms },
                attempts,
            };
            self.records.set(at, record);
            assert(self@ =~= before.acked(id, status, now_ms));
        } else {
            self.records.remove(at);
            assert(self@ =~= before.acked(id, status, now_ms));
        }
        Ok(None)
    }

    /// Takes a worker's word on how a task went. No task follows from it.
    pub fn ack(
        &mut self,
        id: RepairTaskId,
        worker_id: WorkerId,
        status: TaskAckStatus,
        error_msg: Option<String>,
        error_class: Option<ErrorClass>,
    ) -> (followup: MetadataResult<Option<RepairTask>>)
        requires
            old(self).inv(),
        ensures
            final(self).inv(),
            match old(self)@.ack_refusal(id, worker_id) {
                Some(refusal) => final(self)@ == old(self)@ && (followup matches Err(e) && e.says(refusal.0, refusal.1)),
                None => (exists|now_ms: u64| final(self)@ == #[trigger] old(self)@.acked(id, status, now_ms))
                    && followup == Ok::<Option<RepairTask>, MetadataError>(None),
            },
    {
        let now_ms: u64 = clock::unix_millis();
        self.ack_at(id, worker_id, status, error_msg, error_class, now_ms)
    }

    /// Lets the tasks wait again that workers have had for too long, and tells how many.
    pub fn requeue_timeouts(&mut self, now_ms: u64) -> (count: usize)
        requires
            old(self).inv(),
        ensures
            final(self).inv(),
            final(self)@ == old(self)@.requeued(now_ms),
            count == forgotten(old(self)@.records, old(self)@.config.inflight_timeout_ms, now_ms),
    {
        let ghost before = self@;
        let timeout_ms: u64 = self.config.inflight_timeout_ms;
        let mut count: usize = 0;
        let mut i: usize = 0;
        assert(before.records.take(0) =~= Seq::<RecordModel>::empty());
        while i < self.records.len()
            invariant
                i <= self.records@.len(),
                self.records@.len() == before.records.len(),
                self.next_id == before.next_id,
                self.config == before.config,
                timeout_ms == before.config.inflight_timeout_ms,
                count <= i,
                count == forgotten(before.records.take(i as int), timeout_ms, now_ms),
                forall|j: int| 0 <= j < i ==> #[trigger] self@.records[j] == before.requeued(now_ms).records[j],
                forall|j: int| i <= j < before.records.len() ==> #[trigger] self@.records[j] == before.records[j],
            decreases self.records@.len() - i,
        {
            proof {
                assert(before.records.take(i + 1).drop_last() =~= before.records.take(i as int));
                assert(self@.records[i as int] == before.records[i as int]);
            }
            let ghost records_before = self@.records;
            let late = match self.records[i].state {
                RepairTaskState::InFlight { since_ms, .. } => now_ms >= since_ms && now_ms - since_ms > timeout_ms,
                RepairTaskState::Pending { .. } => false,
            };
            assert(late == is_forgotten(before.records[i as int], timeout_ms, now_ms));
            if late {
                let record = RepairTaskRecord {
                    id: self.records[i].id,
                    task: self.records[i].task.clone(),
                    state: RepairTaskState::Pending { not_before_ms: 0 },
                    attempts: self.records[i].attempts,
                };
                self.records.set(i, record);
                assert(self@.records =~= records_before.update(i as int, record@));
                count += 1;
            }
            i += 1;
        }
        proof {
            assert(before.records.take(i as int) =~= before.records);
            assert(self@ =~= before.requeued(now_ms));
        }
        count
    }

    /// How many tasks wait.
    pub fn len_pending(&self) -> (n: usize)
        ensures
            n == waiting(self@.records),
    {
        let mut n: usize = 0;
        let mut i: usize = 0;
        assert(self@.records.take(0) =~= Seq::<RecordModel>::empty());
        while i < self.records.len()
            invariant
                i <= self.records@.len(),
                n <= i,
                n == waiting(self@.records.take(i as int)),
            decreases self.records@.len() - i,
        {
            assert(self@.records.take(i + 1).drop_last() =~= self@.records.take(i as int));
            match self.records[i].state {
                RepairTaskState::Pending { .. } => {
                    n += 1;
                },
                RepairTaskState::InFlight { .. } => {},
            }
            i += 1;
        }
        assert(self@.records.take(i as int) =~= self@.records);
        n
    }

    /// How many tasks workers have.
    pub fn len_inflight(&self) -> (n: usize)
        ensures
            n == self@.records.len() - waiting(self@.records),
    {
        proof {
            lemma_waiting_at_most(self@.records);
        }
        self.records.len() - self.len_pending()
    }

    /// How many tasks there are.
    pub fn len_total(&self) -> (n: usize)
        ensures
            n == self@.records.len(),
    {
        self.records.len()
    }
}

proof fn lemma_waiting_at_most(records: Seq<RecordModel>)
    ensures
        waiting(records) <= records.len(),
    decreases records.len(),
{
    if records.len() > 0 {
        lemma_waiting_at_most(records.drop_last());
    }
}

/// Queueing the same job again gives the same identity and changes nothing, as long as it is
/// queued.
pub proof fn law_jobs_are_queued_once(queue: QueueModel, task: TaskModel, again: TaskModel)
    requires
        queue.wf(),
        again.key() == task.key(),
        queue.enqueued(task) is Ok,
    ensures
        queue.with_task(task).enqueued(again) == queue.enqueued(task),
        queue.with_task(task).with_task(again) == queue.with_task(task),
{
    lemma_find_key(queue.records, task.key(), 0);
    let one = queue.with_task(task);
    lemma_find_key(one.records, task.key(), 0);
    if find_key(queue.records, task.key(), 0) < 0 {
        assert(one.records.last().task.key() == task.key());
        assert(find_key(one.records, task.key(), 0) == queue.records.len());
    }
}

/// A worker is handed only tasks that are its own, no more than it asks for and no more than it
/// may have at a time, and each of them counts as held by it from then on.
pub proof fn law_tasks_go_to_their_worker(queue: QueueModel, worker_id: WorkerId, max: usize, now_ms: u64)
    ensures
        given(queue.records, worker_id, now_ms, queue.room(worker_id, max)).len() <= max,
        held_by(queue.records, worker_id) <= queue.config.max_inflight_per_worker ==> held_by(
            queue.polled(worker_id, max, now_ms).records,
            worker_id,
        ) <= queue.config.max_inflight_per_worker,
        forall|i: int|
            0 <= i < given(queue.records, worker_id, now_ms, queue.room(worker_id, max)).len() ==> (
            #[trigger] given(queue.records, worker_id, now_ms, queue.room(worker_id, max))[i]).task.key().target_worker
                == worker_id && given(queue.records, worker_id, now_ms, queue.room(worker_id, max))[i].state == (
            RepairTaskState::InFlight { worker_id, since_ms: now_ms }),
{
    lemma_giving(queue.records, worker_id, now_ms, queue.room(worker_id, max));
}

proof fn lemma_giving(records: Seq<RecordModel>, worker_id: WorkerId, now_ms: u64, room: nat)
    ensures
        given(records, worker_id, now_ms, room).len() <= room,
        held_by(after_giving(records, worker_id, now_ms, room), worker_id) == held_by(records, worker_id) + given(
            records,
            worker_id,
            now_ms,
            room,
        ).len(),
        forall|i: int|
            0 <= i < given(records, worker_id, now_ms, room).len() ==> (#[trigger] given(
                records,
                worker_id,
                now_ms,
                room,
            )[i]).task.key().target_worker == worker_id && given(records, worker_id, now_ms, room)[i].state == (
            RepairTaskState::InFlight { worker_id, since_ms: now_ms }),
    decreases records.len(),
{
    if records.len() > 0 {
        lemma_giving(records.drop_last(), worker_id, now_ms, room);
        let rest = after_giving(records.drop_last(), worker_id, now_ms, room);
        let all = after_giving(records, worker_id, now_ms, room);
        assert(all.drop_last() =~= rest);
    }
}

/// Handing tasks out and letting forgotten ones wait again loses none: the same tasks stand in
/// the same order.
pub proof fn law_tasks_stay_until_acknowledged(queue: QueueModel, worker_id: WorkerId, max: usize, now_ms: u64)
    ensures
        queue.polled(worker_id, max, now_ms).records.len() == queue.records.len(),
        forall|i: int|
            0 <= i < queue.records.len() ==> (#[trigger] queue.polled(worker_id, max, now_ms).records[i]).id
                == queue.records[i].id && queue.polled(worker_id, max, now_ms).records[i].task == queue.records[i].task,
        queue.requeued(now_ms).records.len() == queue.records.len(),
        forall|i: int|
            0 <= i < queue.records.len() ==> (#[trigger] queue.requeued(now_ms).records[i]).id == queue.records[i].id
                && queue.requeued(now_ms).records[i].task == queue.records[i].task,
{
    lemma_after_giving(queue.records, worker_id, now_ms, queue.room(worker_id, max));
}

/// A task that was acknowledged as done is gone.
pub proof fn law_done_tasks_are_gone(queue: QueueModel, id: RepairTaskId, worker_id: WorkerId, now_ms: u64)
    requires
        queue.wf(),
        queue.ack_refusal(id, worker_id) is None,
    ensures
        queue.acked(id, TaskAckStatus::Success, now_ms).records.len() == queue.records.len() - 1,
        forall|i: int|
            0 <= i < queue.acked(id, TaskAckStatus::Success, now_ms).records.len() ==> (#[trigger] queue.acked(
                id,
                TaskAckStatus::Success,
                now_ms,
            ).records[i]).id != id,
{
    lemma_find_id(queue.records, id, 0);
}

/// A task that failed and may be tried again is not handed out before its wait is over, and
/// waits are never longer than the longest one.
pub proof fn law_failed_tasks_wait(queue: QueueModel, id: RepairTaskId, worker_id: WorkerId, now_ms: u64)
    requires
        queue.wf(),
        queue.ack_refusal(id, worker_id) is None,
        queue.records[find_id(queue.records, id, 0)].attempts <= queue.config.max_retries,
        queue.config.backoff_base_ms > 0,
        queue.config.backoff_max_ms > 0,
        now_ms < u64::MAX,
    ensures
        ({
            let at = find_id(queue.records, id, 0);
            let after = queue.acked(id, TaskAckStatus::RetryableFailed, now_ms);
            &&& after.records.len() == queue.records.len()
            &&& !is_due(after.records[at], worker_id, now_ms)
            &&& backoff(
                queue.config.backoff_base_ms,
                queue.config.backoff_max_ms,
                queue.records[at].attempts as nat,
            ) <= queue.config.backoff_max_ms
        }),
{
    let at = find_id(queue.records, id, 0);
    lemma_find_id(queue.records, id, 0);
    lemma_backoff(queue.config.backoff_base_ms, queue.config.backoff_max_ms, queue.records[at].attempts as nat);
}

proof fn lemma_backoff(base_ms: u64, max_ms: u64, failures: nat)
    ensures
        backoff(base_ms, max_ms, failures) <= max_ms,
        base_ms > 0 && max_ms > 0 ==> backoff(base_ms, max_ms, failures) > 0,
    decreases failures,
{
    if failures > 1 {
        lemma_backoff(base_ms, max_ms, (failures - 1) as nat);
    }
}

} // verus!
