//! Repair tasks and what becomes of them.

use crate::ids::{BlockId, WorkerId};
use crate::text;
use crate::worker::types::copy_text;
use vstd::prelude::*;

verus! {

/// The identity of a task in its queue.
#[derive(Clone, Copy, Debug, PartialEq, Eq, Hash, Structural)]
pub struct RepairTaskId(pub u64);

/// Something that one worker has to do to a block.
#[derive(Debug)]
#[allow(inconsistent_fields)]
pub enum RepairTask {
    Replicate {
        block_id: BlockId,
        src_workers: Vec<WorkerId>,
        target_worker: WorkerId,
        replication_factor: Option<u8>,
        reason: Option<String>,
    },
    EvictReplica { block_id: BlockId, target_worker: WorkerId, reason: String },
}

#[allow(inconsistent_fields)]
pub ghost enum TaskModel {
    Replicate {
        block_id: BlockId,
        src_workers: Seq<WorkerId>,
        target_worker: WorkerId,
        replication_factor: Option<u8>,
        reason: Option<Seq<char>>,
    },
    EvictReplica { block_id: BlockId, target_worker: WorkerId, reason: Seq<char> },
}

impl View for RepairTask {
    type V = TaskModel;

    open spec fn view(&self) -> TaskModel {
        match self {
            RepairTask::Replicate { block_id, src_workers, target_worker, replication_factor, reason } =>
                TaskModel::Replicate {
                block_id: *block_id,
                src_workers: src_workers@,
                target_worker: *target_worker,
                replication_factor: *replication_factor,
                reason: text::shown(*reason),
            },
            RepairTask::EvictReplica { block_id, target_worker, reason } => TaskModel::EvictReplica {
                block_id: *block_id,
                target_worker: *target_worker,
                reason: reason@,
            },
        }
    }
}

/// The kinds of tasks.
#[derive(Clone, Copy, Debug, PartialEq, Eq, Hash, Structural)]
pub enum RepairTaskKind {
    Replicate,
    EvictReplica,
}

/// Two tasks with the same key are the same job: the same kind of work on the same block by the
/// same worker.
#[derive(Clone, Copy, Debug, PartialEq, Eq, Hash, Structural)]
pub struct RepairDedupKey {
    pub kind: RepairTaskKind,
    pub block_id: BlockId,
    pub target_worker: WorkerId,
}

impl TaskModel {
    pub open spec fn key(self) -> RepairDedupKey {
        match self {
            TaskModel::Replicate { block_id, target_worker, .. } => RepairDedupKey {
                kind: RepairTaskKind::Replicate,
                block_id,
                target_worker,
            },
            TaskModel::EvictReplica { block_id, target_worker, .. } => RepairDedupKey {
                kind: RepairTaskKind::EvictReplica,
                block_id,
                target_worker,
            },
        }
    }
}

/// A copy of a list of workers.
pub fn copy_workers(workers: &Vec<WorkerId>) -> (copy: Vec<WorkerId>)
    ensures
        copy@ == workers@,
{
    let mut copy: Vec<WorkerId> = Vec::new();
    let mut i: usize = 0;
    while i < workers.len()
        invariant
            i <= workers@.len(),
            copy@ == workers@.take(i as int),
        decreases workers@.len() - i,
    {
        copy.push(workers[i]);
        i += 1;
        assert(workers@.take(i as int) =~= workers@.take(i - 1).push(workers@[i - 1]));
    }
    assert(workers@.take(i as int) =~= workers@);
    copy
}

impl RepairTask {
    /// The key by which the same job is found again.
    pub fn dedup_key(&self) -> (key: RepairDedupKey)
        ensures
            key == self@.key(),
    {
        match self {
            RepairTask::Replicate { block_id, target_worker, .. } => RepairDedupKey {
                kind: RepairTaskKind::Replicate,
                block_id: *block_id,
                target_worker: *target_worker,
            },
            RepairTask::EvictReplica { block_id, target_worker, .. } => RepairDedupKey {
                kind: RepairTaskKind::EvictReplica,
                block_id: *block_id,
                target_worker: *target_worker,
            },
        }
    }
}

impl Clone for RepairTask {
    fn clone(&self) -> (copy: Self)
        ensures
            copy@ == self@,
    {
        match self {
            RepairTask::Replicate { block_id, src_workers, target_worker, replication_factor, reason } =>
                RepairTask::Replicate {
                block_id: *block_id,
                src_workers: copy_workers(src_workers),
                target_worker: *target_worker,
                replication_factor: *replication_factor,
                reason: copy_text(reason),
            },
            RepairTask::EvictReplica { block_id, target_worker, reason } => RepairTask::EvictReplica {
                block_id: *block_id,
                target_worker: *target_worker,
                reason: reason.clone(),
            },
        }
    }
}

/// Where a task stands.
#[derive(Clone, Copy, Debug, PartialEq, Eq, Structural)]
pub enum RepairTaskState {
    /// It waits, and is not handed out before this time.
    Pending { not_before_ms: u64 },
    /// A worker has had it since this time.
    InFlight { worker_id: WorkerId, since_ms: u64 },
}

/// A task in the queue.
#[derive(Debug)]
pub struct RepairTaskRecord {
    pub id: RepairTaskId,
    pub task: RepairTask,
    pub state: RepairTaskState,
    /// How often it was handed out.
    pub attempts: u32,
}

pub ghost struct RecordModel {
    pub id: RepairTaskId,
    pub task: TaskModel,
    pub state: RepairTaskState,
    pub attempts: u32,
}

impl View for RepairTaskRecord {
    type V = RecordModel;

    open spec fn view(&self) -> RecordModel {
        RecordModel { id: self.id, task: self.task@, state: self.state, attempts: self.attempts }
    }
}

impl Clone for RepairTaskRecord {
    fn clone(&self) -> (copy: Self)
        ensures
            copy@ == self@,
    {
        RepairTaskRecord { id: self.id, task: self.task.clone(), state: self.state, attempts: self.attempts }
    }
}

/// How a worker says that a task went.
#[derive(Clone, Copy, Debug, PartialEq, Eq, Structural)]
pub enum TaskAckStatus {
    Success,
    RetryableFailed,
    PermanentFailed,
}

/// What kind of error a worker met.
#[derive(Clone, Copy, Debug, PartialEq, Eq, Structural)]
pub enum ErrorClass {
    Retryable,
    Permanent,
}

} // verus!
