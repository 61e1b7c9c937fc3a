//! What planning asks for.

use crate::ids::{BlockId, WorkerId};
use crate::text;
use crate::worker::repair::types;
use crate::worker::repair::types::{RepairTask, TaskModel};
use crate::worker::types::copy_text;
use vstd::prelude::*;

verus! {

/// Something that should be done to a block.
#[derive(Debug)]
#[allow(inconsistent_fields)]
pub enum RepairAction {
    Replicate {
        block_id: BlockId,
        src_workers: Vec<WorkerId>,
        target_worker: WorkerId,
        replication_factor: Option<u8>,
        reason: Option<String>,
    },
    MoveCopy { block_id: BlockId, from_worker: WorkerId, to_worker: WorkerId },
    EvictReplica { block_id: BlockId, target_worker: WorkerId, reason: String },
}

#[allow(inconsistent_fields)]
pub ghost enum ActionModel {
    Replicate {
        block_id: BlockId,
        src_workers: Seq<WorkerId>,
        target_worker: WorkerId,
        replication_factor: Option<u8>,
        reason: Option<Seq<char>>,
    },
    MoveCopy { block_id: BlockId, from_worker: WorkerId, to_worker: WorkerId },
    EvictReplica { block_id: BlockId, target_worker: WorkerId, reason: Seq<char> },
}

impl View for RepairAction {
    type V = ActionModel;

    open spec fn view(&self) -> ActionModel {
        match self {
            RepairAction::Replicate { block_id, src_workers, target_worker, replication_factor, reason } =>
                ActionModel::Replicate {
                block_id: *block_id,
                src_workers: src_workers@,
                target_worker: *target_worker,
                replication_factor: *replication_factor,
                reason: text::shown(*reason),
            },
            RepairAction::MoveCopy { block_id, from_worker, to_worker } => ActionModel::MoveCopy {
                block_id: *block_id,
                from_worker: *from_worker,
                to_worker: *to_worker,
            },
            RepairAction::EvictReplica { block_id, target_worker, reason } => ActionModel::EvictReplica {
                block_id: *block_id,
                target_worker: *target_worker,
                reason: reason@,
            },
        }
    }
}

/// The actions of a list.
pub open spec fn views(actions: Seq<RepairAction>) -> Seq<ActionModel> {
    Seq::new(actions.len(), |i: int| actions[i]@)
}

impl ActionModel {
    pub open spec fn block(self) -> BlockId {
        match self {
            ActionModel::Replicate { block_id, .. } => block_id,
            ActionModel::MoveCopy { block_id, .. } => block_id,
            ActionModel::EvictReplica { block_id, .. } => block_id,
        }
    }

    /// The task that carries the action out. To move a copy, the new holder replicates the block
    /// from the old one.
    pub open spec fn task(self) -> TaskModel {
        match self {
            ActionModel::Replicate { block_id, src_workers, target_worker, replication_factor, reason } =>
                TaskModel::Replicate { block_id, src_workers, target_worker, replication_factor, reason },
            ActionModel::MoveCopy { block_id, from_worker, to_worker } => TaskModel::Replicate {
                block_id,
                src_workers: seq![from_worker],
                target_worker: to_worker,
                replication_factor: None,
                reason: None,
            },
            ActionModel::EvictReplica { block_id, target_worker, reason } => TaskModel::EvictReplica {
                block_id,
                target_worker,
                reason,
            },
        }
    }
}

impl RepairAction {
    pub fn block_id(&self) -> (block_id: BlockId)
        ensures
            block_id == self@.block(),
    {
        match self {
            RepairAction::Replicate { block_id, .. } => *block_id,
            RepairAction::MoveCopy { block_id, .. } => *block_id,
            RepairAction::EvictReplica { block_id, .. } => *block_id,
        }
    }

    /// The task that carries the action out.
    pub fn to_task(&self) -> (task: RepairTask)
        ensures
            task@ == self@.task(),
    {
        match self {
            RepairAction::Replicate { block_id, src_workers, target_worker, replication_factor, reason } =>
                RepairTask::Replicate {
                block_id: *block_id,
                src_workers: types::copy_workers(src_workers),
                target_worker: *target_worker,
                replication_factor: *replication_factor,
                reason: copy_text(reason),
            },
            RepairAction::MoveCopy { block_id, from_worker, to_worker } => {
                let mut src_workers: Vec<WorkerId> = Vec::new();
                src_workers.push(*from_worker);
                assert(src_workers@ =~= seq![*from_worker]);
                RepairTask::Replicate {
                    block_id: *block_id,
                    src_workers,
                    target_worker: *to_worker,
                    replication_factor: None,
                    reason: None,
                }
            },
            RepairAction::EvictReplica { block_id, target_worker, reason } => RepairTask::EvictReplica {
                block_id: *block_id,
                target_worker: *target_worker,
                reason: reason.clone(),
            },
        }
    }

    /// The task that carries the action out.
    pub fn into_task(self) -> (task: RepairTask)
        ensures
            task@ == self@.task(),
    {
        self.to_task()
    }
}

} // verus!
