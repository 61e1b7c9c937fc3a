//! Records of the store.

use crate::error::MetadataResult;
use crate::ids::{BlockId, DataHandleId, InodeId, MountEpoch, RaftLogId, ShardGroupId, WorkerId};
use vstd::prelude::*;

verus! {

/// The version of the layout, which grows with every change of it.
#[derive(Clone, Copy, Debug, PartialEq, Eq, Hash, Structural)]
pub struct LayoutVersion {
    pub version: u64,
}

impl LayoutVersion {
    pub fn new(version: u64) -> (layout: Self)
        ensures
            layout.version == version,
    {
        LayoutVersion { version }
    }

    pub fn as_u64(&self) -> (version: u64)
        ensures
            version == self.version,
    {
        self.version
    }
}

/// The epoch of the routes, which grows with every change of them.
#[derive(Clone, Copy, Debug, PartialEq, Eq, Hash, Structural)]
pub struct RouteEpoch {
    pub epoch: u64,
}

impl RouteEpoch {
    pub fn new(epoch: u64) -> (route: Self)
        ensures
            route.epoch == epoch,
    {
        RouteEpoch { epoch }
    }

    pub fn as_u64(&self) -> (epoch: u64)
        ensures
            epoch == self.epoch,
    {
        self.epoch
    }
}

/// A block as it is stored. What states and placements are is for the owner of the store to say.
#[derive(Clone, Debug)]
pub struct BlockMetaState<S, P> {
    pub block_id: BlockId,
    pub inode_id: InodeId,
    pub data_handle_id: DataHandleId,
    pub state: S,
    pub placement: P,
    pub committed_length: u64,
}

/// The lease of a block as it is stored.
#[derive(Clone, Debug)]
pub struct LeaseState<L> {
    pub block_id: BlockId,
    pub lease: L,
}

/// Why a block is to be deleted.
#[derive(Clone, Copy, Debug, PartialEq, Eq, Hash, Structural)]
pub enum DeleteIntentReason {
    /// Nothing refers to it.
    Gc,
    /// A worker has it and the store does not know it.
    Orphan,
    /// Its lease ran out.
    Lease,
    /// Somebody asked for it.
    Manual,
    /// It has more copies than it should.
    OverRep,
}

/// How far a deletion has come.
#[derive(Clone, Copy, Debug, PartialEq, Eq, Hash, Structural)]
pub enum DeleteIntentStatus {
    Pending,
    /// The command was sent.
    InFlight,
    /// Every answer that is needed has come.
    Completed,
    /// It failed, and trying again does not help.
    Failed,
}

impl Default for DeleteIntentStatus {
    fn default() -> (status: Self)
        ensures
            status == DeleteIntentStatus::Pending,
    {
        DeleteIntentStatus::Pending
    }
}

/// A state that a group must have reached.
#[derive(Clone, Copy, Debug, PartialEq, Eq, Structural)]
pub struct GroupWatermark {
    pub shard_group_id: ShardGroupId,
    pub state_id: RaftLogId,
}

/// A deletion that was decided.
#[derive(Clone, Debug)]
pub struct DeleteIntent {
    pub intent_id: u64,
    pub block_id: BlockId,
    pub reason: DeleteIntentReason,
    pub created_at_ms: u64,
    /// It is not carried out before this time.
    pub not_before_ms: u64,
    pub shard_group_id: Option<ShardGroupId>,
    /// It is not carried out before the group has reached this state.
    pub guard_watermark: Option<GroupWatermark>,
    pub mount_epoch: Option<MountEpoch>,
    /// Stands for the watermark where there is none.
    pub guard_state_id: RaftLogId,
    pub target_workers: Vec<WorkerId>,
    pub status: DeleteIntentStatus,
    pub finished_at_ms: Option<u64>,
    pub last_error_msg: Option<String>,
}

/// What is asked of a store.
pub trait StateStore {
    fn get_route_epoch(&self) -> MetadataResult<RouteEpoch>;
}

} // verus!
