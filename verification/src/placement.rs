//! What block placement is told about workers and blocks.

use crate::ids::{BlockId, GroupName, WorkerId, WorkerRunId};
use vstd::prelude::*;

verus! {

/// On-disk format of blocks.
#[derive(Clone, Copy, Debug, PartialEq, Eq, Structural)]
pub struct BlockFormatId {
    pub raw: u32,
}

/// A worker as placement sees it.
#[derive(Debug)]
pub struct WorkerPlacementView {
    pub group_name: GroupName,
    pub worker_id: WorkerId,
    pub worker_run_id: Option<WorkerRunId>,
    pub endpoint: String,
    pub worker_net_protocol: i32,
    pub registered: bool,
    pub lease_valid: bool,
    pub ip: Option<String>,
    pub host: Option<String>,
    pub az: Option<String>,
    pub rack: Option<String>,
    pub region: Option<String>,
    pub free_bytes: Option<u64>,
    pub supported_block_formats: Vec<BlockFormatId>,
}

/// A ready block on a worker, with the run that reported it.
#[derive(Debug)]
pub struct ReportedBlockLocation {
    pub group_name: GroupName,
    pub block_id: BlockId,
    pub block_stamp: u64,
    pub worker_id: WorkerId,
    pub worker_run_id: WorkerRunId,
}

} // verus!
