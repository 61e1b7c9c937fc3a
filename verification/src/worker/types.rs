//! What is known of workers and of the blocks they report.

use crate::ids::{BlockId, GroupName, WorkerId, WorkerRunId};
use crate::table::TableKey;
use vstd::prelude::*;

verus! {

/// Lasting description of a worker.
#[derive(Debug)]
pub struct WorkerDescriptor {
    pub group_name: GroupName,
    pub worker_id: WorkerId,
    pub address: String,
    /// Network protocol: 0 unspecified, 1 grpc, 2 quic, 3 rdma.
    pub worker_net_protocol: i32,
    pub fault_domain: Option<String>,
}

impl Clone for WorkerDescriptor {
    fn clone(&self) -> (copy: Self)
        ensures
            copy == *self,
    {
        WorkerDescriptor {
            group_name: self.group_name.clone(),
            worker_id: self.worker_id,
            address: self.address.clone(),
            worker_net_protocol: self.worker_net_protocol,
            fault_domain: copy_text(&self.fault_domain),
        }
    }
}

/// A copy of an optional text.
pub fn copy_text(text: &Option<String>) -> (copy: Option<String>)
    ensures
        copy == *text,
{
    match text {
        Some(t) => Some(t.clone()),
        None => None,
    }
}

/// What the last accepted heartbeat said of a worker.
#[derive(Clone, Copy, Debug)]
pub struct WorkerRuntime {
    pub worker_run_id: WorkerRunId,
    pub heartbeat_seq: u64,
    /// Monotonic time of the last heartbeat.
    pub last_seen_ns: u64,
    /// Wall time of the last heartbeat.
    pub last_seen_ms: u64,
    pub capacity_total: u64,
    pub capacity_used: u64,
    pub capacity_available: u64,
    pub active_reads: u32,
    pub active_writes: u32,
    pub health: HealthStatus,
}

/// Description and current load of a worker in one record.
#[derive(Debug)]
pub struct WorkerInfo {
    pub group_name: GroupName,
    pub worker_id: WorkerId,
    pub address: String,
    /// Network protocol: 0 unspecified, 1 grpc, 2 quic, 3 rdma.
    pub worker_net_protocol: i32,
    pub capacity_total: u64,
    pub capacity_used: u64,
    pub capacity_available: u64,
    pub active_reads: u32,
    pub active_writes: u32,
    pub health: HealthStatus,
    /// Seconds since the Unix epoch.
    pub last_heartbeat: u64,
    pub fault_domain: Option<String>,
}

#[derive(Clone, Copy, Debug, PartialEq, Eq, Structural)]
pub enum HealthStatus {
    Healthy,
    Degraded,
    Unhealthy,
}

/// The health that a wire number stands for. Numbers without a meaning count as healthy.
pub open spec fn health_of(v: i32) -> HealthStatus {
    if v == 2 {
        HealthStatus::Degraded
    } else if v == 3 {
        HealthStatus::Unhealthy
    } else {
        HealthStatus::Healthy
    }
}

impl From<i32> for HealthStatus {
    fn from(v: i32) -> (health: Self) {
        match v {
            1 => HealthStatus::Healthy,
            2 => HealthStatus::Degraded,
            3 => HealthStatus::Unhealthy,
            _ => HealthStatus::Healthy,
        }
    }
}

impl vstd::std_specs::convert::FromSpecImpl<i32> for HealthStatus {
    open spec fn obeys_from_spec() -> bool {
        true
    }

    open spec fn from_spec(v: i32) -> Self {
        health_of(v)
    }
}

/// A block within one metadata group.
#[derive(Debug)]
pub struct BlockLocationKey {
    pub group_name: GroupName,
    pub block_id: BlockId,
}

impl View for BlockLocationKey {
    type V = (Seq<char>, BlockId);

    open spec fn view(&self) -> (Seq<char>, BlockId) {
        (self.group_name@, self.block_id)
    }
}

impl BlockLocationKey {
    pub fn new(group_name: &GroupName, block_id: BlockId) -> (key: Self)
        ensures
            key.group_name == *group_name,
            key.block_id == block_id,
    {
        BlockLocationKey { group_name: group_name.clone(), block_id }
    }
}

impl TableKey for BlockLocationKey {
    fn same_key(&self, other: &Self) -> (same: bool) {
        self.block_id == other.block_id && self.group_name.same(&other.group_name)
    }

    fn copy_key(&self) -> (key: Self) {
        BlockLocationKey { group_name: self.group_name.clone(), block_id: self.block_id }
    }
}

impl PartialEq for BlockLocationKey {
    fn eq(&self, other: &Self) -> (same: bool) {
        self.block_id == other.block_id && self.group_name.same(&other.group_name)
    }
}

impl vstd::std_specs::cmp::PartialEqSpecImpl for BlockLocationKey {
    open spec fn obeys_eq_spec() -> bool {
        true
    }

    open spec fn eq_spec(&self, other: &Self) -> bool {
        self@ == other@
    }
}

/// A worker within one metadata group.
#[derive(Debug)]
pub struct WorkerRegistrationKey {
    pub group_name: GroupName,
    pub worker_id: WorkerId,
}

impl View for WorkerRegistrationKey {
    type V = (Seq<char>, WorkerId);

    open spec fn view(&self) -> (Seq<char>, WorkerId) {
        (self.group_name@, self.worker_id)
    }
}

impl WorkerRegistrationKey {
    pub fn new(group_name: &GroupName, worker_id: WorkerId) -> (key: Self)
        ensures
            key.group_name == *group_name,
            key.worker_id == worker_id,
    {
        WorkerRegistrationKey { group_name: group_name.clone(), worker_id }
    }
}

impl TableKey for WorkerRegistrationKey {
    fn same_key(&self, other: &Self) -> (same: bool) {
        self.worker_id == other.worker_id && self.group_name.same(&other.group_name)
    }

    fn copy_key(&self) -> (key: Self) {
        WorkerRegistrationKey { group_name: self.group_name.clone(), worker_id: self.worker_id }
    }
}

impl PartialEq for WorkerRegistrationKey {
    fn eq(&self, other: &Self) -> (same: bool) {
        self.worker_id == other.worker_id && self.group_name.same(&other.group_name)
    }
}

impl vstd::std_specs::cmp::PartialEqSpecImpl for WorkerRegistrationKey {
    open spec fn obeys_eq_spec() -> bool {
        true
    }

    open spec fn eq_spec(&self, other: &Self) -> bool {
        self@ == other@
    }
}

impl View for BlockId {
    type V = BlockId;

    open spec fn view(&self) -> BlockId {
        *self
    }
}

impl TableKey for BlockId {
    fn same_key(&self, other: &Self) -> (same: bool) {
        *self == *other
    }

    fn copy_key(&self) -> (key: Self) {
        *self
    }
}

/// The registration of one worker run with this metadata process.
#[derive(Debug)]
pub struct WorkerRegistrationState {
    pub group_name: GroupName,
    pub worker_id: WorkerId,
    pub worker_run_id: WorkerRunId,
    pub address: String,
    pub worker_net_protocol: i32,
    pub fault_domain: Option<String>,
    pub registered_at_ms: u64,
    /// Monotonic time at which the registration lapses unless it is renewed.
    pub lease_deadline_ns: u128,
}

impl Clone for WorkerRegistrationState {
    fn clone(&self) -> (copy: Self)
        ensures
            copy == *self,
    {
        WorkerRegistrationState {
            group_name: self.group_name.clone(),
            worker_id: self.worker_id,
            worker_run_id: self.worker_run_id,
            address: self.address.clone(),
            worker_net_protocol: self.worker_net_protocol,
            fault_domain: copy_text(&self.fault_domain),
            registered_at_ms: self.registered_at_ms,
            lease_deadline_ns: self.lease_deadline_ns,
        }
    }
}

/// What a heartbeat is answered with.
#[derive(Debug)]
pub struct WorkerLiveState {
    pub group_name: GroupName,
    pub worker_id: WorkerId,
    pub worker_run_id: WorkerRunId,
    pub heartbeat_seq: u64,
    pub last_seen_ms: u64,
}

#[derive(Clone, Copy, Debug, PartialEq, Eq, Structural)]
pub enum BlockReportBlockState {
    Ready,
    Partial,
    Corrupt,
    Deleting,
}

/// One block as a worker reports it.
#[derive(Clone, Copy, Debug, PartialEq, Eq, Structural)]
pub struct BlockReportBlock {
    pub block_id: BlockId,
    pub data_handle_id: u64,
    pub block_index: u32,
    pub block_stamp: u64,
    pub effective_len: u64,
    pub committed_length: u64,
    pub block_state: BlockReportBlockState,
}

#[derive(Clone, Copy, Debug, PartialEq, Eq, Structural)]
pub enum BlockReportDeltaOp {
    AddUpdate,
    Remove,
}

#[derive(Clone, Copy, Debug, PartialEq, Eq, Structural)]
pub struct BlockReportDeltaEntry {
    pub op: BlockReportDeltaOp,
    pub block: BlockReportBlock,
}

/// What a report changed.
#[derive(Debug)]
pub struct BlockReportApplyResult {
    /// Blocks that became ready.
    pub added_blocks: Vec<BlockId>,
    /// Blocks that were ready and no longer are.
    pub removed_blocks: Vec<BlockId>,
    pub next_delta_seq: u64,
}

/// How far a worker's report has come.
#[derive(Clone, Copy, Debug, PartialEq, Eq, Structural)]
pub enum BlockReportState {
    Empty,
    Receiving,
    Ready,
}

/// How many active workers have published their blocks.
#[derive(Clone, Copy, Debug, PartialEq, Eq, Structural)]
pub struct BlockReportConvergenceSnapshot {
    pub active_workers: usize,
    pub full_reported_workers: usize,
    pub converged: bool,
}

/// The numbers of a worker from which its load is computed.
#[derive(Clone, Copy, Debug, PartialEq, Eq, Structural)]
pub struct WorkerFigures {
    pub worker_id: WorkerId,
    pub capacity_total: u64,
    pub capacity_used: u64,
    pub active_reads: u32,
    pub active_writes: u32,
}

#[derive(Clone, Copy, Debug, PartialEq, Eq, Structural)]
pub struct WorkerManagerStats {
    pub total_workers: usize,
    pub live_workers: usize,
    pub total_blocks: usize,
    pub total_locations: usize,
}

/// The readable name of a worker network protocol number.
pub open spec fn protocol_label(worker_net_protocol: i32) -> Seq<char> {
    if worker_net_protocol == 0 {
        "unspecified"@
    } else if worker_net_protocol == 1 {
        "grpc"@
    } else if worker_net_protocol == 2 {
        "quic"@
    } else if worker_net_protocol == 3 {
        "rdma"@
    } else {
        "unknown"@
    }
}

/// The readable name of a worker network protocol number.
pub fn worker_net_protocol_label(worker_net_protocol: i32) -> (label: &'static str)
    ensures
        label@ == protocol_label(worker_net_protocol),
{
    match worker_net_protocol {
        0 => "unspecified",
        1 => "grpc",
        2 => "quic",
        3 => "rdma",
        _ => "unknown",
    }
}

/// Each known protocol has a name of its own, and all others share one that none of these has.
pub proof fn law_protocols_have_names_of_their_own(a: i32, b: i32)
    ensures
        0 <= a <= 3 ==> (protocol_label(a) == protocol_label(b) <==> a == b),
        !(0 <= a <= 3) && !(0 <= b <= 3) ==> protocol_label(a) == protocol_label(b),
{
    reveal_strlit("unspecified");
    reveal_strlit("grpc");
    reveal_strlit("quic");
    reveal_strlit("rdma");
    reveal_strlit("unknown");
    assert("grpc"@[0] != "quic"@[0] && "grpc"@[0] != "rdma"@[0] && "quic"@[0] != "rdma"@[0]);
    assert("unspecified"@.len() == 11 && "unknown"@.len() == 7 && "grpc"@.len() == 4 && "quic"@.len() == 4
        && "rdma"@.len() == 4);
}

} // verus!
