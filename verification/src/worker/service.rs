//! Requests of workers: registration, heartbeats and block reports, and what they are answered.

use crate::clock::Moment;
use crate::endpoint;
use crate::endpoint::Trim;
use crate::error::{ErrorKind, MetadataError, MetadataResult};
use crate::ids::{BlockId, GroupName, RaftLogId, WorkerId, WorkerRunId};
use crate::raft::RaftView;
use crate::rpc;
use crate::rpc::{CanonicalError, CanonicalModel, ErrorClass, ErrorReply, RefreshReason, ReplyModel, RpcErrorCode, RpcStatus};
use crate::service::inputs::DedupKey;
use crate::table;
use crate::text;
use crate::worker::laws;
use crate::worker::manager;
use crate::worker::manager::WorkerManager;
use crate::worker::metrics::WorkerMetrics;
use crate::worker::model;
use crate::worker::types;
use crate::worker::types::{
    BlockReportApplyResult, BlockReportBlock, BlockReportBlockState, BlockReportDeltaEntry, BlockReportDeltaOp,
    HealthStatus,
};
use vstd::prelude::*;
use vstd::string::*;

verus! {

/// The wire number of gRPC among the worker network protocols.
pub const WORKER_NET_PROTOCOL_GRPC: i32 = 1;

/// How often a worker is asked to send heartbeats.
pub const HEARTBEAT_INTERVAL_MS: u32 = 1_000;

/// Tasks that run beside the service. There are none.
pub struct WorkerBackgroundHandle {}

impl WorkerBackgroundHandle {
    pub fn task_count(&self) -> (count: usize)
        ensures
            count == 0,
    {
        0
    }
}

// ---------------------------------------------------------------------------------------------
// Endpoints
// ---------------------------------------------------------------------------------------------

/// Where a worker says that it is reached.
#[derive(Debug)]
pub struct AdvertisedEndpoint {
    pub protocol: String,
    pub host: String,
    pub port: u32,
    /// The host is an IP address that stands for all addresses.
    pub host_is_wildcard: bool,
}

/// The address that an endpoint gives, or what is wrong with it.
pub open spec fn endpoint_check(e: AdvertisedEndpoint) -> Result<Seq<char>, Seq<char>> {
    if e.protocol@ != "grpc"@ {
        Err("advertised_endpoint protocol must be grpc"@)
    } else if endpoint::trimmed(e.host@, Trim::WhiteSpace).len() == 0 {
        Err("advertised_endpoint host must not be empty"@)
    } else if e.port == 0 || e.port > 65535 {
        Err("advertised_endpoint port must be between 1 and 65535"@)
    } else if e.host_is_wildcard {
        Err("advertised_endpoint must not use a wildcard host"@)
    } else {
        Ok(e.host@ + ":"@ + text::decimal(e.port as nat))
    }
}

/// The address that an endpoint gives, or what is wrong with it.
pub fn validate_advertised_endpoint(e: &AdvertisedEndpoint) -> (address: Result<String, String>)
    ensures
        match address {
            Ok(a) => endpoint_check(*e) == Ok::<Seq<char>, Seq<char>>(a@),
            Err(m) => endpoint_check(*e) == Err::<Seq<char>, Seq<char>>(m@),
        },
{
    if !text::same(e.protocol.as_str(), "grpc") {
        return Err(text::literal("advertised_endpoint protocol must be grpc"));
    }
    if endpoint::trim(e.host.as_str(), Trim::WhiteSpace).is_empty() {
        return Err(text::literal("advertised_endpoint host must not be empty"));
    }
    if e.port == 0 || e.port > 65535 {
        return Err(text::literal("advertised_endpoint port must be between 1 and 65535"));
    }
    if e.host_is_wildcard {
        return Err(text::literal("advertised_endpoint must not use a wildcard host"));
    }
    let mut address = text::join(e.host.as_str(), ":");
    text::push_decimal(&mut address, e.port as u64);
    Ok(address)
}

/// An endpoint of a metadata node.
#[derive(Debug)]
pub struct MetadataEndpoint {
    pub host: String,
    pub port: u32,
}

/// The text without `http://` or `https://` in front.
pub open spec fn without_scheme(address: Seq<char>) -> Seq<char> {
    if "http://"@.is_prefix_of(address) {
        address.skip("http://"@.len() as int)
    } else if "https://"@.is_prefix_of(address) {
        address.skip("https://"@.len() as int)
    } else {
        address
    }
}

/// Host and port of an address: they stand before and after the last colon, the host perhaps in
/// brackets. Nothing where there is no colon or what follows it is no number.
pub open spec fn endpoint_of(address: Seq<char>) -> Option<(Seq<char>, u32)> {
    let rest = without_scheme(address);
    let at = endpoint::last_before(rest, ":"@, rest.len() as int);
    if at < 0 {
        None
    } else {
        match text::number_in(rest.skip(at + 1)) {
            Some(port) => Some((endpoint::trimmed(rest.take(at), Trim::Brackets), port)),
            None => None,
        }
    }
}

/// Host and port of the address of a metadata node.
pub fn parse_metadata_endpoint(address: &str) -> (parsed: Option<MetadataEndpoint>)
    ensures
        match parsed {
            Some(e) => endpoint_of(address@) == Some((e.host@, e.port)),
            None => endpoint_of(address@) is None,
        },
{
    proof {
        reveal_strlit("http://");
        reveal_strlit("https://");
        reveal_strlit(":");
    }
    let rest = if text::starts_with(address, "http://") {
        text::without_first(address, 7)
    } else if text::starts_with(address, "https://") {
        text::without_first(address, 8)
    } else {
        address
    };
    match endpoint::find_last(rest, ":") {
        None => None,
        Some(at) => {
            let n = rest.unicode_len();
            let named = rest.substring_char(0, at);
            let number = rest.substring_char(at + 1, n);
            proof {
                assert(named@ =~= rest@.take(at as int));
                assert(number@ =~= rest@.skip(at + 1));
            }
            match text::parse_number(number) {
                None => None,
                Some(port) => Some(
                    MetadataEndpoint { host: text::literal(endpoint::trim(named, Trim::Brackets)), port },
                ),
            }
        },
    }
}

// ---------------------------------------------------------------------------------------------
// Answers
// ---------------------------------------------------------------------------------------------

/// What the header of an answer tells besides the client it is for.
#[derive(Debug)]
pub struct WorkerHeader {
    pub status: RpcStatus,
    pub group_name: Option<GroupName>,
    /// How far the group has applied its log; only a leader tells.
    pub state: Option<RaftLogId>,
}

pub open spec fn header_state(raft: RaftView, group: Option<GroupName>) -> Option<RaftLogId> {
    if raft.is_leader && group is Some {
        raft.last_applied
    } else {
        None
    }
}

/// The header of an answer without an error.
pub fn ok_header(raft: &RaftView, group_name: &Option<GroupName>) -> (header: WorkerHeader)
    ensures
        header.status == RpcStatus::Success,
        header.group_name == *group_name,
        header.state == header_state(*raft, *group_name),
{
    let state = if raft.is_leader && group_name.is_some() {
        raft.last_applied
    } else {
        None
    };
    WorkerHeader { status: RpcStatus::Success, group_name: rpc::copy_group(group_name), state }
}

/// The header of an answer with an error of this class.
pub fn error_header(raft: &RaftView, group_name: &Option<GroupName>, class: ErrorClass) -> (header: WorkerHeader)
    ensures
        header.status == rpc::status_for(class),
        header.group_name == *group_name,
        header.state == header_state(*raft, *group_name),
{
    let ok = ok_header(raft, group_name);
    WorkerHeader { status: rpc::status_of(class), group_name: ok.group_name, state: ok.state }
}

pub open spec fn invalid(message: Seq<char>) -> ReplyModel {
    ReplyModel::Error(ErrorKind::InvalidArgument, message)
}

pub open spec fn need_register(message: Seq<char>) -> ReplyModel {
    ReplyModel::Canonical(
        CanonicalModel::need_refresh(RpcErrorCode::WorkerNotRegistered, RefreshReason::NeedRegister, message),
    )
}

pub open spec fn run_mismatch(message: Seq<char>) -> ReplyModel {
    ReplyModel::Canonical(
        CanonicalModel::need_refresh(RpcErrorCode::WorkerRunMismatch, RefreshReason::WorkerRunMismatch, message),
    )
}

pub open spec fn descriptor_mismatch(message: Seq<char>) -> ReplyModel {
    ReplyModel::Canonical(
        CanonicalModel::need_refresh(RpcErrorCode::WorkerDescriptorMismatch, RefreshReason::NeedRegister, message),
    )
}

pub open spec fn full_report_required(message: Seq<char>) -> ReplyModel {
    ReplyModel::Canonical(
        CanonicalModel::need_refresh(RpcErrorCode::FullReportRequired, RefreshReason::FullReportRequired, message),
    )
}

pub open spec fn group_mismatch(message: Seq<char>) -> ReplyModel {
    ReplyModel::Canonical(
        CanonicalModel::fatal(RpcErrorCode::InvalidArgument, Some(RefreshReason::GroupMismatch), message),
    )
}

fn invalid_reply(message: String) -> (reply: ErrorReply)
    ensures
        reply@ == invalid(message@),
{
    ErrorReply::Error(MetadataError::InvalidArgument(message))
}

fn need_register_reply(message: String) -> (reply: ErrorReply)
    ensures
        reply@ == need_register(message@),
{
    ErrorReply::Canonical(
        CanonicalError::need_refresh(RpcErrorCode::WorkerNotRegistered, RefreshReason::NeedRegister, message),
    )
}

fn run_mismatch_reply(message: String) -> (reply: ErrorReply)
    ensures
        reply@ == run_mismatch(message@),
{
    ErrorReply::Canonical(
        CanonicalError::need_refresh(RpcErrorCode::WorkerRunMismatch, RefreshReason::WorkerRunMismatch, message),
    )
}

fn descriptor_mismatch_reply(message: String) -> (reply: ErrorReply)
    ensures
        reply@ == descriptor_mismatch(message@),
{
    ErrorReply::Canonical(
        CanonicalError::need_refresh(RpcErrorCode::WorkerDescriptorMismatch, RefreshReason::NeedRegister, message),
    )
}

fn full_report_required_reply(message: String) -> (reply: ErrorReply)
    ensures
        reply@ == full_report_required(message@),
{
    ErrorReply::Canonical(
        CanonicalError::need_refresh(RpcErrorCode::FullReportRequired, RefreshReason::FullReportRequired, message),
    )
}

fn group_mismatch_reply(message: String) -> (reply: ErrorReply)
    ensures
        reply@ == group_mismatch(message@),
{
    ErrorReply::Canonical(
        CanonicalError::fatal(RpcErrorCode::InvalidArgument, Some(RefreshReason::GroupMismatch), message),
    )
}

/// What the manager's refusal of a heartbeat is answered with.
pub open spec fn beat_error(kind: ErrorKind, message: Seq<char>) -> ReplyModel {
    match kind {
        ErrorKind::NotFound => need_register(message),
        ErrorKind::StaleState => run_mismatch(message),
        ErrorKind::InvalidArgument => descriptor_mismatch(message),
        _ => ReplyModel::Error(kind, message),
    }
}

fn map_beat_error(error: MetadataError) -> (reply: ErrorReply)
    ensures
        reply@ == beat_error(error.spec_kind(), error.spec_text()),
{
    match error {
        MetadataError::NotFound(message) => need_register_reply(message),
        MetadataError::StaleState(message) => run_mismatch_reply(message),
        MetadataError::InvalidArgument(message) => descriptor_mismatch_reply(message),
        other => ErrorReply::Error(other),
    }
}

/// What the manager's refusal of a report is answered with.
pub open spec fn report_error(kind: ErrorKind, message: Seq<char>) -> ReplyModel {
    match kind {
        ErrorKind::NotFound => need_register(message),
        ErrorKind::StaleState => run_mismatch(message),
        ErrorKind::FullReportRequired => full_report_required(message),
        _ => ReplyModel::Error(kind, message),
    }
}

/// What the manager's refusal of a report is answered with.
pub fn map_report_error(error: MetadataError) -> (reply: ErrorReply)
    ensures
        reply@ == report_error(error.spec_kind(), error.spec_text()),
{
    match error {
        MetadataError::NotFound(message) => need_register_reply(message),
        MetadataError::StaleState(message) => run_mismatch_reply(message),
        MetadataError::FullReportRequired(message) => full_report_required_reply(message),
        other => ErrorReply::Error(other),
    }
}

// ---------------------------------------------------------------------------------------------
// Senders
// ---------------------------------------------------------------------------------------------

/// Requests of workers.
#[derive(Clone, Copy, Debug, PartialEq, Eq, Structural)]
pub enum WorkerRpc {
    Register,
    Heartbeat,
    BlockReport,
}

pub open spec fn rpc_label(which: WorkerRpc) -> Seq<char> {
    match which {
        WorkerRpc::Register => "register"@,
        WorkerRpc::Heartbeat => "heartbeat"@,
        WorkerRpc::BlockReport => "block report"@,
    }
}

/// Who sends a request: what reading the names gave, or what was wrong with them.
#[derive(Debug)]
pub struct Sender {
    pub group_name: Result<GroupName, String>,
    pub worker_id: u64,
    pub worker_run_id: Result<WorkerRunId, String>,
}

/// Why a request is turned down for its sender, where it is.
pub open spec fn sender_refusal(which: WorkerRpc, sender: Sender, served: Seq<char>) -> Option<ReplyModel> {
    match sender.group_name {
        Err(error) => Some(invalid("group_name is invalid: "@ + error@)),
        Ok(group) => if group@ != served {
            let message = rpc_label(which) + " group_name "@ + group@ + " does not match served metadata group "@
                + served;
            Some(
                match which {
                    WorkerRpc::Register => invalid(message),
                    _ => group_mismatch(message),
                },
            )
        } else if sender.worker_id == 0 {
            Some(invalid("worker_id must be non-zero"@))
        } else {
            match sender.worker_run_id {
                Err(error) => Some(invalid("worker_run_id must be a UUID: "@ + error@)),
                Ok(_) => None,
            }
        },
    }
}

/// The worker that sends a request that was not turned down for its sender.
pub open spec fn sender_at(sender: Sender) -> model::WorkerAt {
    (sender.group_name->Ok_0@, WorkerId { raw: sender.worker_id })
}

fn check_sender(which: WorkerRpc, sender: &Sender, served: &GroupName) -> (found: Result<(GroupName, WorkerId, WorkerRunId), ErrorReply>)
    ensures
        match found {
            Ok((group, worker_id, run)) => sender_refusal(which, *sender, served@) is None && sender.group_name is Ok
                && group == sender.group_name->Ok_0 && (group@, worker_id) == sender_at(*sender) && sender.worker_run_id
                is Ok && run == sender.worker_run_id->Ok_0,
            Err(reply) => sender_refusal(which, *sender, served@) == Some(reply@),
        },
{
    let group = match &sender.group_name {
        Ok(group) => group.clone(),
        Err(error) => {
            return Err(invalid_reply(text::join("group_name is invalid: ", error.as_str())));
        },
    };
    if !group.same(served) {
        let label = match which {
            WorkerRpc::Register => "register",
            WorkerRpc::Heartbeat => "heartbeat",
            WorkerRpc::BlockReport => "block report",
        };
        let mut message = text::join(label, " group_name ");
        message.append(group.name.as_str());
        message.append(" does not match served metadata group ");
        message.append(served.name.as_str());
        return Err(
            match which {
                WorkerRpc::Register => invalid_reply(message),
                _ => group_mismatch_reply(message),
            },
        );
    }
    if sender.worker_id == 0 {
        return Err(invalid_reply(text::literal("worker_id must be non-zero")));
    }
    match &sender.worker_run_id {
        Ok(run) => Ok((group, WorkerId::new(sender.worker_id), *run)),
        Err(error) => Err(invalid_reply(text::join("worker_run_id must be a UUID: ", error.as_str()))),
    }
}

// ---------------------------------------------------------------------------------------------
// Registration
// ---------------------------------------------------------------------------------------------

/// A worker's request to be registered.
#[derive(Debug)]
pub struct RegisterRequest {
    pub dedup: DedupKey,
    pub sender: Sender,
    pub worker_net_protocol: i32,
    pub endpoint: Option<AdvertisedEndpoint>,
}

/// A registration for the log.
#[derive(Debug)]
pub struct RegisterCommand {
    pub dedup: DedupKey,
    pub group_name: GroupName,
    pub worker_id: WorkerId,
    pub worker_run_id: WorkerRunId,
    pub address: String,
    pub worker_net_protocol: i32,
    /// Where the worker stands. Workers do not tell.
    pub fault_domain: Option<String>,
}

/// What comes next for a registration.
#[derive(Debug)]
pub enum RegisterStep {
    Refuse(ErrorReply),
    Propose(RegisterCommand),
}

/// What the log made of a registration.
#[derive(Debug)]
pub enum PersistReply {
    Failed(MetadataError),
    Upserted(WorkerId),
    /// Something else, as it is shown.
    Other(String),
}

/// What a worker is told that was registered.
#[derive(Debug)]
pub struct RegisterAnswer {
    pub worker_id: u64,
    pub accepted_worker_run_id: String,
    pub group_name: GroupName,
}

/// Why an endpoint is turned down, where it is.
pub open spec fn endpoint_refusal(e: Option<AdvertisedEndpoint>) -> Option<ReplyModel> {
    match e {
        None => Some(invalid("Missing advertised_endpoint"@)),
        Some(e) => match endpoint_check(e) {
            Err(message) => Some(invalid(message)),
            Ok(_) => None,
        },
    }
}

fn check_endpoint(e: &Option<AdvertisedEndpoint>) -> (address: Result<String, ErrorReply>)
    ensures
        match address {
            Ok(a) => endpoint_refusal(*e) is None && e is Some && endpoint_check(e->0) == Ok::<Seq<char>, Seq<char>>(a@),
            Err(reply) => endpoint_refusal(*e) == Some(reply@),
        },
{
    match e {
        None => Err(invalid_reply(text::literal("Missing advertised_endpoint"))),
        Some(e) => match validate_advertised_endpoint(e) {
            Ok(address) => Ok(address),
            Err(message) => Err(invalid_reply(message)),
        },
    }
}

/// Why a registration is turned down before the manager is asked, where it is.
pub open spec fn register_refusal(req: RegisterRequest, is_leader: bool, served: Seq<char>) -> Option<ReplyModel> {
    if !is_leader {
        Some(
            ReplyModel::Error(
                ErrorKind::LeaderChanged,
                "worker registration must be sent to the metadata group leader"@,
            ),
        )
    } else if sender_refusal(WorkerRpc::Register, req.sender, served) is Some {
        sender_refusal(WorkerRpc::Register, req.sender, served)
    } else if req.worker_net_protocol != WORKER_NET_PROTOCOL_GRPC {
        Some(invalid("worker_net_protocol must be gRPC for startup registration"@))
    } else {
        endpoint_refusal(req.endpoint)
    }
}

/// The command is the one that the request asks for.
pub open spec fn is_command_of(command: RegisterCommand, req: RegisterRequest) -> bool {
    &&& command.dedup == req.dedup
    &&& command.group_name == req.sender.group_name->Ok_0
    &&& command.worker_id == (WorkerId { raw: req.sender.worker_id })
    &&& command.worker_run_id == req.sender.worker_run_id->Ok_0
    &&& endpoint_check(req.endpoint->0) == Ok::<Seq<char>, Seq<char>>(command.address@)
    &&& command.worker_net_protocol == req.worker_net_protocol
    &&& command.fault_domain is None
}

/// What a registration leads to, by the time at which it comes. The manager is asked whether
/// another run holds the worker's place; it learns of the registration only from the log.
pub open spec fn register_step_outcome(
    before: model::WorkerModel,
    after: model::WorkerModel,
    served: Seq<char>,
    is_leader: bool,
    req: RegisterRequest,
    now: Moment,
    step: RegisterStep,
) -> bool {
    match register_refusal(req, is_leader, served) {
        Some(refusal) => after == before && (step matches RegisterStep::Refuse(reply) && reply@ == refusal),
        None => {
            let swept = before.swept(now);
            after == swept && match swept.run_refusal(sender_at(req.sender), req.sender.worker_run_id->Ok_0) {
                Some(refusal) => step matches RegisterStep::Refuse(reply) && reply@ == ReplyModel::Error(
                    refusal.kind,
                    refusal.text,
                ),
                None => step matches RegisterStep::Propose(command) && is_command_of(command, req),
            }
        },
    }
}

/// The worker that was persisted, where the log said so.
pub fn persist_worker_descriptor(reply: PersistReply) -> (persisted: MetadataResult<WorkerId>)
    ensures
        match (reply, persisted) {
            (PersistReply::Failed(error), Err(told)) => told == error,
            (PersistReply::Upserted(worker_id), Ok(id)) => id == worker_id,
            (PersistReply::Other(shown), Err(told)) => told.says(
                ErrorKind::Internal,
                "RegisterWorker returned unexpected Raft response: "@ + shown@,
            ),
            _ => false,
        },
{
    match reply {
        PersistReply::Failed(error) => Err(error),
        PersistReply::Upserted(worker_id) => Ok(worker_id),
        PersistReply::Other(shown) => Err(
            MetadataError::Internal(text::join("RegisterWorker returned unexpected Raft response: ", shown.as_str())),
        ),
    }
}

/// What the worker is told once the log has spoken.
pub open spec fn register_answer(command: RegisterCommand, reply: PersistReply) -> Result<
    (u64, Seq<char>, GroupName),
    ReplyModel,
> {
    match reply {
        PersistReply::Failed(error) => Err(ReplyModel::Error(error.spec_kind(), error.spec_text())),
        PersistReply::Other(shown) => Err(
            ReplyModel::Error(
                ErrorKind::Internal,
                "RegisterWorker returned unexpected Raft response: "@ + shown@,
            ),
        ),
        PersistReply::Upserted(accepted) => if accepted != command.worker_id {
            Err(
                ReplyModel::Error(
                    ErrorKind::Internal,
                    "RegisterWorker returned worker_id "@ + text::decimal(accepted.raw as nat) + ", expected "@
                        + text::decimal(command.worker_id.raw as nat),
                ),
            )
        } else {
            Ok((accepted.raw, text::hyphenated(command.worker_run_id.raw as nat), command.group_name))
        },
    }
}

/// What the worker is told once the log has spoken.
pub fn finish_registration(command: RegisterCommand, reply: PersistReply) -> (answer: Result<RegisterAnswer, ErrorReply>)
    ensures
        match answer {
            Ok(a) => register_answer(command, reply) == Ok::<(u64, Seq<char>, GroupName), ReplyModel>(
                (a.worker_id, a.accepted_worker_run_id@, a.group_name),
            ),
            Err(e) => register_answer(command, reply) == Err::<(u64, Seq<char>, GroupName), ReplyModel>(e@),
        },
{
    let accepted = match persist_worker_descriptor(reply) {
        Ok(accepted) => accepted,
        Err(error) => {
            return Err(ErrorReply::Error(error));
        },
    };
    if accepted != command.worker_id {
        let mut message = text::with_number("RegisterWorker returned worker_id ", accepted.raw, ", expected ");
        text::push_decimal(&mut message, command.worker_id.raw);
        return Err(ErrorReply::Error(MetadataError::Internal(message)));
    }
    Ok(
        RegisterAnswer {
            worker_id: accepted.raw,
            accepted_worker_run_id: text::hyphenated_text(command.worker_run_id.raw),
            group_name: command.group_name,
        },
    )
}

// ---------------------------------------------------------------------------------------------
// Heartbeats
// ---------------------------------------------------------------------------------------------

#[derive(Clone, Copy, Debug, PartialEq, Eq, Structural)]
pub struct CapacityInfo {
    pub total_bytes: u64,
    pub used_bytes: u64,
    pub available_bytes: u64,
}

#[derive(Clone, Copy, Debug, PartialEq, Eq, Structural)]
pub struct LoadInfo {
    pub active_reads: u32,
    pub active_writes: u32,
}

/// A worker's heartbeat.
#[derive(Debug)]
pub struct HeartbeatRequest {
    pub sender: Sender,
    pub heartbeat_seq: u64,
    pub capacity: Option<CapacityInfo>,
    pub load: Option<LoadInfo>,
    pub health: i32,
    pub worker_net_protocol: i32,
    pub endpoint: Option<AdvertisedEndpoint>,
}

/// What a worker is told whose heartbeat was taken. It is never given commands.
#[derive(Debug)]
pub struct HeartbeatAnswer {
    pub worker_id: u64,
    pub accepted_worker_run_id: String,
    pub heartbeat_interval_ms: u32,
    pub liveness_timeout_ms: u32,
    pub server_is_leader: bool,
    pub leader_hint: Option<MetadataEndpoint>,
    pub group_name: GroupName,
}

/// Why a heartbeat is turned down before the manager is asked, where it is.
pub open spec fn heartbeat_refusal(req: HeartbeatRequest, served: Seq<char>) -> Option<ReplyModel> {
    if sender_refusal(WorkerRpc::Heartbeat, req.sender, served) is Some {
        sender_refusal(WorkerRpc::Heartbeat, req.sender, served)
    } else if req.capacity is None {
        Some(invalid("Missing capacity"@))
    } else if req.load is None {
        Some(invalid("Missing load"@))
    } else if req.worker_net_protocol != WORKER_NET_PROTOCOL_GRPC {
        Some(invalid("worker_net_protocol must be gRPC for heartbeat"@))
    } else {
        endpoint_refusal(req.endpoint)
    }
}

/// Why a heartbeat does not fit what is known of the worker, where it does not.
pub open spec fn misfit(
    m: model::WorkerModel,
    k: model::WorkerAt,
    run: WorkerRunId,
    address: Seq<char>,
    protocol: i32,
) -> Option<ReplyModel> {
    if !m.descriptors.contains_key(k) {
        Some(need_register(model::about("worker descriptor not found"@, k)))
    } else if !m.registrations.contains_key(k) {
        Some(need_register(model::about("live worker registration not found"@, k)))
    } else if m.registrations[k].worker_run_id != run {
        Some(run_mismatch(model::about("worker_run_id mismatch"@, k)))
    } else if m.descriptors[k].address@ != address || m.descriptors[k].worker_net_protocol != protocol {
        Some(
            descriptor_mismatch(
                model::about("advertised endpoint or protocol does not match registration"@, k),
            ),
        )
    } else {
        None
    }
}

/// The heartbeat as the manager takes it.
pub open spec fn beat_of(req: HeartbeatRequest) -> model::Beat {
    model::Beat {
        run: req.sender.worker_run_id->Ok_0,
        seq: req.heartbeat_seq,
        endpoint: endpoint_check(req.endpoint->0)->Ok_0,
        protocol: req.worker_net_protocol,
        capacity_total: req.capacity->0.total_bytes,
        capacity_used: req.capacity->0.used_bytes,
        capacity_available: req.capacity->0.available_bytes,
        active_reads: req.load->0.active_reads,
        active_writes: req.load->0.active_writes,
        health: types::health_of(req.health),
    }
}

/// After how long a silent worker counts as gone, in milliseconds, as far as the field holds it.
pub open spec fn timeout_ms(timeout_sec: u64) -> u32 {
    if timeout_sec * 1000 > u32::MAX {
        u32::MAX
    } else {
        (timeout_sec * 1000) as u32
    }
}

/// Where the leader is reached, as far as it is known and can be read.
pub open spec fn hint_of(raft: RaftView) -> Option<(Seq<char>, u32)> {
    match raft.spec_leader_address() {
        Some(address) => endpoint_of(address),
        None => None,
    }
}

/// The answer to a heartbeat that was taken.
pub open spec fn is_heartbeat_answer(
    answer: HeartbeatAnswer,
    req: HeartbeatRequest,
    raft: RaftView,
    timeout_sec: u64,
) -> bool {
    &&& answer.worker_id == req.sender.worker_id
    &&& answer.accepted_worker_run_id@ == text::hyphenated(req.sender.worker_run_id->Ok_0.raw as nat)
    &&& answer.heartbeat_interval_ms == HEARTBEAT_INTERVAL_MS
    &&& answer.liveness_timeout_ms == timeout_ms(timeout_sec)
    &&& answer.server_is_leader == raft.is_leader
    &&& hint_of(raft) == match answer.leader_hint {
        Some(e) => Some((e.host@, e.port)),
        None => None,
    }
    &&& answer.group_name == req.sender.group_name->Ok_0
}

/// What a heartbeat does and is answered, by the time at which it comes. A heartbeat that the
/// manager takes counts the live workers anew.
pub open spec fn heartbeat_rpc_outcome(
    before: MetadataWorkerServiceImpl,
    after: MetadataWorkerServiceImpl,
    raft: RaftView,
    req: HeartbeatRequest,
    now: Moment,
    answer: Result<HeartbeatAnswer, ErrorReply>,
) -> bool {
    let k = sender_at(req.sender);
    let swept = before.worker_manager@.swept(now);
    let beat = beat_of(req);
    &&& after.served_group_name == before.served_group_name
    &&& match heartbeat_refusal(req, before.served_group_name@) {
        Some(refusal) => after.worker_manager@ == before.worker_manager@ && after.metrics == before.metrics && (
        answer matches Err(reply) && reply@ == refusal),
        None => match misfit(swept, k, beat.run, beat.endpoint, beat.protocol) {
            Some(refusal) => after.worker_manager@ == swept && after.metrics == before.metrics && (
            answer matches Err(reply) && reply@ == refusal),
            None => {
                &&& after.worker_manager@ == swept.with_beat(k, beat, now)
                &&& after.metrics == WorkerMetrics {
                    worker_live: manager::live_workers(after.worker_manager@, now).len() as usize,
                    ..before.metrics
                }
                &&& answer matches Ok(a) && is_heartbeat_answer(a, req, raft, before.worker_manager@.timeout_sec)
            },
        },
    }
}

// ---------------------------------------------------------------------------------------------
// Block reports
// ---------------------------------------------------------------------------------------------

/// The state of a block as the wire tells it.
#[derive(Clone, Copy, Debug, PartialEq, Eq, Structural)]
pub enum WireBlockState {
    Unspecified,
    Ready,
    Partial,
    Corrupt,
    Deleting,
}

/// What happened to a block as the wire tells it.
#[derive(Clone, Copy, Debug, PartialEq, Eq, Structural)]
pub enum WireDeltaOp {
    Unspecified,
    AddUpdate,
    Remove,
}

/// A block as the wire tells it.
#[derive(Clone, Copy, Debug, PartialEq, Eq, Structural)]
pub struct WireBlock {
    pub block_id: Option<BlockId>,
    pub data_handle_id: u64,
    pub block_index: u32,
    pub block_stamp: u64,
    pub effective_len: u64,
    pub committed_length: u64,
    pub block_state: WireBlockState,
}

/// A change of a block as the wire tells it.
#[derive(Clone, Copy, Debug, PartialEq, Eq, Structural)]
pub struct WireDelta {
    pub op: WireDeltaOp,
    pub block: Option<WireBlock>,
}

/// What a report carries.
#[derive(Debug)]
pub enum ReportBody {
    Full { batch_seq: u64, final_batch: bool, blocks: Vec<WireBlock> },
    Delta { delta_seq: u64, deltas: Vec<WireDelta> },
}

/// A worker's report.
#[derive(Debug)]
pub struct BlockReportRequest {
    pub sender: Sender,
    pub report_seq: u64,
    pub report: Option<ReportBody>,
}

/// What a worker is told whose report was taken.
#[derive(Clone, Copy, Debug, PartialEq, Eq, Structural)]
pub struct BlockReportAnswer {
    pub report_seq: u64,
    pub next_delta_seq: u64,
    pub retry_after_ms: u32,
}

/// What is wrong with a block, if anything is.
pub open spec fn block_fault(block: WireBlock) -> Option<Seq<char>> {
    if block.block_id is None {
        Some("block report entry missing block_id"@)
    } else if block.block_state == WireBlockState::Unspecified {
        Some("block report entry block_state must be specified"@)
    } else {
        None
    }
}

/// What is wrong with a change, if anything is.
pub open spec fn delta_fault(delta: WireDelta) -> Option<Seq<char>> {
    if delta.block is None {
        Some("block report delta missing block"@)
    } else if delta.op == WireDeltaOp::Unspecified {
        Some("block report delta op must be specified"@)
    } else {
        block_fault(delta.block->0)
    }
}

/// The block that the wire tells of, where nothing is wrong with it.
pub open spec fn block_told(block: WireBlock) -> BlockReportBlock {
    BlockReportBlock {
        block_id: block.block_id->0,
        data_handle_id: block.data_handle_id,
        block_index: block.block_index,
        block_stamp: block.block_stamp,
        effective_len: block.effective_len,
        committed_length: block.committed_length,
        block_state: match block.block_state {
            WireBlockState::Partial => BlockReportBlockState::Partial,
            WireBlockState::Corrupt => BlockReportBlockState::Corrupt,
            WireBlockState::Deleting => BlockReportBlockState::Deleting,
            _ => BlockReportBlockState::Ready,
        },
    }
}

/// The change that the wire tells of, where nothing is wrong with it.
pub open spec fn delta_told(delta: WireDelta) -> BlockReportDeltaEntry {
    BlockReportDeltaEntry {
        op: match delta.op {
            WireDeltaOp::Remove => BlockReportDeltaOp::Remove,
            _ => BlockReportDeltaOp::AddUpdate,
        },
        block: block_told(delta.block->0),
    }
}

/// What is wrong with the first faulty block, if one is.
pub open spec fn blocks_fault(blocks: Seq<WireBlock>) -> Option<Seq<char>>
    decreases blocks.len(),
{
    if blocks.len() == 0 {
        None
    } else if blocks_fault(blocks.drop_last()) is Some {
        blocks_fault(blocks.drop_last())
    } else {
        block_fault(blocks.last())
    }
}

/// What is wrong with the first faulty change, if one is.
pub open spec fn deltas_fault(deltas: Seq<WireDelta>) -> Option<Seq<char>>
    decreases deltas.len(),
{
    if deltas.len() == 0 {
        None
    } else if deltas_fault(deltas.drop_last()) is Some {
        deltas_fault(deltas.drop_last())
    } else {
        delta_fault(deltas.last())
    }
}

pub open spec fn blocks_told(blocks: Seq<WireBlock>) -> Seq<BlockReportBlock> {
    Seq::new(blocks.len(), |i: int| block_told(blocks[i]))
}

pub open spec fn deltas_told(deltas: Seq<WireDelta>) -> Seq<BlockReportDeltaEntry> {
    Seq::new(deltas.len(), |i: int| delta_told(deltas[i]))
}

/// The block that the wire tells of.
pub fn proto_to_report_block(block: WireBlock) -> (told: MetadataResult<BlockReportBlock>)
    ensures
        match told {
            Ok(b) => block_fault(block) is None && b == block_told(block),
            Err(e) => block_fault(block) == Some(e.spec_text()) && e.spec_kind() == ErrorKind::InvalidArgument,
        },
{
    let block_id = match block.block_id {
        Some(block_id) => block_id,
        None => {
            return Err(MetadataError::InvalidArgument(text::literal("block report entry missing block_id")));
        },
    };
    let block_state = match block.block_state {
        WireBlockState::Ready => BlockReportBlockState::Ready,
        WireBlockState::Partial => BlockReportBlockState::Partial,
        WireBlockState::Corrupt => BlockReportBlockState::Corrupt,
        WireBlockState::Deleting => BlockReportBlockState::Deleting,
        WireBlockState::Unspecified => {
            return Err(
                MetadataError::InvalidArgument(text::literal("block report entry block_state must be specified")),
            );
        },
    };
    Ok(
        BlockReportBlock {
            block_id,
            data_handle_id: block.data_handle_id,
            block_index: block.block_index,
            block_stamp: block.block_stamp,
            effective_len: block.effective_len,
            committed_length: block.committed_length,
            block_state,
        },
    )
}

/// The change that the wire tells of.
pub fn proto_to_delta(delta: WireDelta) -> (told: MetadataResult<BlockReportDeltaEntry>)
    ensures
        match told {
            Ok(d) => delta_fault(delta) is None && d == delta_told(delta),
            Err(e) => delta_fault(delta) == Some(e.spec_text()) && e.spec_kind() == ErrorKind::InvalidArgument,
        },
{
    let block = match delta.block {
        Some(block) => block,
        None => {
            return Err(MetadataError::InvalidArgument(text::literal("block report delta missing block")));
        },
    };
    let op = match delta.op {
        WireDeltaOp::AddUpdate => BlockReportDeltaOp::AddUpdate,
        WireDeltaOp::Remove => BlockReportDeltaOp::Remove,
        WireDeltaOp::Unspecified => {
            return Err(MetadataError::InvalidArgument(text::literal("block report delta op must be specified")));
        },
    };
    match proto_to_report_block(block) {
        Ok(block) => Ok(BlockReportDeltaEntry { op, block }),
        Err(error) => Err(error),
    }
}

proof fn lemma_blocks_fault_prefix(blocks: Seq<WireBlock>, n: int)
    requires
        0 <= n <= blocks.len(),
        blocks_fault(blocks.take(n)) is Some,
    ensures
        blocks_fault(blocks) == blocks_fault(blocks.take(n)),
    decreases blocks.len() - n,
{
    if n < blocks.len() {
        assert(blocks.take(n + 1).drop_last() =~= blocks.take(n));
        lemma_blocks_fault_prefix(blocks, n + 1);
    } else {
        assert(blocks.take(n) =~= blocks);
    }
}

proof fn lemma_deltas_fault_prefix(deltas: Seq<WireDelta>, n: int)
    requires
        0 <= n <= deltas.len(),
        deltas_fault(deltas.take(n)) is Some,
    ensures
        deltas_fault(deltas) == deltas_fault(deltas.take(n)),
    decreases deltas.len() - n,
{
    if n < deltas.len() {
        assert(deltas.take(n + 1).drop_last() =~= deltas.take(n));
        lemma_deltas_fault_prefix(deltas, n + 1);
    } else {
        assert(deltas.take(n) =~= deltas);
    }
}

fn read_blocks(blocks: &Vec<WireBlock>) -> (told: MetadataResult<Vec<BlockReportBlock>>)
    ensures
        match told {
            Ok(b) => blocks_fault(blocks@) is None && b@ == blocks_told(blocks@),
            Err(e) => blocks_fault(blocks@) == Some(e.spec_text()) && e.spec_kind() == ErrorKind::InvalidArgument,
        },
{
    let mut told: Vec<BlockReportBlock> = Vec::new();
    let mut i: usize = 0;
    assert(blocks@.take(0) =~= Seq::<WireBlock>::empty());
    while i < blocks.len()
        invariant
            i <= blocks@.len(),
            blocks_fault(blocks@.take(i as int)) is None,
            told@ == blocks_told(blocks@.take(i as int)),
        decreases blocks@.len() - i,
    {
        proof {
            assert(blocks@.take(i + 1).drop_last() =~= blocks@.take(i as int));
        }
        match proto_to_report_block(blocks[i]) {
            Ok(block) => {
                told.push(block);
            },
            Err(error) => {
                proof {
                    lemma_blocks_fault_prefix(blocks@, i + 1);
                }
                return Err(error);
            },
        }
        i += 1;
        assert(told@ =~= blocks_told(blocks@.take(i as int)));
    }
    assert(blocks@.take(i as int) =~= blocks@);
    Ok(told)
}

fn read_deltas(deltas: &Vec<WireDelta>) -> (told: MetadataResult<Vec<BlockReportDeltaEntry>>)
    ensures
        match told {
            Ok(d) => deltas_fault(deltas@) is None && d@ == deltas_told(deltas@),
            Err(e) => deltas_fault(deltas@) == Some(e.spec_text()) && e.spec_kind() == ErrorKind::InvalidArgument,
        },
{
    let mut told: Vec<BlockReportDeltaEntry> = Vec::new();
    let mut i: usize = 0;
    assert(deltas@.take(0) =~= Seq::<WireDelta>::empty());
    while i < deltas.len()
        invariant
            i <= deltas@.len(),
            deltas_fault(deltas@.take(i as int)) is None,
            told@ == deltas_told(deltas@.take(i as int)),
        decreases deltas@.len() - i,
    {
        proof {
            assert(deltas@.take(i + 1).drop_last() =~= deltas@.take(i as int));
        }
        match proto_to_delta(deltas[i]) {
            Ok(delta) => {
                told.push(delta);
            },
            Err(error) => {
                proof {
                    lemma_deltas_fault_prefix(deltas@, i + 1);
                }
                return Err(error);
            },
        }
        i += 1;
        assert(told@ =~= deltas_told(deltas@.take(i as int)));
    }
    assert(deltas@.take(i as int) =~= deltas@);
    Ok(told)
}

/// Why a report is turned down before the manager is asked, where it is.
pub open spec fn report_refusal(req: BlockReportRequest, served: Seq<char>) -> Option<ReplyModel> {
    if sender_refusal(WorkerRpc::BlockReport, req.sender, served) is Some {
        sender_refusal(WorkerRpc::BlockReport, req.sender, served)
    } else {
        match req.report {
            None => Some(invalid("block report body is required"@)),
            Some(ReportBody::Full { blocks, .. }) => match blocks_fault(blocks@) {
                Some(message) => Some(invalid(message)),
                None => None,
            },
            Some(ReportBody::Delta { deltas, .. }) => match deltas_fault(deltas@) {
                Some(message) => Some(invalid(message)),
                None => None,
            },
        }
    }
}

/// What the manager makes of a report that was not turned down.
pub open spec fn report_taken(
    before: model::WorkerModel,
    after: model::WorkerModel,
    req: BlockReportRequest,
    now: Moment,
    result: MetadataResult<BlockReportApplyResult>,
) -> bool {
    let k = sender_at(req.sender);
    let run = req.sender.worker_run_id->Ok_0;
    match req.report->0 {
        ReportBody::Full { batch_seq, final_batch, blocks } => manager::full_report_outcome(
            before,
            after,
            k,
            run,
            req.report_seq,
            batch_seq,
            final_batch,
            blocks_told(blocks@),
            now,
            result,
        ),
        ReportBody::Delta { delta_seq, deltas } => manager::delta_report_outcome(
            before,
            after,
            k,
            run,
            req.report_seq,
            delta_seq,
            deltas_told(deltas@),
            now,
            result,
        ),
    }
}

/// What a report is answered once the manager has spoken. Blocks that became or ceased to be
/// ready are counted, and so are the blocks that can be found.
pub open spec fn report_answered(
    before: MetadataWorkerServiceImpl,
    after: MetadataWorkerServiceImpl,
    report_seq: u64,
    result: MetadataResult<BlockReportApplyResult>,
    answer: Result<BlockReportAnswer, ErrorReply>,
) -> bool {
    match result {
        Err(error) => after.metrics == before.metrics && (answer matches Err(reply) && reply@ == report_error(
            error.spec_kind(),
            error.spec_text(),
        )),
        Ok(applied) => {
            &&& after.metrics == WorkerMetrics {
                blockreport_blocks_total: ((before.metrics.blockreport_blocks_total + applied.added_blocks@.len()
                    + applied.removed_blocks@.len()) % 0x1_0000_0000_0000_0000) as u64,
                locations_size: manager::reported_blocks(after.worker_manager@).len() as usize,
                ..before.metrics
            }
            &&& answer == Ok::<BlockReportAnswer, ErrorReply>(
                BlockReportAnswer { report_seq, next_delta_seq: applied.next_delta_seq, retry_after_ms: 0 },
            )
        },
    }
}

/// What a report does and is answered, by the time at which it comes.
pub open spec fn report_rpc_outcome(
    before: MetadataWorkerServiceImpl,
    after: MetadataWorkerServiceImpl,
    req: BlockReportRequest,
    now: Moment,
    answer: Result<BlockReportAnswer, ErrorReply>,
) -> bool {
    &&& after.served_group_name == before.served_group_name
    &&& match report_refusal(req, before.served_group_name@) {
        Some(refusal) => after.worker_manager@ == before.worker_manager@ && after.metrics == before.metrics && (
        answer matches Err(reply) && reply@ == refusal),
        None => exists|result: MetadataResult<BlockReportApplyResult>| #[trigger]
            report_taken(before.worker_manager@, after.worker_manager@, req, now, result) && report_answered(
                before,
                after,
                req.report_seq,
                result,
                answer,
            ),
    }
}

// ---------------------------------------------------------------------------------------------
// The service
// ---------------------------------------------------------------------------------------------

/// The service that workers of one group talk to.
pub struct MetadataWorkerServiceImpl {
    pub worker_manager: WorkerManager,
    pub metrics: WorkerMetrics,
    pub served_group_name: GroupName,
}

impl MetadataWorkerServiceImpl {
    /// What holds between requests.
    pub open spec fn inv(&self) -> bool {
        self.worker_manager.inv()
    }

    pub fn new(worker_manager: WorkerManager, served_group_name: GroupName) -> (service: Self)
        requires
            worker_manager.inv(),
        ensures
            service.inv(),
            service.worker_manager == worker_manager,
            service.metrics == WorkerMetrics::spec_zero(),
            service.served_group_name == served_group_name,
    {
        MetadataWorkerServiceImpl { worker_manager, metrics: WorkerMetrics::new(), served_group_name }
    }

    pub fn start_background_tasks(&self) -> (handle: WorkerBackgroundHandle)
        ensures
            handle == (WorkerBackgroundHandle {}),
    {
        WorkerBackgroundHandle {}
    }

    /// How often a worker is asked to send heartbeats.
    pub fn heartbeat_interval_ms(&self) -> (ms: u32)
        ensures
            ms == HEARTBEAT_INTERVAL_MS,
    {
        HEARTBEAT_INTERVAL_MS
    }

    /// After how long a silent worker counts as gone.
    pub fn liveness_timeout_ms(&self) -> (ms: u32)
        ensures
            ms == timeout_ms(self.worker_manager@.timeout_sec),
    {
        match self.worker_manager.heartbeat_timeout_sec().checked_mul(1000) {
            Some(ms) => if ms > u32::MAX as u64 {
                u32::MAX
            } else {
                ms as u32
            },
            None => u32::MAX,
        }
    }

    /// Where the leader is reached.
    pub fn leader_hint(raft: &RaftView) -> (hint: Option<MetadataEndpoint>)
        ensures
            hint_of(*raft) == (match hint {
                Some(e) => Some((e.host@, e.port)),
                None => None,
            }),
    {
        match raft.leader_address() {
            Some(address) => parse_metadata_endpoint(address.as_str()),
            None => None,
        }
    }

    /// Takes a registration up to the log, at this time.
    pub fn register_worker_at(&mut self, raft: &RaftView, req: &RegisterRequest, now: Moment) -> (step: RegisterStep)
        requires
            old(self).inv(),
        ensures
            final(self).inv(),
            manager::keeps_lists(old(self).worker_manager, final(self).worker_manager),
            final(self).metrics == old(self).metrics,
            final(self).served_group_name == old(self).served_group_name,
            register_step_outcome(
                old(self).worker_manager@,
                final(self).worker_manager@,
                old(self).served_group_name@,
                raft.is_leader,
                *req,
                now,
                step,
            ),
    {
        if !raft.is_leader {
            return RegisterStep::Refuse(
                ErrorReply::Error(
                    MetadataError::LeaderChanged(
                        text::literal("worker registration must be sent to the metadata group leader"),
                    ),
                ),
            );
        }
        let (group_name, worker_id, worker_run_id) = match check_sender(
            WorkerRpc::Register,
            &req.sender,
            &self.served_group_name,
        ) {
            Ok(found) => found,
            Err(reply) => {
                return RegisterStep::Refuse(reply);
            },
        };
        if req.worker_net_protocol != WORKER_NET_PROTOCOL_GRPC {
            return RegisterStep::Refuse(
                invalid_reply(text::literal("worker_net_protocol must be gRPC for startup registration")),
            );
        }
        let address = match check_endpoint(&req.endpoint) {
            Ok(address) => address,
            Err(reply) => {
                return RegisterStep::Refuse(reply);
            },
        };
        match self.worker_manager.validate_worker_run_registration_at(&group_name, worker_id, worker_run_id, now) {
            Ok(_) => RegisterStep::Propose(
                RegisterCommand {
                    dedup: req.dedup,
                    group_name,
                    worker_id,
                    worker_run_id,
                    address,
                    worker_net_protocol: req.worker_net_protocol,
                    fault_domain: None,
                },
            ),
            Err(error) => RegisterStep::Refuse(ErrorReply::Error(error)),
        }
    }

    /// Takes a registration up to the log.
    pub fn register_worker(&mut self, raft: &RaftView, req: &RegisterRequest) -> (step: RegisterStep)
        requires
            old(self).inv(),
        ensures
            final(self).inv(),
            manager::keeps_lists(old(self).worker_manager, final(self).worker_manager),
            final(self).metrics == old(self).metrics,
            final(self).served_group_name == old(self).served_group_name,
            exists|now: Moment| #[trigger]
                register_step_outcome(
                    old(self).worker_manager@,
                    final(self).worker_manager@,
                    old(self).served_group_name@,
                    raft.is_leader,
                    *req,
                    now,
                    step,
                ),
    {
        let now = self.worker_manager.now();
        self.register_worker_at(raft, req, now)
    }

    /// Takes a heartbeat, at this time.
    pub fn heartbeat_at(&mut self, raft: &RaftView, req: &HeartbeatRequest, now: Moment) -> (answer: Result<
        HeartbeatAnswer,
        ErrorReply,
    >)
        requires
            old(self).inv(),
        ensures
            final(self).inv(),
            manager::keeps_lists(old(self).worker_manager, final(self).worker_manager),
            heartbeat_rpc_outcome(*old(self), *final(self), *raft, *req, now, answer),
    {
        let (group_name, worker_id, worker_run_id) = match check_sender(
            WorkerRpc::Heartbeat,
            &req.sender,
            &self.served_group_name,
        ) {
            Ok(found) => found,
            Err(reply) => {
                return Err(reply);
            },
        };
        let capacity = match req.capacity {
            Some(capacity) => capacity,
            None => {
                return Err(invalid_reply(text::literal("Missing capacity")));
            },
        };
        let load = match req.load {
            Some(load) => load,
            None => {
                return Err(invalid_reply(text::literal("Missing load")));
            },
        };
        if req.worker_net_protocol != WORKER_NET_PROTOCOL_GRPC {
            return Err(invalid_reply(text::literal("worker_net_protocol must be gRPC for heartbeat")));
        }
        let address = match check_endpoint(&req.endpoint) {
            Ok(address) => address,
            Err(reply) => {
                return Err(reply);
            },
        };
        self.worker_manager.expire_liveness_at(now);
        let ghost swept = self.worker_manager@;
        let ghost swept_manager = self.worker_manager;
        match self.misfit_reply(&group_name, worker_id, worker_run_id, address.as_str(), req.worker_net_protocol) {
            Some(reply) => {
                return Err(reply);
            },
            None => {},
        }
        let health = HealthStatus::from(req.health);
        let ghost beat = beat_of(*req);
        let taken = self.worker_manager.record_heartbeat_at(
            &group_name,
            worker_id,
            worker_run_id,
            req.heartbeat_seq,
            address.as_str(),
            req.worker_net_protocol,
            capacity.total_bytes,
            capacity.used_bytes,
            capacity.available_bytes,
            load.active_reads,
            load.active_writes,
            health,
            now,
        );
        assert(manager::heartbeat_outcome(swept, self.worker_manager@, group_name, worker_id, beat, now, taken));
        proof {
            laws::law_sweeping_again_changes_nothing(old(self).worker_manager@, now);
            assert forall|k: model::WorkerAt| #[trigger] self.worker_manager.listed(k) == old(
                self,
            ).worker_manager.listed(k) by {
                assert(swept_manager.listed(k) == old(self).worker_manager.listed(k));
            }
        }
        let live_state = match taken {
            Ok(live_state) => live_state,
            Err(error) => {
                return Err(map_beat_error(error));
            },
        };
        let live = self.worker_manager.list_live_workers_at(now);
        proof {
            table::lemma_lists_len(live@, manager::live_workers(self.worker_manager@, now));
        }
        self.metrics.update_worker_live(live.len());
        Ok(
            HeartbeatAnswer {
                worker_id: live_state.worker_id.raw,
                accepted_worker_run_id: text::hyphenated_text(live_state.worker_run_id.raw),
                heartbeat_interval_ms: self.heartbeat_interval_ms(),
                liveness_timeout_ms: self.liveness_timeout_ms(),
                server_is_leader: raft.is_leader,
                leader_hint: Self::leader_hint(raft),
                group_name,
            },
        )
    }

    fn misfit_reply(
        &self,
        group_name: &GroupName,
        worker_id: WorkerId,
        run: WorkerRunId,
        address: &str,
        protocol: i32,
    ) -> (reply: Option<ErrorReply>)
        ensures
            match reply {
                Some(r) => misfit(self.worker_manager@, (group_name@, worker_id), run, address@, protocol) == Some(r@),
                None => misfit(self.worker_manager@, (group_name@, worker_id), run, address@, protocol) is None,
            },
    {
        let descriptor = match self.worker_manager.get_descriptor(group_name, worker_id) {
            Some(descriptor) => descriptor,
            None => {
                return Some(need_register_reply(about("worker descriptor not found", group_name, worker_id)));
            },
        };
        let registered_run = match self.worker_manager.registered_run(group_name, worker_id) {
            Some(registered_run) => registered_run,
            None => {
                return Some(need_register_reply(about("live worker registration not found", group_name, worker_id)));
            },
        };
        if registered_run != run {
            return Some(run_mismatch_reply(about("worker_run_id mismatch", group_name, worker_id)));
        }
        if !text::same(descriptor.address.as_str(), address) || descriptor.worker_net_protocol != protocol {
            return Some(
                descriptor_mismatch_reply(
                    about(
                        "advertised endpoint or protocol does not match registration",
                        group_name,
                        worker_id,
                    ),
                ),
            );
        }
        None
    }

    /// Takes a heartbeat.
    pub fn heartbeat(&mut self, raft: &RaftView, req: &HeartbeatRequest) -> (answer: Result<HeartbeatAnswer, ErrorReply>)
        requires
            old(self).inv(),
        ensures
            final(self).inv(),
            manager::keeps_lists(old(self).worker_manager, final(self).worker_manager),
            exists|now: Moment| #[trigger] heartbeat_rpc_outcome(*old(self), *final(self), *raft, *req, now, answer),
    {
        let now = self.worker_manager.now();
        self.heartbeat_at(raft, req, now)
    }

    /// Takes a report, at this time.
    pub fn block_report_at(&mut self, req: &BlockReportRequest, now: Moment) -> (answer: Result<
        BlockReportAnswer,
        ErrorReply,
    >)
        requires
            old(self).inv(),
        ensures
            final(self).inv(),
            manager::keeps_other_lists(old(self).worker_manager, final(self).worker_manager, sender_at(req.sender)),
            answer is Err ==> manager::keeps_lists(old(self).worker_manager, final(self).worker_manager),
            report_rpc_outcome(*old(self), *final(self), *req, now, answer),
    {
        let (group_name, worker_id, worker_run_id) = match check_sender(
            WorkerRpc::BlockReport,
            &req.sender,
            &self.served_group_name,
        ) {
            Ok(found) => found,
            Err(reply) => {
                return Err(reply);
            },
        };
        let result = match &req.report {
            None => {
                return Err(invalid_reply(text::literal("block report body is required")));
            },
            Some(ReportBody::Full { batch_seq, final_batch, blocks }) => {
                let told = match read_blocks(blocks) {
                    Ok(told) => told,
                    Err(error) => {
                        return Err(ErrorReply::Error(error));
                    },
                };
                self.worker_manager.receive_full_block_report_at(
                    &group_name,
                    worker_id,
                    worker_run_id,
                    req.report_seq,
                    *batch_seq,
                    *final_batch,
                    told,
                    now,
                )
            },
            Some(ReportBody::Delta { delta_seq, deltas }) => {
                let told = match read_deltas(deltas) {
                    Ok(told) => told,
                    Err(error) => {
                        return Err(ErrorReply::Error(error));
                    },
                };
                self.worker_manager.apply_delta_block_report_at(
                    &group_name,
                    worker_id,
                    worker_run_id,
                    req.report_seq,
                    *delta_seq,
                    told,
                    now,
                )
            },
        };
        assert(report_taken(old(self).worker_manager@, self.worker_manager@, *req, now, result));
        let ghost spoken = result;
        match result {
            Err(error) => {
                let reply = map_report_error(error);
                assert(report_answered(*old(self), *self, req.report_seq, spoken, Err(reply)));
                Err(reply)
            },
            Ok(applied) => {
                let changed: u64 = (applied.added_blocks.len() as u64).wrapping_add(applied.removed_blocks.len() as u64);
                self.metrics.record_blockreport_blocks(changed);
                let size = self.worker_manager.get_all_locations_count();
                self.metrics.update_locations_size(size);
                let answer = BlockReportAnswer {
                    report_seq: req.report_seq,
                    next_delta_seq: applied.next_delta_seq,
                    retry_after_ms: 0,
                };
                assert(report_answered(*old(self), *self, req.report_seq, spoken, Ok(answer)));
                Ok(answer)
            },
        }
    }

    /// Takes a report.
    pub fn block_report(&mut self, req: &BlockReportRequest) -> (answer: Result<BlockReportAnswer, ErrorReply>)
        requires
            old(self).inv(),
        ensures
            final(self).inv(),
            manager::keeps_other_lists(old(self).worker_manager, final(self).worker_manager, sender_at(req.sender)),
            answer is Err ==> manager::keeps_lists(old(self).worker_manager, final(self).worker_manager),
            exists|now: Moment| #[trigger] report_rpc_outcome(*old(self), *final(self), *req, now, answer),
    {
        let now = self.worker_manager.now();
        self.block_report_at(req, now)
    }
}

/// A message about one worker.
fn about(what: &str, group_name: &GroupName, worker_id: WorkerId) -> (message: String)
    ensures
        message@ == model::about(what@, (group_name@, worker_id)),
{
    let mut message = text::join(what, " for group_name=");
    message.append(group_name.name.as_str());
    message.append(", worker_id=");
    text::push_decimal(&mut message, worker_id.raw);
    message
}

} // verus!
