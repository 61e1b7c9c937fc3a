//! What worker requests are answered and what they change, told by what they carry and what is
//! known of the worker.

use crate::clock::Moment;
use crate::endpoint;
use crate::endpoint::Trim;
use crate::error::{ErrorKind, MetadataResult};
use crate::ids::{GroupName, WorkerId};
use crate::raft::RaftView;
use crate::rpc;
use crate::rpc::{ErrorClass, ErrorReply, RefreshReason, ReplyModel, RpcErrorCode, RpcStatus};
use crate::text;
use crate::worker::effects;
use crate::worker::locations;
use crate::worker::manager;
use crate::worker::model;
use crate::worker::service;
use crate::worker::service::{
    AdvertisedEndpoint, BlockReportAnswer, BlockReportRequest, HeartbeatAnswer, HeartbeatRequest,
    MetadataWorkerServiceImpl, PersistReply, RegisterCommand, RegisterRequest, RegisterStep, ReportBody, Sender,
    WireBlock, WireBlockState, WireDelta, WireDeltaOp, WorkerRpc,
};
use crate::worker::types::{BlockReportApplyResult, BlockReportBlockState, BlockReportDeltaOp, HealthStatus};
use vstd::prelude::*;

verus! {

// ---------------------------------------------------------------------------------------------
// Who sends
// ---------------------------------------------------------------------------------------------

/// The sender names the served group, itself and its run.
pub open spec fn is_named(sender: Sender, served: Seq<char>) -> bool {
    sender.group_name is Ok && sender.group_name->Ok_0@ == served && sender.worker_id != 0 && sender.worker_run_id is Ok
}

/// The sender names another group.
pub open spec fn is_elsewhere(sender: Sender, served: Seq<char>) -> bool {
    sender.group_name is Ok && sender.group_name->Ok_0@ != served
}

/// The endpoint can be reached: by the one protocol, under a host that is not blank and is not all
/// hosts, at a port.
pub open spec fn is_reachable(e: Option<AdvertisedEndpoint>) -> bool {
    &&& e matches Some(e)
    &&& e.protocol@ == "grpc"@
    &&& exists|i: int| 0 <= i < e.host@.len() && !endpoint::white_space(#[trigger] e.host@[i])
    &&& 1 <= e.port <= 65535
    &&& !e.host_is_wildcard
}

/// The address of an endpoint.
pub open spec fn is_address(address: Seq<char>, e: Option<AdvertisedEndpoint>) -> bool {
    e is Some && address == e->0.host@ + ":"@ + text::decimal(e->0.port as nat)
}

/// The reply says that the request is wrong.
pub open spec fn says_wrong(reply: ReplyModel) -> bool {
    reply matches ReplyModel::Error(kind, _) && kind == ErrorKind::InvalidArgument
}

/// The reply says that the group is another.
pub open spec fn says_other_group(reply: ReplyModel) -> bool {
    reply matches ReplyModel::Canonical(error) && error.class == ErrorClass::Fatal && error.code
        == RpcErrorCode::InvalidArgument && error.reason == Some(RefreshReason::GroupMismatch)
}

/// The reply tells the worker to do this and to come again.
pub open spec fn tells(reply: ReplyModel, code: RpcErrorCode, reason: RefreshReason) -> bool {
    reply matches ReplyModel::Canonical(error) && error.class == ErrorClass::NeedRefresh && error.code == code
        && error.reason == Some(reason)
}

/// A request is taken from a sender that names the served group, itself and its run. A heartbeat
/// or a report for another group is told so; anything else is wrong.
pub proof fn law_senders_name_group_worker_and_run(which: WorkerRpc, sender: Sender, served: Seq<char>)
    ensures
        service::sender_refusal(which, sender, served) is None <==> is_named(sender, served),
        service::sender_refusal(which, sender, served) matches Some(reply) ==> {
            &&& which != WorkerRpc::Register && is_elsewhere(sender, served) ==> says_other_group(reply)
            &&& which == WorkerRpc::Register || !is_elsewhere(sender, served) ==> says_wrong(reply)
        },
        is_named(sender, served) ==> service::sender_at(sender) == (served, WorkerId { raw: sender.worker_id }),
{
}

/// An endpoint is taken that can be reached; its address is its host and its port.
pub proof fn law_endpoints_are_taken_that_can_be_reached(e: Option<AdvertisedEndpoint>)
    ensures
        service::endpoint_refusal(e) is None <==> is_reachable(e),
        service::endpoint_refusal(e) matches Some(reply) ==> says_wrong(reply),
        is_reachable(e) ==> service::endpoint_check(e->0) is Ok && is_address(service::endpoint_check(e->0)->Ok_0, e),
{
    if e is Some {
        endpoint::law_trimming_cuts_the_ends(e->0.host@, Trim::WhiteSpace);
    }
}

// ---------------------------------------------------------------------------------------------
// Registering
// ---------------------------------------------------------------------------------------------

/// The registration is in order.
pub open spec fn can_register(req: RegisterRequest, served: Seq<char>) -> bool {
    is_named(req.sender, served) && req.worker_net_protocol == 1 && is_reachable(req.endpoint)
}

/// A leader proposes a registration that is in order, unless another run of the worker holds a
/// registration in force; it proposes what the worker says of itself. Other nodes send the worker
/// to the leader.
pub proof fn law_leaders_propose_what_workers_say(
    before: model::WorkerModel,
    after: model::WorkerModel,
    served: Seq<char>,
    is_leader: bool,
    req: RegisterRequest,
    now: Moment,
    step: RegisterStep,
)
    requires
        service::register_step_outcome(before, after, served, is_leader, req, now, step),
    ensures
        ({
            let k = (served, WorkerId { raw: req.sender.worker_id });
            let blocked = effects::in_force(before, k, now) && before.registrations[k].worker_run_id
                != req.sender.worker_run_id->Ok_0;
            let ready = is_leader && can_register(req, served);
            &&& step is Propose <==> ready && !blocked
            &&& step matches RegisterStep::Propose(command) ==> {
                &&& command.dedup == req.dedup
                &&& command.group_name == req.sender.group_name->Ok_0 && command.group_name@ == served
                &&& command.worker_id.raw == req.sender.worker_id
                &&& Ok::<_, String>(command.worker_run_id) == req.sender.worker_run_id
                &&& is_address(command.address@, req.endpoint)
                &&& command.worker_net_protocol == 1
                &&& command.fault_domain is None
            }
            &&& step matches RegisterStep::Refuse(reply) ==> {
                &&& !is_leader ==> (reply@ matches ReplyModel::Error(kind, _) && kind == ErrorKind::LeaderChanged)
                &&& is_leader && !can_register(req, served) ==> says_wrong(reply@)
                &&& ready ==> (reply@ matches ReplyModel::Error(kind, _) && kind == ErrorKind::AlreadyExists)
            }
            &&& ready ==> after == before.swept(now)
            &&& !ready ==> after == before
        }),
{
    let k = (served, WorkerId { raw: req.sender.worker_id });
    law_senders_name_group_worker_and_run(WorkerRpc::Register, req.sender, served);
    law_endpoints_are_taken_that_can_be_reached(req.endpoint);
    effects::law_sweeps_take_what_ran_out(before, k, now);
}

/// A worker that the log persisted under its own identity is told that identity, its run and its
/// group. Whatever else the log says is told as a failure.
pub proof fn law_registered_workers_are_told_who_they_are(command: RegisterCommand, reply: PersistReply)
    ensures
        reply matches PersistReply::Upserted(id) ==> {
            &&& id == command.worker_id ==> (service::register_answer(command, reply) matches Ok(told) && told.0
                == command.worker_id.raw && told.1 == text::hyphenated(command.worker_run_id.raw as nat) && told.2
                == command.group_name)
            &&& id != command.worker_id ==> (service::register_answer(command, reply) matches Err(
                ReplyModel::Error(kind, _),
            ) && kind == ErrorKind::Internal)
        },
        reply is Other ==> (service::register_answer(command, reply) matches Err(ReplyModel::Error(kind, _)) && kind
            == ErrorKind::Internal),
        reply matches PersistReply::Failed(error) ==> (service::register_answer(command, reply) matches Err(
            ReplyModel::Error(kind, said),
        ) && kind == error.spec_kind() && said == error.spec_text()),
{
}

// ---------------------------------------------------------------------------------------------
// Beating
// ---------------------------------------------------------------------------------------------

/// The heartbeat is in order.
pub open spec fn can_beat(req: HeartbeatRequest, served: Seq<char>) -> bool {
    is_named(req.sender, served) && req.capacity is Some && req.load is Some && req.worker_net_protocol == 1
        && is_reachable(req.endpoint)
}

/// The health that the wire's number tells.
pub open spec fn is_health(health: HealthStatus, number: i32) -> bool {
    match health {
        HealthStatus::Degraded => number == 2,
        HealthStatus::Unhealthy => number == 3,
        HealthStatus::Healthy => number != 2 && number != 3,
    }
}

/// A heartbeat in order is taken from the run that is registered, under the address that the
/// worker is known by, and renews the worker with the figures that it carries. Any other worker is
/// told what to do: to register, that another run took its place, or to register anew.
pub proof fn law_heartbeats_are_taken_from_registered_runs(
    before: MetadataWorkerServiceImpl,
    after: MetadataWorkerServiceImpl,
    raft: RaftView,
    req: HeartbeatRequest,
    now: Moment,
    answer: Result<HeartbeatAnswer, ErrorReply>,
)
    requires
        service::heartbeat_rpc_outcome(before, after, raft, req, now, answer),
    ensures
        ({
            let served = before.served_group_name@;
            let k = (served, WorkerId { raw: req.sender.worker_id });
            let m = before.worker_manager@;
            let in_order = can_beat(req, served);
            let known = m.descriptors.contains_key(k) && effects::in_force(m, k, now);
            let own = known && Ok::<_, String>(m.registrations[k].worker_run_id) == req.sender.worker_run_id;
            let fits = is_address(m.descriptors[k].address@, req.endpoint) && m.descriptors[k].worker_net_protocol
                == req.worker_net_protocol;
            &&& answer is Ok <==> in_order && own && fits
            &&& answer matches Err(reply) ==> {
                &&& is_elsewhere(req.sender, served) ==> says_other_group(reply@)
                &&& !in_order && !is_elsewhere(req.sender, served) ==> says_wrong(reply@)
                &&& in_order && !known ==> tells(
                    reply@,
                    RpcErrorCode::WorkerNotRegistered,
                    RefreshReason::NeedRegister,
                )
                &&& in_order && known && !own ==> tells(
                    reply@,
                    RpcErrorCode::WorkerRunMismatch,
                    RefreshReason::WorkerRunMismatch,
                )
                &&& in_order && own && !fits ==> tells(
                    reply@,
                    RpcErrorCode::WorkerDescriptorMismatch,
                    RefreshReason::NeedRegister,
                )
                &&& after.metrics == before.metrics
                &&& !in_order ==> after.worker_manager@ == m
                &&& in_order ==> after.worker_manager@ == m.swept(now)
            }
            &&& answer is Ok ==> {
                let seen = after.worker_manager@.runtime[k];
                let newer = !effects::beat_lately(m, k, now) || req.heartbeat_seq > m.runtime[k].heartbeat_seq;
                &&& after.worker_manager@.runtime.contains_key(k)
                &&& Ok::<_, String>(seen.worker_run_id) == req.sender.worker_run_id
                &&& seen.last_seen_ns == now.mono_ns && seen.last_seen_ms == now.wall_ms
                &&& newer ==> seen.heartbeat_seq == req.heartbeat_seq && seen.capacity_total
                    == req.capacity->0.total_bytes && seen.capacity_used == req.capacity->0.used_bytes
                    && seen.capacity_available == req.capacity->0.available_bytes && seen.active_reads
                    == req.load->0.active_reads && seen.active_writes == req.load->0.active_writes && is_health(
                    seen.health,
                    req.health,
                )
                &&& !newer ==> seen.heartbeat_seq == m.runtime[k].heartbeat_seq && seen.capacity_available
                    == m.runtime[k].capacity_available && seen.health == m.runtime[k].health
                &&& after.worker_manager@.registrations[k].lease_deadline_ns == now.mono_ns + m.timeout_sec
                    * 1_000_000_000
                &&& after.metrics.worker_live == manager::live_workers(after.worker_manager@, now).len() as usize
                &&& after.metrics.blockreport_blocks_total == before.metrics.blockreport_blocks_total
                &&& after.metrics.locations_size == before.metrics.locations_size
            }
            &&& after.served_group_name == before.served_group_name
        }),
{
    let served = before.served_group_name@;
    let k = (served, WorkerId { raw: req.sender.worker_id });
    let m = before.worker_manager@;
    law_senders_name_group_worker_and_run(WorkerRpc::Heartbeat, req.sender, served);
    law_endpoints_are_taken_that_can_be_reached(req.endpoint);
    effects::law_sweeps_take_what_ran_out(m, k, now);
    assert(m.timeout_sec * 1_000_000_000 == model::nanos(m.timeout_sec));
}

/// A heartbeat that was taken is answered with who it was taken from, with the times to keep to,
/// and with whether this node leads and where the leader is.
pub proof fn law_heartbeat_answers_tell_the_times(
    answer: HeartbeatAnswer,
    req: HeartbeatRequest,
    raft: RaftView,
    timeout_sec: u64,
)
    requires
        service::is_heartbeat_answer(answer, req, raft, timeout_sec),
        req.sender.worker_run_id is Ok,
    ensures
        answer.worker_id == req.sender.worker_id,
        answer.accepted_worker_run_id@ == text::hyphenated(req.sender.worker_run_id->Ok_0.raw as nat),
        answer.group_name == req.sender.group_name->Ok_0,
        answer.heartbeat_interval_ms == 1000,
        timeout_sec * 1000 <= u32::MAX ==> answer.liveness_timeout_ms == timeout_sec * 1000,
        timeout_sec * 1000 > u32::MAX ==> answer.liveness_timeout_ms == u32::MAX,
        answer.server_is_leader == raft.is_leader,
        raft.spec_leader_address() is None ==> answer.leader_hint is None,
        answer.leader_hint matches Some(hint) ==> raft.spec_leader_address() is Some && service::endpoint_of(
            raft.spec_leader_address()->0,
        ) == Some((hint.host@, hint.port)),
        raft.spec_leader_address() is Some && service::endpoint_of(raft.spec_leader_address()->0) is Some
            ==> answer.leader_hint is Some,
{
}

proof fn lemma_last_colon(s: Seq<char>, from: int, at: int)
    requires
        0 <= at <= from,
        endpoint::occurs_at(s, ":"@, at),
        forall|i: int| at < i <= from ==> !(#[trigger] endpoint::occurs_at(s, ":"@, i)),
    ensures
        endpoint::last_before(s, ":"@, from) == at,
    decreases from,
{
    if from > at {
        lemma_last_colon(s, from - 1, at);
    }
}

/// A leader's address is read as its host and its port, with or without a scheme.
pub proof fn law_addresses_are_read_as_host_and_port(host: Seq<char>, port: u32)
    requires
        host.len() > 0,
        forall|i: int| 0 <= i < host.len() ==> endpoint::is_plain(#[trigger] host[i]),
    ensures
        service::endpoint_of(host + ":"@ + text::decimal(port as nat)) == Some((host, port)),
        service::endpoint_of("http://"@ + (host + ":"@ + text::decimal(port as nat))) == Some((host, port)),
        service::endpoint_of("https://"@ + (host + ":"@ + text::decimal(port as nat))) == Some((host, port)),
{
    reveal_strlit("http://");
    reveal_strlit("https://");
    reveal_strlit(":");
    let digits = text::decimal(port as nat);
    let rest = host + ":"@ + digits;
    let colon = host.len() as int;
    text::law_decimals_come_back(port as nat);
    assert(rest.subrange(colon, colon + 1) =~= ":"@);
    assert forall|i: int| colon < i <= rest.len() implies !(#[trigger] endpoint::occurs_at(rest, ":"@, i)) by {
        if endpoint::occurs_at(rest, ":"@, i) {
            assert(rest.subrange(i, i + 1)[0] == ':');
            assert(rest[i] == digits[i - colon - 1]);
        }
    }
    lemma_last_colon(rest, rest.len() as int, colon);
    assert(rest.take(colon) =~= host);
    assert(rest.skip(colon + 1) =~= digits);
    assert(endpoint::is_plain(host[0]) && endpoint::is_plain(host[host.len() - 1]));
    assert(endpoint::trimmed(host, Trim::Brackets) == host);
    let http = "http://"@ + rest;
    assert(http.take(7) =~= "http://"@);
    assert("http://"@.is_prefix_of(http));
    assert(http.skip(7) =~= rest);
    let https = "https://"@ + rest;
    assert(https.take(8) =~= "https://"@);
    assert("https://"@.is_prefix_of(https));
    assert(https.skip(8) =~= rest);
    assert(!"http://"@.is_prefix_of(https)) by {
        if "http://"@.is_prefix_of(https) {
            assert("http://"@[4] == https[4]);
        }
    }
    assert(!"http://"@.is_prefix_of(rest)) by {
        if "http://"@.is_prefix_of(rest) {
            assert("http://"@[4] == rest[4] && "http://"@[5] == rest[5] && "http://"@[0] == rest[0]);
            if 4 < colon {
                assert(endpoint::is_plain(host[4]));
            } else if 4 == colon {
                assert(rest[5] == digits[0]);
            } else {
                assert(rest[4] == digits[4 - colon - 1]);
            }
        }
    }
    assert(!"https://"@.is_prefix_of(rest)) by {
        if "https://"@.is_prefix_of(rest) {
            assert("https://"@[5] == rest[5] && "https://"@[6] == rest[6]);
            if 5 < colon {
                assert(endpoint::is_plain(host[5]));
            } else if 5 == colon {
                assert(rest[6] == digits[0]);
            } else {
                assert(rest[5] == digits[5 - colon - 1]);
            }
        }
    }
}

/// Only a leader tells how far its group has applied its log, and only where the group is known.
pub proof fn law_only_leaders_tell_the_state(raft: RaftView, group: Option<GroupName>)
    ensures
        service::header_state(raft, group) is Some ==> raft.is_leader && group is Some,
        raft.is_leader && group is Some ==> service::header_state(raft, group) == raft.last_applied,
{
}

/// The status of an answer: an error that the peer can do something about is an error, any other
/// is fatal.
pub proof fn law_errors_have_their_status(class: ErrorClass)
    ensures
        rpc::status_for(class) == RpcStatus::Success <==> class == ErrorClass::Success,
        rpc::status_for(class) == RpcStatus::Fatal <==> class == ErrorClass::Fatal,
        rpc::status_for(class) == RpcStatus::Error <==> class == ErrorClass::NeedRefresh || class
            == ErrorClass::Retryable,
{
}

// ---------------------------------------------------------------------------------------------
// Reporting
// ---------------------------------------------------------------------------------------------

/// The entry names its block and its state.
pub open spec fn is_readable(block: WireBlock) -> bool {
    block.block_id is Some && block.block_state != WireBlockState::Unspecified
}

/// The delta says what it does, to an entry that can be read.
pub open spec fn is_readable_delta(delta: WireDelta) -> bool {
    delta.block is Some && delta.op != WireDeltaOp::Unspecified && is_readable(delta.block->0)
}

/// An entry is read as it was sent.
pub proof fn law_entries_are_read_as_sent(block: WireBlock, delta: WireDelta)
    ensures
        service::block_fault(block) is None <==> is_readable(block),
        is_readable(block) ==> {
            let told = service::block_told(block);
            &&& Some(told.block_id) == block.block_id
            &&& told.data_handle_id == block.data_handle_id
            &&& told.block_index == block.block_index
            &&& told.block_stamp == block.block_stamp
            &&& told.effective_len == block.effective_len
            &&& told.committed_length == block.committed_length
            &&& told.block_state == BlockReportBlockState::Ready <==> block.block_state == WireBlockState::Ready
            &&& told.block_state == BlockReportBlockState::Partial <==> block.block_state == WireBlockState::Partial
            &&& told.block_state == BlockReportBlockState::Corrupt <==> block.block_state == WireBlockState::Corrupt
            &&& told.block_state == BlockReportBlockState::Deleting <==> block.block_state == WireBlockState::Deleting
        },
        service::delta_fault(delta) is None <==> is_readable_delta(delta),
        is_readable_delta(delta) ==> {
            let told = service::delta_told(delta);
            &&& told.op == BlockReportDeltaOp::AddUpdate <==> delta.op == WireDeltaOp::AddUpdate
            &&& told.op == BlockReportDeltaOp::Remove <==> delta.op == WireDeltaOp::Remove
            &&& told.block == service::block_told(delta.block->0)
        },
{
}

/// A list is read where every entry can be, entry by entry.
pub proof fn law_lists_are_read_entry_by_entry(blocks: Seq<WireBlock>, deltas: Seq<WireDelta>)
    ensures
        service::blocks_fault(blocks) is None <==> forall|i: int|
            0 <= i < blocks.len() ==> is_readable(#[trigger] blocks[i]),
        service::deltas_fault(deltas) is None <==> forall|i: int|
            0 <= i < deltas.len() ==> is_readable_delta(#[trigger] deltas[i]),
        service::blocks_told(blocks).len() == blocks.len(),
        forall|i: int|
            0 <= i < blocks.len() ==> #[trigger] service::blocks_told(blocks)[i] == service::block_told(blocks[i]),
        service::deltas_told(deltas).len() == deltas.len(),
        forall|i: int|
            0 <= i < deltas.len() ==> #[trigger] service::deltas_told(deltas)[i] == service::delta_told(deltas[i]),
{
    lemma_blocks_fault(blocks);
    lemma_deltas_fault(deltas);
}

proof fn lemma_blocks_fault(blocks: Seq<WireBlock>)
    ensures
        service::blocks_fault(blocks) is None <==> forall|i: int|
            0 <= i < blocks.len() ==> is_readable(#[trigger] blocks[i]),
    decreases blocks.len(),
{
    if blocks.len() > 0 {
        let rest = blocks.drop_last();
        lemma_blocks_fault(rest);
        if forall|i: int| 0 <= i < rest.len() ==> is_readable(#[trigger] rest[i]) {
            assert forall|i: int| 0 <= i < blocks.len() && is_readable(blocks.last()) implies is_readable(
                #[trigger] blocks[i],
            ) by {
                if i < rest.len() {
                    assert(is_readable(rest[i]));
                }
            }
        }
        if forall|i: int| 0 <= i < blocks.len() ==> is_readable(#[trigger] blocks[i]) {
            assert forall|i: int| 0 <= i < rest.len() implies is_readable(#[trigger] rest[i]) by {
                assert(is_readable(blocks[i]));
            }
            assert(is_readable(blocks[blocks.len() - 1]));
        }
    }
}

proof fn lemma_deltas_fault(deltas: Seq<WireDelta>)
    ensures
        service::deltas_fault(deltas) is None <==> forall|i: int|
            0 <= i < deltas.len() ==> is_readable_delta(#[trigger] deltas[i]),
    decreases deltas.len(),
{
    if deltas.len() > 0 {
        let rest = deltas.drop_last();
        lemma_deltas_fault(rest);
        if forall|i: int| 0 <= i < rest.len() ==> is_readable_delta(#[trigger] rest[i]) {
            assert forall|i: int| 0 <= i < deltas.len() && is_readable_delta(deltas.last()) implies is_readable_delta(
                #[trigger] deltas[i],
            ) by {
                if i < rest.len() {
                    assert(is_readable_delta(rest[i]));
                }
            }
        }
        if forall|i: int| 0 <= i < deltas.len() ==> is_readable_delta(#[trigger] deltas[i]) {
            assert forall|i: int| 0 <= i < rest.len() implies is_readable_delta(#[trigger] rest[i]) by {
                assert(is_readable_delta(deltas[i]));
            }
            assert(is_readable_delta(deltas[deltas.len() - 1]));
        }
    }
}

/// The report is in order.
pub open spec fn can_report(req: BlockReportRequest, served: Seq<char>) -> bool {
    &&& is_named(req.sender, served)
    &&& match req.report {
        None => false,
        Some(ReportBody::Full { blocks, .. }) => forall|i: int|
            0 <= i < blocks@.len() ==> is_readable(#[trigger] blocks@[i]),
        Some(ReportBody::Delta { deltas, .. }) => forall|i: int|
            0 <= i < deltas@.len() ==> is_readable_delta(#[trigger] deltas@[i]),
    }
}

/// A report that is not in order changes nothing and is told so. One that is goes to the worker
/// that sent it, and is answered with its own number and with the number of the delta that is
/// expected next, or with what the worker has to do: to register, that another run took its place,
/// or to report in full.
pub proof fn law_reports_are_answered_with_what_comes_next(
    before: MetadataWorkerServiceImpl,
    after: MetadataWorkerServiceImpl,
    req: BlockReportRequest,
    now: Moment,
    answer: Result<BlockReportAnswer, ErrorReply>,
)
    requires
        service::report_rpc_outcome(before, after, req, now, answer),
    ensures
        ({
            let served = before.served_group_name@;
            let k = (served, WorkerId { raw: req.sender.worker_id });
            let m = before.worker_manager@;
            let in_order = can_report(req, served);
            let may = effects::may_report(m, k, req.sender.worker_run_id->Ok_0, now);
            let held = m.report(k);
            let new = after.worker_manager@.report(k);
            &&& !in_order ==> after.worker_manager@ == m && after.metrics == before.metrics && answer is Err
            &&& answer is Ok ==> in_order && may
            &&& answer matches Err(reply) ==> {
                &&& is_elsewhere(req.sender, served) ==> says_other_group(reply@)
                &&& !in_order && !is_elsewhere(req.sender, served) ==> says_wrong(reply@)
                &&& in_order && !effects::in_force(m, k, now) ==> tells(
                    reply@,
                    RpcErrorCode::WorkerNotRegistered,
                    RefreshReason::NeedRegister,
                )
                &&& in_order && effects::in_force(m, k, now) && m.registrations[k].worker_run_id
                    != req.sender.worker_run_id->Ok_0 ==> tells(
                    reply@,
                    RpcErrorCode::WorkerRunMismatch,
                    RefreshReason::WorkerRunMismatch,
                )
                &&& in_order && may ==> tells(
                    reply@,
                    RpcErrorCode::FullReportRequired,
                    RefreshReason::FullReportRequired,
                )
                &&& new == held
                &&& after.metrics == before.metrics
            }
            &&& answer matches Ok(told) ==> {
                &&& told.report_seq == req.report_seq
                &&& told.next_delta_seq == new.delta_seq
                &&& told.retry_after_ms == 0
                &&& new.report_seq == req.report_seq
                &&& Ok::<_, String>(new.run->0) == req.sender.worker_run_id && new.run is Some
                &&& after.metrics.worker_live == before.metrics.worker_live
                &&& after.metrics.locations_size == manager::reported_blocks(after.worker_manager@).len() as usize
                &&& after.metrics.blockreport_blocks_total == (before.metrics.blockreport_blocks_total
                    + locations::ready(new.published).difference(locations::ready(held.published)).len()
                    + locations::ready(held.published).difference(locations::ready(new.published)).len())
                    % 0x1_0000_0000_0000_0000
            }
            &&& after.served_group_name == before.served_group_name
        }),
{
    let served = before.served_group_name@;
    let k = (served, WorkerId { raw: req.sender.worker_id });
    law_senders_name_group_worker_and_run(WorkerRpc::BlockReport, req.sender, served);
    match req.report {
        Some(ReportBody::Full { batch_seq, final_batch, blocks }) => {
            law_lists_are_read_entry_by_entry(blocks@, Seq::empty());
        },
        Some(ReportBody::Delta { delta_seq, deltas }) => {
            law_lists_are_read_entry_by_entry(Seq::empty(), deltas@);
        },
        None => {},
    }
    if service::report_refusal(req, served) is None {
        let result = choose|result: MetadataResult<BlockReportApplyResult>| #[trigger]
            service::report_taken(before.worker_manager@, after.worker_manager@, req, now, result)
                && service::report_answered(before, after, req.report_seq, result, answer);
        if result is Ok {
            result->Ok_0.added_blocks@.unique_seq_to_set();
            result->Ok_0.removed_blocks@.unique_seq_to_set();
        }
        match req.report->0 {
            ReportBody::Full { batch_seq, final_batch, blocks } => {
                effects::law_full_reports_replace_what_was_published(
                    before.worker_manager@,
                    after.worker_manager@,
                    k,
                    req.sender.worker_run_id->Ok_0,
                    req.report_seq,
                    batch_seq,
                    final_batch,
                    service::blocks_told(blocks@),
                    now,
                    result,
                );
            },
            ReportBody::Delta { delta_seq, deltas } => {
                effects::law_deltas_go_on_from_the_report(
                    before.worker_manager@,
                    after.worker_manager@,
                    k,
                    req.sender.worker_run_id->Ok_0,
                    req.report_seq,
                    delta_seq,
                    service::deltas_told(deltas@),
                    now,
                    result,
                );
            },
        }
    }
}

/// The answer asks the worker to refresh, with this code and for this reason, and says why.
pub open spec fn asks_to_refresh(reply: ReplyModel, code: RpcErrorCode, reason: RefreshReason, message: Seq<char>) -> bool {
    reply matches ReplyModel::Canonical(error) && error.class == ErrorClass::NeedRefresh && error.code == code
        && error.reason == Some(reason) && error.retry_after_ms is None && error.text == message
}

/// A worker whose heartbeat or report is refused is told what to do: an unknown one to register, one
/// of another run to start over, one that was described otherwise to register again, one whose
/// blocks are not known to report them all. Any other error is told as it is.
pub proof fn law_refused_workers_are_told_what_to_do(kind: ErrorKind, message: Seq<char>)
    ensures
        ({
            let beat = service::beat_error(kind, message);
            let report = service::report_error(kind, message);
            &&& kind == ErrorKind::NotFound ==> asks_to_refresh(
                beat,
                RpcErrorCode::WorkerNotRegistered,
                RefreshReason::NeedRegister,
                message,
            ) && beat == report
            &&& kind == ErrorKind::StaleState ==> asks_to_refresh(
                beat,
                RpcErrorCode::WorkerRunMismatch,
                RefreshReason::WorkerRunMismatch,
                message,
            ) && beat == report
            &&& kind == ErrorKind::InvalidArgument ==> asks_to_refresh(
                beat,
                RpcErrorCode::WorkerDescriptorMismatch,
                RefreshReason::NeedRegister,
                message,
            ) && report == ReplyModel::Error(kind, message)
            &&& kind == ErrorKind::FullReportRequired ==> asks_to_refresh(
                report,
                RpcErrorCode::FullReportRequired,
                RefreshReason::FullReportRequired,
                message,
            ) && beat == ReplyModel::Error(kind, message)
            &&& kind != ErrorKind::NotFound && kind != ErrorKind::StaleState && kind != ErrorKind::InvalidArgument && kind
                != ErrorKind::FullReportRequired ==> beat == ReplyModel::Error(kind, message) && report
                == ReplyModel::Error(kind, message)
        }),
{
}

/// The reply says that the request is wrong, in these words.
pub open spec fn says_wrong_with(reply: Option<ReplyModel>, said: Seq<char>) -> bool {
    reply == Some(ReplyModel::Error(ErrorKind::InvalidArgument, said))
}

/// A wrong request is told the first thing that is wrong with it: with the group that it names, with
/// the worker, with the run, then with what it carries.
pub proof fn law_wrong_requests_are_told_the_first_wrong(
    which: WorkerRpc,
    sender: Sender,
    beat: HeartbeatRequest,
    registration: RegisterRequest,
    report: BlockReportRequest,
    served: Seq<char>,
)
    ensures
        ({
            let refusal = service::sender_refusal(which, sender, served);
            let here = sender.group_name is Ok && sender.group_name->Ok_0@ == served;
            &&& sender.group_name matches Err(error) ==> says_wrong_with(refusal, "group_name is invalid: "@ + error@)
            &&& here && sender.worker_id == 0 ==> says_wrong_with(refusal, "worker_id must be non-zero"@)
            &&& here && sender.worker_id != 0 ==> (sender.worker_run_id matches Err(error) ==> says_wrong_with(
                refusal,
                "worker_run_id must be a UUID: "@ + error@,
            ))
        }),
        ({
            let refusal = service::heartbeat_refusal(beat, served);
            let named = is_named(beat.sender, served);
            &&& !named ==> refusal == service::sender_refusal(WorkerRpc::Heartbeat, beat.sender, served)
            &&& named && beat.capacity is None ==> says_wrong_with(refusal, "Missing capacity"@)
            &&& named && beat.capacity is Some && beat.load is None ==> says_wrong_with(refusal, "Missing load"@)
            &&& named && beat.capacity is Some && beat.load is Some && beat.worker_net_protocol != 1
                ==> says_wrong_with(refusal, "worker_net_protocol must be gRPC for heartbeat"@)
        }),
        ({
            let refusal = service::register_refusal(registration, true, served);
            let named = is_named(registration.sender, served);
            &&& !named ==> refusal == service::sender_refusal(WorkerRpc::Register, registration.sender, served)
            &&& named && registration.worker_net_protocol != 1 ==> says_wrong_with(
                refusal,
                "worker_net_protocol must be gRPC for startup registration"@,
            )
        }),
        ({
            let refusal = service::report_refusal(report, served);
            let named = is_named(report.sender, served);
            &&& !named ==> refusal == service::sender_refusal(WorkerRpc::BlockReport, report.sender, served)
            &&& named && report.report is None ==> says_wrong_with(refusal, "block report body is required"@)
        }),
{
}

/// A worker whose endpoint cannot be used is told the first thing that is wrong with it: that it is
/// missing, its protocol, its host, its port, or that it stands for all hosts.
pub proof fn law_wrong_endpoints_are_told_the_first_wrong(e: AdvertisedEndpoint)
    ensures
        says_wrong_with(service::endpoint_refusal(None), "Missing advertised_endpoint"@),
        ({
            let refusal = service::endpoint_refusal(Some(e));
            let blank = forall|i: int| 0 <= i < e.host@.len() ==> endpoint::white_space(#[trigger] e.host@[i]);
            let right = e.protocol@ == "grpc"@;
            &&& !right ==> says_wrong_with(refusal, "advertised_endpoint protocol must be grpc"@)
            &&& right && blank ==> says_wrong_with(refusal, "advertised_endpoint host must not be empty"@)
            &&& right && !blank && !(1 <= e.port <= 65535) ==> says_wrong_with(
                refusal,
                "advertised_endpoint port must be between 1 and 65535"@,
            )
            &&& right && !blank && 1 <= e.port <= 65535 && e.host_is_wildcard ==> says_wrong_with(
                refusal,
                "advertised_endpoint must not use a wildcard host"@,
            )
        }),
{
    endpoint::law_trimming_cuts_the_ends(e.host@, Trim::WhiteSpace);
    assert((forall|i: int| 0 <= i < e.host@.len() ==> endpoint::white_space(#[trigger] e.host@[i])) <==> (forall|
        i: int,
    |
        0 <= i < e.host@.len() ==> endpoint::is_of(Trim::WhiteSpace, #[trigger] e.host@[i])));
}

/// Of the entries of a report the first wrong one is told, whatever follows it.
pub proof fn law_the_first_wrong_entry_is_told(
    blocks: Seq<WireBlock>,
    more_blocks: Seq<WireBlock>,
    deltas: Seq<WireDelta>,
    more_deltas: Seq<WireDelta>,
)
    ensures
        service::blocks_fault(blocks) is Some ==> service::blocks_fault(blocks + more_blocks) == service::blocks_fault(
            blocks,
        ),
        service::deltas_fault(deltas) is Some ==> service::deltas_fault(deltas + more_deltas) == service::deltas_fault(
            deltas,
        ),
    decreases more_blocks.len() + more_deltas.len(),
{
    if more_blocks.len() > 0 {
        law_the_first_wrong_entry_is_told(blocks, more_blocks.drop_last(), deltas, more_deltas);
        assert((blocks + more_blocks).drop_last() =~= blocks + more_blocks.drop_last());
    } else {
        assert(blocks + more_blocks =~= blocks);
    }
    if more_deltas.len() > 0 {
        law_the_first_wrong_entry_is_told(blocks, more_blocks, deltas, more_deltas.drop_last());
        assert((deltas + more_deltas).drop_last() =~= deltas + more_deltas.drop_last());
    } else {
        assert(deltas + more_deltas =~= deltas);
    }
}

} // verus!
