//! What holds of worker requests taken together.

use crate::clock::Moment;
use crate::raft::RaftView;
use crate::rpc::{ErrorClass, ErrorReply, RefreshReason, ReplyModel, RpcErrorCode};
use crate::worker::model;
use crate::worker::service;
use crate::worker::service::{
    BlockReportAnswer, BlockReportRequest, HeartbeatAnswer, HeartbeatRequest, MetadataWorkerServiceImpl, PersistReply,
    RegisterCommand, RegisterRequest, RegisterStep,
};
use vstd::prelude::*;

verus! {

/// A registration request by itself registers nothing: descriptions and reports stay, and no
/// registration or heartbeat is added or changed.
pub proof fn law_registration_waits_for_the_log(
    before: model::WorkerModel,
    after: model::WorkerModel,
    served: Seq<char>,
    is_leader: bool,
    req: RegisterRequest,
    now: Moment,
    step: RegisterStep,
)
    requires
        service::register_step_outcome(before, after, served, is_leader, req, now, step),
    ensures
        after.descriptors == before.descriptors,
        after.reports == before.reports,
        after.registrations.submap_of(before.registrations),
        after.runtime.submap_of(before.runtime),
        forall|k: model::WorkerAt| #[trigger] after.last_registration(k) == before.last_registration(k),
{
}

/// A registration is proposed only by a leader, and only for the group that it serves.
pub proof fn law_only_leaders_register(
    before: model::WorkerModel,
    after: model::WorkerModel,
    served: Seq<char>,
    is_leader: bool,
    req: RegisterRequest,
    now: Moment,
    step: RegisterStep,
)
    requires
        service::register_step_outcome(before, after, served, is_leader, req, now, step),
        step is Propose,
    ensures
        is_leader,
        step->Propose_0.group_name@ == served,
        step->Propose_0.worker_id.raw != 0,
        !before.swept(now).other_run((served, step->Propose_0.worker_id), step->Propose_0.worker_run_id),
{
}

/// A worker is told that it was registered only if the log persisted it under its own identity.
pub proof fn law_registered_under_own_identity(command: RegisterCommand, reply: PersistReply)
    ensures
        service::register_answer(command, reply) is Ok <==> reply == PersistReply::Upserted(command.worker_id),
{
}

/// Heartbeats and reports that name another group change nothing. The sender is told that the
/// group does not match, and that trying again does not help.
pub proof fn law_other_groups_change_nothing(
    before: MetadataWorkerServiceImpl,
    after_beat: MetadataWorkerServiceImpl,
    after_report: MetadataWorkerServiceImpl,
    raft: RaftView,
    beat: HeartbeatRequest,
    report: BlockReportRequest,
    now: Moment,
    beat_answer: Result<HeartbeatAnswer, ErrorReply>,
    report_answer: Result<BlockReportAnswer, ErrorReply>,
)
    requires
        beat.sender.group_name is Ok && beat.sender.group_name->Ok_0@ != before.served_group_name@,
        report.sender.group_name is Ok && report.sender.group_name->Ok_0@ != before.served_group_name@,
        service::heartbeat_rpc_outcome(before, after_beat, raft, beat, now, beat_answer),
        service::report_rpc_outcome(before, after_report, report, now, report_answer),
    ensures
        after_beat.worker_manager@ == before.worker_manager@ && after_beat.metrics == before.metrics,
        after_report.worker_manager@ == before.worker_manager@ && after_report.metrics == before.metrics,
        beat_answer is Err && is_group_mismatch(beat_answer->Err_0@),
        report_answer is Err && is_group_mismatch(report_answer->Err_0@),
{
}

pub open spec fn is_group_mismatch(reply: ReplyModel) -> bool {
    reply matches ReplyModel::Canonical(error) && error.class == ErrorClass::Fatal && error.code
        == RpcErrorCode::InvalidArgument && error.reason == Some(RefreshReason::GroupMismatch)
}

/// Whether this node leads has no say in what a heartbeat does: leaders and followers take it
/// alike.
pub proof fn law_followers_take_heartbeats(
    before: MetadataWorkerServiceImpl,
    after_one: MetadataWorkerServiceImpl,
    after_other: MetadataWorkerServiceImpl,
    one: RaftView,
    other: RaftView,
    req: HeartbeatRequest,
    now: Moment,
    answer_one: Result<HeartbeatAnswer, ErrorReply>,
    answer_other: Result<HeartbeatAnswer, ErrorReply>,
)
    requires
        service::heartbeat_rpc_outcome(before, after_one, one, req, now, answer_one),
        service::heartbeat_rpc_outcome(before, after_other, other, req, now, answer_other),
    ensures
        after_one.worker_manager@ == after_other.worker_manager@,
        after_one.metrics == after_other.metrics,
        answer_one is Ok <==> answer_other is Ok,
        answer_one is Err ==> answer_one->Err_0@ == answer_other->Err_0@,
{
}

/// A worker that is not registered, or whose registration ran out, is told to register: whatever
/// run its heartbeat names, once the heartbeat itself is in order.
pub proof fn law_unknown_workers_must_register(
    before: MetadataWorkerServiceImpl,
    after: MetadataWorkerServiceImpl,
    raft: RaftView,
    req: HeartbeatRequest,
    now: Moment,
    answer: Result<HeartbeatAnswer, ErrorReply>,
)
    requires
        service::heartbeat_rpc_outcome(before, after, raft, req, now, answer),
        service::heartbeat_refusal(req, before.served_group_name@) is None,
        !before.worker_manager@.registrations.contains_key(service::sender_at(req.sender))
            || before.worker_manager@.lapsed(service::sender_at(req.sender), now),
    ensures
        answer is Err && must_register(answer->Err_0@),
{
}

/// A worker whose lease is over is told to register, whatever run its heartbeat names and whatever
/// endpoint: not that its run is another's.
pub proof fn law_silent_workers_must_register(
    before: MetadataWorkerServiceImpl,
    after: MetadataWorkerServiceImpl,
    raft: RaftView,
    req: HeartbeatRequest,
    now: Moment,
    answer: Result<HeartbeatAnswer, ErrorReply>,
)
    requires
        service::heartbeat_rpc_outcome(before, after, raft, req, now, answer),
        service::heartbeat_refusal(req, before.served_group_name@) is None,
        before.worker_manager@.registrations.contains_key(service::sender_at(req.sender)),
        before.worker_manager@.registrations[service::sender_at(req.sender)].lease_deadline_ns <= now.mono_ns,
    ensures
        answer is Err && must_register(answer->Err_0@),
{
}

/// A node that leads and that a registration in order reaches proposes it, unless another run of
/// the worker holds a lease that is not over.
pub proof fn law_only_a_lease_in_force_blocks_a_run(
    before: model::WorkerModel,
    after: model::WorkerModel,
    served: Seq<char>,
    is_leader: bool,
    req: RegisterRequest,
    now: Moment,
    step: RegisterStep,
)
    requires
        service::register_step_outcome(before, after, served, is_leader, req, now, step),
        service::register_refusal(req, is_leader, served) is None,
    ensures
        step is Refuse <==> before.other_run(service::sender_at(req.sender), req.sender.worker_run_id->Ok_0)
            && !before.lapsed(service::sender_at(req.sender), now),
{
}

pub open spec fn must_register(reply: ReplyModel) -> bool {
    reply matches ReplyModel::Canonical(error) && error.class == ErrorClass::NeedRefresh && error.code
        == RpcErrorCode::WorkerNotRegistered && error.reason == Some(RefreshReason::NeedRegister)
}

/// A report whose entries cannot be read changes nothing.
pub proof fn law_unreadable_reports_change_nothing(
    before: MetadataWorkerServiceImpl,
    after: MetadataWorkerServiceImpl,
    req: BlockReportRequest,
    now: Moment,
    answer: Result<BlockReportAnswer, ErrorReply>,
)
    requires
        service::report_rpc_outcome(before, after, req, now, answer),
        service::report_refusal(req, before.served_group_name@) is Some,
    ensures
        after.worker_manager@ == before.worker_manager@,
        after.metrics == before.metrics,
        answer is Err,
{
}

} // verus!
