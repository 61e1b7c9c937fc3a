//! What holds of filesystem requests taken together.

use crate::ids::{CallId, InodeId, MountId, RaftLogId};
use crate::service::fs_service;
use crate::service::fs_service::{
    AppliedRead, CreateRequest, FileRpc, FsBody, FsCaller, FsCommand, FsSeen, FsStep, InodeReadRpc, LogReply,
    MetadataFsServiceImpl,
    MkdirRequest, ProposeStep, Proposed, ReadDirRequest, RemoveRequest, RemoveRpc, RenameRequest, RouteStep, Routed,
    SessionRpc, SetAttrRequest, TruncateRequest, XattrRequest, XattrRpc,
};
use crate::service::inputs::DedupKey;
use crate::service::fs_types::{FsFault, InodeRead, MountRead, RoutedFsWriteCtx};
use vstd::prelude::*;

verus! {

/// A request that changes the namespace.
pub ghost enum FsWrite<'a> {
    SetAttr(SetAttrRequest),
    Mkdir(MkdirRequest<'a>),
    Create(CreateRequest<'a>),
    Remove(RemoveRpc, RemoveRequest<'a>),
    Xattr(XattrRpc<'a>, XattrRequest<'a>),
    Truncate(TruncateRequest),
    Rename(RenameRequest<'a>),
}

/// A request that does not.
pub ghost enum FsOther<'a> {
    Lookup(Option<InodeId>, &'a str),
    ReadInode(InodeReadRpc<'a>, Option<InodeId>),
    ReadDir(ReadDirRequest<'a>),
    Open(Option<InodeId>),
    File(FileRpc, Option<InodeId>, FsCaller),
    Release(u64),
    Session(SessionRpc, u64, FsCaller),
}

/// Who makes the request.
pub open spec fn caller_of(write: FsWrite) -> FsCaller {
    match write {
        FsWrite::SetAttr(req) => req.caller,
        FsWrite::Mkdir(req) => req.caller,
        FsWrite::Create(req) => req.caller,
        FsWrite::Remove(_, req) => req.caller,
        FsWrite::Xattr(_, req) => req.caller,
        FsWrite::Truncate(req) => req.caller,
        FsWrite::Rename(req) => req.caller,
    }
}

/// What comes next for a request that changes the namespace.
pub open spec fn write_next<'a>(write: FsWrite<'a>, node: MetadataFsServiceImpl, seen: FsSeen) -> FsStep<'a> {
    match write {
        FsWrite::SetAttr(req) => fs_service::set_attr_next(req, node, seen),
        FsWrite::Mkdir(req) => fs_service::mkdir_next(req, node, seen),
        FsWrite::Create(req) => fs_service::create_next(req, seen),
        FsWrite::Remove(rpc, req) => fs_service::remove_next(rpc, req, seen),
        FsWrite::Xattr(rpc, req) => fs_service::xattr_next(rpc, req, seen),
        FsWrite::Truncate(req) => fs_service::truncate_next(req, node, seen),
        FsWrite::Rename(req) => fs_service::rename_next(req, node, seen),
    }
}

/// What comes next for any other request.
pub open spec fn other_next<'a>(other: FsOther<'a>, node: MetadataFsServiceImpl, seen: FsSeen) -> FsStep<'a> {
    match other {
        FsOther::Lookup(parent, name) => fs_service::lookup_next(parent, name, node, seen),
        FsOther::ReadInode(rpc, inode_id) => fs_service::read_inode_next(rpc, inode_id, node, seen),
        FsOther::ReadDir(req) => fs_service::read_dir_next(req, node, seen),
        FsOther::Open(inode_id) => fs_service::open_next(inode_id, seen),
        FsOther::File(rpc, inode_id, caller) => fs_service::file_next(rpc, inode_id, caller, node, seen),
        FsOther::Release(file_handle) => fs_service::release_next(file_handle, seen),
        FsOther::Session(rpc, file_handle, caller) => fs_service::session_next(rpc, file_handle, caller, seen),
    }
}

/// The step answers, or finds out or does what has not been seen yet.
pub open spec fn is_new_or_last(step: FsStep, seen: FsSeen) -> bool {
    match step {
        FsStep::Answer(_) => true,
        FsStep::AskGuard(_) => seen.guard is None,
        FsStep::ReadInode(_) => seen.inode is None,
        FsStep::ReadOtherInode(_) => seen.other_inode is None,
        FsStep::ReadDentry(_, _) => seen.dentry is None,
        FsStep::ReadMount(_) => seen.mount is None,
        FsStep::Route { .. } => seen.route is None,
        FsStep::CheckLease { .. } => seen.lease is None,
        FsStep::FindSession(_) => seen.session is None,
        FsStep::Propose(_) => seen.proposed is None,
        FsStep::ReadUpdated(_) => seen.updated is None,
        FsStep::ListEntries { .. } => seen.work is None,
        FsStep::FindXattr(_) => seen.work is None,
        FsStep::ConvertExtents => seen.extents is None,
        FsStep::CallCore(_) => seen.work is None,
    }
}

/// No request asks for the same thing twice: every step is the answer or is about something that
/// has not been seen. So every request is answered after finitely many steps, and no command is
/// proposed a second time.
pub proof fn law_no_step_is_repeated(write: FsWrite, other: FsOther, node: MetadataFsServiceImpl, seen: FsSeen)
    ensures
        is_new_or_last(write_next(write, node, seen), seen),
        is_new_or_last(other_next(other, node, seen), seen),
{
}

/// The call that a command is for.
pub open spec fn call_of(command: FsCommand) -> DedupKey {
    match command {
        FsCommand::SetAttr { dedup, .. } => dedup,
        FsCommand::Mkdir { dedup, .. } => dedup,
        FsCommand::Create { dedup, .. } => dedup,
        FsCommand::Unlink { dedup, .. } => dedup,
        FsCommand::Rmdir { dedup, .. } => dedup,
        FsCommand::Rename { dedup, .. } => dedup,
        FsCommand::Truncate { dedup, .. } => dedup,
        FsCommand::SetXattr { dedup, .. } => dedup,
        FsCommand::RemoveXattr { dedup, .. } => dedup,
    }
}

/// A command is proposed only for a caller with an identity, under that caller's call, after the
/// guard let the request through and the write was routed to the group that owns its namespace.
pub proof fn law_commands_are_guarded_and_routed(write: FsWrite, node: MetadataFsServiceImpl, seen: FsSeen)
    requires
        write_next(write, node, seen) is Propose,
    ensures
        seen.guard == Some(true),
        seen.route is Some && seen.route->0 is To,
        caller_of(write).client_id.raw != 0,
        call_of(write_next(write, node, seen)->Propose_0) == caller_of(write).spec_dedup(),
{
}

/// Only requests that change the namespace propose commands.
pub proof fn law_other_requests_propose_nothing(other: FsOther, node: MetadataFsServiceImpl, seen: FsSeen)
    ensures
        !(other_next(other, node, seen) is Propose),
{
}

/// The core works on a request only after the guard let it through.
pub proof fn law_core_work_is_guarded(other: FsOther, node: MetadataFsServiceImpl, seen: FsSeen)
    requires
        other_next(other, node, seen) is CallCore,
    ensures
        seen.guard == Some(true),
{
}

/// A request that the guard turns down proposes nothing and is not worked on.
pub proof fn law_refused_requests_do_nothing(write: FsWrite, other: FsOther, node: MetadataFsServiceImpl, seen: FsSeen)
    requires
        seen.guard == Some(false),
    ensures
        !(write_next(write, node, seen) is Propose),
        !(other_next(other, node, seen) is CallCore),
{
}

/// A write is routed only where every inode was read and lies in one mount, the mount is known,
/// and the client's mount epoch, where it gives one, is the one that holds. It goes to the group
/// that owns the namespace of that mount.
pub proof fn law_routing(
    has_storage: bool,
    ids: Seq<InodeId>,
    reads: Seq<InodeRead>,
    mount: Option<MountRead>,
    client_epoch: Option<u64>,
    latest: Option<RaftLogId>,
    ctx: RoutedFsWriteCtx,
)
    requires
        reads.len() <= ids.len(),
        fs_service::route_next(has_storage, ids, reads, mount, client_epoch, latest) == RouteStep::Done(Routed::To(ctx)),
    ensures
        reads.len() == ids.len(),
        forall|i: int| 0 <= i < reads.len() ==> (#[trigger] reads[i]) is Found && reads[i]->Found_0.mount_id == ctx.mount_id,
        mount is Some && mount->0 is Found,
        ctx.namespace_owner_group_id == mount->0->Found_0.namespace_owner_group_id,
        ctx.mount_epoch == mount->0->Found_0.mount_epoch,
        client_epoch is Some ==> client_epoch->0 == ctx.mount_epoch,
{
    lemma_no_fault_means_same_mount(ids, reads, 1, ctx.mount_id);
}

proof fn lemma_no_fault_means_same_mount(ids: Seq<InodeId>, reads: Seq<InodeRead>, from: int, mount_id: MountId)
    requires
        0 <= from,
        fs_service::first_read_fault(ids, reads, from, mount_id) is None,
    ensures
        forall|i: int|
            from <= i < reads.len() ==> (#[trigger] reads[i]) is Found && reads[i]->Found_0.mount_id == mount_id,
    decreases reads.len() - from,
{
    if from < reads.len() {
        lemma_no_fault_means_same_mount(ids, reads, from + 1, mount_id);
    }
}

/// A client whose mount epoch is old is not served: no command is proposed, and the answer, when
/// it comes, says so and tells the epoch that holds.
pub proof fn law_old_epoch_is_told_the_new_one(write: FsWrite, node: MetadataFsServiceImpl, seen: FsSeen)
    requires
        seen.route is Some && seen.route->0 is Fault,
        seen.route->0->Fault_0 is MountEpochMismatch,
    ensures
        !(write_next(write, node, seen) is Propose),
        write_next(write, node, seen) matches FsStep::Answer(answer) ==> (answer.fault == Some(seen.route->0->Fault_0)
            ==> answer.mount_epoch is Some && (answer.mount_epoch == Some(seen.route->0->Fault_0->expected) || (
        seen.mount is Some && answer.mount_epoch == fs_service::epoch_of(seen.mount->0)))),
{
}

/// A rename from one mount to another is never proposed; once the mount was read, it is answered
/// with the error for it and with the mount epoch of the source.
pub proof fn law_rename_stays_in_its_mount(req: RenameRequest, node: MetadataFsServiceImpl, seen: FsSeen)
    requires
        seen.inode is Some && seen.inode->0 is Found,
        seen.other_inode is Some && seen.other_inode->0 is Found,
        seen.inode->0->Found_0.mount_id != seen.other_inode->0->Found_0.mount_id,
    ensures
        !(fs_service::rename_next(req, node, seen) is Propose),
        fs_service::flags_known(req.flags) && req.src_parent_inode_id is Some && req.dst_parent_inode_id is Some
            && node.has_storage && seen.mount is Some && seen.mount->0 is Found ==> (fs_service::rename_next(
            req,
            node,
            seen,
        ) matches FsStep::Answer(answer) && answer.fault == Some(
            FsFault::CrossMountRename {
                src: seen.inode->0->Found_0.mount_id,
                dst: seen.other_inode->0->Found_0.mount_id,
            },
        ) && answer.mount_epoch == Some(seen.mount->0->Found_0.mount_epoch)),
{
}

/// A leader that is asked to leave an existing destination alone never proposes the rename once
/// it has seen the destination.
pub proof fn law_rename_leaves_destination_alone(req: RenameRequest, node: MetadataFsServiceImpl, seen: FsSeen)
    requires
        fs_service::looks_first(req, node),
        seen.dentry is Some && seen.dentry->0 is Found,
    ensures
        !(fs_service::rename_next(req, node, seen) is Propose),
{
}

/// A node that is behind what the client has seen does not say whether a destination exists.
pub proof fn law_stale_node_does_not_look(req: RenameRequest, node: MetadataFsServiceImpl, seen: FsSeen)
    requires
        fs_service::is_behind(req, node),
    ensures
        !(fs_service::rename_next(req, node, seen) is ReadDentry),
{
}

/// Truncation only shrinks: a command is proposed for a size below that of the file, and a file
/// of that size already is answered without one.
pub proof fn law_truncation_only_shrinks(req: TruncateRequest, node: MetadataFsServiceImpl, seen: FsSeen)
    ensures
        fs_service::truncate_next(req, node, seen) matches FsStep::Propose(command) ==> (command
            matches FsCommand::Truncate { new_size, .. } && new_size == req.new_size && seen.inode is Some
            && seen.inode->0 is Found && new_size < seen.inode->0->Found_0.size) && seen.lease == Some(true),
        seen.inode is Some && seen.inode->0 is Found && seen.inode->0->Found_0.size == req.new_size ==> (
        fs_service::truncate_next(req, node, seen) matches FsStep::Answer(answer) ==> (answer.fault is None
            ==> answer.body == FsBody::NewSize(req.new_size))),
{
}

/// A call that was carried out before is not appended again: the same command gives the earlier
/// result, another command is turned down.
pub proof fn law_calls_are_carried_out_once(call_id: CallId, applied: AppliedRead, reply: Option<LogReply>)
    requires
        applied is Found,
    ensures
        !(fs_service::propose_next(true, true, call_id, Some(applied), reply) is Append),
        applied->Found_0.same_command && applied->Found_0.result is Some ==> fs_service::propose_next(
            true,
            true,
            call_id,
            Some(applied),
            reply,
        ) == ProposeStep::Done(applied->Found_0.result->0),
        !applied->Found_0.same_command ==> fs_service::propose_next(true, true, call_id, Some(applied), reply)
            == ProposeStep::Done(Proposed::Fault(FsFault::CallReused(call_id))),
{
}

} // verus!
