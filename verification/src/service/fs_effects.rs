//! What each filesystem request asks, reads, does and answers, told by what it carries and what
//! was seen.

use crate::ids::{CallId, InodeId, LeaseId, MountId, RaftLogId};
use crate::service::fs_laws;
use crate::service::fs_laws::{FsOther, FsWrite};
use crate::service::fs_service;
use crate::service::fs_service::{
    AppliedCall, AppliedRead, CoreCall, CreateRequest, FileRpc, FsBody, FsCaller, FsCommand, FsSeen, FsStep,
    InodeReadRpc, LogReply, MetadataFsServiceImpl, MkdirRequest, ProposeStep, Proposed, ReadDirRequest, RemoveRequest,
    RemoveRpc, RenameRequest, RouteStep, Routed, SessionRpc, SetAttrRequest, TruncateRequest, XattrRequest, XattrRpc,
};
use crate::service::fs_types::{
    AuthzOp, DataIoOp, DentryRead, Field, FsFault, FsWriteOp, InodeKind, InodeRead, MountRead, RoutedFsWriteCtx,
};
use crate::service::inputs::{DedupKey, Freshness};
use crate::service::replies::WireLeaseId;
use crate::service::wire::{FileAttrs, WireFileAttrs};
use vstd::prelude::*;

verus! {

// ---------------------------------------------------------------------------------------------
// Parts of statements
// ---------------------------------------------------------------------------------------------

/// The step asks the guard for authorization and readiness, and for no more than this: leadership
/// or not, this data operation, for this mount; the caller needs this right on this inode, under
/// this parent, with this handle.
pub open spec fn asks(
    step: FsStep,
    leader: bool,
    data_io: Option<DataIoOp>,
    mount_id: Option<MountId>,
    op: AuthzOp,
    inode_id: Option<InodeId>,
    parent: Option<InodeId>,
    file_handle: Option<u64>,
) -> bool {
    &&& step matches FsStep::AskGuard(call)
    &&& call.spec.readiness && call.spec.authz
    &&& call.spec.leader == leader
    &&& call.spec.data_io == data_io
    &&& call.mount_id == mount_id
    &&& call.authz matches Some(ask)
    &&& ask.op == op
    &&& ask.target.inode_id == inode_id
    &&& ask.target.parent_inode_id == parent
    &&& ask.target.file_handle == file_handle
}

/// The step answers without a fault.
pub open spec fn succeeds(step: FsStep) -> bool {
    step matches FsStep::Answer(answer) && answer.fault is None
}

/// The step answers with this fault.
pub open spec fn faults(step: FsStep, fault: FsFault) -> bool {
    step matches FsStep::Answer(answer) && answer.fault == Some(fault)
}

/// The call is the caller's.
pub open spec fn is_call_of(dedup: DedupKey, caller: FsCaller) -> bool {
    dedup.client_id == caller.client_id && dedup.call_id == caller.call_id
}

/// The attributes are those that the wire told.
pub open spec fn are_as_sent(attrs: FileAttrs, sent: WireFileAttrs) -> bool {
    &&& attrs.mode == sent.mode
    &&& attrs.uid == sent.uid
    &&& attrs.gid == sent.gid
    &&& attrs.size == sent.size
    &&& attrs.atime_ms == sent.atime_ms
    &&& attrs.mtime_ms == sent.mtime_ms
    &&& attrs.ctime_ms == sent.ctime_ms
    &&& attrs.nlink == sent.nlink
}

/// The lease is the one whose halves the wire told.
pub open spec fn is_lease_sent(lease_id: LeaseId, sent: WireLeaseId) -> bool {
    lease_id.raw == sent.high * 0x1_0000_0000_0000_0000 + sent.low
}

/// The client's knowledge is as fresh as its header says, and nothing is said of workers.
pub open spec fn is_fresh_by(freshness: Freshness, caller: FsCaller) -> bool {
    &&& freshness.mount_epoch == caller.mount_epoch
    &&& freshness.route_epoch == caller.route_epoch
    &&& freshness.worker_epoch is None
}

/// What was asked for was granted.
pub open spec fn was_granted(reply: Option<bool>) -> bool {
    reply is Some && reply->0
}

/// The inode that was read is there.
pub open spec fn is_there(read: Option<InodeRead>) -> bool {
    read is Some && read->0 is Found
}

/// The write was routed this way.
pub open spec fn went_to(seen: FsSeen, ctx: RoutedFsWriteCtx) -> bool {
    seen.route == Some(Routed::To(ctx))
}

/// The answer tells the group and the mount epoch of the route, and the state where it is told.
pub open spec fn tells_route(step: FsStep, ctx: RoutedFsWriteCtx, with_state: bool) -> bool {
    step matches FsStep::Answer(answer) && answer.group_id == Some(ctx.namespace_owner_group_id)
        && answer.mount_epoch == Some(ctx.mount_epoch) && answer.state_id == (if with_state {
        ctx.latest_state_id
    } else {
        None
    })
}

/// The step answers without a fault, with this body.
pub open spec fn gives(step: FsStep, body: FsBody) -> bool {
    step matches FsStep::Answer(answer) && answer.fault is None && answer.body == body
}

// ---------------------------------------------------------------------------------------------
// Faults
// ---------------------------------------------------------------------------------------------

/// A fault that says nothing of the request itself has its cause in what was seen, or in what this
/// node lacks.
pub open spec fn has_cause(fault: FsFault, node: MetadataFsServiceImpl, seen: FsSeen) -> bool {
    match fault {
        FsFault::GuardRefused => seen.guard == Some(false),
        FsFault::StorageUnavailable => !node.has_storage,
        FsFault::RaftUnavailable => !node.has_raft,
        FsFault::ReadFailed => {
            ||| seen.inode == Some(InodeRead::Failed)
            ||| seen.other_inode == Some(InodeRead::Failed)
            ||| seen.updated == Some(InodeRead::Failed)
            ||| seen.dentry == Some(DentryRead::Failed)
            ||| seen.mount == Some(MountRead::Failed)
            ||| seen.work == Some(false)
        },
        FsFault::CoreFailed => seen.work == Some(false),
        FsFault::XattrNotFound => seen.work == Some(false),
        FsFault::BadExtent => seen.extents == Some(false),
        FsFault::CommandFailed => seen.proposed == Some(Proposed::Failed),
        FsFault::MountDisappeared => seen.mount == Some(MountRead::Absent),
        FsFault::InodeDisappeared => seen.updated == Some(InodeRead::Absent),
        FsFault::ParentNotFound(_) => seen.inode == Some(InodeRead::Absent) || seen.other_inode == Some(
            InodeRead::Absent,
        ),
        FsFault::InodeNotFound(_) => seen.inode == Some(InodeRead::Absent) || seen.other_inode == Some(
            InodeRead::Absent,
        ),
        FsFault::EntryNotFound(_) => seen.dentry == Some(DentryRead::Absent),
        FsFault::SourceParentNotFound(_) => seen.inode == Some(InodeRead::Absent),
        FsFault::DestinationParentNotFound(_) => seen.other_inode == Some(InodeRead::Absent),
        FsFault::NotAFile(_) => is_there(seen.inode) && seen.inode->0->Found_0.kind != InodeKind::File,
        FsFault::NotADirectory(_) => is_there(seen.inode) && seen.inode->0->Found_0.kind != InodeKind::Dir,
        FsFault::CrossMountRename { src, dst } => is_there(seen.inode) && is_there(seen.other_inode) && src
            == seen.inode->0->Found_0.mount_id && dst == seen.other_inode->0->Found_0.mount_id && src != dst,
        FsFault::StaleState { last_applied, .. } => node.last_applied == Some(last_applied),
        FsFault::DestinationExists => seen.dentry is Some && seen.dentry->0 is Found,
        FsFault::LeaseInvalid { .. } => seen.lease == Some(false),
        FsFault::SessionNotFound(_) => seen.session is Some && seen.session->0 is None,
        FsFault::GrowNotSupported { current_size, new_size } => is_there(seen.inode) && current_size
            == seen.inode->0->Found_0.size && current_size < new_size,
        FsFault::Missing(_) | FsFault::NoClientId | FsFault::UnsupportedRenameFlags(_) => true,
        _ => false,
    }
}

/// Every fault that a request that changes the namespace is answered with has its cause, or is
/// that of its routing or of its command.
pub proof fn law_write_faults_have_their_cause(write: FsWrite, node: MetadataFsServiceImpl, seen: FsSeen)
    ensures
        fs_laws::write_next(write, node, seen) matches FsStep::Answer(answer) ==> (answer.fault matches Some(fault)
            ==> has_cause(fault, node, seen) || seen.route == Some(Routed::Fault(fault)) || (seen.proposed == Some(
            Proposed::Fault(fault),
        ) && seen.route is Some && seen.route->0 is To)),
        fs_laws::write_next(write, node, seen) matches FsStep::Answer(answer) ==> (answer.fault == Some(
            FsFault::NoClientId,
        ) ==> fs_laws::caller_of(write).client_id.raw == 0 || seen.route == Some(Routed::Fault(FsFault::NoClientId))
            || seen.proposed == Some(Proposed::Fault(FsFault::NoClientId))),
{
}

/// Every fault that any other request is answered with has its cause.
pub proof fn law_other_faults_have_their_cause(other: FsOther, node: MetadataFsServiceImpl, seen: FsSeen)
    ensures
        fs_laws::other_next(other, node, seen) matches FsStep::Answer(answer) ==> (answer.fault matches Some(fault)
            ==> has_cause(fault, node, seen)),
{
}

/// What is missing.
pub open spec fn lacks(write: FsWrite, field: Field) -> bool {
    match (write, field) {
        (FsWrite::SetAttr(req), Field::InodeId) => req.inode_id is None,
        (FsWrite::SetAttr(req), Field::FileAttrs) => req.attrs is None,
        (FsWrite::Mkdir(req), Field::ParentInodeId) => req.parent_inode_id is None,
        (FsWrite::Mkdir(req), Field::FileAttrs) => req.attrs is None,
        (FsWrite::Create(req), Field::ParentInodeId) => req.parent_inode_id is None,
        (FsWrite::Create(req), Field::FileAttrs) => req.attrs is None,
        (FsWrite::Create(req), Field::FileLayout) => req.layout is None,
        (FsWrite::Remove(_, req), Field::ParentInodeId) => req.parent_inode_id is None,
        (FsWrite::Xattr(_, req), Field::InodeId) => req.inode_id is None,
        (FsWrite::Truncate(req), Field::InodeId) => req.inode_id is None,
        (FsWrite::Truncate(req), Field::LeaseId) => req.lease_id is None,
        (FsWrite::Rename(req), Field::SrcParentInodeId) => req.src_parent_inode_id is None,
        (FsWrite::Rename(req), Field::DstParentInodeId) => req.dst_parent_inode_id is None,
        _ => false,
    }
}

/// A field that is said to be missing is missing, and a write that lacks the inode it is about
/// does nothing but say so.
pub proof fn law_missing_fields_are_told(
    write: FsWrite,
    other: FsOther,
    node: MetadataFsServiceImpl,
    seen: FsSeen,
    field: Field,
)
    ensures
        faults(fs_laws::write_next(write, node, seen), FsFault::Missing(field)) ==> lacks(write, field)
            || seen.route == Some(Routed::Fault(FsFault::Missing(field))) || seen.proposed == Some(
            Proposed::Fault(FsFault::Missing(field)),
        ),
        !(write is Rename) && (lacks(write, Field::InodeId) || lacks(write, Field::ParentInodeId)) ==> (
        fs_laws::write_next(write, node, seen) matches FsStep::Answer(answer) && (answer.fault == Some(
            FsFault::Missing(Field::InodeId),
        ) || answer.fault == Some(FsFault::Missing(Field::ParentInodeId)))),
        faults(fs_laws::other_next(other, node, seen), FsFault::Missing(field)) ==> (match other {
            FsOther::Lookup(parent, _) => parent is None && field == Field::ParentInodeId,
            FsOther::ReadInode(_, inode_id) => inode_id is None && field == Field::InodeId,
            FsOther::ReadDir(req) => req.parent_inode_id is None && field == Field::ParentInodeId,
            FsOther::File(_, inode_id, _) => inode_id is None && field == Field::InodeId,
            _ => false,
        }),
{
}

/// What an answer tells besides its fault and its body: the group and the epoch of the route that
/// was taken, or, to a client whose epoch is old, the epoch that holds. Only a success tells a
/// state, and only the one of its route. Faults come without a body.
#[verifier::rlimit(50)]
pub proof fn law_answers_tell_what_holds(write: FsWrite, node: MetadataFsServiceImpl, seen: FsSeen)
    ensures
        fs_laws::write_next(write, node, seen) matches FsStep::Answer(answer) ==> {
            &&& answer.group_id is Some ==> seen.route is Some && seen.route->0 is To && answer.group_id == Some(
                seen.route->0->To_0.namespace_owner_group_id,
            ) && answer.mount_epoch == Some(seen.route->0->To_0.mount_epoch)
            &&& answer.group_id is None && answer.mount_epoch is Some ==> (answer.fault is Some && ((
            answer.fault->0 is MountEpochMismatch && (answer.mount_epoch == Some(answer.fault->0->expected) || (
            seen.mount is Some && seen.mount->0 is Found && answer.mount_epoch == Some(
                seen.mount->0->Found_0.mount_epoch,
            )))) || (answer.fault->0 is CrossMountRename && seen.mount is Some && seen.mount->0 is Found
                && answer.mount_epoch == Some(seen.mount->0->Found_0.mount_epoch))))
            &&& answer.state_id is Some ==> answer.fault is None && seen.route is Some && seen.route->0 is To
                && answer.state_id == seen.route->0->To_0.latest_state_id
            &&& answer.fault is Some ==> answer.body == FsBody::Empty
        },
{
}

/// What an answer to a request that changes nothing tells besides its fault and its body: nothing.
/// Faults come without a body, but for a page of a directory, which is empty and the last.
pub proof fn law_reads_tell_no_route(other: FsOther, node: MetadataFsServiceImpl, seen: FsSeen)
    ensures
        fs_laws::other_next(other, node, seen) matches FsStep::Answer(answer) ==> {
            &&& answer.group_id is None && answer.mount_epoch is None && answer.state_id is None
            &&& answer.fault is Some && !(other is ReadDir) ==> answer.body == FsBody::Empty
            &&& answer.fault is Some && other is ReadDir ==> answer.body == FsBody::Empty || (answer.body
                == FsBody::EmptyLastPage && (answer.fault->0 is NotADirectory || answer.fault->0 is ReadFailed))
        },
{
}

// ---------------------------------------------------------------------------------------------
// Reads
// ---------------------------------------------------------------------------------------------

/// A lookup asks for the right to read the parent, reads the entry of that name in it and then the
/// inode that the entry names, and gives that inode. An entry that is not there is said not to be.
pub proof fn law_lookup_finds_the_entry<'a>(
    parent: InodeId,
    name: &'a str,
    node: MetadataFsServiceImpl,
    seen: FsSeen,
)
    ensures
        ({
            let step = fs_service::lookup_next(Some(parent), name, node, seen);
            &&& step is AskGuard ==> asks(step, false, None, None, AuthzOp::Read, Some(parent), None, None)
            &&& step matches FsStep::ReadDentry(p, n) ==> seen.guard == Some(true) && p == parent && n == name
            &&& step matches FsStep::ReadOtherInode(id) ==> seen.guard == Some(true) && seen.dentry == Some(
                DentryRead::Found(id),
            )
            &&& step is AskGuard || step is ReadDentry || step is ReadOtherInode || step is Answer
            &&& succeeds(step) ==> gives(step, FsBody::FoundInode) && seen.guard == Some(true) && seen.dentry is Some
                && seen.dentry->0 is Found && is_there(seen.other_inode)
            &&& seen.guard is None ==> step is AskGuard
            &&& seen.guard == Some(true) && node.has_storage && seen.dentry is Some && seen.dentry->0 is Found
                && is_there(seen.other_inode) ==> succeeds(step)
            &&& seen.guard == Some(true) && node.has_storage && seen.dentry == Some(DentryRead::Absent) ==> faults(
                step,
                FsFault::EntryNotFound(parent),
            )
            &&& forall|p: InodeId| faults(step, FsFault::EntryNotFound(p)) ==> p == parent
            &&& forall|id: InodeId|
                faults(step, FsFault::InodeNotFound(id)) ==> seen.dentry == Some(DentryRead::Found(id))
                    && seen.other_inode == Some(InodeRead::Absent)
            &&& !succeeds(step) && seen.guard == Some(false) ==> faults(step, FsFault::GuardRefused)
        }),
{
}

/// A read of an inode asks for the right to read it, or for the right to its extended attributes,
/// reads that inode, and gives what was asked for.
pub proof fn law_inode_reads_read_the_inode<'a>(
    rpc: InodeReadRpc<'a>,
    inode_id: InodeId,
    node: MetadataFsServiceImpl,
    seen: FsSeen,
)
    ensures
        ({
            let step = fs_service::read_inode_next(rpc, Some(inode_id), node, seen);
            &&& step is AskGuard ==> asks(
                step,
                false,
                None,
                None,
                if rpc is GetAttr {
                    AuthzOp::Read
                } else {
                    AuthzOp::Xattr
                },
                Some(inode_id),
                None,
                None,
            )
            &&& step matches FsStep::ReadInode(id) ==> seen.guard == Some(true) && id == inode_id
            &&& step matches FsStep::FindXattr(name) ==> rpc == InodeReadRpc::GetXattr(name) && seen.guard == Some(
                true,
            ) && is_there(seen.inode)
            &&& step is AskGuard || step is ReadInode || step is FindXattr || step is Answer
            &&& succeeds(step) ==> seen.guard == Some(true) && is_there(seen.inode) && (match rpc {
                InodeReadRpc::GetAttr => gives(step, FsBody::InodeAttrs),
                InodeReadRpc::ListXattr => gives(step, FsBody::XattrNames),
                InodeReadRpc::GetXattr(_) => gives(step, FsBody::Work) && seen.work == Some(true),
            })
            &&& seen.guard is None ==> step is AskGuard
            &&& seen.guard == Some(true) && node.has_storage && is_there(seen.inode) && !(rpc is GetXattr)
                ==> succeeds(step)
            &&& seen.guard == Some(true) && node.has_storage && is_there(seen.inode) && seen.work == Some(true)
                ==> succeeds(step)
            &&& seen.guard == Some(true) && node.has_storage && is_there(seen.inode) && rpc is GetXattr && seen.work
                == Some(false) ==> faults(step, FsFault::XattrNotFound)
            &&& seen.guard == Some(true) && node.has_storage && seen.inode == Some(InodeRead::Absent) ==> faults(
                step,
                FsFault::InodeNotFound(inode_id),
            )
        }),
{
}

/// A page of a directory is listed for a caller that may read it, from the cursor on where one is
/// sent, and with the limit that is sent where one is. What is no directory has no page.
pub proof fn law_read_dir_lists_the_directory<'a>(
    req: ReadDirRequest<'a>,
    parent: InodeId,
    node: MetadataFsServiceImpl,
    seen: FsSeen,
)
    requires
        req.parent_inode_id == Some(parent),
    ensures
        ({
            let step = fs_service::read_dir_next(req, node, seen);
            &&& step is AskGuard ==> asks(step, false, None, None, AuthzOp::Read, Some(parent), None, None)
            &&& step matches FsStep::ReadInode(id) ==> seen.guard == Some(true) && id == parent
            &&& step matches FsStep::ListEntries { parent_inode_id, cursor, limit } ==> {
                &&& seen.guard == Some(true) && is_there(seen.inode) && seen.inode->0->Found_0.kind == InodeKind::Dir
                &&& parent_inode_id == parent
                &&& cursor is Some <==> req.cursor_key@.len() > 0
                &&& cursor is Some ==> cursor->0@ == req.cursor_key@
                &&& limit is Some <==> req.max_entries > 0
                &&& limit is Some ==> limit->0 == req.max_entries
            }
            &&& step is AskGuard || step is ReadInode || step is ListEntries || step is Answer
            &&& succeeds(step) ==> gives(step, FsBody::Work) && seen.guard == Some(true) && seen.work == Some(true)
                && is_there(seen.inode) && seen.inode->0->Found_0.kind == InodeKind::Dir
            &&& seen.guard is None ==> step is AskGuard
            &&& seen.guard == Some(true) && node.has_storage && is_there(seen.inode) && seen.inode->0->Found_0.kind
                == InodeKind::Dir && seen.work == Some(true) ==> succeeds(step)
            &&& seen.guard == Some(true) && node.has_storage && is_there(seen.inode) && seen.inode->0->Found_0.kind
                != InodeKind::Dir ==> faults(step, FsFault::NotADirectory(parent)) && step->Answer_0.body
                == FsBody::EmptyLastPage
            &&& seen.guard == Some(true) && node.has_storage && seen.inode == Some(InodeRead::Absent) ==> faults(
                step,
                FsFault::ParentNotFound(parent),
            )
        }),
{
}

/// Opening a file to read it needs no more than the right to read it, and gives the empty handle.
pub proof fn law_open_gives_no_session(inode_id: Option<InodeId>, seen: FsSeen)
    ensures
        ({
            let step = fs_service::open_next(inode_id, seen);
            &&& seen.guard is None && inode_id is Some ==> asks(
                step,
                false,
                None,
                None,
                AuthzOp::Read,
                inode_id,
                None,
                None,
            )
            &&& seen.guard is None && inode_id is None ==> (step matches FsStep::AskGuard(call) && call.authz is None
                && call.mount_id is None && call.spec.readiness && call.spec.authz && !call.spec.leader
                && call.spec.data_io is None)
            &&& seen.guard == Some(true) ==> gives(step, FsBody::FileHandle(0))
            &&& seen.guard == Some(false) ==> faults(step, FsFault::GuardRefused)
        }),
{
}

// ---------------------------------------------------------------------------------------------
// Work of the core
// ---------------------------------------------------------------------------------------------

/// A request for the data of a file reads that inode, which has to be a file, asks the guard for
/// its mount, and hands the core exactly what it carries.
pub proof fn law_file_requests_reach_the_core(
    rpc: FileRpc,
    inode_id: InodeId,
    caller: FsCaller,
    node: MetadataFsServiceImpl,
    seen: FsSeen,
)
    ensures
        ({
            let step = fs_service::file_next(rpc, Some(inode_id), caller, node, seen);
            let is_file = is_there(seen.inode) && seen.inode->0->Found_0.kind == InodeKind::File;
            let mount_id = Some(seen.inode->0->Found_0.mount_id);
            &&& step matches FsStep::ReadInode(id) ==> id == inode_id
            &&& step is AskGuard ==> is_file && (match rpc {
                FileRpc::OpenWrite { .. } => asks(
                    step,
                    true,
                    Some(DataIoOp::OpenWrite),
                    mount_id,
                    AuthzOp::Write,
                    Some(inode_id),
                    None,
                    None,
                ),
                FileRpc::GetFileLayout { .. } => asks(
                    step,
                    false,
                    Some(DataIoOp::Read),
                    mount_id,
                    AuthzOp::Write,
                    Some(inode_id),
                    None,
                    None,
                ),
                FileRpc::Fsync(_) => asks(
                    step,
                    true,
                    Some(DataIoOp::Fsync),
                    mount_id,
                    AuthzOp::Write,
                    Some(inode_id),
                    None,
                    None,
                ),
            })
            &&& step matches FsStep::CallCore(call) ==> is_file && seen.guard == Some(true) && (match (rpc, call) {
                (FileRpc::OpenWrite { desired_len, mode }, CoreCall::OpenWrite {
                    inode_id: i,
                    desired_len: d,
                    mode: m,
                    freshness,
                }) => i == inode_id && d == desired_len && m == mode && is_fresh_by(freshness, caller),
                (FileRpc::GetFileLayout { range }, CoreCall::GetFileLayout { inode_id: i, range: r, freshness }) => i
                    == inode_id && (r is Some <==> range is Some) && (r is Some ==> r->0.offset == range->0.offset
                    && r->0.len == range->0.len) && is_fresh_by(freshness, caller),
                (FileRpc::Fsync(barrier), CoreCall::Fsync {
                    inode_id: i,
                    file_handle,
                    lease_id,
                    lease_epoch,
                    fencing_token,
                    target_size,
                    flags,
                    freshness,
                }) => i == inode_id && file_handle == barrier.file_handle && lease_id == barrier.lease_id
                    && lease_epoch == barrier.lease_epoch && fencing_token == barrier.fencing_token && target_size
                    == barrier.target_size && (barrier.flags <= i32::MAX ==> flags == barrier.flags)
                    && freshness.mount_epoch == caller.mount_epoch && freshness.worker_epoch == barrier.worker_epoch
                    && (barrier.route_epoch is Some ==> freshness.route_epoch == barrier.route_epoch) && (
                barrier.route_epoch is None ==> freshness.route_epoch == caller.route_epoch),
                _ => false,
            })
            &&& step is ReadInode || step is AskGuard || step is CallCore || step is Answer
            &&& succeeds(step) ==> gives(step, FsBody::Work) && is_file && seen.guard == Some(true) && seen.work
                == Some(true)
            &&& node.has_storage && seen.inode is None ==> step is ReadInode
            &&& node.has_storage && is_file && seen.guard is None ==> step is AskGuard
            &&& node.has_storage && is_file && seen.guard == Some(true) && seen.work is None ==> step is CallCore
            &&& node.has_storage && is_file && seen.guard == Some(true) && seen.work == Some(true) ==> succeeds(step)
            &&& node.has_storage && is_there(seen.inode) && !is_file ==> faults(step, FsFault::NotAFile(inode_id))
            &&& node.has_storage && seen.inode == Some(InodeRead::Absent) ==> faults(
                step,
                FsFault::InodeNotFound(inode_id),
            )
        }),
{
}

/// A request under a handle finds the session of that handle, asks the guard for the session's
/// mount and inode, and hands the core exactly what it carries. Without a session nothing is
/// closed and no lease is renewed. What was written is read before a file is closed.
pub proof fn law_session_requests_reach_the_core(rpc: SessionRpc, file_handle: u64, caller: FsCaller, seen: FsSeen)
    ensures
        ({
            let step = fs_service::session_next(rpc, file_handle, caller, seen);
            let has_session = seen.session is Some && seen.session->0 is Some;
            let session = seen.session->0->0;
            &&& step matches FsStep::FindSession(h) ==> h == file_handle
            &&& step is AskGuard ==> has_session && asks(
                step,
                true,
                Some(
                    match rpc {
                        SessionRpc::CloseWrite { .. } => DataIoOp::CloseWrite,
                        SessionRpc::RenewInodeLease { .. } => DataIoOp::RenewLease,
                    },
                ),
                Some(session.mount_id),
                AuthzOp::Write,
                Some(session.inode_id),
                None,
                Some(file_handle),
            )
            &&& step is ConvertExtents ==> rpc is CloseWrite && has_session && seen.guard == Some(true)
            &&& step matches FsStep::CallCore(call) ==> has_session && seen.guard == Some(true) && (match (rpc, call) {
                (SessionRpc::CloseWrite { lease, final_size }, CoreCall::CloseWrite {
                    file_handle: h,
                    lease: l,
                    final_size: s,
                    freshness,
                }) => h == file_handle && l == lease && s == final_size && is_fresh_by(freshness, caller)
                    && seen.extents == Some(true),
                (SessionRpc::RenewInodeLease { lease_id, lease_epoch }, CoreCall::RenewLease {
                    file_handle: h,
                    lease_id: l,
                    lease_epoch: e,
                    freshness,
                }) => h == file_handle && l == lease_id && e == lease_epoch && is_fresh_by(freshness, caller),
                _ => false,
            })
            &&& step is FindSession || step is AskGuard || step is ConvertExtents || step is CallCore || step is Answer
            &&& succeeds(step) ==> gives(step, FsBody::Work) && has_session && seen.guard == Some(true) && seen.work
                == Some(true) && (rpc is CloseWrite ==> seen.extents == Some(true))
            &&& seen.session is None ==> step is FindSession
            &&& seen.session is Some && seen.session->0 is None ==> faults(
                step,
                FsFault::SessionNotFound(file_handle),
            )
            &&& has_session && seen.guard is None ==> step is AskGuard
            &&& has_session && seen.guard == Some(true) && rpc is CloseWrite && seen.extents is None
                ==> step is ConvertExtents
            &&& has_session && seen.guard == Some(true) && (rpc is CloseWrite ==> seen.extents == Some(true))
                && seen.work is None ==> step is CallCore
            &&& has_session && seen.guard == Some(true) && (rpc is CloseWrite ==> seen.extents == Some(true))
                && seen.work == Some(true) ==> succeeds(step)
        }),
{
}

/// A handle is released whether it has a session or not. Where it has one, the guard is asked as
/// for closing the file.
pub proof fn law_release_reaches_the_core(file_handle: u64, seen: FsSeen)
    ensures
        ({
            let step = fs_service::release_next(file_handle, seen);
            &&& seen.session is None ==> step == FsStep::FindSession(file_handle)
            &&& seen.session is Some && seen.session->0 is Some && seen.guard is None ==> asks(
                step,
                true,
                Some(DataIoOp::CloseWrite),
                Some(seen.session->0->0.mount_id),
                AuthzOp::Write,
                Some(seen.session->0->0.inode_id),
                None,
                Some(file_handle),
            )
            &&& seen.session is Some && seen.session->0 is None && seen.guard is None ==> asks(
                step,
                false,
                None,
                None,
                AuthzOp::Write,
                None,
                None,
                Some(file_handle),
            )
            &&& seen.session is Some && seen.guard == Some(true) && seen.work is None ==> step == FsStep::CallCore(
                CoreCall::Release { file_handle },
            )
            &&& seen.session is Some && seen.guard == Some(true) && seen.work == Some(true) ==> gives(
                step,
                FsBody::Work,
            )
            &&& seen.session is Some && seen.guard == Some(true) && seen.work == Some(false) ==> faults(
                step,
                FsFault::CoreFailed,
            )
            &&& seen.session is Some && seen.guard == Some(false) ==> faults(step, FsFault::GuardRefused)
        }),
{
}

// ---------------------------------------------------------------------------------------------
// Changes of the namespace
// ---------------------------------------------------------------------------------------------

/// A change of attributes reads the inode, is routed by it, asks the guard of its mount for the
/// right to write it, and proposes the attributes and the mask that were sent for that inode. It
/// succeeds with the attributes that the inode has then.
pub proof fn law_set_attr_sets_what_was_sent(
    req: SetAttrRequest,
    inode_id: InodeId,
    node: MetadataFsServiceImpl,
    seen: FsSeen,
    ctx: RoutedFsWriteCtx,
)
    requires
        req.inode_id == Some(inode_id),
    ensures
        ({
            let step = fs_service::set_attr_next(req, node, seen);
            let ready = node.has_storage && is_there(seen.inode) && went_to(seen, ctx) && seen.guard == Some(true)
                && req.attrs is Some && req.caller.client_id.raw != 0;
            &&& step matches FsStep::ReadInode(id) ==> id == inode_id
            &&& step matches FsStep::ReadUpdated(id) ==> id == inode_id && seen.proposed is Some
            &&& step matches FsStep::ReadMount(id) ==> is_there(seen.inode) && id == seen.inode->0->Found_0.mount_id
            &&& step matches FsStep::Route { op, first, second } ==> op == FsWriteOp::SetAttr && first == inode_id
                && second is None && is_there(seen.inode)
            &&& step is AskGuard ==> is_there(seen.inode) && seen.route is Some && seen.route->0 is To && asks(
                step,
                true,
                None,
                Some(seen.inode->0->Found_0.mount_id),
                AuthzOp::Write,
                Some(inode_id),
                None,
                None,
            )
            &&& step matches FsStep::Propose(command) ==> is_there(seen.inode) && (command matches FsCommand::SetAttr {
                dedup,
                inode_id: i,
                mask,
                attrs,
            } && is_call_of(dedup, req.caller) && i == inode_id && mask == req.mask && req.attrs is Some
                && are_as_sent(attrs, req.attrs->0))
            &&& succeeds(step) ==> gives(step, FsBody::UpdatedAttrs) && seen.guard == Some(true) && seen.proposed
                is Some && !(seen.proposed->0 is Fault) && is_there(seen.updated)
            &&& went_to(seen, ctx) && succeeds(step) ==> tells_route(step, ctx, true)
            &&& node.has_storage && is_there(seen.inode) && seen.route is None ==> step is Route
            &&& node.has_storage && is_there(seen.inode) && went_to(seen, ctx) && seen.guard is None
                ==> step is AskGuard
            &&& ready && seen.proposed is None ==> step is Propose
            &&& ready && seen.proposed is Some && !(seen.proposed->0 is Fault) && seen.updated is None
                ==> step is ReadUpdated
            &&& ready && seen.proposed is Some && !(seen.proposed->0 is Fault) && is_there(seen.updated) ==> succeeds(
                step,
            )
            &&& ready && seen.proposed is Some && seen.proposed->0 is Fault ==> faults(
                step,
                seen.proposed->0->Fault_0,
            ) && tells_route(step, ctx, false)
            &&& node.has_storage && seen.inode == Some(InodeRead::Absent) ==> faults(
                step,
                FsFault::InodeNotFound(inode_id),
            )
            &&& node.has_storage && is_there(seen.inode) && seen.route is Some && seen.route->0 is Fault && !(
            seen.route->0->Fault_0 is MountEpochMismatch) ==> faults(step, seen.route->0->Fault_0)
            &&& node.has_storage && is_there(seen.inode) && seen.route is Some && seen.route->0 is Fault
                && seen.route->0->Fault_0 is MountEpochMismatch && seen.mount is Some ==> faults(
                step,
                seen.route->0->Fault_0,
            )
        }),
{
}

/// A directory is made under the parent that was named, with the name and the attributes that were
/// sent, once the parent was read, the write was routed by it and the guard of the parent's mount
/// let the caller write it.
pub proof fn law_mkdir_makes_what_was_sent(
    req: MkdirRequest,
    parent: InodeId,
    node: MetadataFsServiceImpl,
    seen: FsSeen,
    ctx: RoutedFsWriteCtx,
)
    requires
        req.parent_inode_id == Some(parent),
    ensures
        ({
            let step = fs_service::mkdir_next(req, node, seen);
            let ready = node.has_storage && is_there(seen.other_inode) && went_to(seen, ctx) && seen.guard == Some(
                true,
            ) && req.attrs is Some && req.caller.client_id.raw != 0;
            &&& step matches FsStep::ReadOtherInode(id) ==> id == parent
            &&& step matches FsStep::ReadMount(id) ==> is_there(seen.other_inode) && id
                == seen.other_inode->0->Found_0.mount_id
            &&& step matches FsStep::Route { op, first, second } ==> op == FsWriteOp::Mkdir && first == parent
                && second is None
            &&& step is AskGuard ==> is_there(seen.other_inode) && seen.route is Some && seen.route->0 is To && asks(
                step,
                true,
                None,
                Some(seen.other_inode->0->Found_0.mount_id),
                AuthzOp::Write,
                Some(parent),
                None,
                None,
            )
            &&& step matches FsStep::Propose(command) ==> is_there(seen.other_inode) && (command
                matches FsCommand::Mkdir { dedup, parent_inode_id, name, attrs } && is_call_of(dedup, req.caller)
                && parent_inode_id == parent && name == req.name && req.attrs is Some && are_as_sent(
                attrs,
                req.attrs->0,
            ))
            &&& succeeds(step) ==> gives(step, FsBody::Empty) && seen.guard == Some(true) && seen.proposed is Some && !(
            seen.proposed->0 is Fault) && is_there(seen.other_inode)
            &&& went_to(seen, ctx) && succeeds(step) ==> tells_route(step, ctx, true)
            &&& seen.route is None ==> step is Route
            &&& node.has_storage && went_to(seen, ctx) && seen.other_inode is None ==> step is ReadOtherInode
            &&& node.has_storage && went_to(seen, ctx) && is_there(seen.other_inode) && seen.guard is None
                ==> step is AskGuard
            &&& ready && seen.proposed is None ==> step is Propose
            &&& ready && seen.proposed is Some && !(seen.proposed->0 is Fault) ==> succeeds(step)
            &&& ready && seen.proposed is Some && seen.proposed->0 is Fault ==> faults(
                step,
                seen.proposed->0->Fault_0,
            ) && tells_route(step, ctx, false)
            &&& node.has_storage && went_to(seen, ctx) && seen.other_inode == Some(InodeRead::Absent) ==> faults(
                step,
                FsFault::ParentNotFound(parent),
            )
            &&& seen.route is Some && seen.route->0 is Fault && !(seen.route->0->Fault_0 is MountEpochMismatch)
                ==> faults(step, seen.route->0->Fault_0)
        }),
{
}

/// A file is made under the parent that was named, with the name, the attributes and the layout
/// that were sent, and is answered with its data handle, 0 where the command gave none. A command
/// that failed makes none.
pub proof fn law_create_makes_what_was_sent(
    req: CreateRequest,
    parent: InodeId,
    seen: FsSeen,
    ctx: RoutedFsWriteCtx,
)
    requires
        req.parent_inode_id == Some(parent),
    ensures
        ({
            let step = fs_service::create_next(req, seen);
            let ready = went_to(seen, ctx) && seen.guard == Some(true) && req.attrs is Some && req.layout is Some
                && req.caller.client_id.raw != 0;
            &&& step matches FsStep::Route { op, first, second } ==> op == FsWriteOp::Create && first == parent
                && second is None
            &&& step is AskGuard ==> seen.route is Some && seen.route->0 is To && asks(
                step,
                true,
                None,
                Some(seen.route->0->To_0.mount_id),
                AuthzOp::Write,
                Some(parent),
                None,
                None,
            )
            &&& step matches FsStep::Propose(command) ==> (command matches FsCommand::Create {
                dedup,
                parent_inode_id,
                name,
                attrs,
                layout,
            } && is_call_of(dedup, req.caller) && parent_inode_id == parent && name == req.name && req.attrs is Some
                && are_as_sent(attrs, req.attrs->0) && req.layout is Some && layout.block_size
                == req.layout->0.block_size && layout.chunk_size == req.layout->0.chunk_size && layout.replication
                == req.layout->0.replication % 256)
            &&& step is Route || step is AskGuard || step is Propose || step is Answer
            &&& succeeds(step) ==> seen.guard == Some(true) && seen.proposed is Some && (
            seen.proposed->0 matches Proposed::Done(handle) && (handle is Some ==> gives(
                step,
                FsBody::DataHandle(handle->0),
            )) && (handle is None ==> gives(step, FsBody::DataHandle(0))))
            &&& went_to(seen, ctx) && succeeds(step) ==> tells_route(step, ctx, true)
            &&& seen.route is None ==> step is Route
            &&& went_to(seen, ctx) && seen.guard is None ==> step is AskGuard
            &&& ready && seen.proposed is None ==> step is Propose
            &&& ready && seen.proposed is Some && seen.proposed->0 is Done ==> succeeds(step)
            &&& ready && seen.proposed == Some(Proposed::Failed) ==> faults(step, FsFault::CommandFailed)
                && tells_route(step, ctx, false)
            &&& ready && seen.proposed is Some && seen.proposed->0 is Fault ==> faults(
                step,
                seen.proposed->0->Fault_0,
            ) && tells_route(step, ctx, false)
            &&& seen.route is Some && seen.route->0 is Fault ==> faults(step, seen.route->0->Fault_0)
        }),
{
}

/// An entry is removed by the command of its kind, a file by unlinking and a directory by its own
/// removal: the entry of that name under that parent, for a caller that may delete from it. A
/// command that failed removes nothing.
pub proof fn law_removal_removes_the_entry(
    rpc: RemoveRpc,
    req: RemoveRequest,
    parent: InodeId,
    seen: FsSeen,
    ctx: RoutedFsWriteCtx,
)
    requires
        req.parent_inode_id == Some(parent),
    ensures
        ({
            let step = fs_service::remove_next(rpc, req, seen);
            let ready = went_to(seen, ctx) && seen.guard == Some(true) && req.caller.client_id.raw != 0;
            &&& step matches FsStep::Route { op, first, second } ==> first == parent && second is None && (
            rpc is Unlink ==> op == FsWriteOp::Unlink) && (rpc is Rmdir ==> op == FsWriteOp::Rmdir)
            &&& step is AskGuard ==> seen.route is Some && seen.route->0 is To && asks(
                step,
                true,
                None,
                Some(seen.route->0->To_0.mount_id),
                AuthzOp::Delete,
                Some(parent),
                None,
                None,
            )
            &&& step matches FsStep::Propose(command) ==> (rpc is Unlink ==> (command matches FsCommand::Unlink {
                dedup,
                parent_inode_id,
                name,
            } && is_call_of(dedup, req.caller) && parent_inode_id == parent && name == req.name)) && (
            rpc is Rmdir ==> (command matches FsCommand::Rmdir { dedup, parent_inode_id, name } && is_call_of(
                dedup,
                req.caller,
            ) && parent_inode_id == parent && name == req.name))
            &&& step is Route || step is AskGuard || step is Propose || step is Answer
            &&& succeeds(step) ==> gives(step, FsBody::Empty) && seen.guard == Some(true) && seen.proposed is Some
                && seen.proposed->0 is Done
            &&& went_to(seen, ctx) && succeeds(step) ==> tells_route(step, ctx, true)
            &&& seen.route is None ==> step is Route
            &&& went_to(seen, ctx) && seen.guard is None ==> step is AskGuard
            &&& ready && seen.proposed is None ==> step is Propose
            &&& ready && seen.proposed is Some && seen.proposed->0 is Done ==> succeeds(step)
            &&& ready && seen.proposed == Some(Proposed::Failed) ==> faults(step, FsFault::CommandFailed)
                && tells_route(step, ctx, false)
            &&& ready && seen.proposed is Some && seen.proposed->0 is Fault ==> faults(
                step,
                seen.proposed->0->Fault_0,
            ) && tells_route(step, ctx, false)
            &&& seen.route is Some && seen.route->0 is Fault ==> faults(step, seen.route->0->Fault_0)
        }),
{
}

/// An extended attribute is set to the value that was sent, as new or as old as was asked, or
/// removed: the one of that name, of that inode.
pub proof fn law_xattr_changes_what_was_named(
    rpc: XattrRpc,
    req: XattrRequest,
    inode_id: InodeId,
    seen: FsSeen,
    ctx: RoutedFsWriteCtx,
)
    requires
        req.inode_id == Some(inode_id),
    ensures
        ({
            let step = fs_service::xattr_next(rpc, req, seen);
            let ready = went_to(seen, ctx) && seen.guard == Some(true) && req.caller.client_id.raw != 0;
            &&& step matches FsStep::Route { op, first, second } ==> op == FsWriteOp::SetAttr && first == inode_id
                && second is None
            &&& step is AskGuard ==> seen.route is Some && seen.route->0 is To && asks(
                step,
                true,
                None,
                Some(seen.route->0->To_0.mount_id),
                AuthzOp::Xattr,
                Some(inode_id),
                None,
                None,
            )
            &&& step matches FsStep::Propose(command) ==> (match rpc {
                XattrRpc::Put { value, create, replace } => command matches FsCommand::SetXattr {
                    dedup,
                    inode_id: i,
                    name,
                    value: v,
                    create: c,
                    replace: r,
                } && is_call_of(dedup, req.caller) && i == inode_id && name == req.name && v == value && c == create
                    && r == replace,
                XattrRpc::Remove => command matches FsCommand::RemoveXattr { dedup, inode_id: i, name } && is_call_of(
                    dedup,
                    req.caller,
                ) && i == inode_id && name == req.name,
            })
            &&& step is Route || step is AskGuard || step is Propose || step is Answer
            &&& succeeds(step) ==> gives(step, FsBody::Empty) && seen.guard == Some(true) && seen.proposed is Some && !(
            seen.proposed->0 is Fault)
            &&& went_to(seen, ctx) && succeeds(step) ==> tells_route(step, ctx, false)
            &&& seen.route is None ==> step is Route
            &&& went_to(seen, ctx) && seen.guard is None ==> step is AskGuard
            &&& ready && seen.proposed is None ==> step is Propose
            &&& ready && seen.proposed is Some && !(seen.proposed->0 is Fault) ==> succeeds(step)
            &&& ready && seen.proposed is Some && seen.proposed->0 is Fault ==> faults(
                step,
                seen.proposed->0->Fault_0,
            ) && tells_route(step, ctx, false)
            &&& seen.route is Some && seen.route->0 is Fault ==> faults(step, seen.route->0->Fault_0)
        }),
{
}

/// A file is truncated under the lease that was shown, once that lease holds for it: to the size
/// that was sent, which is below the one it has. To its own size it is truncated at once, and to a
/// larger one never.
pub proof fn law_truncate_cuts_under_the_lease(
    req: TruncateRequest,
    inode_id: InodeId,
    lease: WireLeaseId,
    node: MetadataFsServiceImpl,
    seen: FsSeen,
    ctx: RoutedFsWriteCtx,
)
    requires
        req.inode_id == Some(inode_id),
        req.lease_id == Some(lease),
    ensures
        ({
            let step = fs_service::truncate_next(req, node, seen);
            let is_file = node.has_storage && is_there(seen.inode) && seen.inode->0->Found_0.kind == InodeKind::File;
            let size = seen.inode->0->Found_0.size;
            let held = is_file && was_granted(seen.guard) && was_granted(seen.lease);
            let ready = held && req.new_size < size && went_to(seen, ctx) && req.caller.client_id.raw != 0;
            &&& step matches FsStep::ReadInode(id) ==> id == inode_id
            &&& step is AskGuard ==> is_file && asks(
                step,
                true,
                Some(DataIoOp::Truncate),
                Some(seen.inode->0->Found_0.mount_id),
                AuthzOp::Write,
                Some(inode_id),
                None,
                None,
            )
            &&& step matches FsStep::CheckLease { inode_id: i, lease_id, lease_epoch } ==> is_file && seen.guard
                == Some(true) && i == inode_id && is_lease_sent(lease_id, lease) && lease_epoch == req.lease_epoch
            &&& step matches FsStep::Route { op, first, second } ==> held && op == FsWriteOp::SetAttr && first
                == inode_id && second is None && req.new_size < size
            &&& step matches FsStep::Propose(command) ==> held && req.new_size < size && (command
                matches FsCommand::Truncate { dedup, inode_id: i, new_size, lease_id, lease_epoch } && is_call_of(
                dedup,
                req.caller,
            ) && i == inode_id && new_size == req.new_size && is_lease_sent(lease_id, lease) && lease_epoch
                == req.lease_epoch)
            &&& step is ReadInode || step is AskGuard || step is CheckLease || step is Route || step is Propose
                || step is Answer
            &&& succeeds(step) ==> held && gives(step, FsBody::NewSize(req.new_size)) && req.new_size <= size && (
            req.new_size < size ==> seen.proposed is Some && !(seen.proposed->0 is Fault))
            &&& node.has_storage && seen.inode is None ==> step is ReadInode
            &&& is_file && seen.guard is None ==> step is AskGuard
            &&& is_file && seen.guard == Some(true) && seen.lease is None ==> step is CheckLease
            &&& is_file && seen.guard == Some(true) && seen.lease == Some(false) ==> (step matches FsStep::Answer(a)
                && (a.fault matches Some(FsFault::LeaseInvalid { inode_id: i, lease_id }) && i == inode_id
                && is_lease_sent(lease_id, lease)))
            &&& held && req.new_size == size ==> succeeds(step)
            &&& held && req.new_size > size ==> faults(
                step,
                FsFault::GrowNotSupported { current_size: size, new_size: req.new_size },
            )
            &&& held && req.new_size < size && seen.route is None ==> step is Route
            &&& held && req.new_size < size && seen.route is Some && seen.route->0 is Fault ==> faults(
                step,
                seen.route->0->Fault_0,
            )
            &&& ready && seen.proposed is None ==> step is Propose
            &&& ready && seen.proposed is Some && !(seen.proposed->0 is Fault) ==> succeeds(step) && tells_route(
                step,
                ctx,
                false,
            )
            &&& ready && seen.proposed is Some && seen.proposed->0 is Fault ==> faults(
                step,
                seen.proposed->0->Fault_0,
            ) && tells_route(step, ctx, false)
            &&& node.has_storage && is_there(seen.inode) && !is_file ==> faults(step, FsFault::NotAFile(inode_id))
        }),
{
    assert(lease.high * 0x1_0000_0000_0000_0000 + lease.low <= u128::MAX);
}

/// A rename moves the entry of the source name under the source parent to the destination name
/// under the destination parent, with the flags that were sent, once both parents were read and lie
/// in one mount, the write was routed by both, and the guard let the caller rename. A leader that
/// is to leave the destination alone looks whether it is there first, if it knows as much as the
/// client.
pub proof fn law_rename_moves_what_was_named(
    req: RenameRequest,
    source: InodeId,
    destination: InodeId,
    node: MetadataFsServiceImpl,
    seen: FsSeen,
    ctx: RoutedFsWriteCtx,
)
    requires
        req.src_parent_inode_id == Some(source),
        req.dst_parent_inode_id == Some(destination),
    ensures
        ({
            let step = fs_service::rename_next(req, node, seen);
            let known = req.flags == 0 || req.flags == 1;
            let one_mount = known && node.has_storage && is_there(seen.inode) && is_there(seen.other_inode)
                && seen.inode->0->Found_0.mount_id == seen.other_inode->0->Found_0.mount_id;
            let passed = one_mount && went_to(seen, ctx) && seen.guard == Some(true);
            let leads = req.flags == 1 && node.has_raft && node.is_leader;
            let required = req.caller.state_id;
            let applied = node.last_applied;
            let behind = required is Some && applied is Some && (applied->0.term < required->0.term || (
            applied->0.term == required->0.term && (applied->0.leader_node_id < required->0.leader_node_id || (
            applied->0.leader_node_id == required->0.leader_node_id && applied->0.index < required->0.index))));
            let unsure = required is Some && applied is None;
            let free = !leads || unsure || (!behind && seen.dentry == Some(DentryRead::Absent));
            let ready = passed && node.has_raft && free && req.caller.client_id.raw != 0;
            &&& !known ==> faults(step, FsFault::UnsupportedRenameFlags(req.flags))
            &&& step matches FsStep::ReadInode(id) ==> id == source
            &&& step matches FsStep::ReadOtherInode(id) ==> id == destination
            &&& step matches FsStep::ReadMount(id) ==> is_there(seen.inode) && id == seen.inode->0->Found_0.mount_id
            &&& step matches FsStep::Route { op, first, second } ==> one_mount && op == FsWriteOp::Rename && first
                == source && second == Some(destination)
            &&& step is AskGuard ==> one_mount && seen.route is Some && seen.route->0 is To && asks(
                step,
                true,
                None,
                Some(seen.inode->0->Found_0.mount_id),
                AuthzOp::Rename,
                Some(source),
                Some(destination),
                None,
            )
            &&& step matches FsStep::ReadDentry(p, n) ==> one_mount && seen.guard == Some(true) && leads && !behind
                && !unsure && p == destination && n == req.dst_name
            &&& step matches FsStep::Propose(command) ==> one_mount && node.has_raft && free && (command
                matches FsCommand::Rename {
                dedup,
                src_parent_inode_id,
                src_name,
                dst_parent_inode_id,
                dst_name,
                flags,
            } && is_call_of(dedup, req.caller) && src_parent_inode_id == source && src_name == req.src_name
                && dst_parent_inode_id == destination && dst_name == req.dst_name && flags == req.flags)
            &&& succeeds(step) ==> gives(step, FsBody::Empty) && one_mount && seen.guard == Some(true) && node.has_raft
                && free && seen.proposed is Some && !(seen.proposed->0 is Fault)
            &&& went_to(seen, ctx) && succeeds(step) ==> tells_route(step, ctx, true)
            &&& known && node.has_storage && seen.inode is None ==> step is ReadInode
            &&& known && node.has_storage && is_there(seen.inode) && seen.other_inode is None
                ==> step is ReadOtherInode
            &&& known && node.has_storage && seen.inode == Some(InodeRead::Absent) ==> faults(
                step,
                FsFault::SourceParentNotFound(source),
            )
            &&& known && node.has_storage && is_there(seen.inode) && seen.other_inode == Some(InodeRead::Absent)
                ==> faults(step, FsFault::DestinationParentNotFound(destination))
            &&& one_mount && seen.route is None ==> step is Route
            &&& one_mount && went_to(seen, ctx) && seen.guard is None ==> step is AskGuard
            &&& passed && leads && behind ==> faults(
                step,
                FsFault::StaleState { last_applied: applied->0, required: required->0 },
            ) && tells_route(step, ctx, false)
            &&& passed && leads && !behind && !unsure && seen.dentry is None ==> step is ReadDentry
            &&& passed && leads && !behind && !unsure && seen.dentry is Some && seen.dentry->0 is Found ==> faults(
                step,
                FsFault::DestinationExists,
            ) && tells_route(step, ctx, false)
            &&& ready && seen.proposed is None ==> step is Propose
            &&& ready && seen.proposed is Some && !(seen.proposed->0 is Fault) ==> succeeds(step)
            &&& ready && seen.proposed is Some && seen.proposed->0 is Fault ==> faults(
                step,
                seen.proposed->0->Fault_0,
            ) && tells_route(step, ctx, false)
        }),
{
}

/// The kind of a command: what changes an inode that is there counts as a change of attributes.
pub proof fn law_commands_have_their_kind(command: FsCommand)
    ensures
        fs_service::op_of(command) == FsWriteOp::Mkdir <==> command is Mkdir,
        fs_service::op_of(command) == FsWriteOp::Create <==> command is Create,
        fs_service::op_of(command) == FsWriteOp::Unlink <==> command is Unlink,
        fs_service::op_of(command) == FsWriteOp::Rmdir <==> command is Rmdir,
        fs_service::op_of(command) == FsWriteOp::Rename <==> command is Rename,
        fs_service::op_of(command) == FsWriteOp::SetAttr <==> command is SetAttr || command is Truncate
            || command is SetXattr || command is RemoveXattr,
{
}

// ---------------------------------------------------------------------------------------------
// Routing and proposing
// ---------------------------------------------------------------------------------------------

/// All that was read is there and lies in this mount.
pub open spec fn all_in(reads: Seq<InodeRead>, mount_id: MountId) -> bool {
    forall|i: int| 0 <= i < reads.len() ==> (#[trigger] reads[i]) is Found && reads[i]->Found_0.mount_id == mount_id
}

proof fn lemma_first_fault(ids: Seq<InodeId>, reads: Seq<InodeRead>, from: int, mount_id: MountId)
    requires
        0 <= from <= reads.len(),
    ensures
        fs_service::first_read_fault(ids, reads, from, mount_id) is None <==> all_in(reads.skip(from), mount_id),
        fs_service::first_read_fault(ids, reads, from, mount_id) matches Some(fault) ==> exists|i: int|
            from <= i < reads.len() && is_read_fault(fault, ids[i], #[trigger] reads[i], mount_id) && all_in(
                reads.subrange(from, i),
                mount_id,
            ),
    decreases reads.len() - from,
{
    if from < reads.len() {
        let rest = reads.skip(from);
        assert(rest[0] == reads[from]);
        assert(rest.skip(1) =~= reads.skip(from + 1));
        if reads[from] is Found && reads[from]->Found_0.mount_id == mount_id {
            lemma_first_fault(ids, reads, from + 1, mount_id);
            if all_in(reads.skip(from + 1), mount_id) {
                assert forall|i: int| 0 <= i < rest.len() implies (#[trigger] rest[i]) is Found
                    && rest[i]->Found_0.mount_id == mount_id by {
                    if i > 0 {
                        assert(reads.skip(from + 1)[i - 1] == rest[i]);
                    }
                }
            }
            if all_in(rest, mount_id) {
                assert forall|i: int| 0 <= i < reads.skip(from + 1).len() implies (#[trigger] reads.skip(from + 1)[i])
                    is Found && reads.skip(from + 1)[i]->Found_0.mount_id == mount_id by {
                    assert(rest[i + 1] == reads.skip(from + 1)[i]);
                }
            }
            if fs_service::first_read_fault(ids, reads, from + 1, mount_id) is Some {
                let fault = fs_service::first_read_fault(ids, reads, from + 1, mount_id)->0;
                let i = choose|i: int|
                    from + 1 <= i < reads.len() && is_read_fault(fault, ids[i], #[trigger] reads[i], mount_id) && all_in(
                        reads.subrange(from + 1, i),
                        mount_id,
                    );
                assert forall|j: int| 0 <= j < reads.subrange(from, i).len() implies (
                #[trigger] reads.subrange(from, i)[j]) is Found && reads.subrange(from, i)[j]->Found_0.mount_id
                    == mount_id by {
                    if j > 0 {
                        assert(reads.subrange(from + 1, i)[j - 1] == reads.subrange(from, i)[j]);
                    }
                }
            }
        } else {
            assert(all_in(reads.subrange(from, from), mount_id));
        }
    }
}

/// What is wrong with an inode that was read for a write in this mount.
pub open spec fn is_read_fault(fault: FsFault, id: InodeId, read: InodeRead, mount_id: MountId) -> bool {
    match read {
        InodeRead::Failed => fault == FsFault::ReadFailed,
        InodeRead::Absent => fault == FsFault::ParentNotFound(id),
        InodeRead::Found(inode) => inode.mount_id != mount_id && fault == FsFault::CrossMount,
    }
}

/// A write is routed by every inode that it is about, in order, and then by the mount of the
/// first; where all of them are there in that mount and the client's epoch, if it has one, is the
/// mount's, it goes to the group that owns the mount, with the epoch of the mount and the state
/// that is known. Otherwise the first thing that is wrong is told.
pub proof fn law_routing_takes_the_first_mount(
    has_storage: bool,
    ids: Seq<InodeId>,
    reads: Seq<InodeRead>,
    mount: Option<MountRead>,
    client_epoch: Option<u64>,
    latest: Option<RaftLogId>,
)
    requires
        0 < reads.len() <= ids.len(),
        has_storage,
        reads[0] is Found,
    ensures
        ({
            let step = fs_service::route_next(has_storage, ids, reads, mount, client_epoch, latest);
            let mount_id = reads[0]->Found_0.mount_id;
            let all = all_in(reads, mount_id);
            &&& all && reads.len() < ids.len() ==> step == RouteStep::ReadInode(ids[reads.len() as int])
            &&& all && reads.len() == ids.len() && mount is None ==> step == RouteStep::ReadMount(mount_id)
            &&& all && reads.len() == ids.len() && mount == Some(MountRead::Failed) ==> step == RouteStep::Done(
                Routed::Fault(FsFault::ReadFailed),
            )
            &&& all && reads.len() == ids.len() && mount == Some(MountRead::Absent) ==> step == RouteStep::Done(
                Routed::Fault(FsFault::MountNotFound(mount_id)),
            )
            &&& all && reads.len() == ids.len() ==> (mount matches Some(MountRead::Found(entry)) ==> {
                &&& client_epoch is Some && client_epoch->0 != entry.mount_epoch ==> step == RouteStep::Done(
                    Routed::Fault(
                        FsFault::MountEpochMismatch { expected: entry.mount_epoch, got: client_epoch->0 },
                    ),
                )
                &&& client_epoch is None || client_epoch->0 == entry.mount_epoch ==> (
                step matches RouteStep::Done(Routed::To(ctx)) && ctx.mount_id == mount_id
                    && ctx.namespace_owner_group_id == entry.namespace_owner_group_id && ctx.mount_epoch
                    == entry.mount_epoch && ctx.latest_state_id == latest)
            })
            &&& !all ==> (step matches RouteStep::Done(Routed::Fault(fault)) && exists|i: int|
                0 < i < reads.len() && is_read_fault(fault, ids[i], #[trigger] reads[i], mount_id) && all_in(
                    reads.subrange(1, i),
                    mount_id,
                ))
        }),
{
    let mount_id = reads[0]->Found_0.mount_id;
    lemma_first_fault(ids, reads, 1, mount_id);
    let rest = reads.skip(1);
    if all_in(rest, mount_id) {
        assert forall|i: int| 0 <= i < reads.len() implies (#[trigger] reads[i]) is Found
            && reads[i]->Found_0.mount_id == mount_id by {
            if i > 0 {
                assert(rest[i - 1] == reads[i]);
            }
        }
    }
    if all_in(reads, mount_id) {
        assert forall|i: int| 0 <= i < rest.len() implies (#[trigger] rest[i]) is Found && rest[i]->Found_0.mount_id
            == mount_id by {
            assert(rest[i] == reads[i + 1]);
        }
    }
}

/// What routing does before it has an inode to go by.
pub proof fn law_routing_starts_with_the_first_inode(
    ids: Seq<InodeId>,
    reads: Seq<InodeRead>,
    mount: Option<MountRead>,
    client_epoch: Option<u64>,
    latest: Option<RaftLogId>,
)
    ensures
        fs_service::route_next(false, ids, reads, mount, client_epoch, latest) == RouteStep::Done(
            Routed::Fault(FsFault::StorageUnavailable),
        ),
        ids.len() == 0 ==> fs_service::route_next(true, ids, reads, mount, client_epoch, latest) == RouteStep::Done(
            Routed::Fault(FsFault::NoParent),
        ),
        ids.len() > 0 && reads.len() == 0 ==> fs_service::route_next(true, ids, reads, mount, client_epoch, latest)
            == RouteStep::ReadInode(ids[0]),
        ids.len() > 0 && reads.len() > 0 && reads[0] is Absent ==> fs_service::route_next(
            true,
            ids,
            reads,
            mount,
            client_epoch,
            latest,
        ) == RouteStep::Done(Routed::Fault(FsFault::ParentNotFound(ids[0]))),
        ids.len() > 0 && reads.len() > 0 && reads[0] is Failed ==> fs_service::route_next(
            true,
            ids,
            reads,
            mount,
            client_epoch,
            latest,
        ) == RouteStep::Done(Routed::Fault(FsFault::ReadFailed)),
{
}

/// A command is appended to the log only by a node with a log, and only if the call is not known
/// to have been carried out; what the log gives for it is what is given.
pub proof fn law_commands_reach_the_log_once(
    has_raft: bool,
    has_storage: bool,
    call_id: CallId,
    applied: Option<AppliedRead>,
    reply: Option<LogReply>,
)
    ensures
        ({
            let step = fs_service::propose_next(has_raft, has_storage, call_id, applied, reply);
            let fresh = has_raft && (!has_storage || applied == Some(AppliedRead::Absent));
            &&& !has_raft ==> step == ProposeStep::Done(Proposed::Fault(FsFault::RaftUnavailable))
            &&& step is FindApplied <==> has_raft && has_storage && applied is None
            &&& step is Append <==> fresh && reply is None
            &&& has_raft && has_storage && applied == Some(AppliedRead::Failed) ==> step == ProposeStep::Done(
                Proposed::Fault(FsFault::ReadFailed),
            )
            &&& has_raft && has_storage ==> (applied matches Some(AppliedRead::Found(AppliedCall {
                same_command,
                result,
            })) ==> {
                &&& !same_command ==> step == ProposeStep::Done(Proposed::Fault(FsFault::CallReused(call_id)))
                &&& same_command && result is Some ==> step == ProposeStep::Done(result->0)
                &&& same_command && result is None ==> step == ProposeStep::Done(Proposed::Done(None))
            })
            &&& fresh && reply == Some(LogReply::Failed) ==> step == ProposeStep::Done(
                Proposed::Fault(FsFault::ProposeFailed),
            )
            &&& fresh ==> (reply matches Some(LogReply::Applied(result)) ==> {
                &&& result is Some ==> step == ProposeStep::Done(result->0)
                &&& result is None ==> step == ProposeStep::Done(Proposed::Done(None))
            })
        }),
{
}

/// A caller's call is known by the caller and the number of the call. A caller without an identity
/// has none.
pub proof fn law_calls_are_known_by_their_caller(caller: FsCaller)
    ensures
        fs_service::dedup_of(caller) is None <==> caller.client_id.raw == 0,
        fs_service::dedup_of(caller) is Some ==> fs_service::dedup_of(caller)->0.client_id == caller.client_id
            && fs_service::dedup_of(caller)->0.call_id == caller.call_id,
{
}

// ---------------------------------------------------------------------------------------------
// What stands in the way
// ---------------------------------------------------------------------------------------------

/// The answer tells neither group nor epoch nor state.
pub open spec fn tells_nothing(step: FsStep) -> bool {
    step matches FsStep::Answer(answer) && answer.group_id is None && answer.mount_epoch is None && answer.state_id
        is None
}

/// The first thing in the way of a read is told: a guard that refused, a store that is missing, a
/// read that failed.
pub proof fn law_reads_stop_at_the_first_obstacle<'a>(
    parent: InodeId,
    name: &'a str,
    rpc: InodeReadRpc<'a>,
    page: ReadDirRequest<'a>,
    node: MetadataFsServiceImpl,
    seen: FsSeen,
)
    requires
        page.parent_inode_id == Some(parent),
    ensures
        ({
            let lookup = fs_service::lookup_next(Some(parent), name, node, seen);
            let read = fs_service::read_inode_next(rpc, Some(parent), node, seen);
            let list = fs_service::read_dir_next(page, node, seen);
            let passed = was_granted(seen.guard);
            &&& seen.guard == Some(false) ==> faults(lookup, FsFault::GuardRefused) && faults(
                read,
                FsFault::GuardRefused,
            ) && faults(list, FsFault::GuardRefused)
            &&& passed && !node.has_storage ==> faults(lookup, FsFault::StorageUnavailable) && faults(
                read,
                FsFault::StorageUnavailable,
            ) && faults(list, FsFault::StorageUnavailable)
            &&& passed && node.has_storage && seen.dentry is None ==> lookup is ReadDentry
            &&& passed && node.has_storage && seen.dentry == Some(DentryRead::Failed) ==> faults(
                lookup,
                FsFault::ReadFailed,
            )
            &&& passed && node.has_storage && seen.dentry is Some && seen.dentry->0 is Found && seen.other_inode is None
                ==> lookup is ReadOtherInode
            &&& passed && node.has_storage && seen.dentry is Some && seen.dentry->0 is Found && seen.other_inode
                == Some(InodeRead::Failed) ==> faults(lookup, FsFault::ReadFailed)
            &&& passed && node.has_storage && seen.dentry is Some && seen.dentry->0 is Found && seen.other_inode
                == Some(InodeRead::Absent) ==> faults(lookup, FsFault::InodeNotFound(seen.dentry->0->Found_0))
            &&& passed && node.has_storage && seen.inode is None ==> read is ReadInode && list is ReadInode
            &&& passed && node.has_storage && seen.inode == Some(InodeRead::Failed) ==> faults(
                read,
                FsFault::ReadFailed,
            ) && faults(list, FsFault::ReadFailed)
            &&& passed && node.has_storage && is_there(seen.inode) && rpc is GetXattr && seen.work is None
                ==> read is FindXattr
            &&& passed && node.has_storage && is_there(seen.inode) && seen.inode->0->Found_0.kind == InodeKind::Dir
                && seen.work is None ==> list is ListEntries
            &&& passed && node.has_storage && is_there(seen.inode) && seen.inode->0->Found_0.kind == InodeKind::Dir
                && seen.work == Some(false) ==> faults(list, FsFault::ReadFailed) && list->Answer_0.body
                == FsBody::EmptyLastPage
            &&& list is Answer && list->Answer_0.body == FsBody::EmptyLastPage ==> is_there(seen.inode)
        }),
{
}

/// The first thing in the way of work on a file is told.
pub proof fn law_work_stops_at_the_first_obstacle(
    rpc: FileRpc,
    inode_id: InodeId,
    under: SessionRpc,
    file_handle: u64,
    caller: FsCaller,
    node: MetadataFsServiceImpl,
    seen: FsSeen,
)
    ensures
        ({
            let step = fs_service::file_next(rpc, Some(inode_id), caller, node, seen);
            let is_file = node.has_storage && is_there(seen.inode) && seen.inode->0->Found_0.kind == InodeKind::File;
            &&& !node.has_storage ==> faults(step, FsFault::StorageUnavailable)
            &&& node.has_storage && seen.inode == Some(InodeRead::Failed) ==> faults(step, FsFault::ReadFailed)
            &&& is_file && seen.guard == Some(false) ==> faults(step, FsFault::GuardRefused)
            &&& is_file && was_granted(seen.guard) && seen.work == Some(false) ==> faults(step, FsFault::CoreFailed)
        }),
        ({
            let step = fs_service::session_next(under, file_handle, caller, seen);
            let has_session = seen.session is Some && seen.session->0 is Some;
            let passed = has_session && was_granted(seen.guard);
            &&& has_session && seen.guard == Some(false) ==> faults(step, FsFault::GuardRefused)
            &&& passed && under is CloseWrite && seen.extents == Some(false) ==> faults(step, FsFault::BadExtent)
            &&& passed && (under is CloseWrite ==> seen.extents == Some(true)) && seen.work == Some(false) ==> faults(
                step,
                FsFault::CoreFailed,
            )
        }),
{
}

/// The first thing in the way of a change of attributes or of a truncation is told.
pub proof fn law_inode_writes_stop_at_the_first_obstacle(
    req: SetAttrRequest,
    cut: TruncateRequest,
    inode_id: InodeId,
    node: MetadataFsServiceImpl,
    seen: FsSeen,
    ctx: RoutedFsWriteCtx,
)
    requires
        req.inode_id == Some(inode_id),
        cut.inode_id == Some(inode_id),
    ensures
        ({
            let step = fs_service::set_attr_next(req, node, seen);
            let read = node.has_storage && is_there(seen.inode);
            let passed = read && went_to(seen, ctx) && was_granted(seen.guard);
            &&& !node.has_storage ==> faults(step, FsFault::StorageUnavailable)
            &&& node.has_storage && seen.inode is None ==> step is ReadInode
            &&& node.has_storage && seen.inode == Some(InodeRead::Failed) ==> faults(step, FsFault::ReadFailed)
            &&& read && went_to(seen, ctx) && seen.guard == Some(false) ==> faults(step, FsFault::GuardRefused)
                && tells_nothing(step)
            &&& passed && req.attrs is None ==> faults(step, FsFault::Missing(Field::FileAttrs)) && tells_route(
                step,
                ctx,
                false,
            )
            &&& passed && req.attrs is Some && req.caller.client_id.raw == 0 ==> faults(step, FsFault::NoClientId)
                && tells_route(step, ctx, false)
            &&& passed && req.attrs is Some && req.caller.client_id.raw != 0 && seen.proposed is Some && !(
            seen.proposed->0 is Fault) ==> {
                &&& seen.updated == Some(InodeRead::Failed) ==> faults(step, FsFault::ReadFailed) && tells_route(
                    step,
                    ctx,
                    false,
                )
                &&& seen.updated == Some(InodeRead::Absent) ==> faults(step, FsFault::InodeDisappeared) && tells_route(
                    step,
                    ctx,
                    false,
                )
            }
        }),
        ({
            let step = fs_service::truncate_next(cut, node, seen);
            let is_file = node.has_storage && is_there(seen.inode) && seen.inode->0->Found_0.kind == InodeKind::File;
            &&& !node.has_storage ==> faults(step, FsFault::StorageUnavailable)
            &&& node.has_storage && seen.inode == Some(InodeRead::Failed) ==> faults(step, FsFault::ReadFailed)
            &&& node.has_storage && seen.inode == Some(InodeRead::Absent) ==> faults(
                step,
                FsFault::InodeNotFound(inode_id),
            )
            &&& is_file && seen.guard == Some(false) ==> faults(step, FsFault::GuardRefused)
            &&& is_file && was_granted(seen.guard) && cut.lease_id is None ==> faults(
                step,
                FsFault::Missing(Field::LeaseId),
            )
            &&& is_file && was_granted(seen.guard) && cut.lease_id is Some && was_granted(seen.lease) && cut.new_size
                < seen.inode->0->Found_0.size && went_to(seen, ctx) && cut.caller.client_id.raw == 0 ==> faults(
                step,
                FsFault::NoClientId,
            ) && tells_route(step, ctx, false)
        }),
{
}

/// The first thing in the way of a change of an entry is told.
pub proof fn law_entry_writes_stop_at_the_first_obstacle<'a>(
    dir: MkdirRequest<'a>,
    file: CreateRequest<'a>,
    rpc: RemoveRpc,
    gone: RemoveRequest<'a>,
    put: XattrRpc<'a>,
    named: XattrRequest<'a>,
    inode_id: InodeId,
    node: MetadataFsServiceImpl,
    seen: FsSeen,
    ctx: RoutedFsWriteCtx,
)
    requires
        dir.parent_inode_id == Some(inode_id),
        file.parent_inode_id == Some(inode_id),
        gone.parent_inode_id == Some(inode_id),
        named.inode_id == Some(inode_id),
        went_to(seen, ctx),
    ensures
        ({
            let step = fs_service::mkdir_next(dir, node, seen);
            let read = node.has_storage && is_there(seen.other_inode);
            let passed = read && was_granted(seen.guard);
            &&& !node.has_storage ==> faults(step, FsFault::StorageUnavailable) && tells_route(step, ctx, false)
            &&& node.has_storage && seen.other_inode == Some(InodeRead::Failed) ==> faults(step, FsFault::ReadFailed)
                && tells_route(step, ctx, false)
            &&& read && seen.guard == Some(false) ==> faults(step, FsFault::GuardRefused) && tells_nothing(step)
            &&& passed && dir.attrs is None ==> faults(step, FsFault::Missing(Field::FileAttrs)) && tells_route(
                step,
                ctx,
                false,
            )
            &&& passed && dir.attrs is Some && dir.caller.client_id.raw == 0 ==> faults(step, FsFault::NoClientId)
                && tells_route(step, ctx, false)
        }),
        ({
            let step = fs_service::create_next(file, seen);
            let passed = was_granted(seen.guard);
            &&& seen.guard == Some(false) ==> faults(step, FsFault::GuardRefused) && tells_nothing(step)
            &&& passed && file.attrs is None ==> faults(step, FsFault::Missing(Field::FileAttrs)) && tells_route(
                step,
                ctx,
                false,
            )
            &&& passed && file.attrs is Some && file.layout is None ==> faults(
                step,
                FsFault::Missing(Field::FileLayout),
            ) && tells_route(step, ctx, false)
            &&& passed && file.attrs is Some && file.layout is Some && file.caller.client_id.raw == 0 ==> faults(
                step,
                FsFault::NoClientId,
            ) && tells_route(step, ctx, false)
        }),
        ({
            let step = fs_service::remove_next(rpc, gone, seen);
            &&& seen.guard == Some(false) ==> faults(step, FsFault::GuardRefused) && tells_nothing(step)
            &&& was_granted(seen.guard) && gone.caller.client_id.raw == 0 ==> faults(step, FsFault::NoClientId)
                && tells_nothing(step)
        }),
        ({
            let step = fs_service::xattr_next(put, named, seen);
            &&& seen.guard == Some(false) ==> faults(step, FsFault::GuardRefused) && tells_nothing(step)
            &&& was_granted(seen.guard) && named.caller.client_id.raw == 0 ==> faults(step, FsFault::NoClientId)
                && tells_route(step, ctx, false)
        }),
{
}

/// The first thing in the way of a rename is told.
pub proof fn law_renames_stop_at_the_first_obstacle(
    req: RenameRequest,
    source: InodeId,
    destination: InodeId,
    node: MetadataFsServiceImpl,
    seen: FsSeen,
    ctx: RoutedFsWriteCtx,
)
    requires
        req.flags == 0 || req.flags == 1,
    ensures
        ({
            let step = fs_service::rename_next(req, node, seen);
            let named = req.src_parent_inode_id == Some(source) && req.dst_parent_inode_id == Some(destination);
            let both = named && node.has_storage && is_there(seen.inode) && is_there(seen.other_inode);
            let one_mount = both && seen.inode->0->Found_0.mount_id == seen.other_inode->0->Found_0.mount_id;
            let passed = one_mount && went_to(seen, ctx) && was_granted(seen.guard);
            let alone = req.flags == 0 || !node.is_leader || (req.caller.state_id is Some && node.last_applied
                is None);
            &&& req.src_parent_inode_id is None ==> faults(step, FsFault::Missing(Field::SrcParentInodeId))
            &&& req.src_parent_inode_id is Some && req.dst_parent_inode_id is None ==> faults(
                step,
                FsFault::Missing(Field::DstParentInodeId),
            )
            &&& named && !node.has_storage ==> faults(step, FsFault::StorageUnavailable)
            &&& named && node.has_storage && seen.inode == Some(InodeRead::Failed) ==> faults(
                step,
                FsFault::ReadFailed,
            )
            &&& named && node.has_storage && is_there(seen.inode) && seen.other_inode == Some(InodeRead::Failed)
                ==> faults(step, FsFault::ReadFailed)
            &&& both && !one_mount && seen.mount is None ==> step is ReadMount
            &&& both && !one_mount && seen.mount == Some(MountRead::Failed) ==> faults(step, FsFault::ReadFailed)
            &&& both && !one_mount && seen.mount == Some(MountRead::Absent) ==> faults(
                step,
                FsFault::MountDisappeared,
            )
            &&& one_mount && went_to(seen, ctx) && seen.guard == Some(false) ==> faults(step, FsFault::GuardRefused)
                && tells_nothing(step)
            &&& one_mount && seen.route is Some && seen.route->0 is Fault && !(
            seen.route->0->Fault_0 is MountEpochMismatch) ==> faults(step, seen.route->0->Fault_0)
            &&& one_mount && seen.route is Some && seen.route->0 is Fault && seen.route->0->Fault_0
                is MountEpochMismatch ==> (if seen.mount is None {
                step is ReadMount
            } else {
                faults(step, seen.route->0->Fault_0)
            })
            &&& passed && !node.has_raft ==> faults(step, FsFault::RaftUnavailable) && tells_route(step, ctx, false)
            &&& passed && node.has_raft && alone && req.caller.client_id.raw == 0 ==> faults(
                step,
                FsFault::NoClientId,
            ) && tells_route(step, ctx, false)
            &&& passed && node.has_raft && req.flags == 1 && node.is_leader && req.caller.state_id is None
                && seen.dentry == Some(DentryRead::Failed) ==> faults(step, FsFault::ReadFailed) && tells_route(
                step,
                ctx,
                false,
            )
        }),
{
}

/// A client whose mount epoch is old is told the one that the mount has now, or the one that it was
/// measured by where the mount could not be looked at again; and for a change of attributes, a new
/// directory and a rename the mount is looked at again.
pub proof fn law_old_epochs_are_told_the_epoch_of_now<'a>(
    req: SetAttrRequest,
    dir: MkdirRequest<'a>,
    inode_id: InodeId,
    node: MetadataFsServiceImpl,
    seen: FsSeen,
    expected: u64,
    got: u64,
)
    requires
        req.inode_id == Some(inode_id),
        dir.parent_inode_id == Some(inode_id),
        node.has_storage,
        seen.route == Some(Routed::Fault(FsFault::MountEpochMismatch { expected, got })),
    ensures
        ({
            let step = fs_service::set_attr_next(req, node, seen);
            &&& is_there(seen.inode) && seen.mount is None ==> step == FsStep::ReadMount(
                seen.inode->0->Found_0.mount_id,
            )
            &&& is_there(seen.inode) && seen.mount is Some ==> (step matches FsStep::Answer(answer) && answer.fault
                == Some(FsFault::MountEpochMismatch { expected, got }) && answer.mount_epoch == (
            match seen.mount->0 {
                MountRead::Found(mount) => Some(mount.mount_epoch),
                _ => Some(expected),
            }))
        }),
        ({
            let step = fs_service::mkdir_next(dir, node, seen);
            &&& seen.other_inode is None ==> step == FsStep::ReadOtherInode(inode_id)
            &&& is_there(seen.other_inode) && seen.mount is None ==> step == FsStep::ReadMount(
                seen.other_inode->0->Found_0.mount_id,
            )
            &&& is_there(seen.other_inode) && seen.mount is Some ==> (step matches FsStep::Answer(answer)
                && answer.fault == Some(FsFault::MountEpochMismatch { expected, got }) && answer.mount_epoch == (
            match seen.mount->0 {
                MountRead::Found(mount) => Some(mount.mount_epoch),
                _ => Some(expected),
            }))
            &&& seen.other_inode is Some && !is_there(seen.other_inode) ==> (step matches FsStep::Answer(answer)
                && answer.fault == Some(FsFault::MountEpochMismatch { expected, got }) && answer.mount_epoch == Some(
                expected,
            ))
        }),
{
}

} // verus!
