//! Filesystem requests by inode: which question comes next, and what the answer is.
//!
//! Each request is a function of what it carries and what has been seen so far. It gives the
//! next step: something to find out or to do, or the answer. Whoever runs it does the step, adds
//! what came of it to what was seen, and asks again.

use crate::ids::{CallId, ClientId, InodeId, LeaseId, MountId, RaftLogId, ShardGroupId};
use crate::raft::RaftView;
use crate::service::inputs;
use crate::service::inputs::{
    Barrier, DedupKey, FileLayout, FileRange, Freshness, HeaderEpochs, LeaseProof, WireLayout, WireRange,
};
use crate::service::replies;
use crate::service::replies::WireLeaseId;
use crate::service::wire;
use crate::service::wire::{FileAttrs, WireFileAttrs};
use crate::write_target::{FencingToken, WriteMode};
use crate::service::fs_types::{
    AuthzAsk, AuthzOp, AuthzTarget, DataIoOp, DentryRead, Field, FsFault, FsWriteOp, GuardCall, GuardSpec, InodeKind,
    InodeRead, MountRead, RoutedFsWriteCtx, SessionFacts, Unoffered,
};
use vstd::prelude::*;

verus! {

/// Requests that are authorized.
#[derive(Clone, Copy, Debug, PartialEq, Eq, Structural)]
pub enum FsRpcAuthz {
    Lookup,
    GetAttr,
    SetAttr,
    Mkdir,
    Create,
    ReadDir,
    Unlink,
    Rmdir,
    Rename,
    Open,
    Release,
    Fsync,
    OpenWrite,
    CloseWrite,
    GetFileLayout,
    RenewInodeLease,
    Truncate,
    SetXattr,
    GetXattr,
    ListXattr,
    RemoveXattr,
}

/// The right that a request needs.
pub open spec fn right_for(rpc: FsRpcAuthz) -> AuthzOp {
    match rpc {
        FsRpcAuthz::Lookup | FsRpcAuthz::GetAttr | FsRpcAuthz::ReadDir | FsRpcAuthz::Open => AuthzOp::Read,
        FsRpcAuthz::Unlink | FsRpcAuthz::Rmdir => AuthzOp::Delete,
        FsRpcAuthz::Rename => AuthzOp::Rename,
        FsRpcAuthz::SetXattr | FsRpcAuthz::GetXattr | FsRpcAuthz::ListXattr | FsRpcAuthz::RemoveXattr =>
            AuthzOp::Xattr,
        _ => AuthzOp::Write,
    }
}

/// What authorization is asked for a request.
pub fn authz_for_rpc(rpc: FsRpcAuthz, target: AuthzTarget) -> (ask: AuthzAsk)
    ensures
        ask == (AuthzAsk { op: right_for(rpc), target }),
{
    let op = match rpc {
        FsRpcAuthz::Lookup | FsRpcAuthz::GetAttr | FsRpcAuthz::ReadDir | FsRpcAuthz::Open => AuthzOp::Read,
        FsRpcAuthz::SetAttr | FsRpcAuthz::Mkdir | FsRpcAuthz::Create => AuthzOp::Write,
        FsRpcAuthz::Unlink | FsRpcAuthz::Rmdir => AuthzOp::Delete,
        FsRpcAuthz::Rename => AuthzOp::Rename,
        FsRpcAuthz::GetXattr | FsRpcAuthz::ListXattr | FsRpcAuthz::SetXattr | FsRpcAuthz::RemoveXattr =>
            AuthzOp::Xattr,
        FsRpcAuthz::Release
        | FsRpcAuthz::Fsync
        | FsRpcAuthz::OpenWrite
        | FsRpcAuthz::CloseWrite
        | FsRpcAuthz::GetFileLayout
        | FsRpcAuthz::RenewInodeLease
        | FsRpcAuthz::Truncate => AuthzOp::Write,
    };
    AuthzAsk { op, target }
}

/// The service on one node: what the node can do, and how far it has applied its log.
#[derive(Clone, Copy, Debug, PartialEq, Eq, Structural)]
pub struct MetadataFsServiceImpl {
    pub has_storage: bool,
    pub has_raft: bool,
    pub is_leader: bool,
    pub last_applied: Option<RaftLogId>,
}

impl MetadataFsServiceImpl {
    /// A node without storage and without raft.
    pub fn new() -> (service: Self)
        ensures
            service == (MetadataFsServiceImpl {
                has_storage: false,
                has_raft: false,
                is_leader: false,
                last_applied: None,
            }),
    {
        MetadataFsServiceImpl { has_storage: false, has_raft: false, is_leader: false, last_applied: None }
    }

    /// With storage for inodes and entries.
    pub fn with_storage(self) -> (service: Self)
        ensures
            service == (MetadataFsServiceImpl { has_storage: true, ..self }),
    {
        MetadataFsServiceImpl {
            has_storage: true,
            has_raft: self.has_raft,
            is_leader: self.is_leader,
            last_applied: self.last_applied,
        }
    }

    /// With a raft node, as it stands now.
    pub fn with_raft_node(self, raft_node: &RaftView) -> (service: Self)
        ensures
            service == (MetadataFsServiceImpl {
                has_storage: self.has_storage,
                has_raft: true,
                is_leader: raft_node.is_leader,
                last_applied: raft_node.last_applied,
            }),
    {
        MetadataFsServiceImpl {
            has_storage: self.has_storage,
            has_raft: true,
            is_leader: raft_node.is_leader,
            last_applied: raft_node.last_applied,
        }
    }
}

/// What the request's header says of its caller.
#[derive(Clone, Copy, Debug, PartialEq, Eq, Structural)]
pub struct FsCaller {
    pub client_id: ClientId,
    pub call_id: CallId,
    pub mount_epoch: Option<u64>,
    pub route_epoch: Option<u64>,
    pub state_id: Option<RaftLogId>,
}

impl FsCaller {
    pub open spec fn spec_dedup(self) -> DedupKey {
        DedupKey { client_id: self.client_id, call_id: self.call_id }
    }

    pub open spec fn spec_epochs(self) -> HeaderEpochs {
        HeaderEpochs { mount_epoch: self.mount_epoch, route_epoch: self.route_epoch }
    }

    /// The epochs that the caller knows.
    pub fn epochs(&self) -> (epochs: HeaderEpochs)
        ensures
            epochs == self.spec_epochs(),
    {
        HeaderEpochs { mount_epoch: self.mount_epoch, route_epoch: self.route_epoch }
    }
}

/// What routing a write gave.
#[derive(Clone, Copy, Debug, PartialEq, Eq, Structural)]
pub enum Routed {
    To(RoutedFsWriteCtx),
    Fault(FsFault),
}

/// What a command gave.
#[derive(Clone, Copy, Debug, PartialEq, Eq, Structural)]
pub enum Proposed {
    /// It was not carried out.
    Fault(FsFault),
    /// It was carried out and succeeded; a new file has a data handle.
    Done(Option<u64>),
    /// It was carried out and failed.
    Failed,
}

/// What has been seen so far. Nothing stands for what was not asked.
#[derive(Clone, Copy, Debug, PartialEq, Eq, Structural)]
pub struct FsSeen {
    /// Whether the guard let the request through.
    pub guard: Option<bool>,
    /// The inode that the request names, or the source parent.
    pub inode: Option<InodeRead>,
    /// The destination parent, the child that was found, or the parent read once more.
    pub other_inode: Option<InodeRead>,
    pub dentry: Option<DentryRead>,
    pub mount: Option<MountRead>,
    pub route: Option<Routed>,
    /// Whether the lease is in force.
    pub lease: Option<bool>,
    /// The write session of the handle, if there is one.
    pub session: Option<Option<SessionFacts>>,
    pub proposed: Option<Proposed>,
    /// The inode after the write.
    pub updated: Option<InodeRead>,
    /// Whether the extents that the request carries make sense.
    pub extents: Option<bool>,
    /// Whether the listing, the attribute or the core's work succeeded.
    pub work: Option<bool>,
}

impl FsSeen {
    pub open spec fn spec_nothing() -> FsSeen {
        FsSeen {
            guard: None,
            inode: None,
            other_inode: None,
            dentry: None,
            mount: None,
            route: None,
            lease: None,
            session: None,
            proposed: None,
            updated: None,
            extents: None,
            work: None,
        }
    }

    /// Nothing seen yet.
    pub fn nothing() -> (seen: Self)
        ensures
            seen == Self::spec_nothing(),
    {
        FsSeen {
            guard: None,
            inode: None,
            other_inode: None,
            dentry: None,
            mount: None,
            route: None,
            lease: None,
            session: None,
            proposed: None,
            updated: None,
            extents: None,
            work: None,
        }
    }
}

/// What an answer carries besides its header.
#[derive(Clone, Copy, Debug, PartialEq, Eq, Structural)]
pub enum FsBody {
    Empty,
    /// The inode that was found, with its attributes.
    FoundInode,
    /// The attributes of the inode that was read.
    InodeAttrs,
    /// The attributes of the inode after the write.
    UpdatedAttrs,
    DataHandle(u64),
    NewSize(u64),
    /// An empty page that is the last.
    EmptyLastPage,
    /// What the listing, the attribute or the core's work gave.
    Work,
    /// The names of the extended attributes of the inode that was read.
    XattrNames,
    FileHandle(u64),
}

/// An answer: the fault if there is one, what the header tells, and what comes with it.
#[derive(Clone, Copy, Debug, PartialEq, Eq, Structural)]
pub struct FsAnswer {
    pub fault: Option<FsFault>,
    pub group_id: Option<ShardGroupId>,
    pub mount_epoch: Option<u64>,
    pub state_id: Option<RaftLogId>,
    pub body: FsBody,
}

/// Commands for the log.
#[derive(Clone, Copy, Debug, PartialEq, Eq)]
pub enum FsCommand<'a> {
    SetAttr { dedup: DedupKey, inode_id: InodeId, mask: u32, attrs: FileAttrs },
    Mkdir { dedup: DedupKey, parent_inode_id: InodeId, name: &'a str, attrs: FileAttrs },
    Create { dedup: DedupKey, parent_inode_id: InodeId, name: &'a str, attrs: FileAttrs, layout: FileLayout },
    Unlink { dedup: DedupKey, parent_inode_id: InodeId, name: &'a str },
    Rmdir { dedup: DedupKey, parent_inode_id: InodeId, name: &'a str },
    Rename {
        dedup: DedupKey,
        src_parent_inode_id: InodeId,
        src_name: &'a str,
        dst_parent_inode_id: InodeId,
        dst_name: &'a str,
        flags: u32,
    },
    Truncate { dedup: DedupKey, inode_id: InodeId, new_size: u64, lease_id: LeaseId, lease_epoch: u64 },
    SetXattr { dedup: DedupKey, inode_id: InodeId, name: &'a str, value: &'a [u8], create: bool, replace: bool },
    RemoveXattr { dedup: DedupKey, inode_id: InodeId, name: &'a str },
}

/// The kind under which a command is counted.
pub open spec fn op_of(command: FsCommand) -> FsWriteOp {
    match command {
        FsCommand::Mkdir { .. } => FsWriteOp::Mkdir,
        FsCommand::Create { .. } => FsWriteOp::Create,
        FsCommand::Unlink { .. } => FsWriteOp::Unlink,
        FsCommand::Rmdir { .. } => FsWriteOp::Rmdir,
        FsCommand::Rename { .. } => FsWriteOp::Rename,
        _ => FsWriteOp::SetAttr,
    }
}

/// The kind under which a command is counted.
pub fn write_op(command: FsCommand) -> (op: FsWriteOp)
    ensures
        op == op_of(command),
{
    match command {
        FsCommand::Mkdir { .. } => FsWriteOp::Mkdir,
        FsCommand::Create { .. } => FsWriteOp::Create,
        FsCommand::Unlink { .. } => FsWriteOp::Unlink,
        FsCommand::Rmdir { .. } => FsWriteOp::Rmdir,
        FsCommand::Rename { .. } => FsWriteOp::Rename,
        FsCommand::SetAttr { .. } => FsWriteOp::SetAttr,
        FsCommand::Truncate { .. } => FsWriteOp::SetAttr,
        FsCommand::SetXattr { .. } => FsWriteOp::SetAttr,
        FsCommand::RemoveXattr { .. } => FsWriteOp::SetAttr,
    }
}

/// Work of the core on a request.
#[derive(Clone, Copy, Debug, PartialEq, Eq, Structural)]
#[allow(inconsistent_fields)]
pub enum CoreCall {
    OpenWrite { inode_id: InodeId, desired_len: Option<u64>, mode: WriteMode, freshness: Freshness },
    /// With the extents that were converted.
    CloseWrite { file_handle: u64, lease: LeaseProof, final_size: u64, freshness: Freshness },
    GetFileLayout { inode_id: InodeId, range: Option<FileRange>, freshness: Freshness },
    RenewLease { file_handle: u64, lease_id: Option<LeaseId>, lease_epoch: u64, freshness: Freshness },
    Fsync {
        inode_id: InodeId,
        file_handle: Option<u64>,
        lease_id: Option<LeaseId>,
        lease_epoch: Option<u64>,
        fencing_token: Option<FencingToken>,
        target_size: Option<u64>,
        flags: i32,
        freshness: Freshness,
    },
    Release { file_handle: u64 },
}

/// What comes next.
#[derive(Clone, Copy, Debug, PartialEq, Eq)]
#[allow(inconsistent_fields)]
pub enum FsStep<'a> {
    AskGuard(GuardCall),
    /// Read the inode that the request names, or the source parent.
    ReadInode(InodeId),
    /// Read the destination parent, the child that was found, or the parent once more.
    ReadOtherInode(InodeId),
    /// Read the entry of this name in this directory.
    ReadDentry(InodeId, &'a str),
    ReadMount(MountId),
    /// Find where the write goes.
    Route { op: FsWriteOp, first: InodeId, second: Option<InodeId> },
    CheckLease { inode_id: InodeId, lease_id: LeaseId, lease_epoch: u64 },
    FindSession(u64),
    Propose(FsCommand<'a>),
    /// Read the inode after the write.
    ReadUpdated(InodeId),
    /// List the directory from its start, or behind the cursor.
    ListEntries { parent_inode_id: InodeId, cursor: Option<&'a [u8]>, limit: Option<u32> },
    /// Look up this extended attribute on the inode that was read.
    FindXattr(&'a str),
    ConvertExtents,
    CallCore(CoreCall),
    Answer(FsAnswer),
}

/// A fault, with a header that tells nothing more.
pub open spec fn plain_fault<'a>(fault: FsFault) -> FsStep<'a> {
    FsStep::Answer(FsAnswer { fault: Some(fault), group_id: None, mount_epoch: None, state_id: None, body: FsBody::Empty })
}

fn refuse<'a>(fault: FsFault) -> (step: FsStep<'a>)
    ensures
        step == plain_fault(fault),
{
    FsStep::Answer(FsAnswer { fault: Some(fault), group_id: None, mount_epoch: None, state_id: None, body: FsBody::Empty })
}

/// A fault after routing: the header names the group and the mount epoch.
pub open spec fn routed_fault<'a>(ctx: RoutedFsWriteCtx, fault: FsFault) -> FsStep<'a> {
    FsStep::Answer(
        FsAnswer {
            fault: Some(fault),
            group_id: Some(ctx.namespace_owner_group_id),
            mount_epoch: Some(ctx.mount_epoch),
            state_id: None,
            body: FsBody::Empty,
        },
    )
}

fn refuse_routed<'a>(ctx: RoutedFsWriteCtx, fault: FsFault) -> (step: FsStep<'a>)
    ensures
        step == routed_fault(ctx, fault),
{
    FsStep::Answer(
        FsAnswer {
            fault: Some(fault),
            group_id: Some(ctx.namespace_owner_group_id),
            mount_epoch: Some(ctx.mount_epoch),
            state_id: None,
            body: FsBody::Empty,
        },
    )
}

/// Success before routing.
pub open spec fn plain_ok<'a>(body: FsBody) -> FsStep<'a> {
    FsStep::Answer(FsAnswer { fault: None, group_id: None, mount_epoch: None, state_id: None, body })
}

fn accept<'a>(body: FsBody) -> (step: FsStep<'a>)
    ensures
        step == plain_ok(body),
{
    FsStep::Answer(FsAnswer { fault: None, group_id: None, mount_epoch: None, state_id: None, body })
}

/// Success of a routed write. Some answers tell the state that was known when it was routed.
pub open spec fn routed_ok<'a>(ctx: RoutedFsWriteCtx, tell_state: bool, body: FsBody) -> FsStep<'a> {
    FsStep::Answer(
        FsAnswer {
            fault: None,
            group_id: Some(ctx.namespace_owner_group_id),
            mount_epoch: Some(ctx.mount_epoch),
            state_id: if tell_state {
                ctx.latest_state_id
            } else {
                None
            },
            body,
        },
    )
}

fn accept_routed<'a>(ctx: RoutedFsWriteCtx, tell_state: bool, body: FsBody) -> (step: FsStep<'a>)
    ensures
        step == routed_ok(ctx, tell_state, body),
{
    FsStep::Answer(
        FsAnswer {
            fault: None,
            group_id: Some(ctx.namespace_owner_group_id),
            mount_epoch: Some(ctx.mount_epoch),
            state_id: if tell_state {
                ctx.latest_state_id
            } else {
                None
            },
            body,
        },
    )
}

/// The guard is asked with authorization.
pub open spec fn guard_step<'a>(spec: GuardSpec, mount_id: Option<MountId>, rpc: FsRpcAuthz, target: AuthzTarget) -> FsStep<'a> {
    FsStep::AskGuard(
        GuardCall {
            spec: spec.spec_with_authz(),
            mount_id,
            authz: Some(AuthzAsk { op: right_for(rpc), target }),
        },
    )
}

fn ask_guard<'a>(spec: GuardSpec, mount_id: Option<MountId>, rpc: FsRpcAuthz, target: AuthzTarget) -> (step: FsStep<'a>)
    ensures
        step == guard_step(spec, mount_id, rpc, target),
{
    FsStep::AskGuard(
        GuardCall { spec: spec.with_authz(), mount_id, authz: Some(authz_for_rpc(rpc, target)) },
    )
}

/// What a routing fault is answered with. A client with an old mount epoch is told the epoch
/// that holds.
pub open spec fn route_refusal<'a>(fault: FsFault, epoch_now: Option<u64>) -> FsStep<'a> {
    match fault {
        FsFault::MountEpochMismatch { expected, .. } => FsStep::Answer(
            FsAnswer {
                fault: Some(fault),
                group_id: None,
                mount_epoch: match epoch_now {
                    Some(epoch) => Some(epoch),
                    None => Some(expected),
                },
                state_id: None,
                body: FsBody::Empty,
            },
        ),
        _ => plain_fault(fault),
    }
}

fn refuse_route<'a>(fault: FsFault, epoch_now: Option<u64>) -> (step: FsStep<'a>)
    ensures
        step == route_refusal(fault, epoch_now),
{
    match fault {
        FsFault::MountEpochMismatch { expected, .. } => FsStep::Answer(
            FsAnswer {
                fault: Some(fault),
                group_id: None,
                mount_epoch: match epoch_now {
                    Some(epoch) => Some(epoch),
                    None => Some(expected),
                },
                state_id: None,
                body: FsBody::Empty,
            },
        ),
        _ => refuse(fault),
    }
}

/// The epoch of a mount that was read.
pub open spec fn epoch_of(mount: MountRead) -> Option<u64> {
    match mount {
        MountRead::Found(m) => Some(m.mount_epoch),
        _ => None,
    }
}

fn epoch_in(mount: MountRead) -> (epoch: Option<u64>)
    ensures
        epoch == epoch_of(mount),
{
    match mount {
        MountRead::Found(m) => Some(m.mount_epoch),
        _ => None,
    }
}

// ---------------------------------------------------------------------------------------------
// Routing
// ---------------------------------------------------------------------------------------------

/// What comes next in routing a write.
#[derive(Clone, Copy, Debug, PartialEq, Eq, Structural)]
pub enum RouteStep {
    ReadInode(InodeId),
    ReadMount(MountId),
    Done(Routed),
}

/// The fault of the first read that did not give an inode of the mount, if any did not.
pub open spec fn first_read_fault(ids: Seq<InodeId>, reads: Seq<InodeRead>, from: int, mount_id: MountId) -> Option<FsFault>
    decreases reads.len() - from,
{
    if from >= reads.len() {
        None
    } else {
        match reads[from] {
            InodeRead::Failed => Some(FsFault::ReadFailed),
            InodeRead::Absent => Some(FsFault::ParentNotFound(ids[from])),
            InodeRead::Found(inode) => if inode.mount_id != mount_id {
                Some(FsFault::CrossMount)
            } else {
                first_read_fault(ids, reads, from + 1, mount_id)
            },
        }
    }
}

/// Routing: all inodes lie in one mount, the mount is known, and the client's mount epoch, where
/// it gives one, is the one that holds.
pub open spec fn route_next(
    has_storage: bool,
    ids: Seq<InodeId>,
    reads: Seq<InodeRead>,
    mount: Option<MountRead>,
    client_epoch: Option<u64>,
    latest: Option<RaftLogId>,
) -> RouteStep {
    if !has_storage {
        RouteStep::Done(Routed::Fault(FsFault::StorageUnavailable))
    } else if ids.len() == 0 {
        RouteStep::Done(Routed::Fault(FsFault::NoParent))
    } else if reads.len() == 0 {
        RouteStep::ReadInode(ids[0])
    } else {
        match reads[0] {
            InodeRead::Failed => RouteStep::Done(Routed::Fault(FsFault::ReadFailed)),
            InodeRead::Absent => RouteStep::Done(Routed::Fault(FsFault::ParentNotFound(ids[0]))),
            InodeRead::Found(first) => match first_read_fault(ids, reads, 1, first.mount_id) {
                Some(fault) => RouteStep::Done(Routed::Fault(fault)),
                None => if reads.len() < ids.len() {
                    RouteStep::ReadInode(ids[reads.len() as int])
                } else {
                    match mount {
                        None => RouteStep::ReadMount(first.mount_id),
                        Some(MountRead::Failed) => RouteStep::Done(Routed::Fault(FsFault::ReadFailed)),
                        Some(MountRead::Absent) => RouteStep::Done(
                            Routed::Fault(FsFault::MountNotFound(first.mount_id)),
                        ),
                        Some(MountRead::Found(entry)) => if client_epoch is Some && client_epoch->0
                            != entry.mount_epoch {
                            RouteStep::Done(
                                Routed::Fault(
                                    FsFault::MountEpochMismatch { expected: entry.mount_epoch, got: client_epoch->0 },
                                ),
                            )
                        } else {
                            RouteStep::Done(
                                Routed::To(
                                    RoutedFsWriteCtx {
                                        mount_id: first.mount_id,
                                        namespace_owner_group_id: entry.namespace_owner_group_id,
                                        mount_epoch: entry.mount_epoch,
                                        latest_state_id: latest,
                                    },
                                ),
                            )
                        },
                    }
                },
            },
        }
    }
}

/// Routes a write to the group that owns the namespace of its inodes.
pub fn route_fs_write_ctx(
    has_storage: bool,
    ids: &Vec<InodeId>,
    reads: &Vec<InodeRead>,
    mount: Option<MountRead>,
    client_epoch: Option<u64>,
    latest: Option<RaftLogId>,
) -> (step: RouteStep)
    requires
        reads@.len() <= ids@.len(),
    ensures
        step == route_next(has_storage, ids@, reads@, mount, client_epoch, latest),
{
    if !has_storage {
        return RouteStep::Done(Routed::Fault(FsFault::StorageUnavailable));
    }
    if ids.len() == 0 {
        return RouteStep::Done(Routed::Fault(FsFault::NoParent));
    }
    if reads.len() == 0 {
        return RouteStep::ReadInode(ids[0]);
    }
    let mount_id = match reads[0] {
        InodeRead::Failed => {
            return RouteStep::Done(Routed::Fault(FsFault::ReadFailed));
        },
        InodeRead::Absent => {
            return RouteStep::Done(Routed::Fault(FsFault::ParentNotFound(ids[0])));
        },
        InodeRead::Found(first) => first.mount_id,
    };
    let mut i: usize = 1;
    while i < reads.len()
        invariant
            1 <= i <= reads@.len(),
            reads@.len() <= ids@.len(),
            has_storage,
            reads@[0] == InodeRead::Found(reads@[0]->Found_0),
            reads@[0]->Found_0.mount_id == mount_id,
            first_read_fault(ids@, reads@, 1, mount_id) == first_read_fault(ids@, reads@, i as int, mount_id),
        decreases reads@.len() - i,
    {
        match reads[i] {
            InodeRead::Failed => {
                return RouteStep::Done(Routed::Fault(FsFault::ReadFailed));
            },
            InodeRead::Absent => {
                return RouteStep::Done(Routed::Fault(FsFault::ParentNotFound(ids[i])));
            },
            InodeRead::Found(inode) => {
                if inode.mount_id != mount_id {
                    return RouteStep::Done(Routed::Fault(FsFault::CrossMount));
                }
            },
        }
        i += 1;
    }
    if reads.len() < ids.len() {
        return RouteStep::ReadInode(ids[reads.len()]);
    }
    match mount {
        None => RouteStep::ReadMount(mount_id),
        Some(MountRead::Failed) => RouteStep::Done(Routed::Fault(FsFault::ReadFailed)),
        Some(MountRead::Absent) => RouteStep::Done(Routed::Fault(FsFault::MountNotFound(mount_id))),
        Some(MountRead::Found(entry)) => {
            match client_epoch {
                Some(got) => {
                    if got != entry.mount_epoch {
                        return RouteStep::Done(
                            Routed::Fault(FsFault::MountEpochMismatch { expected: entry.mount_epoch, got }),
                        );
                    }
                },
                None => {},
            }
            RouteStep::Done(
                Routed::To(
                    RoutedFsWriteCtx {
                        mount_id,
                        namespace_owner_group_id: entry.namespace_owner_group_id,
                        mount_epoch: entry.mount_epoch,
                        latest_state_id: latest,
                    },
                ),
            )
        },
    }
}

// ---------------------------------------------------------------------------------------------
// Proposing
// ---------------------------------------------------------------------------------------------

/// What was recorded of a call that was carried out before.
#[derive(Clone, Copy, Debug, PartialEq, Eq, Structural)]
pub struct AppliedCall {
    /// Whether that call carried the same command.
    pub same_command: bool,
    /// Its result, where it was that of a filesystem command.
    pub result: Option<Proposed>,
}

/// What looking for an earlier call gave.
#[derive(Clone, Copy, Debug, PartialEq, Eq, Structural)]
pub enum AppliedRead {
    Failed,
    Absent,
    Found(AppliedCall),
}

/// What the log made of a command.
#[derive(Clone, Copy, Debug, PartialEq, Eq, Structural)]
pub enum LogReply {
    Failed,
    /// Its result, where it was that of a filesystem command.
    Applied(Option<Proposed>),
}

/// What comes next in proposing a command.
#[derive(Clone, Copy, Debug, PartialEq, Eq, Structural)]
pub enum ProposeStep {
    FindApplied,
    Append,
    Done(Proposed),
}

/// Proposing: a call that was carried out before gives its result again and is not appended a
/// second time; the same call with another command is an error.
pub open spec fn propose_next(
    has_raft: bool,
    has_storage: bool,
    call_id: CallId,
    applied: Option<AppliedRead>,
    reply: Option<LogReply>,
) -> ProposeStep {
    if !has_raft {
        ProposeStep::Done(Proposed::Fault(FsFault::RaftUnavailable))
    } else if has_storage && applied is None {
        ProposeStep::FindApplied
    } else if has_storage && applied == Some(AppliedRead::Failed) {
        ProposeStep::Done(Proposed::Fault(FsFault::ReadFailed))
    } else if has_storage && applied->0 is Found {
        let earlier = applied->0->Found_0;
        if !earlier.same_command {
            ProposeStep::Done(Proposed::Fault(FsFault::CallReused(call_id)))
        } else {
            ProposeStep::Done(
                match earlier.result {
                    Some(result) => result,
                    None => Proposed::Done(None),
                },
            )
        }
    } else {
        match reply {
            None => ProposeStep::Append,
            Some(LogReply::Failed) => ProposeStep::Done(Proposed::Fault(FsFault::ProposeFailed)),
            Some(LogReply::Applied(result)) => ProposeStep::Done(
                match result {
                    Some(result) => result,
                    None => Proposed::Done(None),
                },
            ),
        }
    }
}

/// Proposes a command, once per call.
pub fn propose_fs_write_command(
    has_raft: bool,
    has_storage: bool,
    call_id: CallId,
    applied: Option<AppliedRead>,
    reply: Option<LogReply>,
) -> (step: ProposeStep)
    ensures
        step == propose_next(has_raft, has_storage, call_id, applied, reply),
{
    if !has_raft {
        return ProposeStep::Done(Proposed::Fault(FsFault::RaftUnavailable));
    }
    if has_storage {
        match applied {
            None => {
                return ProposeStep::FindApplied;
            },
            Some(AppliedRead::Failed) => {
                return ProposeStep::Done(Proposed::Fault(FsFault::ReadFailed));
            },
            Some(AppliedRead::Found(earlier)) => {
                if !earlier.same_command {
                    return ProposeStep::Done(Proposed::Fault(FsFault::CallReused(call_id)));
                }
                return ProposeStep::Done(
                    match earlier.result {
                        Some(result) => result,
                        None => Proposed::Done(None),
                    },
                );
            },
            Some(AppliedRead::Absent) => {},
        }
    }
    match reply {
        None => ProposeStep::Append,
        Some(LogReply::Failed) => ProposeStep::Done(Proposed::Fault(FsFault::ProposeFailed)),
        Some(LogReply::Applied(result)) => ProposeStep::Done(
            match result {
                Some(result) => result,
                None => Proposed::Done(None),
            },
        ),
    }
}

/// The call, if its caller can be told apart from others, so that the call is carried out once.
pub open spec fn dedup_of(caller: FsCaller) -> Option<DedupKey> {
    if caller.client_id.raw == 0 {
        None
    } else {
        Some(caller.spec_dedup())
    }
}

/// The call, if its caller can be told apart from others.
pub fn dedup_key(caller: &FsCaller) -> (key: Option<DedupKey>)
    ensures
        key == dedup_of(*caller),
{
    if caller.client_id.raw == 0 {
        None
    } else {
        Some(DedupKey { client_id: caller.client_id, call_id: caller.call_id })
    }
}

// ---------------------------------------------------------------------------------------------
// Reads
// ---------------------------------------------------------------------------------------------

/// Lookup of a name in a directory.
pub open spec fn lookup_next<'a>(parent: Option<InodeId>, name: &'a str, node: MetadataFsServiceImpl, seen: FsSeen) -> FsStep<'a> {
    if parent is None {
        plain_fault(FsFault::Missing(Field::ParentInodeId))
    } else if seen.guard is None {
        guard_step(
            GuardSpec::spec_metadata_read(),
            None,
            FsRpcAuthz::Lookup,
            AuthzTarget::spec_for_inode(parent->0),
        )
    } else if seen.guard == Some(false) {
        plain_fault(FsFault::GuardRefused)
    } else if !node.has_storage {
        plain_fault(FsFault::StorageUnavailable)
    } else if seen.dentry is None {
        FsStep::ReadDentry(parent->0, name)
    } else if seen.dentry == Some(DentryRead::Failed) {
        plain_fault(FsFault::ReadFailed)
    } else if seen.dentry == Some(DentryRead::Absent) {
        plain_fault(FsFault::EntryNotFound(parent->0))
    } else if seen.other_inode is None {
        FsStep::ReadOtherInode(seen.dentry->0->Found_0)
    } else if seen.other_inode == Some(InodeRead::Failed) {
        plain_fault(FsFault::ReadFailed)
    } else if seen.other_inode == Some(InodeRead::Absent) {
        plain_fault(FsFault::InodeNotFound(seen.dentry->0->Found_0))
    } else {
        plain_ok(FsBody::FoundInode)
    }
}

impl MetadataFsServiceImpl {
    /// Lookup of a name in a directory.
    pub fn lookup<'a>(&self, parent: Option<InodeId>, name: &'a str, seen: &FsSeen) -> (step: FsStep<'a>)
        ensures
            step == lookup_next(parent, name, *self, *seen),
    {
        let parent = match parent {
            Some(parent) => parent,
            None => {
                return refuse(FsFault::Missing(Field::ParentInodeId));
            },
        };
        match seen.guard {
            None => {
                return ask_guard(
                    GuardSpec::metadata_read(),
                    None,
                    FsRpcAuthz::Lookup,
                    AuthzTarget::for_inode(parent),
                );
            },
            Some(passed) => {
                if !passed {
                    return refuse(FsFault::GuardRefused);
                }
            },
        }
        if !self.has_storage {
            return refuse(FsFault::StorageUnavailable);
        }
        let child = match seen.dentry {
            None => {
                return FsStep::ReadDentry(parent, name);
            },
            Some(DentryRead::Failed) => {
                return refuse(FsFault::ReadFailed);
            },
            Some(DentryRead::Absent) => {
                return refuse(FsFault::EntryNotFound(parent));
            },
            Some(DentryRead::Found(child)) => child,
        };
        match seen.other_inode {
            None => FsStep::ReadOtherInode(child),
            Some(InodeRead::Failed) => refuse(FsFault::ReadFailed),
            Some(InodeRead::Absent) => refuse(FsFault::InodeNotFound(child)),
            Some(InodeRead::Found(_)) => accept(FsBody::FoundInode),
        }
    }
}

/// Requests that read one inode: its attributes, one extended attribute, or the names of all.
#[derive(Clone, Copy, Debug, PartialEq, Eq)]
pub enum InodeReadRpc<'a> {
    GetAttr,
    GetXattr(&'a str),
    ListXattr,
}

pub open spec fn read_rpc_authz(rpc: InodeReadRpc) -> FsRpcAuthz {
    match rpc {
        InodeReadRpc::GetAttr => FsRpcAuthz::GetAttr,
        InodeReadRpc::GetXattr(_) => FsRpcAuthz::GetXattr,
        InodeReadRpc::ListXattr => FsRpcAuthz::ListXattr,
    }
}

/// A read of one inode.
pub open spec fn read_inode_next<'a>(rpc: InodeReadRpc<'a>, inode_id: Option<InodeId>, node: MetadataFsServiceImpl, seen: FsSeen) -> FsStep<'a> {
    if inode_id is None {
        plain_fault(FsFault::Missing(Field::InodeId))
    } else if seen.guard is None {
        guard_step(
            GuardSpec::spec_metadata_read(),
            None,
            read_rpc_authz(rpc),
            AuthzTarget::spec_for_inode(inode_id->0),
        )
    } else if seen.guard == Some(false) {
        plain_fault(FsFault::GuardRefused)
    } else if !node.has_storage {
        plain_fault(FsFault::StorageUnavailable)
    } else if seen.inode is None {
        FsStep::ReadInode(inode_id->0)
    } else if seen.inode == Some(InodeRead::Failed) {
        plain_fault(FsFault::ReadFailed)
    } else if seen.inode == Some(InodeRead::Absent) {
        plain_fault(FsFault::InodeNotFound(inode_id->0))
    } else {
        match rpc {
            InodeReadRpc::GetAttr => plain_ok(FsBody::InodeAttrs),
            InodeReadRpc::ListXattr => plain_ok(FsBody::XattrNames),
            InodeReadRpc::GetXattr(name) => if seen.work is None {
                FsStep::FindXattr(name)
            } else if seen.work == Some(false) {
                plain_fault(FsFault::XattrNotFound)
            } else {
                plain_ok(FsBody::Work)
            },
        }
    }
}

fn read_one_inode<'a>(rpc: InodeReadRpc<'a>, inode_id: Option<InodeId>, node: &MetadataFsServiceImpl, seen: &FsSeen) -> (step: FsStep<'a>)
    ensures
        step == read_inode_next(rpc, inode_id, *node, *seen),
{
    let inode_id = match inode_id {
        Some(inode_id) => inode_id,
        None => {
            return refuse(FsFault::Missing(Field::InodeId));
        },
    };
    let authz = match rpc {
        InodeReadRpc::GetAttr => FsRpcAuthz::GetAttr,
        InodeReadRpc::GetXattr(_) => FsRpcAuthz::GetXattr,
        InodeReadRpc::ListXattr => FsRpcAuthz::ListXattr,
    };
    match seen.guard {
        None => {
            return ask_guard(GuardSpec::metadata_read(), None, authz, AuthzTarget::for_inode(inode_id));
        },
        Some(passed) => {
            if !passed {
                return refuse(FsFault::GuardRefused);
            }
        },
    }
    if !node.has_storage {
        return refuse(FsFault::StorageUnavailable);
    }
    match seen.inode {
        None => FsStep::ReadInode(inode_id),
        Some(InodeRead::Failed) => refuse(FsFault::ReadFailed),
        Some(InodeRead::Absent) => refuse(FsFault::InodeNotFound(inode_id)),
        Some(InodeRead::Found(_)) => match rpc {
            InodeReadRpc::GetAttr => accept(FsBody::InodeAttrs),
            InodeReadRpc::ListXattr => accept(FsBody::XattrNames),
            InodeReadRpc::GetXattr(name) => match seen.work {
                None => FsStep::FindXattr(name),
                Some(found) => if found {
                    accept(FsBody::Work)
                } else {
                    refuse(FsFault::XattrNotFound)
                },
            },
        },
    }
}

impl MetadataFsServiceImpl {
    /// The attributes of an inode.
    pub fn get_attr<'a>(&self, inode_id: Option<InodeId>, seen: &FsSeen) -> (step: FsStep<'a>)
        ensures
            step == read_inode_next(InodeReadRpc::GetAttr, inode_id, *self, *seen),
    {
        read_one_inode(InodeReadRpc::GetAttr, inode_id, self, seen)
    }

    /// One extended attribute of an inode.
    pub fn get_xattr<'a>(&self, inode_id: Option<InodeId>, name: &'a str, seen: &FsSeen) -> (step: FsStep<'a>)
        ensures
            step == read_inode_next(InodeReadRpc::GetXattr(name), inode_id, *self, *seen),
    {
        read_one_inode(InodeReadRpc::GetXattr(name), inode_id, self, seen)
    }

    /// The names of the extended attributes of an inode.
    pub fn list_xattr<'a>(&self, inode_id: Option<InodeId>, seen: &FsSeen) -> (step: FsStep<'a>)
        ensures
            step == read_inode_next(InodeReadRpc::ListXattr, inode_id, *self, *seen),
    {
        read_one_inode(InodeReadRpc::ListXattr, inode_id, self, seen)
    }
}

/// A fault with an empty page that is the last.
pub open spec fn page_fault<'a>(fault: FsFault) -> FsStep<'a> {
    FsStep::Answer(
        FsAnswer {
            fault: Some(fault),
            group_id: None,
            mount_epoch: None,
            state_id: None,
            body: FsBody::EmptyLastPage,
        },
    )
}

/// The page size that a request asks for; 0 asks for no limit.
pub open spec fn page_limit(max_entries: u32) -> Option<u32> {
    if max_entries == 0 {
        None
    } else {
        Some(max_entries)
    }
}

/// Where a page starts: an empty cursor asks for the first page.
pub open spec fn page_cursor<'a>(cursor_key: &'a [u8]) -> Option<&'a [u8]> {
    if cursor_key@.len() == 0 {
        None
    } else {
        Some(cursor_key)
    }
}

/// What a page of a directory is asked for with: an empty cursor asks for the first page.
#[derive(Clone, Copy, Debug, PartialEq, Eq)]
pub struct ReadDirRequest<'a> {
    pub parent_inode_id: Option<InodeId>,
    pub cursor_key: &'a [u8],
    pub max_entries: u32,
}

/// A page of a directory.
pub open spec fn read_dir_next<'a>(req: ReadDirRequest<'a>, node: MetadataFsServiceImpl, seen: FsSeen) -> FsStep<'a> {
    let parent = req.parent_inode_id;
    if parent is None {
        plain_fault(FsFault::Missing(Field::ParentInodeId))
    } else if seen.guard is None {
        guard_step(
            GuardSpec::spec_metadata_read(),
            None,
            FsRpcAuthz::ReadDir,
            AuthzTarget::spec_for_inode(parent->0),
        )
    } else if seen.guard == Some(false) {
        plain_fault(FsFault::GuardRefused)
    } else if !node.has_storage {
        plain_fault(FsFault::StorageUnavailable)
    } else if seen.inode is None {
        FsStep::ReadInode(parent->0)
    } else if seen.inode == Some(InodeRead::Failed) {
        plain_fault(FsFault::ReadFailed)
    } else if seen.inode == Some(InodeRead::Absent) {
        plain_fault(FsFault::ParentNotFound(parent->0))
    } else if seen.inode->0->Found_0.kind != InodeKind::Dir {
        page_fault(FsFault::NotADirectory(parent->0))
    } else if seen.work is None {
        FsStep::ListEntries {
            parent_inode_id: parent->0,
            cursor: page_cursor(req.cursor_key),
            limit: page_limit(req.max_entries),
        }
    } else if seen.work == Some(false) {
        page_fault(FsFault::ReadFailed)
    } else {
        plain_ok(FsBody::Work)
    }
}

impl MetadataFsServiceImpl {
    /// A page of a directory.
    pub fn read_dir<'a>(&self, req: &ReadDirRequest<'a>, seen: &FsSeen) -> (step: FsStep<'a>)
        ensures
            step == read_dir_next(*req, *self, *seen),
    {
        let parent = match req.parent_inode_id {
            Some(parent) => parent,
            None => {
                return refuse(FsFault::Missing(Field::ParentInodeId));
            },
        };
        match seen.guard {
            None => {
                return ask_guard(
                    GuardSpec::metadata_read(),
                    None,
                    FsRpcAuthz::ReadDir,
                    AuthzTarget::for_inode(parent),
                );
            },
            Some(passed) => {
                if !passed {
                    return refuse(FsFault::GuardRefused);
                }
            },
        }
        if !self.has_storage {
            return refuse(FsFault::StorageUnavailable);
        }
        let facts = match seen.inode {
            None => {
                return FsStep::ReadInode(parent);
            },
            Some(InodeRead::Failed) => {
                return refuse(FsFault::ReadFailed);
            },
            Some(InodeRead::Absent) => {
                return refuse(FsFault::ParentNotFound(parent));
            },
            Some(InodeRead::Found(facts)) => facts,
        };
        let empty_page = FsAnswer {
            fault: None,
            group_id: None,
            mount_epoch: None,
            state_id: None,
            body: FsBody::EmptyLastPage,
        };
        if facts.kind != InodeKind::Dir {
            return FsStep::Answer(FsAnswer { fault: Some(FsFault::NotADirectory(parent)), ..empty_page });
        }
        match seen.work {
            None => FsStep::ListEntries {
                parent_inode_id: parent,
                cursor: if req.cursor_key.len() == 0 {
                    None
                } else {
                    Some(req.cursor_key)
                },
                limit: if req.max_entries == 0 {
                    None
                } else {
                    Some(req.max_entries)
                },
            },
            Some(listed) => if listed {
                accept(FsBody::Work)
            } else {
                FsStep::Answer(FsAnswer { fault: Some(FsFault::ReadFailed), ..empty_page })
            },
        }
    }
}

/// Opening for reading: the guard is all there is to it.
pub open spec fn open_next<'a>(inode_id: Option<InodeId>, seen: FsSeen) -> FsStep<'a> {
    if seen.guard is None {
        FsStep::AskGuard(
            GuardCall {
                spec: GuardSpec::spec_metadata_read().spec_with_authz(),
                mount_id: None,
                authz: match inode_id {
                    Some(id) => Some(
                        AuthzAsk { op: right_for(FsRpcAuthz::Open), target: AuthzTarget::spec_for_inode(id) },
                    ),
                    None => None,
                },
            },
        )
    } else if seen.guard == Some(false) {
        plain_fault(FsFault::GuardRefused)
    } else {
        plain_ok(FsBody::FileHandle(0))
    }
}

impl MetadataFsServiceImpl {
    /// Opening for reading.
    pub fn open<'a>(&self, inode_id: Option<InodeId>, seen: &FsSeen) -> (step: FsStep<'a>)
        ensures
            step == open_next(inode_id, *seen),
    {
        match seen.guard {
            None => FsStep::AskGuard(
                GuardCall {
                    spec: GuardSpec::metadata_read().with_authz(),
                    mount_id: None,
                    authz: match inode_id {
                        Some(id) => Some(authz_for_rpc(FsRpcAuthz::Open, AuthzTarget::for_inode(id))),
                        None => None,
                    },
                },
            ),
            Some(passed) => if passed {
                accept(FsBody::FileHandle(0))
            } else {
                refuse(FsFault::GuardRefused)
            },
        }
    }
}

/// Requests that are not offered.
pub fn not_offered<'a>(what: Unoffered) -> (step: FsStep<'a>)
    ensures
        step == plain_fault(FsFault::NotOffered(what)),
{
    refuse(FsFault::NotOffered(what))
}

// ---------------------------------------------------------------------------------------------
// Data
// ---------------------------------------------------------------------------------------------

/// Requests that the core carries out on a file.
#[derive(Clone, Copy, Debug, PartialEq, Eq, Structural)]
#[allow(inconsistent_fields)]
pub enum FileRpc {
    OpenWrite { desired_len: Option<u64>, mode: WriteMode },
    GetFileLayout { range: Option<WireRange> },
    Fsync(Barrier),
}

pub open spec fn file_rpc_authz(rpc: FileRpc) -> FsRpcAuthz {
    match rpc {
        FileRpc::OpenWrite { .. } => FsRpcAuthz::OpenWrite,
        FileRpc::GetFileLayout { .. } => FsRpcAuthz::GetFileLayout,
        FileRpc::Fsync(_) => FsRpcAuthz::Fsync,
    }
}

/// Writing needs the leader, reading does not.
pub open spec fn file_rpc_guard(rpc: FileRpc) -> GuardSpec {
    match rpc {
        FileRpc::OpenWrite { .. } => GuardSpec::spec_data_io(DataIoOp::OpenWrite).spec_with_leader(),
        FileRpc::GetFileLayout { .. } => GuardSpec::spec_data_io(DataIoOp::Read),
        FileRpc::Fsync(_) => GuardSpec::spec_data_io(DataIoOp::Fsync).spec_with_leader(),
    }
}

/// The barrier as the core takes it.
pub open spec fn fsync_call(inode_id: InodeId, barrier: Barrier, caller: FsCaller) -> CoreCall {
    CoreCall::Fsync {
        inode_id,
        file_handle: barrier.file_handle,
        lease_id: barrier.lease_id,
        lease_epoch: barrier.lease_epoch,
        fencing_token: barrier.fencing_token,
        target_size: barrier.target_size,
        flags: barrier.flags as i32,
        freshness: inputs::fresh_at_barrier(Some(caller.spec_epochs()), barrier.route_epoch, barrier.worker_epoch),
    }
}

/// What the core is asked to do, with what the caller knows.
pub open spec fn file_rpc_call(rpc: FileRpc, inode_id: InodeId, caller: FsCaller) -> CoreCall {
    match rpc {
        FileRpc::OpenWrite { desired_len, mode } => CoreCall::OpenWrite {
            inode_id,
            desired_len,
            mode,
            freshness: inputs::fresh_by(Some(caller.spec_epochs())),
        },
        FileRpc::GetFileLayout { range } => CoreCall::GetFileLayout {
            inode_id,
            range: inputs::range_told(range),
            freshness: inputs::fresh_by(Some(caller.spec_epochs())),
        },
        FileRpc::Fsync(barrier) => fsync_call(inode_id, barrier, caller),
    }
}

fn call_for_file(rpc: FileRpc, inode_id: InodeId, caller: &FsCaller) -> (call: CoreCall)
    ensures
        call == file_rpc_call(rpc, inode_id, *caller),
{
    match rpc {
        FileRpc::OpenWrite { desired_len, mode } => CoreCall::OpenWrite {
            inode_id,
            desired_len,
            mode,
            freshness: inputs::freshness_from_header(Some(caller.epochs())),
        },
        FileRpc::GetFileLayout { range } => CoreCall::GetFileLayout {
            inode_id,
            range: inputs::range_from_wire(range),
            freshness: inputs::freshness_from_header(Some(caller.epochs())),
        },
        FileRpc::Fsync(barrier) => CoreCall::Fsync {
            inode_id,
            file_handle: barrier.file_handle,
            lease_id: barrier.lease_id,
            lease_epoch: barrier.lease_epoch,
            fencing_token: barrier.fencing_token,
            target_size: barrier.target_size,
            flags: barrier.flags as i32,
            freshness: inputs::barrier_freshness(Some(caller.epochs()), barrier.route_epoch, barrier.worker_epoch),
        },
    }
}

/// A request on a file: it must exist and be a file, its mount must let data through, and the
/// core does the rest.
pub open spec fn file_next<'a>(rpc: FileRpc, inode_id: Option<InodeId>, caller: FsCaller, node: MetadataFsServiceImpl, seen: FsSeen) -> FsStep<'a> {
    if inode_id is None {
        plain_fault(FsFault::Missing(Field::InodeId))
    } else if !node.has_storage {
        plain_fault(FsFault::StorageUnavailable)
    } else if seen.inode is None {
        FsStep::ReadInode(inode_id->0)
    } else if seen.inode == Some(InodeRead::Failed) {
        plain_fault(FsFault::ReadFailed)
    } else if seen.inode == Some(InodeRead::Absent) {
        plain_fault(FsFault::InodeNotFound(inode_id->0))
    } else if seen.inode->0->Found_0.kind != InodeKind::File {
        plain_fault(FsFault::NotAFile(inode_id->0))
    } else if seen.guard is None {
        guard_step(
            file_rpc_guard(rpc),
            Some(seen.inode->0->Found_0.mount_id),
            file_rpc_authz(rpc),
            AuthzTarget::spec_for_inode(inode_id->0),
        )
    } else if seen.guard == Some(false) {
        plain_fault(FsFault::GuardRefused)
    } else {
        core_next(file_rpc_call(rpc, inode_id->0, caller), seen)
    }
}

/// The core's work and what came of it.
pub open spec fn core_next<'a>(call: CoreCall, seen: FsSeen) -> FsStep<'a> {
    if seen.work is None {
        FsStep::CallCore(call)
    } else if seen.work == Some(false) {
        plain_fault(FsFault::CoreFailed)
    } else {
        plain_ok(FsBody::Work)
    }
}

fn call_core<'a>(call: CoreCall, seen: &FsSeen) -> (step: FsStep<'a>)
    ensures
        step == core_next(call, *seen),
{
    match seen.work {
        None => FsStep::CallCore(call),
        Some(done) => if done {
            accept(FsBody::Work)
        } else {
            refuse(FsFault::CoreFailed)
        },
    }
}

fn on_file<'a>(
    rpc: FileRpc,
    inode_id: Option<InodeId>,
    caller: &FsCaller,
    node: &MetadataFsServiceImpl,
    seen: &FsSeen,
) -> (step: FsStep<'a>)
    ensures
        step == file_next(rpc, inode_id, *caller, *node, *seen),
{
    let inode_id = match inode_id {
        Some(inode_id) => inode_id,
        None => {
            return refuse(FsFault::Missing(Field::InodeId));
        },
    };
    if !node.has_storage {
        return refuse(FsFault::StorageUnavailable);
    }
    let facts = match seen.inode {
        None => {
            return FsStep::ReadInode(inode_id);
        },
        Some(InodeRead::Failed) => {
            return refuse(FsFault::ReadFailed);
        },
        Some(InodeRead::Absent) => {
            return refuse(FsFault::InodeNotFound(inode_id));
        },
        Some(InodeRead::Found(facts)) => facts,
    };
    if facts.kind != InodeKind::File {
        return refuse(FsFault::NotAFile(inode_id));
    }
    let (spec, authz) = match rpc {
        FileRpc::OpenWrite { .. } => (
            GuardSpec::data_io(DataIoOp::OpenWrite).with_leader(),
            FsRpcAuthz::OpenWrite,
        ),
        FileRpc::GetFileLayout { .. } => (GuardSpec::data_io(DataIoOp::Read), FsRpcAuthz::GetFileLayout),
        FileRpc::Fsync(_) => (GuardSpec::data_io(DataIoOp::Fsync).with_leader(), FsRpcAuthz::Fsync),
    };
    match seen.guard {
        None => {
            return ask_guard(spec, Some(facts.mount_id), authz, AuthzTarget::for_inode(inode_id));
        },
        Some(passed) => {
            if !passed {
                return refuse(FsFault::GuardRefused);
            }
        },
    }
    call_core(call_for_file(rpc, inode_id, caller), seen)
}

impl MetadataFsServiceImpl {
    /// Opening a file for writing, at its end or anywhere.
    pub fn open_write<'a>(
        &self,
        inode_id: Option<InodeId>,
        desired_len: Option<u64>,
        mode: WriteMode,
        caller: &FsCaller,
        seen: &FsSeen,
    ) -> (step: FsStep<'a>)
        ensures
            step == file_next(FileRpc::OpenWrite { desired_len, mode }, inode_id, *caller, *self, *seen),
    {
        on_file(FileRpc::OpenWrite { desired_len, mode }, inode_id, caller, self, seen)
    }

    /// Where the data of a file lies.
    pub fn get_file_layout<'a>(
        &self,
        inode_id: Option<InodeId>,
        range: Option<WireRange>,
        caller: &FsCaller,
        seen: &FsSeen,
    ) -> (step: FsStep<'a>)
        ensures
            step == file_next(FileRpc::GetFileLayout { range }, inode_id, *caller, *self, *seen),
    {
        on_file(FileRpc::GetFileLayout { range }, inode_id, caller, self, seen)
    }

    /// A barrier on a file's writes.
    pub fn fsync<'a>(&self, req: &FsyncRequest, seen: &FsSeen) -> (step: FsStep<'a>)
        ensures
            step == file_next(FileRpc::Fsync(req.barrier), req.inode_id, req.caller, *self, *seen),
    {
        on_file(FileRpc::Fsync(req.barrier), req.inode_id, &req.caller, self, seen)
    }

    /// A barrier whose body can be missing; with its body it is `fsync`.
    pub fn hsync<'a>(&self, fsync: Option<FsyncRequest>, seen: &FsSeen) -> (step: FsStep<'a>)
        ensures
            step == match fsync {
                None => plain_fault(FsFault::MissingFsyncBody),
                Some(req) => file_next(FileRpc::Fsync(req.barrier), req.inode_id, req.caller, *self, *seen),
            },
    {
        match fsync {
            None => refuse(FsFault::MissingFsyncBody),
            Some(req) => self.fsync(&req, seen),
        }
    }

    /// A flush whose body can be missing; with its body it is `fsync`.
    pub fn hflush<'a>(&self, fsync: Option<FsyncRequest>, seen: &FsSeen) -> (step: FsStep<'a>)
        ensures
            step == match fsync {
                None => plain_fault(FsFault::MissingFsyncBody),
                Some(req) => file_next(FileRpc::Fsync(req.barrier), req.inode_id, req.caller, *self, *seen),
            },
    {
        self.hsync(fsync, seen)
    }
}

/// What a barrier asks for.
#[derive(Clone, Copy, Debug, PartialEq, Eq, Structural)]
pub struct FsyncRequest {
    pub caller: FsCaller,
    pub inode_id: Option<InodeId>,
    pub barrier: Barrier,
}

/// Releasing a handle. One with a write session needs the leader and the mount's leave.
pub open spec fn release_next<'a>(file_handle: u64, seen: FsSeen) -> FsStep<'a> {
    if seen.session is None {
        FsStep::FindSession(file_handle)
    } else if seen.guard is None {
        match seen.session->0 {
            Some(session) => guard_step(
                GuardSpec::spec_data_io(DataIoOp::CloseWrite).spec_with_leader(),
                Some(session.mount_id),
                FsRpcAuthz::Release,
                AuthzTarget::spec_for_session(file_handle, Some(session.inode_id)),
            ),
            None => guard_step(
                GuardSpec::spec_metadata_read(),
                None,
                FsRpcAuthz::Release,
                AuthzTarget::spec_for_session(file_handle, None),
            ),
        }
    } else if seen.guard == Some(false) {
        plain_fault(FsFault::GuardRefused)
    } else {
        core_next(CoreCall::Release { file_handle }, seen)
    }
}

impl MetadataFsServiceImpl {
    /// Releasing a handle.
    pub fn release<'a>(&self, file_handle: u64, seen: &FsSeen) -> (step: FsStep<'a>)
        ensures
            step == release_next(file_handle, *seen),
    {
        let session = match seen.session {
            None => {
                return FsStep::FindSession(file_handle);
            },
            Some(session) => session,
        };
        match seen.guard {
            None => {
                return match session {
                    Some(session) => ask_guard(
                        GuardSpec::data_io(DataIoOp::CloseWrite).with_leader(),
                        Some(session.mount_id),
                        FsRpcAuthz::Release,
                        AuthzTarget::for_session(file_handle, Some(session.inode_id)),
                    ),
                    None => ask_guard(
                        GuardSpec::metadata_read(),
                        None,
                        FsRpcAuthz::Release,
                        AuthzTarget::for_session(file_handle, None),
                    ),
                };
            },
            Some(passed) => {
                if !passed {
                    return refuse(FsFault::GuardRefused);
                }
            },
        }
        call_core(CoreCall::Release { file_handle }, seen)
    }
}

/// Requests on an open write session.
#[derive(Clone, Copy, Debug, PartialEq, Eq, Structural)]
#[allow(inconsistent_fields)]
pub enum SessionRpc {
    CloseWrite { lease: LeaseProof, final_size: u64 },
    RenewInodeLease { lease_id: Option<LeaseId>, lease_epoch: u64 },
}

/// What the core is asked to do, with what the caller knows.
pub open spec fn session_rpc_call(rpc: SessionRpc, file_handle: u64, caller: FsCaller) -> CoreCall {
    let freshness = inputs::fresh_by(Some(caller.spec_epochs()));
    match rpc {
        SessionRpc::CloseWrite { lease, final_size } => CoreCall::CloseWrite {
            file_handle,
            lease,
            final_size,
            freshness,
        },
        SessionRpc::RenewInodeLease { lease_id, lease_epoch } => CoreCall::RenewLease {
            file_handle,
            lease_id,
            lease_epoch,
            freshness,
        },
    }
}

/// A request on a write session: there must be one, its mount must let data through, the extents
/// that a close brings must make sense, and the core does the rest.
pub open spec fn session_next<'a>(rpc: SessionRpc, file_handle: u64, caller: FsCaller, seen: FsSeen) -> FsStep<'a> {
    if seen.session is None {
        FsStep::FindSession(file_handle)
    } else if seen.session->0 is None {
        plain_fault(FsFault::SessionNotFound(file_handle))
    } else if seen.guard is None {
        let session = seen.session->0->0;
        guard_step(
            GuardSpec::spec_data_io(
                match rpc {
                    SessionRpc::CloseWrite { .. } => DataIoOp::CloseWrite,
                    SessionRpc::RenewInodeLease { .. } => DataIoOp::RenewLease,
                },
            ).spec_with_leader(),
            Some(session.mount_id),
            match rpc {
                SessionRpc::CloseWrite { .. } => FsRpcAuthz::CloseWrite,
                SessionRpc::RenewInodeLease { .. } => FsRpcAuthz::RenewInodeLease,
            },
            AuthzTarget::spec_for_session(file_handle, Some(session.inode_id)),
        )
    } else if seen.guard == Some(false) {
        plain_fault(FsFault::GuardRefused)
    } else if rpc is CloseWrite && seen.extents is None {
        FsStep::ConvertExtents
    } else if rpc is CloseWrite && seen.extents == Some(false) {
        plain_fault(FsFault::BadExtent)
    } else {
        core_next(session_rpc_call(rpc, file_handle, caller), seen)
    }
}

fn on_session<'a>(rpc: SessionRpc, file_handle: u64, caller: &FsCaller, seen: &FsSeen) -> (step: FsStep<'a>)
    ensures
        step == session_next(rpc, file_handle, *caller, *seen),
{
    let session = match seen.session {
        None => {
            return FsStep::FindSession(file_handle);
        },
        Some(None) => {
            return refuse(FsFault::SessionNotFound(file_handle));
        },
        Some(Some(session)) => session,
    };
    let freshness = inputs::freshness_from_header(Some(caller.epochs()));
    let (op, authz, call, closes) = match rpc {
        SessionRpc::CloseWrite { lease, final_size } => (
            DataIoOp::CloseWrite,
            FsRpcAuthz::CloseWrite,
            CoreCall::CloseWrite { file_handle, lease, final_size, freshness },
            true,
        ),
        SessionRpc::RenewInodeLease { lease_id, lease_epoch } => (
            DataIoOp::RenewLease,
            FsRpcAuthz::RenewInodeLease,
            CoreCall::RenewLease { file_handle, lease_id, lease_epoch, freshness },
            false,
        ),
    };
    match seen.guard {
        None => {
            return ask_guard(
                GuardSpec::data_io(op).with_leader(),
                Some(session.mount_id),
                authz,
                AuthzTarget::for_session(file_handle, Some(session.inode_id)),
            );
        },
        Some(passed) => {
            if !passed {
                return refuse(FsFault::GuardRefused);
            }
        },
    }
    if closes {
        match seen.extents {
            None => {
                return FsStep::ConvertExtents;
            },
            Some(sound) => {
                if !sound {
                    return refuse(FsFault::BadExtent);
                }
            },
        }
    }
    call_core(call, seen)
}

impl MetadataFsServiceImpl {
    /// Closing a write session.
    pub fn close_write<'a>(
        &self,
        file_handle: u64,
        lease: LeaseProof,
        final_size: u64,
        caller: &FsCaller,
        seen: &FsSeen,
    ) -> (step: FsStep<'a>)
        ensures
            step == session_next(SessionRpc::CloseWrite { lease, final_size }, file_handle, *caller, *seen),
    {
        on_session(SessionRpc::CloseWrite { lease, final_size }, file_handle, caller, seen)
    }

    /// Renewing the lease of a write session.
    pub fn renew_inode_lease<'a>(
        &self,
        file_handle: u64,
        lease_id: Option<LeaseId>,
        lease_epoch: u64,
        caller: &FsCaller,
        seen: &FsSeen,
    ) -> (step: FsStep<'a>)
        ensures
            step == session_next(
                SessionRpc::RenewInodeLease { lease_id, lease_epoch },
                file_handle,
                *caller,
                *seen,
            ),
    {
        on_session(SessionRpc::RenewInodeLease { lease_id, lease_epoch }, file_handle, caller, seen)
    }
}

// ---------------------------------------------------------------------------------------------
// Writes
// ---------------------------------------------------------------------------------------------

/// What a change of attributes asks for.
#[derive(Clone, Copy, Debug, PartialEq, Eq, Structural)]
pub struct SetAttrRequest {
    pub caller: FsCaller,
    pub inode_id: Option<InodeId>,
    /// Which attributes are changed.
    pub mask: u32,
    pub attrs: Option<WireFileAttrs>,
}

/// A change of attributes: the inode is read, the write routed and guarded, the command
/// proposed, and the inode read again.
pub open spec fn set_attr_next<'a>(req: SetAttrRequest, node: MetadataFsServiceImpl, seen: FsSeen) -> FsStep<'a> {
    if req.inode_id is None {
        plain_fault(FsFault::Missing(Field::InodeId))
    } else if !node.has_storage {
        plain_fault(FsFault::StorageUnavailable)
    } else if seen.inode is None {
        FsStep::ReadInode(req.inode_id->0)
    } else if seen.inode == Some(InodeRead::Failed) {
        plain_fault(FsFault::ReadFailed)
    } else if seen.inode == Some(InodeRead::Absent) {
        plain_fault(FsFault::InodeNotFound(req.inode_id->0))
    } else if seen.route is None {
        FsStep::Route { op: FsWriteOp::SetAttr, first: req.inode_id->0, second: None }
    } else if seen.route->0 is Fault {
        refuse_with_mount(seen.route->0->Fault_0, seen.inode->0->Found_0.mount_id, seen)
    } else if seen.guard is None {
        guard_step(
            GuardSpec::spec_metadata_write(),
            Some(seen.inode->0->Found_0.mount_id),
            FsRpcAuthz::SetAttr,
            AuthzTarget::spec_for_inode(req.inode_id->0),
        )
    } else if seen.guard == Some(false) {
        plain_fault(FsFault::GuardRefused)
    } else {
        let ctx = seen.route->0->To_0;
        if req.attrs is None {
            routed_fault(ctx, FsFault::Missing(Field::FileAttrs))
        } else if req.caller.client_id.raw == 0 {
            routed_fault(ctx, FsFault::NoClientId)
        } else if seen.proposed is None {
            FsStep::Propose(
                FsCommand::SetAttr {
                    dedup: req.caller.spec_dedup(),
                    inode_id: req.inode_id->0,
                    mask: req.mask,
                    attrs: wire::attrs_told(req.attrs->0),
                },
            )
        } else if seen.proposed->0 is Fault {
            routed_fault(ctx, seen.proposed->0->Fault_0)
        } else if seen.updated is None {
            FsStep::ReadUpdated(req.inode_id->0)
        } else if seen.updated == Some(InodeRead::Failed) {
            routed_fault(ctx, FsFault::ReadFailed)
        } else if seen.updated == Some(InodeRead::Absent) {
            routed_fault(ctx, FsFault::InodeDisappeared)
        } else {
            routed_ok(ctx, true, FsBody::UpdatedAttrs)
        }
    }
}

/// A routing fault, where an old mount epoch is answered with the epoch that the mount table
/// tells now, or else the one that routing found.
pub open spec fn refuse_with_mount<'a>(fault: FsFault, mount_id: MountId, seen: FsSeen) -> FsStep<'a> {
    if fault is MountEpochMismatch && seen.mount is None {
        FsStep::ReadMount(mount_id)
    } else {
        route_refusal(
            fault,
            match seen.mount {
                Some(mount) => epoch_of(mount),
                None => None,
            },
        )
    }
}

fn refuse_after_mount<'a>(fault: FsFault, mount_id: MountId, seen: &FsSeen) -> (step: FsStep<'a>)
    ensures
        step == refuse_with_mount(fault, mount_id, *seen),
{
    match fault {
        FsFault::MountEpochMismatch { .. } => match seen.mount {
            None => FsStep::ReadMount(mount_id),
            Some(mount) => refuse_route(fault, epoch_in(mount)),
        },
        _ => refuse_route(fault, None),
    }
}

impl MetadataFsServiceImpl {
    /// A change of attributes.
    pub fn set_attr<'a>(&self, req: &SetAttrRequest, seen: &FsSeen) -> (step: FsStep<'a>)
        ensures
            step == set_attr_next(*req, *self, *seen),
    {
        let inode_id = match req.inode_id {
            Some(inode_id) => inode_id,
            None => {
                return refuse(FsFault::Missing(Field::InodeId));
            },
        };
        if !self.has_storage {
            return refuse(FsFault::StorageUnavailable);
        }
        let facts = match seen.inode {
            None => {
                return FsStep::ReadInode(inode_id);
            },
            Some(InodeRead::Failed) => {
                return refuse(FsFault::ReadFailed);
            },
            Some(InodeRead::Absent) => {
                return refuse(FsFault::InodeNotFound(inode_id));
            },
            Some(InodeRead::Found(facts)) => facts,
        };
        let ctx = match seen.route {
            None => {
                return FsStep::Route { op: FsWriteOp::SetAttr, first: inode_id, second: None };
            },
            Some(Routed::Fault(fault)) => {
                return refuse_after_mount(fault, facts.mount_id, seen);
            },
            Some(Routed::To(ctx)) => ctx,
        };
        match seen.guard {
            None => {
                return ask_guard(
                    GuardSpec::metadata_write(),
                    Some(facts.mount_id),
                    FsRpcAuthz::SetAttr,
                    AuthzTarget::for_inode(inode_id),
                );
            },
            Some(passed) => {
                if !passed {
                    return refuse(FsFault::GuardRefused);
                }
            },
        }
        let attrs = match wire::proto_to_file_attrs(req.attrs) {
            Ok(attrs) => attrs,
            Err(_) => {
                return refuse_routed(ctx, FsFault::Missing(Field::FileAttrs));
            },
        };
        let dedup = match dedup_key(&req.caller) {
            Some(dedup) => dedup,
            None => {
                return refuse_routed(ctx, FsFault::NoClientId);
            },
        };
        match seen.proposed {
            None => {
                return FsStep::Propose(FsCommand::SetAttr { dedup, inode_id, mask: req.mask, attrs });
            },
            Some(Proposed::Fault(fault)) => {
                return refuse_routed(ctx, fault);
            },
            Some(_) => {},
        }
        match seen.updated {
            None => FsStep::ReadUpdated(inode_id),
            Some(InodeRead::Failed) => refuse_routed(ctx, FsFault::ReadFailed),
            Some(InodeRead::Absent) => refuse_routed(ctx, FsFault::InodeDisappeared),
            Some(InodeRead::Found(_)) => accept_routed(ctx, true, FsBody::UpdatedAttrs),
        }
    }
}

/// What making a directory asks for.
#[derive(Clone, Copy, Debug, PartialEq, Eq)]
pub struct MkdirRequest<'a> {
    pub caller: FsCaller,
    pub parent_inode_id: Option<InodeId>,
    pub name: &'a str,
    pub attrs: Option<WireFileAttrs>,
}

/// Making a directory: the write is routed, the parent read, the guard asked, the command
/// proposed.
pub open spec fn mkdir_next<'a>(req: MkdirRequest<'a>, node: MetadataFsServiceImpl, seen: FsSeen) -> FsStep<'a> {
    if req.parent_inode_id is None {
        plain_fault(FsFault::Missing(Field::ParentInodeId))
    } else if seen.route is None {
        FsStep::Route { op: FsWriteOp::Mkdir, first: req.parent_inode_id->0, second: None }
    } else if seen.route->0 is Fault {
        let fault = seen.route->0->Fault_0;
        if fault is MountEpochMismatch && node.has_storage {
            if seen.other_inode is None {
                FsStep::ReadOtherInode(req.parent_inode_id->0)
            } else if seen.other_inode->0 is Found {
                refuse_with_mount(fault, seen.other_inode->0->Found_0.mount_id, seen)
            } else {
                route_refusal(fault, None)
            }
        } else {
            route_refusal(fault, None)
        }
    } else {
        let ctx = seen.route->0->To_0;
        if !node.has_storage {
            routed_fault(ctx, FsFault::StorageUnavailable)
        } else if seen.other_inode is None {
            FsStep::ReadOtherInode(req.parent_inode_id->0)
        } else if seen.other_inode == Some(InodeRead::Failed) {
            routed_fault(ctx, FsFault::ReadFailed)
        } else if seen.other_inode == Some(InodeRead::Absent) {
            routed_fault(ctx, FsFault::ParentNotFound(req.parent_inode_id->0))
        } else if seen.guard is None {
            guard_step(
                GuardSpec::spec_metadata_write(),
                Some(seen.other_inode->0->Found_0.mount_id),
                FsRpcAuthz::Mkdir,
                AuthzTarget::spec_for_inode(req.parent_inode_id->0),
            )
        } else if seen.guard == Some(false) {
            plain_fault(FsFault::GuardRefused)
        } else if req.attrs is None {
            routed_fault(ctx, FsFault::Missing(Field::FileAttrs))
        } else if req.caller.client_id.raw == 0 {
            routed_fault(ctx, FsFault::NoClientId)
        } else if seen.proposed is None {
            FsStep::Propose(
                FsCommand::Mkdir {
                    dedup: req.caller.spec_dedup(),
                    parent_inode_id: req.parent_inode_id->0,
                    name: req.name,
                    attrs: wire::attrs_told(req.attrs->0),
                },
            )
        } else if seen.proposed->0 is Fault {
            routed_fault(ctx, seen.proposed->0->Fault_0)
        } else {
            routed_ok(ctx, true, FsBody::Empty)
        }
    }
}

impl MetadataFsServiceImpl {
    /// Making a directory.
    pub fn mkdir<'a>(&self, req: &MkdirRequest<'a>, seen: &FsSeen) -> (step: FsStep<'a>)
        ensures
            step == mkdir_next(*req, *self, *seen),
    {
        let parent = match req.parent_inode_id {
            Some(parent) => parent,
            None => {
                return refuse(FsFault::Missing(Field::ParentInodeId));
            },
        };
        let ctx = match seen.route {
            None => {
                return FsStep::Route { op: FsWriteOp::Mkdir, first: parent, second: None };
            },
            Some(Routed::Fault(fault)) => {
                return match fault {
                    FsFault::MountEpochMismatch { .. } => if self.has_storage {
                        match seen.other_inode {
                            None => FsStep::ReadOtherInode(parent),
                            Some(InodeRead::Found(facts)) => refuse_after_mount(fault, facts.mount_id, seen),
                            Some(_) => refuse_route(fault, None),
                        }
                    } else {
                        refuse_route(fault, None)
                    },
                    _ => refuse_route(fault, None),
                };
            },
            Some(Routed::To(ctx)) => ctx,
        };
        if !self.has_storage {
            return refuse_routed(ctx, FsFault::StorageUnavailable);
        }
        let facts = match seen.other_inode {
            None => {
                return FsStep::ReadOtherInode(parent);
            },
            Some(InodeRead::Failed) => {
                return refuse_routed(ctx, FsFault::ReadFailed);
            },
            Some(InodeRead::Absent) => {
                return refuse_routed(ctx, FsFault::ParentNotFound(parent));
            },
            Some(InodeRead::Found(facts)) => facts,
        };
        match seen.guard {
            None => {
                return ask_guard(
                    GuardSpec::metadata_write(),
                    Some(facts.mount_id),
                    FsRpcAuthz::Mkdir,
                    AuthzTarget::for_inode(parent),
                );
            },
            Some(passed) => {
                if !passed {
                    return refuse(FsFault::GuardRefused);
                }
            },
        }
        let attrs = match wire::proto_to_file_attrs(req.attrs) {
            Ok(attrs) => attrs,
            Err(_) => {
                return refuse_routed(ctx, FsFault::Missing(Field::FileAttrs));
            },
        };
        let dedup = match dedup_key(&req.caller) {
            Some(dedup) => dedup,
            None => {
                return refuse_routed(ctx, FsFault::NoClientId);
            },
        };
        match seen.proposed {
            None => FsStep::Propose(FsCommand::Mkdir { dedup, parent_inode_id: parent, name: req.name, attrs }),
            Some(Proposed::Fault(fault)) => refuse_routed(ctx, fault),
            Some(_) => accept_routed(ctx, true, FsBody::Empty),
        }
    }
}

/// What making a file asks for.
#[derive(Clone, Copy, Debug, PartialEq, Eq)]
pub struct CreateRequest<'a> {
    pub caller: FsCaller,
    pub parent_inode_id: Option<InodeId>,
    pub name: &'a str,
    pub attrs: Option<WireFileAttrs>,
    pub layout: Option<WireLayout>,
}

/// Making a file: the write is routed and guarded, the command proposed, and its result told.
pub open spec fn create_next<'a>(req: CreateRequest<'a>, seen: FsSeen) -> FsStep<'a> {
    if req.parent_inode_id is None {
        plain_fault(FsFault::Missing(Field::ParentInodeId))
    } else if seen.route is None {
        FsStep::Route { op: FsWriteOp::Create, first: req.parent_inode_id->0, second: None }
    } else if seen.route->0 is Fault {
        route_refusal(seen.route->0->Fault_0, None)
    } else if seen.guard is None {
        guard_step(
            GuardSpec::spec_metadata_write(),
            Some(seen.route->0->To_0.mount_id),
            FsRpcAuthz::Create,
            AuthzTarget::spec_for_inode(req.parent_inode_id->0),
        )
    } else if seen.guard == Some(false) {
        plain_fault(FsFault::GuardRefused)
    } else {
        let ctx = seen.route->0->To_0;
        if req.attrs is None {
            routed_fault(ctx, FsFault::Missing(Field::FileAttrs))
        } else if req.layout is None {
            routed_fault(ctx, FsFault::Missing(Field::FileLayout))
        } else if req.caller.client_id.raw == 0 {
            routed_fault(ctx, FsFault::NoClientId)
        } else if seen.proposed is None {
            FsStep::Propose(
                FsCommand::Create {
                    dedup: req.caller.spec_dedup(),
                    parent_inode_id: req.parent_inode_id->0,
                    name: req.name,
                    attrs: wire::attrs_told(req.attrs->0),
                    layout: inputs::layout_told(req.layout->0),
                },
            )
        } else {
            match seen.proposed->0 {
                Proposed::Fault(fault) => routed_fault(ctx, fault),
                Proposed::Failed => routed_fault(ctx, FsFault::CommandFailed),
                Proposed::Done(handle) => routed_ok(
                    ctx,
                    true,
                    FsBody::DataHandle(
                        match handle {
                            Some(h) => h,
                            None => 0,
                        },
                    ),
                ),
            }
        }
    }
}

impl MetadataFsServiceImpl {
    /// Making a file.
    pub fn create<'a>(&self, req: &CreateRequest<'a>, seen: &FsSeen) -> (step: FsStep<'a>)
        ensures
            step == create_next(*req, *seen),
    {
        let parent = match req.parent_inode_id {
            Some(parent) => parent,
            None => {
                return refuse(FsFault::Missing(Field::ParentInodeId));
            },
        };
        let ctx = match seen.route {
            None => {
                return FsStep::Route { op: FsWriteOp::Create, first: parent, second: None };
            },
            Some(Routed::Fault(fault)) => {
                return refuse_route(fault, None);
            },
            Some(Routed::To(ctx)) => ctx,
        };
        match seen.guard {
            None => {
                return ask_guard(
                    GuardSpec::metadata_write(),
                    Some(ctx.mount_id),
                    FsRpcAuthz::Create,
                    AuthzTarget::for_inode(parent),
                );
            },
            Some(passed) => {
                if !passed {
                    return refuse(FsFault::GuardRefused);
                }
            },
        }
        let attrs = match wire::proto_to_file_attrs(req.attrs) {
            Ok(attrs) => attrs,
            Err(_) => {
                return refuse_routed(ctx, FsFault::Missing(Field::FileAttrs));
            },
        };
        let layout = match inputs::proto_to_file_layout(req.layout) {
            Ok(layout) => layout,
            Err(_) => {
                return refuse_routed(ctx, FsFault::Missing(Field::FileLayout));
            },
        };
        let dedup = match dedup_key(&req.caller) {
            Some(dedup) => dedup,
            None => {
                return refuse_routed(ctx, FsFault::NoClientId);
            },
        };
        match seen.proposed {
            None => FsStep::Propose(
                FsCommand::Create { dedup, parent_inode_id: parent, name: req.name, attrs, layout },
            ),
            Some(Proposed::Fault(fault)) => refuse_routed(ctx, fault),
            Some(Proposed::Failed) => refuse_routed(ctx, FsFault::CommandFailed),
            Some(Proposed::Done(handle)) => accept_routed(
                ctx,
                true,
                FsBody::DataHandle(
                    match handle {
                        Some(h) => h,
                        None => 0,
                    },
                ),
            ),
        }
    }
}

/// Requests that take an entry out of a directory.
#[derive(Clone, Copy, Debug, PartialEq, Eq, Structural)]
pub enum RemoveRpc {
    Unlink,
    Rmdir,
}

pub open spec fn remove_op(rpc: RemoveRpc) -> FsWriteOp {
    match rpc {
        RemoveRpc::Unlink => FsWriteOp::Unlink,
        RemoveRpc::Rmdir => FsWriteOp::Rmdir,
    }
}

/// What taking an entry out of a directory asks for.
#[derive(Clone, Copy, Debug, PartialEq, Eq)]
pub struct RemoveRequest<'a> {
    pub caller: FsCaller,
    pub parent_inode_id: Option<InodeId>,
    pub name: &'a str,
}

pub open spec fn remove_command<'a>(rpc: RemoveRpc, req: RemoveRequest<'a>) -> FsCommand<'a> {
    let dedup = req.caller.spec_dedup();
    match rpc {
        RemoveRpc::Unlink => FsCommand::Unlink { dedup, parent_inode_id: req.parent_inode_id->0, name: req.name },
        RemoveRpc::Rmdir => FsCommand::Rmdir { dedup, parent_inode_id: req.parent_inode_id->0, name: req.name },
    }
}

/// Taking an entry out of a directory: the write is routed and guarded, the command proposed,
/// and its result told. A caller without identity is told so before the group is named.
pub open spec fn remove_next<'a>(rpc: RemoveRpc, req: RemoveRequest<'a>, seen: FsSeen) -> FsStep<'a> {
    let parent = req.parent_inode_id;
    if parent is None {
        plain_fault(FsFault::Missing(Field::ParentInodeId))
    } else if seen.route is None {
        FsStep::Route { op: remove_op(rpc), first: parent->0, second: None }
    } else if seen.route->0 is Fault {
        route_refusal(seen.route->0->Fault_0, None)
    } else if seen.guard is None {
        guard_step(
            GuardSpec::spec_metadata_write(),
            Some(seen.route->0->To_0.mount_id),
            match rpc {
                RemoveRpc::Unlink => FsRpcAuthz::Unlink,
                RemoveRpc::Rmdir => FsRpcAuthz::Rmdir,
            },
            AuthzTarget::spec_for_inode(parent->0),
        )
    } else if seen.guard == Some(false) {
        plain_fault(FsFault::GuardRefused)
    } else if req.caller.client_id.raw == 0 {
        plain_fault(FsFault::NoClientId)
    } else if seen.proposed is None {
        FsStep::Propose(remove_command(rpc, req))
    } else {
        let ctx = seen.route->0->To_0;
        match seen.proposed->0 {
            Proposed::Fault(fault) => routed_fault(ctx, fault),
            Proposed::Failed => routed_fault(ctx, FsFault::CommandFailed),
            Proposed::Done(_) => routed_ok(ctx, true, FsBody::Empty),
        }
    }
}

fn remove_entry<'a>(rpc: RemoveRpc, req: &RemoveRequest<'a>, seen: &FsSeen) -> (step: FsStep<'a>)
    ensures
        step == remove_next(rpc, *req, *seen),
{
    let parent = match req.parent_inode_id {
        Some(parent) => parent,
        None => {
            return refuse(FsFault::Missing(Field::ParentInodeId));
        },
    };
    let (op, authz) = match rpc {
        RemoveRpc::Unlink => (FsWriteOp::Unlink, FsRpcAuthz::Unlink),
        RemoveRpc::Rmdir => (FsWriteOp::Rmdir, FsRpcAuthz::Rmdir),
    };
    let ctx = match seen.route {
        None => {
            return FsStep::Route { op, first: parent, second: None };
        },
        Some(Routed::Fault(fault)) => {
            return refuse_route(fault, None);
        },
        Some(Routed::To(ctx)) => ctx,
    };
    match seen.guard {
        None => {
            return ask_guard(
                GuardSpec::metadata_write(),
                Some(ctx.mount_id),
                authz,
                AuthzTarget::for_inode(parent),
            );
        },
        Some(passed) => {
            if !passed {
                return refuse(FsFault::GuardRefused);
            }
        },
    }
    let dedup = match dedup_key(&req.caller) {
        Some(dedup) => dedup,
        None => {
            return refuse(FsFault::NoClientId);
        },
    };
    match seen.proposed {
        None => FsStep::Propose(
            match rpc {
                RemoveRpc::Unlink => FsCommand::Unlink { dedup, parent_inode_id: parent, name: req.name },
                RemoveRpc::Rmdir => FsCommand::Rmdir { dedup, parent_inode_id: parent, name: req.name },
            },
        ),
        Some(Proposed::Fault(fault)) => refuse_routed(ctx, fault),
        Some(Proposed::Failed) => refuse_routed(ctx, FsFault::CommandFailed),
        Some(Proposed::Done(_)) => accept_routed(ctx, true, FsBody::Empty),
    }
}

impl MetadataFsServiceImpl {
    /// Removing a file.
    pub fn unlink<'a>(&self, req: &RemoveRequest<'a>, seen: &FsSeen) -> (step: FsStep<'a>)
        ensures
            step == remove_next(RemoveRpc::Unlink, *req, *seen),
    {
        remove_entry(RemoveRpc::Unlink, req, seen)
    }

    /// Removing a directory.
    pub fn rmdir<'a>(&self, req: &RemoveRequest<'a>, seen: &FsSeen) -> (step: FsStep<'a>)
        ensures
            step == remove_next(RemoveRpc::Rmdir, *req, *seen),
    {
        remove_entry(RemoveRpc::Rmdir, req, seen)
    }
}

/// Requests that change the extended attributes of an inode.
#[derive(Clone, Copy, Debug, PartialEq, Eq)]
pub enum XattrRpc<'a> {
    /// Sets a value: of a new attribute only, of an old one only, or either way.
    Put { value: &'a [u8], create: bool, replace: bool },
    Remove,
}

/// What a change of an extended attribute asks for.
#[derive(Clone, Copy, Debug, PartialEq, Eq)]
pub struct XattrRequest<'a> {
    pub caller: FsCaller,
    pub inode_id: Option<InodeId>,
    pub name: &'a str,
}

pub open spec fn xattr_command<'a>(rpc: XattrRpc<'a>, req: XattrRequest<'a>) -> FsCommand<'a> {
    let dedup = req.caller.spec_dedup();
    match rpc {
        XattrRpc::Put { value, create, replace } => FsCommand::SetXattr {
            dedup,
            inode_id: req.inode_id->0,
            name: req.name,
            value,
            create,
            replace,
        },
        XattrRpc::Remove => FsCommand::RemoveXattr { dedup, inode_id: req.inode_id->0, name: req.name },
    }
}

/// A change of extended attributes: the write is routed and guarded, and the command proposed.
pub open spec fn xattr_next<'a>(rpc: XattrRpc<'a>, req: XattrRequest<'a>, seen: FsSeen) -> FsStep<'a> {
    let inode_id = req.inode_id;
    if inode_id is None {
        plain_fault(FsFault::Missing(Field::InodeId))
    } else if seen.route is None {
        FsStep::Route { op: FsWriteOp::SetAttr, first: inode_id->0, second: None }
    } else if seen.route->0 is Fault {
        route_refusal(seen.route->0->Fault_0, None)
    } else if seen.guard is None {
        guard_step(
            GuardSpec::spec_metadata_write(),
            Some(seen.route->0->To_0.mount_id),
            match rpc {
                XattrRpc::Put { .. } => FsRpcAuthz::SetXattr,
                XattrRpc::Remove => FsRpcAuthz::RemoveXattr,
            },
            AuthzTarget::spec_for_inode(inode_id->0),
        )
    } else if seen.guard == Some(false) {
        plain_fault(FsFault::GuardRefused)
    } else {
        let ctx = seen.route->0->To_0;
        if req.caller.client_id.raw == 0 {
            routed_fault(ctx, FsFault::NoClientId)
        } else if seen.proposed is None {
            FsStep::Propose(xattr_command(rpc, req))
        } else if seen.proposed->0 is Fault {
            routed_fault(ctx, seen.proposed->0->Fault_0)
        } else {
            routed_ok(ctx, false, FsBody::Empty)
        }
    }
}

fn change_xattr<'a>(rpc: XattrRpc<'a>, req: &XattrRequest<'a>, seen: &FsSeen) -> (step: FsStep<'a>)
    ensures
        step == xattr_next(rpc, *req, *seen),
{
    let inode_id = match req.inode_id {
        Some(inode_id) => inode_id,
        None => {
            return refuse(FsFault::Missing(Field::InodeId));
        },
    };
    let authz = match rpc {
        XattrRpc::Put { .. } => FsRpcAuthz::SetXattr,
        XattrRpc::Remove => FsRpcAuthz::RemoveXattr,
    };
    let ctx = match seen.route {
        None => {
            return FsStep::Route { op: FsWriteOp::SetAttr, first: inode_id, second: None };
        },
        Some(Routed::Fault(fault)) => {
            return refuse_route(fault, None);
        },
        Some(Routed::To(ctx)) => ctx,
    };
    match seen.guard {
        None => {
            return ask_guard(
                GuardSpec::metadata_write(),
                Some(ctx.mount_id),
                authz,
                AuthzTarget::for_inode(inode_id),
            );
        },
        Some(passed) => {
            if !passed {
                return refuse(FsFault::GuardRefused);
            }
        },
    }
    let dedup = match dedup_key(&req.caller) {
        Some(dedup) => dedup,
        None => {
            return refuse_routed(ctx, FsFault::NoClientId);
        },
    };
    match seen.proposed {
        None => FsStep::Propose(
            match rpc {
                XattrRpc::Put { value, create, replace } => FsCommand::SetXattr {
                    dedup,
                    inode_id,
                    name: req.name,
                    value,
                    create,
                    replace,
                },
                XattrRpc::Remove => FsCommand::RemoveXattr { dedup, inode_id, name: req.name },
            },
        ),
        Some(Proposed::Fault(fault)) => refuse_routed(ctx, fault),
        Some(_) => accept_routed(ctx, false, FsBody::Empty),
    }
}

impl MetadataFsServiceImpl {
    /// Setting an extended attribute.
    pub fn set_xattr<'a>(
        &self,
        req: &XattrRequest<'a>,
        value: &'a [u8],
        create: bool,
        replace: bool,
        seen: &FsSeen,
    ) -> (step: FsStep<'a>)
        ensures
            step == xattr_next(XattrRpc::Put { value, create, replace }, *req, *seen),
    {
        change_xattr(XattrRpc::Put { value, create, replace }, req, seen)
    }

    /// Removing an extended attribute.
    pub fn remove_xattr<'a>(&self, req: &XattrRequest<'a>, seen: &FsSeen) -> (step: FsStep<'a>)
        ensures
            step == xattr_next(XattrRpc::Remove, *req, *seen),
    {
        change_xattr(XattrRpc::Remove, req, seen)
    }
}

/// What a truncation asks for.
#[derive(Clone, Copy, Debug, PartialEq, Eq, Structural)]
pub struct TruncateRequest {
    pub caller: FsCaller,
    pub inode_id: Option<InodeId>,
    pub lease_id: Option<WireLeaseId>,
    pub lease_epoch: u64,
    pub new_size: u64,
}

/// Truncation: the file must exist, its mount must let data through, the lease must be in force;
/// a file never grows, and one that has the size already is left alone; else the write is routed
/// and the command proposed.
pub open spec fn truncate_next<'a>(req: TruncateRequest, node: MetadataFsServiceImpl, seen: FsSeen) -> FsStep<'a> {
    if req.inode_id is None {
        plain_fault(FsFault::Missing(Field::InodeId))
    } else if !node.has_storage {
        plain_fault(FsFault::StorageUnavailable)
    } else if seen.inode is None {
        FsStep::ReadInode(req.inode_id->0)
    } else if seen.inode == Some(InodeRead::Failed) {
        plain_fault(FsFault::ReadFailed)
    } else if seen.inode == Some(InodeRead::Absent) {
        plain_fault(FsFault::InodeNotFound(req.inode_id->0))
    } else if seen.inode->0->Found_0.kind != InodeKind::File {
        plain_fault(FsFault::NotAFile(req.inode_id->0))
    } else if seen.guard is None {
        guard_step(
            GuardSpec::spec_data_io(DataIoOp::Truncate).spec_with_leader(),
            Some(seen.inode->0->Found_0.mount_id),
            FsRpcAuthz::Truncate,
            AuthzTarget::spec_for_inode(req.inode_id->0),
        )
    } else if seen.guard == Some(false) {
        plain_fault(FsFault::GuardRefused)
    } else if req.lease_id is None {
        plain_fault(FsFault::Missing(Field::LeaseId))
    } else if seen.lease is None {
        FsStep::CheckLease {
            inode_id: req.inode_id->0,
            lease_id: replies::lease_id_told(req.lease_id->0),
            lease_epoch: req.lease_epoch,
        }
    } else if seen.lease == Some(false) {
        plain_fault(
            FsFault::LeaseInvalid {
                inode_id: req.inode_id->0,
                lease_id: replies::lease_id_told(req.lease_id->0),
            },
        )
    } else if req.new_size > seen.inode->0->Found_0.size {
        plain_fault(
            FsFault::GrowNotSupported { current_size: seen.inode->0->Found_0.size, new_size: req.new_size },
        )
    } else if req.new_size == seen.inode->0->Found_0.size {
        plain_ok(FsBody::NewSize(req.new_size))
    } else if seen.route is None {
        FsStep::Route { op: FsWriteOp::SetAttr, first: req.inode_id->0, second: None }
    } else if seen.route->0 is Fault {
        route_refusal(seen.route->0->Fault_0, None)
    } else {
        let ctx = seen.route->0->To_0;
        if req.caller.client_id.raw == 0 {
            routed_fault(ctx, FsFault::NoClientId)
        } else if seen.proposed is None {
            FsStep::Propose(
                FsCommand::Truncate {
                    dedup: req.caller.spec_dedup(),
                    inode_id: req.inode_id->0,
                    new_size: req.new_size,
                    lease_id: replies::lease_id_told(req.lease_id->0),
                    lease_epoch: req.lease_epoch,
                },
            )
        } else if seen.proposed->0 is Fault {
            routed_fault(ctx, seen.proposed->0->Fault_0)
        } else {
            routed_ok(ctx, false, FsBody::NewSize(req.new_size))
        }
    }
}

impl MetadataFsServiceImpl {
    /// Truncation.
    pub fn truncate<'a>(&self, req: &TruncateRequest, seen: &FsSeen) -> (step: FsStep<'a>)
        ensures
            step == truncate_next(*req, *self, *seen),
    {
        let inode_id = match req.inode_id {
            Some(inode_id) => inode_id,
            None => {
                return refuse(FsFault::Missing(Field::InodeId));
            },
        };
        if !self.has_storage {
            return refuse(FsFault::StorageUnavailable);
        }
        let facts = match seen.inode {
            None => {
                return FsStep::ReadInode(inode_id);
            },
            Some(InodeRead::Failed) => {
                return refuse(FsFault::ReadFailed);
            },
            Some(InodeRead::Absent) => {
                return refuse(FsFault::InodeNotFound(inode_id));
            },
            Some(InodeRead::Found(facts)) => facts,
        };
        if facts.kind != InodeKind::File {
            return refuse(FsFault::NotAFile(inode_id));
        }
        match seen.guard {
            None => {
                return ask_guard(
                    GuardSpec::data_io(DataIoOp::Truncate).with_leader(),
                    Some(facts.mount_id),
                    FsRpcAuthz::Truncate,
                    AuthzTarget::for_inode(inode_id),
                );
            },
            Some(passed) => {
                if !passed {
                    return refuse(FsFault::GuardRefused);
                }
            },
        }
        let lease_id = match req.lease_id {
            Some(lease_id) => replies::lease_id_from_proto(lease_id),
            None => {
                return refuse(FsFault::Missing(Field::LeaseId));
            },
        };
        match seen.lease {
            None => {
                return FsStep::CheckLease { inode_id, lease_id, lease_epoch: req.lease_epoch };
            },
            Some(valid) => {
                if !valid {
                    return refuse(FsFault::LeaseInvalid { inode_id, lease_id });
                }
            },
        }
        if req.new_size > facts.size {
            return refuse(FsFault::GrowNotSupported { current_size: facts.size, new_size: req.new_size });
        }
        if req.new_size == facts.size {
            return accept(FsBody::NewSize(req.new_size));
        }
        let ctx = match seen.route {
            None => {
                return FsStep::Route { op: FsWriteOp::SetAttr, first: inode_id, second: None };
            },
            Some(Routed::Fault(fault)) => {
                return refuse_route(fault, None);
            },
            Some(Routed::To(ctx)) => ctx,
        };
        let dedup = match dedup_key(&req.caller) {
            Some(dedup) => dedup,
            None => {
                return refuse_routed(ctx, FsFault::NoClientId);
            },
        };
        match seen.proposed {
            None => FsStep::Propose(
                FsCommand::Truncate {
                    dedup,
                    inode_id,
                    new_size: req.new_size,
                    lease_id,
                    lease_epoch: req.lease_epoch,
                },
            ),
            Some(Proposed::Fault(fault)) => refuse_routed(ctx, fault),
            Some(_) => accept_routed(ctx, false, FsBody::NewSize(req.new_size)),
        }
    }
}

/// The one flag of a rename: leave a destination that exists alone.
pub const RENAME_NOREPLACE: u32 = 1;

/// What a rename asks for.
#[derive(Clone, Copy, Debug, PartialEq, Eq)]
pub struct RenameRequest<'a> {
    pub caller: FsCaller,
    pub src_parent_inode_id: Option<InodeId>,
    pub src_name: &'a str,
    pub dst_parent_inode_id: Option<InodeId>,
    pub dst_name: &'a str,
    pub flags: u32,
}

/// Whether the flags are known: none, or the one there is.
pub open spec fn flags_known(flags: u32) -> bool {
    flags == 0 || flags == RENAME_NOREPLACE
}

/// Whether the node looks for the destination before it proposes: only the leader does, only
/// where the destination must not exist, and only where it knows how far it has come if the
/// client has seen a state.
pub open spec fn looks_first(req: RenameRequest, node: MetadataFsServiceImpl) -> bool {
    req.flags == RENAME_NOREPLACE && node.has_raft && node.is_leader && !(req.caller.state_id is Some
        && node.last_applied is None)
}

/// Whether the client has seen a state that this node has not.
pub open spec fn is_behind(req: RenameRequest, node: MetadataFsServiceImpl) -> bool {
    req.caller.state_id is Some && node.last_applied is Some && node.last_applied->0.precedes(
        req.caller.state_id->0,
    )
}

/// A rename: flags and parents are checked, both parents read, a rename from one mount to
/// another refused, the write routed and guarded, the destination looked for where it must not
/// exist, and the command proposed.
pub open spec fn rename_next<'a>(req: RenameRequest<'a>, node: MetadataFsServiceImpl, seen: FsSeen) -> FsStep<'a> {
    if !flags_known(req.flags) {
        plain_fault(FsFault::UnsupportedRenameFlags(req.flags))
    } else if req.src_parent_inode_id is None {
        plain_fault(FsFault::Missing(Field::SrcParentInodeId))
    } else if req.dst_parent_inode_id is None {
        plain_fault(FsFault::Missing(Field::DstParentInodeId))
    } else if !node.has_storage {
        plain_fault(FsFault::StorageUnavailable)
    } else if seen.inode is None {
        FsStep::ReadInode(req.src_parent_inode_id->0)
    } else if seen.inode == Some(InodeRead::Failed) {
        plain_fault(FsFault::ReadFailed)
    } else if seen.inode == Some(InodeRead::Absent) {
        plain_fault(FsFault::SourceParentNotFound(req.src_parent_inode_id->0))
    } else if seen.other_inode is None {
        FsStep::ReadOtherInode(req.dst_parent_inode_id->0)
    } else if seen.other_inode == Some(InodeRead::Failed) {
        plain_fault(FsFault::ReadFailed)
    } else if seen.other_inode == Some(InodeRead::Absent) {
        plain_fault(FsFault::DestinationParentNotFound(req.dst_parent_inode_id->0))
    } else {
        let src_mount = seen.inode->0->Found_0.mount_id;
        let dst_mount = seen.other_inode->0->Found_0.mount_id;
        if src_mount != dst_mount {
            match seen.mount {
                None => FsStep::ReadMount(src_mount),
                Some(MountRead::Failed) => plain_fault(FsFault::ReadFailed),
                Some(MountRead::Absent) => plain_fault(FsFault::MountDisappeared),
                Some(MountRead::Found(mount)) => FsStep::Answer(
                    FsAnswer {
                        fault: Some(FsFault::CrossMountRename { src: src_mount, dst: dst_mount }),
                        group_id: None,
                        mount_epoch: Some(mount.mount_epoch),
                        state_id: None,
                        body: FsBody::Empty,
                    },
                ),
            }
        } else if seen.route is None {
            FsStep::Route {
                op: FsWriteOp::Rename,
                first: req.src_parent_inode_id->0,
                second: Some(req.dst_parent_inode_id->0),
            }
        } else if seen.route->0 is Fault {
            refuse_with_mount(seen.route->0->Fault_0, src_mount, seen)
        } else if seen.guard is None {
            guard_step(
                GuardSpec::spec_metadata_write(),
                Some(src_mount),
                FsRpcAuthz::Rename,
                AuthzTarget::spec_for_inode(req.src_parent_inode_id->0).spec_with_parent(req.dst_parent_inode_id->0),
            )
        } else if seen.guard == Some(false) {
            plain_fault(FsFault::GuardRefused)
        } else {
            let ctx = seen.route->0->To_0;
            if looks_first(req, node) && is_behind(req, node) {
                routed_fault(
                    ctx,
                    FsFault::StaleState { last_applied: node.last_applied->0, required: req.caller.state_id->0 },
                )
            } else if looks_first(req, node) && seen.dentry is None {
                FsStep::ReadDentry(req.dst_parent_inode_id->0, req.dst_name)
            } else if looks_first(req, node) && seen.dentry == Some(DentryRead::Failed) {
                routed_fault(ctx, FsFault::ReadFailed)
            } else if looks_first(req, node) && seen.dentry->0 is Found {
                routed_fault(ctx, FsFault::DestinationExists)
            } else if !node.has_raft {
                routed_fault(ctx, FsFault::RaftUnavailable)
            } else if req.caller.client_id.raw == 0 {
                routed_fault(ctx, FsFault::NoClientId)
            } else if seen.proposed is None {
                FsStep::Propose(
                    FsCommand::Rename {
                        dedup: req.caller.spec_dedup(),
                        src_parent_inode_id: req.src_parent_inode_id->0,
                        src_name: req.src_name,
                        dst_parent_inode_id: req.dst_parent_inode_id->0,
                        dst_name: req.dst_name,
                        flags: req.flags,
                    },
                )
            } else if seen.proposed->0 is Fault {
                routed_fault(ctx, seen.proposed->0->Fault_0)
            } else {
                routed_ok(ctx, true, FsBody::Empty)
            }
        }
    }
}

impl MetadataFsServiceImpl {
    /// A rename.
    pub fn rename<'a>(&self, req: &RenameRequest<'a>, seen: &FsSeen) -> (step: FsStep<'a>)
        ensures
            step == rename_next(*req, *self, *seen),
    {
        if req.flags & !RENAME_NOREPLACE != 0 {
            proof {
                let flags = req.flags;
                assert(flags & !1u32 != 0 ==> flags != 0 && flags != 1) by (bit_vector);
            }
            return refuse(FsFault::UnsupportedRenameFlags(req.flags));
        }
        proof {
            let flags = req.flags;
            assert(flags & !1u32 == 0 ==> flags == 0 || flags == 1) by (bit_vector);
            assert(0u32 & 1u32 == 0 && 1u32 & 1u32 == 1) by (bit_vector);
        }
        let src_parent = match req.src_parent_inode_id {
            Some(id) => id,
            None => {
                return refuse(FsFault::Missing(Field::SrcParentInodeId));
            },
        };
        let dst_parent = match req.dst_parent_inode_id {
            Some(id) => id,
            None => {
                return refuse(FsFault::Missing(Field::DstParentInodeId));
            },
        };
        if !self.has_storage {
            return refuse(FsFault::StorageUnavailable);
        }
        let src = match seen.inode {
            None => {
                return FsStep::ReadInode(src_parent);
            },
            Some(InodeRead::Failed) => {
                return refuse(FsFault::ReadFailed);
            },
            Some(InodeRead::Absent) => {
                return refuse(FsFault::SourceParentNotFound(src_parent));
            },
            Some(InodeRead::Found(src)) => src,
        };
        let dst = match seen.other_inode {
            None => {
                return FsStep::ReadOtherInode(dst_parent);
            },
            Some(InodeRead::Failed) => {
                return refuse(FsFault::ReadFailed);
            },
            Some(InodeRead::Absent) => {
                return refuse(FsFault::DestinationParentNotFound(dst_parent));
            },
            Some(InodeRead::Found(dst)) => dst,
        };
        if src.mount_id != dst.mount_id {
            return match seen.mount {
                None => FsStep::ReadMount(src.mount_id),
                Some(MountRead::Failed) => refuse(FsFault::ReadFailed),
                Some(MountRead::Absent) => refuse(FsFault::MountDisappeared),
                Some(MountRead::Found(mount)) => FsStep::Answer(
                    FsAnswer {
                        fault: Some(FsFault::CrossMountRename { src: src.mount_id, dst: dst.mount_id }),
                        group_id: None,
                        mount_epoch: Some(mount.mount_epoch),
                        state_id: None,
                        body: FsBody::Empty,
                    },
                ),
            };
        }
        let ctx = match seen.route {
            None => {
                return FsStep::Route { op: FsWriteOp::Rename, first: src_parent, second: Some(dst_parent) };
            },
            Some(Routed::Fault(fault)) => {
                return refuse_after_mount(fault, src.mount_id, seen);
            },
            Some(Routed::To(ctx)) => ctx,
        };
        match seen.guard {
            None => {
                return ask_guard(
                    GuardSpec::metadata_write(),
                    Some(src.mount_id),
                    FsRpcAuthz::Rename,
                    AuthzTarget::for_inode(src_parent).with_parent(dst_parent),
                );
            },
            Some(passed) => {
                if !passed {
                    return refuse(FsFault::GuardRefused);
                }
            },
        }
        if req.flags & RENAME_NOREPLACE != 0 && self.has_raft && self.is_leader {
            let mut can_precheck = true;
            match req.caller.state_id {
                Some(required) => match self.last_applied {
                    Some(last_applied) => {
                        if last_applied.is_before(&required) {
                            return refuse_routed(ctx, FsFault::StaleState { last_applied, required });
                        }
                    },
                    None => {
                        can_precheck = false;
                    },
                },
                None => {},
            }
            if can_precheck {
                match seen.dentry {
                    None => {
                        return FsStep::ReadDentry(dst_parent, req.dst_name);
                    },
                    Some(DentryRead::Failed) => {
                        return refuse_routed(ctx, FsFault::ReadFailed);
                    },
                    Some(DentryRead::Found(_)) => {
                        return refuse_routed(ctx, FsFault::DestinationExists);
                    },
                    Some(DentryRead::Absent) => {},
                }
            }
        }
        if !self.has_raft {
            return refuse_routed(ctx, FsFault::RaftUnavailable);
        }
        let dedup = match dedup_key(&req.caller) {
            Some(dedup) => dedup,
            None => {
                return refuse_routed(ctx, FsFault::NoClientId);
            },
        };
        match seen.proposed {
            None => FsStep::Propose(
                FsCommand::Rename {
                    dedup,
                    src_parent_inode_id: src_parent,
                    src_name: req.src_name,
                    dst_parent_inode_id: dst_parent,
                    dst_name: req.dst_name,
                    flags: req.flags,
                },
            ),
            Some(Proposed::Fault(fault)) => refuse_routed(ctx, fault),
            Some(_) => accept_routed(ctx, true, FsBody::Empty),
        }
    }
}

} // verus!
