//! Requests by inode or handle, served by the core: what is checked, in which order, and who is
//! asked whether the caller may.
//!
//! Every request takes the same way. What it carries is checked, the node is checked, the core is
//! asked what the request is about, the guard is asked, and the core carries it out. A request is
//! a function of what it carries and what has been seen so far, and gives the next step.

use crate::error::{ErrorKind, MetadataError, MetadataResult};
use crate::ids::{GroupName, InodeId, LeaseId, MountId};
use crate::raft::RaftView;
use crate::rpc;
use crate::service::fs_types;
use crate::service::fs_types::{AuthzOp, AuthzTarget, DataIoOp, Field, GuardSpec};
use crate::service::guard;
use crate::service::guard::{GuardChain, GuardFailure};
use crate::service::inputs;
use crate::service::inputs::{Barrier, FileLayout, FileRange, Freshness, HeaderEpochs, LeaseProof, WireLayout, WireRange};
use crate::service::wire;
use crate::service::wire::{FileAttrs, WireFileAttrs};
use crate::text;
use crate::write_target::{FencingToken, WriteMode};
use vstd::prelude::*;

verus! {

/// The requests.
#[derive(Clone, Copy, Debug, PartialEq, Eq, Structural)]
pub enum InodeRpc {
    Lookup,
    GetAttr,
    SetAttr,
    Mkdir,
    Create,
    ReadDir,
    Unlink,
    Rmdir,
    Rename,
    Open,
    Release,
    Fsync,
    Hsync,
    Hflush,
    OpenWrite,
    CloseWrite,
    GetFileLayout,
    RenewInodeLease,
    Truncate,
    StatFs,
    Access,
    Symlink,
    Readlink,
    Link,
    SetXattr,
    GetXattr,
    ListXattr,
    RemoveXattr,
}

/// The right that a request needs.
pub open spec fn right_for(rpc: InodeRpc) -> AuthzOp {
    match rpc {
        InodeRpc::Lookup | InodeRpc::GetAttr | InodeRpc::ReadDir | InodeRpc::Open | InodeRpc::GetFileLayout
        | InodeRpc::StatFs | InodeRpc::Access | InodeRpc::Readlink => AuthzOp::Read,
        InodeRpc::Unlink | InodeRpc::Rmdir => AuthzOp::Delete,
        InodeRpc::Rename => AuthzOp::Rename,
        InodeRpc::SetXattr | InodeRpc::GetXattr | InodeRpc::ListXattr | InodeRpc::RemoveXattr => AuthzOp::Xattr,
        _ => AuthzOp::Write,
    }
}

/// The right that a request needs.
pub fn authz_for_rpc(rpc: InodeRpc) -> (op: AuthzOp)
    ensures
        op == right_for(rpc),
{
    match rpc {
        InodeRpc::Lookup
        | InodeRpc::GetAttr
        | InodeRpc::ReadDir
        | InodeRpc::Open
        | InodeRpc::GetFileLayout
        | InodeRpc::StatFs
        | InodeRpc::Access
        | InodeRpc::Readlink => AuthzOp::Read,
        InodeRpc::SetAttr
        | InodeRpc::Mkdir
        | InodeRpc::Create
        | InodeRpc::Release
        | InodeRpc::Fsync
        | InodeRpc::Hsync
        | InodeRpc::Hflush
        | InodeRpc::OpenWrite
        | InodeRpc::CloseWrite
        | InodeRpc::RenewInodeLease
        | InodeRpc::Truncate
        | InodeRpc::Symlink
        | InodeRpc::Link => AuthzOp::Write,
        InodeRpc::Unlink | InodeRpc::Rmdir => AuthzOp::Delete,
        InodeRpc::Rename => AuthzOp::Rename,
        InodeRpc::SetXattr | InodeRpc::GetXattr | InodeRpc::ListXattr | InodeRpc::RemoveXattr => AuthzOp::Xattr,
    }
}

/// The request only reads.
pub open spec fn only_reads(rpc: InodeRpc) -> bool {
    match rpc {
        InodeRpc::Lookup | InodeRpc::GetAttr | InodeRpc::ReadDir | InodeRpc::Open | InodeRpc::GetFileLayout
        | InodeRpc::StatFs | InodeRpc::Access | InodeRpc::Readlink | InodeRpc::GetXattr | InodeRpc::ListXattr => true,
        _ => false,
    }
}

fn is_read(rpc: InodeRpc) -> (read: bool)
    ensures
        read == only_reads(rpc),
{
    match rpc {
        InodeRpc::Lookup
        | InodeRpc::GetAttr
        | InodeRpc::ReadDir
        | InodeRpc::Open
        | InodeRpc::GetFileLayout
        | InodeRpc::StatFs
        | InodeRpc::Access
        | InodeRpc::Readlink
        | InodeRpc::GetXattr
        | InodeRpc::ListXattr => true,
        _ => false,
    }
}

/// What a request is about.
#[derive(Clone, Copy, Debug, PartialEq, Eq, Structural)]
pub enum Subject {
    /// One inode, under this name.
    Inode(Field),
    /// Two inodes, under these names.
    Inodes(Field, Field),
    /// A handle.
    Handle,
    /// An inode, and perhaps a handle on it.
    Barrier,
}

pub open spec fn subject_of(rpc: InodeRpc) -> Subject {
    match rpc {
        InodeRpc::Lookup | InodeRpc::Mkdir | InodeRpc::Create | InodeRpc::ReadDir | InodeRpc::Unlink | InodeRpc::Rmdir
        | InodeRpc::Symlink => Subject::Inode(Field::ParentInodeId),
        InodeRpc::Rename => Subject::Inodes(Field::SrcParentInodeId, Field::DstParentInodeId),
        InodeRpc::Link => Subject::Inodes(Field::SrcInodeId, Field::DstParentInodeId),
        InodeRpc::Release | InodeRpc::CloseWrite | InodeRpc::RenewInodeLease => Subject::Handle,
        InodeRpc::Fsync | InodeRpc::Hsync | InodeRpc::Hflush => Subject::Barrier,
        _ => Subject::Inode(Field::InodeId),
    }
}

fn subject(rpc: InodeRpc) -> (s: Subject)
    ensures
        s == subject_of(rpc),
{
    match rpc {
        InodeRpc::Lookup
        | InodeRpc::Mkdir
        | InodeRpc::Create
        | InodeRpc::ReadDir
        | InodeRpc::Unlink
        | InodeRpc::Rmdir
        | InodeRpc::Symlink => Subject::Inode(Field::ParentInodeId),
        InodeRpc::Rename => Subject::Inodes(Field::SrcParentInodeId, Field::DstParentInodeId),
        InodeRpc::Link => Subject::Inodes(Field::SrcInodeId, Field::DstParentInodeId),
        InodeRpc::Release | InodeRpc::CloseWrite | InodeRpc::RenewInodeLease => Subject::Handle,
        InodeRpc::Fsync | InodeRpc::Hsync | InodeRpc::Hflush => Subject::Barrier,
        _ => Subject::Inode(Field::InodeId),
    }
}

/// What a request asks for, besides the inodes that it names.
#[derive(Clone, Copy, Debug, PartialEq, Eq)]
#[allow(inconsistent_fields)]
pub enum InodeOp<'a> {
    Lookup { name: &'a str },
    GetAttr,
    SetAttr { mask: u32, attrs: Option<WireFileAttrs> },
    Mkdir { name: &'a str, attrs: Option<WireFileAttrs> },
    Create { name: &'a str, attrs: Option<WireFileAttrs>, layout: Option<WireLayout> },
    /// From the start where the cursor is empty, without a limit where it is 0.
    ReadDir { cursor_key: &'a [u8], max_entries: u32 },
    Unlink { name: &'a str },
    Rmdir { name: &'a str },
    Rename { src_name: &'a str, dst_name: &'a str, flags: u32 },
    Open { flags: u32 },
    Release { file_handle: u64 },
    Fsync(Barrier),
    Hsync(Option<Barrier>),
    Hflush(Option<Barrier>),
    OpenWrite { desired_len: Option<u64>, mode: WriteMode },
    CloseWrite {
        file_handle: u64,
        lease: LeaseProof,
        /// The extents make sense.
        extents_ok: bool,
        final_size: u64,
    },
    GetFileLayout { range: Option<WireRange> },
    RenewInodeLease { file_handle: u64, lease_id: Option<LeaseId>, lease_epoch: u64 },
    Truncate { new_size: u64, lease_id: Option<LeaseId>, lease_epoch: u64 },
    StatFs,
    Access { mode: u32 },
    Symlink { name: &'a str, target: &'a str, attrs: Option<WireFileAttrs> },
    Readlink,
    Link { dst_name: &'a str },
    SetXattr { name: &'a str, value: &'a [u8], create: bool, replace: bool },
    GetXattr { name: &'a str },
    ListXattr,
    RemoveXattr { name: &'a str },
}

/// The request that asks for this.
pub open spec fn rpc_of(op: InodeOp) -> InodeRpc {
    match op {
        InodeOp::Lookup { .. } => InodeRpc::Lookup,
        InodeOp::GetAttr => InodeRpc::GetAttr,
        InodeOp::SetAttr { .. } => InodeRpc::SetAttr,
        InodeOp::Mkdir { .. } => InodeRpc::Mkdir,
        InodeOp::Create { .. } => InodeRpc::Create,
        InodeOp::ReadDir { .. } => InodeRpc::ReadDir,
        InodeOp::Unlink { .. } => InodeRpc::Unlink,
        InodeOp::Rmdir { .. } => InodeRpc::Rmdir,
        InodeOp::Rename { .. } => InodeRpc::Rename,
        InodeOp::Open { .. } => InodeRpc::Open,
        InodeOp::Release { .. } => InodeRpc::Release,
        InodeOp::Fsync(_) => InodeRpc::Fsync,
        InodeOp::Hsync(_) => InodeRpc::Hsync,
        InodeOp::Hflush(_) => InodeRpc::Hflush,
        InodeOp::OpenWrite { .. } => InodeRpc::OpenWrite,
        InodeOp::CloseWrite { .. } => InodeRpc::CloseWrite,
        InodeOp::GetFileLayout { .. } => InodeRpc::GetFileLayout,
        InodeOp::RenewInodeLease { .. } => InodeRpc::RenewInodeLease,
        InodeOp::Truncate { .. } => InodeRpc::Truncate,
        InodeOp::StatFs => InodeRpc::StatFs,
        InodeOp::Access { .. } => InodeRpc::Access,
        InodeOp::Symlink { .. } => InodeRpc::Symlink,
        InodeOp::Readlink => InodeRpc::Readlink,
        InodeOp::Link { .. } => InodeRpc::Link,
        InodeOp::SetXattr { .. } => InodeRpc::SetXattr,
        InodeOp::GetXattr { .. } => InodeRpc::GetXattr,
        InodeOp::ListXattr => InodeRpc::ListXattr,
        InodeOp::RemoveXattr { .. } => InodeRpc::RemoveXattr,
    }
}

fn rpc_for(op: &InodeOp) -> (rpc: InodeRpc)
    ensures
        rpc == rpc_of(*op),
{
    match op {
        InodeOp::Lookup { .. } => InodeRpc::Lookup,
        InodeOp::GetAttr => InodeRpc::GetAttr,
        InodeOp::SetAttr { .. } => InodeRpc::SetAttr,
        InodeOp::Mkdir { .. } => InodeRpc::Mkdir,
        InodeOp::Create { .. } => InodeRpc::Create,
        InodeOp::ReadDir { .. } => InodeRpc::ReadDir,
        InodeOp::Unlink { .. } => InodeRpc::Unlink,
        InodeOp::Rmdir { .. } => InodeRpc::Rmdir,
        InodeOp::Rename { .. } => InodeRpc::Rename,
        InodeOp::Open { .. } => InodeRpc::Open,
        InodeOp::Release { .. } => InodeRpc::Release,
        InodeOp::Fsync(_) => InodeRpc::Fsync,
        InodeOp::Hsync(_) => InodeRpc::Hsync,
        InodeOp::Hflush(_) => InodeRpc::Hflush,
        InodeOp::OpenWrite { .. } => InodeRpc::OpenWrite,
        InodeOp::CloseWrite { .. } => InodeRpc::CloseWrite,
        InodeOp::GetFileLayout { .. } => InodeRpc::GetFileLayout,
        InodeOp::RenewInodeLease { .. } => InodeRpc::RenewInodeLease,
        InodeOp::Truncate { .. } => InodeRpc::Truncate,
        InodeOp::StatFs => InodeRpc::StatFs,
        InodeOp::Access { .. } => InodeRpc::Access,
        InodeOp::Symlink { .. } => InodeRpc::Symlink,
        InodeOp::Readlink => InodeRpc::Readlink,
        InodeOp::Link { .. } => InodeRpc::Link,
        InodeOp::SetXattr { .. } => InodeRpc::SetXattr,
        InodeOp::GetXattr { .. } => InodeRpc::GetXattr,
        InodeOp::ListXattr => InodeRpc::ListXattr,
        InodeOp::RemoveXattr { .. } => InodeRpc::RemoveXattr,
    }
}

/// A request: what it asks for, the inodes that it names, and the epochs that its header tells.
#[derive(Clone, Copy, Debug, PartialEq, Eq)]
pub struct InodeRequest<'a> {
    pub op: InodeOp<'a>,
    pub first: Option<InodeId>,
    pub second: Option<InodeId>,
    pub epochs: Option<HeaderEpochs>,
}

/// Barriers on the writes of a file.
#[derive(Clone, Copy, Debug, PartialEq, Eq, Structural)]
pub enum BarrierKind {
    Fsync,
    Hsync,
    Hflush,
}

/// Work for the core.
#[derive(Clone, Copy, Debug, PartialEq, Eq)]
#[allow(inconsistent_fields)]
pub enum InodeWork<'a> {
    Lookup { parent_inode_id: InodeId, name: &'a str },
    GetAttr { inode_id: InodeId },
    SetAttr { inode_id: InodeId, mask: u32, attrs: FileAttrs, freshness: Freshness },
    Mkdir { parent_inode_id: InodeId, name: &'a str, attrs: FileAttrs, freshness: Freshness },
    Create {
        parent_inode_id: InodeId,
        name: &'a str,
        attrs: FileAttrs,
        layout: FileLayout,
        freshness: Freshness,
    },
    ReadDir { parent_inode_id: InodeId, cursor_key: Option<&'a [u8]>, max_entries: Option<u32> },
    Unlink { parent_inode_id: InodeId, name: &'a str, freshness: Freshness },
    Rmdir { parent_inode_id: InodeId, name: &'a str, freshness: Freshness },
    Rename {
        src_parent_inode_id: InodeId,
        src_name: &'a str,
        dst_parent_inode_id: InodeId,
        dst_name: &'a str,
        flags: u32,
        freshness: Freshness,
    },
    Open { inode_id: InodeId, flags: i32 },
    Release { file_handle: u64 },
    Fsync {
        kind: BarrierKind,
        inode_id: InodeId,
        file_handle: Option<u64>,
        lease_id: Option<LeaseId>,
        lease_epoch: Option<u64>,
        fencing_token: Option<FencingToken>,
        target_size: Option<u64>,
        flags: i32,
        freshness: Freshness,
    },
    OpenWrite { inode_id: InodeId, desired_len: Option<u64>, mode: WriteMode, freshness: Freshness },
    /// With the extents that were converted.
    CloseWrite { file_handle: u64, lease: LeaseProof, final_size: u64, freshness: Freshness },
    GetFileLayout { inode_id: InodeId, range: Option<FileRange>, freshness: Freshness },
    RenewLease { file_handle: u64, lease_id: Option<LeaseId>, lease_epoch: u64, freshness: Freshness },
    Truncate {
        inode_id: InodeId,
        new_size: u64,
        lease_id: Option<LeaseId>,
        lease_epoch: u64,
        freshness: Freshness,
    },
    StatFs { inode_id: InodeId },
    Access { inode_id: InodeId, mode: u32 },
    Symlink {
        parent_inode_id: InodeId,
        name: &'a str,
        target: &'a str,
        attrs: FileAttrs,
        freshness: Freshness,
    },
    Readlink { inode_id: InodeId },
    Link { src_inode_id: InodeId, dst_parent_inode_id: InodeId, dst_name: &'a str, freshness: Freshness },
    SetXattr {
        inode_id: InodeId,
        name: &'a str,
        value: &'a [u8],
        create: bool,
        replace: bool,
        freshness: Freshness,
    },
    GetXattr { inode_id: InodeId, name: &'a str },
    ListXattr { inode_id: InodeId },
    RemoveXattr { inode_id: InodeId, name: &'a str, freshness: Freshness },
}

/// Why a request is turned down.
#[derive(Clone, Copy, Debug, PartialEq, Eq, Structural)]
pub enum InodeFault {
    Missing(Field),
    MissingFsyncBody,
    /// The conversion's own error is passed on.
    BadExtent,
    /// The guard's own answer is passed on.
    GuardRefused,
    /// The core's own failure is passed on.
    CoreFailed,
}

/// The attributes that the wire tells, where the request needs some.
pub open spec fn attrs_in(op: InodeOp) -> Option<WireFileAttrs> {
    match op {
        InodeOp::SetAttr { attrs, .. } => attrs,
        InodeOp::Mkdir { attrs, .. } => attrs,
        InodeOp::Create { attrs, .. } => attrs,
        InodeOp::Symlink { attrs, .. } => attrs,
        _ => None,
    }
}

pub open spec fn needs_attrs(rpc: InodeRpc) -> bool {
    rpc == InodeRpc::SetAttr || rpc == InodeRpc::Mkdir || rpc == InodeRpc::Create || rpc == InodeRpc::Symlink
}

/// What is wrong with what a request carries, if anything is. The inode of a barrier is looked at
/// later.
pub open spec fn request_fault(req: InodeRequest) -> Option<InodeFault> {
    match subject_of(rpc_of(req.op)) {
        Subject::Inode(field) => if req.first is None {
            Some(InodeFault::Missing(field))
        } else if needs_attrs(rpc_of(req.op)) && attrs_in(req.op) is None {
            Some(InodeFault::Missing(Field::FileAttrs))
        } else if req.op is Create && req.op->layout is None {
            Some(InodeFault::Missing(Field::FileLayout))
        } else {
            None
        },
        Subject::Inodes(first, second) => if req.first is None {
            Some(InodeFault::Missing(first))
        } else if req.second is None {
            Some(InodeFault::Missing(second))
        } else {
            None
        },
        Subject::Handle => if req.op is CloseWrite && !req.op->extents_ok {
            Some(InodeFault::BadExtent)
        } else {
            None
        },
        Subject::Barrier => match req.op {
            InodeOp::Hsync(None) | InodeOp::Hflush(None) => Some(InodeFault::MissingFsyncBody),
            _ => None,
        },
    }
}

fn fault_in(req: &InodeRequest) -> (fault: Option<InodeFault>)
    ensures
        fault == request_fault(*req),
{
    match subject(rpc_for(&req.op)) {
        Subject::Inode(field) => {
            if req.first.is_none() {
                return Some(InodeFault::Missing(field));
            }
            match &req.op {
                InodeOp::SetAttr { attrs: None, .. }
                | InodeOp::Mkdir { attrs: None, .. }
                | InodeOp::Create { attrs: None, .. }
                | InodeOp::Symlink { attrs: None, .. } => Some(InodeFault::Missing(Field::FileAttrs)),
                InodeOp::Create { layout: None, .. } => Some(InodeFault::Missing(Field::FileLayout)),
                _ => None,
            }
        },
        Subject::Inodes(first, second) => {
            if req.first.is_none() {
                return Some(InodeFault::Missing(first));
            }
            if req.second.is_none() {
                return Some(InodeFault::Missing(second));
            }
            None
        },
        Subject::Handle => match &req.op {
            InodeOp::CloseWrite { extents_ok: false, .. } => Some(InodeFault::BadExtent),
            _ => None,
        },
        Subject::Barrier => match &req.op {
            InodeOp::Hsync(None) | InodeOp::Hflush(None) => Some(InodeFault::MissingFsyncBody),
            _ => None,
        },
    }
}

/// The handle that a request is about.
pub open spec fn handle_of(op: InodeOp) -> u64 {
    match op {
        InodeOp::Release { file_handle } => file_handle,
        InodeOp::CloseWrite { file_handle, .. } => file_handle,
        InodeOp::RenewInodeLease { file_handle, .. } => file_handle,
        _ => 0,
    }
}

/// The body of a barrier, where the request is one and has a body.
pub open spec fn barrier_of(op: InodeOp) -> Option<Barrier> {
    match op {
        InodeOp::Fsync(barrier) => Some(barrier),
        InodeOp::Hsync(barrier) => barrier,
        InodeOp::Hflush(barrier) => barrier,
        _ => None,
    }
}

/// The kind of a barrier.
pub open spec fn kind_of(op: InodeOp) -> BarrierKind {
    match op {
        InodeOp::Hsync(_) => BarrierKind::Hsync,
        InodeOp::Hflush(_) => BarrierKind::Hflush,
        _ => BarrierKind::Fsync,
    }
}

/// The barrier as the core takes it.
pub open spec fn barrier_work<'a>(
    kind: BarrierKind,
    inode_id: InodeId,
    barrier: Barrier,
    epochs: Option<HeaderEpochs>,
) -> InodeWork<'a> {
    InodeWork::Fsync {
        kind,
        inode_id,
        file_handle: barrier.file_handle,
        lease_id: barrier.lease_id,
        lease_epoch: barrier.lease_epoch,
        fencing_token: barrier.fencing_token,
        target_size: barrier.target_size,
        flags: barrier.flags as i32,
        freshness: inputs::fresh_at_barrier(epochs, barrier.route_epoch, barrier.worker_epoch),
    }
}

/// What the core is asked to do: the request as it was made, with the inodes that it names.
pub open spec fn work_of<'a>(req: InodeRequest<'a>) -> InodeWork<'a> {
    let first = req.first->0;
    let second = req.second->0;
    let freshness = inputs::fresh_by(req.epochs);
    match req.op {
        InodeOp::Lookup { name } => InodeWork::Lookup { parent_inode_id: first, name },
        InodeOp::GetAttr => InodeWork::GetAttr { inode_id: first },
        InodeOp::SetAttr { mask, attrs } => InodeWork::SetAttr {
            inode_id: first,
            mask,
            attrs: wire::attrs_told(attrs->0),
            freshness,
        },
        InodeOp::Mkdir { name, attrs } => InodeWork::Mkdir {
            parent_inode_id: first,
            name,
            attrs: wire::attrs_told(attrs->0),
            freshness,
        },
        InodeOp::Create { name, attrs, layout } => InodeWork::Create {
            parent_inode_id: first,
            name,
            attrs: wire::attrs_told(attrs->0),
            layout: inputs::layout_told(layout->0),
            freshness,
        },
        InodeOp::ReadDir { cursor_key, max_entries } => InodeWork::ReadDir {
            parent_inode_id: first,
            cursor_key: if cursor_key@.len() == 0 {
                None
            } else {
                Some(cursor_key)
            },
            max_entries: if max_entries == 0 {
                None
            } else {
                Some(max_entries)
            },
        },
        InodeOp::Unlink { name } => InodeWork::Unlink { parent_inode_id: first, name, freshness },
        InodeOp::Rmdir { name } => InodeWork::Rmdir { parent_inode_id: first, name, freshness },
        InodeOp::Rename { src_name, dst_name, flags } => InodeWork::Rename {
            src_parent_inode_id: first,
            src_name,
            dst_parent_inode_id: second,
            dst_name,
            flags,
            freshness,
        },
        InodeOp::Open { flags } => InodeWork::Open { inode_id: first, flags: flags as i32 },
        InodeOp::Release { file_handle } => InodeWork::Release { file_handle },
        InodeOp::Fsync(_) | InodeOp::Hsync(_) | InodeOp::Hflush(_) => barrier_work(
            kind_of(req.op),
            first,
            barrier_of(req.op)->0,
            req.epochs,
        ),
        InodeOp::OpenWrite { desired_len, mode } => InodeWork::OpenWrite {
            inode_id: first,
            desired_len,
            mode,
            freshness,
        },
        InodeOp::CloseWrite { file_handle, lease, final_size, .. } => InodeWork::CloseWrite {
            file_handle,
            lease,
            final_size,
            freshness,
        },
        InodeOp::GetFileLayout { range } => InodeWork::GetFileLayout {
            inode_id: first,
            range: inputs::range_told(range),
            freshness,
        },
        InodeOp::RenewInodeLease { file_handle, lease_id, lease_epoch } => InodeWork::RenewLease {
            file_handle,
            lease_id,
            lease_epoch,
            freshness,
        },
        InodeOp::Truncate { new_size, lease_id, lease_epoch } => InodeWork::Truncate {
            inode_id: first,
            new_size,
            lease_id,
            lease_epoch,
            freshness,
        },
        InodeOp::StatFs => InodeWork::StatFs { inode_id: first },
        InodeOp::Access { mode } => InodeWork::Access { inode_id: first, mode },
        InodeOp::Symlink { name, target, attrs } => InodeWork::Symlink {
            parent_inode_id: first,
            name,
            target,
            attrs: wire::attrs_told(attrs->0),
            freshness,
        },
        InodeOp::Readlink => InodeWork::Readlink { inode_id: first },
        InodeOp::Link { dst_name } => InodeWork::Link {
            src_inode_id: first,
            dst_parent_inode_id: second,
            dst_name,
            freshness,
        },
        InodeOp::SetXattr { name, value, create, replace } => InodeWork::SetXattr {
            inode_id: first,
            name,
            value,
            create,
            replace,
            freshness,
        },
        InodeOp::GetXattr { name } => InodeWork::GetXattr { inode_id: first, name },
        InodeOp::ListXattr => InodeWork::ListXattr { inode_id: first },
        InodeOp::RemoveXattr { name } => InodeWork::RemoveXattr { inode_id: first, name, freshness },
    }
}

/// The work on one inode.
fn work_on_inode<'a>(req: &InodeRequest<'a>, first: InodeId) -> (work: Option<InodeWork<'a>>)
    requires
        req.first == Some(first),
        request_fault(*req) is None,
    ensures
        subject_of(rpc_of(req.op)) is Inode ==> work == Some(work_of(*req)),
{
    let freshness = inputs::freshness_from_header(req.epochs);
    match req.op {
        InodeOp::Lookup { name } => Some(InodeWork::Lookup { parent_inode_id: first, name }),
        InodeOp::GetAttr => Some(InodeWork::GetAttr { inode_id: first }),
        InodeOp::SetAttr { mask, attrs } => match wire::proto_to_file_attrs(attrs) {
            Ok(attrs) => Some(InodeWork::SetAttr { inode_id: first, mask, attrs, freshness }),
            Err(_) => None,
        },
        InodeOp::Mkdir { name, attrs } => match wire::proto_to_file_attrs(attrs) {
            Ok(attrs) => Some(InodeWork::Mkdir { parent_inode_id: first, name, attrs, freshness }),
            Err(_) => None,
        },
        InodeOp::Create { name, attrs, layout } => match (
            wire::proto_to_file_attrs(attrs),
            inputs::proto_to_file_layout(layout),
        ) {
            (Ok(attrs), Ok(layout)) => Some(
                InodeWork::Create { parent_inode_id: first, name, attrs, layout, freshness },
            ),
            _ => None,
        },
        InodeOp::ReadDir { cursor_key, max_entries } => Some(
            InodeWork::ReadDir {
                parent_inode_id: first,
                cursor_key: if cursor_key.len() == 0 {
                    None
                } else {
                    Some(cursor_key)
                },
                max_entries: if max_entries == 0 {
                    None
                } else {
                    Some(max_entries)
                },
            },
        ),
        InodeOp::Unlink { name } => Some(InodeWork::Unlink { parent_inode_id: first, name, freshness }),
        InodeOp::Rmdir { name } => Some(InodeWork::Rmdir { parent_inode_id: first, name, freshness }),
        InodeOp::Open { flags } => Some(InodeWork::Open { inode_id: first, flags: flags as i32 }),
        InodeOp::OpenWrite { desired_len, mode } => Some(
            InodeWork::OpenWrite { inode_id: first, desired_len, mode, freshness },
        ),
        InodeOp::GetFileLayout { range } => Some(
            InodeWork::GetFileLayout { inode_id: first, range: inputs::range_from_wire(range), freshness },
        ),
        InodeOp::Truncate { new_size, lease_id, lease_epoch } => Some(
            InodeWork::Truncate { inode_id: first, new_size, lease_id, lease_epoch, freshness },
        ),
        InodeOp::StatFs => Some(InodeWork::StatFs { inode_id: first }),
        InodeOp::Access { mode } => Some(InodeWork::Access { inode_id: first, mode }),
        InodeOp::Symlink { name, target, attrs } => match wire::proto_to_file_attrs(attrs) {
            Ok(attrs) => Some(InodeWork::Symlink { parent_inode_id: first, name, target, attrs, freshness }),
            Err(_) => None,
        },
        InodeOp::Readlink => Some(InodeWork::Readlink { inode_id: first }),
        InodeOp::SetXattr { name, value, create, replace } => Some(
            InodeWork::SetXattr { inode_id: first, name, value, create, replace, freshness },
        ),
        InodeOp::GetXattr { name } => Some(InodeWork::GetXattr { inode_id: first, name }),
        InodeOp::ListXattr => Some(InodeWork::ListXattr { inode_id: first }),
        InodeOp::RemoveXattr { name } => Some(InodeWork::RemoveXattr { inode_id: first, name, freshness }),
        _ => None,
    }
}

/// The work on a handle.
fn work_on_handle<'a>(req: &InodeRequest<'a>) -> (work: Option<(u64, InodeWork<'a>)>)
    ensures
        work == (if subject_of(rpc_of(req.op)) is Handle {
            Some((handle_of(req.op), work_of(*req)))
        } else {
            None
        }),
{
    let freshness = inputs::freshness_from_header(req.epochs);
    match req.op {
        InodeOp::Release { file_handle } => Some((file_handle, InodeWork::Release { file_handle })),
        InodeOp::CloseWrite { file_handle, lease, extents_ok: _, final_size } => Some(
            (file_handle, InodeWork::CloseWrite { file_handle, lease, final_size, freshness }),
        ),
        InodeOp::RenewInodeLease { file_handle, lease_id, lease_epoch } => Some(
            (file_handle, InodeWork::RenewLease { file_handle, lease_id, lease_epoch, freshness }),
        ),
        _ => None,
    }
}

/// What the core says of an entry to remove.
#[derive(Clone, Copy, Debug, PartialEq, Eq, Structural)]
pub struct RemovePlan {
    pub parent_inode_id: InodeId,
    pub target_inode_id: Option<InodeId>,
}

/// What the core says of a rename.
#[derive(Clone, Copy, Debug, PartialEq, Eq, Structural)]
pub struct RenamePlan {
    pub src_parent_inode_id: InodeId,
    pub src_inode_id: Option<InodeId>,
    pub dst_parent_inode_id: InodeId,
    pub dst_inode_id: Option<InodeId>,
}

/// What the core says of a handle.
#[derive(Clone, Copy, Debug, PartialEq, Eq, Structural)]
pub struct SessionPlan {
    pub inode_id: Option<InodeId>,
    pub mount_id: Option<MountId>,
}

/// What has been seen so far. Nothing stands for what was not asked, and an inner nothing for a
/// failure of the core.
#[derive(Clone, Copy, Debug, PartialEq, Eq, Structural)]
pub struct InodeSeen {
    /// Whether the node can serve the request at all.
    pub node: Option<bool>,
    pub removal: Option<Option<RemovePlan>>,
    pub renaming: Option<Option<RenamePlan>>,
    pub session: Option<Option<SessionPlan>>,
    /// The mount of the inode.
    pub mount: Option<Option<MountId>>,
    /// Whether the guard let the request through.
    pub guard: Option<bool>,
    /// Whether the core carried the request out.
    pub done: Option<bool>,
}

/// A question to the guard: what is needed, for which mount, which right on whom, and whose sticky
/// bits have to be looked at first.
#[derive(Clone, Copy, Debug, PartialEq, Eq, Structural)]
pub struct InodeGuardCall {
    pub spec: GuardSpec,
    pub mount_id: Option<MountId>,
    pub op: AuthzOp,
    pub target: Option<AuthzTarget>,
    pub second_target: Option<AuthzTarget>,
    pub sticky: Option<AuthzTarget>,
    pub second_sticky: Option<AuthzTarget>,
}

/// The answer: the fault if there is one, and the inode whose cached permissions no longer hold.
#[derive(Clone, Copy, Debug, PartialEq, Eq, Structural)]
pub struct InodeAnswer {
    pub fault: Option<InodeFault>,
    pub invalidate: Option<InodeId>,
}

/// What comes next.
#[derive(Clone, Copy, Debug, PartialEq, Eq)]
#[allow(inconsistent_fields)]
pub enum InodeStep<'a> {
    /// Whether the root mount is up and, where asked, this node leads.
    CheckNode { leader: bool },
    PlanUnlink(InodeId, &'a str),
    PlanRmdir(InodeId, &'a str),
    PlanRename { src: InodeId, src_name: &'a str, dst: InodeId, dst_name: &'a str },
    PlanSession(u64),
    PlanMount(InodeId),
    AskGuard(InodeGuardCall),
    Execute(InodeWork<'a>),
    Answer(InodeAnswer),
}

pub open spec fn turned_down<'a>(fault: InodeFault) -> InodeStep<'a> {
    InodeStep::Answer(InodeAnswer { fault: Some(fault), invalidate: None })
}

fn turn_down<'a>(fault: InodeFault) -> (step: InodeStep<'a>)
    ensures
        step == turned_down(fault),
{
    InodeStep::Answer(InodeAnswer { fault: Some(fault), invalidate: None })
}

/// Who is looked at for a sticky bit: the entry, seen from its directory, where it exists.
pub open spec fn sticky_target(parent: InodeId, entry: Option<InodeId>) -> Option<AuthzTarget> {
    match entry {
        Some(id) => Some(AuthzTarget::spec_for_inode(id).spec_with_parent(parent)),
        None => None,
    }
}

/// Who is looked at for a sticky bit.
pub fn sticky_pre_check(parent: InodeId, entry: Option<InodeId>) -> (target: Option<AuthzTarget>)
    ensures
        target == sticky_target(parent, entry),
{
    match entry {
        Some(id) => Some(AuthzTarget::for_inode(id).with_parent(parent)),
        None => None,
    }
}

/// The question about one inode.
pub open spec fn about_inode(rpc: InodeRpc, spec: GuardSpec, mount_id: Option<MountId>, target: Option<InodeId>) -> InodeGuardCall {
    InodeGuardCall {
        spec: spec.spec_with_authz(),
        mount_id,
        op: right_for(rpc),
        target: match target {
            Some(id) => Some(AuthzTarget::spec_for_inode(id)),
            None => None,
        },
        second_target: None,
        sticky: None,
        second_sticky: None,
    }
}

fn ask_about_inode(rpc: InodeRpc, spec: GuardSpec, mount_id: Option<MountId>, target: Option<InodeId>) -> (call: InodeGuardCall)
    ensures
        call == about_inode(rpc, spec, mount_id, target),
{
    InodeGuardCall {
        spec: spec.with_authz(),
        mount_id,
        op: authz_for_rpc(rpc),
        target: match target {
            Some(id) => Some(AuthzTarget::for_inode(id)),
            None => None,
        },
        second_target: None,
        sticky: None,
        second_sticky: None,
    }
}

/// The data operation of a request on the data of a file, if it is one.
pub open spec fn data_op(rpc: InodeRpc) -> Option<DataIoOp> {
    match rpc {
        InodeRpc::OpenWrite => Some(DataIoOp::OpenWrite),
        InodeRpc::GetFileLayout => Some(DataIoOp::Read),
        InodeRpc::Truncate => Some(DataIoOp::Truncate),
        InodeRpc::Fsync | InodeRpc::Hsync | InodeRpc::Hflush => Some(DataIoOp::Fsync),
        InodeRpc::Release | InodeRpc::CloseWrite => Some(DataIoOp::CloseWrite),
        InodeRpc::RenewInodeLease => Some(DataIoOp::RenewLease),
        _ => None,
    }
}

fn data_op_of(rpc: InodeRpc) -> (op: Option<DataIoOp>)
    ensures
        op == data_op(rpc),
{
    match rpc {
        InodeRpc::OpenWrite => Some(DataIoOp::OpenWrite),
        InodeRpc::GetFileLayout => Some(DataIoOp::Read),
        InodeRpc::Truncate => Some(DataIoOp::Truncate),
        InodeRpc::Fsync | InodeRpc::Hsync | InodeRpc::Hflush => Some(DataIoOp::Fsync),
        InodeRpc::Release | InodeRpc::CloseWrite => Some(DataIoOp::CloseWrite),
        InodeRpc::RenewInodeLease => Some(DataIoOp::RenewLease),
        _ => None,
    }
}

/// What the guard needs. Data is looked at with the mount; writing needs the leader.
pub open spec fn needed(rpc: InodeRpc, with_mount: bool) -> GuardSpec {
    match data_op(rpc) {
        Some(op) if with_mount => if only_reads(rpc) {
            GuardSpec::spec_data_io(op)
        } else {
            GuardSpec::spec_data_io(op).spec_with_leader()
        },
        _ => if only_reads(rpc) {
            GuardSpec::spec_metadata_read()
        } else {
            GuardSpec::spec_metadata_write()
        },
    }
}

fn spec_needed(rpc: InodeRpc, with_mount: bool) -> (spec: GuardSpec)
    ensures
        spec == needed(rpc, with_mount),
{
    let read = is_read(rpc);
    match data_op_of(rpc) {
        Some(op) => {
            if with_mount {
                return if read {
                    GuardSpec::data_io(op)
                } else {
                    GuardSpec::data_io(op).with_leader()
                };
            }
        },
        None => {},
    }
    if read {
        GuardSpec::metadata_read()
    } else {
        GuardSpec::metadata_write()
    }
}

/// The inode whose cached permissions no longer hold once the request was carried out.
pub open spec fn permissions_changed(req: InodeRequest) -> Option<InodeId> {
    if req.op is SetAttr || req.op is SetXattr || req.op is RemoveXattr {
        req.first
    } else {
        None
    }
}

/// The guard is asked, then the core carries the request out.
pub open spec fn guarded_next<'a>(req: InodeRequest<'a>, call: InodeGuardCall, seen: InodeSeen) -> InodeStep<'a> {
    if seen.guard is None {
        InodeStep::AskGuard(call)
    } else if seen.guard == Some(false) {
        turned_down(InodeFault::GuardRefused)
    } else if seen.done is None {
        InodeStep::Execute(work_of(req))
    } else if seen.done == Some(false) {
        turned_down(InodeFault::CoreFailed)
    } else {
        InodeStep::Answer(InodeAnswer { fault: None, invalidate: permissions_changed(req) })
    }
}

fn guard_and_execute<'a>(
    req: &InodeRequest<'a>,
    work: InodeWork<'a>,
    call: InodeGuardCall,
    seen: &InodeSeen,
) -> (step: InodeStep<'a>)
    requires
        work == work_of(*req),
    ensures
        step == guarded_next(*req, call, *seen),
{
    match seen.guard {
        None => {
            return InodeStep::AskGuard(call);
        },
        Some(passed) => {
            if !passed {
                return turn_down(InodeFault::GuardRefused);
            }
        },
    }
    match seen.done {
        None => InodeStep::Execute(work),
        Some(done) => if done {
            let invalidate = match &req.op {
                InodeOp::SetAttr { .. } | InodeOp::SetXattr { .. } | InodeOp::RemoveXattr { .. } => req.first,
                _ => None,
            };
            InodeStep::Answer(InodeAnswer { fault: None, invalidate })
        } else {
            turn_down(InodeFault::CoreFailed)
        },
    }
}

/// The guard's question about a removal: the entry is looked at for a sticky bit.
pub open spec fn about_removal(rpc: InodeRpc, plan: RemovePlan) -> InodeGuardCall {
    InodeGuardCall {
        sticky: sticky_target(plan.parent_inode_id, plan.target_inode_id),
        ..about_inode(rpc, needed(rpc, false), None, Some(plan.parent_inode_id))
    }
}

/// A removal: it is planned first.
pub open spec fn removal_next<'a>(req: InodeRequest<'a>, seen: InodeSeen) -> InodeStep<'a> {
    match seen.removal {
        None => match req.op {
            InodeOp::Rmdir { name } => InodeStep::PlanRmdir(req.first->0, name),
            _ => InodeStep::PlanUnlink(req.first->0, req.op->Unlink_name),
        },
        Some(None) => turned_down(InodeFault::CoreFailed),
        Some(Some(plan)) => guarded_next(req, about_removal(rpc_of(req.op), plan), seen),
    }
}

/// A request on one inode. A removal is planned first; data is looked at with the inode's mount.
pub open spec fn inode_next<'a>(req: InodeRequest<'a>, seen: InodeSeen) -> InodeStep<'a> {
    let rpc = rpc_of(req.op);
    if req.op is Unlink || req.op is Rmdir {
        removal_next(req, seen)
    } else if data_op(rpc) is Some {
        match seen.mount {
            None => InodeStep::PlanMount(req.first->0),
            Some(None) => turned_down(InodeFault::CoreFailed),
            Some(Some(mount_id)) => guarded_next(
                req,
                about_inode(rpc, needed(rpc, true), Some(mount_id), req.first),
                seen,
            ),
        }
    } else {
        guarded_next(req, about_inode(rpc, needed(rpc, false), None, req.first), seen)
    }
}

/// The guard's question about a rename: both directories, and both entries for a sticky bit.
pub open spec fn about_rename(plan: RenamePlan) -> InodeGuardCall {
    InodeGuardCall {
        second_target: Some(AuthzTarget::spec_for_inode(plan.dst_parent_inode_id)),
        sticky: sticky_target(plan.src_parent_inode_id, plan.src_inode_id),
        second_sticky: sticky_target(plan.dst_parent_inode_id, plan.dst_inode_id),
        ..about_inode(InodeRpc::Rename, needed(InodeRpc::Rename, false), None, Some(plan.src_parent_inode_id))
    }
}

/// A request on two inodes. A rename is planned first.
pub open spec fn inodes_next<'a>(req: InodeRequest<'a>, seen: InodeSeen) -> InodeStep<'a> {
    match req.op {
        InodeOp::Rename { src_name, dst_name, .. } => match seen.renaming {
            None => InodeStep::PlanRename { src: req.first->0, src_name, dst: req.second->0, dst_name },
            Some(None) => turned_down(InodeFault::CoreFailed),
            Some(Some(plan)) => guarded_next(req, about_rename(plan), seen),
        },
        _ => guarded_next(
            req,
            InodeGuardCall {
                second_target: Some(AuthzTarget::spec_for_inode(req.second->0)),
                ..about_inode(rpc_of(req.op), needed(rpc_of(req.op), false), None, req.first)
            },
            seen,
        ),
    }
}

/// A request on a handle: the core says what it is a handle on. Data is looked at where it has a
/// mount.
pub open spec fn handle_next<'a>(req: InodeRequest<'a>, seen: InodeSeen) -> InodeStep<'a> {
    let rpc = rpc_of(req.op);
    match seen.session {
        None => InodeStep::PlanSession(handle_of(req.op)),
        Some(None) => turned_down(InodeFault::CoreFailed),
        Some(Some(plan)) => guarded_next(
            req,
            about_inode(rpc, needed(rpc, plan.mount_id is Some), plan.mount_id, plan.inode_id),
            seen,
        ),
    }
}

/// A barrier: the inode must be named; the core says what the handle, where there is one, is a
/// handle on, and which mount the inode lies in. Who is asked about is the handle's inode, or else
/// the one that is named.
pub open spec fn barrier_next<'a>(req: InodeRequest<'a>, barrier: Barrier, seen: InodeSeen) -> InodeStep<'a> {
    let rpc = rpc_of(req.op);
    if req.first is None {
        turned_down(InodeFault::Missing(Field::InodeId))
    } else if barrier.file_handle is Some && seen.session is None {
        InodeStep::PlanSession(barrier.file_handle->0)
    } else if barrier.file_handle is Some && seen.session->0 is None {
        turned_down(InodeFault::CoreFailed)
    } else {
        match seen.mount {
            None => InodeStep::PlanMount(req.first->0),
            Some(None) => turned_down(InodeFault::CoreFailed),
            Some(Some(mount_id)) => guarded_next(
                req,
                about_inode(
                    rpc,
                    needed(rpc, true),
                    Some(mount_id),
                    if barrier.file_handle is Some && seen.session->0->0.inode_id is Some {
                        seen.session->0->0.inode_id
                    } else {
                        req.first
                    },
                ),
                seen,
            ),
        }
    }
}

/// What comes next for a request.
pub open spec fn serve_next<'a>(req: InodeRequest<'a>, seen: InodeSeen) -> InodeStep<'a> {
    if request_fault(req) is Some {
        turned_down(request_fault(req)->0)
    } else if seen.node is None {
        InodeStep::CheckNode { leader: !only_reads(rpc_of(req.op)) }
    } else if seen.node == Some(false) {
        turned_down(InodeFault::GuardRefused)
    } else {
        match subject_of(rpc_of(req.op)) {
            Subject::Inode(_) => inode_next(req, seen),
            Subject::Inodes(_, _) => inodes_next(req, seen),
            Subject::Handle => handle_next(req, seen),
            Subject::Barrier => barrier_next(req, barrier_of(req.op)->0, seen),
        }
    }
}

fn on_inode<'a>(req: &InodeRequest<'a>, inode_id: InodeId, work: InodeWork<'a>, seen: &InodeSeen) -> (step: InodeStep<'a>)
    requires
        req.first == Some(inode_id),
        work == work_of(*req),
    ensures
        step == inode_next(*req, *seen),
{
    let rpc = rpc_for(&req.op);
    let plan_step = match req.op {
        InodeOp::Unlink { name } => Some(InodeStep::PlanUnlink(inode_id, name)),
        InodeOp::Rmdir { name } => Some(InodeStep::PlanRmdir(inode_id, name)),
        _ => None,
    };
    match plan_step {
        Some(plan_step) => {
            return match seen.removal {
                None => plan_step,
                Some(None) => turn_down(InodeFault::CoreFailed),
                Some(Some(plan)) => {
                    let mut call = ask_about_inode(rpc, spec_needed(rpc, false), None, Some(plan.parent_inode_id));
                    call.sticky = sticky_pre_check(plan.parent_inode_id, plan.target_inode_id);
                    guard_and_execute(req, work, call, seen)
                },
            };
        },
        None => {},
    }
    match data_op_of(rpc) {
        Some(_) => match seen.mount {
            None => InodeStep::PlanMount(inode_id),
            Some(None) => turn_down(InodeFault::CoreFailed),
            Some(Some(mount_id)) => {
                let call = ask_about_inode(rpc, spec_needed(rpc, true), Some(mount_id), Some(inode_id));
                guard_and_execute(req, work, call, seen)
            },
        },
        None => {
            let call = ask_about_inode(rpc, spec_needed(rpc, false), None, Some(inode_id));
            guard_and_execute(req, work, call, seen)
        },
    }
}

fn on_inodes<'a>(req: &InodeRequest<'a>, first: InodeId, second: InodeId, seen: &InodeSeen) -> (step: InodeStep<'a>)
    requires
        req.first == Some(first),
        req.second == Some(second),
        subject_of(rpc_of(req.op)) is Inodes,
    ensures
        step == inodes_next(*req, *seen),
{
    let freshness = inputs::freshness_from_header(req.epochs);
    match req.op {
        InodeOp::Rename { src_name, dst_name, flags } => match seen.renaming {
            None => InodeStep::PlanRename { src: first, src_name, dst: second, dst_name },
            Some(None) => turn_down(InodeFault::CoreFailed),
            Some(Some(plan)) => {
                let mut call = ask_about_inode(
                    InodeRpc::Rename,
                    spec_needed(InodeRpc::Rename, false),
                    None,
                    Some(plan.src_parent_inode_id),
                );
                call.second_target = Some(AuthzTarget::for_inode(plan.dst_parent_inode_id));
                call.sticky = sticky_pre_check(plan.src_parent_inode_id, plan.src_inode_id);
                call.second_sticky = sticky_pre_check(plan.dst_parent_inode_id, plan.dst_inode_id);
                let work = InodeWork::Rename {
                    src_parent_inode_id: first,
                    src_name,
                    dst_parent_inode_id: second,
                    dst_name,
                    flags,
                    freshness,
                };
                guard_and_execute(req, work, call, seen)
            },
        },
        InodeOp::Link { dst_name } => {
            let mut call = ask_about_inode(InodeRpc::Link, spec_needed(InodeRpc::Link, false), None, Some(first));
            call.second_target = Some(AuthzTarget::for_inode(second));
            let work = InodeWork::Link { src_inode_id: first, dst_parent_inode_id: second, dst_name, freshness };
            guard_and_execute(req, work, call, seen)
        },
        _ => turn_down(InodeFault::CoreFailed),
    }
}

fn on_handle<'a>(req: &InodeRequest<'a>, handle: u64, work: InodeWork<'a>, seen: &InodeSeen) -> (step: InodeStep<'a>)
    requires
        handle == handle_of(req.op),
        work == work_of(*req),
    ensures
        step == handle_next(*req, *seen),
{
    let rpc = rpc_for(&req.op);
    match seen.session {
        None => InodeStep::PlanSession(handle),
        Some(None) => turn_down(InodeFault::CoreFailed),
        Some(Some(plan)) => {
            let call = ask_about_inode(
                rpc,
                spec_needed(rpc, plan.mount_id.is_some()),
                plan.mount_id,
                plan.inode_id,
            );
            guard_and_execute(req, work, call, seen)
        },
    }
}

/// A barrier on the writes of a file.
pub fn fsync_like<'a>(req: &InodeRequest<'a>, kind: BarrierKind, barrier: Barrier, seen: &InodeSeen) -> (step: InodeStep<'a>)
    requires
        req.op is Fsync || req.op is Hsync || req.op is Hflush,
        barrier_of(req.op) == Some(barrier),
        kind == kind_of(req.op),
    ensures
        step == barrier_next(*req, barrier, *seen),
{
    let rpc = rpc_for(&req.op);
    let inode_id = match req.first {
        Some(inode_id) => inode_id,
        None => {
            return turn_down(InodeFault::Missing(Field::InodeId));
        },
    };
    let mut asked_about = inode_id;
    match barrier.file_handle {
        Some(handle) => match seen.session {
            None => {
                return InodeStep::PlanSession(handle);
            },
            Some(None) => {
                return turn_down(InodeFault::CoreFailed);
            },
            Some(Some(plan)) => match plan.inode_id {
                Some(id) => {
                    asked_about = id;
                },
                None => {},
            },
        },
        None => {},
    }
    match seen.mount {
        None => InodeStep::PlanMount(inode_id),
        Some(None) => turn_down(InodeFault::CoreFailed),
        Some(Some(mount_id)) => {
            let call = ask_about_inode(rpc, spec_needed(rpc, true), Some(mount_id), Some(asked_about));
            let work = InodeWork::Fsync {
                kind,
                inode_id,
                file_handle: barrier.file_handle,
                lease_id: barrier.lease_id,
                lease_epoch: barrier.lease_epoch,
                fencing_token: barrier.fencing_token,
                target_size: barrier.target_size,
                flags: barrier.flags as i32,
                freshness: inputs::barrier_freshness(req.epochs, barrier.route_epoch, barrier.worker_epoch),
            };
            guard_and_execute(req, work, call, seen)
        },
    }
}

/// The service on one node: its guards, and the scheme under which requests are authorized.
#[derive(Debug)]
pub struct MetadataInodeServiceImpl {
    pub guard_chain: GuardChain,
    pub authz_scheme: AuthzScheme,
}

impl MetadataInodeServiceImpl {
    /// No gate, no raft node, and everything is allowed.
    pub fn new() -> (service: Self)
        ensures
            service.guard_chain.readiness_gate is None,
            service.guard_chain.raft_node is None,
            service.authz_scheme == AuthzScheme::AllowAll,
    {
        MetadataInodeServiceImpl { guard_chain: GuardChain::new(), authz_scheme: AuthzScheme::AllowAll }
    }

    /// With a raft node, as it stands now.
    pub fn with_raft_node(self, raft_node: RaftView) -> (service: Self)
        ensures
            service.guard_chain == (GuardChain { raft_node: Some(raft_node), ..self.guard_chain }),
            service.authz_scheme == self.authz_scheme,
    {
        MetadataInodeServiceImpl {
            guard_chain: self.guard_chain.with_raft_node(Some(raft_node)),
            authz_scheme: self.authz_scheme,
        }
    }

    /// With a gate of the root mount, as it stands now.
    pub fn with_readiness_gate(self, readiness_gate: bool) -> (service: Self)
        ensures
            service.guard_chain == (GuardChain { readiness_gate: Some(readiness_gate), ..self.guard_chain }),
            service.authz_scheme == self.authz_scheme,
    {
        MetadataInodeServiceImpl {
            guard_chain: self.guard_chain.with_readiness_gate(Some(readiness_gate)),
            authz_scheme: self.authz_scheme,
        }
    }

    /// With a scheme of authorization. Requests by inode cannot be authorized by path.
    pub fn with_authz_provider(self, scheme: AuthzScheme) -> (service: Self)
        requires
            scheme != AuthzScheme::RangerPath,
        ensures
            service == (MetadataInodeServiceImpl { authz_scheme: scheme, ..self }),
    {
        MetadataInodeServiceImpl { guard_chain: self.guard_chain, authz_scheme: scheme }
    }

    /// Whether the node can serve a request at all: one that changes something needs the leader.
    pub fn check_node(&self, rpc: InodeRpc, caller_group: &Option<GroupName>) -> (result: Result<(), GuardFailure>)
        ensures
            guard::guarded(
                result,
                if only_reads(rpc) {
                    guard::readiness_failure(self.guard_chain.readiness_gate)
                } else {
                    guard::first_failure(
                        guard::readiness_failure(self.guard_chain.readiness_gate),
                        guard::leadership_failure(self.guard_chain.raft_node, rpc::named(*caller_group)),
                    )
                },
            ),
    {
        if is_read(rpc) {
            self.guard_chain.check_meta_read()
        } else {
            self.guard_chain.check_meta_write(caller_group)
        }
    }

    /// What comes next for a request.
    pub fn serve<'a>(&self, req: &InodeRequest<'a>, seen: &InodeSeen) -> (step: InodeStep<'a>)
        ensures
            step == serve_next(*req, *seen),
    {
        match fault_in(req) {
            Some(fault) => {
                return turn_down(fault);
            },
            None => {},
        }
        let rpc = rpc_for(&req.op);
        match seen.node {
            None => {
                return InodeStep::CheckNode { leader: !is_read(rpc) };
            },
            Some(up) => {
                if !up {
                    return turn_down(InodeFault::GuardRefused);
                }
            },
        }
        match req.op {
            InodeOp::Fsync(barrier) => {
                return fsync_like(req, BarrierKind::Fsync, barrier, seen);
            },
            InodeOp::Hsync(Some(barrier)) => {
                return fsync_like(req, BarrierKind::Hsync, barrier, seen);
            },
            InodeOp::Hflush(Some(barrier)) => {
                return fsync_like(req, BarrierKind::Hflush, barrier, seen);
            },
            _ => {},
        }
        match work_on_handle(req) {
            Some((handle, work)) => {
                return on_handle(req, handle, work, seen);
            },
            None => {},
        }
        match (req.first, req.second, subject(rpc)) {
            (Some(first), Some(second), Subject::Inodes(_, _)) => on_inodes(req, first, second, seen),
            (Some(inode_id), _, _) => match work_on_inode(req, inode_id) {
                Some(work) => on_inode(req, inode_id, work, seen),
                None => turn_down(InodeFault::CoreFailed),
            },
            _ => turn_down(InodeFault::CoreFailed),
        }
    }
}

/// The error that a fault is told as, where it is this service's own.
pub fn fault_error(fault: InodeFault) -> (error: Option<MetadataError>)
    ensures
        match (fault, error) {
            (InodeFault::Missing(field), Some(e)) => e.says(
                ErrorKind::InvalidArgument,
                "Missing "@ + fs_types::field_name(field),
            ),
            (InodeFault::MissingFsyncBody, Some(e)) => e.says(ErrorKind::InvalidArgument, "missing fsync body"@),
            (InodeFault::BadExtent | InodeFault::GuardRefused | InodeFault::CoreFailed, None) => true,
            _ => false,
        },
{
    match fault {
        InodeFault::Missing(field) => Some(
            MetadataError::InvalidArgument(text::join("Missing ", fs_types::field_text(field))),
        ),
        InodeFault::MissingFsyncBody => Some(MetadataError::InvalidArgument(text::literal("missing fsync body"))),
        InodeFault::BadExtent | InodeFault::GuardRefused | InodeFault::CoreFailed => None,
    }
}

/// Schemes of authorization.
#[derive(Clone, Copy, Debug, PartialEq, Eq, Structural)]
pub enum AuthzScheme {
    AllowAll,
    InodePermissions,
    /// By path, which requests by inode do not have.
    RangerPath,
}

/// Whether requests by inode can be authorized under a scheme.
pub fn supports_scheme(scheme: AuthzScheme) -> (supported: bool)
    ensures
        supported == (scheme != AuthzScheme::RangerPath),
{
    match scheme {
        AuthzScheme::RangerPath => false,
        _ => true,
    }
}

// ---------------------------------------------------------------------------------------------
// Laws
// ---------------------------------------------------------------------------------------------

/// The core carries a request out only on a node that can serve it, and only after the guard let
/// it through; what it is handed is the request as it was made.
pub proof fn law_requests_are_guarded<'a>(req: InodeRequest<'a>, seen: InodeSeen)
    requires
        serve_next(req, seen) is Execute,
    ensures
        seen.node == Some(true),
        seen.guard == Some(true),
        request_fault(req) is None,
        serve_next(req, seen)->Execute_0 == work_of(req),
{
}

/// Whoever is asked, the guard is always asked about authorization, and for the right that the
/// request needs.
pub proof fn law_every_request_is_authorized<'a>(req: InodeRequest<'a>, seen: InodeSeen)
    requires
        serve_next(req, seen) is AskGuard,
    ensures
        serve_next(req, seen)->AskGuard_0.spec.authz,
        serve_next(req, seen)->AskGuard_0.op == right_for(rpc_of(req.op)),
{
}

/// A request that changes something needs the leader: the node is asked for it first, and the
/// guard again.
pub proof fn law_changes_need_the_leader<'a>(req: InodeRequest<'a>, seen: InodeSeen)
    requires
        !only_reads(rpc_of(req.op)),
    ensures
        serve_next(req, seen) is CheckNode ==> serve_next(req, seen)->leader,
        serve_next(req, seen) is AskGuard ==> serve_next(req, seen)->AskGuard_0.spec.leader,
{
}

/// No step is repeated: each is the answer or about something that has not been seen. So every
/// request is answered after finitely many steps.
pub proof fn law_no_step_is_repeated<'a>(req: InodeRequest<'a>, seen: InodeSeen)
    ensures
        match serve_next(req, seen) {
            InodeStep::CheckNode { .. } => seen.node is None,
            InodeStep::PlanUnlink(_, _) | InodeStep::PlanRmdir(_, _) => seen.removal is None,
            InodeStep::PlanRename { .. } => seen.renaming is None,
            InodeStep::PlanSession(_) => seen.session is None,
            InodeStep::PlanMount(_) => seen.mount is None,
            InodeStep::AskGuard(_) => seen.guard is None,
            InodeStep::Execute(_) => seen.done is None,
            InodeStep::Answer(_) => true,
        },
{
}

/// Removing or renaming an entry that exists, or onto one that exists, is preceded by a look at
/// the sticky bit of its directory.
pub proof fn law_sticky_bits_are_looked_at<'a>(req: InodeRequest<'a>, seen: InodeSeen)
    requires
        serve_next(req, seen) is AskGuard,
    ensures
        req.op is Unlink || req.op is Rmdir ==> serve_next(req, seen)->AskGuard_0.sticky == sticky_target(
            seen.removal->0->0.parent_inode_id,
            seen.removal->0->0.target_inode_id,
        ),
        req.op is Rename ==> serve_next(req, seen)->AskGuard_0.sticky == sticky_target(
            seen.renaming->0->0.src_parent_inode_id,
            seen.renaming->0->0.src_inode_id,
        ) && serve_next(req, seen)->AskGuard_0.second_sticky == sticky_target(
            seen.renaming->0->0.dst_parent_inode_id,
            seen.renaming->0->0.dst_inode_id,
        ),
{
}

/// Cached permissions of an inode are dropped after a change of them was carried out, and only
/// then.
pub proof fn law_permissions_are_dropped_after_changes<'a>(req: InodeRequest<'a>, seen: InodeSeen)
    requires
        serve_next(req, seen) is Answer,
    ensures
        serve_next(req, seen)->Answer_0.invalidate is Some <==> serve_next(req, seen)->Answer_0.fault is None && (
        req.op is SetAttr || req.op is SetXattr || req.op is RemoveXattr),
        serve_next(req, seen)->Answer_0.invalidate is Some ==> seen.done == Some(true) && serve_next(
            req,
            seen,
        )->Answer_0.invalidate == req.first,
{
}

} // verus!
