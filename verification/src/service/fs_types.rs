//! What filesystem requests, reads and answers are made of.

use crate::error::MetadataError;
use crate::ids::{CallId, InodeId, LeaseId, MountId, RaftLogId, ShardGroupId};
use crate::service::fs_service::FsRpcAuthz;
use crate::text;
use vstd::prelude::*;
use vstd::string::*;

verus! {

#[derive(Clone, Copy, Debug, PartialEq, Eq, Structural)]
pub enum InodeKind {
    File,
    Dir,
    Symlink,
}

/// What decisions need to know of an inode.
#[derive(Clone, Copy, Debug, PartialEq, Eq, Structural)]
pub struct InodeFacts {
    pub inode_id: InodeId,
    pub mount_id: MountId,
    pub kind: InodeKind,
    pub size: u64,
}

/// What decisions need to know of a mount.
#[derive(Clone, Copy, Debug, PartialEq, Eq, Structural)]
pub struct MountFacts {
    pub mount_id: MountId,
    pub namespace_owner_group_id: ShardGroupId,
    pub mount_epoch: u64,
}

/// What decisions need to know of a write session.
#[derive(Clone, Copy, Debug, PartialEq, Eq, Structural)]
pub struct SessionFacts {
    pub inode_id: InodeId,
    pub mount_id: MountId,
}

/// What reading an inode gave. The error of a failed read stays with the reader.
#[derive(Clone, Copy, Debug, PartialEq, Eq, Structural)]
pub enum InodeRead {
    Failed,
    Absent,
    Found(InodeFacts),
}

/// What reading a directory entry gave.
#[derive(Clone, Copy, Debug, PartialEq, Eq, Structural)]
pub enum DentryRead {
    Failed,
    Absent,
    Found(InodeId),
}

/// What reading a mount gave.
#[derive(Clone, Copy, Debug, PartialEq, Eq, Structural)]
pub enum MountRead {
    Failed,
    Absent,
    Found(MountFacts),
}

/// Where a namespace write goes.
#[derive(Clone, Copy, Debug, PartialEq, Eq, Structural)]
pub struct RoutedFsWriteCtx {
    pub mount_id: MountId,
    /// The group whose log takes the write.
    pub namespace_owner_group_id: ShardGroupId,
    pub mount_epoch: u64,
    /// The last state that is known to be applied.
    pub latest_state_id: Option<RaftLogId>,
}

/// Kinds of namespace writes.
#[derive(Clone, Copy, Debug, PartialEq, Eq, Structural)]
pub enum FsWriteOp {
    Create,
    Mkdir,
    Unlink,
    Rmdir,
    Rename,
    SetAttr,
}

/// What authorization is asked about.
#[derive(Clone, Copy, Debug, PartialEq, Eq, Structural)]
pub enum AuthzOp {
    Read,
    Write,
    Delete,
    Rename,
    Xattr,
    Sticky,
}

/// Whom authorization is asked about.
#[derive(Clone, Copy, Debug, PartialEq, Eq, Structural)]
pub struct AuthzTarget {
    pub inode_id: Option<InodeId>,
    pub parent_inode_id: Option<InodeId>,
    pub file_handle: Option<u64>,
}

impl AuthzTarget {
    pub open spec fn spec_for_inode(inode_id: InodeId) -> AuthzTarget {
        AuthzTarget { inode_id: Some(inode_id), parent_inode_id: None, file_handle: None }
    }

    pub fn for_inode(inode_id: InodeId) -> (target: Self)
        ensures
            target == Self::spec_for_inode(inode_id),
    {
        AuthzTarget { inode_id: Some(inode_id), parent_inode_id: None, file_handle: None }
    }

    pub open spec fn spec_with_parent(self, parent: InodeId) -> AuthzTarget {
        AuthzTarget { parent_inode_id: Some(parent), ..self }
    }

    pub fn with_parent(self, parent: InodeId) -> (target: Self)
        ensures
            target == self.spec_with_parent(parent),
    {
        AuthzTarget { inode_id: self.inode_id, parent_inode_id: Some(parent), file_handle: self.file_handle }
    }

    pub open spec fn spec_for_session(file_handle: u64, inode_id: Option<InodeId>) -> AuthzTarget {
        AuthzTarget { inode_id, parent_inode_id: None, file_handle: Some(file_handle) }
    }

    pub fn for_session(file_handle: u64, inode_id: Option<InodeId>) -> (target: Self)
        ensures
            target == Self::spec_for_session(file_handle, inode_id),
    {
        AuthzTarget { inode_id, parent_inode_id: None, file_handle: Some(file_handle) }
    }
}

/// Data operations that a mount may forbid.
#[derive(Clone, Copy, Debug, PartialEq, Eq, Structural)]
pub enum DataIoOp {
    Read,
    Write,
    OpenWrite,
    CloseWrite,
    RenewLease,
    Fsync,
    Truncate,
}

/// What a request needs before it may go on.
#[derive(Clone, Copy, Debug, PartialEq, Eq, Structural)]
pub struct GuardSpec {
    /// The root mount is up.
    pub readiness: bool,
    /// This node leads its group.
    pub leader: bool,
    /// The mount lets this data operation through.
    pub data_io: Option<DataIoOp>,
    /// The caller is authorized.
    pub authz: bool,
}

impl GuardSpec {
    pub open spec fn spec_metadata_read() -> GuardSpec {
        GuardSpec { readiness: true, leader: false, data_io: None, authz: false }
    }

    pub open spec fn spec_metadata_write() -> GuardSpec {
        GuardSpec { readiness: true, leader: true, data_io: None, authz: false }
    }

    pub open spec fn spec_data_io(op: DataIoOp) -> GuardSpec {
        GuardSpec { readiness: true, leader: false, data_io: Some(op), authz: false }
    }

    pub open spec fn spec_with_leader(self) -> GuardSpec {
        GuardSpec { leader: true, ..self }
    }

    pub open spec fn spec_with_authz(self) -> GuardSpec {
        GuardSpec { authz: true, ..self }
    }

    pub fn metadata_read() -> (spec: Self)
        ensures
            spec == Self::spec_metadata_read(),
    {
        GuardSpec { readiness: true, leader: false, data_io: None, authz: false }
    }

    pub fn metadata_write() -> (spec: Self)
        ensures
            spec == Self::spec_metadata_write(),
    {
        GuardSpec { readiness: true, leader: true, data_io: None, authz: false }
    }

    pub fn data_io(op: DataIoOp) -> (spec: Self)
        ensures
            spec == Self::spec_data_io(op),
    {
        GuardSpec { readiness: true, leader: false, data_io: Some(op), authz: false }
    }

    pub fn with_leader(self) -> (spec: Self)
        ensures
            spec == self.spec_with_leader(),
    {
        GuardSpec { readiness: self.readiness, leader: true, data_io: self.data_io, authz: self.authz }
    }

    pub fn with_authz(self) -> (spec: Self)
        ensures
            spec == self.spec_with_authz(),
    {
        GuardSpec { readiness: self.readiness, leader: self.leader, data_io: self.data_io, authz: true }
    }
}

/// A question to authorization.
#[derive(Clone, Copy, Debug, PartialEq, Eq, Structural)]
pub struct AuthzAsk {
    pub op: AuthzOp,
    pub target: AuthzTarget,
}

/// A question to the guard: what is needed, for which mount, and who is asked about.
#[derive(Clone, Copy, Debug, PartialEq, Eq, Structural)]
pub struct GuardCall {
    pub spec: GuardSpec,
    pub mount_id: Option<MountId>,
    pub authz: Option<AuthzAsk>,
}

/// Fields of a request that can be missing.
#[derive(Clone, Copy, Debug, PartialEq, Eq, Structural)]
pub enum Field {
    ParentInodeId,
    InodeId,
    SrcParentInodeId,
    DstParentInodeId,
    SrcInodeId,
    LeaseId,
    FileAttrs,
    FileLayout,
}

/// The name of a field.
pub open spec fn field_name(field: Field) -> Seq<char> {
    match field {
        Field::ParentInodeId => "parent_inode_id"@,
        Field::InodeId => "inode_id"@,
        Field::SrcParentInodeId => "src_parent_inode_id"@,
        Field::DstParentInodeId => "dst_parent_inode_id"@,
        Field::SrcInodeId => "src_inode_id"@,
        Field::LeaseId => "lease_id"@,
        Field::FileAttrs => "FileAttrs"@,
        Field::FileLayout => "FileLayout"@,
    }
}

/// The name of a field.
pub fn field_text(field: Field) -> (name: &'static str)
    ensures
        name@ == field_name(field),
{
    match field {
        Field::ParentInodeId => "parent_inode_id",
        Field::InodeId => "inode_id",
        Field::SrcParentInodeId => "src_parent_inode_id",
        Field::DstParentInodeId => "dst_parent_inode_id",
        Field::SrcInodeId => "src_inode_id",
        Field::LeaseId => "lease_id",
        Field::FileAttrs => "FileAttrs",
        Field::FileLayout => "FileLayout",
    }
}

/// Operations that are not offered.
#[derive(Clone, Copy, Debug, PartialEq, Eq, Structural)]
pub enum Unoffered {
    StatFs,
    Access,
    Symlink,
    Readlink,
    Link,
}

/// Why a filesystem request is turned down.
#[derive(Clone, Copy, Debug, PartialEq, Eq, Structural)]
pub enum FsFault {
    Missing(Field),
    MissingFsyncBody,
    StorageUnavailable,
    RaftUnavailable,
    /// The guard's own answer is passed on.
    GuardRefused,
    /// The store's own error is passed on.
    ReadFailed,
    /// The core's own failure is passed on.
    CoreFailed,
    /// The conversion's own error is passed on.
    BadExtent,
    EntryNotFound(InodeId),
    InodeNotFound(InodeId),
    ParentNotFound(InodeId),
    SourceParentNotFound(InodeId),
    DestinationParentNotFound(InodeId),
    NotADirectory(InodeId),
    NotAFile(InodeId),
    NoParent,
    MountNotFound(MountId),
    MountDisappeared,
    InodeDisappeared,
    CrossMount,
    CrossMountRename { src: MountId, dst: MountId },
    MountEpochMismatch { expected: u64, got: u64 },
    UnsupportedRenameFlags(u32),
    NoClientId,
    CallReused(CallId),
    /// The log's own error is told.
    ProposeFailed,
    /// The command's own error is passed on.
    CommandFailed,
    StaleState { last_applied: RaftLogId, required: RaftLogId },
    DestinationExists,
    /// The lease check's own code is told.
    LeaseInvalid { inode_id: InodeId, lease_id: LeaseId },
    GrowNotSupported { current_size: u64, new_size: u64 },
    SessionNotFound(u64),
    XattrNotFound,
    NotOffered(Unoffered),
}

/// What a fault is answered with.
#[derive(Debug)]
pub enum FaultReply {
    /// This error.
    Error(MetadataError),
    /// A call to refresh the mount epoch, with this message.
    RefreshMountEpoch(String),
    /// A call to catch up with the state, with this message.
    RefreshState(String),
    /// The end of the request, under the code that the lease check gave, with this message.
    InvalidLease(String),
    /// What came from elsewhere.
    PassedOn,
}

/// A log position as it is shown.
pub open spec fn log_id_text(id: RaftLogId) -> Seq<char> {
    "RaftLogId { term: "@ + text::decimal(id.term as nat) + ", leader_node_id: "@ + text::decimal(
        id.leader_node_id as nat,
    ) + ", index: "@ + text::decimal(id.index as nat) + " }"@
}

pub fn log_id_string(id: RaftLogId) -> (shown: String)
    ensures
        shown@ == log_id_text(id),
{
    let mut shown = text::with_number("RaftLogId { term: ", id.term, ", leader_node_id: ");
    text::push_decimal(&mut shown, id.leader_node_id);
    shown.append(", index: ");
    text::push_decimal(&mut shown, id.index);
    shown.append(" }");
    shown
}

/// What a fault says to a request of this kind, given the name that the request carries and what
/// the log said where it failed.
pub open spec fn fault_text(fault: FsFault, rpc: FsRpcAuthz, name: Seq<char>, failure: Seq<char>) -> Seq<char> {
    match fault {
        FsFault::Missing(field) => "Missing "@ + field_name(field),
        FsFault::MissingFsyncBody => "missing fsync body"@,
        FsFault::StorageUnavailable => "Storage not available"@,
        FsFault::RaftUnavailable => "Raft node not available"@,
        FsFault::EntryNotFound(parent) => "Entry not found: parent="@ + text::decimal(parent.raw as nat) + ", name="@
            + name,
        FsFault::InodeNotFound(id) => "Inode not found: "@ + text::decimal(id.raw as nat) + ""@,
        FsFault::ParentNotFound(id) => "Parent inode not found: "@ + text::decimal(id.raw as nat) + ""@,
        FsFault::SourceParentNotFound(id) => "Source parent inode not found: "@ + text::decimal(id.raw as nat) + ""@,
        FsFault::DestinationParentNotFound(id) => "Destination parent inode not found: "@ + text::decimal(
            id.raw as nat,
        ) + ""@,
        FsFault::NotADirectory(id) => "Parent is not a directory: "@ + text::decimal(id.raw as nat) + ""@,
        FsFault::NotAFile(id) => "Inode is not a file: "@ + text::decimal(id.raw as nat) + ""@,
        FsFault::NoParent => "No parent inode provided"@,
        FsFault::MountNotFound(id) => "Mount not found: MountId("@ + text::decimal(id.raw as nat) + ")"@,
        FsFault::MountDisappeared => "Mount disappeared"@,
        FsFault::InodeDisappeared => "Inode disappeared after update"@,
        FsFault::CrossMount => "cross-mount operation is not allowed"@,
        FsFault::CrossMountRename { src, dst } => "Cross-mount rename not allowed: src_mount=MountId("@
            + text::decimal(src.raw as nat) + "), dst_mount=MountId("@ + text::decimal(dst.raw as nat) + ")"@,
        FsFault::MountEpochMismatch { expected, got } => "Mount epoch mismatch: client="@ + text::decimal(got as nat)
            + ", server="@ + text::decimal(expected as nat) + (if rpc == FsRpcAuthz::SetAttr {
            ""@
        } else {
            " "@
        }),
        FsFault::ProposeFailed => "Failed to propose command: "@ + failure,
        FsFault::LeaseInvalid { inode_id, lease_id } => "Lease validation failed for truncate: inode="@
            + text::decimal(inode_id.raw as nat) + ", lease_id=LeaseId("@ + text::decimal(lease_id.raw as nat) + ")"@,
        FsFault::UnsupportedRenameFlags(flags) => "Unsupported rename flags: "@ + text::decimal(flags as nat) + ""@,
        FsFault::NoClientId => "client_id must be provided for dedup"@,
        FsFault::CallReused(call) => "call_id "@ + text::hyphenated(call.raw as nat)
            + " reused with different command payload"@,
        FsFault::StaleState { last_applied, required } => "Stale state: last_applied="@ + log_id_text(last_applied)
            + " < required="@ + log_id_text(required),
        FsFault::DestinationExists => "Destination exists and RENAME_NOREPLACE set: "@ + name,
        FsFault::GrowNotSupported { current_size, new_size } => "Truncate grow not supported: current_size="@
            + text::decimal(current_size as nat) + ", new_size="@ + text::decimal(new_size as nat),
        FsFault::SessionNotFound(handle) => "Write session not found: "@ + text::decimal(handle as nat) + ""@,
        FsFault::XattrNotFound => "xattr not found: "@ + name,
        FsFault::NotOffered(Unoffered::StatFs) => "StatFs not yet implemented"@,
        FsFault::NotOffered(Unoffered::Access) => "Access not yet implemented"@,
        FsFault::NotOffered(Unoffered::Symlink) => "Symlink not yet implemented"@,
        FsFault::NotOffered(Unoffered::Readlink) => "Readlink not yet implemented"@,
        FsFault::NotOffered(Unoffered::Link) => "Link not yet implemented"@,
        FsFault::GuardRefused | FsFault::ReadFailed | FsFault::CoreFailed | FsFault::BadExtent
        | FsFault::CommandFailed => Seq::empty(),
    }
}

/// The fault's answer came from elsewhere.
pub open spec fn is_passed_on(fault: FsFault) -> bool {
    match fault {
        FsFault::GuardRefused | FsFault::ReadFailed | FsFault::CoreFailed | FsFault::BadExtent
        | FsFault::CommandFailed => true,
        _ => false,
    }
}

/// The kind of error that a fault is, where it is one.
pub open spec fn fault_kind(fault: FsFault) -> crate::error::ErrorKind {
    match fault {
        FsFault::Missing(_) | FsFault::MissingFsyncBody | FsFault::NotADirectory(_) | FsFault::NoParent
        | FsFault::NoClientId | FsFault::CallReused(_) => crate::error::ErrorKind::InvalidArgument,
        FsFault::EntryNotFound(_) | FsFault::InodeNotFound(_) | FsFault::ParentNotFound(_)
        | FsFault::SourceParentNotFound(_) | FsFault::DestinationParentNotFound(_) | FsFault::MountNotFound(_)
        | FsFault::SessionNotFound(_) | FsFault::XattrNotFound => crate::error::ErrorKind::NotFound,
        FsFault::NotAFile(_) => crate::error::ErrorKind::IsDir,
        FsFault::CrossMount | FsFault::CrossMountRename { .. } => crate::error::ErrorKind::CrossMountRename,
        FsFault::UnsupportedRenameFlags(_) | FsFault::GrowNotSupported { .. } | FsFault::NotOffered(_) =>
            crate::error::ErrorKind::NotSupported,
        FsFault::DestinationExists => crate::error::ErrorKind::AlreadyExists,
        _ => crate::error::ErrorKind::Internal,
    }
}

/// The reply is the fault's.
pub open spec fn is_fault_reply(
    reply: FaultReply,
    fault: FsFault,
    rpc: FsRpcAuthz,
    name: Seq<char>,
    failure: Seq<char>,
) -> bool {
    let said = fault_text(fault, rpc, name, failure);
    match fault {
        FsFault::MountEpochMismatch { .. } => reply matches FaultReply::RefreshMountEpoch(message) && message@ == said,
        FsFault::StaleState { .. } => reply matches FaultReply::RefreshState(message) && message@ == said,
        FsFault::LeaseInvalid { .. } => reply matches FaultReply::InvalidLease(message) && message@ == said,
        _ => if is_passed_on(fault) {
            reply is PassedOn
        } else {
            reply matches FaultReply::Error(error) && error.says(fault_kind(fault), said)
        },
    }
}

/// What a fault is answered with to a request of this kind, given the name that the request
/// carries and what the log said where it failed.
pub fn fault_reply(fault: FsFault, rpc: FsRpcAuthz, name: &str, failure: &str) -> (reply: FaultReply)
    ensures
        is_fault_reply(reply, fault, rpc, name@, failure@),
{
    match fault {
        FsFault::GuardRefused | FsFault::ReadFailed | FsFault::CoreFailed | FsFault::BadExtent
        | FsFault::CommandFailed => FaultReply::PassedOn,
        FsFault::MountEpochMismatch { expected, got } => {
            let mut message = text::with_number("Mount epoch mismatch: client=", got, ", server=");
            text::push_decimal(&mut message, expected);
            message.append(
                if rpc == FsRpcAuthz::SetAttr {
                    ""
                } else {
                    " "
                },
            );
            FaultReply::RefreshMountEpoch(message)
        },
        FsFault::ProposeFailed => FaultReply::Error(
            MetadataError::Internal(text::join("Failed to propose command: ", failure)),
        ),
        FsFault::LeaseInvalid { inode_id, lease_id } => {
            let mut message = text::with_number(
                "Lease validation failed for truncate: inode=",
                inode_id.raw,
                ", lease_id=LeaseId(",
            );
            text::push_wide_decimal(&mut message, lease_id.raw);
            message.append(")");
            FaultReply::InvalidLease(message)
        },
        FsFault::StaleState { last_applied, required } => {
            let mut message = text::join("Stale state: last_applied=", log_id_string(last_applied).as_str());
            message.append(" < required=");
            message.append(log_id_string(required).as_str());
            FaultReply::RefreshState(message)
        },
        FsFault::Missing(field) => FaultReply::Error(
            MetadataError::InvalidArgument(text::join("Missing ", field_text(field))),
        ),
        FsFault::MissingFsyncBody => FaultReply::Error(
            MetadataError::InvalidArgument(text::literal("missing fsync body")),
        ),
        FsFault::StorageUnavailable => FaultReply::Error(
            MetadataError::Internal(text::literal("Storage not available")),
        ),
        FsFault::RaftUnavailable => FaultReply::Error(
            MetadataError::Internal(text::literal("Raft node not available")),
        ),
        FsFault::EntryNotFound(parent) => {
            let mut message = text::with_number("Entry not found: parent=", parent.raw, ", name=");
            message.append(name);
            FaultReply::Error(MetadataError::NotFound(message))
        },
        FsFault::InodeNotFound(id) => FaultReply::Error(
            MetadataError::NotFound(text::with_number("Inode not found: ", id.raw, "")),
        ),
        FsFault::ParentNotFound(id) => FaultReply::Error(
            MetadataError::NotFound(text::with_number("Parent inode not found: ", id.raw, "")),
        ),
        FsFault::SourceParentNotFound(id) => FaultReply::Error(
            MetadataError::NotFound(text::with_number("Source parent inode not found: ", id.raw, "")),
        ),
        FsFault::DestinationParentNotFound(id) => FaultReply::Error(
            MetadataError::NotFound(text::with_number("Destination parent inode not found: ", id.raw, "")),
        ),
        FsFault::NotADirectory(id) => FaultReply::Error(
            MetadataError::InvalidArgument(text::with_number("Parent is not a directory: ", id.raw, "")),
        ),
        FsFault::NotAFile(id) => FaultReply::Error(
            MetadataError::IsDir(text::with_number("Inode is not a file: ", id.raw, "")),
        ),
        FsFault::NoParent => FaultReply::Error(
            MetadataError::InvalidArgument(text::literal("No parent inode provided")),
        ),
        FsFault::MountNotFound(id) => FaultReply::Error(
            MetadataError::NotFound(text::with_number("Mount not found: MountId(", id.raw, ")")),
        ),
        FsFault::MountDisappeared => FaultReply::Error(MetadataError::Internal(text::literal("Mount disappeared"))),
        FsFault::InodeDisappeared => FaultReply::Error(
            MetadataError::Internal(text::literal("Inode disappeared after update")),
        ),
        FsFault::CrossMount => FaultReply::Error(
            MetadataError::CrossMountRename(text::literal("cross-mount operation is not allowed")),
        ),
        FsFault::CrossMountRename { src, dst } => {
            let mut message = text::with_number(
                "Cross-mount rename not allowed: src_mount=MountId(",
                src.raw,
                "), dst_mount=MountId(",
            );
            text::push_decimal(&mut message, dst.raw);
            message.append(")");
            FaultReply::Error(MetadataError::CrossMountRename(message))
        },
        FsFault::UnsupportedRenameFlags(flags) => FaultReply::Error(
            MetadataError::NotSupported(text::with_number("Unsupported rename flags: ", flags as u64, "")),
        ),
        FsFault::NoClientId => FaultReply::Error(
            MetadataError::InvalidArgument(text::literal("client_id must be provided for dedup")),
        ),
        FsFault::CallReused(call) => {
            let mut message = text::join("call_id ", text::hyphenated_text(call.raw).as_str());
            message.append(" reused with different command payload");
            FaultReply::Error(MetadataError::InvalidArgument(message))
        },
        FsFault::DestinationExists => FaultReply::Error(
            MetadataError::AlreadyExists(text::join("Destination exists and RENAME_NOREPLACE set: ", name)),
        ),
        FsFault::GrowNotSupported { current_size, new_size } => {
            let mut message = text::with_number(
                "Truncate grow not supported: current_size=",
                current_size,
                ", new_size=",
            );
            text::push_decimal(&mut message, new_size);
            FaultReply::Error(MetadataError::NotSupported(message))
        },
        FsFault::SessionNotFound(handle) => FaultReply::Error(
            MetadataError::NotFound(text::with_number("Write session not found: ", handle, "")),
        ),
        FsFault::XattrNotFound => FaultReply::Error(MetadataError::NotFound(text::join("xattr not found: ", name))),
        FsFault::NotOffered(what) => {
            let message = match what {
                Unoffered::StatFs => "StatFs not yet implemented",
                Unoffered::Access => "Access not yet implemented",
                Unoffered::Symlink => "Symlink not yet implemented",
                Unoffered::Readlink => "Readlink not yet implemented",
                Unoffered::Link => "Link not yet implemented",
            };
            FaultReply::Error(MetadataError::NotSupported(text::literal(message)))
        },
    }
}

/// The fault says that something is not there.
pub open spec fn says_absent(fault: FsFault) -> bool {
    fault is EntryNotFound || fault is InodeNotFound || fault is ParentNotFound || fault is SourceParentNotFound
        || fault is DestinationParentNotFound || fault is MountNotFound || fault is SessionNotFound
        || fault is XattrNotFound
}

/// The fault says that the request cannot be taken as it is.
pub open spec fn says_invalid(fault: FsFault) -> bool {
    fault is Missing || fault is MissingFsyncBody || fault is NotADirectory || fault is NoParent || fault is NoClientId
        || fault is CallReused
}

/// A fault is told as the kind of error that it is.
pub proof fn law_faults_are_told_as_what_they_are(fault: FsFault)
    ensures
        is_passed_on(fault) <==> fault is GuardRefused || fault is ReadFailed || fault is CoreFailed
            || fault is BadExtent || fault is CommandFailed,
        fault_kind(fault) == crate::error::ErrorKind::NotFound <==> says_absent(fault),
        fault_kind(fault) == crate::error::ErrorKind::InvalidArgument <==> says_invalid(fault),
        fault_kind(fault) == crate::error::ErrorKind::IsDir <==> fault is NotAFile,
        fault_kind(fault) == crate::error::ErrorKind::CrossMountRename <==> fault is CrossMount
            || fault is CrossMountRename,
        fault_kind(fault) == crate::error::ErrorKind::NotSupported <==> fault is UnsupportedRenameFlags
            || fault is GrowNotSupported || fault is NotOffered,
        fault_kind(fault) == crate::error::ErrorKind::AlreadyExists <==> fault is DestinationExists,
{
}

/// What a fault is answered with: a client whose mount epoch or state is old is told to refresh it,
/// a lease that does not hold ends the request, what came from elsewhere is passed on, and any other
/// fault is an error.
pub proof fn law_faults_are_answered_by_what_helps(
    reply: FaultReply,
    fault: FsFault,
    rpc: FsRpcAuthz,
    name: Seq<char>,
    failure: Seq<char>,
)
    requires
        is_fault_reply(reply, fault, rpc, name, failure),
    ensures
        reply is RefreshMountEpoch <==> fault is MountEpochMismatch,
        reply is RefreshState <==> fault is StaleState,
        reply is InvalidLease <==> fault is LeaseInvalid,
        reply is PassedOn <==> fault is GuardRefused || fault is ReadFailed || fault is CoreFailed
            || fault is BadExtent || fault is CommandFailed,
        reply matches FaultReply::Error(error) ==> {
            &&& error.spec_kind() == crate::error::ErrorKind::NotFound <==> says_absent(fault)
            &&& error.spec_kind() == crate::error::ErrorKind::InvalidArgument <==> says_invalid(fault)
        },
{
}

/// The questions to the guard differ in what they need: every one needs the root mount; writing
/// metadata needs the leader; data is asked for with its operation.
pub proof fn law_guards_need_what_they_say(op: DataIoOp, spec: GuardSpec)
    ensures
        ({
            let read = GuardSpec::spec_metadata_read();
            let write = GuardSpec::spec_metadata_write();
            let data = GuardSpec::spec_data_io(op);
            &&& read.readiness && !read.leader && read.data_io is None && !read.authz
            &&& write.readiness && write.leader && write.data_io is None && !write.authz
            &&& data.readiness && !data.leader && data.data_io == Some(op) && !data.authz
            &&& spec.spec_with_leader().leader && spec.spec_with_leader().readiness == spec.readiness
                && spec.spec_with_leader().data_io == spec.data_io && spec.spec_with_leader().authz == spec.authz
            &&& spec.spec_with_authz().authz && spec.spec_with_authz().readiness == spec.readiness
                && spec.spec_with_authz().data_io == spec.data_io && spec.spec_with_authz().leader == spec.leader
        }),
{
}

} // verus!
