//! What requests by path carry, what is seen on their way, and what they are answered.

use crate::error::{ErrorKind, MetadataError, MetadataResult};
use crate::ids::{BlockId, BlockIndex, DataHandleId, InodeId, MountId, ShardGroupId};
use crate::service::fs_types::InodeKind;
use crate::service::guard::PermissionBits;
use crate::service::inputs::{FileLayout, FileRange, Freshness, LeaseProof};
use crate::service::wire::FileAttrs;
use crate::text;
use crate::write_target::WriteMode;
use vstd::prelude::*;

verus! {

/// The mount that a path lies in.
#[derive(Clone, Copy, Debug, PartialEq, Eq, Structural)]
pub struct MountContext {
    pub mount_id: MountId,
    pub owner_group_id: ShardGroupId,
    pub mount_epoch: u64,
}

/// What a path leads to, as far as it exists.
#[derive(Clone, Copy, Debug, PartialEq, Eq)]
pub struct ResolvedPath<'a> {
    pub mount_ctx: MountContext,
    pub inode_id: Option<InodeId>,
    pub parent_inode_id: Option<InodeId>,
    /// The last part of the path, where it is a name.
    pub name: Option<&'a str>,
}

/// What the two paths of a rename lead to.
#[derive(Clone, Copy, Debug, PartialEq, Eq)]
pub struct RenamePaths<'a> {
    pub src: ResolvedPath<'a>,
    pub dst: ResolvedPath<'a>,
}

/// What looking up an inode gave.
#[derive(Clone, Copy, Debug, PartialEq, Eq, Structural)]
#[allow(inconsistent_fields)]
pub enum InodeLookup {
    Failed,
    Absent,
    Found { kind: InodeKind, current_data_handle_id: DataHandleId },
}

/// What creating a file gave.
#[derive(Clone, Copy, Debug, PartialEq, Eq, Structural)]
pub enum Created {
    Failed,
    /// It was carried out, and no inode was told.
    WithoutInode,
    Inode(InodeId),
}

/// What has been seen so far. Nothing stands for what was not asked.
#[derive(Clone, Copy, Debug, PartialEq, Eq)]
pub struct PathSeen<'a> {
    /// Whether metadata can be read, or written.
    pub meta: Option<bool>,
    /// What the path of an existing entry leads to. An inner nothing is a failure.
    pub inode: Option<Option<ResolvedPath<'a>>>,
    /// What a path leads to, whether its entry exists or not. An inner nothing is a failure.
    pub path: Option<Option<ResolvedPath<'a>>>,
    /// What the two paths of a rename lead to. An inner nothing is a failure.
    pub rename: Option<Option<RenamePaths<'a>>>,
    /// Whether the caller has the right on the path, and on the second path.
    pub perm: Option<bool>,
    pub second_perm: Option<bool>,
    /// Whether data can be read, or written.
    pub data: Option<bool>,
    pub found: Option<InodeLookup>,
    /// Which inode has the data. An inner nothing is a failure.
    pub data_inode: Option<Option<InodeId>>,
    /// The mount of an inode. An inner nothing is a failure.
    pub mount: Option<Option<MountId>>,
    /// The mount of the session of a handle. An inner nothing is a handle without a session.
    pub session: Option<Option<MountId>>,
    /// Whether the file could be written once it is there.
    pub preflight: Option<bool>,
    pub created: Option<Created>,
    /// Whether the core carried the request out.
    pub done: Option<bool>,
}

/// One of the paths of a request.
#[derive(Clone, Copy, Debug, PartialEq, Eq, Structural)]
pub enum PathArg {
    /// The only one, or the source of a rename.
    First,
    /// The destination of a rename.
    Second,
}

/// A write handle that is shown, and what is shown with it.
#[derive(Clone, Copy, Debug, PartialEq, Eq, Structural)]
pub struct ShownHandle {
    pub handle_id: u64,
    pub lease: LeaseProof,
}

/// Work for the core.
#[derive(Clone, Copy, Debug, PartialEq, Eq)]
#[allow(inconsistent_fields)]
pub enum PathWork<'a> {
    GetAttr { inode_id: InodeId, freshness: Freshness },
    /// Reads a directory from its start or behind a cursor, up to a number of entries.
    ReadDir { inode_id: InodeId, cursor: Option<&'a [u8]>, max_entries: Option<u32>, freshness: Freshness },
    Mkdir { parent_inode_id: InodeId, name: &'a str, attrs: FileAttrs, freshness: Freshness },
    DeleteTree { parent_inode_id: InodeId, name: &'a str, freshness: Freshness },
    Rmdir { parent_inode_id: InodeId, name: &'a str, freshness: Freshness },
    Unlink { parent_inode_id: InodeId, name: &'a str, freshness: Freshness },
    Rename {
        src_parent_inode_id: InodeId,
        src_name: &'a str,
        dst_parent_inode_id: InodeId,
        dst_name: &'a str,
        flags: u32,
        freshness: Freshness,
    },
    GetFileLayout {
        inode_id: InodeId,
        range: Option<FileRange>,
        requested_data_handle_id: Option<DataHandleId>,
        freshness: Freshness,
    },
    OpenWrite { inode_id: InodeId, desired_len: Option<u64>, mode: WriteMode, freshness: Freshness },
    AddBlock { handle: ShownHandle, desired_len: Option<u64>, freshness: Freshness },
    /// With blocks that are all of the file's data.
    CloseWrite {
        handle: ShownHandle,
        blocks: &'a Vec<WireCommittedBlock>,
        final_size: u64,
        freshness: Freshness,
    },
    AbortWrite { handle: ShownHandle, freshness: Freshness },
    RenewLease { handle: ShownHandle, freshness: Freshness },
}

/// Why a request is turned down.
#[derive(Clone, Copy, Debug, PartialEq, Eq, Structural)]
pub enum PathFault {
    /// The guard's own answer is passed on.
    GuardRefused,
    /// The core's own failure is passed on.
    CoreFailed,
    /// The resolver's own error is passed on.
    Unresolved,
    /// The path has no inode, no directory or no name, and the resolver's own error says which.
    PathIncomplete,
    /// The store's own error is passed on.
    StoreFailed,
    /// The conversion's own error is passed on.
    BadAttrs,
    /// The conversion's own error is passed on.
    BadLayout,
    MissingWriteHandle,
    MissingDataHandleId,
    MissingTarget,
    MissingDisposition,
    /// A block is told that is not of the file's data.
    ForeignBlock,
    RecursiveListing,
    NothingCreated,
    TargetNotFound(InodeId),
    EntryNotFound,
    InodeNotFound(InodeId),
    NotAFile(InodeId),
    HflushReserved,
    HsyncReserved,
}

/// What an answer holds besides what the core gave.
#[derive(Clone, Copy, Debug, PartialEq, Eq, Structural)]
#[allow(inconsistent_fields)]
pub enum PathBody {
    Nothing,
    /// What the core gave.
    Given,
    /// What the core gave, of this inode.
    OfInode(InodeId),
    /// What the core gave of this file, its locations only where they are told.
    OfFile { inode_id: InodeId, data_handle_id: DataHandleId, with_locations: bool },
}

/// The answer. Where the mount is told, so are its group and its epoch.
#[derive(Clone, Copy, Debug, PartialEq, Eq, Structural)]
pub struct PathAnswer {
    pub fault: Option<PathFault>,
    pub mount: Option<MountContext>,
    pub body: PathBody,
}

/// What comes next.
#[derive(Clone, Copy, Debug, PartialEq, Eq)]
#[allow(inconsistent_fields)]
pub enum PathStep<'a> {
    CheckMetaRead,
    CheckMetaWrite,
    ResolveInode(&'a str),
    ResolvePath(&'a str),
    ResolveRename { src: &'a str, dst: &'a str },
    /// The right on what the path leads to.
    CheckPerm(PermissionBits, &'a str),
    /// The right on the directory of the path.
    CheckParentPerm(PermissionBits, PathArg, &'a str),
    CheckDataRead(MountId),
    CheckDataWrite(MountId),
    GetInode(InodeId),
    FindDataInode(DataHandleId),
    PlanMount(InodeId),
    FindSession(u64),
    /// Whether a file of this mount could be written once it is there.
    Preflight { desired_len: Option<u64>, layout: FileLayout, mount: MountContext },
    Create {
        parent_inode_id: InodeId,
        name: &'a str,
        attrs: FileAttrs,
        layout: FileLayout,
        freshness: Freshness,
    },
    Execute(PathWork<'a>),
    Answer(PathAnswer),
}

/// What a fault says, where it is this service's own. An entry is told by its name.
pub open spec fn fault_said(fault: PathFault, name: Seq<char>) -> Option<(ErrorKind, Seq<char>)> {
    match fault {
        PathFault::GuardRefused | PathFault::CoreFailed | PathFault::Unresolved | PathFault::PathIncomplete
        | PathFault::StoreFailed | PathFault::BadAttrs | PathFault::BadLayout => None,
        PathFault::MissingWriteHandle => Some((ErrorKind::InvalidArgument, "missing write_handle"@)),
        PathFault::MissingDataHandleId => Some((ErrorKind::InvalidArgument, "missing data_handle_id"@)),
        PathFault::MissingTarget => Some((ErrorKind::InvalidArgument, "missing block location target"@)),
        PathFault::MissingDisposition => Some((ErrorKind::InvalidArgument, "create disposition is required"@)),
        PathFault::ForeignBlock => Some(
            (ErrorKind::InvalidArgument, "committed block data_handle_id does not match request"@),
        ),
        PathFault::RecursiveListing => Some((ErrorKind::NotSupported, "Recursive listing not yet implemented"@)),
        PathFault::NothingCreated => Some((ErrorKind::Internal, "create did not return inode_id"@)),
        PathFault::TargetNotFound(id) => Some(
            (ErrorKind::NotFound, "Target inode not found: "@ + text::decimal(id.raw as nat) + ""@),
        ),
        PathFault::EntryNotFound => Some((ErrorKind::NotFound, "Entry not found: "@ + name)),
        PathFault::InodeNotFound(id) => Some(
            (ErrorKind::NotFound, "Inode not found: "@ + text::decimal(id.raw as nat) + ""@),
        ),
        PathFault::NotAFile(id) => Some(
            (ErrorKind::IsDir, "Inode is not a file: "@ + text::decimal(id.raw as nat) + ""@),
        ),
        PathFault::HflushReserved => Some(
            (
                ErrorKind::NotSupported,
                "Hflush is reserved but not supported until metadata visibility barrier semantics are defined"@,
            ),
        ),
        PathFault::HsyncReserved => Some(
            (
                ErrorKind::NotSupported,
                "Hsync is reserved but not supported until metadata durability barrier semantics are defined"@,
            ),
        ),
    }
}

/// The error that a fault is told as, where it is this service's own.
pub fn fault_error(fault: PathFault, name: &str) -> (error: Option<MetadataError>)
    ensures
        match (error, fault_said(fault, name@)) {
            (Some(e), Some(said)) => e.says(said.0, said.1),
            (None, None) => true,
            _ => false,
        },
{
    match fault {
        PathFault::GuardRefused
        | PathFault::CoreFailed
        | PathFault::Unresolved
        | PathFault::PathIncomplete
        | PathFault::StoreFailed
        | PathFault::BadAttrs
        | PathFault::BadLayout => None,
        PathFault::MissingWriteHandle => Some(MetadataError::InvalidArgument(text::literal("missing write_handle"))),
        PathFault::MissingDataHandleId => Some(
            MetadataError::InvalidArgument(text::literal("missing data_handle_id")),
        ),
        PathFault::MissingTarget => Some(
            MetadataError::InvalidArgument(text::literal("missing block location target")),
        ),
        PathFault::MissingDisposition => Some(
            MetadataError::InvalidArgument(text::literal("create disposition is required")),
        ),
        PathFault::ForeignBlock => Some(
            MetadataError::InvalidArgument(
                text::literal("committed block data_handle_id does not match request"),
            ),
        ),
        PathFault::RecursiveListing => Some(
            MetadataError::NotSupported(text::literal("Recursive listing not yet implemented")),
        ),
        PathFault::NothingCreated => Some(MetadataError::Internal(text::literal("create did not return inode_id"))),
        PathFault::TargetNotFound(id) => Some(
            MetadataError::NotFound(text::with_number("Target inode not found: ", id.raw, "")),
        ),
        PathFault::EntryNotFound => Some(MetadataError::NotFound(text::join("Entry not found: ", name))),
        PathFault::InodeNotFound(id) => Some(
            MetadataError::NotFound(text::with_number("Inode not found: ", id.raw, "")),
        ),
        PathFault::NotAFile(id) => Some(
            MetadataError::IsDir(text::with_number("Inode is not a file: ", id.raw, "")),
        ),
        PathFault::HflushReserved => Some(
            MetadataError::NotSupported(
                text::literal(
                    "Hflush is reserved but not supported until metadata visibility barrier semantics are defined",
                ),
            ),
        ),
        PathFault::HsyncReserved => Some(
            MetadataError::NotSupported(
                text::literal(
                    "Hsync is reserved but not supported until metadata durability barrier semantics are defined",
                ),
            ),
        ),
    }
}

/// A block, as the wire tells it.
#[derive(Clone, Copy, Debug, PartialEq, Eq, Structural)]
pub struct WireBlockId {
    pub data_handle_id: u64,
    pub block_index: u32,
}

/// A block that was written, as the wire tells it.
#[derive(Clone, Copy, Debug, PartialEq, Eq, Structural)]
pub struct WireCommittedBlock {
    pub file_offset: u64,
    pub block_id: Option<WireBlockId>,
    pub len: u64,
}

/// A block that was written.
#[derive(Clone, Copy, Debug, PartialEq, Eq, Structural)]
pub struct CommittedBlock {
    pub file_offset: u64,
    pub block_id: BlockId,
    pub len: u64,
}

/// The block that the wire tells, where it tells which one.
pub open spec fn block_told(block: WireCommittedBlock) -> Option<CommittedBlock> {
    match block.block_id {
        Some(id) => Some(
            CommittedBlock {
                file_offset: block.file_offset,
                block_id: BlockId {
                    data_handle_id: DataHandleId { raw: id.data_handle_id },
                    index: BlockIndex { raw: id.block_index },
                },
                len: block.len,
            },
        ),
        None => None,
    }
}

/// The block that the wire tells.
pub fn committed_block_from_proto(block: &WireCommittedBlock) -> (told: MetadataResult<CommittedBlock>)
    ensures
        match (told, block_told(*block)) {
            (Ok(b), Some(t)) => b == t,
            (Err(e), None) => e.says(ErrorKind::InvalidArgument, "Missing block_id in committed block"@),
            _ => false,
        },
{
    match block.block_id {
        Some(id) => Ok(
            CommittedBlock {
                file_offset: block.file_offset,
                block_id: BlockId::new(DataHandleId::new(id.data_handle_id), BlockIndex::new(id.block_index)),
                len: block.len,
            },
        ),
        None => Err(MetadataError::InvalidArgument(text::literal("Missing block_id in committed block"))),
    }
}

/// The block is told, and is of this data.
pub open spec fn is_of_data(block: WireCommittedBlock, data_handle_id: u64) -> bool {
    block.block_id is Some && block.block_id->0.data_handle_id == data_handle_id
}

/// All blocks are of this data.
pub open spec fn all_of_data(blocks: Seq<WireCommittedBlock>, data_handle_id: u64) -> bool {
    forall|i: int| 0 <= i < blocks.len() ==> is_of_data(#[trigger] blocks[i], data_handle_id)
}

/// The blocks of a commit, if all of them are of its data.
pub fn committed_blocks(blocks: &Vec<WireCommittedBlock>, data_handle_id: u64) -> (told: Option<Vec<CommittedBlock>>)
    ensures
        told is Some <==> all_of_data(blocks@, data_handle_id),
        told matches Some(list) ==> list@.len() == blocks@.len() && forall|i: int|
            0 <= i < list@.len() ==> Some(#[trigger] list@[i]) == block_told(blocks@[i]),
{
    let mut list: Vec<CommittedBlock> = Vec::new();
    let mut i: usize = 0;
    while i < blocks.len()
        invariant
            i <= blocks@.len(),
            list@.len() == i,
            forall|k: int| 0 <= k < i ==> is_of_data(#[trigger] blocks@[k], data_handle_id),
            forall|k: int| 0 <= k < i ==> Some(#[trigger] list@[k]) == block_told(blocks@[k]),
        decreases blocks@.len() - i,
    {
        let block = &blocks[i];
        match block.block_id {
            Some(id) => {
                if id.data_handle_id != data_handle_id {
                    assert(!is_of_data(blocks@[i as int], data_handle_id));
                    return None;
                }
            },
            None => {
                assert(!is_of_data(blocks@[i as int], data_handle_id));
                return None;
            },
        }
        match committed_block_from_proto(block) {
            Ok(told) => {
                list.push(told);
            },
            Err(_) => {
                return None;
            },
        }
        i = i + 1;
    }
    Some(list)
}

/// A fault is told as the kind of error that it is: what a request lacks or mixes up is an invalid
/// argument, what is not there is not found, what is no file is a directory, what is not offered is
/// not supported. What a guard, the store or the core said is passed on.
pub proof fn law_faults_are_told_as_what_they_are(fault: PathFault, name: Seq<char>)
    ensures
        fault is GuardRefused || fault is CoreFailed || fault is Unresolved || fault is PathIncomplete
            || fault is StoreFailed || fault is BadAttrs || fault is BadLayout <==> fault_said(fault, name) is None,
        fault_said(fault, name) matches Some((kind, said)) ==> {
            &&& kind == ErrorKind::InvalidArgument <==> fault is MissingWriteHandle || fault is MissingDataHandleId
                || fault is MissingTarget || fault is MissingDisposition || fault is ForeignBlock
            &&& kind == ErrorKind::NotFound <==> fault is TargetNotFound || fault is EntryNotFound
                || fault is InodeNotFound
            &&& kind == ErrorKind::IsDir <==> fault is NotAFile
            &&& kind == ErrorKind::NotSupported <==> fault is RecursiveListing || fault is HflushReserved
                || fault is HsyncReserved
            &&& kind == ErrorKind::Internal <==> fault is NothingCreated
            &&& fault matches PathFault::EntryNotFound ==> name.is_suffix_of(said)
        },
{
    if fault is EntryNotFound {
        let said = "Entry not found: "@ + name;
        assert(name =~= said.subrange(said.len() - name.len(), said.len() as int));
    }
}

/// A block that was written is read as it was sent: the same block of the same data, at the same
/// place, of the same length. One that is not named cannot be read.
pub proof fn law_written_blocks_are_read_as_sent(block: WireCommittedBlock)
    ensures
        block_told(block) is Some <==> block.block_id is Some,
        block_told(block) matches Some(told) ==> told.file_offset == block.file_offset && told.len == block.len
            && told.block_id.data_handle_id.raw == block.block_id->0.data_handle_id && told.block_id.index.raw
            == block.block_id->0.block_index,
{
}

} // verus!
