//! Requests by path: what is checked, what is resolved and what the core is asked to do, in which
//! order.
//!
//! A request is a function of what it carries and what has been seen so far, and gives the next
//! step. Metadata is guarded before anything is resolved, rights are asked of what a path leads
//! to, and the core is asked last.

use crate::ids::{DataHandleId, GroupName, InodeId};
use crate::raft::RaftView;
use crate::rpc;
use crate::rpc::{DetailModel, FailureKind};
use crate::service::fs_types::InodeKind;
use crate::service::guard::{GuardChain, PermissionBits};
use crate::service::inputs;
use crate::service::inputs::{FileLayout, HeaderEpochs, WireRange};
use crate::service::msync;
use crate::service::msync::{MsyncAnswer, MsyncHandler, MsyncModel, SyncHeader};
use crate::service::path_types;
use crate::service::path_types::{
    Created, InodeLookup, MountContext, PathAnswer, PathArg, PathBody, PathFault, PathSeen, PathStep, PathWork,
    ResolvedPath, ShownHandle, WireCommittedBlock,
};
use crate::service::wire::FileAttrs;
use crate::write_target::WriteMode;
use vstd::prelude::*;

verus! {

/// A request by path, and the epochs that its header tells.
#[derive(Clone, Copy, Debug, PartialEq, Eq)]
pub struct PathCall<'a> {
    pub path: &'a str,
    pub epochs: Option<HeaderEpochs>,
}

pub open spec fn refused<'a>(fault: PathFault, mount: Option<MountContext>) -> PathStep<'a> {
    PathStep::Answer(PathAnswer { fault: Some(fault), mount, body: PathBody::Nothing })
}

fn refuse<'a>(fault: PathFault, mount: Option<MountContext>) -> (step: PathStep<'a>)
    ensures
        step == refused(fault, mount),
{
    PathStep::Answer(PathAnswer { fault: Some(fault), mount, body: PathBody::Nothing })
}

/// A guard is asked, and what follows follows where it lets the request through.
pub open spec fn passed<'a>(guard: Option<bool>, ask: PathStep<'a>, next: PathStep<'a>) -> PathStep<'a> {
    match guard {
        None => ask,
        Some(false) => refused(PathFault::GuardRefused, None),
        Some(true) => next,
    }
}

fn pass<'a>(guard: Option<bool>, ask: PathStep<'a>, next: PathStep<'a>) -> (step: PathStep<'a>)
    ensures
        step == passed(guard, ask, next),
{
    match guard {
        None => ask,
        Some(through) => if through {
            next
        } else {
            refuse(PathFault::GuardRefused, None)
        },
    }
}

/// The core is asked, and what it gave is answered.
pub open spec fn executed<'a>(seen: PathSeen<'a>, work: PathWork<'a>, body: PathBody) -> PathStep<'a> {
    match seen.done {
        None => PathStep::Execute(work),
        Some(false) => refused(PathFault::CoreFailed, None),
        Some(true) => PathStep::Answer(PathAnswer { fault: None, mount: None, body }),
    }
}

fn execute<'a>(seen: &PathSeen<'a>, work: PathWork<'a>, body: PathBody) -> (step: PathStep<'a>)
    ensures
        step == executed(*seen, work, body),
{
    match seen.done {
        None => PathStep::Execute(work),
        Some(done) => if done {
            PathStep::Answer(PathAnswer { fault: None, mount: None, body })
        } else {
            refuse(PathFault::CoreFailed, None)
        },
    }
}

// ---------------------------------------------------------------------------------------------
// Reading
// ---------------------------------------------------------------------------------------------

/// What comes next for a look at an entry.
pub open spec fn get_status_next<'a>(call: PathCall<'a>, seen: PathSeen<'a>) -> PathStep<'a> {
    passed(
        seen.meta,
        PathStep::CheckMetaRead,
        match seen.inode {
            None => PathStep::ResolveInode(call.path),
            Some(None) => refused(PathFault::Unresolved, None),
            Some(Some(resolved)) => passed(
                seen.perm,
                PathStep::CheckPerm(PermissionBits::Read, call.path),
                match resolved.inode_id {
                    None => refused(PathFault::PathIncomplete, Some(resolved.mount_ctx)),
                    Some(inode_id) => executed(
                        seen,
                        PathWork::GetAttr { inode_id, freshness: inputs::fresh_by(call.epochs) },
                        PathBody::OfInode(inode_id),
                    ),
                },
            ),
        },
    )
}

/// A listing: its cursor, empty for a listing from the start, and its limit, zero for none.
#[derive(Clone, Copy, Debug, PartialEq, Eq)]
pub struct ListStatusRequest<'a> {
    pub call: PathCall<'a>,
    pub recursive: bool,
    pub cursor: &'a [u8],
    pub limit: u32,
}

/// What comes next for a listing. Only one level can be listed.
pub open spec fn list_status_next<'a>(req: ListStatusRequest<'a>, seen: PathSeen<'a>) -> PathStep<'a> {
    passed(
        seen.meta,
        PathStep::CheckMetaRead,
        match seen.inode {
            None => PathStep::ResolveInode(req.call.path),
            Some(None) => refused(PathFault::Unresolved, None),
            Some(Some(resolved)) => if req.recursive {
                refused(PathFault::RecursiveListing, Some(resolved.mount_ctx))
            } else {
                passed(
                    seen.perm,
                    PathStep::CheckPerm(PermissionBits::Read, req.call.path),
                    match resolved.inode_id {
                        None => refused(PathFault::PathIncomplete, Some(resolved.mount_ctx)),
                        Some(inode_id) => executed(
                            seen,
                            PathWork::ReadDir {
                                inode_id,
                                cursor: if req.cursor@.len() != 0 {
                                    Some(req.cursor)
                                } else {
                                    None
                                },
                                max_entries: if req.limit != 0 {
                                    Some(req.limit)
                                } else {
                                    None
                                },
                                freshness: inputs::fresh_by(req.call.epochs),
                            },
                            PathBody::Given,
                        ),
                    },
                )
            },
        },
    )
}

/// Opening a file to read a part of it.
#[derive(Clone, Copy, Debug, PartialEq, Eq)]
pub struct OpenFileRequest<'a> {
    pub call: PathCall<'a>,
    pub range: Option<WireRange>,
    pub include_locations: bool,
}

/// What comes next for opening a file. Only files can be opened.
pub open spec fn open_file_next<'a>(req: OpenFileRequest<'a>, seen: PathSeen<'a>) -> PathStep<'a> {
    passed(
        seen.meta,
        PathStep::CheckMetaRead,
        match seen.inode {
            None => PathStep::ResolveInode(req.call.path),
            Some(None) => refused(PathFault::Unresolved, None),
            Some(Some(resolved)) => passed(
                seen.perm,
                PathStep::CheckPerm(PermissionBits::Read, req.call.path),
                passed(
                    seen.data,
                    PathStep::CheckDataRead(resolved.mount_ctx.mount_id),
                    match resolved.inode_id {
                        None => refused(PathFault::PathIncomplete, Some(resolved.mount_ctx)),
                        Some(inode_id) => match seen.found {
                            None => PathStep::GetInode(inode_id),
                            Some(InodeLookup::Failed) => refused(PathFault::StoreFailed, Some(resolved.mount_ctx)),
                            Some(InodeLookup::Absent) => refused(
                                PathFault::InodeNotFound(inode_id),
                                Some(resolved.mount_ctx),
                            ),
                            Some(InodeLookup::Found { kind, current_data_handle_id }) => if kind != InodeKind::File {
                                refused(PathFault::NotAFile(inode_id), Some(resolved.mount_ctx))
                            } else {
                                executed(
                                    seen,
                                    PathWork::GetFileLayout {
                                        inode_id,
                                        range: inputs::range_told(req.range),
                                        requested_data_handle_id: None,
                                        freshness: inputs::fresh_by(req.call.epochs),
                                    },
                                    PathBody::OfFile {
                                        inode_id,
                                        data_handle_id: current_data_handle_id,
                                        with_locations: req.include_locations,
                                    },
                                )
                            },
                        },
                    },
                ),
            ),
        },
    )
}

/// Whose blocks are asked for.
#[derive(Clone, Copy, Debug, PartialEq, Eq)]
pub enum BlockTarget<'a> {
    /// What the path leads to.
    Path(&'a str),
    InodeId(InodeId),
    DataHandleId(DataHandleId),
}

/// A question where the blocks of a file are.
#[derive(Clone, Copy, Debug, PartialEq, Eq)]
pub struct BlockLocationsRequest<'a> {
    pub epochs: Option<HeaderEpochs>,
    pub target: Option<BlockTarget<'a>>,
    pub range: Option<WireRange>,
}

/// The blocks of an inode, once it is known that its data can be read.
pub open spec fn locate_next<'a>(
    inode_id: InodeId,
    requested_data_handle_id: Option<DataHandleId>,
    req: BlockLocationsRequest<'a>,
    seen: PathSeen<'a>,
) -> PathStep<'a> {
    match seen.found {
        None => PathStep::GetInode(inode_id),
        Some(InodeLookup::Failed) => refused(PathFault::StoreFailed, None),
        Some(InodeLookup::Absent) => refused(PathFault::InodeNotFound(inode_id), None),
        Some(InodeLookup::Found { current_data_handle_id, .. }) => executed(
            seen,
            PathWork::GetFileLayout {
                inode_id,
                range: inputs::range_told(req.range),
                requested_data_handle_id,
                freshness: inputs::fresh_by(req.epochs),
            },
            PathBody::OfFile { inode_id, data_handle_id: current_data_handle_id, with_locations: true },
        ),
    }
}

/// The blocks of an inode that was not reached by a path.
pub open spec fn locate_inode_next<'a>(
    inode_id: InodeId,
    requested_data_handle_id: Option<DataHandleId>,
    req: BlockLocationsRequest<'a>,
    seen: PathSeen<'a>,
) -> PathStep<'a> {
    match seen.mount {
        None => PathStep::PlanMount(inode_id),
        Some(None) => refused(PathFault::CoreFailed, None),
        Some(Some(mount_id)) => passed(
            seen.data,
            PathStep::CheckDataRead(mount_id),
            locate_next(inode_id, requested_data_handle_id, req, seen),
        ),
    }
}

/// What comes next for a question where the blocks of a file are.
pub open spec fn get_block_locations_next<'a>(req: BlockLocationsRequest<'a>, seen: PathSeen<'a>) -> PathStep<'a> {
    passed(
        seen.meta,
        PathStep::CheckMetaRead,
        match req.target {
            None => refused(PathFault::MissingTarget, None),
            Some(BlockTarget::Path(path)) => match seen.inode {
                None => PathStep::ResolveInode(path),
                Some(None) => refused(PathFault::Unresolved, None),
                Some(Some(resolved)) => passed(
                    seen.perm,
                    PathStep::CheckPerm(PermissionBits::Read, path),
                    passed(
                        seen.data,
                        PathStep::CheckDataRead(resolved.mount_ctx.mount_id),
                        match resolved.inode_id {
                            None => refused(PathFault::PathIncomplete, Some(resolved.mount_ctx)),
                            Some(inode_id) => locate_next(inode_id, None, req, seen),
                        },
                    ),
                ),
            },
            Some(BlockTarget::InodeId(inode_id)) => locate_inode_next(inode_id, None, req, seen),
            Some(BlockTarget::DataHandleId(data_handle_id)) => match seen.data_inode {
                None => PathStep::FindDataInode(data_handle_id),
                Some(None) => refused(PathFault::CoreFailed, None),
                Some(Some(inode_id)) => locate_inode_next(inode_id, Some(data_handle_id), req, seen),
            },
        },
    )
}

fn locate<'a>(
    inode_id: InodeId,
    requested_data_handle_id: Option<DataHandleId>,
    req: &BlockLocationsRequest<'a>,
    seen: &PathSeen<'a>,
) -> (step: PathStep<'a>)
    ensures
        step == locate_next(inode_id, requested_data_handle_id, *req, *seen),
{
    match seen.found {
        None => PathStep::GetInode(inode_id),
        Some(InodeLookup::Failed) => refuse(PathFault::StoreFailed, None),
        Some(InodeLookup::Absent) => refuse(PathFault::InodeNotFound(inode_id), None),
        Some(InodeLookup::Found { kind: _, current_data_handle_id }) => execute(
            seen,
            PathWork::GetFileLayout {
                inode_id,
                range: inputs::range_from_wire(req.range),
                requested_data_handle_id,
                freshness: inputs::freshness_from_header(req.epochs),
            },
            PathBody::OfFile { inode_id, data_handle_id: current_data_handle_id, with_locations: true },
        ),
    }
}

fn locate_inode<'a>(
    inode_id: InodeId,
    requested_data_handle_id: Option<DataHandleId>,
    req: &BlockLocationsRequest<'a>,
    seen: &PathSeen<'a>,
) -> (step: PathStep<'a>)
    ensures
        step == locate_inode_next(inode_id, requested_data_handle_id, *req, *seen),
{
    match seen.mount {
        None => PathStep::PlanMount(inode_id),
        Some(None) => refuse(PathFault::CoreFailed, None),
        Some(Some(mount_id)) => pass(
            seen.data,
            PathStep::CheckDataRead(mount_id),
            locate(inode_id, requested_data_handle_id, req, seen),
        ),
    }
}
// ---------------------------------------------------------------------------------------------
// Changing
// ---------------------------------------------------------------------------------------------

/// A new directory, with its attributes if they make sense.
#[derive(Clone, Copy, Debug, PartialEq, Eq)]
pub struct CreateDirectoryRequest<'a> {
    pub call: PathCall<'a>,
    pub attrs: Option<FileAttrs>,
}

/// What comes next for a new directory.
pub open spec fn create_directory_next<'a>(req: CreateDirectoryRequest<'a>, seen: PathSeen<'a>) -> PathStep<'a> {
    passed(
        seen.meta,
        PathStep::CheckMetaWrite,
        match seen.path {
            None => PathStep::ResolvePath(req.call.path),
            Some(None) => refused(PathFault::Unresolved, None),
            Some(Some(resolved)) => passed(
                seen.perm,
                PathStep::CheckParentPerm(PermissionBits::Write, PathArg::First, req.call.path),
                if resolved.parent_inode_id is None || resolved.name is None {
                    refused(PathFault::PathIncomplete, Some(resolved.mount_ctx))
                } else if req.attrs is None {
                    refused(PathFault::BadAttrs, Some(resolved.mount_ctx))
                } else {
                    executed(
                        seen,
                        PathWork::Mkdir {
                            parent_inode_id: resolved.parent_inode_id->0,
                            name: resolved.name->0,
                            attrs: req.attrs->0,
                            freshness: inputs::fresh_by(req.call.epochs),
                        },
                        PathBody::Given,
                    )
                },
            ),
        },
    )
}

/// A deletion, of a whole tree if that is asked for.
#[derive(Clone, Copy, Debug, PartialEq, Eq)]
pub struct DeleteRequest<'a> {
    pub call: PathCall<'a>,
    pub recursive: bool,
}

/// What comes next for a deletion. A tree goes only where that is asked for; then it need not be
/// there.
pub open spec fn delete_next<'a>(req: DeleteRequest<'a>, seen: PathSeen<'a>) -> PathStep<'a> {
    passed(
        seen.meta,
        PathStep::CheckMetaWrite,
        match seen.path {
            None => PathStep::ResolvePath(req.call.path),
            Some(None) => refused(PathFault::Unresolved, None),
            Some(Some(resolved)) => passed(
                seen.perm,
                PathStep::CheckParentPerm(PermissionBits::Write, PathArg::First, req.call.path),
                if resolved.parent_inode_id is None || resolved.name is None {
                    refused(PathFault::PathIncomplete, Some(resolved.mount_ctx))
                } else {
                    delete_entry_next(req, resolved, resolved.parent_inode_id->0, resolved.name->0, seen)
                },
            ),
        },
    )
}

/// The deletion of an entry of a directory.
pub open spec fn delete_entry_next<'a>(
    req: DeleteRequest<'a>,
    resolved: ResolvedPath<'a>,
    parent_inode_id: InodeId,
    name: &'a str,
    seen: PathSeen<'a>,
) -> PathStep<'a> {
    let freshness = inputs::fresh_by(req.call.epochs);
    match resolved.inode_id {
        None => if req.recursive {
            executed(seen, PathWork::DeleteTree { parent_inode_id, name, freshness }, PathBody::Nothing)
        } else {
            refused(PathFault::EntryNotFound, Some(resolved.mount_ctx))
        },
        Some(target) => match seen.found {
            None => PathStep::GetInode(target),
            Some(InodeLookup::Failed) => refused(PathFault::StoreFailed, Some(resolved.mount_ctx)),
            Some(InodeLookup::Absent) => refused(PathFault::TargetNotFound(target), Some(resolved.mount_ctx)),
            Some(InodeLookup::Found { kind, .. }) => executed(
                seen,
                if kind != InodeKind::Dir {
                    PathWork::Unlink { parent_inode_id, name, freshness }
                } else if req.recursive {
                    PathWork::DeleteTree { parent_inode_id, name, freshness }
                } else {
                    PathWork::Rmdir { parent_inode_id, name, freshness }
                },
                PathBody::Nothing,
            ),
        },
    }
}

fn delete_entry<'a>(
    req: &DeleteRequest<'a>,
    resolved: ResolvedPath<'a>,
    parent_inode_id: InodeId,
    name: &'a str,
    seen: &PathSeen<'a>,
) -> (step: PathStep<'a>)
    ensures
        step == delete_entry_next(*req, resolved, parent_inode_id, name, *seen),
{
    let freshness = inputs::freshness_from_header(req.call.epochs);
    match resolved.inode_id {
        None => if req.recursive {
            execute(seen, PathWork::DeleteTree { parent_inode_id, name, freshness }, PathBody::Nothing)
        } else {
            refuse(PathFault::EntryNotFound, Some(resolved.mount_ctx))
        },
        Some(target) => match seen.found {
            None => PathStep::GetInode(target),
            Some(InodeLookup::Failed) => refuse(PathFault::StoreFailed, Some(resolved.mount_ctx)),
            Some(InodeLookup::Absent) => refuse(PathFault::TargetNotFound(target), Some(resolved.mount_ctx)),
            Some(InodeLookup::Found { kind, current_data_handle_id: _ }) => {
                let work = if kind != InodeKind::Dir {
                    PathWork::Unlink { parent_inode_id, name, freshness }
                } else if req.recursive {
                    PathWork::DeleteTree { parent_inode_id, name, freshness }
                } else {
                    PathWork::Rmdir { parent_inode_id, name, freshness }
                };
                execute(seen, work, PathBody::Nothing)
            },
        },
    }
}

/// A rename, with its flags.
#[derive(Clone, Copy, Debug, PartialEq, Eq)]
pub struct RenamePathRequest<'a> {
    pub src_path: &'a str,
    pub dst_path: &'a str,
    pub flags: u32,
    pub epochs: Option<HeaderEpochs>,
}

/// What comes next for a rename.
pub open spec fn rename_next<'a>(req: RenamePathRequest<'a>, seen: PathSeen<'a>) -> PathStep<'a> {
    passed(
        seen.meta,
        PathStep::CheckMetaWrite,
        match seen.rename {
            None => PathStep::ResolveRename { src: req.src_path, dst: req.dst_path },
            Some(None) => refused(PathFault::Unresolved, None),
            Some(Some(paths)) => passed(
                seen.perm,
                PathStep::CheckParentPerm(PermissionBits::Write, PathArg::First, req.src_path),
                passed(
                    seen.second_perm,
                    PathStep::CheckParentPerm(PermissionBits::Write, PathArg::Second, req.dst_path),
                    if paths.src.parent_inode_id is None {
                        refused(PathFault::PathIncomplete, Some(paths.src.mount_ctx))
                    } else if paths.dst.parent_inode_id is None {
                        refused(PathFault::PathIncomplete, Some(paths.dst.mount_ctx))
                    } else if paths.src.name is None {
                        refused(PathFault::PathIncomplete, Some(paths.src.mount_ctx))
                    } else if paths.dst.name is None {
                        refused(PathFault::PathIncomplete, Some(paths.dst.mount_ctx))
                    } else {
                        executed(
                            seen,
                            PathWork::Rename {
                                src_parent_inode_id: paths.src.parent_inode_id->0,
                                src_name: paths.src.name->0,
                                dst_parent_inode_id: paths.dst.parent_inode_id->0,
                                dst_name: paths.dst.name->0,
                                flags: req.flags,
                                freshness: inputs::fresh_by(req.epochs),
                            },
                            PathBody::Nothing,
                        )
                    },
                ),
            ),
        },
    )
}

/// What is to become of a file that is there.
#[derive(Clone, Copy, Debug, PartialEq, Eq, Structural)]
pub enum CreateDisposition {
    /// Not said, or not understood.
    Unspecified,
    /// There must be none.
    New,
    Overwrite,
}

/// The numbers by which the wire tells what is to become of a file that is there.
#[derive(Clone, Copy, Debug, PartialEq, Eq, Structural)]
pub struct DispositionNumbers {
    pub create_new: i32,
    pub overwrite: i32,
}

/// What is to become of a file that is there, by the number that the wire tells. A number that means
/// nothing counts as not said.
pub fn disposition_from_wire(number: i32, numbers: DispositionNumbers) -> (disposition: CreateDisposition)
    ensures
        disposition == (if number == numbers.create_new {
            CreateDisposition::New
        } else if number == numbers.overwrite {
            CreateDisposition::Overwrite
        } else {
            CreateDisposition::Unspecified
        }),
{
    if number == numbers.create_new {
        CreateDisposition::New
    } else if number == numbers.overwrite {
        CreateDisposition::Overwrite
    } else {
        CreateDisposition::Unspecified
    }
}

/// A new file, or an old one to be written anew.
#[derive(Clone, Copy, Debug, PartialEq, Eq)]
pub struct CreateFileRequest<'a> {
    pub call: PathCall<'a>,
    pub disposition: CreateDisposition,
    /// The attributes, if they make sense.
    pub attrs: Option<FileAttrs>,
    /// The layout, if it makes sense.
    pub layout: Option<FileLayout>,
    pub desired_len: Option<u64>,
}

/// What comes next for a file to be written. One that is there is opened; one that is not is
/// created first.
pub open spec fn create_file_next<'a>(req: CreateFileRequest<'a>, seen: PathSeen<'a>) -> PathStep<'a> {
    passed(
        seen.meta,
        PathStep::CheckMetaWrite,
        if req.disposition == CreateDisposition::Unspecified {
            refused(PathFault::MissingDisposition, None)
        } else if req.disposition == CreateDisposition::Overwrite && seen.inode is None {
            PathStep::ResolveInode(req.call.path)
        } else if req.disposition == CreateDisposition::Overwrite && seen.inode->0 is Some {
            open_to_write_next(req.call, seen.inode->0->0, req.desired_len, WriteMode::Write, seen)
        } else {
            create_new_file_next(req, seen)
        },
    )
}

/// A file that is there is opened to be written.
pub open spec fn open_to_write_next<'a>(
    call: PathCall<'a>,
    resolved: ResolvedPath<'a>,
    desired_len: Option<u64>,
    mode: WriteMode,
    seen: PathSeen<'a>,
) -> PathStep<'a> {
    passed(
        seen.perm,
        PathStep::CheckPerm(PermissionBits::Write, call.path),
        passed(
            seen.data,
            PathStep::CheckDataWrite(resolved.mount_ctx.mount_id),
            match resolved.inode_id {
                None => refused(PathFault::PathIncomplete, Some(resolved.mount_ctx)),
                Some(inode_id) => executed(
                    seen,
                    PathWork::OpenWrite {
                        inode_id,
                        desired_len,
                        mode,
                        freshness: inputs::fresh_by(call.epochs),
                    },
                    PathBody::Given,
                ),
            },
        ),
    )
}

/// A file is created, where it could be written afterwards, and then opened.
pub open spec fn create_new_file_next<'a>(req: CreateFileRequest<'a>, seen: PathSeen<'a>) -> PathStep<'a> {
    match seen.path {
        None => PathStep::ResolvePath(req.call.path),
        Some(None) => refused(PathFault::Unresolved, None),
        Some(Some(resolved)) => passed(
            seen.perm,
            PathStep::CheckParentPerm(PermissionBits::Write, PathArg::First, req.call.path),
            if req.attrs is None {
                refused(PathFault::BadAttrs, Some(resolved.mount_ctx))
            } else if req.layout is None {
                refused(PathFault::BadLayout, Some(resolved.mount_ctx))
            } else if resolved.parent_inode_id is None || resolved.name is None {
                refused(PathFault::PathIncomplete, Some(resolved.mount_ctx))
            } else if seen.preflight is None {
                PathStep::Preflight {
                    desired_len: req.desired_len,
                    layout: req.layout->0,
                    mount: resolved.mount_ctx,
                }
            } else if seen.preflight == Some(false) {
                refused(PathFault::CoreFailed, None)
            } else {
                match seen.created {
                    None => PathStep::Create {
                        parent_inode_id: resolved.parent_inode_id->0,
                        name: resolved.name->0,
                        attrs: req.attrs->0,
                        layout: req.layout->0,
                        freshness: inputs::fresh_by(req.call.epochs),
                    },
                    Some(Created::Failed) => refused(PathFault::CoreFailed, None),
                    Some(Created::WithoutInode) => refused(PathFault::NothingCreated, Some(resolved.mount_ctx)),
                    Some(Created::Inode(inode_id)) => executed(
                        seen,
                        PathWork::OpenWrite {
                            inode_id,
                            desired_len: req.desired_len,
                            mode: WriteMode::Write,
                            freshness: inputs::fresh_by(req.call.epochs),
                        },
                        PathBody::Given,
                    ),
                }
            },
        ),
    }
}

/// A file to be written at its end.
#[derive(Clone, Copy, Debug, PartialEq, Eq)]
pub struct AppendFileRequest<'a> {
    pub call: PathCall<'a>,
    pub desired_len: Option<u64>,
}

/// What comes next for a file to be written at its end.
pub open spec fn append_file_next<'a>(req: AppendFileRequest<'a>, seen: PathSeen<'a>) -> PathStep<'a> {
    passed(
        seen.meta,
        PathStep::CheckMetaWrite,
        match seen.inode {
            None => PathStep::ResolveInode(req.call.path),
            Some(None) => refused(PathFault::Unresolved, None),
            Some(Some(resolved)) => open_to_write_next(req.call, resolved, req.desired_len, WriteMode::Append, seen),
        },
    )
}

fn open_to_write<'a>(
    call: PathCall<'a>,
    resolved: ResolvedPath<'a>,
    desired_len: Option<u64>,
    mode: WriteMode,
    seen: &PathSeen<'a>,
) -> (step: PathStep<'a>)
    ensures
        step == open_to_write_next(call, resolved, desired_len, mode, *seen),
{
    let open = match resolved.inode_id {
        None => refuse(PathFault::PathIncomplete, Some(resolved.mount_ctx)),
        Some(inode_id) => execute(
            seen,
            PathWork::OpenWrite {
                inode_id,
                desired_len,
                mode,
                freshness: inputs::freshness_from_header(call.epochs),
            },
            PathBody::Given,
        ),
    };
    pass(
        seen.perm,
        PathStep::CheckPerm(PermissionBits::Write, call.path),
        pass(seen.data, PathStep::CheckDataWrite(resolved.mount_ctx.mount_id), open),
    )
}

fn create_new_file<'a>(req: &CreateFileRequest<'a>, seen: &PathSeen<'a>) -> (step: PathStep<'a>)
    ensures
        step == create_new_file_next(*req, *seen),
{
    let resolved = match seen.path {
        None => {
            return PathStep::ResolvePath(req.call.path);
        },
        Some(None) => {
            return refuse(PathFault::Unresolved, None);
        },
        Some(Some(resolved)) => resolved,
    };
    match seen.perm {
        None => {
            return PathStep::CheckParentPerm(PermissionBits::Write, PathArg::First, req.call.path);
        },
        Some(allowed) => {
            if !allowed {
                return refuse(PathFault::GuardRefused, None);
            }
        },
    }
    let mount = Some(resolved.mount_ctx);
    let attrs = match req.attrs {
        Some(attrs) => attrs,
        None => {
            return refuse(PathFault::BadAttrs, mount);
        },
    };
    let layout = match req.layout {
        Some(layout) => layout,
        None => {
            return refuse(PathFault::BadLayout, mount);
        },
    };
    let parent_inode_id = match resolved.parent_inode_id {
        Some(parent_inode_id) => parent_inode_id,
        None => {
            return refuse(PathFault::PathIncomplete, mount);
        },
    };
    let name = match resolved.name {
        Some(name) => name,
        None => {
            return refuse(PathFault::PathIncomplete, mount);
        },
    };
    let freshness = inputs::freshness_from_header(req.call.epochs);
    match seen.preflight {
        None => {
            return PathStep::Preflight { desired_len: req.desired_len, layout, mount: resolved.mount_ctx };
        },
        Some(writable) => {
            if !writable {
                return refuse(PathFault::CoreFailed, None);
            }
        },
    }
    match seen.created {
        None => PathStep::Create { parent_inode_id, name, attrs, layout, freshness },
        Some(Created::Failed) => refuse(PathFault::CoreFailed, None),
        Some(Created::WithoutInode) => refuse(PathFault::NothingCreated, mount),
        Some(Created::Inode(inode_id)) => execute(
            seen,
            PathWork::OpenWrite { inode_id, desired_len: req.desired_len, mode: WriteMode::Write, freshness },
            PathBody::Given,
        ),
    }
}

// ---------------------------------------------------------------------------------------------
// Writing through a handle
// ---------------------------------------------------------------------------------------------

/// A request through a write handle, and the epochs that its header tells.
#[derive(Clone, Copy, Debug, PartialEq, Eq, Structural)]
pub struct HandleCall {
    pub handle: Option<ShownHandle>,
    pub epochs: Option<HeaderEpochs>,
}

/// A handle with a session is guarded as data of the session's mount, one without as metadata.
pub open spec fn handle_next<'a>(call: HandleCall, next: PathStep<'a>, seen: PathSeen<'a>) -> PathStep<'a> {
    match call.handle {
        None => refused(PathFault::MissingWriteHandle, None),
        Some(handle) => match seen.session {
            None => PathStep::FindSession(handle.handle_id),
            Some(Some(mount_id)) => passed(seen.data, PathStep::CheckDataWrite(mount_id), next),
            Some(None) => passed(seen.meta, PathStep::CheckMetaWrite, next),
        },
    }
}

fn on_handle<'a>(handle: ShownHandle, next: PathStep<'a>, seen: &PathSeen<'a>) -> (step: PathStep<'a>)
    ensures
        forall|call: HandleCall| call.handle == Some(handle) ==> step == #[trigger] handle_next(call, next, *seen),
{
    match seen.session {
        None => PathStep::FindSession(handle.handle_id),
        Some(Some(mount_id)) => pass(seen.data, PathStep::CheckDataWrite(mount_id), next),
        Some(None) => pass(seen.meta, PathStep::CheckMetaWrite, next),
    }
}

/// What comes next for another block.
pub open spec fn add_block_next<'a>(call: HandleCall, desired_len: Option<u64>, seen: PathSeen<'a>) -> PathStep<'a> {
    handle_next(
        call,
        executed(
            seen,
            PathWork::AddBlock {
                handle: call.handle->0,
                desired_len,
                freshness: inputs::fresh_by(call.epochs),
            },
            PathBody::Given,
        ),
        seen,
    )
}

/// The end of a write: the file's data, and the blocks that were written.
#[derive(Clone, Copy, Debug, PartialEq, Eq)]
pub struct CommitFileRequest<'a> {
    pub call: HandleCall,
    pub data_handle_id: Option<u64>,
    pub committed_blocks: &'a Vec<WireCommittedBlock>,
    pub final_size: u64,
}

/// What comes next for the end of a write. Every block must be of the file's data.
pub open spec fn commit_file_next<'a>(req: CommitFileRequest<'a>, seen: PathSeen<'a>) -> PathStep<'a> {
    handle_next(
        req.call,
        if req.data_handle_id is None {
            refused(PathFault::MissingDataHandleId, None)
        } else if !path_types::all_of_data(req.committed_blocks@, req.data_handle_id->0) {
            refused(PathFault::ForeignBlock, None)
        } else {
            executed(
                seen,
                PathWork::CloseWrite {
                    handle: req.call.handle->0,
                    blocks: req.committed_blocks,
                    final_size: req.final_size,
                    freshness: inputs::fresh_by(req.call.epochs),
                },
                PathBody::Given,
            )
        },
        seen,
    )
}

/// What comes next for a write that is given up.
pub open spec fn abort_file_write_next<'a>(call: HandleCall, seen: PathSeen<'a>) -> PathStep<'a> {
    handle_next(
        call,
        executed(
            seen,
            PathWork::AbortWrite { handle: call.handle->0, freshness: inputs::fresh_by(call.epochs) },
            PathBody::Nothing,
        ),
        seen,
    )
}

/// What comes next for a lease to be renewed.
pub open spec fn renew_lease_next<'a>(call: HandleCall, seen: PathSeen<'a>) -> PathStep<'a> {
    handle_next(
        call,
        executed(
            seen,
            PathWork::RenewLease { handle: call.handle->0, freshness: inputs::fresh_by(call.epochs) },
            PathBody::Given,
        ),
        seen,
    )
}

/// What comes next for a barrier: none is offered.
pub open spec fn reserved_next<'a>(fault: PathFault, seen: PathSeen<'a>) -> PathStep<'a> {
    passed(seen.meta, PathStep::CheckMetaWrite, refused(fault, None))
}

// ---------------------------------------------------------------------------------------------
// The service
// ---------------------------------------------------------------------------------------------

/// What the service stands on: the node's raft, where it has one, and its group.
#[derive(Debug)]
pub struct FileSystemAuthorityDeps {
    pub raft_node: Option<RaftView>,
    pub group_name: GroupName,
}

/// What the service runs with: whether the root mount is ready, where that is watched.
#[derive(Debug)]
pub struct FileSystemRuntimeDeps {
    pub readiness_gate: Option<bool>,
}

/// Who says whether this node leads, where it is not the raft node.
#[derive(Debug)]
pub struct FileSystemPolicyDeps {
    pub leadership_checker: Option<RaftView>,
}

#[derive(Debug)]
pub struct MetadataFileSystemServiceDeps {
    pub authority: FileSystemAuthorityDeps,
    pub runtime: FileSystemRuntimeDeps,
    pub policy: FileSystemPolicyDeps,
}

/// Requests by path, with the guards of one node.
#[derive(Debug)]
pub struct MetadataFileSystemServiceImpl {
    pub guard_chain: GuardChain,
    pub msync: Option<MsyncHandler>,
}

impl MetadataFileSystemServiceImpl {
    /// Clients are synchronized where there is a raft node. The raft node says who leads unless
    /// someone else is named for that.
    pub fn new(deps: MetadataFileSystemServiceDeps) -> (service: Self)
        ensures
            service.guard_chain.readiness_gate == deps.runtime.readiness_gate,
            service.guard_chain.raft_node == (if deps.policy.leadership_checker is Some {
                deps.policy.leadership_checker
            } else {
                deps.authority.raft_node
            }),
            service.msync is Some <==> deps.authority.raft_node is Some,
            service.msync matches Some(handler) ==> handler.group_name == deps.authority.group_name,
    {
        let msync = if deps.authority.raft_node.is_some() {
            Some(MsyncHandler::new(deps.authority.group_name))
        } else {
            None
        };
        let leadership_checker = match deps.policy.leadership_checker {
            Some(checker) => Some(checker),
            None => deps.authority.raft_node,
        };
        let guard_chain = GuardChain::new().with_readiness_gate(deps.runtime.readiness_gate).with_raft_node(
            leadership_checker,
        );
        MetadataFileSystemServiceImpl { guard_chain, msync }
    }

    /// Synchronizes a client. A node without raft cannot.
    pub fn msync(&self, raft: &RaftView, header: &SyncHeader) -> (answer: MsyncAnswer)
        ensures
            self.msync matches Some(handler) ==> answer@ == msync::sync_answer(handler.group_name@, *raft, *header),
            self.msync is None ==> answer@ == MsyncModel::Error(
                match header {
                    SyncHeader::Read(group_name) => rpc::named(*group_name),
                    _ => None,
                },
                DetailModel::retry(
                    FailureKind::NodeUnavailable,
                    Some(msync::SYNC_RETRY_MS),
                    "msync raft node is not configured"@,
                ),
            ),
    {
        match &self.msync {
            Some(handler) => handler.handle(raft, header),
            None => {
                let group_name = match header {
                    SyncHeader::Read(group_name) => rpc::copy_group(group_name),
                    SyncHeader::Missing | SyncHeader::Invalid(_) => None,
                };
                MsyncHandler::unavailable(group_name)
            },
        }
    }

    /// A look at an entry.
    pub fn get_status<'a>(&self, call: &PathCall<'a>, seen: &PathSeen<'a>) -> (step: PathStep<'a>)
        ensures
            step == get_status_next(*call, *seen),
    {
        let next = match seen.inode {
            None => PathStep::ResolveInode(call.path),
            Some(None) => refuse(PathFault::Unresolved, None),
            Some(Some(resolved)) => {
                let look = match resolved.inode_id {
                    None => refuse(PathFault::PathIncomplete, Some(resolved.mount_ctx)),
                    Some(inode_id) => execute(
                        seen,
                        PathWork::GetAttr { inode_id, freshness: inputs::freshness_from_header(call.epochs) },
                        PathBody::OfInode(inode_id),
                    ),
                };
                pass(seen.perm, PathStep::CheckPerm(PermissionBits::Read, call.path), look)
            },
        };
        pass(seen.meta, PathStep::CheckMetaRead, next)
    }

    /// A listing.
    pub fn list_status<'a>(&self, req: &ListStatusRequest<'a>, seen: &PathSeen<'a>) -> (step: PathStep<'a>)
        ensures
            step == list_status_next(*req, *seen),
    {
        let next = match seen.inode {
            None => PathStep::ResolveInode(req.call.path),
            Some(None) => refuse(PathFault::Unresolved, None),
            Some(Some(resolved)) => if req.recursive {
                refuse(PathFault::RecursiveListing, Some(resolved.mount_ctx))
            } else {
                let list = match resolved.inode_id {
                    None => refuse(PathFault::PathIncomplete, Some(resolved.mount_ctx)),
                    Some(inode_id) => {
                        let max_entries = if req.limit != 0 {
                            Some(req.limit)
                        } else {
                            None
                        };
                        let cursor = if req.cursor.len() != 0 {
                            Some(req.cursor)
                        } else {
                            None
                        };
                        let freshness = inputs::freshness_from_header(req.call.epochs);
                        execute(
                            seen,
                            PathWork::ReadDir { inode_id, cursor, max_entries, freshness },
                            PathBody::Given,
                        )
                    },
                };
                pass(seen.perm, PathStep::CheckPerm(PermissionBits::Read, req.call.path), list)
            },
        };
        pass(seen.meta, PathStep::CheckMetaRead, next)
    }

    /// Opening a file to read it.
    pub fn open_file<'a>(&self, req: &OpenFileRequest<'a>, seen: &PathSeen<'a>) -> (step: PathStep<'a>)
        ensures
            step == open_file_next(*req, *seen),
    {
        let resolved = match seen.inode {
            None => {
                return pass(seen.meta, PathStep::CheckMetaRead, PathStep::ResolveInode(req.call.path));
            },
            Some(None) => {
                return pass(seen.meta, PathStep::CheckMetaRead, refuse(PathFault::Unresolved, None));
            },
            Some(Some(resolved)) => resolved,
        };
        let mount = Some(resolved.mount_ctx);
        let open = match resolved.inode_id {
            None => refuse(PathFault::PathIncomplete, mount),
            Some(inode_id) => match seen.found {
                None => PathStep::GetInode(inode_id),
                Some(InodeLookup::Failed) => refuse(PathFault::StoreFailed, mount),
                Some(InodeLookup::Absent) => refuse(PathFault::InodeNotFound(inode_id), mount),
                Some(InodeLookup::Found { kind, current_data_handle_id }) => if kind != InodeKind::File {
                    refuse(PathFault::NotAFile(inode_id), mount)
                } else {
                    execute(
                        seen,
                        PathWork::GetFileLayout {
                            inode_id,
                            range: inputs::range_from_wire(req.range),
                            requested_data_handle_id: None,
                            freshness: inputs::freshness_from_header(req.call.epochs),
                        },
                        PathBody::OfFile {
                            inode_id,
                            data_handle_id: current_data_handle_id,
                            with_locations: req.include_locations,
                        },
                    )
                },
            },
        };
        let guarded = pass(
            seen.perm,
            PathStep::CheckPerm(PermissionBits::Read, req.call.path),
            pass(seen.data, PathStep::CheckDataRead(resolved.mount_ctx.mount_id), open),
        );
        pass(seen.meta, PathStep::CheckMetaRead, guarded)
    }

    /// Where the blocks of a file are.
    pub fn get_block_locations<'a>(&self, req: &BlockLocationsRequest<'a>, seen: &PathSeen<'a>) -> (step: PathStep<'a>)
        ensures
            step == get_block_locations_next(*req, *seen),
    {
        let next = match req.target {
            None => refuse(PathFault::MissingTarget, None),
            Some(BlockTarget::Path(path)) => match seen.inode {
                None => PathStep::ResolveInode(path),
                Some(None) => refuse(PathFault::Unresolved, None),
                Some(Some(resolved)) => {
                    let blocks = match resolved.inode_id {
                        None => refuse(PathFault::PathIncomplete, Some(resolved.mount_ctx)),
                        Some(inode_id) => locate(inode_id, None, req, seen),
                    };
                    pass(
                        seen.perm,
                        PathStep::CheckPerm(PermissionBits::Read, path),
                        pass(seen.data, PathStep::CheckDataRead(resolved.mount_ctx.mount_id), blocks),
                    )
                },
            },
            Some(BlockTarget::InodeId(inode_id)) => locate_inode(inode_id, None, req, seen),
            Some(BlockTarget::DataHandleId(data_handle_id)) => match seen.data_inode {
                None => PathStep::FindDataInode(data_handle_id),
                Some(None) => refuse(PathFault::CoreFailed, None),
                Some(Some(inode_id)) => locate_inode(inode_id, Some(data_handle_id), req, seen),
            },
        };
        pass(seen.meta, PathStep::CheckMetaRead, next)
    }

    /// A new directory.
    pub fn create_directory<'a>(&self, req: &CreateDirectoryRequest<'a>, seen: &PathSeen<'a>) -> (step: PathStep<'a>)
        ensures
            step == create_directory_next(*req, *seen),
    {
        let next = match seen.path {
            None => PathStep::ResolvePath(req.call.path),
            Some(None) => refuse(PathFault::Unresolved, None),
            Some(Some(resolved)) => {
                let mount = Some(resolved.mount_ctx);
                let freshness = inputs::freshness_from_header(req.call.epochs);
                let make = match (resolved.parent_inode_id, resolved.name) {
                    (Some(parent_inode_id), Some(name)) => match req.attrs {
                        None => refuse(PathFault::BadAttrs, mount),
                        Some(attrs) => execute(
                            seen,
                            PathWork::Mkdir { parent_inode_id, name, attrs, freshness },
                            PathBody::Given,
                        ),
                    },
                    _ => refuse(PathFault::PathIncomplete, mount),
                };
                pass(seen.perm, PathStep::CheckParentPerm(PermissionBits::Write, PathArg::First, req.call.path), make)
            },
        };
        pass(seen.meta, PathStep::CheckMetaWrite, next)
    }

    /// A deletion.
    pub fn delete<'a>(&self, req: &DeleteRequest<'a>, seen: &PathSeen<'a>) -> (step: PathStep<'a>)
        ensures
            step == delete_next(*req, *seen),
    {
        let next = match seen.path {
            None => PathStep::ResolvePath(req.call.path),
            Some(None) => refuse(PathFault::Unresolved, None),
            Some(Some(resolved)) => {
                let remove = match (resolved.parent_inode_id, resolved.name) {
                    (Some(parent_inode_id), Some(name)) => delete_entry(req, resolved, parent_inode_id, name, seen),
                    _ => refuse(PathFault::PathIncomplete, Some(resolved.mount_ctx)),
                };
                pass(seen.perm, PathStep::CheckParentPerm(PermissionBits::Write, PathArg::First, req.call.path), remove)
            },
        };
        pass(seen.meta, PathStep::CheckMetaWrite, next)
    }

    /// A rename.
    pub fn rename<'a>(&self, req: &RenamePathRequest<'a>, seen: &PathSeen<'a>) -> (step: PathStep<'a>)
        ensures
            step == rename_next(*req, *seen),
    {
        let next = match seen.rename {
            None => PathStep::ResolveRename { src: req.src_path, dst: req.dst_path },
            Some(None) => refuse(PathFault::Unresolved, None),
            Some(Some(paths)) => {
                let moved = match (paths.src.parent_inode_id, paths.dst.parent_inode_id) {
                    (None, _) => refuse(PathFault::PathIncomplete, Some(paths.src.mount_ctx)),
                    (Some(_), None) => refuse(PathFault::PathIncomplete, Some(paths.dst.mount_ctx)),
                    (Some(src_parent_inode_id), Some(dst_parent_inode_id)) => match (paths.src.name, paths.dst.name) {
                        (None, _) => refuse(PathFault::PathIncomplete, Some(paths.src.mount_ctx)),
                        (Some(_), None) => refuse(PathFault::PathIncomplete, Some(paths.dst.mount_ctx)),
                        (Some(src_name), Some(dst_name)) => execute(
                            seen,
                            PathWork::Rename {
                                src_parent_inode_id,
                                src_name,
                                dst_parent_inode_id,
                                dst_name,
                                flags: req.flags,
                                freshness: inputs::freshness_from_header(req.epochs),
                            },
                            PathBody::Nothing,
                        ),
                    },
                };
                pass(
                    seen.perm,
                    PathStep::CheckParentPerm(PermissionBits::Write, PathArg::First, req.src_path),
                    pass(
                        seen.second_perm,
                        PathStep::CheckParentPerm(PermissionBits::Write, PathArg::Second, req.dst_path),
                        moved,
                    ),
                )
            },
        };
        pass(seen.meta, PathStep::CheckMetaWrite, next)
    }

    /// A file to be written.
    pub fn create_file<'a>(&self, req: &CreateFileRequest<'a>, seen: &PathSeen<'a>) -> (step: PathStep<'a>)
        ensures
            step == create_file_next(*req, *seen),
    {
        let next = match req.disposition {
            CreateDisposition::Unspecified => refuse(PathFault::MissingDisposition, None),
            CreateDisposition::New => create_new_file(req, seen),
            CreateDisposition::Overwrite => match seen.inode {
                None => PathStep::ResolveInode(req.call.path),
                Some(Some(resolved)) => open_to_write(req.call, resolved, req.desired_len, WriteMode::Write, seen),
                Some(None) => create_new_file(req, seen),
            },
        };
        pass(seen.meta, PathStep::CheckMetaWrite, next)
    }

    /// A file to be written at its end.
    pub fn append_file<'a>(&self, req: &AppendFileRequest<'a>, seen: &PathSeen<'a>) -> (step: PathStep<'a>)
        ensures
            step == append_file_next(*req, *seen),
    {
        let next = match seen.inode {
            None => PathStep::ResolveInode(req.call.path),
            Some(None) => refuse(PathFault::Unresolved, None),
            Some(Some(resolved)) => open_to_write(req.call, resolved, req.desired_len, WriteMode::Append, seen),
        };
        pass(seen.meta, PathStep::CheckMetaWrite, next)
    }

    /// Another block.
    pub fn add_block<'a>(&self, call: &HandleCall, desired_len: Option<u64>, seen: &PathSeen<'a>) -> (step: PathStep<'a>)
        ensures
            step == add_block_next(*call, desired_len, *seen),
    {
        let freshness = inputs::freshness_from_header(call.epochs);
        match call.handle {
            None => refuse(PathFault::MissingWriteHandle, None),
            Some(handle) => on_handle(
                handle,
                execute(seen, PathWork::AddBlock { handle, desired_len, freshness }, PathBody::Given),
                seen,
            ),
        }
    }

    /// The end of a write.
    pub fn commit_file<'a>(&self, req: &CommitFileRequest<'a>, seen: &PathSeen<'a>) -> (step: PathStep<'a>)
        ensures
            step == commit_file_next(*req, *seen),
    {
        let handle = match req.call.handle {
            None => {
                return refuse(PathFault::MissingWriteHandle, None);
            },
            Some(handle) => handle,
        };
        let close = match req.data_handle_id {
            None => refuse(PathFault::MissingDataHandleId, None),
            Some(data_handle_id) => match path_types::committed_blocks(req.committed_blocks, data_handle_id) {
                None => refuse(PathFault::ForeignBlock, None),
                Some(_) => execute(
                    seen,
                    PathWork::CloseWrite {
                        handle,
                        blocks: req.committed_blocks,
                        final_size: req.final_size,
                        freshness: inputs::freshness_from_header(req.call.epochs),
                    },
                    PathBody::Given,
                ),
            },
        };
        on_handle(handle, close, seen)
    }

    /// A write that is given up.
    pub fn abort_file_write<'a>(&self, call: &HandleCall, seen: &PathSeen<'a>) -> (step: PathStep<'a>)
        ensures
            step == abort_file_write_next(*call, *seen),
    {
        let freshness = inputs::freshness_from_header(call.epochs);
        match call.handle {
            None => refuse(PathFault::MissingWriteHandle, None),
            Some(handle) => on_handle(
                handle,
                execute(seen, PathWork::AbortWrite { handle, freshness }, PathBody::Nothing),
                seen,
            ),
        }
    }

    /// A lease to be renewed.
    pub fn renew_lease<'a>(&self, call: &HandleCall, seen: &PathSeen<'a>) -> (step: PathStep<'a>)
        ensures
            step == renew_lease_next(*call, *seen),
    {
        let freshness = inputs::freshness_from_header(call.epochs);
        match call.handle {
            None => refuse(PathFault::MissingWriteHandle, None),
            Some(handle) => on_handle(
                handle,
                execute(seen, PathWork::RenewLease { handle, freshness }, PathBody::Given),
                seen,
            ),
        }
    }

    /// A barrier that makes writes visible is not offered.
    pub fn hflush<'a>(&self, seen: &PathSeen<'a>) -> (step: PathStep<'a>)
        ensures
            step == reserved_next(PathFault::HflushReserved, *seen),
    {
        pass(seen.meta, PathStep::CheckMetaWrite, refuse(PathFault::HflushReserved, None))
    }

    /// A barrier that makes writes durable is not offered.
    pub fn hsync<'a>(&self, seen: &PathSeen<'a>) -> (step: PathStep<'a>)
        ensures
            step == reserved_next(PathFault::HsyncReserved, *seen),
    {
        pass(seen.meta, PathStep::CheckMetaWrite, refuse(PathFault::HsyncReserved, None))
    }
}

} // verus!
