//! What each request by path asks, does and answers, told by what it carries and what was seen.

use crate::ids::{DataHandleId, InodeId, MountId};
use crate::service::fs_types::InodeKind;
use crate::service::guard::PermissionBits;
use crate::service::inputs::{FileRange, Freshness, HeaderEpochs, WireRange};
use crate::service::path_laws;
use crate::service::path_laws::PathRequest;
use crate::service::path_service;
use crate::service::path_service::{
    AppendFileRequest, BlockLocationsRequest, BlockTarget, CommitFileRequest, CreateDirectoryRequest,
    CreateDisposition, CreateFileRequest, DeleteRequest, HandleCall, ListStatusRequest, OpenFileRequest, PathCall,
    RenamePathRequest,
};
use crate::service::path_types::{
    Created, InodeLookup, MountContext, PathArg, PathBody, PathFault, PathSeen, PathStep, PathWork, ResolvedPath,
};
use crate::write_target::WriteMode;
use vstd::prelude::*;

verus! {

/// The epochs are those of the header, and the worker's is left out.
pub open spec fn tells_epochs(freshness: Freshness, header: Option<HeaderEpochs>) -> bool {
    &&& freshness.worker_epoch is None
    &&& header is None ==> freshness.mount_epoch is None && freshness.route_epoch is None
    &&& header is Some ==> freshness.mount_epoch == header->0.mount_epoch && freshness.route_epoch
        == header->0.route_epoch
}

/// The range is the one that was sent.
pub open spec fn tells_range(range: Option<FileRange>, sent: Option<WireRange>) -> bool {
    &&& range is Some <==> sent is Some
    &&& sent is Some ==> range->0.offset == sent->0.offset && range->0.len == sent->0.len
}

/// The step answers without a fault.
pub open spec fn succeeds(step: PathStep) -> bool {
    step matches PathStep::Answer(answer) && answer.fault is None
}

/// What the entry's path led to, where it led anywhere.
pub open spec fn led_to<'a>(found: Option<Option<ResolvedPath<'a>>>, resolved: ResolvedPath<'a>) -> bool {
    found == Some(Some(resolved))
}

/// The fault has its cause: a guard or a right that was refused, a failure that was seen, or
/// something that the request lacks.
pub open spec fn has_cause(fault: PathFault, req: PathRequest, seen: PathSeen) -> bool {
    match fault {
        PathFault::GuardRefused => seen.meta == Some(false) || seen.perm == Some(false) || seen.second_perm == Some(
            false,
        ) || seen.data == Some(false),
        PathFault::CoreFailed => seen.done == Some(false) || seen.preflight == Some(false) || seen.created == Some(
            Created::Failed,
        ) || seen.mount == Some(None::<MountId>) || seen.data_inode == Some(None::<InodeId>),
        PathFault::Unresolved => (seen.inode is Some && seen.inode->0 is None) || (seen.path is Some && seen.path->0
            is None) || (seen.rename is Some && seen.rename->0 is None),
        PathFault::PathIncomplete => {
            ||| seen.inode is Some && seen.inode->0 is Some && seen.inode->0->0.inode_id is None
            ||| seen.path is Some && seen.path->0 is Some && (seen.path->0->0.parent_inode_id is None
                || seen.path->0->0.name is None)
            ||| seen.rename is Some && seen.rename->0 is Some && (seen.rename->0->0.src.parent_inode_id is None
                || seen.rename->0->0.src.name is None || seen.rename->0->0.dst.parent_inode_id is None
                || seen.rename->0->0.dst.name is None)
        },
        PathFault::StoreFailed => seen.found == Some(InodeLookup::Failed),
        PathFault::BadAttrs => match req {
            PathRequest::CreateDirectory(r) => r.attrs is None,
            PathRequest::CreateFile(r) => r.attrs is None,
            _ => false,
        },
        PathFault::BadLayout => req is CreateFile && req->CreateFile_0.layout is None,
        PathFault::MissingWriteHandle => match req {
            PathRequest::AddBlock(call, _) => call.handle is None,
            PathRequest::CommitFile(r) => r.call.handle is None,
            PathRequest::AbortFileWrite(call) => call.handle is None,
            PathRequest::RenewLease(call) => call.handle is None,
            _ => false,
        },
        PathFault::MissingDataHandleId => req is CommitFile && req->CommitFile_0.data_handle_id is None,
        PathFault::MissingTarget => req is GetBlockLocations && req->GetBlockLocations_0.target is None,
        PathFault::MissingDisposition => req is CreateFile && req->CreateFile_0.disposition
            == CreateDisposition::Unspecified,
        PathFault::ForeignBlock => req is CommitFile && req->CommitFile_0.data_handle_id is Some && exists|i: int|
            0 <= i < req->CommitFile_0.committed_blocks@.len() && ((
            #[trigger] req->CommitFile_0.committed_blocks@[i]).block_id is None
                || req->CommitFile_0.committed_blocks@[i].block_id->0.data_handle_id
                != req->CommitFile_0.data_handle_id->0),
        PathFault::RecursiveListing => req is ListStatus && req->ListStatus_0.recursive,
        PathFault::NothingCreated => seen.created == Some(Created::WithoutInode),
        PathFault::TargetNotFound(id) => req is Delete && seen.found == Some(InodeLookup::Absent)
            && seen.path->0->0.inode_id == Some(id),
        PathFault::EntryNotFound => req is Delete && !req->Delete_0.recursive && seen.path is Some && seen.path->0
            is Some && seen.path->0->0.inode_id is None,
        PathFault::InodeNotFound(_) => seen.found == Some(InodeLookup::Absent) && path_laws::only_reads(req),
        PathFault::NotAFile(id) => req is OpenFile && (seen.found matches Some(InodeLookup::Found { kind, .. }) && kind
            != InodeKind::File) && seen.inode->0->0.inode_id == Some(id),
        PathFault::HflushReserved => req is Hflush,
        PathFault::HsyncReserved => req is Hsync,
    }
}

/// No request is turned down without cause, none is answered with success before the core has
/// carried it out, and one that is turned down is given nothing.
pub proof fn law_answers_have_their_cause<'a>(req: PathRequest<'a>, seen: PathSeen<'a>)
    requires
        path_laws::next(req, seen) is Answer,
    ensures
        path_laws::next(req, seen)->Answer_0.fault matches Some(fault) ==> has_cause(fault, req, seen),
        path_laws::next(req, seen)->Answer_0.fault is Some ==> path_laws::next(req, seen)->Answer_0.body
            == PathBody::Nothing,
        path_laws::next(req, seen)->Answer_0.fault is None ==> seen.done == Some(true),
        path_laws::next(req, seen)->Answer_0.fault is None ==> path_laws::next(req, seen)->Answer_0.mount is None,
{
    match req {
        PathRequest::GetStatus(_) => {},
        PathRequest::ListStatus(_) => {},
        PathRequest::OpenFile(_) => {},
        PathRequest::GetBlockLocations(_) => {},
        PathRequest::CreateDirectory(_) => {},
        PathRequest::Delete(_) => {},
        PathRequest::Rename(_) => {},
        PathRequest::CreateFile(_) => {},
        PathRequest::AppendFile(_) => {},
        PathRequest::CommitFile(_) => {},
        _ => {},
    }
}

/// A look at an entry asks about its path and reads the attributes of the inode that the path leads
/// to; once all is seen, that inode's attributes are the answer.
pub proof fn law_get_status_tells_the_entry<'a>(call: PathCall<'a>, seen: PathSeen<'a>)
    ensures
        ({
            let step = path_service::get_status_next(call, seen);
            &&& seen.meta is None ==> step is CheckMetaRead
            &&& step matches PathStep::ResolveInode(path) ==> path == call.path
            &&& step matches PathStep::CheckPerm(bits, path) ==> bits == PermissionBits::Read && path == call.path
            &&& step matches PathStep::Execute(work) ==> (work matches PathWork::GetAttr { inode_id, freshness }
                && seen.inode->0->0.inode_id == Some(inode_id) && tells_epochs(freshness, call.epochs))
            &&& succeeds(step) ==> seen.inode is Some && seen.inode->0 is Some && seen.inode->0->0.inode_id is Some
                && step->Answer_0.body == PathBody::OfInode(seen.inode->0->0.inode_id->0)
            &&& step is CheckMetaRead || step is ResolveInode || step is CheckPerm || step is Execute || step is Answer
        }),
        forall|resolved: ResolvedPath<'a>|
            seen.meta == Some(true) && #[trigger] led_to(seen.inode, resolved) && resolved.inode_id is Some && seen.perm
                == Some(true) ==> (seen.done is None ==> path_service::get_status_next(call, seen) is Execute) && (
            seen.done == Some(true) ==> succeeds(path_service::get_status_next(call, seen))),
{
}

/// A listing of one level reads the directory that the path leads to, from the cursor that was sent
/// and up to the limit that was sent.
pub proof fn law_list_status_lists_the_directory<'a>(req: ListStatusRequest<'a>, seen: PathSeen<'a>)
    ensures
        ({
            let step = path_service::list_status_next(req, seen);
            &&& seen.meta is None ==> step is CheckMetaRead
            &&& step matches PathStep::ResolveInode(path) ==> path == req.call.path
            &&& step matches PathStep::CheckPerm(bits, path) ==> bits == PermissionBits::Read && path == req.call.path
            &&& step matches PathStep::Execute(work) ==> (work matches PathWork::ReadDir {
                inode_id,
                cursor,
                max_entries,
                freshness,
            } && seen.inode->0->0.inode_id == Some(inode_id) && (cursor is Some <==> req.cursor@.len() > 0) && (
            cursor is Some ==> cursor == Some(req.cursor)) && (max_entries is Some <==> req.limit > 0) && (
            max_entries is Some ==> max_entries->0 == req.limit) && tells_epochs(freshness, req.call.epochs))
            &&& succeeds(step) ==> step->Answer_0.body == PathBody::Given
            &&& step is CheckMetaRead || step is ResolveInode || step is CheckPerm || step is Execute || step is Answer
        }),
        forall|resolved: ResolvedPath<'a>|
            seen.meta == Some(true) && #[trigger] led_to(seen.inode, resolved) && !req.recursive && resolved.inode_id
                is Some && seen.perm == Some(true) ==> (seen.done is None ==> path_service::list_status_next(req, seen)
                is Execute) && (seen.done == Some(true) ==> succeeds(path_service::list_status_next(req, seen))),
{
}

/// Opening a file looks up the inode that the path leads to, asks the core for the range that was
/// sent, and answers with that inode, its current data, and locations exactly where they were asked
/// for.
pub proof fn law_open_file_opens_the_file<'a>(req: OpenFileRequest<'a>, seen: PathSeen<'a>)
    ensures
        ({
            let step = path_service::open_file_next(req, seen);
            &&& seen.meta is None ==> step is CheckMetaRead
            &&& step matches PathStep::ResolveInode(path) ==> path == req.call.path
            &&& step matches PathStep::CheckPerm(bits, path) ==> bits == PermissionBits::Read && path == req.call.path
            &&& step matches PathStep::CheckDataRead(mount_id) ==> seen.perm == Some(true)
                && seen.inode->0->0.mount_ctx.mount_id == mount_id
            &&& step matches PathStep::GetInode(inode_id) ==> seen.data == Some(true) && seen.inode->0->0.inode_id
                == Some(inode_id)
            &&& step matches PathStep::Execute(work) ==> (work matches PathWork::GetFileLayout {
                inode_id,
                range,
                requested_data_handle_id,
                freshness,
            } && seen.inode->0->0.inode_id == Some(inode_id) && tells_range(range, req.range)
                && requested_data_handle_id is None && tells_epochs(freshness, req.call.epochs))
            &&& succeeds(step) ==> (step->Answer_0.body matches PathBody::OfFile {
                inode_id,
                data_handle_id,
                with_locations,
            } && seen.inode->0->0.inode_id == Some(inode_id) && seen.found == Some(
                InodeLookup::Found { kind: InodeKind::File, current_data_handle_id: data_handle_id },
            ) && with_locations == req.include_locations)
            &&& step is CheckMetaRead || step is ResolveInode || step is CheckPerm || step is CheckDataRead || step
                is GetInode || step is Execute || step is Answer
        }),
        forall|resolved: ResolvedPath<'a>, data_handle_id: DataHandleId|
            seen.meta == Some(true) && #[trigger] led_to(seen.inode, resolved) && resolved.inode_id is Some && seen.perm
                == Some(true) && seen.data == Some(true) && seen.found == Some(
                #[trigger] file_found(data_handle_id),
            ) ==> (seen.done is None ==> path_service::open_file_next(req, seen) is Execute) && (seen.done == Some(true)
                ==> succeeds(path_service::open_file_next(req, seen))),
{
}

pub open spec fn file_found(data_handle_id: DataHandleId) -> InodeLookup {
    InodeLookup::Found { kind: InodeKind::File, current_data_handle_id: data_handle_id }
}

/// The inode that a question for blocks is about, once it is known.
pub open spec fn asked_inode<'a>(req: BlockLocationsRequest<'a>, seen: PathSeen<'a>) -> Option<InodeId> {
    match req.target {
        Some(BlockTarget::Path(_)) => if seen.inode is Some && seen.inode->0 is Some {
            seen.inode->0->0.inode_id
        } else {
            None
        },
        Some(BlockTarget::InodeId(id)) => Some(id),
        Some(BlockTarget::DataHandleId(_)) => if seen.data_inode is Some {
            seen.data_inode->0
        } else {
            None
        },
        None => None,
    }
}

/// A question where the blocks of a file are is asked of the inode that the target names, for the
/// range that was sent and for the data that was named where data was named. Every answer without a
/// fault tells the locations, of that inode and its current data.
pub proof fn law_block_locations_are_told<'a>(req: BlockLocationsRequest<'a>, seen: PathSeen<'a>)
    ensures
        ({
            let step = path_service::get_block_locations_next(req, seen);
            &&& seen.meta is None ==> step is CheckMetaRead
            &&& step matches PathStep::ResolveInode(path) ==> req.target == Some(BlockTarget::Path(path))
            &&& step matches PathStep::CheckPerm(bits, path) ==> bits == PermissionBits::Read && req.target == Some(
                BlockTarget::Path(path),
            )
            &&& step matches PathStep::FindDataInode(id) ==> req.target == Some(BlockTarget::DataHandleId(id))
            &&& step matches PathStep::PlanMount(id) ==> asked_inode(req, seen) == Some(id) && !(req.target->0 is Path)
            &&& step matches PathStep::CheckDataRead(mount_id) ==> if req.target->0 is Path {
                seen.inode->0->0.mount_ctx.mount_id == mount_id && seen.perm == Some(true)
            } else {
                seen.mount == Some(Some(mount_id))
            }
            &&& step matches PathStep::GetInode(id) ==> asked_inode(req, seen) == Some(id) && seen.data == Some(true)
            &&& step matches PathStep::Execute(work) ==> (work matches PathWork::GetFileLayout {
                inode_id,
                range,
                requested_data_handle_id,
                freshness,
            } && asked_inode(req, seen) == Some(inode_id) && tells_range(range, req.range) && tells_epochs(
                freshness,
                req.epochs,
            ) && (requested_data_handle_id is Some <==> req.target->0 is DataHandleId) && (requested_data_handle_id
                is Some ==> req.target == Some(BlockTarget::DataHandleId(requested_data_handle_id->0))))
            &&& succeeds(step) ==> (step->Answer_0.body matches PathBody::OfFile {
                inode_id,
                data_handle_id,
                with_locations,
            } && asked_inode(req, seen) == Some(inode_id) && (seen.found matches Some(InodeLookup::Found {
                current_data_handle_id,
                ..
            }) && current_data_handle_id == data_handle_id) && with_locations)
            &&& step is CheckMetaRead || step is ResolveInode || step is CheckPerm || step is FindDataInode || step
                is PlanMount || step is CheckDataRead || step is GetInode || step is Execute || step is Answer
        }),
        seen.meta == Some(true) && asked_inode(req, seen) is Some && seen.data == Some(true) && (seen.found is Some
            && seen.found->0 is Found) && (if req.target->0 is Path {
            seen.perm == Some(true)
        } else {
            seen.mount is Some && seen.mount->0 is Some
        }) ==> (seen.done is None ==> path_service::get_block_locations_next(req, seen) is Execute) && (seen.done
            == Some(true) ==> succeeds(path_service::get_block_locations_next(req, seen))),
{
}

/// A new directory is made under the directory that the path leads to, by the last part of the path,
/// with the attributes that were sent.
pub proof fn law_create_directory_makes_the_directory<'a>(req: CreateDirectoryRequest<'a>, seen: PathSeen<'a>)
    ensures
        ({
            let step = path_service::create_directory_next(req, seen);
            &&& seen.meta is None ==> step is CheckMetaWrite
            &&& step matches PathStep::ResolvePath(path) ==> path == req.call.path
            &&& step matches PathStep::CheckParentPerm(bits, arg, path) ==> bits == PermissionBits::Write && arg
                == PathArg::First && path == req.call.path
            &&& step matches PathStep::Execute(work) ==> (work matches PathWork::Mkdir {
                parent_inode_id,
                name,
                attrs,
                freshness,
            } && seen.path->0->0.parent_inode_id == Some(parent_inode_id) && seen.path->0->0.name == Some(name)
                && req.attrs == Some(attrs) && tells_epochs(freshness, req.call.epochs))
            &&& succeeds(step) ==> step->Answer_0.body == PathBody::Given
            &&& step is CheckMetaWrite || step is ResolvePath || step is CheckParentPerm || step is Execute || step
                is Answer
        }),
        forall|resolved: ResolvedPath<'a>|
            seen.meta == Some(true) && #[trigger] led_to(seen.path, resolved) && seen.perm == Some(true)
                && resolved.parent_inode_id is Some && resolved.name is Some && req.attrs is Some ==> (seen.done is None
                ==> path_service::create_directory_next(req, seen) is Execute) && (seen.done == Some(true) ==> succeeds(
                path_service::create_directory_next(req, seen),
            )),
{
}

/// A deletion removes the entry that the path names: from the directory that the path leads to, by
/// the last part of the path. What is no directory is unlinked, a directory is removed, and the whole
/// tree goes where that was asked for.
pub proof fn law_delete_removes_the_entry<'a>(req: DeleteRequest<'a>, seen: PathSeen<'a>)
    ensures
        ({
            let step = path_service::delete_next(req, seen);
            &&& seen.meta is None ==> step is CheckMetaWrite
            &&& step matches PathStep::ResolvePath(path) ==> path == req.call.path
            &&& step matches PathStep::CheckParentPerm(bits, arg, path) ==> bits == PermissionBits::Write && arg
                == PathArg::First && path == req.call.path
            &&& step matches PathStep::GetInode(id) ==> seen.perm == Some(true) && seen.path->0->0.inode_id == Some(id)
            &&& step matches PathStep::Execute(work) ==> match work {
                PathWork::Unlink { parent_inode_id, name, freshness } => seen.path->0->0.parent_inode_id == Some(
                    parent_inode_id,
                ) && seen.path->0->0.name == Some(name) && tells_epochs(freshness, req.call.epochs) && (
                seen.found matches Some(InodeLookup::Found { kind, .. }) && kind != InodeKind::Dir),
                PathWork::Rmdir { parent_inode_id, name, freshness } => seen.path->0->0.parent_inode_id == Some(
                    parent_inode_id,
                ) && seen.path->0->0.name == Some(name) && tells_epochs(freshness, req.call.epochs) && !req.recursive
                    && (seen.found matches Some(InodeLookup::Found { kind, .. }) && kind == InodeKind::Dir),
                PathWork::DeleteTree { parent_inode_id, name, freshness } => seen.path->0->0.parent_inode_id == Some(
                    parent_inode_id,
                ) && seen.path->0->0.name == Some(name) && tells_epochs(freshness, req.call.epochs) && req.recursive
                    && (seen.path->0->0.inode_id is None || (seen.found matches Some(InodeLookup::Found { kind, .. })
                    && kind == InodeKind::Dir)),
                _ => false,
            }
            &&& succeeds(step) ==> step->Answer_0.body == PathBody::Nothing
            &&& step is CheckMetaWrite || step is ResolvePath || step is CheckParentPerm || step is GetInode || step
                is Execute || step is Answer
        }),
        forall|resolved: ResolvedPath<'a>|
            seen.meta == Some(true) && #[trigger] led_to(seen.path, resolved) && seen.perm == Some(true)
                && resolved.parent_inode_id is Some && resolved.name is Some && (if resolved.inode_id is None {
                req.recursive
            } else {
                seen.found is Some && seen.found->0 is Found
            }) ==> (seen.done is None ==> path_service::delete_next(req, seen) is Execute) && (seen.done == Some(true)
                ==> succeeds(path_service::delete_next(req, seen))),
{
}

/// A rename moves what the source path names to what the destination path names: each directory and
/// each name is that of its own path, with the flags that were sent. Rights are asked on both.
pub proof fn law_rename_moves_from_source_to_destination<'a>(req: RenamePathRequest<'a>, seen: PathSeen<'a>)
    ensures
        ({
            let step = path_service::rename_next(req, seen);
            &&& seen.meta is None ==> step is CheckMetaWrite
            &&& step matches PathStep::ResolveRename { src, dst } ==> src == req.src_path && dst == req.dst_path
            &&& step matches PathStep::CheckParentPerm(bits, arg, path) ==> bits == PermissionBits::Write && (arg
                == PathArg::First ==> path == req.src_path) && (arg == PathArg::Second ==> path == req.dst_path
                && seen.perm == Some(true))
            &&& step matches PathStep::Execute(work) ==> (work matches PathWork::Rename {
                src_parent_inode_id,
                src_name,
                dst_parent_inode_id,
                dst_name,
                flags,
                freshness,
            } && seen.rename->0->0.src.parent_inode_id == Some(src_parent_inode_id) && seen.rename->0->0.src.name
                == Some(src_name) && seen.rename->0->0.dst.parent_inode_id == Some(dst_parent_inode_id)
                && seen.rename->0->0.dst.name == Some(dst_name) && flags == req.flags && tells_epochs(
                freshness,
                req.epochs,
            ))
            &&& succeeds(step) ==> step->Answer_0.body == PathBody::Nothing
            &&& step is CheckMetaWrite || step is ResolveRename || step is CheckParentPerm || step is Execute || step
                is Answer
        }),
        seen.meta == Some(true) && seen.rename is Some && seen.rename->0 is Some && seen.perm == Some(true)
            && seen.second_perm == Some(true) && seen.rename->0->0.src.parent_inode_id is Some
            && seen.rename->0->0.src.name is Some && seen.rename->0->0.dst.parent_inode_id is Some
            && seen.rename->0->0.dst.name is Some ==> (seen.done is None ==> path_service::rename_next(req, seen)
            is Execute) && (seen.done == Some(true) ==> succeeds(path_service::rename_next(req, seen))),
{
}

/// A file is opened to be written anew only where overwriting was asked for and the path led to it;
/// otherwise it is created under the directory that the path leads to, by the last part of the path,
/// with the attributes and the layout that were sent, and the inode that came of it is opened. Where
/// a new file was asked for, no file that is there is looked for or opened.
pub proof fn law_create_file_creates_or_overwrites<'a>(req: CreateFileRequest<'a>, seen: PathSeen<'a>)
    ensures
        ({
            let step = path_service::create_file_next(req, seen);
            let there = seen.inode is Some && seen.inode->0 is Some;
            &&& seen.meta is None ==> step is CheckMetaWrite
            &&& step matches PathStep::ResolveInode(path) ==> req.disposition == CreateDisposition::Overwrite && path
                == req.call.path
            &&& step matches PathStep::ResolvePath(path) ==> path == req.call.path && (req.disposition
                == CreateDisposition::Overwrite ==> seen.inode is Some && seen.inode->0 is None)
            &&& step matches PathStep::CheckPerm(bits, path) ==> bits == PermissionBits::Write && path == req.call.path
                && req.disposition == CreateDisposition::Overwrite && there
            &&& step matches PathStep::CheckParentPerm(bits, arg, path) ==> bits == PermissionBits::Write && arg
                == PathArg::First && path == req.call.path && (req.disposition == CreateDisposition::New || !there)
            &&& step matches PathStep::CheckDataWrite(mount_id) ==> seen.perm == Some(true) && there
                && seen.inode->0->0.mount_ctx.mount_id == mount_id
            &&& step matches PathStep::Preflight { desired_len, layout, mount } ==> desired_len == req.desired_len
                && req.layout == Some(layout) && seen.path->0->0.mount_ctx == mount && seen.perm == Some(true)
            &&& step matches PathStep::Create { parent_inode_id, name, attrs, layout, freshness } ==> seen.preflight
                == Some(true) && seen.path->0->0.parent_inode_id == Some(parent_inode_id) && seen.path->0->0.name
                == Some(name) && req.attrs == Some(attrs) && req.layout == Some(layout) && tells_epochs(
                freshness,
                req.call.epochs,
            ) && (req.disposition == CreateDisposition::New || !there)
            &&& step matches PathStep::Execute(work) ==> (work matches PathWork::OpenWrite {
                inode_id,
                desired_len,
                mode,
                freshness,
            } && desired_len == req.desired_len && mode == WriteMode::Write && tells_epochs(freshness, req.call.epochs)
                && (if req.disposition == CreateDisposition::Overwrite && there {
                seen.inode->0->0.inode_id == Some(inode_id) && seen.data == Some(true)
            } else {
                seen.created == Some(Created::Inode(inode_id)) && seen.preflight == Some(true)
            }) && seen.perm == Some(true))
            &&& succeeds(step) ==> step->Answer_0.body == PathBody::Given
            &&& req.disposition == CreateDisposition::New ==> !(step is ResolveInode) && !(step is CheckDataWrite)
                && !(step is CheckPerm)
            &&& req.disposition == CreateDisposition::Unspecified ==> step is CheckMetaWrite || step is Answer && !succeeds(
                step,
            )
        }),
        seen.meta == Some(true) && req.disposition == CreateDisposition::Overwrite && seen.inode is Some
            && seen.inode->0 is Some && seen.inode->0->0.inode_id is Some && seen.perm == Some(true) && seen.data
            == Some(true) ==> (seen.done is None ==> path_service::create_file_next(req, seen) is Execute) && (seen.done
            == Some(true) ==> succeeds(path_service::create_file_next(req, seen))),
        seen.meta == Some(true) && (req.disposition == CreateDisposition::New || req.disposition
            == CreateDisposition::Overwrite && seen.inode is Some && seen.inode->0 is None) && seen.path is Some
            && seen.path->0 is Some && seen.perm == Some(true) && req.attrs is Some && req.layout is Some
            && seen.path->0->0.parent_inode_id is Some && seen.path->0->0.name is Some && seen.preflight == Some(true)
            ==> (seen.created is None ==> path_service::create_file_next(req, seen) is Create) && (seen.created is Some
            && seen.created->0 is Inode ==> (seen.done is None ==> path_service::create_file_next(req, seen)
            is Execute) && (seen.done == Some(true) ==> succeeds(path_service::create_file_next(req, seen)))),
{
}

/// A file to be written at its end is opened for appending: the inode that the path leads to, where
/// it can be written and its mount lets data be written.
pub proof fn law_append_file_appends<'a>(req: AppendFileRequest<'a>, seen: PathSeen<'a>)
    ensures
        ({
            let step = path_service::append_file_next(req, seen);
            &&& seen.meta is None ==> step is CheckMetaWrite
            &&& step matches PathStep::ResolveInode(path) ==> path == req.call.path
            &&& step matches PathStep::CheckPerm(bits, path) ==> bits == PermissionBits::Write && path == req.call.path
            &&& step matches PathStep::CheckDataWrite(mount_id) ==> seen.perm == Some(true)
                && seen.inode->0->0.mount_ctx.mount_id == mount_id
            &&& step matches PathStep::Execute(work) ==> (work matches PathWork::OpenWrite {
                inode_id,
                desired_len,
                mode,
                freshness,
            } && seen.inode->0->0.inode_id == Some(inode_id) && desired_len == req.desired_len && mode
                == WriteMode::Append && tells_epochs(freshness, req.call.epochs))
            &&& succeeds(step) ==> step->Answer_0.body == PathBody::Given
            &&& step is CheckMetaWrite || step is ResolveInode || step is CheckPerm || step is CheckDataWrite || step
                is Execute || step is Answer
        }),
        forall|resolved: ResolvedPath<'a>|
            seen.meta == Some(true) && #[trigger] led_to(seen.inode, resolved) && resolved.inode_id is Some && seen.perm
                == Some(true) && seen.data == Some(true) ==> (seen.done is None ==> path_service::append_file_next(
                req,
                seen,
            ) is Execute) && (seen.done == Some(true) ==> succeeds(path_service::append_file_next(req, seen))),
{
}

/// The handle that a request goes through.
pub open spec fn handle_of(req: PathRequest) -> HandleCall {
    match req {
        PathRequest::AddBlock(call, _) => call,
        PathRequest::CommitFile(r) => r.call,
        PathRequest::AbortFileWrite(call) => call,
        PathRequest::RenewLease(call) => call,
        _ => arbitrary(),
    }
}

/// A request through a write handle is guarded by the session of that handle, and the core gets the
/// handle as it was shown together with what was sent: the length for another block, the blocks and
/// the final size for the end of a write. Each kind of request asks for its own kind of work.
pub proof fn law_handles_are_passed_on<'a>(req: PathRequest<'a>, seen: PathSeen<'a>)
    requires
        path_laws::through_handle(req),
    ensures
        ({
            let step = path_laws::next(req, seen);
            let call = handle_of(req);
            &&& step matches PathStep::FindSession(id) ==> call.handle is Some && call.handle->0.handle_id == id
            &&& step matches PathStep::CheckDataWrite(mount_id) ==> seen.session == Some(Some(mount_id))
            &&& step is CheckMetaWrite ==> seen.session == Some(None::<MountId>)
            &&& step matches PathStep::Execute(work) ==> match work {
                PathWork::AddBlock { handle, desired_len, freshness } => req == PathRequest::AddBlock(call, desired_len)
                    && call.handle == Some(handle) && tells_epochs(freshness, call.epochs),
                PathWork::CloseWrite { handle, blocks, final_size, freshness } => req is CommitFile && call.handle
                    == Some(handle) && blocks == req->CommitFile_0.committed_blocks && final_size
                    == req->CommitFile_0.final_size && tells_epochs(freshness, call.epochs),
                PathWork::AbortWrite { handle, freshness } => req is AbortFileWrite && call.handle == Some(handle)
                    && tells_epochs(freshness, call.epochs),
                PathWork::RenewLease { handle, freshness } => req is RenewLease && call.handle == Some(handle)
                    && tells_epochs(freshness, call.epochs),
                _ => false,
            }
            &&& succeeds(step) ==> step->Answer_0.body == (if req is AbortFileWrite {
                PathBody::Nothing
            } else {
                PathBody::Given
            })
            &&& step is FindSession || step is CheckDataWrite || step is CheckMetaWrite || step is Execute || step
                is Answer
        }),
        handle_of(req).handle is Some && seen.session is Some && (if seen.session->0 is Some {
            seen.data == Some(true)
        } else {
            seen.meta == Some(true)
        }) && (req is CommitFile ==> req->CommitFile_0.data_handle_id is Some && forall|i: int|
            0 <= i < req->CommitFile_0.committed_blocks@.len() ==> (
            #[trigger] req->CommitFile_0.committed_blocks@[i]).block_id is Some
                && req->CommitFile_0.committed_blocks@[i].block_id->0.data_handle_id
                == req->CommitFile_0.data_handle_id->0) ==> (seen.done is None ==> path_laws::next(req, seen)
            is Execute) && (seen.done == Some(true) ==> succeeds(path_laws::next(req, seen))),
{
}

/// A write is ended only with blocks that name the file's data.
pub proof fn law_commit_takes_only_own_blocks<'a>(req: CommitFileRequest<'a>, seen: PathSeen<'a>, i: int)
    requires
        path_service::commit_file_next(req, seen) is Execute || succeeds(path_service::commit_file_next(req, seen)),
        0 <= i < req.committed_blocks@.len(),
    ensures
        req.data_handle_id is Some,
        req.committed_blocks@[i].block_id is Some,
        req.committed_blocks@[i].block_id->0.data_handle_id == req.data_handle_id->0,
{
}

/// The mount is the one that a path of the request led to.
pub open spec fn is_mount_of<'a>(mount: MountContext, req: PathRequest<'a>, seen: PathSeen<'a>) -> bool {
    match req {
        PathRequest::GetStatus(_) | PathRequest::ListStatus(_) | PathRequest::OpenFile(_) | PathRequest::AppendFile(_)
        | PathRequest::GetBlockLocations(_) => seen.inode is Some && seen.inode->0 is Some
            && seen.inode->0->0.mount_ctx == mount,
        PathRequest::CreateDirectory(_) | PathRequest::Delete(_) => seen.path is Some && seen.path->0 is Some
            && seen.path->0->0.mount_ctx == mount,
        PathRequest::CreateFile(r) => if r.disposition == CreateDisposition::Overwrite && seen.inode is Some
            && seen.inode->0 is Some {
            seen.inode->0->0.mount_ctx == mount
        } else {
            seen.path is Some && seen.path->0 is Some && seen.path->0->0.mount_ctx == mount
        },
        PathRequest::Rename(_) => seen.rename is Some && seen.rename->0 is Some && (
        seen.rename->0->0.src.mount_ctx == mount || seen.rename->0->0.dst.mount_ctx == mount),
        _ => false,
    }
}

/// A fault that was found where a path led tells the mount that it led to; one that says that
/// nothing was led to, that a guard refused or that the core failed tells none.
pub proof fn law_faults_tell_the_mount_they_were_found_in<'a>(req: PathRequest<'a>, seen: PathSeen<'a>)
    requires
        path_laws::next(req, seen) is Answer,
    ensures
        path_laws::next(req, seen)->Answer_0.mount matches Some(mount) ==> is_mount_of(mount, req, seen),
        path_laws::next(req, seen)->Answer_0.fault matches Some(fault) ==> {
            &&& fault is PathIncomplete || fault is RecursiveListing || fault is NotAFile || fault is BadAttrs
                || fault is BadLayout || fault is EntryNotFound || fault is TargetNotFound || fault is NothingCreated
                ==> path_laws::next(req, seen)->Answer_0.mount is Some
            &&& fault is GuardRefused || fault is CoreFailed || fault is Unresolved || fault is MissingWriteHandle
                || fault is MissingDataHandleId || fault is MissingTarget || fault is MissingDisposition
                || fault is ForeignBlock ==> path_laws::next(req, seen)->Answer_0.mount is None
            &&& fault is StoreFailed || fault is InodeNotFound ==> (path_laws::next(req, seen)->Answer_0.mount is Some
                <==> !(req is GetBlockLocations))
        },
{
    match req {
        PathRequest::GetStatus(_) => {},
        PathRequest::ListStatus(_) => {},
        PathRequest::OpenFile(_) => {},
        PathRequest::GetBlockLocations(_) => {},
        PathRequest::CreateDirectory(_) => {},
        PathRequest::Delete(_) => {},
        PathRequest::Rename(_) => {},
        PathRequest::CreateFile(_) => {},
        PathRequest::AppendFile(_) => {},
        PathRequest::CommitFile(_) => {},
        _ => {},
    }
}

/// A path is looked up before anything is asked about it: rights are asked only on what a path led
/// to, and data only on a caller's right.
pub proof fn law_rights_are_asked_on_what_was_found<'a>(req: PathRequest<'a>, seen: PathSeen<'a>)
    ensures
        ({
            let step = path_laws::next(req, seen);
            &&& step is CheckPerm ==> seen.meta == Some(true) && seen.inode is Some && seen.inode->0 is Some
            &&& step is CheckParentPerm && !(req is Rename) ==> seen.meta == Some(true) && seen.path is Some
                && seen.path->0 is Some
            &&& step is CheckParentPerm && req is Rename ==> seen.meta == Some(true) && seen.rename is Some
                && seen.rename->0 is Some
            &&& step is ResolveInode || step is ResolvePath || step is ResolveRename ==> seen.meta == Some(true)
            &&& step is Preflight ==> seen.perm == Some(true)
        }),
{
    match req {
        PathRequest::GetStatus(_) => {},
        PathRequest::ListStatus(_) => {},
        PathRequest::OpenFile(_) => {},
        PathRequest::GetBlockLocations(_) => {},
        PathRequest::CreateDirectory(_) => {},
        PathRequest::Delete(_) => {},
        PathRequest::Rename(_) => {},
        PathRequest::CreateFile(_) => {},
        PathRequest::AppendFile(_) => {},
        PathRequest::CommitFile(_) => {},
        _ => {},
    }
}

/// The step answers with this fault, and tells this mount.
pub open spec fn faults_in<'a>(step: PathStep<'a>, fault: PathFault, mount: Option<MountContext>) -> bool {
    step matches PathStep::Answer(answer) && answer.fault == Some(fault) && answer.mount == mount
}

/// The first thing in the way of a new directory, a deletion or a rename by path is told: a path
/// that leads nowhere, a right that is refused, a path that is incomplete, attributes that make no
/// sense.
pub proof fn law_changes_by_path_stop_at_the_first_obstacle<'a>(
    dir: CreateDirectoryRequest<'a>,
    gone: DeleteRequest<'a>,
    moved: RenamePathRequest<'a>,
    seen: PathSeen<'a>,
)
    requires
        seen.meta == Some(true),
    ensures
        ({
            let step = path_service::create_directory_next(dir, seen);
            let at = seen.path->0->0;
            let passed = seen.path is Some && seen.path->0 is Some && seen.perm == Some(true);
            let whole = at.parent_inode_id is Some && at.name is Some;
            &&& seen.path is None ==> step is ResolvePath
            &&& seen.path is Some && seen.path->0 is None ==> faults_in(step, PathFault::Unresolved, None)
            &&& seen.path is Some && seen.path->0 is Some && seen.perm is None ==> step is CheckParentPerm
            &&& seen.path is Some && seen.path->0 is Some && seen.perm == Some(false) ==> faults_in(
                step,
                PathFault::GuardRefused,
                None,
            )
            &&& passed && !whole ==> faults_in(step, PathFault::PathIncomplete, Some(at.mount_ctx))
            &&& passed && whole && dir.attrs is None ==> faults_in(step, PathFault::BadAttrs, Some(at.mount_ctx))
            &&& passed && whole && dir.attrs is Some && seen.done == Some(false) ==> faults_in(
                step,
                PathFault::CoreFailed,
                None,
            )
        }),
        ({
            let step = path_service::delete_next(gone, seen);
            let at = seen.path->0->0;
            let passed = seen.path is Some && seen.path->0 is Some && seen.perm == Some(true);
            let whole = at.parent_inode_id is Some && at.name is Some;
            &&& seen.path is None ==> step is ResolvePath
            &&& seen.path is Some && seen.path->0 is None ==> faults_in(step, PathFault::Unresolved, None)
            &&& seen.path is Some && seen.path->0 is Some && seen.perm is None ==> step is CheckParentPerm
            &&& passed && !whole ==> faults_in(step, PathFault::PathIncomplete, Some(at.mount_ctx))
            &&& passed && whole && at.inode_id is None && !gone.recursive ==> faults_in(
                step,
                PathFault::EntryNotFound,
                Some(at.mount_ctx),
            )
            &&& passed && whole && at.inode_id is Some && seen.found is None ==> step is GetInode
            &&& passed && whole && at.inode_id is Some && seen.found == Some(InodeLookup::Failed) ==> faults_in(
                step,
                PathFault::StoreFailed,
                Some(at.mount_ctx),
            )
            &&& passed && whole && at.inode_id is Some && seen.found == Some(InodeLookup::Absent) ==> faults_in(
                step,
                PathFault::TargetNotFound(at.inode_id->0),
                Some(at.mount_ctx),
            )
        }),
        ({
            let step = path_service::rename_next(moved, seen);
            let src = seen.rename->0->0.src;
            let dst = seen.rename->0->0.dst;
            let found = seen.rename is Some && seen.rename->0 is Some;
            let passed = found && seen.perm == Some(true) && seen.second_perm == Some(true);
            &&& seen.rename is None ==> step is ResolveRename
            &&& seen.rename is Some && seen.rename->0 is None ==> faults_in(step, PathFault::Unresolved, None)
            &&& found && seen.perm is None ==> step is CheckParentPerm
            &&& found && seen.perm == Some(true) && seen.second_perm is None ==> (
            step matches PathStep::CheckParentPerm(_, arg, _) && arg == PathArg::Second)
            &&& found && seen.perm == Some(true) && seen.second_perm == Some(false) ==> faults_in(
                step,
                PathFault::GuardRefused,
                None,
            )
            &&& passed && src.parent_inode_id is None ==> faults_in(
                step,
                PathFault::PathIncomplete,
                Some(src.mount_ctx),
            )
            &&& passed && src.parent_inode_id is Some && dst.parent_inode_id is None ==> faults_in(
                step,
                PathFault::PathIncomplete,
                Some(dst.mount_ctx),
            )
            &&& passed && src.parent_inode_id is Some && dst.parent_inode_id is Some && src.name is None ==> faults_in(
                step,
                PathFault::PathIncomplete,
                Some(src.mount_ctx),
            )
            &&& passed && src.parent_inode_id is Some && dst.parent_inode_id is Some && src.name is Some && dst.name
                is None ==> faults_in(step, PathFault::PathIncomplete, Some(dst.mount_ctx))
        }),
{
}

/// The first thing in the way of a file that is to be created or written is told.
pub proof fn law_writes_by_path_stop_at_the_first_obstacle<'a>(
    req: CreateFileRequest<'a>,
    end: AppendFileRequest<'a>,
    seen: PathSeen<'a>,
)
    requires
        seen.meta == Some(true),
    ensures
        req.disposition == CreateDisposition::Unspecified ==> faults_in(
            path_service::create_file_next(req, seen),
            PathFault::MissingDisposition,
            None,
        ),
        req.disposition == CreateDisposition::New || (req.disposition == CreateDisposition::Overwrite && seen.inode
            is Some && seen.inode->0 is None) ==> {
            let step = path_service::create_file_next(req, seen);
            let at = seen.path->0->0;
            let found = seen.path is Some && seen.path->0 is Some;
            let passed = found && seen.perm == Some(true);
            let whole = at.parent_inode_id is Some && at.name is Some;
            let sent = req.attrs is Some && req.layout is Some;
            &&& seen.path is None ==> step is ResolvePath
            &&& seen.path is Some && seen.path->0 is None ==> faults_in(step, PathFault::Unresolved, None)
            &&& found && seen.perm is None ==> step is CheckParentPerm
            &&& found && seen.perm == Some(false) ==> faults_in(step, PathFault::GuardRefused, None)
            &&& passed && req.attrs is None ==> faults_in(step, PathFault::BadAttrs, Some(at.mount_ctx))
            &&& passed && req.attrs is Some && req.layout is None ==> faults_in(
                step,
                PathFault::BadLayout,
                Some(at.mount_ctx),
            )
            &&& passed && sent && !whole ==> faults_in(step, PathFault::PathIncomplete, Some(at.mount_ctx))
            &&& passed && sent && whole && seen.preflight is None ==> step is Preflight
            &&& passed && sent && whole && seen.preflight == Some(false) ==> faults_in(
                step,
                PathFault::CoreFailed,
                None,
            )
            &&& passed && sent && whole && seen.preflight == Some(true) && seen.created == Some(Created::Failed)
                ==> faults_in(step, PathFault::CoreFailed, None)
            &&& passed && sent && whole && seen.preflight == Some(true) && seen.created == Some(Created::WithoutInode)
                ==> faults_in(step, PathFault::NothingCreated, Some(at.mount_ctx))
        },
        req.disposition == CreateDisposition::Overwrite && seen.inode is None ==> path_service::create_file_next(
            req,
            seen,
        ) is ResolveInode,
        seen.inode is None ==> path_service::append_file_next(end, seen) is ResolveInode,
        seen.inode is Some && seen.inode->0 is None ==> faults_in(
            path_service::append_file_next(end, seen),
            PathFault::Unresolved,
            None,
        ),
        seen.inode is Some && seen.inode->0 is Some ==> {
            let at = seen.inode->0->0;
            let append = path_service::append_file_next(end, seen);
            let write = path_service::create_file_next(req, seen);
            let anew = req.disposition == CreateDisposition::Overwrite;
            &&& seen.perm is None ==> append is CheckPerm && (anew ==> write is CheckPerm)
            &&& seen.perm == Some(false) ==> faults_in(append, PathFault::GuardRefused, None) && (anew ==> faults_in(
                write,
                PathFault::GuardRefused,
                None,
            ))
            &&& seen.perm == Some(true) && seen.data is None ==> append is CheckDataWrite && (anew ==> write
                is CheckDataWrite)
            &&& seen.perm == Some(true) && seen.data == Some(false) ==> faults_in(append, PathFault::GuardRefused, None)
                && (anew ==> faults_in(write, PathFault::GuardRefused, None))
            &&& seen.perm == Some(true) && seen.data == Some(true) && at.inode_id is None ==> faults_in(
                append,
                PathFault::PathIncomplete,
                Some(at.mount_ctx),
            ) && (anew ==> faults_in(write, PathFault::PathIncomplete, Some(at.mount_ctx)))
        },
{
}

/// The first thing in the way of a read by path is told.
pub proof fn law_reads_by_path_stop_at_the_first_obstacle<'a>(
    call: PathCall<'a>,
    list: ListStatusRequest<'a>,
    open: OpenFileRequest<'a>,
    seen: PathSeen<'a>,
)
    requires
        seen.meta == Some(true),
    ensures
        seen.inode is None ==> path_service::get_status_next(call, seen) is ResolveInode
            && path_service::list_status_next(list, seen) is ResolveInode && path_service::open_file_next(open, seen)
            is ResolveInode,
        seen.inode is Some && seen.inode->0 is None ==> faults_in(
            path_service::get_status_next(call, seen),
            PathFault::Unresolved,
            None,
        ) && faults_in(path_service::list_status_next(list, seen), PathFault::Unresolved, None) && faults_in(
            path_service::open_file_next(open, seen),
            PathFault::Unresolved,
            None,
        ),
        seen.inode is Some && seen.inode->0 is Some ==> {
            let at = seen.inode->0->0;
            let status = path_service::get_status_next(call, seen);
            let listing = path_service::list_status_next(list, seen);
            let opened = path_service::open_file_next(open, seen);
            let passed = seen.perm == Some(true) && seen.data == Some(true);
            &&& list.recursive ==> faults_in(listing, PathFault::RecursiveListing, Some(at.mount_ctx))
            &&& seen.perm is None ==> status is CheckPerm && opened is CheckPerm && (!list.recursive ==> listing
                is CheckPerm)
            &&& seen.perm == Some(false) ==> faults_in(status, PathFault::GuardRefused, None) && faults_in(
                opened,
                PathFault::GuardRefused,
                None,
            ) && (!list.recursive ==> faults_in(listing, PathFault::GuardRefused, None))
            &&& seen.perm == Some(true) && at.inode_id is None ==> faults_in(
                status,
                PathFault::PathIncomplete,
                Some(at.mount_ctx),
            ) && (!list.recursive ==> faults_in(listing, PathFault::PathIncomplete, Some(at.mount_ctx)))
            &&& seen.perm == Some(true) && seen.data is None ==> opened is CheckDataRead
            &&& seen.perm == Some(true) && seen.data == Some(false) ==> faults_in(
                opened,
                PathFault::GuardRefused,
                None,
            )
            &&& passed && at.inode_id is None ==> faults_in(opened, PathFault::PathIncomplete, Some(at.mount_ctx))
            &&& passed && at.inode_id is Some && seen.found is None ==> opened is GetInode
            &&& passed && at.inode_id is Some && seen.found == Some(InodeLookup::Failed) ==> faults_in(
                opened,
                PathFault::StoreFailed,
                Some(at.mount_ctx),
            )
            &&& passed && at.inode_id is Some && seen.found == Some(InodeLookup::Absent) ==> faults_in(
                opened,
                PathFault::InodeNotFound(at.inode_id->0),
                Some(at.mount_ctx),
            )
            &&& passed && at.inode_id is Some && seen.found is Some && seen.found->0 is Found
                && seen.found->0->Found_kind != InodeKind::File ==> faults_in(
                opened,
                PathFault::NotAFile(at.inode_id->0),
                Some(at.mount_ctx),
            )
        },
{
}

/// The first thing in the way of a question where the blocks of a file are is told.
pub proof fn law_block_questions_stop_at_the_first_obstacle<'a>(req: BlockLocationsRequest<'a>, seen: PathSeen<'a>)
    requires
        seen.meta == Some(true),
    ensures
        ({
            let step = path_service::get_block_locations_next(req, seen);
            let ready = seen.data == Some(true) && asked_inode(req, seen) is Some && (match req.target {
                Some(BlockTarget::Path(_)) => seen.perm == Some(true),
                _ => seen.mount is Some && seen.mount->0 is Some,
            });
            &&& req.target is None ==> faults_in(step, PathFault::MissingTarget, None)
            &&& req.target matches Some(BlockTarget::Path(_)) ==> {
                &&& seen.inode is None ==> step is ResolveInode
                &&& seen.inode is Some && seen.inode->0 is None ==> faults_in(step, PathFault::Unresolved, None)
                &&& seen.inode is Some && seen.inode->0 is Some && seen.perm is None ==> step is CheckPerm
                &&& seen.inode is Some && seen.inode->0 is Some && seen.perm == Some(false) ==> faults_in(
                    step,
                    PathFault::GuardRefused,
                    None,
                )
                &&& seen.inode is Some && seen.inode->0 is Some && seen.perm == Some(true) && seen.data is None
                    ==> step is CheckDataRead
            }
            &&& req.target matches Some(BlockTarget::DataHandleId(_)) ==> {
                &&& seen.data_inode is None ==> step is FindDataInode
                &&& seen.data_inode is Some && seen.data_inode->0 is None ==> faults_in(
                    step,
                    PathFault::CoreFailed,
                    None,
                )
            }
            &&& (req.target matches Some(target) && !(target is Path)) && asked_inode(req, seen) is Some ==> {
                &&& seen.mount is None ==> step is PlanMount
                &&& seen.mount is Some && seen.mount->0 is None ==> faults_in(step, PathFault::CoreFailed, None)
                &&& seen.mount is Some && seen.mount->0 is Some && seen.data is None ==> step is CheckDataRead
                &&& seen.mount is Some && seen.mount->0 is Some && seen.data == Some(false) ==> faults_in(
                    step,
                    PathFault::GuardRefused,
                    None,
                )
            }
            &&& ready && seen.found is None ==> step is GetInode
            &&& ready && seen.found == Some(InodeLookup::Failed) ==> faults_in(step, PathFault::StoreFailed, None)
            &&& ready && seen.found == Some(InodeLookup::Absent) ==> faults_in(
                step,
                PathFault::InodeNotFound(asked_inode(req, seen)->0),
                None,
            )
        }),
{
}

} // verus!
