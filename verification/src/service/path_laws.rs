//! What holds of every request by path, on its whole way.

use crate::service::fs_types::InodeKind;
use crate::service::path_service;
use crate::service::path_service::{
    AppendFileRequest, BlockLocationsRequest, CommitFileRequest, CreateDirectoryRequest, CreateFileRequest,
    DeleteRequest, HandleCall, ListStatusRequest, OpenFileRequest, PathCall, RenamePathRequest,
};
use crate::service::path_types;
use crate::service::path_types::{InodeLookup, PathFault, PathSeen, PathStep, PathWork};
use vstd::prelude::*;

verus! {

/// Any request by path or by a handle.
pub ghost enum PathRequest<'a> {
    GetStatus(PathCall<'a>),
    ListStatus(ListStatusRequest<'a>),
    OpenFile(OpenFileRequest<'a>),
    GetBlockLocations(BlockLocationsRequest<'a>),
    CreateDirectory(CreateDirectoryRequest<'a>),
    Delete(DeleteRequest<'a>),
    Rename(RenamePathRequest<'a>),
    CreateFile(CreateFileRequest<'a>),
    AppendFile(AppendFileRequest<'a>),
    AddBlock(HandleCall, Option<u64>),
    CommitFile(CommitFileRequest<'a>),
    AbortFileWrite(HandleCall),
    RenewLease(HandleCall),
    Hflush,
    Hsync,
}

/// What comes next for a request.
pub open spec fn next<'a>(req: PathRequest<'a>, seen: PathSeen<'a>) -> PathStep<'a> {
    match req {
        PathRequest::GetStatus(call) => path_service::get_status_next(call, seen),
        PathRequest::ListStatus(r) => path_service::list_status_next(r, seen),
        PathRequest::OpenFile(r) => path_service::open_file_next(r, seen),
        PathRequest::GetBlockLocations(r) => path_service::get_block_locations_next(r, seen),
        PathRequest::CreateDirectory(r) => path_service::create_directory_next(r, seen),
        PathRequest::Delete(r) => path_service::delete_next(r, seen),
        PathRequest::Rename(r) => path_service::rename_next(r, seen),
        PathRequest::CreateFile(r) => path_service::create_file_next(r, seen),
        PathRequest::AppendFile(r) => path_service::append_file_next(r, seen),
        PathRequest::AddBlock(call, desired_len) => path_service::add_block_next(call, desired_len, seen),
        PathRequest::CommitFile(r) => path_service::commit_file_next(r, seen),
        PathRequest::AbortFileWrite(call) => path_service::abort_file_write_next(call, seen),
        PathRequest::RenewLease(call) => path_service::renew_lease_next(call, seen),
        PathRequest::Hflush => path_service::reserved_next(PathFault::HflushReserved, seen),
        PathRequest::Hsync => path_service::reserved_next(PathFault::HsyncReserved, seen),
    }
}

/// The request only reads.
pub open spec fn only_reads(req: PathRequest) -> bool {
    req is GetStatus || req is ListStatus || req is OpenFile || req is GetBlockLocations
}

/// The request goes through a write handle.
pub open spec fn through_handle(req: PathRequest) -> bool {
    req is AddBlock || req is CommitFile || req is AbortFileWrite || req is RenewLease
}

/// The request is served to a caller by a path, so that the caller needs a right on it.
pub open spec fn needs_right(req: PathRequest) -> bool {
    !through_handle(req) && match req {
        PathRequest::GetBlockLocations(r) => r.target is Some && r.target->0 is Path,
        _ => true,
    }
}

/// The step is the answer or about something that has not been seen.
pub open spec fn is_new(step: PathStep, seen: PathSeen) -> bool {
    match step {
        PathStep::CheckMetaRead | PathStep::CheckMetaWrite => seen.meta is None,
        PathStep::ResolveInode(_) => seen.inode is None,
        PathStep::ResolvePath(_) => seen.path is None,
        PathStep::ResolveRename { .. } => seen.rename is None,
        PathStep::CheckPerm(_, _) => seen.perm is None,
        PathStep::CheckParentPerm(_, arg, _) => if arg is First {
            seen.perm is None
        } else {
            seen.second_perm is None
        },
        PathStep::CheckDataRead(_) | PathStep::CheckDataWrite(_) => seen.data is None,
        PathStep::GetInode(_) => seen.found is None,
        PathStep::FindDataInode(_) => seen.data_inode is None,
        PathStep::PlanMount(_) => seen.mount is None,
        PathStep::FindSession(_) => seen.session is None,
        PathStep::Preflight { .. } => seen.preflight is None,
        PathStep::Create { .. } => seen.created is None,
        PathStep::Execute(_) => seen.done is None,
        PathStep::Answer(_) => true,
    }
}

/// No step is repeated: each is the answer or about something that has not been seen. So every
/// request is answered after finitely many steps.
pub proof fn law_no_step_is_repeated<'a>(req: PathRequest<'a>, seen: PathSeen<'a>)
    ensures
        is_new(next(req, seen), seen),
{
    match req {
        PathRequest::GetStatus(_) => {},
        PathRequest::ListStatus(_) => {},
        PathRequest::OpenFile(_) => {},
        PathRequest::GetBlockLocations(_) => {},
        PathRequest::CreateDirectory(_) => {},
        PathRequest::Delete(_) => {},
        PathRequest::Rename(_) => {},
        PathRequest::CreateFile(_) => {},
        PathRequest::AppendFile(_) => {},
        _ => {},
    }
}

/// Nothing is resolved, created or carried out by path before the metadata guard let the request
/// through; what goes through a handle passes that guard or the guard of the session's data.
pub proof fn law_work_is_guarded<'a>(req: PathRequest<'a>, seen: PathSeen<'a>)
    ensures
        !through_handle(req) && seen.meta != Some(true) ==> next(req, seen) is CheckMetaRead || next(req, seen)
            is CheckMetaWrite || next(req, seen) == path_service::refused(PathFault::GuardRefused, None),
        through_handle(req) && next(req, seen) is Execute ==> (seen.session == Some(None::<crate::ids::MountId>)
            && seen.meta == Some(true)) || (seen.session is Some && seen.session->0 is Some && seen.data == Some(true)),
{
}

/// A request that only reads is guarded as a read and every other as a write.
pub proof fn law_changes_are_guarded_as_writes<'a>(req: PathRequest<'a>, seen: PathSeen<'a>)
    ensures
        next(req, seen) is CheckMetaRead ==> only_reads(req),
        next(req, seen) is CheckDataRead ==> only_reads(req),
        next(req, seen) is CheckMetaWrite ==> !only_reads(req),
        next(req, seen) is CheckDataWrite ==> !only_reads(req),
{
}

/// What a request by path does, it does for a caller who has the right on the path: on both
/// directories, for a rename.
pub proof fn law_callers_need_rights<'a>(req: PathRequest<'a>, seen: PathSeen<'a>)
    requires
        next(req, seen) is Execute || next(req, seen) is Create,
        needs_right(req),
    ensures
        seen.perm == Some(true),
        req is Rename ==> seen.second_perm == Some(true),
{
}

/// Where the data of a file is, is told only where the mount lets data be read; a file that is
/// there is opened to be written only where it lets data be written.
pub proof fn law_data_is_guarded<'a>(req: PathRequest<'a>, seen: PathSeen<'a>)
    requires
        next(req, seen) is Execute,
    ensures
        next(req, seen)->Execute_0 is GetFileLayout ==> seen.data == Some(true),
        next(req, seen)->Execute_0 is OpenWrite ==> seen.data == Some(true) || seen.created is Some,
{
}

/// A file is created only if it could be written afterwards, and only where its directory and its
/// name are known.
pub proof fn law_only_writable_files_are_created<'a>(req: PathRequest<'a>, seen: PathSeen<'a>)
    requires
        next(req, seen) is Create,
    ensures
        req is CreateFile,
        seen.preflight == Some(true),
        seen.path is Some && seen.path->0 is Some,
        seen.path->0->0.name == Some(next(req, seen)->name),
        seen.path->0->0.parent_inode_id == Some(next(req, seen)->parent_inode_id),
{
}

/// A tree is deleted only where that was asked for, a directory only if it is one, and anything
/// else only if it is there and none.
pub proof fn law_trees_go_only_when_asked<'a>(req: PathRequest<'a>, seen: PathSeen<'a>)
    requires
        next(req, seen) is Execute,
    ensures
        next(req, seen)->Execute_0 is DeleteTree ==> (req matches PathRequest::Delete(r) && r.recursive),
        next(req, seen)->Execute_0 is Rmdir ==> (req matches PathRequest::Delete(r) && !r.recursive) && (seen.found matches Some(
            InodeLookup::Found { kind, .. },
        ) && kind == InodeKind::Dir),
        next(req, seen)->Execute_0 is Unlink ==> req is Delete && (seen.found matches Some(
            InodeLookup::Found { kind, .. },
        ) && kind != InodeKind::Dir),
{
}

/// A write is ended only with blocks of the file's own data, through the handle that was shown.
pub proof fn law_foreign_blocks_are_not_committed<'a>(req: PathRequest<'a>, seen: PathSeen<'a>)
    requires
        next(req, seen) is Execute,
        next(req, seen)->Execute_0 is CloseWrite,
    ensures
        req is CommitFile,
        req->CommitFile_0.data_handle_id is Some,
        path_types::all_of_data(req->CommitFile_0.committed_blocks@, req->CommitFile_0.data_handle_id->0),
        next(req, seen)->Execute_0 matches PathWork::CloseWrite { handle, blocks, .. } && Some(handle)
            == req->CommitFile_0.call.handle && blocks == req->CommitFile_0.committed_blocks,
{
}

/// A recursive listing is never carried out: once its path leads somewhere it is turned down.
pub proof fn law_recursive_listings_are_turned_down<'a>(req: ListStatusRequest<'a>, seen: PathSeen<'a>)
    requires
        req.recursive,
    ensures
        !(path_service::list_status_next(req, seen) is Execute),
        seen.meta == Some(true) && seen.inode is Some && seen.inode->0 is Some ==> path_service::list_status_next(
            req,
            seen,
        ) == path_service::refused(PathFault::RecursiveListing, Some(seen.inode->0->0.mount_ctx)),
{
}

/// Barriers are never carried out.
pub proof fn law_barriers_are_turned_down<'a>(seen: PathSeen<'a>)
    ensures
        !(next(PathRequest::Hflush, seen) is Execute),
        !(next(PathRequest::Hsync, seen) is Execute),
        seen.meta == Some(true) ==> next(PathRequest::Hflush, seen) == path_service::refused(
            PathFault::HflushReserved,
            None,
        ),
        seen.meta == Some(true) ==> next(PathRequest::Hsync, seen) == path_service::refused(
            PathFault::HsyncReserved,
            None,
        ),
{
}

/// An answer is told the mount of a path only where the path led there.
pub proof fn law_mounts_are_told_once_resolved<'a>(req: PathRequest<'a>, seen: PathSeen<'a>)
    requires
        next(req, seen) matches PathStep::Answer(answer) && answer.mount is Some,
    ensures
        seen.meta == Some(true),
        ({
            let mount = next(req, seen)->Answer_0.mount->0;
            ||| seen.inode is Some && seen.inode->0 is Some && seen.inode->0->0.mount_ctx == mount
            ||| seen.path is Some && seen.path->0 is Some && seen.path->0->0.mount_ctx == mount
            ||| seen.rename is Some && seen.rename->0 is Some && seen.rename->0->0.src.mount_ctx == mount
            ||| seen.rename is Some && seen.rename->0 is Some && seen.rename->0->0.dst.mount_ctx == mount
        }),
{
}

} // verus!
