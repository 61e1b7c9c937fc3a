//! Requests by path.

use beryl_metadata::error::ErrorKind;
use beryl_metadata::ids::{DataHandleId, GroupName, InodeId, MountId, RaftLogId, ShardGroupId};
use beryl_metadata::raft::RaftView;
use beryl_metadata::rpc::{FailureKind, RecoveryAction};
use beryl_metadata::service::fs_types::InodeKind;
use beryl_metadata::service::guard::PermissionBits;
use beryl_metadata::service::inputs::{
    write_mode_from_wire, FileLayout, FileRange, Freshness, HeaderEpochs, LeaseProof, WireRange,
};
use beryl_metadata::service::msync::{MsyncAnswer, SyncHeader};
use beryl_metadata::service::path_service::{
    disposition_from_wire, AppendFileRequest, BlockLocationsRequest, BlockTarget, CommitFileRequest,
    CreateDirectoryRequest, CreateDisposition, CreateFileRequest, DeleteRequest, DispositionNumbers, FileSystemAuthorityDeps, FileSystemPolicyDeps,
    FileSystemRuntimeDeps, HandleCall, ListStatusRequest, MetadataFileSystemServiceDeps,
    MetadataFileSystemServiceImpl, OpenFileRequest, PathCall, RenamePathRequest,
};
use beryl_metadata::service::path_types;
use beryl_metadata::service::path_types::{
    Created, InodeLookup, MountContext, PathAnswer, PathArg, PathBody, PathFault, PathSeen, PathStep, PathWork,
    RenamePaths, ResolvedPath, ShownHandle, WireBlockId, WireCommittedBlock,
};
use beryl_metadata::service::wire::FileAttrs;
use beryl_metadata::write_target::WriteMode;

fn raft(is_leader: bool) -> RaftView {
    RaftView { is_leader, leader_id: Some(1), members: None, last_applied: Some(RaftLogId::new(1, 1, 7)) }
}

fn service(raft_node: Option<RaftView>) -> MetadataFileSystemServiceImpl {
    MetadataFileSystemServiceImpl::new(MetadataFileSystemServiceDeps {
        authority: FileSystemAuthorityDeps { raft_node, group_name: GroupName::new("root".to_string()) },
        runtime: FileSystemRuntimeDeps { readiness_gate: Some(true) },
        policy: FileSystemPolicyDeps { leadership_checker: None },
    })
}

fn call(path: &str) -> PathCall {
    PathCall { path, epochs: Some(HeaderEpochs { mount_epoch: Some(3), route_epoch: Some(4) }) }
}

fn fresh() -> Freshness {
    Freshness { mount_epoch: Some(3), route_epoch: Some(4), worker_epoch: None }
}

fn attrs() -> FileAttrs {
    FileAttrs { mode: 0o644, uid: 1, gid: 2, size: 3, atime_ms: 4, mtime_ms: 5, ctime_ms: 6, nlink: 7 }
}

fn layout() -> FileLayout {
    FileLayout { block_size: 64, chunk_size: 16, replication: 3 }
}

fn nothing() -> PathSeen<'static> {
    PathSeen {
        meta: None,
        inode: None,
        path: None,
        rename: None,
        perm: None,
        second_perm: None,
        data: None,
        found: None,
        data_inode: None,
        mount: None,
        session: None,
        preflight: None,
        created: None,
        done: None,
    }
}

fn mount_ctx() -> MountContext {
    MountContext { mount_id: MountId::new(1), owner_group_id: ShardGroupId::new(8), mount_epoch: 3 }
}

fn resolved(inode: Option<u64>) -> ResolvedPath<'static> {
    ResolvedPath {
        mount_ctx: mount_ctx(),
        inode_id: inode.map(InodeId::new),
        parent_inode_id: Some(InodeId::new(2)),
        name: Some("a"),
    }
}

fn found(kind: InodeKind) -> Option<InodeLookup> {
    Some(InodeLookup::Found { kind, current_data_handle_id: DataHandleId::new(70) })
}

fn answer(step: PathStep) -> PathAnswer {
    match step {
        PathStep::Answer(answer) => answer,
        other => panic!("expected an answer, got {:?}", other),
    }
}

#[test]
fn creating_a_file_walks_to_its_session() {
    let service = service(Some(raft(true)));
    let req = CreateFileRequest {
        call: call("/a"),
        disposition: CreateDisposition::Overwrite,
        attrs: Some(attrs()),
        layout: Some(layout()),
        desired_len: Some(64),
    };
    let mut seen = nothing();
    assert_eq!(service.create_file(&req, &seen), PathStep::CheckMetaWrite);
    seen.meta = Some(true);
    assert_eq!(service.create_file(&req, &seen), PathStep::ResolveInode("/a"));
    seen.inode = Some(None);
    assert_eq!(service.create_file(&req, &seen), PathStep::ResolvePath("/a"));
    seen.path = Some(Some(resolved(None)));
    assert_eq!(
        service.create_file(&req, &seen),
        PathStep::CheckParentPerm(PermissionBits::Write, PathArg::First, "/a")
    );
    seen.perm = Some(true);
    assert_eq!(
        service.create_file(&req, &seen),
        PathStep::Preflight { desired_len: Some(64), layout: layout(), mount: mount_ctx() }
    );
    seen.preflight = Some(true);
    assert_eq!(
        service.create_file(&req, &seen),
        PathStep::Create {
            parent_inode_id: InodeId::new(2),
            name: "a",
            attrs: attrs(),
            layout: layout(),
            freshness: fresh(),
        }
    );
    seen.created = Some(Created::Inode(InodeId::new(9)));
    assert_eq!(
        service.create_file(&req, &seen),
        PathStep::Execute(PathWork::OpenWrite {
            inode_id: InodeId::new(9),
            desired_len: Some(64),
            mode: WriteMode::Write,
            freshness: fresh(),
        })
    );
    seen.done = Some(true);
    let done = answer(service.create_file(&req, &seen));
    assert_eq!(done.fault, None);
    assert_eq!(done.body, PathBody::Given);

    seen.created = Some(Created::WithoutInode);
    let lost = answer(service.create_file(&req, &seen));
    assert_eq!(lost.fault, Some(PathFault::NothingCreated));
    assert_eq!(lost.mount, Some(mount_ctx()));
}

#[test]
fn overwriting_opens_the_file_that_is_there() {
    let service = service(Some(raft(true)));
    let req = CreateFileRequest {
        call: call("/a"),
        disposition: CreateDisposition::Overwrite,
        attrs: None,
        layout: None,
        desired_len: None,
    };
    let mut seen = nothing();
    seen.meta = Some(true);
    seen.inode = Some(Some(resolved(Some(9))));
    assert_eq!(service.create_file(&req, &seen), PathStep::CheckPerm(PermissionBits::Write, "/a"));
    seen.perm = Some(true);
    assert_eq!(service.create_file(&req, &seen), PathStep::CheckDataWrite(MountId::new(1)));
    seen.data = Some(true);
    assert_eq!(
        service.create_file(&req, &seen),
        PathStep::Execute(PathWork::OpenWrite {
            inode_id: InodeId::new(9),
            desired_len: None,
            mode: WriteMode::Write,
            freshness: fresh(),
        })
    );
    assert_eq!(
        service.append_file(&AppendFileRequest { call: call("/a"), desired_len: None }, &seen),
        PathStep::Execute(PathWork::OpenWrite {
            inode_id: InodeId::new(9),
            desired_len: None,
            mode: WriteMode::Append,
            freshness: fresh(),
        })
    );
    let unsaid = CreateFileRequest { disposition: CreateDisposition::Unspecified, ..req };
    assert_eq!(answer(service.create_file(&unsaid, &seen)).fault, Some(PathFault::MissingDisposition));
}

#[test]
fn deletions_depend_on_what_is_there() {
    let service = service(Some(raft(true)));
    let parent_inode_id = InodeId::new(2);
    let (name, freshness) = ("a", fresh());
    let entry = DeleteRequest { call: call("/a"), recursive: false };
    let tree = DeleteRequest { recursive: true, ..entry };
    let mut seen = nothing();
    seen.meta = Some(true);
    seen.perm = Some(true);
    seen.path = Some(Some(resolved(None)));
    assert_eq!(answer(service.delete(&entry, &seen)).fault, Some(PathFault::EntryNotFound));
    assert_eq!(
        service.delete(&tree, &seen),
        PathStep::Execute(PathWork::DeleteTree { parent_inode_id, name, freshness })
    );
    seen.path = Some(Some(resolved(Some(9))));
    assert_eq!(service.delete(&tree, &seen), PathStep::GetInode(InodeId::new(9)));
    seen.found = found(InodeKind::Dir);
    assert_eq!(
        service.delete(&tree, &seen),
        PathStep::Execute(PathWork::DeleteTree { parent_inode_id, name, freshness })
    );
    assert_eq!(
        service.delete(&entry, &seen),
        PathStep::Execute(PathWork::Rmdir { parent_inode_id, name, freshness })
    );
    seen.found = found(InodeKind::File);
    assert_eq!(
        service.delete(&tree, &seen),
        PathStep::Execute(PathWork::Unlink { parent_inode_id, name, freshness })
    );
    seen.found = Some(InodeLookup::Absent);
    assert_eq!(
        answer(service.delete(&tree, &seen)).fault,
        Some(PathFault::TargetNotFound(InodeId::new(9)))
    );
}

#[test]
fn reading_a_file_needs_a_file_and_the_mounts_leave() {
    let service = service(None);
    let req = OpenFileRequest {
        call: call("/a"),
        range: Some(WireRange { offset: 5, len: 6 }),
        include_locations: false,
    };
    let mut seen = nothing();
    assert_eq!(service.open_file(&req, &seen), PathStep::CheckMetaRead);
    seen.meta = Some(true);
    seen.inode = Some(Some(resolved(Some(9))));
    seen.perm = Some(true);
    assert_eq!(service.open_file(&req, &seen), PathStep::CheckDataRead(MountId::new(1)));
    seen.data = Some(false);
    assert_eq!(answer(service.open_file(&req, &seen)).fault, Some(PathFault::GuardRefused));
    seen.data = Some(true);
    seen.found = found(InodeKind::Dir);
    assert_eq!(
        answer(service.open_file(&req, &seen)).fault,
        Some(PathFault::NotAFile(InodeId::new(9)))
    );
    seen.found = found(InodeKind::File);
    assert_eq!(
        service.open_file(&req, &seen),
        PathStep::Execute(PathWork::GetFileLayout {
            inode_id: InodeId::new(9),
            range: Some(FileRange { offset: 5, len: 6 }),
            requested_data_handle_id: None,
            freshness: fresh(),
        })
    );
    seen.done = Some(true);
    assert_eq!(
        answer(service.open_file(&req, &seen)).body,
        PathBody::OfFile {
            inode_id: InodeId::new(9),
            data_handle_id: DataHandleId::new(70),
            with_locations: false,
        }
    );
}

#[test]
fn blocks_are_found_by_path_by_inode_and_by_data() {
    let service = service(None);
    let by = |target| BlockLocationsRequest { epochs: call("/a").epochs, target, range: None };
    let mut seen = nothing();
    seen.meta = Some(true);
    assert_eq!(
        answer(service.get_block_locations(&by(None), &seen)).fault,
        Some(PathFault::MissingTarget)
    );
    assert_eq!(
        service.get_block_locations(&by(Some(BlockTarget::Path("/a"))), &seen),
        PathStep::ResolveInode("/a")
    );
    assert_eq!(
        service.get_block_locations(&by(Some(BlockTarget::InodeId(InodeId::new(9)))), &seen),
        PathStep::PlanMount(InodeId::new(9))
    );
    let by_data = by(Some(BlockTarget::DataHandleId(DataHandleId::new(70))));
    assert_eq!(
        service.get_block_locations(&by_data, &seen),
        PathStep::FindDataInode(DataHandleId::new(70))
    );
    seen.data_inode = Some(Some(InodeId::new(9)));
    seen.mount = Some(Some(MountId::new(1)));
    seen.data = Some(true);
    seen.found = found(InodeKind::File);
    assert_eq!(
        service.get_block_locations(&by_data, &seen),
        PathStep::Execute(PathWork::GetFileLayout {
            inode_id: InodeId::new(9),
            range: None,
            requested_data_handle_id: Some(DataHandleId::new(70)),
            freshness: fresh(),
        })
    );
}

fn shown() -> ShownHandle {
    ShownHandle {
        handle_id: 4,
        lease: LeaseProof { lease_id: None, lease_epoch: 1, open_epoch: 2, fencing_token: None },
    }
}

fn through(handle: Option<ShownHandle>) -> HandleCall {
    HandleCall { handle, epochs: call("/a").epochs }
}

#[test]
fn handles_are_guarded_by_their_session() {
    let service = service(Some(raft(true)));
    let with = through(Some(shown()));
    let mut seen = nothing();
    assert_eq!(
        answer(service.add_block(&through(None), None, &seen)).fault,
        Some(PathFault::MissingWriteHandle)
    );
    assert_eq!(service.add_block(&with, None, &seen), PathStep::FindSession(4));
    seen.session = Some(None);
    assert_eq!(service.renew_lease(&with, &seen), PathStep::CheckMetaWrite);
    seen.session = Some(Some(MountId::new(1)));
    assert_eq!(service.abort_file_write(&with, &seen), PathStep::CheckDataWrite(MountId::new(1)));
    seen.data = Some(true);
    assert_eq!(
        service.add_block(&with, Some(64), &seen),
        PathStep::Execute(PathWork::AddBlock { handle: shown(), desired_len: Some(64), freshness: fresh() })
    );
    assert_eq!(
        service.abort_file_write(&with, &seen),
        PathStep::Execute(PathWork::AbortWrite { handle: shown(), freshness: fresh() })
    );
    seen.done = Some(false);
    assert_eq!(answer(service.renew_lease(&with, &seen)).fault, Some(PathFault::CoreFailed));
}

#[test]
fn commits_hold_blocks_of_their_file_only() {
    let service = service(Some(raft(true)));
    let block = |data, index| WireCommittedBlock {
        file_offset: 0,
        block_id: Some(WireBlockId { data_handle_id: data, block_index: index }),
        len: 10,
    };
    let mut seen = nothing();
    seen.session = Some(Some(MountId::new(1)));
    seen.data = Some(true);
    let none = vec![];
    let commit = CommitFileRequest {
        call: through(Some(shown())),
        data_handle_id: None,
        committed_blocks: &none,
        final_size: 20,
    };
    assert_eq!(
        answer(service.commit_file(&commit, &seen)).fault,
        Some(PathFault::MissingDataHandleId)
    );
    let mixed = vec![block(70, 0), block(71, 0)];
    let foreign = CommitFileRequest { data_handle_id: Some(70), committed_blocks: &mixed, ..commit };
    assert_eq!(answer(service.commit_file(&foreign, &seen)).fault, Some(PathFault::ForeignBlock));
    let own = vec![block(70, 0), block(70, 1)];
    let sound = CommitFileRequest { data_handle_id: Some(70), committed_blocks: &own, ..commit };
    assert_eq!(
        service.commit_file(&sound, &seen),
        PathStep::Execute(PathWork::CloseWrite {
            handle: shown(),
            blocks: &own,
            final_size: 20,
            freshness: fresh(),
        })
    );
    let told = path_types::committed_blocks(&vec![block(70, 3)], 70).unwrap();
    assert_eq!(told[0].block_id.index.as_raw(), 3);
    assert_eq!(told[0].len, 10);
    let unnamed = WireCommittedBlock { file_offset: 0, block_id: None, len: 1 };
    let error = path_types::committed_block_from_proto(&unnamed).unwrap_err();
    assert_eq!(error.message(), "Missing block_id in committed block");
}

#[test]
fn listings_renames_and_looks_take_their_steps() {
    let service = service(Some(raft(true)));
    let mut seen = nothing();
    seen.meta = Some(true);
    seen.inode = Some(Some(resolved(Some(9))));
    let list = ListStatusRequest { call: call("/a"), recursive: false, cursor: &[], limit: 0 };
    let deep = ListStatusRequest { recursive: true, ..list };
    assert_eq!(answer(service.list_status(&deep, &seen)).fault, Some(PathFault::RecursiveListing));
    seen.perm = Some(true);
    assert_eq!(
        service.list_status(&ListStatusRequest { limit: 7, cursor: &[8], ..list }, &seen),
        PathStep::Execute(PathWork::ReadDir {
            inode_id: InodeId::new(9),
            cursor: Some(&[8]),
            max_entries: Some(7),
            freshness: fresh(),
        })
    );
    assert_eq!(
        service.get_status(&call("/a"), &seen),
        PathStep::Execute(PathWork::GetAttr { inode_id: InodeId::new(9), freshness: fresh() })
    );
    seen.path = Some(Some(resolved(None)));
    let make = CreateDirectoryRequest { call: call("/a"), attrs: Some(attrs()) };
    assert_eq!(
        service.create_directory(&make, &seen),
        PathStep::Execute(PathWork::Mkdir {
            parent_inode_id: InodeId::new(2),
            name: "a",
            attrs: attrs(),
            freshness: fresh(),
        })
    );
    let unsaid = CreateDirectoryRequest { attrs: None, ..make };
    assert_eq!(answer(service.create_directory(&unsaid, &seen)).fault, Some(PathFault::BadAttrs));
    seen.path = Some(Some(ResolvedPath { name: None, ..resolved(None) }));
    assert_eq!(answer(service.create_directory(&make, &seen)).fault, Some(PathFault::PathIncomplete));

    let rename =
        RenamePathRequest { src_path: "/a", dst_path: "/b", flags: 1, epochs: call("/a").epochs };
    assert_eq!(service.rename(&rename, &seen), PathStep::ResolveRename { src: "/a", dst: "/b" });
    let dst = ResolvedPath { name: Some("b"), ..resolved(None) };
    seen.rename = Some(Some(RenamePaths { src: resolved(Some(9)), dst }));
    assert_eq!(
        service.rename(&rename, &seen),
        PathStep::CheckParentPerm(PermissionBits::Write, PathArg::Second, "/b")
    );
    seen.second_perm = Some(true);
    assert_eq!(
        service.rename(&rename, &seen),
        PathStep::Execute(PathWork::Rename {
            src_parent_inode_id: InodeId::new(2),
            src_name: "a",
            dst_parent_inode_id: InodeId::new(2),
            dst_name: "b",
            flags: 1,
            freshness: fresh(),
        })
    );
}

#[test]
fn barriers_are_not_offered_and_faults_are_told() {
    let service = service(Some(raft(true)));
    let mut seen = nothing();
    seen.meta = Some(true);
    let hflush = answer(service.hflush(&seen)).fault.unwrap();
    let error = path_types::fault_error(hflush, "").unwrap();
    assert_eq!(error.kind(), ErrorKind::NotSupported);
    assert_eq!(
        error.message(),
        "Hflush is reserved but not supported until metadata visibility barrier semantics are defined"
    );
    assert_eq!(answer(service.hsync(&seen)).fault, Some(PathFault::HsyncReserved));
    let missing = path_types::fault_error(PathFault::EntryNotFound, "a.txt").unwrap();
    assert_eq!(missing.message(), "Entry not found: a.txt");
    let inode = path_types::fault_error(PathFault::InodeNotFound(InodeId::new(9)), "").unwrap();
    assert_eq!(inode.message(), "Inode not found: 9");
    assert!(path_types::fault_error(PathFault::GuardRefused, "").is_none());
}

#[test]
fn synchronization_needs_a_raft_node() {
    let header = SyncHeader::Read(Some(GroupName::new("root".to_string())));
    match service(Some(raft(true))).msync(&raft(true), &header) {
        MsyncAnswer::Synced { group_name, state_id } => {
            assert_eq!(group_name, GroupName::new("root".to_string()));
            assert_eq!(state_id, RaftLogId::new(1, 1, 7));
        }
        other => panic!("expected a state, got {:?}", other),
    }
    match service(None).msync(&raft(true), &header) {
        MsyncAnswer::Error { group_name, error } => {
            assert_eq!(group_name, Some(GroupName::new("root".to_string())));
            assert_eq!(error.kind, FailureKind::NodeUnavailable);
            assert!(matches!(error.recovery, RecoveryAction::Retry { after_ms: Some(10) }));
            assert_eq!(error.message, "msync raft node is not configured");
        }
        other => panic!("expected an error, got {:?}", other),
    }
}

#[test]
fn wire_numbers_tell_how_a_file_is_opened() {
    assert_eq!(write_mode_from_wire(2, 2), WriteMode::Append);
    assert_eq!(write_mode_from_wire(1, 2), WriteMode::Write);
    assert_eq!(write_mode_from_wire(-9, 2), WriteMode::Write);

    let numbers = DispositionNumbers { create_new: 1, overwrite: 2 };
    assert_eq!(disposition_from_wire(1, numbers), CreateDisposition::New);
    assert_eq!(disposition_from_wire(2, numbers), CreateDisposition::Overwrite);
    assert_eq!(disposition_from_wire(0, numbers), CreateDisposition::Unspecified);
    assert_eq!(disposition_from_wire(99, numbers), CreateDisposition::Unspecified);
}
