//! Filesystem requests by inode.

use beryl_metadata::error::MetadataError;
use beryl_metadata::ids::{
    BlockId, BlockIndex, CallId, ClientId, DataHandleId, InodeId, LeaseId, MountId, RaftLogId, ShardGroupId,
};
use beryl_metadata::raft::RaftView;
use beryl_metadata::service::fs_service;
use beryl_metadata::service::fs_service::{
    CoreCall, CreateRequest, FsAnswer, FsBody, FsCaller, FsCommand, FsRpcAuthz, FsSeen, FsStep, FsyncRequest,
    MetadataFsServiceImpl, MkdirRequest, ProposeStep, Proposed, ReadDirRequest, RemoveRequest, RenameRequest,
    RouteStep, Routed, SetAttrRequest, TruncateRequest, XattrRequest,
};
use beryl_metadata::service::fs_types;
use beryl_metadata::service::fs_types::{
    DentryRead, FaultReply, Field, FsFault, FsWriteOp, InodeFacts, InodeKind, InodeRead, MountFacts, MountRead,
    RoutedFsWriteCtx, SessionFacts, Unoffered,
};
use beryl_metadata::service::inputs::{
    Barrier, DedupKey, FileLayout, FileRange, Freshness, LeaseProof, WireLayout, WireRange,
};
use beryl_metadata::service::replies;
use beryl_metadata::service::replies::{
    ClosedWrite, ListedEntry, OpenedWrite, SessionKey, WireLeaseId,
};
use beryl_metadata::service::wire;
use beryl_metadata::service::wire::{FileAttrs, Inode, InodeData, WireInodeData, Xattr};
use beryl_metadata::write_target::{FencingToken, WriteMode};

fn leader() -> MetadataFsServiceImpl {
    MetadataFsServiceImpl::new().with_storage().with_raft_node(&RaftView {
        is_leader: true,
        leader_id: Some(1),
        members: None,
        last_applied: Some(RaftLogId::new(1, 1, 10)),
    })
}

fn caller() -> FsCaller {
    FsCaller {
        client_id: ClientId::new(5),
        call_id: CallId { raw: 77 },
        mount_epoch: Some(3),
        route_epoch: Some(4),
        state_id: None,
    }
}

fn dedup() -> DedupKey {
    DedupKey { client_id: ClientId::new(5), call_id: CallId { raw: 77 } }
}

fn fresh() -> Freshness {
    Freshness { mount_epoch: Some(3), route_epoch: Some(4), worker_epoch: None }
}

fn inode(id: u64, mount: u64, kind: InodeKind, size: u64) -> InodeRead {
    InodeRead::Found(InodeFacts { inode_id: InodeId::new(id), mount_id: MountId::new(mount), kind, size })
}

fn mount(id: u64) -> MountRead {
    MountRead::Found(MountFacts {
        mount_id: MountId::new(id),
        namespace_owner_group_id: ShardGroupId::new(8),
        mount_epoch: 3,
    })
}

fn ctx() -> RoutedFsWriteCtx {
    RoutedFsWriteCtx {
        mount_id: MountId::new(1),
        namespace_owner_group_id: ShardGroupId::new(8),
        mount_epoch: 3,
        latest_state_id: Some(RaftLogId::new(1, 1, 10)),
    }
}

fn answer(step: FsStep) -> FsAnswer {
    match step {
        FsStep::Answer(answer) => answer,
        other => panic!("expected an answer, got {:?}", other),
    }
}

fn rename_request(flags: u32) -> RenameRequest<'static> {
    RenameRequest {
        caller: caller(),
        src_parent_inode_id: Some(InodeId::new(10)),
        src_name: "a",
        dst_parent_inode_id: Some(InodeId::new(20)),
        dst_name: "b",
        flags,
    }
}

#[test]
fn rename_walks_to_its_command() {
    let service = leader();
    let req = rename_request(1);
    let mut seen = FsSeen::nothing();
    assert_eq!(service.rename(&req, &seen), FsStep::ReadInode(InodeId::new(10)));
    seen.inode = Some(inode(10, 1, InodeKind::Dir, 0));
    assert_eq!(service.rename(&req, &seen), FsStep::ReadOtherInode(InodeId::new(20)));
    seen.other_inode = Some(inode(20, 1, InodeKind::Dir, 0));
    assert_eq!(
        service.rename(&req, &seen),
        FsStep::Route { op: FsWriteOp::Rename, first: InodeId::new(10), second: Some(InodeId::new(20)) }
    );
    seen.route = Some(Routed::To(ctx()));
    assert!(matches!(service.rename(&req, &seen), FsStep::AskGuard(_)));
    seen.guard = Some(true);
    assert_eq!(service.rename(&req, &seen), FsStep::ReadDentry(InodeId::new(20), "b"));
    seen.dentry = Some(DentryRead::Absent);
    assert_eq!(
        service.rename(&req, &seen),
        FsStep::Propose(FsCommand::Rename {
            dedup: dedup(),
            src_parent_inode_id: InodeId::new(10),
            src_name: "a",
            dst_parent_inode_id: InodeId::new(20),
            dst_name: "b",
            flags: 1,
        })
    );
    seen.proposed = Some(Proposed::Done(None));
    let done = answer(service.rename(&req, &seen));
    assert_eq!(done.fault, None);
    assert_eq!(done.group_id, Some(ShardGroupId::new(8)));
    assert_eq!(done.mount_epoch, Some(3));
    assert_eq!(done.state_id, Some(RaftLogId::new(1, 1, 10)));

    seen.proposed = None;
    seen.dentry = Some(DentryRead::Found(InodeId::new(21)));
    assert_eq!(answer(service.rename(&req, &seen)).fault, Some(FsFault::DestinationExists));
}

#[test]
fn rename_refuses_other_mounts_and_unknown_flags() {
    let service = leader();
    assert_eq!(
        answer(service.rename(&rename_request(2), &FsSeen::nothing())).fault,
        Some(FsFault::UnsupportedRenameFlags(2))
    );
    let mut seen = FsSeen::nothing();
    seen.inode = Some(inode(10, 1, InodeKind::Dir, 0));
    seen.other_inode = Some(inode(20, 2, InodeKind::Dir, 0));
    assert_eq!(service.rename(&rename_request(0), &seen), FsStep::ReadMount(MountId::new(1)));
    seen.mount = Some(mount(1));
    let refused = answer(service.rename(&rename_request(0), &seen));
    assert_eq!(
        refused.fault,
        Some(FsFault::CrossMountRename { src: MountId::new(1), dst: MountId::new(2) })
    );
    assert_eq!(refused.mount_epoch, Some(3));
    match fs_types::fault_reply(refused.fault.unwrap(), FsRpcAuthz::Rename, "", "") {
        FaultReply::Error(error) => assert_eq!(
            error.message(),
            "Cross-mount rename not allowed: src_mount=MountId(1), dst_mount=MountId(2)"
        ),
        other => panic!("expected an error, got {:?}", other),
    }
}

#[test]
fn a_stale_leader_does_not_look_for_the_destination() {
    let service = leader();
    let mut req = rename_request(1);
    req.caller.state_id = Some(RaftLogId::new(1, 1, 11));
    let mut seen = FsSeen::nothing();
    seen.inode = Some(inode(10, 1, InodeKind::Dir, 0));
    seen.other_inode = Some(inode(20, 1, InodeKind::Dir, 0));
    seen.route = Some(Routed::To(ctx()));
    seen.guard = Some(true);
    assert_eq!(
        answer(service.rename(&req, &seen)).fault,
        Some(FsFault::StaleState {
            last_applied: RaftLogId::new(1, 1, 10),
            required: RaftLogId::new(1, 1, 11),
        })
    );
}

#[test]
fn writes_are_routed_within_one_mount() {
    let ids = vec![InodeId::new(10), InodeId::new(20)];
    let mut reads = Vec::new();
    let first = fs_service::route_fs_write_ctx(true, &ids, &reads, None, Some(3), None);
    assert_eq!(first, RouteStep::ReadInode(InodeId::new(10)));
    reads.push(inode(10, 1, InodeKind::Dir, 0));
    reads.push(inode(20, 2, InodeKind::Dir, 0));
    assert_eq!(
        fs_service::route_fs_write_ctx(true, &ids, &reads, None, Some(3), None),
        RouteStep::Done(Routed::Fault(FsFault::CrossMount))
    );
    reads[1] = inode(20, 1, InodeKind::Dir, 0);
    assert_eq!(
        fs_service::route_fs_write_ctx(true, &ids, &reads, None, Some(3), None),
        RouteStep::ReadMount(MountId::new(1))
    );
    assert_eq!(
        fs_service::route_fs_write_ctx(true, &ids, &reads, Some(mount(1)), Some(3), Some(RaftLogId::new(1, 1, 10))),
        RouteStep::Done(Routed::To(ctx()))
    );
    assert_eq!(
        fs_service::route_fs_write_ctx(true, &ids, &reads, Some(mount(1)), Some(2), None),
        RouteStep::Done(Routed::Fault(FsFault::MountEpochMismatch { expected: 3, got: 2 }))
    );
    assert_eq!(
        fs_service::route_fs_write_ctx(false, &ids, &reads, None, None, None),
        RouteStep::Done(Routed::Fault(FsFault::StorageUnavailable))
    );
}

#[test]
fn calls_are_carried_out_once() {
    let call_id = CallId { raw: 77 };
    let earlier = fs_service::AppliedRead::Found(fs_service::AppliedCall {
        same_command: true,
        result: Some(Proposed::Done(Some(4))),
    });
    assert_eq!(
        fs_service::propose_fs_write_command(true, true, call_id, Some(earlier), None),
        ProposeStep::Done(Proposed::Done(Some(4)))
    );
    let other = fs_service::AppliedRead::Found(fs_service::AppliedCall { same_command: false, result: None });
    assert_eq!(
        fs_service::propose_fs_write_command(true, true, call_id, Some(other), None),
        ProposeStep::Done(Proposed::Fault(FsFault::CallReused(call_id)))
    );
    assert_eq!(
        fs_service::propose_fs_write_command(true, true, call_id, Some(fs_service::AppliedRead::Absent), None),
        ProposeStep::Append
    );
    assert_eq!(
        fs_service::propose_fs_write_command(false, true, call_id, None, None),
        ProposeStep::Done(Proposed::Fault(FsFault::RaftUnavailable))
    );
    assert_eq!(fs_service::dedup_key(&caller()), Some(dedup()));
    let nobody = FsCaller { client_id: ClientId::new(0), ..caller() };
    assert_eq!(fs_service::dedup_key(&nobody), None);
}

#[test]
fn truncation_only_shrinks() {
    let service = leader();
    let mut req = TruncateRequest {
        caller: caller(),
        inode_id: Some(InodeId::new(10)),
        lease_id: Some(WireLeaseId { high: 1, low: 2 }),
        lease_epoch: 4,
        new_size: 100,
    };
    let mut seen = FsSeen::nothing();
    seen.guard = Some(true);
    seen.inode = Some(inode(10, 1, InodeKind::File, 50));
    seen.mount = Some(mount(1));
    seen.lease = Some(true);
    seen.route = Some(Routed::To(ctx()));
    assert_eq!(
        answer(service.truncate(&req, &seen)).fault,
        Some(FsFault::GrowNotSupported { current_size: 50, new_size: 100 })
    );
    req.new_size = 50;
    assert_eq!(answer(service.truncate(&req, &seen)).body, FsBody::NewSize(50));
    req.new_size = 20;
    assert_eq!(
        service.truncate(&req, &seen),
        FsStep::Propose(FsCommand::Truncate {
            dedup: dedup(),
            inode_id: InodeId::new(10),
            new_size: 20,
            lease_id: LeaseId::new(0x1_0000_0000_0000_0002),
            lease_epoch: 4,
        })
    );
    seen.proposed = Some(Proposed::Done(None));
    assert_eq!(answer(service.truncate(&req, &seen)).body, FsBody::NewSize(20));
}

#[test]
fn guard_refusals_end_requests() {
    let service = leader();
    let mut seen = FsSeen::nothing();
    seen.guard = Some(false);
    assert_eq!(
        answer(service.lookup(Some(InodeId::new(1)), "a", &seen)).fault,
        Some(FsFault::GuardRefused)
    );
    assert_eq!(
        answer(service.get_attr(Some(InodeId::new(1)), &seen)).fault,
        Some(FsFault::GuardRefused)
    );
    let mut routed = seen;
    routed.route = Some(Routed::To(ctx()));
    let req = CreateRequest {
        caller: caller(),
        parent_inode_id: Some(InodeId::new(1)),
        name: "a",
        attrs: Some(wire::file_attrs_to_proto(&attrs())),
        layout: Some(WireLayout { block_size: 64, chunk_size: 16, replication: 3 }),
    };
    assert_eq!(answer(service.create(&req, &routed)).fault, Some(FsFault::GuardRefused));
}

#[test]
fn what_is_missing_is_told() {
    let service = leader();
    let seen = FsSeen::nothing();
    assert_eq!(
        answer(service.lookup(None, "a", &seen)).fault,
        Some(FsFault::Missing(Field::ParentInodeId))
    );
    let mkdir = MkdirRequest { caller: caller(), parent_inode_id: None, name: "a", attrs: None };
    assert_eq!(
        answer(service.mkdir(&mkdir, &seen)).fault,
        Some(FsFault::Missing(Field::ParentInodeId))
    );
    let set_attr = SetAttrRequest { caller: caller(), inode_id: None, mask: 1, attrs: None };
    assert_eq!(
        answer(service.set_attr(&set_attr, &seen)).fault,
        Some(FsFault::Missing(Field::InodeId))
    );
    match fs_types::fault_reply(FsFault::Missing(Field::InodeId), FsRpcAuthz::SetAttr, "", "") {
        FaultReply::Error(MetadataError::InvalidArgument(message)) => assert_eq!(message, "Missing inode_id"),
        other => panic!("expected an error, got {:?}", other),
    }
    let mismatch = FsFault::MountEpochMismatch { expected: 3, got: 2 };
    match fs_types::fault_reply(mismatch, FsRpcAuthz::Mkdir, "", "") {
        FaultReply::RefreshMountEpoch(message) => {
            assert_eq!(message, "Mount epoch mismatch: client=2, server=3 ")
        }
        other => panic!("expected a refresh, got {:?}", other),
    }
    match fs_types::fault_reply(mismatch, FsRpcAuthz::SetAttr, "", "") {
        FaultReply::RefreshMountEpoch(message) => assert_eq!(message, "Mount epoch mismatch: client=2, server=3"),
        other => panic!("expected a refresh, got {:?}", other),
    }
    match fs_types::fault_reply(FsFault::ProposeFailed, FsRpcAuthz::Mkdir, "", "no quorum") {
        FaultReply::Error(error) => assert_eq!(error.message(), "Failed to propose command: no quorum"),
        other => panic!("expected an error, got {:?}", other),
    }
    let lease_fault = FsFault::LeaseInvalid { inode_id: InodeId::new(4), lease_id: LeaseId::new(1 << 70) };
    match fs_types::fault_reply(lease_fault, FsRpcAuthz::Truncate, "", "") {
        FaultReply::InvalidLease(message) => assert_eq!(
            message,
            "Lease validation failed for truncate: inode=4, lease_id=LeaseId(1180591620717411303424)"
        ),
        other => panic!("expected an invalid lease, got {:?}", other),
    }
    match fs_types::fault_reply(
        FsFault::StaleState { last_applied: RaftLogId::new(1, 2, 3), required: RaftLogId::new(1, 2, 4) },
        FsRpcAuthz::Rename,
        "",
        "",
    ) {
        FaultReply::RefreshState(message) => assert_eq!(
            message,
            "Stale state: last_applied=RaftLogId { term: 1, leader_node_id: 2, index: 3 } < required=RaftLogId { term: 1, leader_node_id: 2, index: 4 }"
        ),
        other => panic!("expected a refresh, got {:?}", other),
    }
}

#[test]
fn directories_are_listed_page_by_page() {
    let service = leader();
    let req = ReadDirRequest { parent_inode_id: Some(InodeId::new(1)), cursor_key: &[4, 5], max_entries: 0 };
    let mut seen = FsSeen::nothing();
    seen.guard = Some(true);
    seen.inode = Some(inode(1, 1, InodeKind::File, 0));
    let refused = answer(service.read_dir(&req, &seen));
    assert_eq!(refused.fault, Some(FsFault::NotADirectory(InodeId::new(1))));
    assert_eq!(refused.body, FsBody::EmptyLastPage);
    seen.inode = Some(inode(1, 1, InodeKind::Dir, 0));
    assert_eq!(
        service.read_dir(&req, &seen),
        FsStep::ListEntries { parent_inode_id: InodeId::new(1), cursor: Some(&[4, 5]), limit: None }
    );
    let limited = ReadDirRequest { cursor_key: &[], max_entries: 20, ..req };
    assert_eq!(
        service.read_dir(&limited, &seen),
        FsStep::ListEntries { parent_inode_id: InodeId::new(1), cursor: None, limit: Some(20) }
    );
}

#[test]
fn entries_are_removed_by_command() {
    let service = leader();
    let mut seen = FsSeen::nothing();
    seen.route = Some(Routed::To(ctx()));
    seen.guard = Some(true);
    let req = RemoveRequest { caller: caller(), parent_inode_id: Some(InodeId::new(1)), name: "a" };
    let unlink = FsCommand::Unlink { dedup: dedup(), parent_inode_id: InodeId::new(1), name: "a" };
    assert_eq!(service.unlink(&req, &seen), FsStep::Propose(unlink));
    assert_eq!(fs_service::write_op(unlink), FsWriteOp::Unlink);
    assert_eq!(
        service.rmdir(&req, &seen),
        FsStep::Propose(FsCommand::Rmdir { dedup: dedup(), parent_inode_id: InodeId::new(1), name: "a" })
    );
    let nobody = RemoveRequest { caller: FsCaller { client_id: ClientId::new(0), ..caller() }, ..req };
    assert_eq!(answer(service.unlink(&nobody, &seen)).fault, Some(FsFault::NoClientId));
    seen.proposed = Some(Proposed::Failed);
    assert_eq!(answer(service.rmdir(&req, &seen)).fault, Some(FsFault::CommandFailed));
}

#[test]
fn commands_carry_what_was_asked() {
    let service = leader();
    let mut seen = FsSeen::nothing();
    seen.route = Some(Routed::To(ctx()));
    seen.guard = Some(true);
    seen.inode = Some(inode(1, 1, InodeKind::Dir, 0));
    seen.other_inode = Some(inode(1, 1, InodeKind::Dir, 0));
    let told = wire::file_attrs_to_proto(&attrs());
    let set = SetAttrRequest { caller: caller(), inode_id: Some(InodeId::new(1)), mask: 5, attrs: Some(told) };
    assert_eq!(
        service.set_attr(&set, &seen),
        FsStep::Propose(FsCommand::SetAttr {
            dedup: dedup(),
            inode_id: InodeId::new(1),
            mask: 5,
            attrs: attrs(),
        })
    );
    let mkdir =
        MkdirRequest { caller: caller(), parent_inode_id: Some(InodeId::new(1)), name: "d", attrs: Some(told) };
    assert_eq!(
        service.mkdir(&mkdir, &seen),
        FsStep::Propose(FsCommand::Mkdir {
            dedup: dedup(),
            parent_inode_id: InodeId::new(1),
            name: "d",
            attrs: attrs(),
        })
    );
    let unsaid = MkdirRequest { attrs: None, ..mkdir };
    let refused = answer(service.mkdir(&unsaid, &seen));
    assert_eq!(refused.fault, Some(FsFault::Missing(Field::FileAttrs)));
    assert_eq!(refused.group_id, Some(ShardGroupId::new(8)));
    let create = CreateRequest {
        caller: caller(),
        parent_inode_id: Some(InodeId::new(1)),
        name: "f",
        attrs: Some(told),
        layout: Some(WireLayout { block_size: 64, chunk_size: 16, replication: 3 }),
    };
    assert_eq!(
        service.create(&create, &seen),
        FsStep::Propose(FsCommand::Create {
            dedup: dedup(),
            parent_inode_id: InodeId::new(1),
            name: "f",
            attrs: attrs(),
            layout: FileLayout { block_size: 64, chunk_size: 16, replication: 3 },
        })
    );
    assert_eq!(
        answer(service.create(&CreateRequest { layout: None, ..create }, &seen)).fault,
        Some(FsFault::Missing(Field::FileLayout))
    );
    seen.proposed = Some(Proposed::Done(Some(40)));
    assert_eq!(answer(service.create(&create, &seen)).body, FsBody::DataHandle(40));
}

#[test]
fn extended_attributes_are_read_and_changed() {
    let service = leader();
    let id = Some(InodeId::new(1));
    let mut seen = FsSeen::nothing();
    seen.guard = Some(true);
    seen.inode = Some(inode(1, 1, InodeKind::File, 0));
    assert_eq!(service.get_xattr(id, "user.a", &seen), FsStep::FindXattr("user.a"));
    seen.work = Some(false);
    assert_eq!(answer(service.get_xattr(id, "user.a", &seen)).fault, Some(FsFault::XattrNotFound));
    assert_eq!(answer(service.list_xattr(id, &seen)).body, FsBody::XattrNames);
    seen.route = Some(Routed::To(ctx()));
    let req = XattrRequest { caller: caller(), inode_id: id, name: "user.a" };
    assert_eq!(
        service.set_xattr(&req, &[1, 2], true, false, &seen),
        FsStep::Propose(FsCommand::SetXattr {
            dedup: dedup(),
            inode_id: InodeId::new(1),
            name: "user.a",
            value: &[1, 2],
            create: true,
            replace: false,
        })
    );
    assert_eq!(
        service.remove_xattr(&req, &seen),
        FsStep::Propose(FsCommand::RemoveXattr { dedup: dedup(), inode_id: InodeId::new(1), name: "user.a" })
    );
    let xattrs = vec![
        Xattr { name: "user.a".to_string(), value: vec![1] },
        Xattr { name: "user.b".to_string(), value: vec![2] },
    ];
    assert_eq!(wire::xattr_value(&xattrs, "user.b"), Some(&vec![2]));
    assert_eq!(wire::xattr_value(&xattrs, "user.c"), None);
    assert_eq!(wire::xattr_names(&xattrs), vec!["user.a".to_string(), "user.b".to_string()]);
}

#[test]
fn data_requests_go_to_the_core() {
    let service = leader();
    let id = Some(InodeId::new(1));
    let mut seen = FsSeen::nothing();
    seen.inode = Some(inode(1, 1, InodeKind::Dir, 0));
    assert_eq!(
        answer(service.open_write(id, None, WriteMode::Write, &caller(), &seen)).fault,
        Some(FsFault::NotAFile(InodeId::new(1)))
    );
    seen.inode = Some(inode(1, 1, InodeKind::File, 0));
    let open = service.open_write(id, Some(9), WriteMode::Append, &caller(), &seen);
    assert!(matches!(open, FsStep::AskGuard(call) if call.spec.leader));
    let layout = service.get_file_layout(id, None, &caller(), &seen);
    assert!(matches!(layout, FsStep::AskGuard(call) if !call.spec.leader));
    seen.guard = Some(true);
    assert_eq!(
        service.open_write(id, Some(9), WriteMode::Append, &caller(), &seen),
        FsStep::CallCore(CoreCall::OpenWrite {
            inode_id: InodeId::new(1),
            desired_len: Some(9),
            mode: WriteMode::Append,
            freshness: fresh(),
        })
    );
    assert_eq!(
        service.get_file_layout(id, Some(WireRange { offset: 1, len: 2 }), &caller(), &seen),
        FsStep::CallCore(CoreCall::GetFileLayout {
            inode_id: InodeId::new(1),
            range: Some(FileRange { offset: 1, len: 2 }),
            freshness: fresh(),
        })
    );
    assert_eq!(answer(service.hflush(None, &seen)).fault, Some(FsFault::MissingFsyncBody));
    let barrier = Barrier {
        file_handle: Some(6),
        lease_id: Some(LeaseId::new(8)),
        lease_epoch: Some(9),
        fencing_token: None,
        target_size: None,
        flags: 1,
        route_epoch: Some(12),
        worker_epoch: Some(13),
    };
    assert_eq!(
        service.hsync(Some(FsyncRequest { caller: caller(), inode_id: id, barrier }), &seen),
        FsStep::CallCore(CoreCall::Fsync {
            inode_id: InodeId::new(1),
            file_handle: Some(6),
            lease_id: Some(LeaseId::new(8)),
            lease_epoch: Some(9),
            fencing_token: None,
            target_size: None,
            flags: 1,
            freshness: Freshness { mount_epoch: Some(3), route_epoch: Some(12), worker_epoch: Some(13) },
        })
    );
    assert_eq!(service.release(6, &seen), FsStep::FindSession(6));
    seen.session = Some(None);
    assert_eq!(service.release(6, &seen), FsStep::CallCore(CoreCall::Release { file_handle: 6 }));
    assert_eq!(
        answer(service.renew_inode_lease(6, None, 2, &caller(), &seen)).fault,
        Some(FsFault::SessionNotFound(6))
    );
    seen.session = Some(Some(SessionFacts { inode_id: InodeId::new(1), mount_id: MountId::new(1) }));
    assert_eq!(
        service.renew_inode_lease(6, Some(LeaseId::new(8)), 2, &caller(), &seen),
        FsStep::CallCore(CoreCall::RenewLease {
            file_handle: 6,
            lease_id: Some(LeaseId::new(8)),
            lease_epoch: 2,
            freshness: fresh(),
        })
    );
    let lease = LeaseProof { lease_id: Some(LeaseId::new(8)), lease_epoch: 2, open_epoch: 3, fencing_token: None };
    assert_eq!(service.close_write(6, lease, 50, &caller(), &seen), FsStep::ConvertExtents);
    seen.extents = Some(false);
    assert_eq!(answer(service.close_write(6, lease, 50, &caller(), &seen)).fault, Some(FsFault::BadExtent));
    seen.extents = Some(true);
    assert_eq!(
        service.close_write(6, lease, 50, &caller(), &seen),
        FsStep::CallCore(CoreCall::CloseWrite { file_handle: 6, lease, final_size: 50, freshness: fresh() })
    );
    assert_eq!(
        answer(fs_service::not_offered(Unoffered::Link)).fault,
        Some(FsFault::NotOffered(Unoffered::Link))
    );
}

fn attrs() -> FileAttrs {
    FileAttrs { mode: 0o644, uid: 1, gid: 2, size: 3, atime_ms: 4, mtime_ms: 5, ctime_ms: 6, nlink: 7 }
}

#[test]
fn inodes_are_told_to_the_wire() {
    assert_eq!(wire::proto_to_file_attrs(Some(wire::file_attrs_to_proto(&attrs()))).unwrap(), attrs());
    assert_eq!(wire::proto_to_file_attrs(None).unwrap_err().message(), "Missing FileAttrs");
    let mut link = Inode {
        inode_id: InodeId::new(9),
        mount_id: MountId::new(1),
        kind: InodeKind::Symlink,
        attrs: attrs(),
        data: InodeData::Symlink { target: None },
        xattrs: vec![Xattr { name: "user.a".to_string(), value: vec![1, 2] }],
    };
    let told = wire::inode_to_proto(&link);
    assert_eq!(told.inode_id, 9);
    assert!(matches!(told.data, Some(WireInodeData::Symlink { target: None })));
    assert_eq!(told.xattrs[0].name, "user.a");
    assert_eq!(told.xattrs[0].value, vec![1, 2]);
    assert!(wire::looked_up_inode_to_proto(&link).data.is_none());
    link.data = InodeData::Dir;
    assert!(matches!(wire::looked_up_inode_to_proto(&link).data, Some(WireInodeData::Dir)));
    link.data = InodeData::File { extents: Vec::new(), lease_epoch: 8 };
    assert!(matches!(
        wire::inode_to_proto(&link).data,
        Some(WireInodeData::File { lease_epoch: 8, lease_id: None, .. })
    ));
    let entry = wire::dir_entry_to_proto("a".to_string(), InodeId::new(9), &Some(link));
    assert_eq!(entry.kind, Some(InodeKind::Symlink));
    assert_eq!(entry.attrs.unwrap().mtime_ms, 5);
    let lost = wire::dir_entry_to_proto("b".to_string(), InodeId::new(10), &None);
    assert_eq!(lost.kind, None);
}

fn session_key() -> SessionKey {
    SessionKey {
        file_handle: 6,
        lease_id: LeaseId::new(0x1_0000_0000_0000_0002),
        lease_epoch: 2,
        open_epoch: 3,
        fencing_token: FencingToken {
            block_id: BlockId::new(DataHandleId::new(70), BlockIndex::new(0)),
            owner: ClientId::new(5),
            epoch: 2,
        },
    }
}

#[test]
fn what_the_core_gave_is_told() {
    let handle = replies::write_handle_from_key(&session_key());
    assert_eq!(handle.handle_id, 6);
    assert_eq!(handle.lease_id, Some(WireLeaseId { high: 1, low: 2 }));
    assert_eq!(handle.lease_epoch, 2);
    assert_eq!(handle.open_epoch, 3);
    assert_eq!(handle.fencing_token, Some(session_key().fencing_token));
    assert_eq!(replies::lease_id_from_proto(handle.lease_id.unwrap()), session_key().lease_id);

    let opened = OpenedWrite {
        session_key: session_key(),
        inode_id: InodeId::new(9),
        data_handle_id: DataHandleId::new(70),
        base_size: 11,
        expires_at_ms: 12,
        write_targets: Vec::new(),
    };
    let by_path = replies::opened_by_path(&opened);
    assert_eq!(by_path.write_handle, handle);
    assert_eq!((by_path.inode_id, by_path.data_handle_id), (9, 70));
    assert_eq!((by_path.base_size, by_path.expires_at_ms), (11, 12));
    let reply = replies::open_write_reply(Some(opened));
    assert_eq!(reply.file_handle, 6);
    assert_eq!((reply.base_size, reply.open_epoch, reply.lease_epoch, reply.expires_at_ms), (11, 3, 2, 12));
    let failed = replies::open_write_reply(None);
    assert_eq!(failed.file_handle, 0);
    assert_eq!(failed.lease_id, None);

    let closed = ClosedWrite { committed_size: 20, file_version: Some(4) };
    assert_eq!(replies::close_write_reply(Some(closed)), closed);
    assert_eq!(
        replies::close_write_reply(None),
        ClosedWrite { committed_size: 0, file_version: None }
    );

    let made = replies::made_reply(InodeKind::Dir, Some(InodeId::new(9)), Some(attrs()), None);
    let directory = made.inode.unwrap();
    assert_eq!(directory.inode_id, 9);
    assert!(directory.holds_entries);
    assert_eq!(directory.attrs, made.attrs);
    assert_eq!(made.attrs, Some(wire::file_attrs_to_proto(&attrs())));
    assert_eq!(made.data_handle_id, 0);
    let file = replies::made_reply(InodeKind::File, Some(InodeId::new(9)), None, Some(DataHandleId::new(70)));
    assert!(!file.inode.unwrap().holds_entries);
    assert_eq!(file.data_handle_id, 70);
    assert_eq!(replies::made_reply(InodeKind::File, None, None, None).inode, None);

    let page = replies::entries_to_proto(&vec![ListedEntry {
        name: "a".to_string(),
        inode_id: InodeId::new(9),
        kind: Some(InodeKind::File),
        attrs: None,
    }]);
    assert_eq!(page.len(), 1);
    assert_eq!(page[0].name, "a");
    assert_eq!(page[0].kind, Some(InodeKind::File));
    assert_eq!(page[0].attrs, None);
}
