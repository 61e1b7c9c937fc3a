//! Requests by inode or handle, served by the core.

use beryl_metadata::ids::{GroupName, InodeId, LeaseId, MountId};
use beryl_metadata::raft::RaftView;
use beryl_metadata::service::fs_types::{AuthzOp, AuthzTarget, Field};
use beryl_metadata::service::inode_service;
use beryl_metadata::service::inode_service::{
    AuthzScheme, BarrierKind, InodeFault, InodeGuardCall, InodeOp, InodeRequest, InodeRpc, InodeSeen, InodeStep,
    InodeWork, MetadataInodeServiceImpl, RemovePlan, RenamePlan, SessionPlan,
};
use beryl_metadata::service::inputs;
use beryl_metadata::service::inputs::{
    Barrier, FileLayout, FileRange, Freshness, HeaderEpochs, LeaseProof, WireLayout, WireRange,
};
use beryl_metadata::service::wire::{FileAttrs, WireFileAttrs};

fn request(op: InodeOp) -> InodeRequest {
    InodeRequest {
        op,
        first: Some(InodeId::new(1)),
        second: Some(InodeId::new(2)),
        epochs: Some(HeaderEpochs { mount_epoch: Some(3), route_epoch: Some(4) }),
    }
}

fn fresh() -> Freshness {
    Freshness { mount_epoch: Some(3), route_epoch: Some(4), worker_epoch: None }
}

fn wire_attrs() -> WireFileAttrs {
    WireFileAttrs { mode: 0o644, uid: 1, gid: 2, size: 3, atime_ms: 4, mtime_ms: 5, ctime_ms: 6, nlink: 7 }
}

fn attrs() -> FileAttrs {
    FileAttrs { mode: 0o644, uid: 1, gid: 2, size: 3, atime_ms: 4, mtime_ms: 5, ctime_ms: 6, nlink: 7 }
}

fn barrier() -> Barrier {
    Barrier {
        file_handle: Some(5),
        lease_id: Some(LeaseId::new(8)),
        lease_epoch: Some(9),
        fencing_token: None,
        target_size: Some(100),
        flags: 1,
        route_epoch: None,
        worker_epoch: Some(6),
    }
}

fn lease() -> LeaseProof {
    LeaseProof { lease_id: Some(LeaseId::new(8)), lease_epoch: 9, open_epoch: 10, fencing_token: None }
}

fn served(service: &MetadataInodeServiceImpl, op: InodeOp) -> String {
    let seen = InodeSeen {
        node: Some(true),
        removal: None,
        renaming: None,
        session: Some(Some(SessionPlan { inode_id: None, mount_id: None })),
        mount: Some(Some(MountId::new(3))),
        guard: Some(true),
        done: None,
    };
    format!("{:?}", service.serve(&request(op), &seen))
}

fn worked(work: InodeWork) -> String {
    format!("{:?}", InodeStep::Execute(work))
}

fn nothing() -> InodeSeen {
    InodeSeen { node: None, removal: None, renaming: None, session: None, mount: None, guard: None, done: None }
}

fn asked(step: InodeStep) -> InodeGuardCall {
    match step {
        InodeStep::AskGuard(call) => call,
        other => panic!("expected a question to the guard, got {:?}", other),
    }
}

fn fault(step: InodeStep) -> Option<InodeFault> {
    match step {
        InodeStep::Answer(answer) => answer.fault,
        other => panic!("expected an answer, got {:?}", other),
    }
}

#[test]
fn requests_are_checked_before_the_node() {
    let service = MetadataInodeServiceImpl::new();
    let mut req = request(InodeOp::Mkdir { name: "a", attrs: Some(wire_attrs()) });
    assert_eq!(service.serve(&req, &nothing()), InodeStep::CheckNode { leader: true });
    assert_eq!(
        service.serve(&request(InodeOp::Lookup { name: "a" }), &nothing()),
        InodeStep::CheckNode { leader: false }
    );
    req.op = InodeOp::Mkdir { name: "a", attrs: None };
    assert_eq!(fault(service.serve(&req, &nothing())), Some(InodeFault::Missing(Field::FileAttrs)));
    req.first = None;
    let missing = fault(service.serve(&req, &nothing())).unwrap();
    assert_eq!(missing, InodeFault::Missing(Field::ParentInodeId));
    assert_eq!(inode_service::fault_error(missing).unwrap().message(), "Missing parent_inode_id");
    let create = request(InodeOp::Create { name: "a", attrs: Some(wire_attrs()), layout: None });
    assert_eq!(fault(service.serve(&create, &nothing())), Some(InodeFault::Missing(Field::FileLayout)));
    let mut link = request(InodeOp::Link { dst_name: "b" });
    link.second = None;
    assert_eq!(fault(service.serve(&link, &nothing())), Some(InodeFault::Missing(Field::DstParentInodeId)));
    let sync = request(InodeOp::Hsync(None));
    assert_eq!(fault(service.serve(&sync, &nothing())), Some(InodeFault::MissingFsyncBody));
    let close = request(InodeOp::CloseWrite { file_handle: 5, lease: lease(), extents_ok: false, final_size: 1 });
    assert_eq!(fault(service.serve(&close, &nothing())), Some(InodeFault::BadExtent));
}

#[test]
fn removals_look_at_sticky_bits() {
    let service = MetadataInodeServiceImpl::new();
    let req = request(InodeOp::Unlink { name: "a" });
    let mut seen = nothing();
    seen.node = Some(true);
    assert_eq!(service.serve(&req, &seen), InodeStep::PlanUnlink(InodeId::new(1), "a"));
    assert_eq!(
        service.serve(&request(InodeOp::Rmdir { name: "b" }), &seen),
        InodeStep::PlanRmdir(InodeId::new(1), "b")
    );
    seen.removal = Some(Some(RemovePlan {
        parent_inode_id: InodeId::new(1),
        target_inode_id: Some(InodeId::new(9)),
    }));
    let call = asked(service.serve(&req, &seen));
    assert_eq!(call.op, AuthzOp::Delete);
    assert!(call.spec.authz && call.spec.leader);
    assert_eq!(
        call.sticky,
        Some(AuthzTarget {
            inode_id: Some(InodeId::new(9)),
            parent_inode_id: Some(InodeId::new(1)),
            file_handle: None,
        })
    );
    seen.guard = Some(true);
    assert_eq!(
        service.serve(&req, &seen),
        InodeStep::Execute(InodeWork::Unlink { parent_inode_id: InodeId::new(1), name: "a", freshness: fresh() })
    );
    seen.done = Some(true);
    assert_eq!(fault(service.serve(&req, &seen)), None);
}

#[test]
fn renames_look_at_both_sticky_bits() {
    let service = MetadataInodeServiceImpl::new();
    let req = request(InodeOp::Rename { src_name: "a", dst_name: "b", flags: 1 });
    let mut seen = nothing();
    seen.node = Some(true);
    assert_eq!(
        service.serve(&req, &seen),
        InodeStep::PlanRename { src: InodeId::new(1), src_name: "a", dst: InodeId::new(2), dst_name: "b" }
    );
    seen.renaming = Some(Some(RenamePlan {
        src_parent_inode_id: InodeId::new(1),
        src_inode_id: Some(InodeId::new(9)),
        dst_parent_inode_id: InodeId::new(2),
        dst_inode_id: Some(InodeId::new(10)),
    }));
    let call = asked(service.serve(&req, &seen));
    assert_eq!(call.sticky.unwrap().inode_id, Some(InodeId::new(9)));
    assert_eq!(call.second_sticky.unwrap().parent_inode_id, Some(InodeId::new(2)));
    assert_eq!(call.second_target.unwrap().inode_id, Some(InodeId::new(2)));
    seen.guard = Some(true);
    assert_eq!(
        service.serve(&req, &seen),
        InodeStep::Execute(InodeWork::Rename {
            src_parent_inode_id: InodeId::new(1),
            src_name: "a",
            dst_parent_inode_id: InodeId::new(2),
            dst_name: "b",
            flags: 1,
            freshness: fresh(),
        })
    );
}

#[test]
fn changed_permissions_are_dropped() {
    let service = MetadataInodeServiceImpl::new();
    let mut seen = nothing();
    seen.node = Some(true);
    seen.guard = Some(true);
    seen.done = Some(true);
    match service.serve(&request(InodeOp::SetAttr { mask: 1, attrs: Some(wire_attrs()) }), &seen) {
        InodeStep::Answer(answer) => assert_eq!(answer.invalidate, Some(InodeId::new(1))),
        other => panic!("expected an answer, got {:?}", other),
    }
    match service.serve(&request(InodeOp::GetAttr), &seen) {
        InodeStep::Answer(answer) => assert_eq!(answer.invalidate, None),
        other => panic!("expected an answer, got {:?}", other),
    }
}

#[test]
fn barriers_ask_about_the_inode_of_the_handle() {
    let service = MetadataInodeServiceImpl::new();
    let req = request(InodeOp::Hsync(Some(barrier())));
    let mut seen = nothing();
    seen.node = Some(true);
    assert_eq!(service.serve(&req, &seen), InodeStep::PlanSession(5));
    seen.session = Some(Some(SessionPlan {
        inode_id: Some(InodeId::new(7)),
        mount_id: Some(MountId::new(3)),
    }));
    assert_eq!(service.serve(&req, &seen), InodeStep::PlanMount(InodeId::new(1)));
    seen.mount = Some(Some(MountId::new(3)));
    let call = asked(service.serve(&req, &seen));
    assert_eq!(call.mount_id, Some(MountId::new(3)));
    assert_eq!(call.target.unwrap().inode_id, Some(InodeId::new(7)));
    seen.guard = Some(true);
    assert_eq!(
        service.serve(&req, &seen),
        InodeStep::Execute(InodeWork::Fsync {
            kind: BarrierKind::Hsync,
            inode_id: InodeId::new(1),
            file_handle: Some(5),
            lease_id: Some(LeaseId::new(8)),
            lease_epoch: Some(9),
            fencing_token: None,
            target_size: Some(100),
            flags: 1,
            freshness: Freshness { mount_epoch: Some(3), route_epoch: Some(4), worker_epoch: Some(6) },
        })
    );
    let unnamed = InodeRequest { first: None, ..req };
    assert_eq!(fault(service.serve(&unnamed, &seen)), Some(InodeFault::Missing(Field::InodeId)));
}

#[test]
fn the_core_is_handed_what_was_asked() {
    let service = MetadataInodeServiceImpl::new();
    let inode_id = InodeId::new(1);
    let parent_inode_id = inode_id;
    let freshness = fresh();
    assert_eq!(
        served(&service, InodeOp::Lookup { name: "a" }),
        worked(InodeWork::Lookup { parent_inode_id, name: "a" })
    );
    assert_eq!(
        served(&service, InodeOp::SetAttr { mask: 5, attrs: Some(wire_attrs()) }),
        worked(InodeWork::SetAttr { inode_id, mask: 5, attrs: attrs(), freshness })
    );
    assert_eq!(
        served(&service, InodeOp::Mkdir { name: "a", attrs: Some(wire_attrs()) }),
        worked(InodeWork::Mkdir { parent_inode_id, name: "a", attrs: attrs(), freshness })
    );
    let wire_layout = WireLayout { block_size: 64, chunk_size: 16, replication: 3 };
    let layout = FileLayout { block_size: 64, chunk_size: 16, replication: 3 };
    assert_eq!(
        served(&service, InodeOp::Create { name: "a", attrs: Some(wire_attrs()), layout: Some(wire_layout) }),
        worked(InodeWork::Create { parent_inode_id, name: "a", attrs: attrs(), layout, freshness })
    );
    assert_eq!(
        served(&service, InodeOp::ReadDir { cursor_key: &[], max_entries: 0 }),
        worked(InodeWork::ReadDir { parent_inode_id, cursor_key: None, max_entries: None })
    );
    assert_eq!(
        served(&service, InodeOp::ReadDir { cursor_key: &[7], max_entries: 9 }),
        worked(InodeWork::ReadDir { parent_inode_id, cursor_key: Some(&[7]), max_entries: Some(9) })
    );
    assert_eq!(served(&service, InodeOp::Open { flags: 2 }), worked(InodeWork::Open { inode_id, flags: 2 }));
    assert_eq!(
        served(&service, InodeOp::Release { file_handle: 5 }),
        worked(InodeWork::Release { file_handle: 5 })
    );
    assert_eq!(
        served(&service, InodeOp::CloseWrite { file_handle: 5, lease: lease(), extents_ok: true, final_size: 11 }),
        worked(InodeWork::CloseWrite { file_handle: 5, lease: lease(), final_size: 11, freshness })
    );
    assert_eq!(
        served(&service, InodeOp::RenewInodeLease { file_handle: 5, lease_id: None, lease_epoch: 2 }),
        worked(InodeWork::RenewLease { file_handle: 5, lease_id: None, lease_epoch: 2, freshness })
    );
    assert_eq!(
        served(&service, InodeOp::GetFileLayout { range: Some(WireRange { offset: 1, len: 2 }) }),
        worked(InodeWork::GetFileLayout { inode_id, range: Some(FileRange { offset: 1, len: 2 }), freshness })
    );
    assert_eq!(
        served(&service, InodeOp::Truncate { new_size: 4, lease_id: Some(LeaseId::new(8)), lease_epoch: 9 }),
        worked(InodeWork::Truncate {
            inode_id,
            new_size: 4,
            lease_id: Some(LeaseId::new(8)),
            lease_epoch: 9,
            freshness,
        })
    );
    assert_eq!(served(&service, InodeOp::Access { mode: 4 }), worked(InodeWork::Access { inode_id, mode: 4 }));
    assert_eq!(
        served(&service, InodeOp::Symlink { name: "a", target: "/b", attrs: Some(wire_attrs()) }),
        worked(InodeWork::Symlink { parent_inode_id, name: "a", target: "/b", attrs: attrs(), freshness })
    );
    assert_eq!(
        served(&service, InodeOp::Link { dst_name: "b" }),
        worked(InodeWork::Link {
            src_inode_id: inode_id,
            dst_parent_inode_id: InodeId::new(2),
            dst_name: "b",
            freshness,
        })
    );
    assert_eq!(
        served(&service, InodeOp::SetXattr { name: "user.a", value: &[1], create: true, replace: false }),
        worked(InodeWork::SetXattr {
            inode_id,
            name: "user.a",
            value: &[1],
            create: true,
            replace: false,
            freshness,
        })
    );
    assert_eq!(
        served(&service, InodeOp::GetXattr { name: "user.a" }),
        worked(InodeWork::GetXattr { inode_id, name: "user.a" })
    );
    assert_eq!(
        served(&service, InodeOp::RemoveXattr { name: "user.a" }),
        worked(InodeWork::RemoveXattr { inode_id, name: "user.a", freshness })
    );
}

#[test]
fn nodes_that_do_not_lead_only_read() {
    let follower = RaftView { is_leader: false, leader_id: None, members: None, last_applied: None };
    let service = MetadataInodeServiceImpl::new().with_readiness_gate(true).with_raft_node(follower);
    let group = Some(GroupName::new("root".to_string()));
    assert!(service.check_node(InodeRpc::ReadDir, &group).is_ok());
    assert!(service.check_node(InodeRpc::Create, &group).is_err());
    assert!(MetadataInodeServiceImpl::new()
        .with_readiness_gate(false)
        .check_node(InodeRpc::ReadDir, &group)
        .is_err());
    assert!(!inode_service::supports_scheme(AuthzScheme::RangerPath));
    assert!(inode_service::supports_scheme(AuthzScheme::AllowAll));
    let scheme = AuthzScheme::InodePermissions;
    assert_eq!(MetadataInodeServiceImpl::new().with_authz_provider(scheme).authz_scheme, scheme);
}

#[test]
fn headers_tell_how_fresh_a_client_is() {
    let header = HeaderEpochs { mount_epoch: Some(3), route_epoch: Some(4) };
    let fresh = inputs::freshness_from_header(Some(header));
    assert_eq!(fresh.mount_epoch, Some(3));
    assert_eq!(fresh.worker_epoch, None);
    let barrier = inputs::barrier_freshness(Some(header), Some(6), Some(7));
    assert_eq!(barrier.route_epoch, Some(6));
    assert_eq!(barrier.worker_epoch, Some(7));
    assert_eq!(inputs::barrier_freshness(Some(header), None, None).route_epoch, Some(4));
}

#[test]
fn layouts_keep_the_lowest_byte_of_the_copies() {
    let wire = WireLayout { block_size: 64, chunk_size: 16, replication: 258 };
    assert_eq!(
        inputs::proto_to_file_layout(Some(wire)).unwrap(),
        FileLayout { block_size: 64, chunk_size: 16, replication: 2 }
    );
    assert_eq!(
        inputs::proto_to_file_layout(None).unwrap_err().message(),
        "Missing FileLayout"
    );
}
