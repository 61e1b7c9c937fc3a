//! What a request must pass before it is served.

use beryl_metadata::error::{ErrorKind, MetadataError};
use beryl_metadata::ids::{GroupName, MountId};
use beryl_metadata::raft::{RaftMember, RaftView};
use beryl_metadata::rpc::{FailureKind, RecoveryAction, RpcErrorDetail};
use beryl_metadata::service::fs_types::DataIoOp;
use beryl_metadata::service::guard::{
    DataIoPolicy, GuardChain, GuardError, GuardFailure, MountEntry, MountLookup, PermissionBits, ROOT_MOUNT_PREFIX,
};

fn group_name(raw: &str) -> GroupName {
    GroupName::new(raw.to_string())
}

fn detail(failure: GuardFailure) -> RpcErrorDetail {
    match failure.err {
        GuardError::Detail(detail) => detail,
        GuardError::Error(error) => panic!("expected a detail, got {:?}", error),
    }
}

fn assert_unavailable(failure: GuardFailure) {
    let err = detail(failure);
    assert_eq!(err.kind, FailureKind::NodeUnavailable);
    assert!(matches!(err.recovery, RecoveryAction::Retry { after_ms: Some(1000) }));
}

fn root_entry() -> MountEntry {
    MountEntry {
        mount_id: MountId::new(1),
        mount_prefix: ROOT_MOUNT_PREFIX.to_string(),
        data_io_policy: DataIoPolicy::Forbid,
        namespace_owner_group_name: group_name("root"),
        mount_epoch: 1,
    }
}

fn follower() -> RaftView {
    RaftView {
        is_leader: false,
        leader_id: Some(2),
        members: Some(vec![
            RaftMember { node_id: 1, address: "10.0.0.1:9000".to_string() },
            RaftMember { node_id: 2, address: "10.0.0.2:9000".to_string() },
        ]),
        last_applied: None,
    }
}

fn leader() -> RaftView {
    RaftView { is_leader: true, leader_id: Some(1), members: None, last_applied: None }
}

#[test]
fn readiness_guard_blocks_when_not_ready() {
    let chain = GuardChain::new().with_readiness_gate(Some(false));

    assert_unavailable(chain.check_meta_read().unwrap_err());
}

#[test]
fn check_meta_write_checks_readiness_then_leadership() {
    let chain = GuardChain::new().with_readiness_gate(Some(false));

    let err = chain.check_meta_write(&None).unwrap_err();
    assert_unavailable(err);
    let message = detail(chain.check_meta_write(&None).unwrap_err()).message;
    assert_eq!(message, "root mount not ready");
}

#[test]
fn leadership_guard_without_raft_node_returns_unavailable() {
    let chain = GuardChain::new();

    assert_unavailable(chain.check_meta_write(&None).unwrap_err());
}

#[test]
fn leadership_guard_returns_not_leader_for_nonleader_raft_node() {
    let chain = GuardChain::new().with_raft_node(Some(follower()));

    let err = detail(chain.check_meta_write(&Some(group_name("g1"))).unwrap_err());

    assert_eq!(err.kind, FailureKind::NotLeader);
    match err.recovery {
        RecoveryAction::RefreshMetadata(hint) => {
            assert_eq!(hint.leader_endpoint, Some("10.0.0.2:9000".to_string()));
            assert_eq!(hint.group_name, Some(group_name("g1")));
        }
        other => panic!("expected a refresh, got {:?}", other),
    }
}

#[test]
fn check_data_write_checks_leadership_before_data_io_policy() {
    let chain = GuardChain::new();

    let err = chain.check_data_write(&None, MountId::new(1), MountLookup::Found(root_entry())).unwrap_err();
    assert_unavailable(err);
}

#[test]
fn data_io_guard_forbids_root() {
    let chain = GuardChain::new();

    let failure = chain.check_data_read(MountId::new(1), MountLookup::Found(root_entry())).unwrap_err();
    assert_eq!(failure.group_name, Some(group_name("root")));
    assert_eq!(failure.mount_epoch, Some(1));
    let err = detail(failure);
    assert_eq!(err.kind, FailureKind::NotSupported);
    assert!(matches!(err.recovery, RecoveryAction::Fail));
    assert!(err.message.contains("RootDataIoForbidden"));
    assert_eq!(err.message, "RootDataIoForbidden: op=read mount_prefix=/");
}

#[test]
fn permission_methods_use_current_none_policy() {
    let chain = GuardChain::new();

    chain.check_perm(PermissionBits::Read, "/file").unwrap();
    chain.check_parent_perm(PermissionBits::Write, "/file").unwrap();
    chain.check_super().unwrap();
}

#[test]
fn mounts_without_a_file_system_forbid_data() {
    let chain = GuardChain::new().with_raft_node(Some(leader()));
    let mut entry = root_entry();
    entry.mount_prefix = "/data".to_string();
    let failure = chain.check_data_write(&None, MountId::new(1), MountLookup::Found(entry)).unwrap_err();
    assert_eq!(detail(failure).message, "MountHasNoUfs: op=write mount_prefix=/data");
}

#[test]
fn absent_mounts_are_told() {
    let chain = GuardChain::new().with_readiness_gate(Some(true));
    let absent = chain.check_data_read(MountId::new(9), MountLookup::Absent).unwrap_err();
    match absent.err {
        GuardError::Error(error) => {
            assert_eq!(error.kind(), ErrorKind::NotFound);
            assert_eq!(error.message(), "Mount not found: MountId(9)");
        }
        other => panic!("expected an error, got {:?}", other),
    }
    let failed = MountLookup::Failed(MetadataError::Internal("table poisoned".to_string()));
    let failed = chain.check_data_read(MountId::new(9), failed).unwrap_err();
    assert!(matches!(failed.err, GuardError::Error(MetadataError::Internal(_))));
}

#[test]
fn leaders_write_and_everyone_ready_reads() {
    let chain = GuardChain::new().with_readiness_gate(Some(true)).with_raft_node(Some(leader()));
    let mut entry = root_entry();
    entry.data_io_policy = DataIoPolicy::Allow;
    chain.check_meta_read().unwrap();
    chain.check_meta_write(&None).unwrap();
    chain.check_data_write(&None, MountId::new(1), MountLookup::Found(entry)).unwrap();
    assert_eq!(DataIoOp::OpenWrite.as_str(), "open_write");
}
