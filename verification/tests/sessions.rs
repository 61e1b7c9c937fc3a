//! Write sessions.

use beryl_metadata::ids::{BlockId, BlockIndex, ClientId, CallId, DataHandleId, InodeId, LeaseId, MountId};
use beryl_metadata::placement::BlockFormatId;
use beryl_metadata::session_registry::{ActiveLease, CreateSessionInput, SessionRegistry};
use beryl_metadata::write_session;
use beryl_metadata::write_session::{WriteSessionManager, WriterIdentity};
use beryl_metadata::write_target::{FencingToken, WriteMode, WriteTarget};

fn create_input(inode_id: InodeId) -> CreateSessionInput {
    let data_handle_id = DataHandleId::new(inode_id.as_raw());
    CreateSessionInput {
        inode_id,
        mount_id: MountId::new(1),
        data_handle_id,
        lease_id: LeaseId::new(inode_id.as_raw().into()),
        lease_epoch: 1,
        fencing_token: FencingToken {
            block_id: BlockId::new(data_handle_id, BlockIndex::new(0)),
            owner: ClientId::new(1),
            epoch: 1,
        },
        open_epoch: 1,
        base_size: 0,
        mode: WriteMode::Write,
        write_targets: Vec::new(),
    }
}

fn target(index: u32, file_offset: u64, effective_len: u64) -> WriteTarget {
    WriteTarget {
        block_id: BlockId::new(DataHandleId::new(7), BlockIndex::new(index)),
        file_offset,
        effective_len,
        block_format_id: BlockFormatId { raw: 1 },
        block_size: 64,
        chunk_size: 16,
    }
}

fn manager_input(inode_id: InodeId, write_targets: Vec<WriteTarget>) -> write_session::CreateSessionInput {
    let input = create_input(inode_id);
    write_session::CreateSessionInput {
        inode_id: input.inode_id,
        mount_id: input.mount_id,
        data_handle_id: input.data_handle_id,
        lease_id: input.lease_id,
        lease_epoch: input.lease_epoch,
        fencing_token: input.fencing_token,
        open_epoch: input.open_epoch,
        base_size: input.base_size,
        mode: input.mode,
        write_targets,
        writer_identity: WriterIdentity { client_id: ClientId::new(3), call_id: CallId { raw: 4 } },
    }
}

#[test]
fn create_get_and_remove_session() {
    let mut registry = SessionRegistry::default();
    let inode_id = InodeId::new(7);

    let handle = registry.create_session(create_input(inode_id));

    assert_eq!(
        registry.get_session(handle).map(|session| session.inode_id),
        Some(inode_id)
    );
    assert_eq!(
        registry.remove_session(handle).map(|session| session.inode_id),
        Some(inode_id)
    );
    assert!(registry.get_session(handle).is_none());
}

#[test]
fn session_handles_are_unique() {
    let mut registry = SessionRegistry::default();
    let mut handles: Vec<u64> = (0..8 * 32).map(|i| registry.create_session(create_input(InodeId::new(1 + i)))).collect();
    handles.sort_unstable();
    handles.dedup();
    assert_eq!(handles.len(), 8 * 32);
}

#[test]
fn targets_are_issued_in_line() {
    let mut registry = SessionRegistry::new();
    let mut input = create_input(InodeId::new(7));
    input.write_targets = vec![target(0, 0, 64), target(1, 64, 64)];
    let handle = registry.create_session(input);

    let first = registry.allocate_target(handle, Some(10), |_t: &WriteTarget| true).unwrap();
    assert_eq!(first, target(0, 0, 10));
    let second = registry.allocate_target(handle, None, |_t: &WriteTarget| true).unwrap();
    assert_eq!(second.file_offset, 10);
    assert_eq!(second.block_id, target(1, 0, 0).block_id);
    assert!(registry.allocate_target(handle, None, |_t: &WriteTarget| true).is_none());
    assert!(registry.allocate_target(handle + 1, None, |_t: &WriteTarget| true).is_none());
}

#[test]
fn targets_of_a_wrong_shape_are_not_issued() {
    let mut registry = SessionRegistry::new();
    let mut input = create_input(InodeId::new(7));
    input.write_targets = vec![target(0, 0, 64)];
    let handle = registry.create_session(input);
    assert!(registry.allocate_target(handle, None, |_t: &WriteTarget| false).is_none());
    assert_eq!(registry.get_session(handle).unwrap().issued_targets.len(), 0);
}

#[test]
fn inactive_sessions_of_an_inode_are_removed() {
    let mut registry = SessionRegistry::new();
    let kept = registry.create_session(create_input(InodeId::new(7)));
    let mut other_epoch = create_input(InodeId::new(7));
    other_epoch.lease_epoch = 2;
    let dropped = registry.create_session(other_epoch);
    let elsewhere = registry.create_session(create_input(InodeId::new(8)));

    let active = vec![ActiveLease { inode_id: InodeId::new(7), lease_id: LeaseId::new(7), lease_epoch: 1 }];
    assert_eq!(registry.remove_inactive_for_inode(InodeId::new(7), &active), 1);
    assert!(registry.get_session(kept).is_some());
    assert!(registry.get_session(dropped).is_none());
    assert!(registry.get_session(elsewhere).is_some());
}

#[test]
fn expired_sessions_are_cleaned_up() {
    let mut manager = WriteSessionManager::new(100);
    let old = manager.create_session_at(manager_input(InodeId::new(7), Vec::new()), 1_000);
    let young = manager.create_session_at(manager_input(InodeId::new(7), Vec::new()), 1_080);
    assert!(manager.has_active_session(InodeId::new(7)));
    assert_eq!(manager.get_sessions_for_inode(InodeId::new(7)).len(), 2);

    assert_eq!(manager.cleanup_expired_at(1_150), 1);
    assert!(manager.get_session(old).is_none());
    assert_eq!(manager.get_session(young).unwrap().created_at_ms, 1_080);
    assert_eq!(manager.get_session(young).unwrap().inode_id, InodeId::new(7));
    assert_eq!(manager.get_sessions_for_inode(InodeId::new(7)), vec![young]);
    assert!(!manager.has_active_session(InodeId::new(8)));
}

#[test]
fn sessions_are_stamped_by_the_wall_clock() {
    let mut manager = WriteSessionManager::default();
    let handle = manager.create_session(manager_input(InodeId::new(7), vec![target(0, 0, 64)]));
    // Any day after the first of January 2020.
    assert!(manager.get_session(handle).unwrap().created_at_ms > 1_577_836_800_000);
    assert_eq!(manager.cleanup_expired(), 0);
    assert_eq!(manager.allocate_target(handle, None), Some(target(0, 0, 64)));
    assert_eq!(manager.remove_session(handle).unwrap().writer_identity.call_id, CallId { raw: 4 });
    assert!(manager.allocate_target(handle, None).is_none());
}
