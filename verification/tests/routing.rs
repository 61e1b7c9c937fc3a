//! Routing and synchronization of clients.

use beryl_metadata::ids::{GroupName, RaftLogId, ShardGroupId};
use beryl_metadata::raft::{RaftMember, RaftView};
use beryl_metadata::rpc;
use beryl_metadata::rpc::{ErrorClass, FailureKind, RefreshReason, RpcErrorCode, RpcStatus};
use beryl_metadata::service::msync::{MsyncAnswer, MsyncHandler, SyncHeader};
use beryl_metadata::service::route_service::{
    GroupStateWatermark, HeaderRead, MetadataRouteServiceImpl, MsyncHeader, RouteMsyncAnswer, RouteRpc,
};

fn raft(is_leader: bool, index: Option<u64>) -> RaftView {
    RaftView {
        is_leader,
        leader_id: Some(2),
        members: Some(vec![
            RaftMember { node_id: 1, address: "a:1".to_string() },
            RaftMember { node_id: 2, address: "b:2".to_string() },
        ]),
        last_applied: index.map(|i| RaftLogId::new(1, 2, i)),
    }
}

fn watermark(group: u64, index: u64) -> GroupStateWatermark {
    GroupStateWatermark { group_id: ShardGroupId::new(group), state_id: RaftLogId::new(1, 2, index) }
}

fn header(group: Option<u64>, state: Vec<GroupStateWatermark>) -> HeaderRead {
    HeaderRead::Read(MsyncHeader { group_id: group.map(ShardGroupId::new), state })
}

fn error(answer: RouteMsyncAnswer) -> rpc::CanonicalError {
    match answer {
        RouteMsyncAnswer::Error { error, .. } => error,
        other => panic!("expected an error, got {:?}", other),
    }
}

#[test]
fn reached_states_are_told_by_leaders() {
    let service = MetadataRouteServiceImpl::new(ShardGroupId::new(4));
    match service.msync(&raft(true, Some(9)), &header(None, vec![watermark(4, 9)])) {
        RouteMsyncAnswer::Synced { group_id, state_id } => {
            assert_eq!(group_id, ShardGroupId::new(4));
            assert_eq!(state_id, RaftLogId::new(1, 2, 9));
        }
        other => panic!("expected a state, got {:?}", other),
    }
    let behind = error(service.msync(&raft(true, Some(8)), &header(None, vec![watermark(4, 9)])));
    assert_eq!(behind.class, ErrorClass::Retryable);
    assert_eq!(behind.retry_after_ms, Some(10));
    let follower = error(service.msync(&raft(false, Some(9)), &header(Some(4), vec![])));
    assert_eq!(follower.reason, Some(RefreshReason::NotLeader));
    let elsewhere = error(service.msync(&raft(true, Some(9)), &header(Some(5), vec![])));
    assert_eq!(elsewhere.code, RpcErrorCode::RouteEpochMismatch);
    assert_eq!(elsewhere.message, "requested group 5 is not served by this metadata runtime");
}

#[test]
fn headers_speak_of_one_group() {
    let service = MetadataRouteServiceImpl::new(ShardGroupId::new(4));
    let mixed = error(service.msync(&raft(true, Some(9)), &header(None, vec![watermark(4, 1), watermark(5, 1)])));
    assert_eq!(mixed.class, ErrorClass::Fatal);
    assert_eq!(mixed.message, "Msync currently supports exactly one group watermark");
    let torn = error(service.msync(&raft(true, Some(9)), &header(Some(3), vec![watermark(4, 1)])));
    assert_eq!(
        torn.message,
        "Msync RequestHeader group_id 3 does not match state watermark group_id 4"
    );
    let none = error(service.msync(&raft(true, Some(9)), &header(None, vec![])));
    assert_eq!(none.message, "MsyncRequestProto requires header.group_id or one state watermark");
    let missing = error(service.msync(&raft(true, Some(9)), &HeaderRead::Missing));
    assert_eq!(missing.code, RpcErrorCode::InvalidHeader);
    let bad = error(service.msync(&raft(true, Some(9)), &HeaderRead::Invalid("torn".to_string())));
    assert_eq!(bad.message, "invalid Msync RequestHeader: torn");
    assert_eq!(MetadataRouteServiceImpl::unsupported(RouteRpc::RefreshRoute).class, ErrorClass::Fatal);
}

#[test]
fn groups_are_synchronized_by_name() {
    let handler = MsyncHandler::new(GroupName::new("root".to_string()));
    let named = |name: &str| SyncHeader::Read(Some(GroupName::new(name.to_string())));
    assert!(matches!(
        handler.handle(&raft(true, Some(9)), &named("root")),
        MsyncAnswer::Synced { .. }
    ));
    let failed = |raft: RaftView, header: SyncHeader| match handler.handle(&raft, &header) {
        MsyncAnswer::Error { error, .. } => error,
        other => panic!("expected an error, got {:?}", other),
    };
    assert_eq!(failed(raft(false, None), named("root")).kind, FailureKind::NotLeader);
    assert_eq!(failed(raft(true, None), named("root")).kind, FailureKind::NodeUnavailable);
    let other = failed(raft(true, None), named("other"));
    assert_eq!(other.kind, FailureKind::OwnerGroupMismatch);
    assert_eq!(other.message, "requested group other is not served by this metadata runtime");
    assert_eq!(failed(raft(true, None), SyncHeader::Read(None)).kind, FailureKind::InvalidHeader);
}

#[test]
fn leaders_are_found_among_the_members() {
    assert_eq!(raft(false, None).leader_address(), Some("b:2".to_string()));
    let mut lost = raft(false, None);
    lost.leader_id = Some(3);
    assert_eq!(lost.leader_address(), None);
    assert_eq!(rpc::status_of(ErrorClass::Success), RpcStatus::Success);
    assert_eq!(rpc::status_of(ErrorClass::Retryable), RpcStatus::Error);
    assert!(RaftLogId::new(1, 9, 9).is_before(&RaftLogId::new(2, 0, 0)));
    assert!(RaftLogId::new(2, 0, 0).has_reached(&RaftLogId::new(1, 9, 9)));
}
