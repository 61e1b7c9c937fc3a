//! Requests of workers: registration, heartbeats and block reports.

use beryl_metadata::clock::Moment;
use beryl_metadata::error::MetadataError;
use beryl_metadata::ids::{
    BlockId, BlockIndex, CallId, ClientId, DataHandleId, GroupName, RaftLogId, WorkerId, WorkerRunId,
};
use beryl_metadata::raft::{RaftMember, RaftView};
use beryl_metadata::rpc::{CanonicalError, ErrorClass, ErrorReply, RefreshReason, RpcErrorCode, RpcStatus};
use beryl_metadata::service::inputs::DedupKey;
use beryl_metadata::worker::manager::WorkerManager;
use beryl_metadata::worker::service;
use beryl_metadata::worker::service::{
    AdvertisedEndpoint, BlockReportRequest, CapacityInfo, HeartbeatRequest, LoadInfo, MetadataWorkerServiceImpl,
    PersistReply, RegisterAnswer, RegisterRequest, RegisterStep, ReportBody, Sender, WireBlock, WireBlockState,
    WireDelta, WireDeltaOp,
};
use beryl_metadata::worker::types::{BlockReportBlock, BlockReportBlockState, HealthStatus};

fn group_name(raw: &str) -> GroupName {
    GroupName::new(raw.to_string())
}

fn test_worker_run_id() -> WorkerRunId {
    WorkerRunId::new(0x550e8400_e29b_41d4_a716_446655440000)
}

fn second_worker_run_id() -> WorkerRunId {
    WorkerRunId::new(0x550e8400_e29b_41d4_a716_446655440001)
}

fn leader_raft() -> RaftView {
    RaftView {
        is_leader: true,
        leader_id: Some(1),
        members: Some(vec![RaftMember { node_id: 1, address: "127.0.0.1:7001".to_string() }]),
        last_applied: Some(RaftLogId::new(1, 1, 5)),
    }
}

fn nonleader_raft() -> RaftView {
    RaftView { is_leader: false, leader_id: None, members: None, last_applied: None }
}

fn sender(group: &str, worker_id: WorkerId, worker_run_id: WorkerRunId) -> Sender {
    Sender { group_name: Ok(group_name(group)), worker_id: worker_id.as_raw(), worker_run_id: Ok(worker_run_id) }
}

fn endpoint(port: u32) -> AdvertisedEndpoint {
    AdvertisedEndpoint {
        protocol: "grpc".to_string(),
        host: "127.0.0.1".to_string(),
        port,
        host_is_wildcard: false,
    }
}

fn register_request(group: &str, worker_id: u64, worker_run_id: WorkerRunId, port: u32) -> RegisterRequest {
    RegisterRequest {
        dedup: DedupKey { client_id: ClientId::new(5), call_id: CallId { raw: 77 } },
        sender: sender(group, WorkerId::new(worker_id), worker_run_id),
        worker_net_protocol: 1,
        endpoint: Some(endpoint(port)),
    }
}

fn heartbeat_request(worker_id: WorkerId, worker_run_id: WorkerRunId, heartbeat_seq: u64, port: u32) -> HeartbeatRequest {
    HeartbeatRequest {
        sender: sender("root", worker_id, worker_run_id),
        heartbeat_seq,
        capacity: Some(CapacityInfo { total_bytes: 1_000, used_bytes: 100, available_bytes: 900 }),
        load: Some(LoadInfo { active_reads: 0, active_writes: 0 }),
        health: 1,
        worker_net_protocol: 1,
        endpoint: Some(endpoint(port)),
    }
}

fn wire_block(block_id: BlockId) -> WireBlock {
    WireBlock {
        block_id: Some(block_id),
        data_handle_id: block_id.data_handle_id.as_raw(),
        block_index: block_id.index.as_raw(),
        block_stamp: 100,
        effective_len: 4096,
        committed_length: 4096,
        block_state: WireBlockState::Ready,
    }
}

fn service_with(worker_manager: WorkerManager) -> MetadataWorkerServiceImpl {
    MetadataWorkerServiceImpl::new(worker_manager, group_name("root"))
}

fn registered(worker_id: WorkerId, port: u32) -> WorkerManager {
    let mut manager = WorkerManager::new(60);
    manager
        .register_worker_run(
            &group_name("root"),
            worker_id,
            format!("127.0.0.1:{}", port),
            1,
            test_worker_run_id(),
            None,
        )
        .unwrap();
    manager
}

fn heard(worker_id: WorkerId, port: u32) -> WorkerManager {
    let mut manager = registered(worker_id, port);
    manager
        .record_heartbeat(
            &group_name("root"),
            worker_id,
            test_worker_run_id(),
            1,
            &format!("127.0.0.1:{}", port),
            1,
            1_000,
            500,
            500,
            0,
            0,
            HealthStatus::Healthy,
        )
        .unwrap();
    manager
}

fn canonical(reply: ErrorReply) -> CanonicalError {
    match reply {
        ErrorReply::Canonical(error) => error,
        ErrorReply::Error(error) => panic!("expected a canonical error, got {:?}", error),
    }
}

fn message(reply: ErrorReply) -> String {
    match reply {
        ErrorReply::Canonical(error) => error.message,
        ErrorReply::Error(error) => error.message(),
    }
}

/// Registers as a leader does: what is proposed is applied, and the log confirms it.
fn register(service: &mut MetadataWorkerServiceImpl, req: &RegisterRequest) -> Result<RegisterAnswer, ErrorReply> {
    match service.register_worker(&leader_raft(), req) {
        RegisterStep::Refuse(reply) => Err(reply),
        RegisterStep::Propose(command) => {
            service
                .worker_manager
                .register_worker_run(
                    &command.group_name,
                    command.worker_id,
                    command.address.clone(),
                    command.worker_net_protocol,
                    command.worker_run_id,
                    None,
                )
                .unwrap();
            let upserted = PersistReply::Upserted(command.worker_id);
            service::finish_registration(command, upserted)
        }
    }
}

#[test]
fn the_proposed_registration_is_the_one_asked_for() {
    let mut service = service_with(WorkerManager::new(60));
    let req = register_request("root", 7, test_worker_run_id(), 9000);

    let command = match service.register_worker(&leader_raft(), &req) {
        RegisterStep::Propose(command) => command,
        RegisterStep::Refuse(_) => panic!("turned down"),
    };
    assert_eq!(command.dedup, req.dedup);
    assert_eq!(command.group_name, group_name("root"));
    assert_eq!(command.worker_id, WorkerId::new(7));
    assert_eq!(command.worker_run_id, test_worker_run_id());
    assert_eq!(command.worker_net_protocol, 1);
    assert_eq!(command.fault_domain, None);
}

#[test]
fn register_worker_persist_helper_propagates_propose_failure() {
    let result =
        service::persist_worker_descriptor(PersistReply::Failed(MetadataError::Internal("propose failed".to_string())));

    assert!(result.is_err());
    assert!(result.unwrap_err().message().contains("propose failed"));
}

#[test]
fn register_worker_persist_helper_returns_accepted_worker_id() {
    let worker_id = WorkerId::new(7);

    let returned_worker_id = service::persist_worker_descriptor(PersistReply::Upserted(worker_id)).unwrap();
    assert_eq!(returned_worker_id, worker_id);
}

#[test]
fn register_worker_persist_helper_rejects_unexpected_response() {
    let result = service::persist_worker_descriptor(PersistReply::Other("None".to_string()));

    assert!(result.is_err());
    assert!(result.unwrap_err().message().contains("unexpected Raft response"));
}

#[test]
fn block_report_applies_soft_state_without_maintenance_signal() {
    let worker_id = WorkerId::new(7);
    let block_id = BlockId::new(DataHandleId::new(70), BlockIndex::new(0));
    let mut service = service_with(heard(worker_id, 9090));

    let response = service
        .block_report(&BlockReportRequest {
            sender: sender("root", worker_id, test_worker_run_id()),
            report_seq: 1,
            report: Some(ReportBody::Full { batch_seq: 0, final_batch: true, blocks: vec![wire_block(block_id)] }),
        })
        .unwrap();

    assert_eq!(response.report_seq, 1);
    assert_eq!(response.next_delta_seq, 0);
    assert_eq!(
        service.worker_manager.get_block_locations(&group_name("root"), block_id),
        vec![worker_id]
    );
}

#[test]
fn follower_block_report_updates_local_view_without_commands() {
    let worker_id = WorkerId::new(8);
    let block_id = BlockId::new(DataHandleId::new(80), BlockIndex::new(0));
    let mut manager = heard(worker_id, 9091);
    manager
        .receive_full_block_report(
            &group_name("root"),
            worker_id,
            test_worker_run_id(),
            3,
            0,
            true,
            vec![BlockReportBlock {
                block_id,
                data_handle_id: block_id.data_handle_id.as_raw(),
                block_index: block_id.index.as_raw(),
                block_stamp: 100,
                effective_len: 4096,
                committed_length: 4096,
                block_state: BlockReportBlockState::Ready,
            }],
        )
        .unwrap();
    let mut service = service_with(manager);

    let response = service
        .block_report(&BlockReportRequest {
            sender: sender("root", worker_id, test_worker_run_id()),
            report_seq: 3,
            report: Some(ReportBody::Delta {
                delta_seq: 0,
                deltas: vec![WireDelta { op: WireDeltaOp::Remove, block: Some(wire_block(block_id)) }],
            }),
        })
        .unwrap();

    assert_eq!(response.next_delta_seq, 1);
    assert!(service.worker_manager.get_block_locations(&group_name("root"), block_id).is_empty());
}

#[test]
fn register_worker_invalid_request_returns_header_error() {
    let mut service = service_with(WorkerManager::new(60));
    let mut req = register_request("root", 9, test_worker_run_id(), 9090);
    req.endpoint = None;

    match service.register_worker(&leader_raft(), &req) {
        RegisterStep::Refuse(reply) => {
            assert!(matches!(reply, ErrorReply::Error(MetadataError::InvalidArgument(_))));
            assert!(message(reply).contains("Missing advertised_endpoint"));
        }
        RegisterStep::Propose(command) => panic!("proposed {:?}", command),
    }
}

#[test]
fn follower_register_worker_returns_not_leader_header_error() {
    let mut service = service_with(WorkerManager::new(60));
    let req = register_request("root", 123, test_worker_run_id(), 9090);

    match service.register_worker(&nonleader_raft(), &req) {
        RegisterStep::Refuse(reply) => {
            assert!(matches!(reply, ErrorReply::Error(MetadataError::LeaderChanged(_))));
        }
        RegisterStep::Propose(command) => panic!("proposed {:?}", command),
    }
}

#[test]
fn register_worker_response_confirms_worker_id_and_run_id() {
    let mut service = service_with(WorkerManager::new(60));

    let response = register(&mut service, &register_request("root", 123, test_worker_run_id(), 9090)).unwrap();

    assert_eq!(response.group_name, group_name("root"));
    assert_eq!(response.worker_id, 123);
    assert_eq!(response.accepted_worker_run_id, "550e8400-e29b-41d4-a716-446655440000");
    let descriptor = service.worker_manager.get_descriptor(&group_name("root"), WorkerId::new(123)).unwrap();
    assert_eq!(descriptor.address, "127.0.0.1:9090");
    assert_eq!(
        service
            .worker_manager
            .get_registration(&group_name("root"), WorkerId::new(123))
            .expect("live registration")
            .worker_run_id,
        test_worker_run_id()
    );
}

#[test]
fn register_worker_service_does_not_mutate_live_manager_without_apply_observer() {
    let mut service = service_with(WorkerManager::new(60));
    let req = register_request("root", 124, test_worker_run_id(), 9091);

    assert!(matches!(service.register_worker(&leader_raft(), &req), RegisterStep::Propose(_)));
    assert!(service.worker_manager.get_descriptor(&group_name("root"), WorkerId::new(124)).is_none());
    assert!(service.worker_manager.get_registration(&group_name("root"), WorkerId::new(124)).is_none());
}

#[test]
fn register_worker_rejects_different_live_worker_run_id() {
    let mut service = service_with(WorkerManager::new(60));

    register(&mut service, &register_request("root", 123, test_worker_run_id(), 9090)).unwrap();

    let second = register(&mut service, &register_request("root", 123, second_worker_run_id(), 9090)).unwrap_err();
    assert!(matches!(second, ErrorReply::Error(MetadataError::AlreadyExists(_))));
    assert!(message(second).contains("already registered"));
    assert_eq!(
        service
            .worker_manager
            .get_registration(&group_name("root"), WorkerId::new(123))
            .expect("registration")
            .worker_run_id,
        test_worker_run_id()
    );

    register(&mut service, &register_request("root", 124, second_worker_run_id(), 9091)).unwrap();
}

#[test]
fn register_worker_rejects_non_served_group_without_mutating_worker_manager() {
    let mut service = service_with(WorkerManager::new(60));

    let reply = register(&mut service, &register_request("other", 123, test_worker_run_id(), 9090)).unwrap_err();
    assert!(matches!(reply, ErrorReply::Error(MetadataError::InvalidArgument(_))));
    assert!(message(reply).contains("served metadata group"));
    assert!(service.worker_manager.get_descriptor(&group_name("other"), WorkerId::new(123)).is_none());
}

#[test]
fn heartbeat_unknown_worker_returns_header_error() {
    let mut service = service_with(WorkerManager::new(60));

    let req = heartbeat_request(WorkerId::new(99), test_worker_run_id(), 1, 9090);
    let error = canonical(service.heartbeat(&nonleader_raft(), &req).unwrap_err());
    assert_eq!(error.class, ErrorClass::NeedRefresh);
    assert_eq!(error.code, RpcErrorCode::WorkerNotRegistered);
    assert_eq!(error.reason, Some(RefreshReason::NeedRegister));
}

#[test]
fn heartbeat_missing_live_registration_returns_need_register() {
    let worker_id = WorkerId::new(10);
    let mut manager = WorkerManager::new(60);
    manager
        .register_worker(&group_name("root"), worker_id, "127.0.0.1:9090".to_string(), 1, None)
        .unwrap();
    let mut service = service_with(manager);

    let req = heartbeat_request(worker_id, test_worker_run_id(), 1, 9090);
    let error = canonical(service.heartbeat(&nonleader_raft(), &req).unwrap_err());
    assert_eq!(error.class, ErrorClass::NeedRefresh);
    assert_eq!(error.code, RpcErrorCode::WorkerNotRegistered);
    assert_eq!(error.reason, Some(RefreshReason::NeedRegister));
}

#[test]
fn heartbeat_stale_worker_run_returns_run_mismatch() {
    let worker_id = WorkerId::new(11);
    let mut service = service_with(registered(worker_id, 9090));

    let req = heartbeat_request(worker_id, second_worker_run_id(), 1, 9090);
    let error = canonical(service.heartbeat(&nonleader_raft(), &req).unwrap_err());
    assert_eq!(error.class, ErrorClass::NeedRefresh);
    assert_eq!(error.code, RpcErrorCode::WorkerRunMismatch);
    assert_eq!(error.reason, Some(RefreshReason::WorkerRunMismatch));
}

#[test]
fn heartbeat_expired_live_registration_returns_need_register_not_run_mismatch() {
    let worker_id = WorkerId::new(110);
    let start = Moment { mono_ns: 1_000_000_000, wall_ms: 1_000 };
    let later = Moment { mono_ns: 2_100_000_000, wall_ms: 2_100 };
    let mut manager = WorkerManager::new(1);
    manager
        .register_worker_run_at(
            &group_name("root"),
            worker_id,
            "127.0.0.1:9090".to_string(),
            1,
            test_worker_run_id(),
            None,
            start,
        )
        .unwrap();
    let mut service = service_with(manager);

    let req = heartbeat_request(worker_id, second_worker_run_id(), 1, 9090);
    let error = canonical(service.heartbeat_at(&nonleader_raft(), &req, later).unwrap_err());
    assert_eq!(error.class, ErrorClass::NeedRefresh);
    assert_eq!(error.code, RpcErrorCode::WorkerNotRegistered);
    assert_eq!(error.reason, Some(RefreshReason::NeedRegister));
}

#[test]
fn follower_heartbeat_accepts_liveness_but_returns_empty_commands() {
    let worker_id = WorkerId::new(12);
    let mut service = service_with(registered(worker_id, 9090));

    let req = heartbeat_request(worker_id, test_worker_run_id(), 7, 9090);
    let response = service.heartbeat(&nonleader_raft(), &req).unwrap();

    assert_eq!(response.group_name, group_name("root"));
    assert_eq!(response.worker_id, worker_id.as_raw());
    assert_eq!(response.accepted_worker_run_id, "550e8400-e29b-41d4-a716-446655440000");
    assert!(!response.server_is_leader);
    assert!(service.worker_manager.is_worker_live(&group_name("root"), worker_id));
}

#[test]
fn leader_heartbeat_accepts_liveness_without_raft_propose() {
    let worker_id = WorkerId::new(13);
    let mut service = service_with(registered(worker_id, 9090));

    let req = heartbeat_request(worker_id, test_worker_run_id(), 1, 9090);
    let response = service.heartbeat(&leader_raft(), &req).unwrap();

    assert!(response.server_is_leader);
    assert_eq!(response.heartbeat_interval_ms, 1_000);
    assert_eq!(response.liveness_timeout_ms, 60_000);
    assert!(service.worker_manager.is_worker_live(&group_name("root"), worker_id));
}

#[test]
fn heartbeat_wrong_group_returns_group_mismatch() {
    let mut service = service_with(WorkerManager::new(60));

    let mut req = heartbeat_request(WorkerId::new(14), test_worker_run_id(), 1, 9090);
    req.sender.group_name = Ok(group_name("other"));

    let error = canonical(service.heartbeat(&nonleader_raft(), &req).unwrap_err());
    assert_eq!(error.class, ErrorClass::Fatal);
    assert_eq!(error.code, RpcErrorCode::InvalidArgument);
    assert_eq!(error.reason, Some(RefreshReason::GroupMismatch));
}

#[test]
fn heartbeat_descriptor_mismatch_returns_need_register_header_error() {
    let worker_id = WorkerId::new(9);
    let mut service = service_with(registered(worker_id, 9099));

    let req = heartbeat_request(worker_id, test_worker_run_id(), 1, 9098);
    let error = canonical(service.heartbeat(&leader_raft(), &req).unwrap_err());
    assert_eq!(error.class, ErrorClass::NeedRefresh);
    assert_eq!(error.code, RpcErrorCode::WorkerDescriptorMismatch);
    assert_eq!(error.reason, Some(RefreshReason::NeedRegister));
    assert!(error.message.contains("registration"));
}

#[test]
fn block_report_invalid_entry_returns_header_error() {
    let worker_id = WorkerId::new(99);
    let mut manager = heard(worker_id, 9099);
    manager
        .receive_full_block_report(&group_name("root"), worker_id, test_worker_run_id(), 1, 0, true, Vec::new())
        .unwrap();
    let mut service = service_with(manager);

    let reply = service
        .block_report(&BlockReportRequest {
            sender: sender("root", worker_id, test_worker_run_id()),
            report_seq: 1,
            report: Some(ReportBody::Delta {
                delta_seq: 0,
                deltas: vec![WireDelta { op: WireDeltaOp::AddUpdate, block: None }],
            }),
        })
        .unwrap_err();
    assert!(matches!(&reply, ErrorReply::Error(MetadataError::InvalidArgument(_))));
    assert!(message(reply).contains("missing block"));
}

#[test]
fn headers_tell_the_state_of_leaders_only() {
    let group = Some(group_name("root"));
    let told = service::ok_header(&leader_raft(), &group);
    assert_eq!(told.status, RpcStatus::Success);
    assert_eq!(told.state, Some(RaftLogId::new(1, 1, 5)));
    let mut follower = leader_raft();
    follower.is_leader = false;
    assert_eq!(service::ok_header(&follower, &group).state, None);
    assert_eq!(service::error_header(&follower, &group, ErrorClass::Fatal).status, RpcStatus::Fatal);
    assert_eq!(service::error_header(&follower, &group, ErrorClass::NeedRefresh).status, RpcStatus::Error);
}

#[test]
fn endpoints_are_checked_and_read() {
    assert_eq!(service::validate_advertised_endpoint(&endpoint(9090)).unwrap(), "127.0.0.1:9090");
    let mut wildcard = endpoint(9090);
    wildcard.host_is_wildcard = true;
    assert!(service::validate_advertised_endpoint(&wildcard).is_err());
    assert!(service::validate_advertised_endpoint(&endpoint(0)).is_err());
    assert!(service::validate_advertised_endpoint(&endpoint(65_536)).is_err());
    let mut blank = endpoint(9090);
    blank.host = " \u{3000}".to_string();
    assert!(service::validate_advertised_endpoint(&blank).is_err());

    let parsed = service::parse_metadata_endpoint("http://10.0.0.1:7001").unwrap();
    assert_eq!(parsed.host, "10.0.0.1");
    assert_eq!(parsed.port, 7001);
    assert!(service::parse_metadata_endpoint("10.0.0.1").is_none());
}

#[test]
fn silent_workers_are_told_to_register_whatever_run_they_name() {
    let worker_id = WorkerId::new(110);
    let start = Moment { mono_ns: 0, wall_ms: 1_000 };
    let later = Moment { mono_ns: 1_100_000_000, wall_ms: 2_100 };
    for run in [test_worker_run_id(), second_worker_run_id()] {
        let mut manager = WorkerManager::new(1);
        manager
            .register_worker_run_at(
                &group_name("root"),
                worker_id,
                "127.0.0.1:9090".to_string(),
                1,
                test_worker_run_id(),
                None,
                start,
            )
            .unwrap();
        let mut service = service_with(manager);
        service
            .heartbeat_at(&nonleader_raft(), &heartbeat_request(worker_id, test_worker_run_id(), 1, 9090), start)
            .unwrap();

        let told = service.heartbeat_at(&nonleader_raft(), &heartbeat_request(worker_id, run, 2, 9090), later);
        let error = canonical(told.unwrap_err());
        assert_eq!(error.class, ErrorClass::NeedRefresh);
        assert_eq!(error.code, RpcErrorCode::WorkerNotRegistered);
        assert_eq!(error.reason, Some(RefreshReason::NeedRegister));

        // A leader proposes the registration of either run.
        let step = service.register_worker_at(
            &leader_raft(),
            &register_request("root", 110, run, 9090),
            later,
        );
        assert!(matches!(step, RegisterStep::Propose(_)));
    }
}
