//! Registration, heartbeats and block reports of workers.

use beryl_metadata::clock::Moment;
use beryl_metadata::error::MetadataError;
use beryl_metadata::ids::{BlockId, BlockIndex, DataHandleId, GroupName, WorkerId, WorkerRunId};
use beryl_metadata::worker::manager::WorkerManager;
use beryl_metadata::worker::types::{
    worker_net_protocol_label, BlockLocationKey, BlockReportBlock, BlockReportBlockState, BlockReportDeltaEntry,
    BlockReportDeltaOp, HealthStatus, WorkerInfo, WorkerRegistrationKey,
};

fn group_name(raw: &str) -> GroupName {
    GroupName::new(raw.to_string())
}

#[test]
fn worker_net_protocol_label_uses_readable_names() {
    assert_eq!(
        worker_net_protocol_label(0),
        "unspecified"
    );
    assert_eq!(
        worker_net_protocol_label(1),
        "grpc"
    );
    assert_eq!(
        worker_net_protocol_label(2),
        "quic"
    );
    assert_eq!(
        worker_net_protocol_label(3),
        "rdma"
    );
    assert_eq!(worker_net_protocol_label(99), "unknown");
}

#[test]
fn test_worker_registration_with_worker_net_protocol() {
    let mut manager = WorkerManager::new(60);
    let worker_id = WorkerId::new(1);
    let address = "127.0.0.1:9090".to_string();
    let worker_net_protocol = 1; // GRPC

    // Register worker
    manager
        .register_worker(&group_name("g1"), worker_id, address.clone(), worker_net_protocol, None)
        .unwrap();

    // Get descriptor and verify fields
    let descriptor = manager.get_descriptor(&group_name("g1"), worker_id).unwrap();
    assert_eq!(descriptor.worker_id, worker_id);
    assert_eq!(descriptor.address, address);
    assert_eq!(descriptor.worker_net_protocol, worker_net_protocol);
}

fn run_id_of(raw: &str) -> WorkerRunId {
    WorkerRunId::new(u128::from_str_radix(&raw.replace('-', ""), 16).unwrap())
}

fn report_run_id() -> WorkerRunId {
    run_id_of("550e8400-e29b-41d4-a716-446655440100")
}

fn report_block(index: u32) -> BlockReportBlock {
    let block_id = BlockId::new(DataHandleId::new(9), BlockIndex::new(index));
    report_block_with_id(block_id)
}

fn report_block_with_id(block_id: BlockId) -> BlockReportBlock {
    BlockReportBlock {
        block_id,
        data_handle_id: block_id.data_handle_id.as_raw(),
        block_index: block_id.index.as_raw(),
        block_stamp: u64::from(block_id.index.as_raw()) + 100,
        effective_len: 4096,
        committed_length: 4096,
        block_state: BlockReportBlockState::Ready,
    }
}

fn register_live_report_worker(
    manager: &mut WorkerManager,
    group_name: &GroupName,
    worker_id: WorkerId,
    run_id: WorkerRunId,
) {
    manager
        .register_worker_run(group_name, worker_id, "127.0.0.1:9090".to_string(), 1, run_id, None)
        .unwrap();
    manager
        .record_heartbeat(
            group_name,
            worker_id,
            run_id,
            1,
            "127.0.0.1:9090",
            1,
            1_000,
            100,
            900,
            0,
            0,
            HealthStatus::Healthy,
        )
        .unwrap();
}

#[test]
fn full_report_batches_publish_only_after_final_batch() {
    let mut manager = WorkerManager::new(60);
    let group_name_value = group_name("g21");
    let worker_id = WorkerId::new(5);
    let run_id = report_run_id();
    register_live_report_worker(&mut manager, &group_name_value, worker_id, run_id);

    manager
        .receive_full_block_report(&group_name_value, worker_id, run_id, 1, 0, false, vec![report_block(0)])
        .unwrap();

    assert!(manager
        .get_block_locations(&group_name_value, report_block(0).block_id)
        .is_empty());
    assert!(manager.get_worker_blocks(&group_name_value, worker_id).is_empty());

    manager
        .receive_full_block_report(&group_name_value, worker_id, run_id, 1, 1, true, vec![report_block(1)])
        .unwrap();

    assert_eq!(manager.get_worker_blocks(&group_name_value, worker_id).len(), 2);
    assert_eq!(
        manager.get_block_locations(&group_name_value, report_block(0).block_id),
        vec![worker_id]
    );
    assert_eq!(
        manager.get_block_locations(&group_name_value, report_block(1).block_id),
        vec![worker_id]
    );
}

#[test]
fn final_full_report_marks_active_worker_converged() {
    let mut manager = WorkerManager::new(60);
    let group_name_value = group_name("g22");
    let worker_id = WorkerId::new(6);
    let run_id = report_run_id();
    register_live_report_worker(&mut manager, &group_name_value, worker_id, run_id);

    let now_ms = std::time::SystemTime::now()
        .duration_since(std::time::UNIX_EPOCH)
        .unwrap()
        .as_millis() as u64;
    let before = manager.blockreport_convergence_snapshot(now_ms, 60_000, manager.get_metadata_epoch(), 80);
    assert_eq!(before.active_workers, 1);
    assert_eq!(before.full_reported_workers, 0);
    assert!(!before.converged);

    manager
        .receive_full_block_report(&group_name_value, worker_id, run_id, 1, 0, true, vec![report_block(0)])
        .unwrap();

    let after = manager.blockreport_convergence_snapshot(now_ms, 60_000, manager.get_metadata_epoch(), 80);
    assert_eq!(after.active_workers, 1);
    assert_eq!(after.full_reported_workers, 1);
    assert!(after.converged);
}

#[test]
fn stale_full_report_seq_cannot_roll_back_published_view() {
    let mut manager = WorkerManager::new(60);
    let group_name_value = group_name("g25");
    let worker_id = WorkerId::new(9);
    let run_id = report_run_id();
    register_live_report_worker(&mut manager, &group_name_value, worker_id, run_id);

    manager
        .receive_full_block_report(&group_name_value, worker_id, run_id, 7, 0, true, vec![report_block(0)])
        .unwrap();
    assert_eq!(
        manager.get_block_locations(&group_name_value, report_block(0).block_id),
        vec![worker_id]
    );

    let stale = manager
        .receive_full_block_report(&group_name_value, worker_id, run_id, 6, 0, true, vec![report_block(1)])
        .expect_err("stale report_seq must not reset the published baseline");
    assert!(stale.message().contains("full report required"));
    assert_eq!(
        manager.get_block_locations(&group_name_value, report_block(0).block_id),
        vec![worker_id]
    );
    assert!(manager
        .get_block_locations(&group_name_value, report_block(1).block_id)
        .is_empty());
}

#[test]
fn full_report_rejects_sequence_run_and_registration_errors() {
    let mut manager = WorkerManager::new(60);
    let group_name_value = group_name("g22");
    let worker_id = WorkerId::new(6);
    let run_id = report_run_id();

    let missing = manager
        .receive_full_block_report(&group_name_value, worker_id, run_id, 1, 0, true, vec![report_block(0)])
        .expect_err("missing registration must fail");
    assert!(missing.message().contains("not registered"));

    register_live_report_worker(&mut manager, &group_name_value, worker_id, run_id);
    let stale_run: WorkerRunId = run_id_of("550e8400-e29b-41d4-a716-446655440101");
    let stale = manager
        .receive_full_block_report(
            &group_name_value,
            worker_id,
            stale_run,
            1,
            0,
            true,
            vec![report_block(0)],
        )
        .expect_err("stale worker_run_id must fail");
    assert!(stale.message().contains("worker_run_id mismatch"));

    manager
        .receive_full_block_report(&group_name_value, worker_id, run_id, 2, 0, false, vec![report_block(0)])
        .unwrap();
    let mismatch = manager
        .receive_full_block_report(&group_name_value, worker_id, run_id, 2, 2, true, vec![report_block(1)])
        .expect_err("batch_seq gap must fail");
    assert!(mismatch.message().contains("full report required"));
    assert!(manager.get_worker_blocks(&group_name_value, worker_id).is_empty());
}

#[test]
fn delta_report_requires_ready_baseline_and_ordered_sequence() {
    let mut manager = WorkerManager::new(60);
    let group_name_value = group_name("g23");
    let worker_id = WorkerId::new(7);
    let run_id = report_run_id();
    register_live_report_worker(&mut manager, &group_name_value, worker_id, run_id);

    let before_full = manager
        .apply_delta_block_report(
            &group_name_value,
            worker_id,
            run_id,
            1,
            0,
            vec![BlockReportDeltaEntry {
                op: BlockReportDeltaOp::AddUpdate,
                block: report_block(0),
            }],
        )
        .expect_err("delta before full report must fail");
    assert!(before_full.message().contains("full report required"));

    manager
        .receive_full_block_report(&group_name_value, worker_id, run_id, 7, 0, true, vec![report_block(0)])
        .unwrap();

    manager
        .apply_delta_block_report(
            &group_name_value,
            worker_id,
            run_id,
            7,
            0,
            vec![BlockReportDeltaEntry {
                op: BlockReportDeltaOp::AddUpdate,
                block: report_block(1),
            }],
        )
        .unwrap();
    assert_eq!(
        manager.get_block_locations(&group_name_value, report_block(1).block_id),
        vec![worker_id]
    );

    manager
        .apply_delta_block_report(
            &group_name_value,
            worker_id,
            run_id,
            7,
            0,
            vec![BlockReportDeltaEntry {
                op: BlockReportDeltaOp::AddUpdate,
                block: report_block(1),
            }],
        )
        .unwrap();

    let gap = manager
        .apply_delta_block_report(
            &group_name_value,
            worker_id,
            run_id,
            7,
            3,
            vec![BlockReportDeltaEntry {
                op: BlockReportDeltaOp::Remove,
                block: report_block(1),
            }],
        )
        .expect_err("delta gap must require full report");
    assert!(gap.message().contains("full report required"));

    let epoch_mismatch = manager
        .apply_delta_block_report(
            &group_name_value,
            worker_id,
            run_id,
            8,
            1,
            vec![BlockReportDeltaEntry {
                op: BlockReportDeltaOp::Remove,
                block: report_block(1),
            }],
        )
        .expect_err("report_seq mismatch must require full report");
    assert!(epoch_mismatch.message().contains("full report required"));
}

#[test]
fn recreated_report_runtime_requires_full_report_again() {
    let mut manager = WorkerManager::new(60);
    let group_name_value = group_name("g24");
    let worker_id = WorkerId::new(8);
    let run_id = report_run_id();
    register_live_report_worker(&mut manager, &group_name_value, worker_id, run_id);
    manager
        .receive_full_block_report(&group_name_value, worker_id, run_id, 1, 0, true, vec![report_block(0)])
        .unwrap();
    assert_eq!(
        manager.get_block_locations(&group_name_value, report_block(0).block_id),
        vec![worker_id]
    );

    manager
        .load_registered_workers(vec![WorkerInfo {
            group_name: group_name_value.clone(),
            worker_id,
            address: "127.0.0.1:9090".to_string(),
            worker_net_protocol: 1,
            capacity_total: 0,
            capacity_used: 0,
            capacity_available: 0,
            active_reads: 0,
            active_writes: 0,
            health: HealthStatus::Healthy,
            last_heartbeat: 0,
            fault_domain: None,
        }])
        .unwrap();

    assert!(manager
        .get_block_locations(&group_name_value, report_block(0).block_id)
        .is_empty());
    let delta = manager
        .apply_delta_block_report(
            &group_name_value,
            worker_id,
            run_id,
            1,
            0,
            vec![BlockReportDeltaEntry {
                op: BlockReportDeltaOp::AddUpdate,
                block: report_block(1),
            }],
        )
        .expect_err("metadata restart must require a new full report");
    assert!(delta.message().contains("not registered"));
}

#[test]
fn reported_block_locations_are_group_qualified() {
    let mut manager = WorkerManager::new(60);
    let first_group = group_name("g31");
    let second_group = group_name("g32");
    let first_worker = WorkerId::new(10);
    let second_worker = WorkerId::new(11);
    let first_run = report_run_id();
    let second_run: WorkerRunId = run_id_of("550e8400-e29b-41d4-a716-446655440102");
    let block_id = BlockId::new(DataHandleId::new(41), BlockIndex::new(0));

    register_live_report_worker(&mut manager, &first_group, first_worker, first_run);
    register_live_report_worker(&mut manager, &second_group, second_worker, second_run);
    manager
        .receive_full_block_report(
            &first_group,
            first_worker,
            first_run,
            1,
            0,
            true,
            vec![report_block_with_id(block_id)],
        )
        .unwrap();
    manager
        .receive_full_block_report(
            &second_group,
            second_worker,
            second_run,
            1,
            0,
            true,
            vec![report_block_with_id(block_id)],
        )
        .unwrap();

    assert_eq!(manager.get_block_locations(&first_group, block_id), vec![first_worker]);
    assert_eq!(
        manager.get_block_locations(&second_group, block_id),
        vec![second_worker]
    );

    let mut reported = manager.list_reported_blocks();
    reported.sort_by_key(|key| (key.group_name.name.clone(), key.block_id.index.as_raw()));
    assert_eq!(
        reported,
        vec![
            BlockLocationKey::new(&first_group, block_id),
            BlockLocationKey::new(&second_group, block_id),
        ]
    );

    manager
        .receive_full_block_report(&first_group, first_worker, first_run, 2, 0, true, Vec::new())
        .unwrap();

    assert!(manager.get_block_locations(&first_group, block_id).is_empty());
    assert_eq!(
        manager.get_block_locations(&second_group, block_id),
        vec![second_worker]
    );
    assert_eq!(
        manager.list_reported_blocks(),
        vec![BlockLocationKey::new(&second_group, block_id)]
    );
}

#[test]
fn worker_run_registration_is_group_scoped() {
    let mut manager = WorkerManager::new(60);
    let worker_id = WorkerId::new(1);
    let first_group = group_name("g1");
    let second_group = group_name("g2");
    let first_run_id: WorkerRunId = run_id_of("550e8400-e29b-41d4-a716-446655440010");
    let second_run_id: WorkerRunId = run_id_of("550e8400-e29b-41d4-a716-446655440011");

    manager
        .register_worker_run(
            &first_group,
            worker_id,
            "127.0.0.1:9090".to_string(),
            1,
            first_run_id,
            None,
        )
        .unwrap();
    manager
        .register_worker_run(
            &second_group,
            worker_id,
            "127.0.0.1:9091".to_string(),
            1,
            second_run_id,
            None,
        )
        .unwrap();

    let first = manager.get_descriptor(&first_group, worker_id).unwrap();
    let second = manager.get_descriptor(&second_group, worker_id).unwrap();
    let first_registration = manager.get_registration(&first_group, worker_id).unwrap();
    let second_registration = manager.get_registration(&second_group, worker_id).unwrap();
    assert_eq!(first.group_name, first_group);
    assert_eq!(first.address, "127.0.0.1:9090");
    assert_eq!(first_registration.worker_run_id, first_run_id);
    assert_eq!(second.group_name, second_group);
    assert_eq!(second.address, "127.0.0.1:9091");
    assert_eq!(second_registration.worker_run_id, second_run_id);
}

#[test]
fn worker_descriptor_runtime_and_liveness_are_group_scoped() {
    let mut manager = WorkerManager::new(60);
    let worker_id = WorkerId::new(7);
    let first_group = group_name("g11");
    let second_group = group_name("g12");
    let first_run_id: WorkerRunId = run_id_of("550e8400-e29b-41d4-a716-446655440050");
    let second_run_id: WorkerRunId = run_id_of("550e8400-e29b-41d4-a716-446655440051");

    manager
        .register_worker_run(
            &first_group,
            worker_id,
            "127.0.0.1:9107".to_string(),
            1,
            first_run_id,
            Some("rack-a".to_string()),
        )
        .unwrap();
    manager
        .register_worker_run(
            &second_group,
            worker_id,
            "127.0.0.1:9207".to_string(),
            1,
            second_run_id,
            Some("rack-b".to_string()),
        )
        .unwrap();
    manager
        .record_heartbeat(
            &first_group,
            worker_id,
            first_run_id,
            1,
            "127.0.0.1:9107",
            1,
            1_000,
            100,
            900,
            1,
            0,
            HealthStatus::Healthy,
        )
        .unwrap();
    manager
        .record_heartbeat(
            &second_group,
            worker_id,
            second_run_id,
            1,
            "127.0.0.1:9207",
            1,
            2_000,
            300,
            1_700,
            3,
            1,
            HealthStatus::Degraded,
        )
        .unwrap();

    let first_descriptor = manager.get_descriptor(&first_group, worker_id).unwrap();
    let second_descriptor = manager.get_descriptor(&second_group, worker_id).unwrap();
    let first_registration = manager.get_registration(&first_group, worker_id).unwrap();
    let second_registration = manager.get_registration(&second_group, worker_id).unwrap();
    let first_runtime = manager.get_worker(&first_group, worker_id).unwrap();
    let second_runtime = manager.get_worker(&second_group, worker_id).unwrap();

    assert_eq!(first_descriptor.address, "127.0.0.1:9107");
    assert_eq!(second_descriptor.address, "127.0.0.1:9207");
    assert_eq!(first_registration.worker_run_id, first_run_id);
    assert_eq!(second_registration.worker_run_id, second_run_id);
    assert_eq!(first_runtime.capacity_total, 1_000);
    assert_eq!(second_runtime.capacity_total, 2_000);
    assert!(manager.is_worker_live(&first_group, worker_id));
    assert!(manager.is_worker_live(&second_group, worker_id));
    let mut live_workers = manager.list_live_workers();
    live_workers.sort_by_key(|key| (key.group_name.name.clone(), key.worker_id.as_raw()));
    assert_eq!(
        live_workers,
        vec![
            WorkerRegistrationKey::new(&first_group, worker_id),
            WorkerRegistrationKey::new(&second_group, worker_id),
        ]
    );
}

#[test]
fn worker_run_registration_same_run_same_descriptor_is_idempotent() {
    let mut manager = WorkerManager::new(60);
    let worker_id = WorkerId::new(1);
    let group_name_value = group_name("g1");
    let first_run_id: WorkerRunId = run_id_of("550e8400-e29b-41d4-a716-446655440020");

    register_live_report_worker(&mut manager, &group_name_value, worker_id, first_run_id);
    manager
        .receive_full_block_report(
            &group_name_value,
            worker_id,
            first_run_id,
            1,
            0,
            true,
            vec![report_block(0)],
        )
        .unwrap();

    manager
        .validate_worker_registration_preflight(&group_name_value, worker_id, first_run_id, "127.0.0.1:9090", 1)
        .unwrap();
    manager
        .register_worker_run(
            &group_name_value,
            worker_id,
            "127.0.0.1:9090".to_string(),
            1,
            first_run_id,
            None,
        )
        .unwrap();

    let descriptor = manager.get_descriptor(&group_name_value, worker_id).unwrap();
    assert_eq!(descriptor.address, "127.0.0.1:9090");
    assert_eq!(descriptor.worker_net_protocol, 1);
    assert_eq!(
        manager
            .get_registration(&group_name_value, worker_id)
            .unwrap()
            .worker_run_id,
        first_run_id
    );
    assert!(manager.is_worker_live(&group_name_value, worker_id));
    assert!(!manager.needs_full_block_report(&group_name_value, worker_id));
    assert_eq!(
        manager.get_block_locations(&group_name_value, report_block(0).block_id),
        vec![worker_id]
    );
}

#[test]
fn worker_run_registration_rejects_same_run_endpoint_mismatch_without_clearing_state() {
    let mut manager = WorkerManager::new(60);
    let worker_id = WorkerId::new(2);
    let group_name_value = group_name("g1");
    let run_id: WorkerRunId = run_id_of("550e8400-e29b-41d4-a716-446655440021");

    register_live_report_worker(&mut manager, &group_name_value, worker_id, run_id);
    manager
        .receive_full_block_report(&group_name_value, worker_id, run_id, 1, 0, true, vec![report_block(0)])
        .unwrap();

    let error = manager
        .validate_worker_registration_preflight(&group_name_value, worker_id, run_id, "127.0.0.1:9091", 1)
        .expect_err("same worker_run_id must not change endpoint");
    assert!(matches!(error, MetadataError::InvalidArgument(_)));
    assert!(error.message().contains("worker descriptor mismatch"));

    let apply_error = manager
        .register_worker_run(
            &group_name_value,
            worker_id,
            "127.0.0.1:9091".to_string(),
            1,
            run_id,
            None,
        )
        .expect_err("same worker_run_id endpoint mismatch must fail at apply");
    assert!(matches!(apply_error, MetadataError::InvalidArgument(_)));
    assert!(apply_error.message().contains("worker descriptor mismatch"));

    let descriptor = manager.get_descriptor(&group_name_value, worker_id).unwrap();
    assert_eq!(descriptor.address, "127.0.0.1:9090");
    assert_eq!(descriptor.worker_net_protocol, 1);
    assert_eq!(
        manager
            .get_registration(&group_name_value, worker_id)
            .unwrap()
            .worker_run_id,
        run_id
    );
    assert!(manager.is_worker_live(&group_name_value, worker_id));
    assert!(!manager.needs_full_block_report(&group_name_value, worker_id));
    assert_eq!(
        manager.get_block_locations(&group_name_value, report_block(0).block_id),
        vec![worker_id]
    );
}

#[test]
fn worker_run_registration_rejects_same_run_protocol_mismatch() {
    let mut manager = WorkerManager::new(60);
    let worker_id = WorkerId::new(3);
    let group_name_value = group_name("g1");
    let run_id: WorkerRunId = run_id_of("550e8400-e29b-41d4-a716-446655440022");

    manager
        .register_worker_run(
            &group_name_value,
            worker_id,
            "127.0.0.1:9090".to_string(),
            1,
            run_id,
            None,
        )
        .unwrap();

    let error = manager
        .validate_worker_registration_preflight(&group_name_value, worker_id, run_id, "127.0.0.1:9090", 2)
        .expect_err("same worker_run_id must not change protocol");
    assert!(matches!(error, MetadataError::InvalidArgument(_)));
    assert!(error.message().contains("worker descriptor mismatch"));

    let apply_error = manager
        .register_worker_run(
            &group_name_value,
            worker_id,
            "127.0.0.1:9090".to_string(),
            2,
            run_id,
            None,
        )
        .expect_err("same worker_run_id protocol mismatch must fail at apply");
    assert!(matches!(apply_error, MetadataError::InvalidArgument(_)));
    assert!(apply_error.message().contains("worker descriptor mismatch"));
}

#[test]
fn worker_run_registration_replaces_restart_and_resets_run_state() {
    let mut manager = WorkerManager::new(60);
    let worker_id = WorkerId::new(4);
    let group_name_value = group_name("g1");
    let first_run_id: WorkerRunId = run_id_of("550e8400-e29b-41d4-a716-446655440023");
    let second_run_id: WorkerRunId = run_id_of("550e8400-e29b-41d4-a716-446655440024");

    register_live_report_worker(&mut manager, &group_name_value, worker_id, first_run_id);
    manager
        .receive_full_block_report(
            &group_name_value,
            worker_id,
            first_run_id,
            1,
            0,
            true,
            vec![report_block(0)],
        )
        .unwrap();
    assert_eq!(
        manager.get_block_locations(&group_name_value, report_block(0).block_id),
        vec![worker_id]
    );

    manager
        .register_worker_run(
            &group_name_value,
            worker_id,
            "127.0.0.1:9090".to_string(),
            1,
            second_run_id,
            None,
        )
        .unwrap();

    assert_eq!(
        manager
            .get_registration(&group_name_value, worker_id)
            .unwrap()
            .worker_run_id,
        second_run_id
    );
    assert!(!manager.is_worker_live(&group_name_value, worker_id));
    assert!(manager.needs_full_block_report(&group_name_value, worker_id));
    assert!(manager.get_worker_blocks(&group_name_value, worker_id).is_empty());
    assert!(manager
        .get_block_locations(&group_name_value, report_block(0).block_id)
        .is_empty());
    let after_restart_snapshot = manager.blockreport_convergence_snapshot(
        std::time::SystemTime::now()
            .duration_since(std::time::UNIX_EPOCH)
            .unwrap()
            .as_millis() as u64,
        60_000,
        manager.get_metadata_epoch(),
        80,
    );
    assert_eq!(after_restart_snapshot.active_workers, 0);
    assert_eq!(after_restart_snapshot.full_reported_workers, 0);

    let old_heartbeat = manager
        .record_heartbeat(
            &group_name_value,
            worker_id,
            first_run_id,
            2,
            "127.0.0.1:9090",
            1,
            1_000,
            100,
            900,
            0,
            0,
            HealthStatus::Healthy,
        )
        .expect_err("old worker_run_id must be fenced after replacement");
    assert!(matches!(old_heartbeat, MetadataError::StaleState(_)));
    assert!(old_heartbeat.message().contains("worker_run_id mismatch"));

    let old_report = manager
        .receive_full_block_report(
            &group_name_value,
            worker_id,
            first_run_id,
            2,
            0,
            true,
            vec![report_block(1)],
        )
        .expect_err("old worker_run_id block report must be fenced after replacement");
    assert!(matches!(old_report, MetadataError::StaleState(_)));
    assert!(old_report.message().contains("worker_run_id mismatch"));

    manager
        .record_heartbeat(
            &group_name_value,
            worker_id,
            second_run_id,
            1,
            "127.0.0.1:9090",
            1,
            1_000,
            100,
            900,
            0,
            0,
            HealthStatus::Healthy,
        )
        .unwrap();
    let before_new_full_report = manager.blockreport_convergence_snapshot(
        std::time::SystemTime::now()
            .duration_since(std::time::UNIX_EPOCH)
            .unwrap()
            .as_millis() as u64,
        60_000,
        manager.get_metadata_epoch(),
        80,
    );
    assert_eq!(before_new_full_report.active_workers, 1);
    assert_eq!(before_new_full_report.full_reported_workers, 0);
    assert!(!before_new_full_report.converged);

    let delta = manager
        .apply_delta_block_report(
            &group_name_value,
            worker_id,
            second_run_id,
            1,
            0,
            vec![BlockReportDeltaEntry {
                op: BlockReportDeltaOp::AddUpdate,
                block: report_block(1),
            }],
        )
        .expect_err("replacement must require a new full report baseline");
    assert!(matches!(delta, MetadataError::FullReportRequired(_)));
}

#[test]
fn worker_run_registration_updates_endpoint_when_previous_run_is_not_live() {
    let mut manager = WorkerManager::new(60);
    let worker_id = WorkerId::new(5);
    let group_name_value = group_name("g1");
    let first_run_id: WorkerRunId = run_id_of("550e8400-e29b-41d4-a716-446655440025");
    let second_run_id: WorkerRunId = run_id_of("550e8400-e29b-41d4-a716-446655440026");

    manager
        .register_worker_run(
            &group_name_value,
            worker_id,
            "127.0.0.1:9090".to_string(),
            1,
            first_run_id,
            None,
        )
        .unwrap();
    manager
        .validate_worker_registration_preflight(&group_name_value, worker_id, second_run_id, "127.0.0.1:9091", 2)
        .unwrap();
    manager
        .register_worker_run(
            &group_name_value,
            worker_id,
            "127.0.0.1:9091".to_string(),
            2,
            second_run_id,
            None,
        )
        .unwrap();

    let descriptor = manager.get_descriptor(&group_name_value, worker_id).unwrap();
    let registration = manager.get_registration(&group_name_value, worker_id).unwrap();
    assert_eq!(descriptor.address, "127.0.0.1:9091");
    assert_eq!(descriptor.worker_net_protocol, 2);
    assert_eq!(registration.worker_run_id, second_run_id);
}

#[test]
fn worker_run_registration_rejects_live_endpoint_conflict() {
    let mut manager = WorkerManager::new(60);
    let worker_id = WorkerId::new(6);
    let group_name_value = group_name("g1");
    let first_run_id: WorkerRunId = run_id_of("550e8400-e29b-41d4-a716-446655440027");
    let second_run_id: WorkerRunId = run_id_of("550e8400-e29b-41d4-a716-446655440028");

    register_live_report_worker(&mut manager, &group_name_value, worker_id, first_run_id);
    let error = manager
        .validate_worker_registration_preflight(&group_name_value, worker_id, second_run_id, "127.0.0.1:9091", 2)
        .expect_err("different endpoint for a live WorkerId must conflict");
    assert!(matches!(error, MetadataError::ActiveWorkerConflict(_)));
    assert!(error.message().contains("active worker conflict"));
    assert_eq!(
        manager
            .get_registration(&group_name_value, worker_id)
            .unwrap()
            .worker_run_id,
        first_run_id
    );
}

#[test]
fn loading_persisted_workers_drops_live_run_registration() {
    let mut manager = WorkerManager::new(60);
    let worker_id = WorkerId::new(1);
    let group_name_value = group_name("g1");
    let run_id: WorkerRunId = run_id_of("550e8400-e29b-41d4-a716-446655440030");

    manager
        .register_worker_run(
            &group_name_value,
            worker_id,
            "127.0.0.1:9090".to_string(),
            1,
            run_id,
            Some("rack-a".to_string()),
        )
        .unwrap();
    manager
        .record_heartbeat(
            &group_name_value,
            worker_id,
            run_id,
            1,
            "127.0.0.1:9090",
            1,
            1000,
            10,
            990,
            0,
            0,
            HealthStatus::Healthy,
        )
        .unwrap();
    manager
        .receive_full_block_report(&group_name_value, worker_id, run_id, 1, 0, true, vec![report_block(0)])
        .unwrap();

    manager
        .load_registered_workers(vec![WorkerInfo {
            group_name: group_name_value.clone(),
            worker_id,
            address: "127.0.0.1:9090".to_string(),
            worker_net_protocol: 1,
            capacity_total: 0,
            capacity_used: 0,
            capacity_available: 0,
            active_reads: 0,
            active_writes: 0,
            health: HealthStatus::Healthy,
            last_heartbeat: 0,
            fault_domain: Some("rack-a".to_string()),
        }])
        .unwrap();

    assert!(manager.get_registration(&group_name_value, worker_id).is_none());
    assert!(manager.get_descriptor(&group_name_value, worker_id).is_some());
    assert!(manager.get_worker(&group_name_value, worker_id).is_none());
    assert!(manager.needs_full_block_report(&group_name_value, worker_id));
}

#[test]
fn worker_heartbeat_updates_live_state_without_moving_stale_seq_backward() {
    let mut manager = WorkerManager::new(60);
    let group_name_value = group_name("g1");
    let worker_id = WorkerId::new(1);
    let run_id: WorkerRunId = run_id_of("550e8400-e29b-41d4-a716-446655440040");

    manager
        .register_worker_run(
            &group_name_value,
            worker_id,
            "127.0.0.1:9090".to_string(),
            1,
            run_id,
            Some("rack-a".to_string()),
        )
        .unwrap();

    let first = manager
        .record_heartbeat(
            &group_name_value,
            worker_id,
            run_id,
            10,
            "127.0.0.1:9090",
            1,
            1_000,
            100,
            900,
            2,
            1,
            HealthStatus::Healthy,
        )
        .unwrap();
    assert_eq!(first.heartbeat_seq, 10);
    assert_eq!(
        manager.get_worker(&group_name_value, worker_id).unwrap().capacity_total,
        1_000
    );

    let stale = manager
        .record_heartbeat(
            &group_name_value,
            worker_id,
            run_id,
            9,
            "127.0.0.1:9090",
            1,
            2_000,
            1_000,
            1_000,
            9,
            9,
            HealthStatus::Unhealthy,
        )
        .unwrap();
    assert_eq!(stale.heartbeat_seq, 10);

    let worker = manager.get_worker(&group_name_value, worker_id).unwrap();
    assert_eq!(worker.capacity_total, 1_000);
    assert_eq!(worker.active_reads, 2);
    assert_eq!(worker.health, HealthStatus::Healthy);
}

#[test]
fn heartbeat_liveness_expiry_removes_runtime_but_keeps_registration() {
    let mut manager = WorkerManager::new(1);
    let group_name_value = group_name("g1");
    let worker_id = WorkerId::new(1);
    let run_id: WorkerRunId = run_id_of("550e8400-e29b-41d4-a716-446655440041");
    let start = Moment { mono_ns: 5_000_000_000, wall_ms: 1_000 };
    let later = Moment { mono_ns: 6_100_000_000, wall_ms: 2_100 };

    manager
        .register_worker_run_at(
            &group_name_value,
            worker_id,
            "127.0.0.1:9090".to_string(),
            1,
            run_id,
            None,
            start,
        )
        .unwrap();
    manager
        .record_heartbeat_at(
            &group_name_value,
            worker_id,
            run_id,
            1,
            "127.0.0.1:9090",
            1,
            1_000,
            100,
            900,
            0,
            0,
            HealthStatus::Healthy,
            start,
        )
        .unwrap();

    let expired = manager.expire_liveness_at(later);

    assert_eq!(expired, vec![(group_name_value.clone(), worker_id)]);
    assert!(!manager.is_worker_live_at(&group_name_value, worker_id, later));
    assert_eq!(
        manager
            .get_registration(&group_name_value, worker_id)
            .expect("current run registration")
            .worker_run_id,
        run_id
    );
    assert!(manager.get_descriptor(&group_name_value, worker_id).is_some());
}

#[test]
fn refused_reports_say_what_is_wrong() {
    let mut manager = WorkerManager::new(60);
    let group = group_name("g30");
    let worker_id = WorkerId::new(7);
    let run_id = report_run_id();
    register_live_report_worker(&mut manager, &group, worker_id, run_id);

    let early = manager.apply_delta_block_report(&group, worker_id, run_id, 1, 0, vec![]).unwrap_err();
    assert!(matches!(&early, MetadataError::FullReportRequired(m) if m.as_str() == "full report required before delta for group_name=g30, worker_id=7"));

    manager.receive_full_block_report(&group, worker_id, run_id, 7, 0, true, vec![report_block(0)]).unwrap();
    let other_report = manager.apply_delta_block_report(&group, worker_id, run_id, 8, 0, vec![]).unwrap_err();
    assert!(matches!(&other_report, MetadataError::FullReportRequired(m) if m.as_str() == "full report required for current baseline: group_name=g30, worker_id=7"));
    let gap = manager.apply_delta_block_report(&group, worker_id, run_id, 7, 3, vec![]).unwrap_err();
    assert!(matches!(&gap, MetadataError::FullReportRequired(m) if m.as_str() == "full report required after delta gap: expected delta_seq 0, got 3"));
    let stale =
        manager.receive_full_block_report(&group, worker_id, run_id, 6, 0, true, vec![report_block(1)]).unwrap_err();
    assert!(matches!(&stale, MetadataError::FullReportRequired(m) if m.as_str() == "full report required: stale report_seq 6 for group_name=g30, worker_id=7, current 7"));
}

#[test]
fn registrations_whose_lease_is_over_count_for_nothing() {
    let group = group_name("g1");
    let worker_id = WorkerId::new(1);
    let run_id = report_run_id();
    let other_run = WorkerRunId::new(77);
    let start = Moment { mono_ns: 0, wall_ms: 1_000 };
    let later = Moment { mono_ns: 1_100_000_000, wall_ms: 2_100 };
    let silent = || {
        let mut manager = WorkerManager::new(1);
        manager
            .register_worker_run_at(&group, worker_id, "127.0.0.1:9090".to_string(), 1, run_id, None, start)
            .unwrap();
        manager
            .record_heartbeat_at(
                &group,
                worker_id,
                run_id,
                1,
                "127.0.0.1:9090",
                1,
                1_000,
                100,
                900,
                0,
                0,
                HealthStatus::Healthy,
                start,
            )
            .unwrap();
        manager
    };

    // The sweep names the worker once and for all.
    let mut manager = silent();
    assert_eq!(manager.expire_liveness_at(later), vec![(group.clone(), worker_id)]);
    assert!(manager.expire_liveness_at(later).is_empty());
    assert!(manager.get_worker(&group, worker_id).is_none());
    assert_eq!(manager.get_registration(&group, worker_id).unwrap().worker_run_id, run_id);
    assert_eq!(manager.registered_run(&group, worker_id), None);

    // Another run finds the place free, as often as it asks.
    let mut manager = silent();
    assert!(manager.validate_worker_run_registration_at(&group, worker_id, other_run, start).is_err());
    manager.validate_worker_run_registration_at(&group, worker_id, other_run, later).unwrap();
    manager.validate_worker_run_registration_at(&group, worker_id, other_run, later).unwrap();

    // A heartbeat of the same run does not bring the registration back.
    let mut manager = silent();
    let beat = manager.record_heartbeat_at(
        &group,
        worker_id,
        run_id,
        2,
        "127.0.0.1:9090",
        1,
        1_000,
        100,
        900,
        0,
        0,
        HealthStatus::Healthy,
        later,
    );
    assert!(matches!(beat, Err(MetadataError::NotFound(_))));
    assert!(!manager.is_worker_live_at(&group, worker_id, later));

    // Reports are those of a worker that is not registered, whatever the run.
    let mut manager = silent();
    for run in [other_run, run_id] {
        let report =
            manager.receive_full_block_report_at(&group, worker_id, run, 1, 0, true, vec![report_block(0)], later);
        assert!(matches!(report, Err(MetadataError::NotFound(_))));
    }

    // A new registration takes the place of the ended one.
    let mut manager = silent();
    manager
        .register_worker_run_at(&group, worker_id, "127.0.0.1:9091".to_string(), 1, other_run, None, later)
        .unwrap();
    assert_eq!(manager.get_registration(&group, worker_id).unwrap().worker_run_id, other_run);
    assert_eq!(manager.registered_run(&group, worker_id), Some(other_run));
}
