//! Workers, their reports and their repair, taken together.

use beryl_metadata::clock::Moment;
use beryl_metadata::ids::{BlockId, BlockIndex, DataHandleId, GroupName, WorkerId, WorkerRunId};
use beryl_metadata::placement::BlockFormatId;
use beryl_metadata::worker::manager::{next_epoch, WorkerManager};
use beryl_metadata::worker::repair::actions::RepairAction;
use beryl_metadata::worker::repair::orphan::OrphanQueue;
use beryl_metadata::worker::repair::planner::{RepairPlanner, WorkerLoad};
use beryl_metadata::worker::repair::queue::RepairQueue;
use beryl_metadata::worker::repair::types::RepairTask;
use beryl_metadata::worker::types::{
    BlockReportBlock, BlockReportBlockState, BlockReportDeltaEntry, BlockReportDeltaOp, HealthStatus,
    WorkerRegistrationKey,
};
use std::sync::Arc;

fn group() -> GroupName {
    GroupName::new("g1".to_string())
}

fn run_id() -> WorkerRunId {
    WorkerRunId::new(1)
}

fn block(index: u32) -> BlockId {
    BlockId::new(DataHandleId::new(1), BlockIndex::new(index))
}

fn ready(block_id: BlockId) -> BlockReportBlock {
    BlockReportBlock {
        block_id,
        data_handle_id: block_id.data_handle_id.as_raw(),
        block_index: block_id.index.as_raw(),
        block_stamp: 100,
        effective_len: 4096,
        committed_length: 4096,
        block_state: BlockReportBlockState::Ready,
    }
}

fn make_live(manager: &mut WorkerManager, worker_id: WorkerId, port: u32, now: Moment) {
    let address = format!("127.0.0.1:{}", port);
    manager
        .register_worker_run_at(&group(), worker_id, address.clone(), 1, run_id(), None, now)
        .unwrap();
    manager
        .record_heartbeat_at(
            &group(),
            worker_id,
            run_id(),
            1,
            &address,
            1,
            1000,
            500,
            500,
            10,
            5,
            HealthStatus::Healthy,
            now,
        )
        .unwrap();
}

const START: Moment = Moment { mono_ns: 0, wall_ms: 1_000 };

#[test]
fn test_worker_registration_and_heartbeat() {
    let mut manager = WorkerManager::new(60);
    let worker_id = WorkerId::new(1);
    make_live(&mut manager, worker_id, 8080, START);

    assert!(manager.is_worker_live_at(&group(), worker_id, START));

    let live_workers = manager.list_live_workers_at(START);
    assert!(live_workers.contains(&WorkerRegistrationKey::new(&group(), worker_id)));
    assert_eq!(manager.list_live_workers_in_group_at(&group(), START), vec![worker_id]);
}

#[test]
fn test_block_report_updates_locations() {
    let mut manager = WorkerManager::new(60);
    let worker_id = WorkerId::new(1);
    make_live(&mut manager, worker_id, 8080, START);

    // First block report
    let first = manager
        .receive_full_block_report_at(
            &group(),
            worker_id,
            run_id(),
            1,
            0,
            true,
            vec![ready(block(0)), ready(block(1))],
            START,
        )
        .unwrap();
    assert_eq!(first.added_blocks.len(), 2);
    assert_eq!(first.removed_blocks.len(), 0);
    assert_eq!(manager.get_block_locations_at(&group(), block(0), START).len(), 1);
    assert_eq!(manager.get_block_locations_at(&group(), block(1), START).len(), 1);

    // Second block report (remove block 1, add block 2)
    let second = manager
        .receive_full_block_report_at(
            &group(),
            worker_id,
            run_id(),
            2,
            0,
            true,
            vec![ready(block(0)), ready(block(2))],
            START,
        )
        .unwrap();
    assert_eq!(second.added_blocks, vec![block(2)]);
    assert_eq!(second.removed_blocks, vec![block(1)]);
    assert_eq!(manager.get_block_locations_at(&group(), block(0), START).len(), 1);
    assert_eq!(manager.get_block_locations_at(&group(), block(1), START).len(), 0);
    assert_eq!(manager.get_block_locations_at(&group(), block(2), START).len(), 1);
}

#[test]
fn test_block_report_batching_correctness() {
    let mut manager = WorkerManager::new(60);
    let worker_id = WorkerId::new(1);
    make_live(&mut manager, worker_id, 8080, START);

    let reported: Vec<BlockReportBlock> = (0..2001).map(|i| ready(block(i))).collect();
    let result = manager
        .receive_full_block_report_at(&group(), worker_id, run_id(), 1, 0, true, reported, START)
        .unwrap();
    assert_eq!(result.added_blocks.len(), 2001);
    assert_eq!(result.removed_blocks.len(), 0);

    for i in 0..2001 {
        assert_eq!(manager.get_block_locations_at(&group(), block(i), START), vec![worker_id]);
    }
    assert_eq!(manager.get_worker_blocks(&group(), worker_id).len(), 2001);
}

#[test]
fn test_dead_worker_cleanup() {
    let mut manager = WorkerManager::new(1); // 1 second timeout
    let worker_id = WorkerId::new(1);
    make_live(&mut manager, worker_id, 8080, START);
    manager
        .receive_full_block_report_at(&group(), worker_id, run_id(), 1, 0, true, vec![ready(block(0))], START)
        .unwrap();

    assert!(manager.is_worker_live_at(&group(), worker_id, START));
    assert_eq!(manager.get_block_locations_at(&group(), block(0), START).len(), 1);

    let later = Moment { mono_ns: 2_000_000_000, wall_ms: 3_000 };
    assert!(!manager.is_worker_live_at(&group(), worker_id, later));
    assert_eq!(manager.get_block_locations_at(&group(), block(0), later).len(), 0);
    assert_eq!(manager.remove_dead_worker(&group(), worker_id), vec![block(0)]);
    assert_eq!(manager.get_all_locations_count(), 0);
}

#[test]
fn test_repair_queue_workflow() {
    let mut repair_queue = RepairQueue::new(100);
    let planner = RepairPlanner::new(Arc::new(RepairQueue::new(100)), Arc::new(OrphanQueue::new(100)));

    let worker1 = WorkerId::new(1);
    let worker2 = WorkerId::new(2);
    let worker3 = WorkerId::new(3);
    let worker4 = WorkerId::new(4);

    // Check replication: current=1, target=3, available=[2,3,4]
    for action in planner.plan_replication(block(0), &[worker1], 3, &[worker1, worker2, worker3, worker4]) {
        repair_queue.enqueue(action.into_task()).unwrap();
    }

    // Verify task enqueued (should have 2 tasks, one per target worker)
    assert_eq!(repair_queue.len_pending(), 2);

    for worker in [worker2, worker3] {
        let records = repair_queue.poll_for_worker(worker, 10);
        assert_eq!(records.len(), 1);
        match &records[0].task {
            RepairTask::Replicate { target_worker, replication_factor, .. } => {
                assert_eq!(*replication_factor, Some(3));
                assert_eq!(*target_worker, worker);
            }
            _ => panic!("Expected Replicate task"),
        }
    }
}

#[test]
fn test_orphan_detection() {
    let mut orphan_queue = OrphanQueue::new(100);
    let worker_id = WorkerId::new(1);

    // Add orphan block
    orphan_queue.add(block(0), worker_id);
    assert_eq!(orphan_queue.len(), 1);

    // Add same orphan again (should be deduplicated)
    orphan_queue.add(block(0), worker_id);
    assert_eq!(orphan_queue.len(), 1);

    // Add different orphan
    orphan_queue.add(block(1), worker_id);
    assert_eq!(orphan_queue.len(), 2);
}

#[test]
fn test_replication_check_triggers_repair() {
    let mut manager = WorkerManager::new(60);
    let mut repair_queue = RepairQueue::new(100);
    let planner = RepairPlanner::new(Arc::new(RepairQueue::new(100)), Arc::new(OrphanQueue::new(100)));
    let workers: Vec<WorkerId> = (1..=4).map(WorkerId::new).collect();
    for (i, worker) in workers.iter().enumerate() {
        make_live(&mut manager, *worker, 8080 + i as u32, START);
    }
    manager
        .receive_full_block_report_at(&group(), workers[0], run_id(), 1, 0, true, vec![ready(block(0))], START)
        .unwrap();

    // Check replication: current=1, target=3, available=[1,2,3,4]
    let current = manager.get_block_locations_at(&group(), block(0), START);
    assert_eq!(current, vec![workers[0]]);
    planner.check_replication(block(0), &current, 3, &workers, &mut repair_queue).unwrap();

    // Verify repair tasks enqueued (should have 2 tasks, one per target worker)
    assert_eq!(repair_queue.len_pending(), 2);

    let records = repair_queue.poll_for_worker(workers[1], 10);
    assert_eq!(records.len(), 1);
    assert_eq!(records[0].task.dedup_key().target_worker, workers[1]);
    assert_eq!(repair_queue.len_pending(), 1);

    let records = repair_queue.poll_for_worker(workers[2], 10);
    assert_eq!(records.len(), 1);
    assert_eq!(records[0].task.dedup_key().target_worker, workers[2]);
    assert_eq!(repair_queue.len_pending(), 0);
}

#[test]
fn rebalancing_moves_blocks_from_busy_to_idle_workers() {
    let mut manager = WorkerManager::new(60);
    let busy = WorkerId::new(1);
    let idle = WorkerId::new(2);
    let now = Moment { mono_ns: 0, wall_ms: 1_000 };
    make_live(&mut manager, busy, 8080, now);
    make_live(&mut manager, idle, 8081, now);
    let reported: Vec<BlockReportBlock> = (0..7).map(|i| ready(block(i))).collect();
    manager
        .receive_full_block_report_at(&group(), busy, run_id(), 1, 0, true, reported, now)
        .unwrap();
    let planner = RepairPlanner::new(Arc::new(RepairQueue::new(100)), Arc::new(OrphanQueue::new(100)));
    let loads = vec![
        WorkerLoad { worker_id: busy, load_rank: 0.95f64.to_bits() },
        WorkerLoad { worker_id: idle, load_rank: 0.05f64.to_bits() },
    ];

    let planned = planner.plan_rebalance(&manager, &group(), &loads);
    assert_eq!(planned.len(), 5);
    for action in &planned {
        assert_eq!(action.to_task().dedup_key().target_worker, idle);
    }

    let balanced = vec![
        WorkerLoad { worker_id: busy, load_rank: 0.5f64.to_bits() },
        WorkerLoad { worker_id: idle, load_rank: 0.5f64.to_bits() },
    ];
    assert!(planner.plan_rebalance(&manager, &group(), &balanced).is_empty());
    let mut repair_queue = RepairQueue::new(100);
    planner.check_rebalance(&manager, &group(), &loads, &mut repair_queue).unwrap();
    assert_eq!(repair_queue.len_pending(), 5);
}

#[test]
fn deltas_move_one_block_at_a_time() {
    let mut manager = WorkerManager::new(60);
    let worker_id = WorkerId::new(1);
    make_live(&mut manager, worker_id, 8080, START);
    manager
        .receive_full_block_report_at(&group(), worker_id, run_id(), 1, 0, true, vec![ready(block(0))], START)
        .unwrap();
    let delta = manager
        .apply_delta_block_report_at(
            &group(),
            worker_id,
            run_id(),
            1,
            0,
            vec![
                BlockReportDeltaEntry { op: BlockReportDeltaOp::AddUpdate, block: ready(block(1)) },
                BlockReportDeltaEntry { op: BlockReportDeltaOp::Remove, block: ready(block(0)) },
            ],
            START,
        )
        .unwrap();
    assert_eq!(delta.next_delta_seq, 2);
    assert_eq!(delta.added_blocks, vec![block(1)]);
    assert_eq!(delta.removed_blocks, vec![block(0)]);
    let stats = manager.stats_at(START);
    assert_eq!(stats.total_workers, 1);
    assert_eq!(stats.live_workers, 1);
    assert_eq!(stats.total_blocks, 1);
    assert_eq!(stats.total_locations, 1);
    let views = manager.collect_worker_placement_views_at(&group(), BlockFormatId { raw: 9 }, START);
    assert_eq!(views.len(), 1);
    assert_eq!(views[0].supported_block_formats, vec![BlockFormatId { raw: 9 }]);
    assert_eq!(views[0].ip, Some("127.0.0.1".to_string()));
    assert_eq!(views[0].free_bytes, Some(500));
    let reported = manager.reported_block_locations(&group(), block(1));
    assert_eq!(reported.len(), 1);
    assert_eq!(reported[0].block_stamp, 100);
}

#[test]
fn epochs_runs_and_convergence() {
    let mut manager = WorkerManager::new(60);
    let worker_id = WorkerId::new(1);
    make_live(&mut manager, worker_id, 8080, START);
    manager.start_metadata_epoch(7);
    assert_eq!(manager.get_metadata_epoch(), 7);
    assert!(manager.get_registration(&group(), worker_id).is_none());
    assert!(manager.get_descriptor(&group(), worker_id).is_some());
    manager.increment_metadata_epoch();
    // Any second after the first of January 2020.
    assert!(manager.get_metadata_epoch() > 1_577_836_800);
    assert!(manager.is_blockreport_converged(1_000).converged);

    make_live(&mut manager, worker_id, 8080, START);
    assert_eq!(manager.list_all_workers(), vec![WorkerRegistrationKey::new(&group(), worker_id)]);
    let waiting = manager.is_blockreport_converged(1_000);
    assert_eq!(waiting.active_workers, 1);
    assert!(!waiting.converged);
    manager
        .receive_full_block_report_at(&group(), worker_id, run_id(), 1, 0, true, vec![], START)
        .unwrap();
    assert!(manager.is_blockreport_converged(1_000).converged);

    let other_run = WorkerRunId::new(2);
    assert!(manager
        .validate_worker_run_registration_at(&group(), worker_id, other_run, START)
        .is_err());
    assert!(manager
        .validate_worker_run_registration_at(&group(), worker_id, run_id(), START)
        .is_ok());
}

#[test]
fn clocks_are_read_where_no_time_is_given() {
    let mut manager = WorkerManager::new(60);
    let worker_id = WorkerId::new(1);
    manager
        .register_worker_run(&group(), worker_id, "127.0.0.1:8080".to_string(), 1, run_id(), None)
        .unwrap();
    // Any day after the first of January 2020.
    assert!(manager.get_registration(&group(), worker_id).unwrap().registered_at_ms > 1_577_836_800_000);
    assert!(manager.validate_worker_run_registration(&group(), worker_id, run_id()).is_ok());
    assert!(manager.expire_liveness().is_empty());
    assert_eq!(manager.collect_worker_placement_views(&group(), BlockFormatId { raw: 9 }).len(), 1);
    let mut orphans = OrphanQueue::with_config(10, 60_000);
    orphans.add(block(0), worker_id);
    assert_eq!(orphans.len_eligible(), 0);
    assert!(orphans.dequeue().is_none());
}

#[test]
fn restarts_can_be_told_apart() {
    let mut manager = WorkerManager::new(60);
    let first = manager.get_metadata_epoch();
    manager.increment_metadata_epoch();
    let second = manager.get_metadata_epoch();
    assert!(second > first);

    // An epoch beyond the time is followed by the next one.
    manager.start_metadata_epoch(u64::MAX - 1);
    manager.increment_metadata_epoch();
    assert_eq!(manager.get_metadata_epoch(), u64::MAX);
    manager.increment_metadata_epoch();
    assert_eq!(manager.get_metadata_epoch(), u64::MAX);
    assert_eq!(next_epoch(7, 5), 8);
    assert_eq!(next_epoch(7, 100), 100);
}

#[test]
fn only_live_workers_take_part_in_balancing() {
    let mut manager = WorkerManager::new(60);
    let busy = WorkerId::new(1);
    let idle = WorkerId::new(2);
    let silent = WorkerId::new(3);
    let later = Moment { mono_ns: 61_000_000_000, wall_ms: 62_000 };
    make_live(&mut manager, silent, 8082, START);
    make_live(&mut manager, busy, 8080, later);
    make_live(&mut manager, idle, 8081, later);
    manager
        .receive_full_block_report_at(&group(), busy, run_id(), 1, 0, true, vec![ready(block(0))], later)
        .unwrap();

    let mut figures = manager.live_worker_figures_at(&group(), later);
    figures.sort_by_key(|f| f.worker_id.as_raw());
    let ids: Vec<WorkerId> = figures.iter().map(|f| f.worker_id).collect();
    assert_eq!(ids, vec![busy, idle]);
    let told = manager.get_worker(&group(), busy).unwrap();
    assert_eq!(figures[0].capacity_total, told.capacity_total);
    assert_eq!(figures[0].capacity_used, told.capacity_used);

    let planner = RepairPlanner::new(Arc::new(RepairQueue::new(100)), Arc::new(OrphanQueue::new(100)));
    let high = 0.95f64.to_bits();
    let low = 0.05f64.to_bits();
    // The silent worker is idlest, and the busy one is named a second time as an idle one.
    let loads = vec![
        WorkerLoad { worker_id: busy, load_rank: high },
        WorkerLoad { worker_id: silent, load_rank: 0 },
        WorkerLoad { worker_id: busy, load_rank: 0 },
        WorkerLoad { worker_id: idle, load_rank: low },
    ];
    let planned = planner.plan_rebalance_at(&manager, &group(), &loads, later);
    assert_eq!(planned.len(), 1);
    assert_eq!(planned[0].to_task().dedup_key().target_worker, idle);

    let alone = vec![
        WorkerLoad { worker_id: busy, load_rank: high },
        WorkerLoad { worker_id: silent, load_rank: 0 },
    ];
    assert!(planner.plan_rebalance_at(&manager, &group(), &alone, later).is_empty());
}

#[test]
fn many_copies_are_too_many() {
    let planner = RepairPlanner::new(Arc::new(RepairQueue::new(100)), Arc::new(OrphanQueue::new(100)));
    let current: Vec<WorkerId> = (1..=256).map(WorkerId::new).collect();
    let free: Vec<WorkerId> = (257..=259).map(WorkerId::new).collect();
    let planned = planner.plan_replication(block(0), &current, 3, &free);
    assert_eq!(planned.len(), 253);
    for action in &planned {
        match action {
            RepairAction::EvictReplica { reason, .. } => {
                assert_eq!(reason, "Excess replica removal: current=256, desired=3")
            }
            other => panic!("expected an eviction, got {:?}", other),
        }
    }
}

#[test]
fn dead_workers_leave_the_blocks_they_were_listed_with() {
    let mut manager = WorkerManager::new(60);
    let one = WorkerId::new(1);
    let other = WorkerId::new(2);
    make_live(&mut manager, one, 8080, START);
    make_live(&mut manager, other, 8081, START);
    let blocks: Vec<BlockReportBlock> = (0..4).map(|i| ready(block(i))).collect();
    manager.receive_full_block_report_at(&group(), one, run_id(), 1, 0, true, blocks, START).unwrap();
    manager.receive_full_block_report_at(&group(), other, run_id(), 1, 0, true, vec![ready(block(2))], START).unwrap();

    let listed = manager.get_worker_blocks(&group(), one);
    let others = manager.get_worker_blocks(&group(), other);
    assert_eq!(manager.stats_at(START).total_locations, listed.len() + others.len());
    assert_eq!(manager.stats_at(START).total_blocks, manager.get_all_locations_count());
    assert_eq!(manager.list_reported_blocks().len(), manager.get_all_locations_count());

    // What does not rebuild a list leaves it as it is.
    make_live(&mut manager, one, 8080, START);
    manager.expire_liveness_at(START);
    assert_eq!(manager.get_worker_blocks(&group(), one), listed);

    assert_eq!(manager.remove_dead_worker(&group(), one), listed);
    assert!(manager.get_worker_blocks(&group(), one).is_empty());
    assert!(manager.remove_dead_worker(&group(), one).is_empty());
    assert_eq!(manager.get_worker_blocks(&group(), other), others);
    assert_eq!(manager.list_reported_blocks().len(), 1);
    assert_eq!(manager.stats_at(START).total_locations, 1);
}
