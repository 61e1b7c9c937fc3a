//! Commands for workers: where they come from and how they are sent.

use beryl_metadata::ids::{BlockId, BlockIndex, DataHandleId, WorkerId};
use beryl_metadata::worker::command_router::{
    DeleteOpKind, RepairCommandSource, WorkerCommand, WorkerCommandRouter, WorkerCommandSource, WorkerOrder,
};
use beryl_metadata::worker::command_sender::{CommandSender, RetryStep};
use beryl_metadata::worker::repair::queue::RepairQueue;
use beryl_metadata::worker::repair::types::RepairTask;

struct FakeCommandSource {
    commands: Vec<WorkerCommand>,
}

/// Gives as many commands as it is asked for, and notes what it was asked.
struct NotingSource {
    name: &'static str,
    asked: Vec<(u64, usize)>,
}

impl WorkerCommandSource for NotingSource {
    fn poll_commands(&mut self, worker_id: WorkerId, max: usize) -> Vec<WorkerCommand> {
        self.asked.push((worker_id.as_raw(), max));
        (0..max as u64)
            .map(|i| WorkerCommand {
                task_id: 900 + i,
                order: WorkerOrder::Evict {
                    block_ids: Vec::new(),
                    reason: self.name.to_string(),
                    intent_id: i,
                    op_kind: DeleteOpKind::Unspecified,
                    not_before_ms: 0,
                    expected_epoch: 0,
                },
            })
            .collect()
    }
}

impl WorkerCommandSource for FakeCommandSource {
    fn poll_commands(&mut self, _worker_id: WorkerId, max: usize) -> Vec<WorkerCommand> {
        let limit = max.min(self.commands.len());
        self.commands.drain(..limit).collect()
    }
}

fn command(task_id: u64) -> WorkerCommand {
    WorkerCommand {
        task_id,
        order: WorkerOrder::Evict {
            block_ids: Vec::new(),
            reason: "test".to_string(),
            intent_id: 0,
            op_kind: DeleteOpKind::Unspecified,
            not_before_ms: 0,
            expected_epoch: 0,
        },
    }
}

#[test]
fn router_rewrites_task_ids_and_honors_budget() {
    let source = FakeCommandSource { commands: vec![command(41), command(42)] };
    let mut router = WorkerCommandRouter::new();
    router.register_source(source, 8);

    let worker_id = WorkerId::new(7);
    let commands = router.poll_commands(worker_id, 1);
    assert_eq!(commands.len(), 1);
    assert_ne!(commands[0].task_id, 41);
}

#[test]
fn sources_are_asked_in_turn_within_their_limits() {
    let mut router = WorkerCommandRouter::new();
    router.register_source(FakeCommandSource { commands: (0..5).map(command).collect() }, 2);
    router.register_source(FakeCommandSource { commands: (0..5).map(command).collect() }, 8);

    let commands = router.poll_commands(WorkerId::new(7), 4);
    assert_eq!(commands.len(), 4);
    let mut ids: Vec<u64> = commands.iter().map(|c| c.task_id).collect();
    ids.dedup();
    assert_eq!(ids.len(), 4);
    assert!(router.poll_commands(WorkerId::new(7), 0).is_empty());
}

#[test]
fn repair_tasks_become_commands() {
    let block_id = BlockId::new(DataHandleId::new(1), BlockIndex::new(0));
    let mut queue = RepairQueue::new(10);
    queue
        .enqueue(RepairTask::Replicate {
            block_id,
            src_workers: vec![WorkerId::new(2)],
            target_worker: WorkerId::new(1),
            replication_factor: Some(3),
            reason: None,
        })
        .unwrap();
    queue
        .enqueue(RepairTask::EvictReplica {
            block_id,
            target_worker: WorkerId::new(1),
            reason: "Excess replica".to_string(),
        })
        .unwrap();
    let mut source = RepairCommandSource::new(queue);
    let commands = source.poll_commands_at(WorkerId::new(1), 10, 5);
    assert_eq!(commands.len(), 2);
    match &commands[0].order {
        WorkerOrder::Replicate { block_id: told, target_worker_ids } => {
            assert_eq!(*told, block_id);
            assert_eq!(*target_worker_ids, vec![1]);
        }
        other => panic!("expected a replication, got {:?}", other),
    }
    match &commands[1].order {
        WorkerOrder::Evict { block_ids, op_kind, .. } => {
            assert_eq!(*block_ids, vec![block_id]);
            assert_eq!(*op_kind, DeleteOpKind::ReplicaEvict);
        }
        other => panic!("expected an eviction, got {:?}", other),
    }
    assert!(source.poll_repair_commands(WorkerId::new(2), 10).is_empty());
}

#[test]
fn commands_are_not_pushed() {
    let mut sender = CommandSender::new(3, 100);
    let worker_id = WorkerId::new(7);
    // Nothing is pushed, whether the address is known or not.
    sender.send_command(worker_id, &command(1)).unwrap();
    assert_eq!(sender.worker_address(worker_id), None);

    sender.update_worker_address(worker_id, "10.0.0.7:9090".to_string());
    assert_eq!(sender.worker_address(worker_id), Some("10.0.0.7:9090".to_string()));
    sender.send_command(worker_id, &command(1)).unwrap();
    sender.send_command_with_retry(worker_id, &command(1)).unwrap();

    sender.remove_worker_address(worker_id);
    assert_eq!(sender.worker_address(worker_id), None);
}

#[test]
fn retries_wait_longer_and_end() {
    let sender = CommandSender::new(3, 100);
    assert!(matches!(sender.after_attempt(0, true), RetryStep::Done));
    assert!(matches!(sender.after_attempt(0, false), RetryStep::WaitMs(100)));
    assert!(matches!(sender.after_attempt(1, false), RetryStep::WaitMs(200)));
    assert!(matches!(sender.after_attempt(3, false), RetryStep::GiveUp));
    assert!(matches!(sender.after_attempt(100, false), RetryStep::GiveUp));
}

#[test]
fn sources_are_asked_in_order_for_what_fits() {
    let mut router = WorkerCommandRouter::new();
    router.register_source(NotingSource { name: "first", asked: Vec::new() }, 2);
    router.register_source(NotingSource { name: "second", asked: Vec::new() }, 8);
    router.register_source(NotingSource { name: "third", asked: Vec::new() }, 8);

    let commands = router.poll_commands(WorkerId::new(7), 5);
    let told: Vec<(u64, String, u64)> = commands
        .iter()
        .map(|c| match &c.order {
            WorkerOrder::Evict { reason, intent_id, .. } => (c.task_id, reason.clone(), *intent_id),
            other => panic!("expected an eviction, got {:?}", other),
        })
        .collect();
    assert_eq!(
        told,
        vec![
            (1, "first".to_string(), 0),
            (2, "first".to_string(), 1),
            (3, "second".to_string(), 0),
            (4, "second".to_string(), 1),
            (5, "second".to_string(), 2),
        ]
    );
    assert_eq!(router.sources[0].source.asked, vec![(7, 2)]);
    assert_eq!(router.sources[1].source.asked, vec![(7, 3)]);
    assert!(router.sources[2].source.asked.is_empty());

    assert!(router.poll_commands(WorkerId::new(7), 0).is_empty());
    assert_eq!(router.sources[0].source.asked.len(), 1);
    assert_eq!(router.poll_commands(WorkerId::new(8), 1)[0].task_id, 6);
}

#[test]
fn repair_tasks_come_through_the_router() {
    let block_id = BlockId::new(DataHandleId::new(1), BlockIndex::new(0));
    let mut queue = RepairQueue::new(10);
    queue
        .enqueue(RepairTask::EvictReplica {
            block_id,
            target_worker: WorkerId::new(1),
            reason: "Excess replica".to_string(),
        })
        .unwrap();
    let mut router = WorkerCommandRouter::new();
    router.register_source(RepairCommandSource::new(queue), 4);
    assert!(router.poll_commands(WorkerId::new(2), 10).is_empty());
    let commands = router.poll_commands(WorkerId::new(1), 10);
    assert_eq!(commands.len(), 1);
    assert_eq!(commands[0].task_id, 1);
}
