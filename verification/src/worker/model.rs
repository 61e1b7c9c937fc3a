//! What the worker manager knows, as mathematics: its state, and what each event makes of it.

use crate::clock::Moment;
use crate::error::ErrorKind;
use crate::ids::{BlockId, GroupName, WorkerId, WorkerRunId};
use crate::text;
use crate::worker::locations;
use crate::worker::types::{
    BlockReportBlock, BlockReportDeltaEntry, BlockReportDeltaOp, BlockReportState, HealthStatus, WorkerDescriptor,
    WorkerInfo, WorkerRegistrationState, WorkerRuntime,
};
use vstd::prelude::*;

verus! {

/// A worker within a group.
pub type WorkerAt = (Seq<char>, WorkerId);

/// The report of one worker.
#[verifier::ext_equal]
pub ghost struct ReportModel {
    /// The run that reports.
    pub run: Option<WorkerRunId>,
    pub state: BlockReportState,
    pub report_seq: u64,
    pub next_batch_seq: u64,
    /// Blocks of batches that came since the report started.
    pub staging: Map<BlockId, BlockReportBlock>,
    /// Blocks of the last complete report, with the deltas since.
    pub published: Map<BlockId, BlockReportBlock>,
    pub delta_seq: u64,
}

/// The state of the worker manager.
#[verifier::ext_equal]
pub ghost struct WorkerModel {
    pub descriptors: Map<WorkerAt, WorkerDescriptor>,
    /// The registrations in force.
    pub registrations: Map<WorkerAt, WorkerRegistrationState>,
    /// The last registration of each worker whose lease a sweep found to be over. Such a one is
    /// still told to those who ask, and counts for nothing else.
    pub ended: Map<WorkerAt, WorkerRegistrationState>,
    pub runtime: Map<WorkerAt, WorkerRuntime>,
    pub reports: Map<WorkerAt, ReportModel>,
    /// Workers whose published blocks can be found by block.
    pub indexed: Set<WorkerAt>,
    pub timeout_sec: u64,
    pub metadata_epoch: u64,
}

/// Why a request is turned down: the kind of error and its message.
pub ghost struct Refusal {
    pub kind: ErrorKind,
    pub text: Seq<char>,
}

/// A message that ends with the name of one worker.
pub open spec fn naming(what: Seq<char>, worker: WorkerAt) -> Seq<char> {
    what + worker.0 + ", worker_id="@ + text::decimal(worker.1.raw as nat)
}

/// A message about one worker.
pub open spec fn about(what: Seq<char>, worker: WorkerAt) -> Seq<char> {
    naming(what + " for group_name="@, worker)
}

impl ReportModel {
    /// A worker that has not reported.
    pub open spec fn none() -> ReportModel {
        ReportModel {
            run: None,
            state: BlockReportState::Empty,
            report_seq: 0,
            next_batch_seq: 0,
            staging: Map::empty(),
            published: Map::empty(),
            delta_seq: 0,
        }
    }

    /// The report once the first batch of a new one has come in sight.
    pub open spec fn started(self, run: WorkerRunId, report_seq: u64) -> ReportModel {
        ReportModel {
            run: Some(run),
            state: BlockReportState::Receiving,
            report_seq,
            next_batch_seq: 0,
            staging: Map::empty(),
            ..self
        }
    }

    /// Whether the batch continues the report.
    pub open spec fn expects(self, run: WorkerRunId, report_seq: u64, batch_seq: u64) -> bool {
        self.state == BlockReportState::Receiving && self.run == Some(run) && self.report_seq == report_seq
            && self.next_batch_seq == batch_seq
    }

    /// The report with one more batch.
    pub open spec fn staged(self, batch_seq: u64, blocks: Seq<BlockReportBlock>) -> ReportModel {
        ReportModel {
            next_batch_seq: saturating_next(batch_seq),
            staging: stage_all(self.staging, blocks),
            ..self
        }
    }

    /// The report once it is complete: what was staged is what is published.
    pub open spec fn completed(self) -> ReportModel {
        ReportModel {
            state: BlockReportState::Ready,
            staging: Map::empty(),
            published: self.staging,
            delta_seq: 0,
            ..self
        }
    }

    /// The report with deltas.
    pub open spec fn with_deltas(self, deltas: Seq<BlockReportDeltaEntry>) -> ReportModel {
        ReportModel {
            published: apply_all(self.published, deltas),
            delta_seq: saturating_sum(self.delta_seq, deltas.len()),
            ..self
        }
    }
}

pub open spec fn saturating_next(n: u64) -> u64 {
    if n == u64::MAX {
        n
    } else {
        (n + 1) as u64
    }
}

pub open spec fn saturating_sum(n: u64, more: nat) -> u64 {
    if n + more > u64::MAX {
        u64::MAX
    } else {
        (n + more) as u64
    }
}

/// The blocks with those of a batch set, a later one in place of an earlier one.
pub open spec fn stage_all(blocks: Map<BlockId, BlockReportBlock>, batch: Seq<BlockReportBlock>) -> Map<
    BlockId,
    BlockReportBlock,
>
    decreases batch.len(),
{
    if batch.len() == 0 {
        blocks
    } else {
        stage_all(blocks, batch.drop_last()).insert(batch.last().block_id, batch.last())
    }
}

/// The blocks after one delta.
pub open spec fn apply_one(blocks: Map<BlockId, BlockReportBlock>, delta: BlockReportDeltaEntry) -> Map<
    BlockId,
    BlockReportBlock,
> {
    match delta.op {
        BlockReportDeltaOp::AddUpdate => blocks.insert(delta.block.block_id, delta.block),
        BlockReportDeltaOp::Remove => blocks.remove(delta.block.block_id),
    }
}

/// The blocks after deltas, in their order.
pub open spec fn apply_all(blocks: Map<BlockId, BlockReportBlock>, deltas: Seq<BlockReportDeltaEntry>) -> Map<
    BlockId,
    BlockReportBlock,
>
    decreases deltas.len(),
{
    if deltas.len() == 0 {
        blocks
    } else {
        apply_one(apply_all(blocks, deltas.drop_last()), deltas.last())
    }
}

/// The descriptor that a stored record holds.
pub open spec fn descriptor_of(info: WorkerInfo) -> WorkerDescriptor {
    WorkerDescriptor {
        group_name: info.group_name,
        worker_id: info.worker_id,
        address: info.address,
        worker_net_protocol: info.worker_net_protocol,
        fault_domain: info.fault_domain,
    }
}

/// The descriptors of stored records, a later one in place of an earlier one of the same worker.
pub open spec fn load_all(infos: Seq<WorkerInfo>) -> Map<WorkerAt, WorkerDescriptor>
    decreases infos.len(),
{
    if infos.len() == 0 {
        Map::empty()
    } else {
        load_all(infos.drop_last()).insert((infos.last().group_name@, infos.last().worker_id), descriptor_of(infos.last()))
    }
}

/// Nanoseconds in so many seconds.
pub open spec fn nanos(sec: u64) -> nat {
    sec as nat * 1_000_000_000
}

/// What a heartbeat says.
pub ghost struct Beat {
    pub run: WorkerRunId,
    pub seq: u64,
    pub endpoint: Seq<char>,
    pub protocol: i32,
    pub capacity_total: u64,
    pub capacity_used: u64,
    pub capacity_available: u64,
    pub active_reads: u32,
    pub active_writes: u32,
    pub health: HealthStatus,
}

impl WorkerModel {
    /// Nothing known yet.
    pub open spec fn start(timeout_sec: u64, metadata_epoch: u64) -> WorkerModel {
        WorkerModel {
            descriptors: Map::empty(),
            registrations: Map::empty(),
            ended: Map::empty(),
            runtime: Map::empty(),
            reports: Map::empty(),
            indexed: Set::empty(),
            timeout_sec,
            metadata_epoch,
        }
    }

    /// Time since the last heartbeat; none where the clock reads earlier than that.
    pub open spec fn age(self, k: WorkerAt, now: Moment) -> nat {
        if now.mono_ns >= self.runtime[k].last_seen_ns {
            (now.mono_ns - self.runtime[k].last_seen_ns) as nat
        } else {
            0
        }
    }

    /// Whether the worker's last heartbeat is recent enough.
    pub open spec fn live(self, k: WorkerAt, now: Moment) -> bool {
        self.runtime.contains_key(k) && self.age(k, now) < nanos(self.timeout_sec)
    }

    /// Whether the lease of the worker's registration is over.
    pub open spec fn lapsed(self, k: WorkerAt, now: Moment) -> bool {
        self.registrations.contains_key(k) && self.registrations[k].lease_deadline_ns <= now.mono_ns
    }

    /// What a sweep at this time leaves.
    pub open spec fn swept(self, now: Moment) -> WorkerModel {
        WorkerModel {
            runtime: self.runtime.restrict(Set::new(|k: WorkerAt| self.live(k, now))),
            registrations: self.registrations.restrict(Set::new(|k: WorkerAt| !self.lapsed(k, now))),
            ended: self.ended.union_prefer_right(
                self.registrations.restrict(Set::new(|k: WorkerAt| self.lapsed(k, now))),
            ),
            ..self
        }
    }

    /// The workers that a sweep at this time takes something from.
    pub open spec fn swept_away(self, now: Moment) -> Set<WorkerAt> {
        Set::new(|k: WorkerAt| (self.runtime.contains_key(k) && !self.live(k, now)) || self.lapsed(k, now))
    }

    /// The registration that is told of a worker: the one in force, or the last whose lease ran
    /// out.
    pub open spec fn last_registration(self, k: WorkerAt) -> Option<WorkerRegistrationState> {
        if self.registrations.contains_key(k) {
            Some(self.registrations[k])
        } else {
            self.ended.get(k)
        }
    }

    /// The report of a worker, or that of one that has not reported.
    pub open spec fn report(self, k: WorkerAt) -> ReportModel {
        if self.reports.contains_key(k) {
            self.reports[k]
        } else {
            ReportModel::none()
        }
    }

    /// The blocks under which the worker can be found.
    pub open spec fn blocks(self, k: WorkerAt) -> Set<BlockId> {
        if self.indexed.contains(k) {
            locations::ready(self.report(k).published)
        } else {
            Set::empty()
        }
    }

    /// The state without anything that the worker reported.
    pub open spec fn without_report(self, k: WorkerAt) -> WorkerModel {
        WorkerModel { reports: self.reports.remove(k), indexed: self.indexed.remove(k), ..self }
    }

    /// Whether a different run of the worker is registered.
    pub open spec fn other_run(self, k: WorkerAt, run: WorkerRunId) -> bool {
        self.registrations.contains_key(k) && self.registrations[k].worker_run_id != run
    }

    /// Why a registration is turned down where a worker may have one run at a time.
    pub open spec fn run_refusal(self, k: WorkerAt, run: WorkerRunId) -> Option<Refusal> {
        if self.other_run(k, run) {
            Some(
                Refusal {
                    kind: ErrorKind::AlreadyExists,
                    text: "worker_id "@ + text::decimal(k.1.raw as nat) + " in group_name "@ + k.0
                        + " is already registered with worker_run_id "@ + text::hyphenated(
                        self.registrations[k].worker_run_id.raw as nat,
                    ),
                },
            )
        } else {
            None
        }
    }

    /// Why a registration is turned down: the same run came back with another endpoint or
    /// protocol, or another run claims another endpoint while the worker is live.
    pub open spec fn registration_refusal(
        self,
        k: WorkerAt,
        run: WorkerRunId,
        endpoint: Seq<char>,
        protocol: i32,
        now: Moment,
    ) -> Option<Refusal> {
        if !self.registrations.contains_key(k) {
            None
        } else if self.registrations[k].worker_run_id == run {
            if self.registrations[k].address@ != endpoint || self.registrations[k].worker_net_protocol != protocol {
                Some(
                    Refusal {
                        kind: ErrorKind::InvalidArgument,
                        text: about("worker descriptor mismatch"@, k),
                    },
                )
            } else {
                None
            }
        } else if self.live(k, now) && self.registrations[k].address@ != endpoint {
            Some(Refusal { kind: ErrorKind::ActiveWorkerConflict, text: about("active worker conflict"@, k) })
        } else {
            None
        }
    }

    /// The state with a run registered. A run that was registered before keeps what it has
    /// reported; a new one starts without heartbeat and report.
    pub open spec fn registered(
        self,
        group_name: GroupName,
        worker_id: WorkerId,
        address: String,
        protocol: i32,
        run: WorkerRunId,
        fault_domain: Option<String>,
        now: Moment,
    ) -> WorkerModel {
        let k = (group_name@, worker_id);
        let known = self.registrations.contains_key(k) && self.registrations[k].worker_run_id == run;
        let descriptors = self.descriptors.insert(
            k,
            WorkerDescriptor { group_name, worker_id, address, worker_net_protocol: protocol, fault_domain },
        );
        let registrations = self.registrations.insert(
            k,
            WorkerRegistrationState {
                group_name,
                worker_id,
                worker_run_id: run,
                address,
                worker_net_protocol: protocol,
                fault_domain,
                registered_at_ms: now.wall_ms,
                lease_deadline_ns: (now.mono_ns + nanos(self.timeout_sec)) as u128,
            },
        );
        let ended = self.ended.remove(k);
        if known {
            WorkerModel { descriptors, registrations, ended, ..self }
        } else {
            WorkerModel { descriptors, registrations, ended, runtime: self.runtime.remove(k), ..self.without_report(k) }
        }
    }

    /// Why a report is turned down before it is read.
    pub open spec fn source_refusal(self, k: WorkerAt, run: WorkerRunId, now: Moment) -> Option<Refusal> {
        if !self.registrations.contains_key(k) {
            Some(Refusal { kind: ErrorKind::NotFound, text: about("worker not registered"@, k) })
        } else if self.registrations[k].worker_run_id != run {
            Some(Refusal { kind: ErrorKind::StaleState, text: about("worker_run_id mismatch"@, k) })
        } else if !self.live(k, now) {
            Some(
                Refusal {
                    kind: ErrorKind::NotFound,
                    text: about("worker heartbeat readiness lease not found"@, k),
                },
            )
        } else {
            None
        }
    }

    /// Whether the batch would start a report older than the one that is held.
    pub open spec fn stale_start(self, k: WorkerAt, run: WorkerRunId, report_seq: u64, batch_seq: u64) -> bool {
        batch_seq == 0 && self.report(k).run == Some(run) && self.report(k).report_seq > report_seq
    }

    /// The report as the batch finds it.
    pub open spec fn report_for_batch(self, k: WorkerAt, run: WorkerRunId, report_seq: u64, batch_seq: u64) -> ReportModel {
        if batch_seq == 0 {
            self.report(k).started(run, report_seq)
        } else {
            self.report(k)
        }
    }

    /// Why a batch of a full report is turned down.
    pub open spec fn batch_refusal(self, k: WorkerAt, run: WorkerRunId, report_seq: u64, batch_seq: u64) -> Option<Refusal> {
        if self.stale_start(k, run, report_seq, batch_seq) {
            Some(
                Refusal {
                    kind: ErrorKind::FullReportRequired,
                    text: about("full report required: stale report_seq "@ + text::decimal(report_seq as nat), k)
                        + ", current "@ + text::decimal(self.report(k).report_seq as nat),
                },
            )
        } else if !self.report_for_batch(k, run, report_seq, batch_seq).expects(run, report_seq, batch_seq) {
            Some(
                Refusal {
                    kind: ErrorKind::FullReportRequired,
                    text: about(
                        "full report required: expected batch_seq "@ + text::decimal(
                            self.report(k).next_batch_seq as nat,
                        ),
                        k,
                    ),
                },
            )
        } else {
            None
        }
    }

    /// The state after a batch that was taken.
    pub open spec fn with_batch(
        self,
        k: WorkerAt,
        run: WorkerRunId,
        report_seq: u64,
        batch_seq: u64,
        final_batch: bool,
        blocks: Seq<BlockReportBlock>,
    ) -> WorkerModel {
        let staged = self.report_for_batch(k, run, report_seq, batch_seq).staged(batch_seq, blocks);
        if final_batch {
            WorkerModel {
                reports: self.reports.insert(k, staged.completed()),
                indexed: self.indexed.insert(k),
                ..self
            }
        } else {
            WorkerModel { reports: self.reports.insert(k, staged), ..self }
        }
    }

    /// The state after a batch that was turned down. One that starts an older report leaves no
    /// trace; else the worker is known to have tried.
    pub open spec fn with_batch_refused(self, k: WorkerAt, run: WorkerRunId, report_seq: u64, batch_seq: u64) -> WorkerModel {
        if self.stale_start(k, run, report_seq, batch_seq) {
            self
        } else {
            WorkerModel { reports: self.reports.insert(k, self.report(k)), ..self }
        }
    }

    /// Why deltas are turned down.
    pub open spec fn delta_refusal(
        self,
        k: WorkerAt,
        run: WorkerRunId,
        report_seq: u64,
        delta_seq: u64,
        count: nat,
    ) -> Option<Refusal> {
        let held = self.report(k);
        if !self.reports.contains_key(k) {
            Some(Refusal { kind: ErrorKind::FullReportRequired, text: about("full report required before delta"@, k) })
        } else if held.state != BlockReportState::Ready || held.run != Some(run) || held.report_seq != report_seq {
            Some(
                Refusal {
                    kind: ErrorKind::FullReportRequired,
                    text: naming("full report required for current baseline: group_name="@, k),
                },
            )
        } else if delta_seq < held.delta_seq && saturating_sum(delta_seq, count) > held.delta_seq {
            Some(
                Refusal {
                    kind: ErrorKind::FullReportRequired,
                    text: "full report required after overlapping old delta: expected delta_seq "@ + text::decimal(
                        held.delta_seq as nat,
                    ) + ", got "@ + text::decimal(delta_seq as nat),
                },
            )
        } else if delta_seq > held.delta_seq {
            Some(
                Refusal {
                    kind: ErrorKind::FullReportRequired,
                    text: "full report required after delta gap: expected delta_seq "@ + text::decimal(
                        held.delta_seq as nat,
                    ) + ", got "@ + text::decimal(delta_seq as nat),
                },
            )
        } else {
            None
        }
    }

    /// The state after deltas that were taken. Deltas that were taken before change nothing.
    pub open spec fn with_deltas(self, k: WorkerAt, delta_seq: u64, deltas: Seq<BlockReportDeltaEntry>) -> WorkerModel {
        if delta_seq < self.report(k).delta_seq {
            self
        } else {
            WorkerModel {
                reports: self.reports.insert(k, self.report(k).with_deltas(deltas)),
                indexed: self.indexed.insert(k),
                ..self
            }
        }
    }

    /// Why a heartbeat is turned down.
    pub open spec fn beat_refusal(self, k: WorkerAt, beat: Beat) -> Option<Refusal> {
        if !self.descriptors.contains_key(k) {
            Some(Refusal { kind: ErrorKind::NotFound, text: about("worker descriptor not found"@, k) })
        } else if !self.registrations.contains_key(k) {
            Some(Refusal { kind: ErrorKind::NotFound, text: about("live worker registration not found"@, k) })
        } else if self.registrations[k].worker_run_id != beat.run {
            Some(Refusal { kind: ErrorKind::StaleState, text: about("worker_run_id mismatch"@, k) })
        } else if self.descriptors[k].address@ != beat.endpoint || self.descriptors[k].worker_net_protocol
            != beat.protocol {
            Some(Refusal { kind: ErrorKind::InvalidArgument, text: about("worker descriptor mismatch"@, k) })
        } else {
            None
        }
    }

    /// Whether the heartbeat is no newer than the one that is held.
    pub open spec fn old_beat(self, k: WorkerAt, beat: Beat) -> bool {
        self.runtime.contains_key(k) && beat.seq <= self.runtime[k].heartbeat_seq
    }

    /// What is held of the worker after a heartbeat. An old one renews the times alone.
    pub open spec fn runtime_after(self, k: WorkerAt, beat: Beat, now: Moment) -> WorkerRuntime {
        if self.old_beat(k, beat) {
            WorkerRuntime {
                worker_run_id: beat.run,
                last_seen_ns: now.mono_ns,
                last_seen_ms: now.wall_ms,
                ..self.runtime[k]
            }
        } else {
            WorkerRuntime {
                worker_run_id: beat.run,
                heartbeat_seq: beat.seq,
                last_seen_ns: now.mono_ns,
                last_seen_ms: now.wall_ms,
                capacity_total: beat.capacity_total,
                capacity_used: beat.capacity_used,
                capacity_available: beat.capacity_available,
                active_reads: beat.active_reads,
                active_writes: beat.active_writes,
                health: beat.health,
            }
        }
    }

    /// The state after a heartbeat that was taken.
    pub open spec fn with_beat(self, k: WorkerAt, beat: Beat, now: Moment) -> WorkerModel {
        WorkerModel {
            runtime: self.runtime.insert(k, self.runtime_after(k, beat, now)),
            registrations: self.registrations.insert(
                k,
                WorkerRegistrationState {
                    lease_deadline_ns: (now.mono_ns + nanos(self.timeout_sec)) as u128,
                    ..self.registrations[k]
                },
            ),
            ..self
        }
    }

    /// Whether the worker's last heartbeat lies within so many milliseconds of wall time.
    pub open spec fn active(self, k: WorkerAt, now_ms: u64, ttl_ms: u64) -> bool {
        self.runtime.contains_key(k) && (if now_ms >= self.runtime[k].last_seen_ms {
            now_ms - self.runtime[k].last_seen_ms
        } else {
            0
        }) < ttl_ms
    }

    /// Whether the run of the worker's last heartbeat has published its blocks.
    pub open spec fn full_reported(self, k: WorkerAt) -> bool {
        self.runtime.contains_key(k) && self.reports.contains_key(k) && self.reports[k].state
            == BlockReportState::Ready && self.reports[k].run == Some(self.runtime[k].worker_run_id)
    }
}

} // verus!
