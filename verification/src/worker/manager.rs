//! The worker manager: registrations, heartbeats and block reports of workers, by group.
//!
//! Descriptions of workers last; all else is held in memory and is lost on a restart, after
//! which workers register and report again.

use crate::clock;
use crate::clock::Moment;
use crate::error::{MetadataError, MetadataResult};
use crate::endpoint::endpoint_host;
use crate::ids::{BlockId, GroupName, WorkerId, WorkerRunId};
use crate::placement::{BlockFormatId, ReportedBlockLocation, WorkerPlacementView};
use crate::table;
use crate::table::{Table, TableKey};
use crate::text;
use crate::worker::locations;
use crate::worker::locations::{BlockLocations, BlockTable};
use crate::worker::model;
use crate::worker::types::{
    copy_text, BlockLocationKey, BlockReportApplyResult, BlockReportBlock, BlockReportConvergenceSnapshot,
    BlockReportDeltaEntry, BlockReportDeltaOp, BlockReportState, HealthStatus, WorkerDescriptor, WorkerFigures,
    WorkerInfo, WorkerLiveState, WorkerManagerStats, WorkerRegistrationKey, WorkerRegistrationState, WorkerRuntime,
};
use vstd::prelude::*;
use vstd::string::*;

verus! {

/// The report of one worker as it is held.
struct BlockReport {
    worker_run_id: Option<WorkerRunId>,
    state: BlockReportState,
    report_seq: u64,
    next_batch_seq: u64,
    staging_blocks: BlockTable,
    published_blocks: BlockTable,
    delta_seq: u64,
}

impl BlockReport {
    spec fn model(self) -> model::ReportModel {
        model::ReportModel {
            run: self.worker_run_id,
            state: self.state,
            report_seq: self.report_seq,
            next_batch_seq: self.next_batch_seq,
            staging: self.staging_blocks@,
            published: self.published_blocks@,
            delta_seq: self.delta_seq,
        }
    }

    /// The blocks stand under their identities, and a complete report is that of a run.
    spec fn sound(self) -> bool {
        &&& locations::self_keyed(self.staging_blocks@)
        &&& locations::self_keyed(self.published_blocks@)
        &&& self.state == BlockReportState::Ready ==> self.worker_run_id is Some
    }

    fn empty() -> (report: Self)
        ensures
            report.model() == model::ReportModel::none(),
            report.sound(),
    {
        BlockReport {
            worker_run_id: None,
            state: BlockReportState::Empty,
            report_seq: 0,
            next_batch_seq: 0,
            staging_blocks: Table::new(),
            published_blocks: Table::new(),
            delta_seq: 0,
        }
    }
}

/// What is known of the workers of the groups that this process serves.
pub struct WorkerManager {
    descriptors: Table<WorkerRegistrationKey, WorkerDescriptor>,
    registrations: Table<WorkerRegistrationKey, WorkerRegistrationState>,
    ended: Table<WorkerRegistrationKey, WorkerRegistrationState>,
    runtime: Table<WorkerRegistrationKey, WorkerRuntime>,
    locations: BlockLocations,
    worker_blocks: Table<WorkerRegistrationKey, Vec<BlockId>>,
    block_reports: Table<WorkerRegistrationKey, BlockReport>,
    metadata_epoch: u64,
    heartbeat_timeout_sec: u64,
    started: std::time::Instant,
}

/// The result is the refusal's error, or there was no refusal.
pub open spec fn answers(error: Option<MetadataError>, refusal: Option<model::Refusal>) -> bool {
    match (error, refusal) {
        (Some(e), Some(r)) => e.says(r.kind, r.text),
        (None, None) => true,
        _ => false,
    }
}

/// The request was turned down with this refusal.
pub open spec fn refused<T>(result: MetadataResult<T>, refusal: model::Refusal) -> bool {
    match result {
        Ok(_) => false,
        Err(e) => e.says(refusal.kind, refusal.text),
    }
}

/// A message about one worker.
fn about(what: &str, key: &WorkerRegistrationKey) -> (message: String)
    ensures
        message@ == model::about(what@, key@),
{
    let message = text::join(what, " for group_name=");
    naming(message, key)
}

/// A message that ends with the name of one worker.
fn naming(what: String, key: &WorkerRegistrationKey) -> (message: String)
    ensures
        message@ == model::naming(what@, key@),
{
    let mut message = what;
    message.append(key.group_name.name.as_str());
    message.append(", worker_id=");
    text::push_decimal(&mut message, key.worker_id.raw);
    message
}

impl View for WorkerManager {
    type V = model::WorkerModel;

    closed spec fn view(&self) -> model::WorkerModel {
        model::WorkerModel {
            descriptors: self.descriptors@,
            registrations: self.registrations@,
            ended: self.ended@,
            runtime: self.runtime@,
            reports: self.block_reports@.map_values(|r: BlockReport| r.model()),
            indexed: self.worker_blocks@.dom(),
            timeout_sec: self.heartbeat_timeout_sec,
            metadata_epoch: self.metadata_epoch,
        }
    }
}

/// Each record stands under the worker that it names.
spec fn own_keys(
    descriptors: Map<model::WorkerAt, WorkerDescriptor>,
    registrations: Map<model::WorkerAt, WorkerRegistrationState>,
) -> bool {
    &&& forall|k: model::WorkerAt|
        #[trigger]
        descriptors.contains_key(k) ==> k == (descriptors[k].group_name@, descriptors[k].worker_id)
    &&& forall|k: model::WorkerAt|
        #[trigger]
        registrations.contains_key(k) ==> k == (registrations[k].group_name@, registrations[k].worker_id)
}

/// A worker with a heartbeat or a registration has a descriptor, and its heartbeat is of the run
/// that is registered.
spec fn nested(
    descriptors: Map<model::WorkerAt, WorkerDescriptor>,
    registrations: Map<model::WorkerAt, WorkerRegistrationState>,
    runtime: Map<model::WorkerAt, WorkerRuntime>,
) -> bool {
    &&& forall|k: model::WorkerAt| #[trigger] registrations.contains_key(k) ==> descriptors.contains_key(k)
    &&& forall|k: model::WorkerAt|
        #[trigger]
        runtime.contains_key(k) ==> descriptors.contains_key(k) && (registrations.contains_key(k)
            ==> registrations[k].worker_run_id == runtime[k].worker_run_id)
}

/// The lists of ready blocks are those of the published reports.
spec fn lists_published(
    worker_blocks: Map<model::WorkerAt, Vec<BlockId>>,
    block_reports: Map<model::WorkerAt, BlockReport>,
) -> bool {
    &&& forall|k: model::WorkerAt| #[trigger] block_reports.contains_key(k) ==> block_reports[k].sound()
    &&& forall|k: model::WorkerAt|
        #[trigger]
        worker_blocks.contains_key(k) ==> block_reports.contains_key(k) && worker_blocks[k]@.no_duplicates()
            && worker_blocks[k]@.to_set() == locations::ready(block_reports[k].published_blocks@)
}

/// `block` stands in the worker's list of ready blocks.
spec fn lists_block(
    worker_blocks: Map<model::WorkerAt, Vec<BlockId>>,
    block: (Seq<char>, BlockId),
    k: model::WorkerAt,
) -> bool {
    k.0 == block.0 && worker_blocks.contains_key(k) && worker_blocks[k]@.contains(block.1)
}

/// The index names exactly the workers that list the block.
spec fn index_agrees(
    index: Map<(Seq<char>, BlockId), Vec<WorkerRegistrationKey>>,
    worker_blocks: Map<model::WorkerAt, Vec<BlockId>>,
) -> bool {
    &&& locations::tidy(index)
    &&& forall|b: (Seq<char>, BlockId), k: model::WorkerAt|
        #[trigger]
        locations::holds(index, b, k) <==> lists_block(worker_blocks, b, k)
}

/// The lists of all workers are as they were, order included.
pub open spec fn keeps_lists(before: WorkerManager, after: WorkerManager) -> bool {
    forall|k: model::WorkerAt| #[trigger] after.listed(k) == before.listed(k)
}

/// The lists of all workers but one are as they were, order included.
pub open spec fn keeps_other_lists(before: WorkerManager, after: WorkerManager, k0: model::WorkerAt) -> bool {
    forall|k: model::WorkerAt| k != k0 ==> #[trigger] after.listed(k) == before.listed(k)
}

impl WorkerManager {
    /// The blocks under which the worker is found, in the order in which they are told.
    pub closed spec fn listed(&self, k: model::WorkerAt) -> Seq<BlockId> {
        if self.worker_blocks@.contains_key(k) {
            self.worker_blocks@[k]@
        } else {
            Seq::empty()
        }
    }

    /// The list of a worker holds the ready blocks that it published, each once.
    pub proof fn law_lists_are_published_blocks(&self, k: model::WorkerAt)
        requires
            self.inv(),
        ensures
            self.listed(k).no_duplicates(),
            self.listed(k).to_set() == self@.blocks(k),
            self@.blocks(k).finite(),
    {
        self.listed(k).unique_seq_to_set();
        if self.worker_blocks@.contains_key(k) {
            assert(self@.report(k).published == self.block_reports@[k].published_blocks@);
        } else {
            assert(self.listed(k).to_set() =~= Set::<BlockId>::empty());
        }
    }

    /// A complete report is that of a run, so that each worker that holds a block in one can be
    /// named with the run that reported it.
    pub proof fn law_complete_reports_have_a_run(&self, k: model::WorkerAt)
        requires
            self.inv(),
            self@.report(k).state == BlockReportState::Ready,
        ensures
            self@.report(k).run is Some,
    {
        assert(self.block_reports@.contains_key(k));
    }

    /// The pairs of a block and a worker under which it is found are as many as the workers'
    /// published ready blocks taken together.
    pub proof fn law_locations_add_up(&self, workers: Seq<model::WorkerAt>)
        requires
            self.inv(),
            workers.no_duplicates(),
            workers.to_set() == self@.indexed,
        ensures
            holder_pairs(self@).finite(),
            holder_pairs(self@).len() == copies_held(self@, workers),
    {
        self.lemma_pairs_of(workers);
        assert(pairs_held(self@, workers) =~= holder_pairs(self@)) by {
            assert forall|p: (model::WorkerAt, BlockId)| holder_pairs(self@).contains(p) implies workers.contains(p.0) by {
                assert(self@.indexed.contains(p.0));
                assert(workers.to_set().contains(p.0));
            }
        }
    }

    /// The index of locations is that of the workers' lists. Each list holds the ready blocks that
    /// its worker published, each once, and a worker that is not indexed has none. A block is among
    /// the reported ones exactly where a list of a worker of its group holds it. The locations are
    /// as many as the entries of all lists taken together. However the reported blocks are listed,
    /// they are as many as are counted.
    pub proof fn law_index_is_that_of_the_lists(
        &self,
        workers: Seq<model::WorkerAt>,
        reported: Seq<BlockLocationKey>,
    )
        requires
            self.inv(),
            workers.no_duplicates(),
            workers.to_set() == self@.indexed,
            table::lists(reported, reported_blocks(self@)),
        ensures
            self@.indexed.finite(),
            forall|k: model::WorkerAt|
                (#[trigger] self.listed(k)).no_duplicates() && self.listed(k).to_set() == self@.blocks(k),
            forall|k: model::WorkerAt| !workers.contains(k) ==> (#[trigger] self.listed(k)).len() == 0,
            forall|b: (Seq<char>, BlockId)| #[trigger]
                reported_blocks(self@).contains(b) <==> exists|w: WorkerId|
                    (#[trigger] self.listed((b.0, w))).contains(b.1),
            holder_pairs(self@).finite(),
            holder_pairs(self@).len() == entries_of(*self, workers),
            reported_blocks(self@).finite(),
            reported.len() == reported_blocks(self@).len(),
    {
        self.worker_blocks.lemma_finite();
        assert forall|k: model::WorkerAt|
            (#[trigger] self.listed(k)).no_duplicates() && self.listed(k).to_set() == self@.blocks(k) by {
            self.law_lists_are_published_blocks(k);
        }
        assert forall|k: model::WorkerAt| !workers.contains(k) implies (#[trigger] self.listed(k)).len() == 0 by {
            assert(!workers.to_set().contains(k));
        }
        assert forall|b: (Seq<char>, BlockId)| #[trigger]
            reported_blocks(self@).contains(b) <==> exists|w: WorkerId|
                (#[trigger] self.listed((b.0, w))).contains(b.1) by {
            if reported_blocks(self@).contains(b) {
                let w = choose|w: WorkerId| #[trigger] self@.blocks((b.0, w)).contains(b.1);
                assert(self.listed((b.0, w)).to_set().contains(b.1));
            }
            if exists|w: WorkerId| (#[trigger] self.listed((b.0, w))).contains(b.1) {
                let w = choose|w: WorkerId| (#[trigger] self.listed((b.0, w))).contains(b.1);
                assert(self.listed((b.0, w)).to_set().contains(b.1));
                assert(self@.blocks((b.0, w)).contains(b.1));
            }
        }
        self.law_locations_add_up(workers);
        self.lemma_entries_are_copies(workers);
        table::lemma_lists_len(reported, reported_blocks(self@));
    }

    proof fn lemma_entries_are_copies(&self, workers: Seq<model::WorkerAt>)
        requires
            self.inv(),
        ensures
            entries_of(*self, workers) == copies_held(self@, workers),
        decreases workers.len(),
    {
        if workers.len() > 0 {
            self.lemma_entries_are_copies(workers.drop_last());
            self.law_lists_are_published_blocks(workers.last());
            self.listed(workers.last()).unique_seq_to_set();
        }
    }

    proof fn lemma_pairs_of(&self, workers: Seq<model::WorkerAt>)
        requires
            self.inv(),
            workers.no_duplicates(),
        ensures
            pairs_held(self@, workers).finite(),
            pairs_held(self@, workers).len() == copies_held(self@, workers),
        decreases workers.len(),
    {
        if workers.len() == 0 {
            assert(pairs_held(self@, workers) =~= Set::<(model::WorkerAt, BlockId)>::empty());
        } else {
            let rest = workers.drop_last();
            let k = workers.last();
            self.lemma_pairs_of(rest);
            self.law_lists_are_published_blocks(k);
            let pair = |b: BlockId| (k, b);
            let own = self@.blocks(k).map(pair);
            vstd::set_lib::lemma_map_size(self@.blocks(k), own, pair);
            assert forall|p: (model::WorkerAt, BlockId)| #[trigger] own.contains(p) <==> p.0 == k && self@.blocks(
                k,
            ).contains(p.1) by {
                if p.0 == k && self@.blocks(k).contains(p.1) {
                    assert(pair(p.1) == p);
                }
            }
            assert forall|w: model::WorkerAt| #[trigger] workers.contains(w) <==> rest.contains(w) || w == k by {
                if workers.contains(w) && w != k {
                    let i = choose|i: int| 0 <= i < workers.len() && workers[i] == w;
                    assert(rest[i] == w);
                }
                if rest.contains(w) {
                    let i = choose|i: int| 0 <= i < rest.len() && rest[i] == w;
                    assert(workers[i] == w);
                }
                assert(workers[workers.len() - 1] == k);
            }
            assert(!rest.contains(k)) by {
                if rest.contains(k) {
                    let i = choose|i: int| 0 <= i < rest.len() && rest[i] == k;
                    assert(workers[i] == workers[workers.len() - 1]);
                }
            }
            assert(pairs_held(self@, workers) =~= pairs_held(self@, rest) + own);
            vstd::set_lib::lemma_set_disjoint_lens(pairs_held(self@, rest), own);
        }
    }
}

/// The pairs of one of these workers and a block under which it is found.
spec fn pairs_held(m: model::WorkerModel, workers: Seq<model::WorkerAt>) -> Set<(model::WorkerAt, BlockId)> {
    Set::new(|p: (model::WorkerAt, BlockId)| workers.contains(p.0) && m.blocks(p.0).contains(p.1))
}

/// How many published ready blocks the workers have, taken together.
pub open spec fn copies_held(m: model::WorkerModel, workers: Seq<model::WorkerAt>) -> nat
    decreases workers.len(),
{
    if workers.len() == 0 {
        0
    } else {
        copies_held(m, workers.drop_last()) + m.blocks(workers.last()).len()
    }
}

/// How many entries the lists of the workers have, taken together.
pub open spec fn entries_of(manager: WorkerManager, workers: Seq<model::WorkerAt>) -> nat
    decreases workers.len(),
{
    if workers.len() == 0 {
        0
    } else {
        entries_of(manager, workers.drop_last()) + manager.listed(workers.last()).len()
    }
}

/// The epoch after another: that of the time in seconds, or the next where that is no further. The
/// last stays.
pub open spec fn epoch_after(epoch: u64, now_sec: u64) -> u64 {
    if now_sec > epoch {
        now_sec
    } else if epoch == u64::MAX {
        epoch
    } else {
        (epoch + 1) as u64
    }
}

/// The epoch after another, given the time in seconds.
pub fn next_epoch(epoch: u64, now_sec: u64) -> (next: u64)
    ensures
        next == epoch_after(epoch, now_sec),
        epoch < u64::MAX ==> next > epoch,
{
    if now_sec > epoch {
        now_sec
    } else if epoch == u64::MAX {
        epoch
    } else {
        epoch + 1
    }
}

impl WorkerManager {
    /// What holds between operations.
    pub closed spec fn inv(&self) -> bool {
        &&& own_keys(self.descriptors@, self.registrations@)
        &&& nested(self.descriptors@, self.registrations@, self.runtime@)
        &&& lists_published(self.worker_blocks@, self.block_reports@)
        &&& index_agrees(self.locations@, self.worker_blocks@)
    }

    /// A manager that knows no worker. Workers whose last heartbeat is older than the timeout
    /// are not live.
    pub fn new(heartbeat_timeout_sec: u64) -> (manager: Self)
        ensures
            manager.inv(),
            manager@ == model::WorkerModel::start(heartbeat_timeout_sec, manager@.metadata_epoch),
    {
        let manager = WorkerManager {
            descriptors: Table::new(),
            registrations: Table::new(),
            ended: Table::new(),
            runtime: Table::new(),
            locations: Table::new(),
            worker_blocks: Table::new(),
            block_reports: Table::new(),
            metadata_epoch: clock::unix_millis() / 1000,
            heartbeat_timeout_sec,
            started: clock::monotonic_start(),
        };
        proof {
            assert(manager@ =~= model::WorkerModel::start(heartbeat_timeout_sec, manager@.metadata_epoch));
        }
        manager
    }

    pub(crate) fn now(&self) -> Moment {
        clock::read_clocks(&self.started)
    }

    /// The epoch that tells restarts of this process apart.
    pub fn get_metadata_epoch(&self) -> (epoch: u64)
        ensures
            epoch == self@.metadata_epoch,
    {
        self.metadata_epoch
    }

    pub fn heartbeat_timeout_sec(&self) -> (sec: u64)
        ensures
            sec == self@.timeout_sec,
    {
        self.heartbeat_timeout_sec
    }

    /// The heartbeat timeout in nanoseconds.
    fn timeout_ns(&self) -> (ns: u128)
        ensures
            ns == model::nanos(self@.timeout_sec),
    {
        assert(self.heartbeat_timeout_sec as u128 * 1_000_000_000 <= u128::MAX) by (nonlinear_arith);
        self.heartbeat_timeout_sec as u128 * 1_000_000_000
    }

    /// Starts this epoch: all but the descriptors is forgotten.
    pub fn start_metadata_epoch(&mut self, epoch: u64)
        requires
            old(self).inv(),
        ensures
            final(self).inv(),
            forall|k: model::WorkerAt| (#[trigger] final(self).listed(k)).len() == 0,
            final(self)@ == (model::WorkerModel {
                descriptors: old(self)@.descriptors,
                ..model::WorkerModel::start(old(self)@.timeout_sec, epoch)
            }),
    {
        self.metadata_epoch = epoch;
        self.registrations = Table::new();
        self.ended = Table::new();
        self.runtime = Table::new();
        self.clear_all_block_reports();
        proof {
            assert(self@ =~= model::WorkerModel {
                descriptors: old(self)@.descriptors,
                ..model::WorkerModel::start(old(self)@.timeout_sec, self@.metadata_epoch)
            });
        }
    }

    /// Starts a new epoch: all but the descriptors is forgotten. The epoch is that of the time, or
    /// the next one where the time has not come further, so that it tells this start from what was
    /// before.
    pub fn increment_metadata_epoch(&mut self)
        requires
            old(self).inv(),
        ensures
            final(self).inv(),
            forall|k: model::WorkerAt| (#[trigger] final(self).listed(k)).len() == 0,
            final(self)@ == (model::WorkerModel {
                descriptors: old(self)@.descriptors,
                ..model::WorkerModel::start(old(self)@.timeout_sec, final(self)@.metadata_epoch)
            }),
            exists|now_sec: u64| final(self)@.metadata_epoch == #[trigger] epoch_after(old(self)@.metadata_epoch, now_sec),
            old(self)@.metadata_epoch < u64::MAX ==> final(self)@.metadata_epoch > old(self)@.metadata_epoch,
    {
        let now_sec: u64 = clock::unix_millis() / 1000;
        let epoch = next_epoch(self.metadata_epoch, now_sec);
        self.start_metadata_epoch(epoch);
        assert(self@.metadata_epoch == epoch_after(old(self)@.metadata_epoch, now_sec));
    }

    fn clear_all_block_reports(&mut self)
        ensures
            final(self).descriptors == old(self).descriptors,
            final(self).registrations == old(self).registrations,
            final(self).ended == old(self).ended,
            final(self).runtime == old(self).runtime,
            final(self).heartbeat_timeout_sec == old(self).heartbeat_timeout_sec,
            final(self).metadata_epoch == old(self).metadata_epoch,
            final(self).locations@ == Map::<(Seq<char>, BlockId), Vec<WorkerRegistrationKey>>::empty(),
            final(self).worker_blocks@ == Map::<model::WorkerAt, Vec<BlockId>>::empty(),
            final(self).block_reports@ == Map::<model::WorkerAt, BlockReport>::empty(),
    {
        self.block_reports = Table::new();
        self.worker_blocks = Table::new();
        self.locations = Table::new();
    }

    /// Sets a worker's descriptor.
    pub fn upsert_descriptor(&mut self, descriptor: WorkerDescriptor) -> (result: MetadataResult<()>)
        requires
            old(self).inv(),
        ensures
            final(self).inv(),
            keeps_lists(*old(self), *final(self)),
            result is Ok,
            final(self)@ == (model::WorkerModel {
                descriptors: old(self)@.descriptors.insert(
                    (descriptor.group_name@, descriptor.worker_id),
                    descriptor,
                ),
                ..old(self)@
            }),
    {
        let key = WorkerRegistrationKey::new(&descriptor.group_name, descriptor.worker_id);
        self.descriptors.insert(key, descriptor);
        Ok(())
    }

    /// Takes stored descriptors in place of all that is known. Registrations are not stored, so
    /// every worker has to register again.
    pub fn load_registered_workers(&mut self, workers: Vec<WorkerInfo>) -> (result: MetadataResult<()>)
        requires
            old(self).inv(),
        ensures
            final(self).inv(),
            forall|k: model::WorkerAt| (#[trigger] final(self).listed(k)).len() == 0,
            result is Ok,
            final(self)@ == (model::WorkerModel {
                descriptors: model::load_all(workers@),
                ..model::WorkerModel::start(old(self)@.timeout_sec, old(self)@.metadata_epoch)
            }),
    {
        let mut descriptors: Table<WorkerRegistrationKey, WorkerDescriptor> = Table::new();
        let mut i: usize = 0;
        while i < workers.len()
            invariant
                i <= workers@.len(),
                descriptors@ == model::load_all(workers@.take(i as int)),
                forall|k: model::WorkerAt| #[trigger]
                    descriptors@.contains_key(k) ==> k == (
                        descriptors@[k].group_name@,
                        descriptors@[k].worker_id,
                    ),
            decreases workers@.len() - i,
        {
            let worker = &workers[i];
            let descriptor = WorkerDescriptor {
                group_name: worker.group_name.clone(),
                worker_id: worker.worker_id,
                address: worker.address.clone(),
                worker_net_protocol: worker.worker_net_protocol,
                fault_domain: copy_text(&worker.fault_domain),
            };
            descriptors.insert(WorkerRegistrationKey::new(&worker.group_name, worker.worker_id), descriptor);
            proof {
                assert(workers@.take(i + 1).drop_last() =~= workers@.take(i as int));
                assert(workers@.take(i + 1).last() == workers@[i as int]);
            }
            i += 1;
        }
        proof {
            assert(workers@.take(workers@.len() as int) =~= workers@);
        }
        self.descriptors = descriptors;
        self.registrations = Table::new();
        self.ended = Table::new();
        self.runtime = Table::new();
        self.clear_all_block_reports();
        proof {
            assert(self@ =~= model::WorkerModel {
                descriptors: model::load_all(workers@),
                ..model::WorkerModel::start(old(self)@.timeout_sec, old(self)@.metadata_epoch)
            });
        }
        Ok(())
    }

    pub fn get_descriptor(&self, group_name: &GroupName, worker_id: WorkerId) -> (descriptor: Option<
        WorkerDescriptor,
    >)
        ensures
            descriptor == self@.descriptors.get((group_name@, worker_id)),
    {
        let key = WorkerRegistrationKey::new(group_name, worker_id);
        match self.descriptors.get(&key) {
            Some(descriptor) => Some(descriptor.clone()),
            None => None,
        }
    }

    /// The registration of a worker: the one in force, or the last whose lease ran out.
    pub fn get_registration(&self, group_name: &GroupName, worker_id: WorkerId) -> (registration: Option<
        WorkerRegistrationState,
    >)
        ensures
            registration == self@.last_registration((group_name@, worker_id)),
    {
        let key = WorkerRegistrationKey::new(group_name, worker_id);
        match self.registrations.get(&key) {
            Some(registration) => Some(registration.clone()),
            None => match self.ended.get(&key) {
                Some(registration) => Some(registration.clone()),
                None => None,
            },
        }
    }

    /// The run of the registration in force.
    pub fn registered_run(&self, group_name: &GroupName, worker_id: WorkerId) -> (run: Option<WorkerRunId>)
        ensures
            run == (if self@.registrations.contains_key((group_name@, worker_id)) {
                Some(self@.registrations[(group_name@, worker_id)].worker_run_id)
            } else {
                None
            }),
    {
        let key = WorkerRegistrationKey::new(group_name, worker_id);
        match self.registrations.get(&key) {
            Some(registration) => Some(registration.worker_run_id),
            None => None,
        }
    }
}

/// What registering a run does, by the time at which it is asked for.
pub open spec fn register_outcome(
    before: model::WorkerModel,
    after: model::WorkerModel,
    group_name: GroupName,
    worker_id: WorkerId,
    address: String,
    protocol: i32,
    run: WorkerRunId,
    fault_domain: Option<String>,
    now: Moment,
    result: MetadataResult<()>,
) -> bool {
    let swept = before.swept(now);
    match swept.registration_refusal((group_name@, worker_id), run, address@, protocol, now) {
        Some(refusal) => refused(result, refusal) && after == swept,
        None => result is Ok && after == swept.registered(
            group_name,
            worker_id,
            address,
            protocol,
            run,
            fault_domain,
            now,
        ),
    }
}

/// What a check before registering gives, by the time at which it is made.
pub open spec fn preflight_outcome(
    before: model::WorkerModel,
    after: model::WorkerModel,
    worker: model::WorkerAt,
    run: WorkerRunId,
    endpoint: Seq<char>,
    protocol: i32,
    now: Moment,
    result: MetadataResult<()>,
) -> bool {
    let swept = before.swept(now);
    after == swept && match swept.registration_refusal(worker, run, endpoint, protocol, now) {
        Some(refusal) => refused(result, refusal),
        None => result is Ok,
    }
}

/// What the check for a second run gives, by the time at which it is made.
pub open spec fn run_check_outcome(
    before: model::WorkerModel,
    after: model::WorkerModel,
    worker: model::WorkerAt,
    run: WorkerRunId,
    now: Moment,
    result: MetadataResult<()>,
) -> bool {
    let swept = before.swept(now);
    after == swept && match swept.run_refusal(worker, run) {
        Some(refusal) => refused(result, refusal),
        None => result is Ok,
    }
}

/// The pairs are exactly the workers of the set, each once.
pub open spec fn lists_pairs(pairs: Seq<(GroupName, WorkerId)>, set: Set<model::WorkerAt>) -> bool {
    &&& forall|i: int, j: int|
        0 <= i < j < pairs.len() ==> ((#[trigger] pairs[i]).0@, pairs[i].1) != ((#[trigger] pairs[j]).0@, pairs[j].1)
    &&& forall|k: model::WorkerAt| #[trigger] set.contains(k) <==> has_pair(pairs, k)
}

pub open spec fn has_pair(pairs: Seq<(GroupName, WorkerId)>, k: model::WorkerAt) -> bool {
    exists|i: int| 0 <= i < pairs.len() && ((#[trigger] pairs[i]).0@, pairs[i].1) == k
}

/// Whether a heartbeat is recent enough.
fn is_recent(runtime: &WorkerRuntime, timeout_ns: u128, now: Moment) -> (recent: bool)
    ensures
        recent == ((if now.mono_ns >= runtime.last_seen_ns {
            now.mono_ns - runtime.last_seen_ns
        } else {
            0
        }) < timeout_ns),
{
    let age: u64 = if now.mono_ns >= runtime.last_seen_ns {
        now.mono_ns - runtime.last_seen_ns
    } else {
        0
    };
    (age as u128) < timeout_ns
}

impl WorkerManager {
    /// Drops heartbeats that are too old, and ends registrations whose lease is over.
    fn sweep(&mut self, now: Moment) -> (gone: Vec<WorkerRegistrationKey>)
        requires
            old(self).inv(),
        ensures
            final(self).inv(),
            final(self).worker_blocks == old(self).worker_blocks,
            final(self)@ == old(self)@.swept(now),
            table::lists(gone@, old(self)@.swept_away(now)),
    {
        let timeout_ns = self.timeout_ns();
        let ghost before = self@;
        let stale_test = |k: &WorkerRegistrationKey, r: &WorkerRuntime| -> (stale: bool)
            ensures
                stale == !((if now.mono_ns >= r.last_seen_ns {
                    now.mono_ns - r.last_seen_ns
                } else {
                    0
                }) < timeout_ns),
            { !is_recent(r, timeout_ns, now) };
        let ghost is_stale = |k: model::WorkerAt, r: WorkerRuntime|
            !((if now.mono_ns >= r.last_seen_ns {
                now.mono_ns - r.last_seen_ns
            } else {
                0
            }) < timeout_ns);
        let stale = table::keys_where(&self.runtime, stale_test, Ghost(is_stale));
        let over_test = |k: &WorkerRegistrationKey, r: &WorkerRegistrationState| -> (over: bool)
            ensures
                over == (r.lease_deadline_ns <= now.mono_ns),
            { r.lease_deadline_ns <= now.mono_ns as u128 };
        let ghost is_over = |k: model::WorkerAt, r: WorkerRegistrationState| r.lease_deadline_ns <= now.mono_ns;
        let over = table::keys_where(&self.registrations, over_test, Ghost(is_over));
        let runtime = &self.runtime;
        let only_over_test = |k: &WorkerRegistrationKey, r: &WorkerRegistrationState| -> (only: bool)
            ensures
                only == (r.lease_deadline_ns <= now.mono_ns && (runtime@.contains_key(k@) ==> !is_stale(
                    k@,
                    runtime@[k@],
                ))),
            {
                r.lease_deadline_ns <= now.mono_ns as u128 && match runtime.get(k) {
                    Some(held) => is_recent(held, timeout_ns, now),
                    None => true,
                }
            };
        let ghost is_only_over = |k: model::WorkerAt, r: WorkerRegistrationState|
            r.lease_deadline_ns <= now.mono_ns && (before.runtime.contains_key(k) ==> !is_stale(k, before.runtime[k]));
        let only_over = table::keys_where(&self.registrations, only_over_test, Ghost(is_only_over));
        table::remove_all(&mut self.runtime, &stale);
        table::move_all(&mut self.registrations, &mut self.ended, &over);
        let mut gone = stale;
        let mut only_over = only_over;
        let ghost stale_keys = gone@;
        let ghost ended_keys = over@;
        let ghost over_keys = only_over@;
        gone.append(&mut only_over);
        proof {
            let swept = before.swept(now);
            assert forall|k: model::WorkerAt| #[trigger]
                table::among(stale_keys, k) <==> before.runtime.contains_key(k) && !before.live(k, now) by {
                assert(table::keys_meeting(before.runtime, is_stale).contains(k) <==> table::among(stale_keys, k));
            }
            assert forall|k: model::WorkerAt| #[trigger] table::among(ended_keys, k) <==> before.lapsed(k, now) by {
                assert(table::keys_meeting(before.registrations, is_over).contains(k) <==> table::among(ended_keys, k));
            }
            assert forall|k: model::WorkerAt| #[trigger]
                table::among(over_keys, k) <==> before.lapsed(k, now) && !table::among(stale_keys, k) by {
                assert(table::keys_meeting(before.registrations, is_only_over).contains(k) <==> table::among(
                    over_keys,
                    k,
                ));
            }
            assert(self.runtime@ =~= swept.runtime);
            assert(self.registrations@ =~= swept.registrations);
            assert(self.ended@ =~= swept.ended);
            assert(self@ =~= swept);
            assert forall|k: model::WorkerAt| #[trigger] before.swept_away(now).contains(k) <==> table::among(gone@, k) by {
                if table::among(stale_keys, k) {
                    let i = choose|i: int| 0 <= i < stale_keys.len() && #[trigger] stale_keys[i]@ == k;
                    assert(gone@[i]@ == k);
                }
                if table::among(over_keys, k) {
                    let i = choose|i: int| 0 <= i < over_keys.len() && #[trigger] over_keys[i]@ == k;
                    assert(gone@[stale_keys.len() + i]@ == k);
                }
                if table::among(gone@, k) {
                    let i = choose|i: int| 0 <= i < gone@.len() && #[trigger] gone@[i]@ == k;
                    if i < stale_keys.len() {
                        assert(stale_keys[i]@ == k);
                        assert(table::among(stale_keys, k));
                    } else {
                        assert(over_keys[i - stale_keys.len()]@ == k);
                        assert(table::among(over_keys, k));
                    }
                }
            }
            assert forall|i: int, j: int| 0 <= i < j < gone@.len() implies #[trigger] gone@[i]@ != #[trigger] gone@[j]@ by {
                if j < stale_keys.len() {
                    assert(stale_keys[i]@ != stale_keys[j]@);
                } else if i >= stale_keys.len() {
                    assert(over_keys[i - stale_keys.len()]@ != over_keys[j - stale_keys.len()]@);
                } else {
                    assert(gone@[i]@ == stale_keys[i]@);
                    assert(table::among(stale_keys, stale_keys[i]@));
                    assert(gone@[j]@ == over_keys[j - stale_keys.len()]@);
                    assert(table::among(over_keys, over_keys[j - stale_keys.len()]@));
                }
            }
        }
        gone
    }

    /// Drops what is too old at this time and names the workers concerned.
    pub fn expire_liveness_at(&mut self, now: Moment) -> (expired: Vec<(GroupName, WorkerId)>)
        requires
            old(self).inv(),
        ensures
            final(self).inv(),
            keeps_lists(*old(self), *final(self)),
            final(self)@ == old(self)@.swept(now),
            lists_pairs(expired@, old(self)@.swept_away(now)),
    {
        let gone = self.sweep(now);
        let mut expired: Vec<(GroupName, WorkerId)> = Vec::new();
        let mut i: usize = 0;
        while i < gone.len()
            invariant
                i <= gone@.len(),
                expired@.len() == i,
                forall|j: int| 0 <= j < i ==> ((#[trigger] expired@[j]).0@, expired@[j].1) == gone@[j]@,
            decreases gone@.len() - i,
        {
            expired.push((gone[i].group_name.clone(), gone[i].worker_id));
            i += 1;
        }
        proof {
            assert forall|k: model::WorkerAt| #[trigger]
                old(self)@.swept_away(now).contains(k) <==> has_pair(expired@, k) by {
                if old(self)@.swept_away(now).contains(k) {
                    assert(table::among(gone@, k));
                    let i = choose|i: int| 0 <= i < gone@.len() && #[trigger] gone@[i]@ == k;
                    assert((expired@[i].0@, expired@[i].1) == k);
                }
                if has_pair(expired@, k) {
                    let i = choose|i: int| 0 <= i < expired@.len() && ((#[trigger] expired@[i]).0@, expired@[i].1) == k;
                    assert(gone@[i]@ == k);
                    assert(table::among(gone@, k));
                }
            }
            assert forall|i: int, j: int| 0 <= i < j < expired@.len() implies ((#[trigger] expired@[i]).0@, expired@[i].1)
                != ((#[trigger] expired@[j]).0@, expired@[j].1) by {
                assert(gone@[i]@ != gone@[j]@);
            }
        }
        expired
    }

    /// Drops what is too old and names the workers concerned.
    pub fn expire_liveness(&mut self) -> (expired: Vec<(GroupName, WorkerId)>)
        requires
            old(self).inv(),
        ensures
            final(self).inv(),
            keeps_lists(*old(self), *final(self)),
            exists|now: Moment| #[trigger]
                old(self)@.swept(now) == final(self)@ && lists_pairs(expired@, old(self)@.swept_away(now)),
    {
        let now = self.now();
        let expired = self.expire_liveness_at(now);
        assert(old(self)@.swept(now) == self@ && lists_pairs(expired@, old(self)@.swept_away(now)));
        expired
    }

    fn run_refusal(&self, key: &WorkerRegistrationKey, run: WorkerRunId) -> (error: Option<MetadataError>)
        ensures
            answers(error, self@.run_refusal(key@, run)),
    {
        match self.registrations.get(key) {
            Some(existing) => {
                if existing.worker_run_id != run {
                    let mut message = text::with_number("worker_id ", key.worker_id.raw, " in group_name ");
                    message.append(key.group_name.name.as_str());
                    message.append(" is already registered with worker_run_id ");
                    message.append(text::hyphenated_text(existing.worker_run_id.raw).as_str());
                    Some(MetadataError::AlreadyExists(message))
                } else {
                    None
                }
            },
            None => None,
        }
    }

    /// Whether another run of the worker holds its place, at this time.
    pub fn validate_worker_run_registration_at(
        &mut self,
        group_name: &GroupName,
        worker_id: WorkerId,
        worker_run_id: WorkerRunId,
        now: Moment,
    ) -> (result: MetadataResult<()>)
        requires
            old(self).inv(),
        ensures
            final(self).inv(),
            keeps_lists(*old(self), *final(self)),
            run_check_outcome(old(self)@, final(self)@, (group_name@, worker_id), worker_run_id, now, result),
    {
        self.sweep(now);
        let key = WorkerRegistrationKey::new(group_name, worker_id);
        match self.run_refusal(&key, worker_run_id) {
            Some(error) => Err(error),
            None => Ok(()),
        }
    }

    /// Whether another run of the worker holds its place.
    pub fn validate_worker_run_registration(
        &mut self,
        group_name: &GroupName,
        worker_id: WorkerId,
        worker_run_id: WorkerRunId,
    ) -> (result: MetadataResult<()>)
        requires
            old(self).inv(),
        ensures
            final(self).inv(),
            keeps_lists(*old(self), *final(self)),
            exists|now: Moment| #[trigger]
                run_check_outcome(old(self)@, final(self)@, (group_name@, worker_id), worker_run_id, now, result),
    {
        let now = self.now();
        self.validate_worker_run_registration_at(group_name, worker_id, worker_run_id, now)
    }

    fn registration_refusal(
        &self,
        key: &WorkerRegistrationKey,
        run: WorkerRunId,
        endpoint: &str,
        protocol: i32,
        now: Moment,
    ) -> (error: Option<MetadataError>)
        ensures
            answers(error, self@.registration_refusal(key@, run, endpoint@, protocol, now)),
    {
        match self.registrations.get(key) {
            Some(existing) => {
                let same_endpoint = text::same(existing.address.as_str(), endpoint);
                if existing.worker_run_id == run {
                    if !same_endpoint || existing.worker_net_protocol != protocol {
                        Some(MetadataError::InvalidArgument(about("worker descriptor mismatch", key)))
                    } else {
                        None
                    }
                } else if self.key_is_live(key, now) && !same_endpoint {
                    Some(MetadataError::ActiveWorkerConflict(about("active worker conflict", key)))
                } else {
                    None
                }
            },
            None => None,
        }
    }

    fn key_is_live(&self, key: &WorkerRegistrationKey, now: Moment) -> (live: bool)
        ensures
            live == self@.live(key@, now),
    {
        let timeout_ns = self.timeout_ns();
        match self.runtime.get(key) {
            Some(runtime) => is_recent(runtime, timeout_ns, now),
            None => false,
        }
    }

    /// Whether the run may register with this endpoint and protocol, at this time.
    pub fn validate_worker_registration_preflight_at(
        &mut self,
        group_name: &GroupName,
        worker_id: WorkerId,
        worker_run_id: WorkerRunId,
        endpoint: &str,
        worker_net_protocol: i32,
        now: Moment,
    ) -> (result: MetadataResult<()>)
        requires
            old(self).inv(),
        ensures
            final(self).inv(),
            keeps_lists(*old(self), *final(self)),
            preflight_outcome(
                old(self)@,
                final(self)@,
                (group_name@, worker_id),
                worker_run_id,
                endpoint@,
                worker_net_protocol,
                now,
                result,
            ),
    {
        self.sweep(now);
        let key = WorkerRegistrationKey::new(group_name, worker_id);
        match self.registration_refusal(&key, worker_run_id, endpoint, worker_net_protocol, now) {
            Some(error) => Err(error),
            None => Ok(()),
        }
    }

    /// Whether the run may register with this endpoint and protocol.
    pub fn validate_worker_registration_preflight(
        &mut self,
        group_name: &GroupName,
        worker_id: WorkerId,
        worker_run_id: WorkerRunId,
        endpoint: &str,
        worker_net_protocol: i32,
    ) -> (result: MetadataResult<()>)
        requires
            old(self).inv(),
        ensures
            final(self).inv(),
            keeps_lists(*old(self), *final(self)),
            exists|now: Moment| #[trigger]
                preflight_outcome(
                    old(self)@,
                    final(self)@,
                    (group_name@, worker_id),
                    worker_run_id,
                    endpoint@,
                    worker_net_protocol,
                    now,
                    result,
                ),
    {
        let now = self.now();
        self.validate_worker_registration_preflight_at(
            group_name,
            worker_id,
            worker_run_id,
            endpoint,
            worker_net_protocol,
            now,
        )
    }

    /// Sets a worker's descriptor.
    pub fn register_worker(
        &mut self,
        group_name: &GroupName,
        worker_id: WorkerId,
        address: String,
        worker_net_protocol: i32,
        fault_domain: Option<String>,
    ) -> (result: MetadataResult<()>)
        requires
            old(self).inv(),
        ensures
            final(self).inv(),
            keeps_lists(*old(self), *final(self)),
            result is Ok,
            final(self)@ == (model::WorkerModel {
                descriptors: old(self)@.descriptors.insert(
                    (group_name@, worker_id),
                    (WorkerDescriptor {
                        group_name: *group_name,
                        worker_id,
                        address,
                        worker_net_protocol,
                        fault_domain,
                    }),
                ),
                ..old(self)@
            }),
    {
        self.upsert_descriptor(
            WorkerDescriptor {
                group_name: group_name.clone(),
                worker_id,
                address,
                worker_net_protocol,
                fault_domain,
            },
        )
    }

    /// Forgets what a worker has reported.
    fn clear_block_report_for_worker(&mut self, key: &WorkerRegistrationKey)
        requires
            old(self).inv(),
        ensures
            final(self).inv(),
            final(self).worker_blocks@ == old(self).worker_blocks@.remove(key@),
            final(self)@ == old(self)@.without_report(key@),
    {
        let listed = self.worker_blocks.remove(key);
        let ghost listed_before = old(self).worker_blocks@;
        self.block_reports.remove(key);
        match listed {
            Some(blocks) => {
                locations::drop_holder_of_all(&mut self.locations, &key.group_name, &blocks, key);
            },
            None => {},
        }
        proof {
            assert(self@ =~= old(self)@.without_report(key@));
            assert forall|b: (Seq<char>, BlockId), k: model::WorkerAt| #[trigger]
                locations::holds(self.locations@, b, k) <==> lists_block(self.worker_blocks@, b, k) by {
                assert(locations::holds(old(self).locations@, b, k) <==> lists_block(listed_before, b, k));
            }
        }
    }

    /// Registers a run of a worker, at this time. A run that is registered already renews its
    /// lease and keeps its heartbeat and report; a new run starts without them.
    pub fn register_worker_run_at(
        &mut self,
        group_name: &GroupName,
        worker_id: WorkerId,
        address: String,
        worker_net_protocol: i32,
        worker_run_id: WorkerRunId,
        fault_domain: Option<String>,
        now: Moment,
    ) -> (result: MetadataResult<()>)
        requires
            old(self).inv(),
        ensures
            final(self).inv(),
            keeps_other_lists(*old(self), *final(self), (group_name@, worker_id)),
            result is Err || final(self)@.indexed.contains((group_name@, worker_id)) ==> keeps_lists(*old(self), *final(self)),
            register_outcome(
                old(self)@,
                final(self)@,
                *group_name,
                worker_id,
                address,
                worker_net_protocol,
                worker_run_id,
                fault_domain,
                now,
                result,
            ),
    {
        self.sweep(now);
        let key = WorkerRegistrationKey::new(group_name, worker_id);
        match self.registration_refusal(&key, worker_run_id, address.as_str(), worker_net_protocol, now) {
            Some(error) => {
                return Err(error);
            },
            None => {},
        }
        let ghost swept = self@;
        let known = match self.registrations.get(&key) {
            Some(existing) => existing.worker_run_id == worker_run_id,
            None => false,
        };
        let timeout_ns = self.timeout_ns();
        proof {
            assert(now.mono_ns + model::nanos(self.heartbeat_timeout_sec) <= u128::MAX) by (nonlinear_arith)
                requires
                    now.mono_ns <= u64::MAX,
                    model::nanos(self.heartbeat_timeout_sec) == self.heartbeat_timeout_sec as nat * 1_000_000_000,
                    self.heartbeat_timeout_sec <= u64::MAX,
            ;
        }
        if !known {
            self.runtime.remove(&key);
            self.clear_block_report_for_worker(&key);
        }
        self.descriptors.insert(
            key.copy_key(),
            WorkerDescriptor {
                group_name: group_name.clone(),
                worker_id,
                address: address.clone(),
                worker_net_protocol,
                fault_domain: copy_text(&fault_domain),
            },
        );
        self.ended.remove(&key);
        self.registrations.insert(
            key,
            WorkerRegistrationState {
                group_name: group_name.clone(),
                worker_id,
                worker_run_id,
                address,
                worker_net_protocol,
                fault_domain,
                registered_at_ms: now.wall_ms,
                lease_deadline_ns: now.mono_ns as u128 + timeout_ns,
            },
        );
        proof {
            assert(self@ =~= swept.registered(
                *group_name,
                worker_id,
                address,
                worker_net_protocol,
                worker_run_id,
                fault_domain,
                now,
            ));
        }
        Ok(())
    }

    /// Registers a run of a worker.
    pub fn register_worker_run(
        &mut self,
        group_name: &GroupName,
        worker_id: WorkerId,
        address: String,
        worker_net_protocol: i32,
        worker_run_id: WorkerRunId,
        fault_domain: Option<String>,
    ) -> (result: MetadataResult<()>)
        requires
            old(self).inv(),
        ensures
            final(self).inv(),
            keeps_other_lists(*old(self), *final(self), (group_name@, worker_id)),
            result is Err || final(self)@.indexed.contains((group_name@, worker_id)) ==> keeps_lists(*old(self), *final(self)),
            exists|now: Moment| #[trigger]
                register_outcome(
                    old(self)@,
                    final(self)@,
                    *group_name,
                    worker_id,
                    address,
                    worker_net_protocol,
                    worker_run_id,
                    fault_domain,
                    now,
                    result,
                ),
    {
        let now = self.now();
        self.register_worker_run_at(
            group_name,
            worker_id,
            address,
            worker_net_protocol,
            worker_run_id,
            fault_domain,
            now,
        )
    }
}

/// The result names what became ready and what no longer is, each block once.
pub open spec fn tells_changes(
    result: BlockReportApplyResult,
    was: Set<BlockId>,
    is: Set<BlockId>,
    next_delta_seq: u64,
) -> bool {
    &&& result.added_blocks@.no_duplicates()
    &&& result.added_blocks@.to_set() == is.difference(was)
    &&& result.removed_blocks@.no_duplicates()
    &&& result.removed_blocks@.to_set() == was.difference(is)
    &&& result.next_delta_seq == next_delta_seq
}

/// What a batch of a full report does, by the time at which it comes.
pub open spec fn full_report_outcome(
    before: model::WorkerModel,
    after: model::WorkerModel,
    k: model::WorkerAt,
    run: WorkerRunId,
    report_seq: u64,
    batch_seq: u64,
    final_batch: bool,
    blocks: Seq<BlockReportBlock>,
    now: Moment,
    result: MetadataResult<BlockReportApplyResult>,
) -> bool {
    let swept = before.swept(now);
    match swept.source_refusal(k, run, now) {
        Some(refusal) => refused(result, refusal) && after == swept,
        None => match swept.batch_refusal(k, run, report_seq, batch_seq) {
            Some(refusal) => refused(result, refusal) && after == swept.with_batch_refused(
                k,
                run,
                report_seq,
                batch_seq,
            ),
            None => {
                &&& after == swept.with_batch(k, run, report_seq, batch_seq, final_batch, blocks)
                &&& result is Ok
                &&& tells_changes(
                    result->Ok_0,
                    locations::ready(swept.report(k).published),
                    locations::ready(after.report(k).published),
                    after.report(k).delta_seq,
                )
            },
        },
    }
}

/// What deltas do, by the time at which they come.
pub open spec fn delta_report_outcome(
    before: model::WorkerModel,
    after: model::WorkerModel,
    k: model::WorkerAt,
    run: WorkerRunId,
    report_seq: u64,
    delta_seq: u64,
    deltas: Seq<BlockReportDeltaEntry>,
    now: Moment,
    result: MetadataResult<BlockReportApplyResult>,
) -> bool {
    let swept = before.swept(now);
    match swept.source_refusal(k, run, now) {
        Some(refusal) => refused(result, refusal) && after == swept,
        None => match swept.delta_refusal(k, run, report_seq, delta_seq, deltas.len()) {
            Some(refusal) => refused(result, refusal) && after == swept,
            None => {
                &&& after == swept.with_deltas(k, delta_seq, deltas)
                &&& result is Ok
                &&& tells_changes(
                    result->Ok_0,
                    locations::ready(swept.report(k).published),
                    locations::ready(after.report(k).published),
                    after.report(k).delta_seq,
                )
            },
        },
    }
}

/// What a report brought where it changed no block.
fn no_change(next_delta_seq: u64, Ghost(ready): Ghost<Set<BlockId>>) -> (result: BlockReportApplyResult)
    ensures
        tells_changes(result, ready, ready, next_delta_seq),
{
    let result = BlockReportApplyResult { added_blocks: Vec::new(), removed_blocks: Vec::new(), next_delta_seq };
    proof {
        assert(result.added_blocks@.to_set() =~= ready.difference(ready));
        assert(result.removed_blocks@.to_set() =~= ready.difference(ready));
    }
    result
}

/// Sets the blocks of a batch.
fn stage_blocks(blocks: &mut BlockTable, batch: &Vec<BlockReportBlock>)
    requires
        locations::self_keyed(old(blocks)@),
    ensures
        locations::self_keyed(final(blocks)@),
        final(blocks)@ == model::stage_all(old(blocks)@, batch@),
{
    let ghost before = blocks@;
    let mut i: usize = 0;
    while i < batch.len()
        invariant
            i <= batch@.len(),
            locations::self_keyed(blocks@),
            blocks@ == model::stage_all(before, batch@.take(i as int)),
        decreases batch@.len() - i,
    {
        let block = batch[i];
        blocks.insert(block.block_id, block);
        proof {
            assert(batch@.take(i + 1).drop_last() =~= batch@.take(i as int));
            assert(batch@.take(i + 1).last() == block);
        }
        i += 1;
    }
    proof {
        assert(batch@.take(batch@.len() as int) =~= batch@);
    }
}

/// Applies deltas in their order.
fn apply_deltas(blocks: &mut BlockTable, deltas: &Vec<BlockReportDeltaEntry>)
    requires
        locations::self_keyed(old(blocks)@),
    ensures
        locations::self_keyed(final(blocks)@),
        final(blocks)@ == model::apply_all(old(blocks)@, deltas@),
{
    let ghost before = blocks@;
    let mut i: usize = 0;
    while i < deltas.len()
        invariant
            i <= deltas@.len(),
            locations::self_keyed(blocks@),
            blocks@ == model::apply_all(before, deltas@.take(i as int)),
        decreases deltas@.len() - i,
    {
        let delta = deltas[i];
        match delta.op {
            BlockReportDeltaOp::AddUpdate => {
                blocks.insert(delta.block.block_id, delta.block);
            },
            BlockReportDeltaOp::Remove => {
                blocks.remove(&delta.block.block_id);
            },
        }
        proof {
            assert(deltas@.take(i + 1).drop_last() =~= deltas@.take(i as int));
            assert(deltas@.take(i + 1).last() == delta);
        }
        i += 1;
    }
    proof {
        assert(deltas@.take(deltas@.len() as int) =~= deltas@);
    }
}

impl WorkerManager {
    fn source_refusal(&self, key: &WorkerRegistrationKey, run: WorkerRunId, now: Moment) -> (error: Option<
        MetadataError,
    >)
        ensures
            answers(error, self@.source_refusal(key@, run, now)),
    {
        match self.registrations.get(key) {
            None => Some(MetadataError::NotFound(about("worker not registered", key))),
            Some(registration) => {
                if registration.worker_run_id != run {
                    Some(MetadataError::StaleState(about("worker_run_id mismatch", key)))
                } else if !self.key_is_live(key, now) {
                    Some(MetadataError::NotFound(about("worker heartbeat readiness lease not found", key)))
                } else {
                    None
                }
            },
        }
    }

    /// Makes the worker found under exactly these blocks.
    fn rebuild_location_index_for_worker(&mut self, key: &WorkerRegistrationKey, ready: Vec<BlockId>)
        requires
            index_agrees(old(self).locations@, old(self).worker_blocks@),
        ensures
            index_agrees(final(self).locations@, final(self).worker_blocks@),
            final(self).worker_blocks@ == old(self).worker_blocks@.insert(key@, ready),
            final(self).descriptors == old(self).descriptors,
            final(self).registrations == old(self).registrations,
            final(self).ended == old(self).ended,
            final(self).runtime == old(self).runtime,
            final(self).block_reports == old(self).block_reports,
            final(self).heartbeat_timeout_sec == old(self).heartbeat_timeout_sec,
            final(self).metadata_epoch == old(self).metadata_epoch,
    {
        let ghost listed_before = self.worker_blocks@;
        let ghost index_before = self.locations@;
        match self.worker_blocks.remove(key) {
            Some(blocks) => {
                locations::drop_holder_of_all(&mut self.locations, &key.group_name, &blocks, key);
            },
            None => {},
        }
        let ghost stripped = self.locations@;
        locations::add_holder_of_all(&mut self.locations, &key.group_name, &ready, key);
        self.worker_blocks.insert(key.copy_key(), ready);
        proof {
            assert(self.worker_blocks@ =~= listed_before.insert(key@, ready));
            assert forall|b: (Seq<char>, BlockId), k: model::WorkerAt| #[trigger]
                locations::holds(self.locations@, b, k) <==> lists_block(self.worker_blocks@, b, k) by {
                assert(locations::holds(index_before, b, k) <==> lists_block(listed_before, b, k));
                assert(locations::holds(stripped, b, k) <==> lists_block(listed_before, b, k) && k != key@);
            }
        }
    }

    /// Takes one batch of a full report, at this time.
    ///
    /// Batch 0 starts a report. Its blocks show only once the final batch has come, all at once.
    pub fn receive_full_block_report_at(
        &mut self,
        group_name: &GroupName,
        worker_id: WorkerId,
        worker_run_id: WorkerRunId,
        report_seq: u64,
        batch_seq: u64,
        final_batch: bool,
        blocks: Vec<BlockReportBlock>,
        now: Moment,
    ) -> (result: MetadataResult<BlockReportApplyResult>)
        requires
            old(self).inv(),
        ensures
            final(self).inv(),
            keeps_other_lists(*old(self), *final(self), (group_name@, worker_id)),
            result is Err || !final_batch ==> keeps_lists(*old(self), *final(self)),
            full_report_outcome(
                old(self)@,
                final(self)@,
                (group_name@, worker_id),
                worker_run_id,
                report_seq,
                batch_seq,
                final_batch,
                blocks@,
                now,
                result,
            ),
    {
        self.sweep(now);
        let key = WorkerRegistrationKey::new(group_name, worker_id);
        match self.source_refusal(&key, worker_run_id, now) {
            Some(error) => {
                return Err(error);
            },
            None => {},
        }
        let ghost swept = self@;
        let ghost reports_before = self.block_reports@;
        let mut report = match self.block_reports.remove(&key) {
            Some(report) => report,
            None => BlockReport::empty(),
        };
        assert(report.model() == swept.report(key@));
        if batch_seq == 0 {
            if report.worker_run_id == Some(worker_run_id) && report.report_seq > report_seq {
                let what = text::with_number("full report required: stale report_seq ", report_seq, "");
                let mut message = about(what.as_str(), &key);
                message.append(", current ");
                text::push_decimal(&mut message, report.report_seq);
                self.block_reports.insert(key, report);
                proof {
                    assert(what@ =~= "full report required: stale report_seq "@ + text::decimal(report_seq as nat)) by {
                        reveal_strlit("");
                    }
                    assert(self.block_reports@ =~= reports_before);
                    assert(self@ =~= swept);
                }
                return Err(MetadataError::FullReportRequired(message));
            }
            report.worker_run_id = Some(worker_run_id);
            report.state = BlockReportState::Receiving;
            report.report_seq = report_seq;
            report.next_batch_seq = 0;
            report.staging_blocks = Table::new();
        }
        assert(report.model() =~= swept.report_for_batch(key@, worker_run_id, report_seq, batch_seq));
        if report.state != BlockReportState::Receiving || report.worker_run_id != Some(worker_run_id)
            || report.report_seq != report_seq || report.next_batch_seq != batch_seq {
            let what = text::with_number("full report required: expected batch_seq ", report.next_batch_seq, "");
            let message = about(what.as_str(), &key);
            self.block_reports.insert(key, report);
            proof {
                assert(what@ =~= "full report required: expected batch_seq "@ + text::decimal(
                    report.next_batch_seq as nat,
                )) by {
                    reveal_strlit("");
                }
                assert(self.block_reports@ =~= reports_before.insert(key@, report));
                assert(self@ =~= swept.with_batch_refused(key@, worker_run_id, report_seq, batch_seq));
            }
            return Err(MetadataError::FullReportRequired(message));
        }
        stage_blocks(&mut report.staging_blocks, &blocks);
        report.next_batch_seq = batch_seq.saturating_add(1);
        let ghost staged = report.model();
        assert(staged =~= swept.report_for_batch(key@, worker_run_id, report_seq, batch_seq).staged(
            batch_seq,
            blocks@,
        ));
        if !final_batch {
            let delta_seq = report.delta_seq;
            let result = no_change(delta_seq, Ghost(locations::ready(swept.report(key@).published)));
            self.block_reports.insert(key, report);
            proof {
                assert(self.block_reports@ =~= reports_before.insert(key@, report));
                assert(self@ =~= swept.with_batch(key@, worker_run_id, report_seq, batch_seq, final_batch, blocks@));
            }
            return Ok(result);
        }
        let old_ready = locations::ready_block_ids(&report.published_blocks);
        let mut published: BlockTable = Table::new();
        std::mem::swap(&mut published, &mut report.staging_blocks);
        let new_ready = locations::ready_block_ids(&published);
        report.published_blocks = published;
        report.state = BlockReportState::Ready;
        report.delta_seq = 0;
        assert(report.model() =~= staged.completed());
        let added_blocks = locations::difference(&new_ready, &old_ready);
        let removed_blocks = locations::difference(&old_ready, &new_ready);
        self.block_reports.insert(key.copy_key(), report);
        self.rebuild_location_index_for_worker(&key, new_ready);
        proof {
            assert(self.block_reports@ =~= reports_before.insert(key@, report));
            assert(self@ =~= swept.with_batch(key@, worker_run_id, report_seq, batch_seq, final_batch, blocks@));
        }
        Ok(BlockReportApplyResult { added_blocks, removed_blocks, next_delta_seq: 0 })
    }

    /// Takes one batch of a full report.
    pub fn receive_full_block_report(
        &mut self,
        group_name: &GroupName,
        worker_id: WorkerId,
        worker_run_id: WorkerRunId,
        report_seq: u64,
        batch_seq: u64,
        final_batch: bool,
        blocks: Vec<BlockReportBlock>,
    ) -> (result: MetadataResult<BlockReportApplyResult>)
        requires
            old(self).inv(),
        ensures
            final(self).inv(),
            keeps_other_lists(*old(self), *final(self), (group_name@, worker_id)),
            result is Err || !final_batch ==> keeps_lists(*old(self), *final(self)),
            exists|now: Moment| #[trigger]
                full_report_outcome(
                    old(self)@,
                    final(self)@,
                    (group_name@, worker_id),
                    worker_run_id,
                    report_seq,
                    batch_seq,
                    final_batch,
                    blocks@,
                    now,
                    result,
                ),
    {
        let now = self.now();
        self.receive_full_block_report_at(
            group_name,
            worker_id,
            worker_run_id,
            report_seq,
            batch_seq,
            final_batch,
            blocks,
            now,
        )
    }

    fn delta_refusal(
        &self,
        key: &WorkerRegistrationKey,
        run: WorkerRunId,
        report_seq: u64,
        delta_seq: u64,
        count: u64,
    ) -> (error: Option<MetadataError>)
        ensures
            answers(error, self@.delta_refusal(key@, run, report_seq, delta_seq, count as nat)),
    {
        match self.block_reports.get(key) {
            None => Some(MetadataError::FullReportRequired(about("full report required before delta", key))),
            Some(report) => {
                assert(report.model() == self@.report(key@));
                if report.state != BlockReportState::Ready || report.worker_run_id != Some(run) || report.report_seq
                    != report_seq {
                    Some(
                        MetadataError::FullReportRequired(
                            naming("full report required for current baseline: group_name=".to_string(), key),
                        ),
                    )
                } else if delta_seq < report.delta_seq && delta_seq.saturating_add(count) > report.delta_seq {
                    let mut message = text::with_number(
                        "full report required after overlapping old delta: expected delta_seq ",
                        report.delta_seq,
                        ", got ",
                    );
                    text::push_decimal(&mut message, delta_seq);
                    Some(MetadataError::FullReportRequired(message))
                } else if delta_seq > report.delta_seq {
                    let mut message = text::with_number(
                        "full report required after delta gap: expected delta_seq ",
                        report.delta_seq,
                        ", got ",
                    );
                    text::push_decimal(&mut message, delta_seq);
                    Some(MetadataError::FullReportRequired(message))
                } else {
                    None
                }
            },
        }
    }

    /// Takes deltas to the published blocks, at this time. Deltas that were taken before are
    /// acknowledged again; a gap or a partial overlap asks for a full report.
    pub fn apply_delta_block_report_at(
        &mut self,
        group_name: &GroupName,
        worker_id: WorkerId,
        worker_run_id: WorkerRunId,
        report_seq: u64,
        delta_seq: u64,
        deltas: Vec<BlockReportDeltaEntry>,
        now: Moment,
    ) -> (result: MetadataResult<BlockReportApplyResult>)
        requires
            old(self).inv(),
        ensures
            final(self).inv(),
            keeps_other_lists(*old(self), *final(self), (group_name@, worker_id)),
            result is Err || delta_seq < old(self)@.report((group_name@, worker_id)).delta_seq ==> keeps_lists(
                *old(self),
                *final(self),
            ),
            delta_report_outcome(
                old(self)@,
                final(self)@,
                (group_name@, worker_id),
                worker_run_id,
                report_seq,
                delta_seq,
                deltas@,
                now,
                result,
            ),
    {
        self.sweep(now);
        let key = WorkerRegistrationKey::new(group_name, worker_id);
        match self.source_refusal(&key, worker_run_id, now) {
            Some(error) => {
                return Err(error);
            },
            None => {},
        }
        let ghost swept = self@;
        let ghost reports_before = self.block_reports@;
        let count: u64 = deltas.len() as u64;
        match self.delta_refusal(&key, worker_run_id, report_seq, delta_seq, count) {
            Some(error) => {
                return Err(error);
            },
            None => {},
        }
        let mut report = match self.block_reports.remove(&key) {
            Some(report) => report,
            None => BlockReport::empty(),
        };
        assert(report.model() == swept.report(key@));
        if delta_seq < report.delta_seq {
            let result = no_change(report.delta_seq, Ghost(locations::ready(swept.report(key@).published)));
            self.block_reports.insert(key, report);
            proof {
                assert(self.block_reports@ =~= reports_before);
                assert(self@ =~= swept);
            }
            return Ok(result);
        }
        let old_ready = locations::ready_block_ids(&report.published_blocks);
        apply_deltas(&mut report.published_blocks, &deltas);
        report.delta_seq = report.delta_seq.saturating_add(count);
        let next_delta_seq = report.delta_seq;
        let new_ready = locations::ready_block_ids(&report.published_blocks);
        assert(report.model() =~= swept.report(key@).with_deltas(deltas@));
        let added_blocks = locations::difference(&new_ready, &old_ready);
        let removed_blocks = locations::difference(&old_ready, &new_ready);
        self.block_reports.insert(key.copy_key(), report);
        self.rebuild_location_index_for_worker(&key, new_ready);
        proof {
            assert(self.block_reports@ =~= reports_before.insert(key@, report));
            assert(self@ =~= swept.with_deltas(key@, delta_seq, deltas@));
        }
        Ok(BlockReportApplyResult { added_blocks, removed_blocks, next_delta_seq })
    }

    /// Takes deltas to the published blocks.
    pub fn apply_delta_block_report(
        &mut self,
        group_name: &GroupName,
        worker_id: WorkerId,
        worker_run_id: WorkerRunId,
        report_seq: u64,
        delta_seq: u64,
        deltas: Vec<BlockReportDeltaEntry>,
    ) -> (result: MetadataResult<BlockReportApplyResult>)
        requires
            old(self).inv(),
        ensures
            final(self).inv(),
            keeps_other_lists(*old(self), *final(self), (group_name@, worker_id)),
            result is Err || delta_seq < old(self)@.report((group_name@, worker_id)).delta_seq ==> keeps_lists(
                *old(self),
                *final(self),
            ),
            exists|now: Moment| #[trigger]
                delta_report_outcome(
                    old(self)@,
                    final(self)@,
                    (group_name@, worker_id),
                    worker_run_id,
                    report_seq,
                    delta_seq,
                    deltas@,
                    now,
                    result,
                ),
    {
        let now = self.now();
        self.apply_delta_block_report_at(
            group_name,
            worker_id,
            worker_run_id,
            report_seq,
            delta_seq,
            deltas,
            now,
        )
    }

    /// Whether the worker has no published blocks to apply deltas to.
    pub fn needs_full_block_report(&self, group_name: &GroupName, worker_id: WorkerId) -> (needed: bool)
        ensures
            needed == (self@.report((group_name@, worker_id)).state != BlockReportState::Ready),
    {
        let key = WorkerRegistrationKey::new(group_name, worker_id);
        match self.block_reports.get(&key) {
            Some(report) => {
                assert(report.model() == self@.report(key@));
                report.state != BlockReportState::Ready
            },
            None => true,
        }
    }
}

/// What a heartbeat does, by the time at which it comes.
pub open spec fn heartbeat_outcome(
    before: model::WorkerModel,
    after: model::WorkerModel,
    group_name: GroupName,
    worker_id: WorkerId,
    beat: model::Beat,
    now: Moment,
    result: MetadataResult<WorkerLiveState>,
) -> bool {
    let swept = before.swept(now);
    let k = (group_name@, worker_id);
    match swept.beat_refusal(k, beat) {
        Some(refusal) => refused(result, refusal) && after == swept,
        None => {
            &&& after == swept.with_beat(k, beat, now)
            &&& result == Ok::<WorkerLiveState, MetadataError>(
                WorkerLiveState {
                    group_name,
                    worker_id,
                    worker_run_id: beat.run,
                    heartbeat_seq: swept.runtime_after(k, beat, now).heartbeat_seq,
                    last_seen_ms: now.wall_ms,
                },
            )
        },
    }
}

/// The live workers.
pub open spec fn live_workers(m: model::WorkerModel, now: Moment) -> Set<model::WorkerAt> {
    Set::new(|k: model::WorkerAt| m.live(k, now))
}

/// The identities are exactly those of the set's workers, each once.
pub open spec fn lists_ids(ids: Seq<WorkerId>, set: Set<WorkerId>) -> bool {
    ids.no_duplicates() && ids.to_set() == set
}

/// The numbers of a worker from which its load is computed.
pub open spec fn figures_of(worker_id: WorkerId, runtime: WorkerRuntime) -> WorkerFigures {
    WorkerFigures {
        worker_id,
        capacity_total: runtime.capacity_total,
        capacity_used: runtime.capacity_used,
        active_reads: runtime.active_reads,
        active_writes: runtime.active_writes,
    }
}

/// One entry for each live worker of the group and no other, with the numbers of its last
/// heartbeat that was new.
pub open spec fn are_figures(figures: Seq<WorkerFigures>, m: model::WorkerModel, group: Seq<char>, now: Moment) -> bool {
    &&& forall|i: int, j: int|
        0 <= i < j < figures.len() ==> (#[trigger] figures[i]).worker_id != (#[trigger] figures[j]).worker_id
    &&& forall|i: int|
        0 <= i < figures.len() ==> live_ids(m, group, now).contains((#[trigger] figures[i]).worker_id) && figures[i]
            == figures_of(figures[i].worker_id, m.runtime[(group, figures[i].worker_id)])
    &&& forall|w: WorkerId| #[trigger] live_ids(m, group, now).contains(w) ==> has_figures(figures, w)
}

pub open spec fn has_figures(figures: Seq<WorkerFigures>, w: WorkerId) -> bool {
    exists|i: int| 0 <= i < figures.len() && (#[trigger] figures[i]).worker_id == w
}

/// The live workers of one group.
pub open spec fn live_ids(m: model::WorkerModel, group: Seq<char>, now: Moment) -> Set<WorkerId> {
    Set::new(|w: WorkerId| m.live((group, w), now))
}

/// The live workers of one group under which the block is found.
pub open spec fn live_holders(m: model::WorkerModel, group: Seq<char>, block: BlockId, now: Moment) -> Set<WorkerId> {
    Set::new(|w: WorkerId| m.blocks((group, w)).contains(block) && m.live((group, w), now))
}

/// The blocks under which some worker is found.
pub open spec fn reported_blocks(m: model::WorkerModel) -> Set<(Seq<char>, BlockId)> {
    Set::new(|b: (Seq<char>, BlockId)| exists|w: WorkerId| #[trigger] m.blocks((b.0, w)).contains(b.1))
}

/// Description and load of a worker in one record.
pub open spec fn info_of(descriptor: WorkerDescriptor, runtime: WorkerRuntime) -> WorkerInfo {
    WorkerInfo {
        group_name: descriptor.group_name,
        worker_id: descriptor.worker_id,
        address: descriptor.address,
        worker_net_protocol: descriptor.worker_net_protocol,
        capacity_total: runtime.capacity_total,
        capacity_used: runtime.capacity_used,
        capacity_available: runtime.capacity_available,
        active_reads: runtime.active_reads,
        active_writes: runtime.active_writes,
        health: runtime.health,
        last_heartbeat: runtime.last_seen_ms / 1000,
        fault_domain: descriptor.fault_domain,
    }
}

impl WorkerManager {
    fn beat_refusal(
        &self,
        key: &WorkerRegistrationKey,
        run: WorkerRunId,
        endpoint: &str,
        protocol: i32,
        Ghost(beat): Ghost<model::Beat>,
    ) -> (error: Option<MetadataError>)
        requires
            beat.run == run,
            beat.endpoint == endpoint@,
            beat.protocol == protocol,
        ensures
            answers(error, self@.beat_refusal(key@, beat)),
    {
        match self.descriptors.get(key) {
            None => Some(MetadataError::NotFound(about("worker descriptor not found", key))),
            Some(descriptor) => match self.registrations.get(key) {
                None => Some(MetadataError::NotFound(about("live worker registration not found", key))),
                Some(registration) => {
                    if registration.worker_run_id != run {
                        Some(MetadataError::StaleState(about("worker_run_id mismatch", key)))
                    } else if !text::same(descriptor.address.as_str(), endpoint)
                        || descriptor.worker_net_protocol != protocol {
                        Some(MetadataError::InvalidArgument(about("worker descriptor mismatch", key)))
                    } else {
                        None
                    }
                },
            },
        }
    }

    /// Takes a heartbeat, at this time. One that is no newer than the last renews the times and
    /// leaves the reported load as it is.
    pub fn record_heartbeat_at(
        &mut self,
        group_name: &GroupName,
        worker_id: WorkerId,
        worker_run_id: WorkerRunId,
        heartbeat_seq: u64,
        advertised_endpoint: &str,
        worker_net_protocol: i32,
        capacity_total: u64,
        capacity_used: u64,
        capacity_available: u64,
        active_reads: u32,
        active_writes: u32,
        health: HealthStatus,
        now: Moment,
    ) -> (result: MetadataResult<WorkerLiveState>)
        requires
            old(self).inv(),
        ensures
            final(self).inv(),
            keeps_lists(*old(self), *final(self)),
            heartbeat_outcome(
                old(self)@,
                final(self)@,
                *group_name,
                worker_id,
                (model::Beat {
                    run: worker_run_id,
                    seq: heartbeat_seq,
                    endpoint: advertised_endpoint@,
                    protocol: worker_net_protocol,
                    capacity_total,
                    capacity_used,
                    capacity_available,
                    active_reads,
                    active_writes,
                    health,
                }),
                now,
                result,
            ),
    {
        self.sweep(now);
        let key = WorkerRegistrationKey::new(group_name, worker_id);
        let ghost beat = model::Beat {
            run: worker_run_id,
            seq: heartbeat_seq,
            endpoint: advertised_endpoint@,
            protocol: worker_net_protocol,
            capacity_total,
            capacity_used,
            capacity_available,
            active_reads,
            active_writes,
            health,
        };
        match self.beat_refusal(&key, worker_run_id, advertised_endpoint, worker_net_protocol, Ghost(beat)) {
            Some(error) => {
                return Err(error);
            },
            None => {},
        }
        let ghost swept = self@;
        let mut runtime = WorkerRuntime {
            worker_run_id,
            heartbeat_seq,
            last_seen_ns: now.mono_ns,
            last_seen_ms: now.wall_ms,
            capacity_total,
            capacity_used,
            capacity_available,
            active_reads,
            active_writes,
            health,
        };
        match self.runtime.get(&key) {
            Some(existing) => {
                if heartbeat_seq <= existing.heartbeat_seq {
                    runtime = WorkerRuntime {
                        worker_run_id,
                        heartbeat_seq: existing.heartbeat_seq,
                        last_seen_ns: now.mono_ns,
                        last_seen_ms: now.wall_ms,
                        capacity_total: existing.capacity_total,
                        capacity_used: existing.capacity_used,
                        capacity_available: existing.capacity_available,
                        active_reads: existing.active_reads,
                        active_writes: existing.active_writes,
                        health: existing.health,
                    };
                }
            },
            None => {},
        }
        assert(runtime == swept.runtime_after(key@, beat, now));
        let heartbeat_seq: u64 = runtime.heartbeat_seq;
        self.runtime.insert(key.copy_key(), runtime);
        let timeout_ns = self.timeout_ns();
        proof {
            assert(now.mono_ns + model::nanos(self.heartbeat_timeout_sec) <= u128::MAX) by (nonlinear_arith)
                requires
                    now.mono_ns <= u64::MAX,
                    model::nanos(self.heartbeat_timeout_sec) == self.heartbeat_timeout_sec as nat * 1_000_000_000,
                    self.heartbeat_timeout_sec <= u64::MAX,
            ;
        }
        match self.registrations.get(&key) {
            Some(registration) => {
                let mut renewed = registration.clone();
                renewed.lease_deadline_ns = now.mono_ns as u128 + timeout_ns;
                self.registrations.insert(key, renewed);
            },
            None => {},
        }
        proof {
            assert(self@ =~= swept.with_beat(key@, beat, now));
        }
        Ok(
            WorkerLiveState {
                group_name: group_name.clone(),
                worker_id,
                worker_run_id,
                heartbeat_seq,
                last_seen_ms: now.wall_ms,
            },
        )
    }

    /// Takes a heartbeat.
    pub fn record_heartbeat(
        &mut self,
        group_name: &GroupName,
        worker_id: WorkerId,
        worker_run_id: WorkerRunId,
        heartbeat_seq: u64,
        advertised_endpoint: &str,
        worker_net_protocol: i32,
        capacity_total: u64,
        capacity_used: u64,
        capacity_available: u64,
        active_reads: u32,
        active_writes: u32,
        health: HealthStatus,
    ) -> (result: MetadataResult<WorkerLiveState>)
        requires
            old(self).inv(),
        ensures
            final(self).inv(),
            keeps_lists(*old(self), *final(self)),
            exists|now: Moment| #[trigger]
                heartbeat_outcome(
                    old(self)@,
                    final(self)@,
                    *group_name,
                    worker_id,
                    (model::Beat {
                        run: worker_run_id,
                        seq: heartbeat_seq,
                        endpoint: advertised_endpoint@,
                        protocol: worker_net_protocol,
                        capacity_total,
                        capacity_used,
                        capacity_available,
                        active_reads,
                        active_writes,
                        health,
                    }),
                    now,
                    result,
                ),
    {
        let now = self.now();
        self.record_heartbeat_at(
            group_name,
            worker_id,
            worker_run_id,
            heartbeat_seq,
            advertised_endpoint,
            worker_net_protocol,
            capacity_total,
            capacity_used,
            capacity_available,
            active_reads,
            active_writes,
            health,
            now,
        )
    }

    /// Description and load of a worker that has sent a heartbeat.
    pub fn get_worker(&self, group_name: &GroupName, worker_id: WorkerId) -> (info: Option<WorkerInfo>)
        ensures
            info == (if self@.descriptors.contains_key((group_name@, worker_id)) && self@.runtime.contains_key(
                (group_name@, worker_id),
            ) {
                Some(
                    info_of(
                        self@.descriptors[(group_name@, worker_id)],
                        self@.runtime[(group_name@, worker_id)],
                    ),
                )
            } else {
                None
            }),
    {
        let key = WorkerRegistrationKey::new(group_name, worker_id);
        match (self.descriptors.get(&key), self.runtime.get(&key)) {
            (Some(descriptor), Some(runtime)) => Some(
                WorkerInfo {
                    group_name: descriptor.group_name.clone(),
                    worker_id: descriptor.worker_id,
                    address: descriptor.address.clone(),
                    worker_net_protocol: descriptor.worker_net_protocol,
                    capacity_total: runtime.capacity_total,
                    capacity_used: runtime.capacity_used,
                    capacity_available: runtime.capacity_available,
                    active_reads: runtime.active_reads,
                    active_writes: runtime.active_writes,
                    health: runtime.health,
                    last_heartbeat: runtime.last_seen_ms / 1000,
                    fault_domain: copy_text(&descriptor.fault_domain),
                },
            ),
            _ => None,
        }
    }

    /// The live workers at this time, in no promised order.
    pub fn list_live_workers_at(&self, now: Moment) -> (workers: Vec<WorkerRegistrationKey>)
        ensures
            table::lists(workers@, live_workers(self@, now)),
    {
        let timeout_ns = self.timeout_ns();
        let test = |k: &WorkerRegistrationKey, r: &WorkerRuntime| -> (recent: bool)
            ensures
                recent == ((if now.mono_ns >= r.last_seen_ns {
                    now.mono_ns - r.last_seen_ns
                } else {
                    0
                }) < timeout_ns),
            { is_recent(r, timeout_ns, now) };
        let ghost recent = |k: model::WorkerAt, r: WorkerRuntime|
            (if now.mono_ns >= r.last_seen_ns {
                now.mono_ns - r.last_seen_ns
            } else {
                0
            }) < timeout_ns;
        let workers = table::keys_where(&self.runtime, test, Ghost(recent));
        assert(table::keys_meeting(self.runtime@, recent) =~= live_workers(self@, now));
        workers
    }

    /// The live workers, in no promised order.
    pub fn list_live_workers(&self) -> (workers: Vec<WorkerRegistrationKey>)
        ensures
            exists|now: Moment| table::lists(workers@, #[trigger] live_workers(self@, now)),
    {
        let now = self.now();
        self.list_live_workers_at(now)
    }

    /// The live workers of one group at this time, in no promised order.
    pub fn list_live_workers_in_group_at(&self, group_name: &GroupName, now: Moment) -> (workers: Vec<WorkerId>)
        ensures
            lists_ids(workers@, live_ids(self@, group_name@, now)),
    {
        let keys = self.list_live_workers_at(now);
        let mut workers: Vec<WorkerId> = Vec::new();
        let mut i: usize = 0;
        while i < keys.len()
            invariant
                i <= keys@.len(),
                table::lists(keys@, live_workers(self@, now)),
                workers@.no_duplicates(),
                forall|w: WorkerId| #[trigger]
                    workers@.contains(w) <==> table::among(keys@.take(i as int), (group_name@, w)),
            decreases keys@.len() - i,
        {
            let ghost before = workers@;
            let ghost taken = keys@.take(i as int);
            let ghost more = keys@.take(i + 1);
            let ghost next = keys@[i as int]@;
            proof {
                assert(!table::among(taken, next)) by {
                    if table::among(taken, next) {
                        let j = choose|j: int| 0 <= j < taken.len() && #[trigger] taken[j]@ == next;
                        assert(keys@[j]@ != keys@[i as int]@);
                    }
                }
                assert forall|k: model::WorkerAt| #[trigger] table::among(more, k) <==> table::among(taken, k) || k
                    == next by {
                    if table::among(more, k) {
                        let j = choose|j: int| 0 <= j < more.len() && #[trigger] more[j]@ == k;
                        if j < i {
                            assert(taken[j]@ == k);
                        }
                    }
                    if table::among(taken, k) {
                        let j = choose|j: int| 0 <= j < taken.len() && #[trigger] taken[j]@ == k;
                        assert(more[j]@ == k);
                    }
                    if k == next {
                        assert(more[i as int]@ == k);
                    }
                }
            }
            if keys[i].group_name.same(group_name) {
                let id = keys[i].worker_id;
                assert(!before.contains(id));
                workers.push(id);
                proof {
                    assert forall|w: WorkerId| #[trigger] workers@.contains(w) <==> before.contains(w) || w == id by {
                        vstd::seq_lib::lemma_seq_contains_after_push(before, id, w);
                    }
                }
            }
            i += 1;
        }
        proof {
            assert(keys@.take(keys@.len() as int) =~= keys@);
            assert forall|w: WorkerId| workers@.to_set().contains(w) == live_ids(self@, group_name@, now).contains(w) by {
                assert(live_workers(self@, now).contains((group_name@, w)) <==> table::among(keys@, (group_name@, w)));
                assert(workers@.contains(w) <==> table::among(keys@, (group_name@, w)));
            }
            assert(workers@.to_set() =~= live_ids(self@, group_name@, now));
        }
        workers
    }

    /// The live workers of one group, in no promised order.
    pub fn list_live_workers_in_group(&self, group_name: &GroupName) -> (workers: Vec<WorkerId>)
        ensures
            exists|now: Moment| lists_ids(workers@, #[trigger] live_ids(self@, group_name@, now)),
    {
        let now = self.now();
        self.list_live_workers_in_group_at(group_name, now)
    }

    /// The numbers of each live worker of the group from which its load is computed, at this time.
    pub fn live_worker_figures_at(&self, group_name: &GroupName, now: Moment) -> (figures: Vec<WorkerFigures>)
        ensures
            are_figures(figures@, self@, group_name@, now),
    {
        let workers = self.list_live_workers_in_group_at(group_name, now);
        let mut figures: Vec<WorkerFigures> = Vec::new();
        let mut i: usize = 0;
        while i < workers.len()
            invariant
                i <= workers@.len(),
                lists_ids(workers@, live_ids(self@, group_name@, now)),
                figures@.len() == i,
                forall|j: int|
                    0 <= j < i ==> #[trigger] figures@[j] == figures_of(
                        workers@[j],
                        self@.runtime[(group_name@, workers@[j])],
                    ),
            decreases workers@.len() - i,
        {
            let key = WorkerRegistrationKey::new(group_name, workers[i]);
            assert(workers@.to_set().contains(workers@[i as int]));
            match self.runtime.get(&key) {
                Some(runtime) => {
                    figures.push(
                        WorkerFigures {
                            worker_id: workers[i],
                            capacity_total: runtime.capacity_total,
                            capacity_used: runtime.capacity_used,
                            active_reads: runtime.active_reads,
                            active_writes: runtime.active_writes,
                        },
                    );
                },
                None => {},
            }
            i += 1;
        }
        proof {
            assert forall|j: int| 0 <= j < figures@.len() implies live_ids(self@, group_name@, now).contains(
                (#[trigger] figures@[j]).worker_id,
            ) by {
                assert(workers@.to_set().contains(workers@[j]));
            }
            assert forall|w: WorkerId| #[trigger] live_ids(self@, group_name@, now).contains(w) implies has_figures(
                figures@,
                w,
            ) by {
                assert(workers@.to_set().contains(w));
                let j = choose|j: int| 0 <= j < workers@.len() && workers@[j] == w;
                assert(figures@[j].worker_id == w);
            }
        }
        figures
    }

    /// The numbers of each live worker of the group from which its load is computed.
    pub fn live_worker_figures(&self, group_name: &GroupName) -> (figures: Vec<WorkerFigures>)
        ensures
            exists|now: Moment| #[trigger] are_figures(figures@, self@, group_name@, now),
    {
        let now = self.now();
        self.live_worker_figures_at(group_name, now)
    }

    /// Whether the worker is live at this time.
    pub fn is_worker_live_at(&self, group_name: &GroupName, worker_id: WorkerId, now: Moment) -> (live: bool)
        ensures
            live == self@.live((group_name@, worker_id), now),
    {
        let key = WorkerRegistrationKey::new(group_name, worker_id);
        self.key_is_live(&key, now)
    }

    /// Whether the worker is live.
    pub fn is_worker_live(&self, group_name: &GroupName, worker_id: WorkerId) -> (live: bool)
        ensures
            exists|now: Moment| live == #[trigger] self@.live((group_name@, worker_id), now),
    {
        let now = self.now();
        self.is_worker_live_at(group_name, worker_id, now)
    }

    /// The workers with a descriptor, in no promised order.
    pub fn list_all_workers(&self) -> (workers: Vec<WorkerRegistrationKey>)
        ensures
            table::lists(workers@, self@.descriptors.dom()),
    {
        let test = |k: &WorkerRegistrationKey, d: &WorkerDescriptor| -> (any: bool)
            ensures
                any,
            { true };
        let ghost any = |k: model::WorkerAt, d: WorkerDescriptor| true;
        let workers = table::keys_where(&self.descriptors, test, Ghost(any));
        assert(table::keys_meeting(self.descriptors@, any) =~= self@.descriptors.dom());
        workers
    }

    proof fn lemma_index_is_reported(self)
        requires
            self.inv(),
        ensures
            self.locations@.dom() =~= reported_blocks(self@),
            forall|b: (Seq<char>, BlockId), k: model::WorkerAt|
                #[trigger]
                locations::holds(self.locations@, b, k) <==> k.0 == b.0 && self@.blocks(k).contains(b.1),
    {
        assert forall|b: (Seq<char>, BlockId), k: model::WorkerAt| #[trigger]
            locations::holds(self.locations@, b, k) <==> k.0 == b.0 && self@.blocks(k).contains(b.1) by {
            assert(locations::holds(self.locations@, b, k) <==> lists_block(self.worker_blocks@, b, k));
            if self.worker_blocks@.contains_key(k) {
                assert(self@.report(k).published == self.block_reports@[k].published_blocks@);
                assert(self.worker_blocks@[k]@.to_set().contains(b.1) <==> self.worker_blocks@[k]@.contains(b.1));
            }
        }
        assert forall|b: (Seq<char>, BlockId)| self.locations@.dom().contains(b) == reported_blocks(self@).contains(b) by {
            if self.locations@.contains_key(b) {
                assert(self.locations@[b]@.len() > 0);
                let k = self.locations@[b]@[0]@;
                assert(locations::holds(self.locations@, b, k));
                assert(self@.blocks((b.0, k.1)).contains(b.1));
            }
            if reported_blocks(self@).contains(b) {
                let w = choose|w: WorkerId| #[trigger] self@.blocks((b.0, w)).contains(b.1);
                assert(locations::holds(self.locations@, b, (b.0, w)));
            }
        }
    }

    /// How many blocks have a worker under which they are found.
    pub fn get_all_locations_count(&self) -> (count: usize)
        requires
            self.inv(),
        ensures
            reported_blocks(self@).finite(),
            count == reported_blocks(self@).len(),
    {
        proof {
            self.lemma_index_is_reported();
        }
        self.locations.len()
    }

    /// The blocks that have a worker under which they are found, in no promised order.
    pub fn list_reported_blocks(&self) -> (blocks: Vec<BlockLocationKey>)
        requires
            self.inv(),
        ensures
            table::lists(blocks@, reported_blocks(self@)),
    {
        let test = |k: &BlockLocationKey, w: &Vec<WorkerRegistrationKey>| -> (any: bool)
            ensures
                any,
            { true };
        let ghost any = |k: (Seq<char>, BlockId), w: Vec<WorkerRegistrationKey>| true;
        let blocks = table::keys_where(&self.locations, test, Ghost(any));
        proof {
            self.lemma_index_is_reported();
            assert(table::keys_meeting(self.locations@, any) =~= reported_blocks(self@));
        }
        blocks
    }

    /// The live workers of the group that hold the block ready at this time, in no promised order.
    pub fn get_block_locations_at(&self, group_name: &GroupName, block_id: BlockId, now: Moment) -> (workers: Vec<
        WorkerId,
    >)
        requires
            self.inv(),
        ensures
            lists_ids(workers@, live_holders(self@, group_name@, block_id, now)),
    {
        let key = BlockLocationKey::new(group_name, block_id);
        proof {
            self.lemma_index_is_reported();
        }
        let mut workers: Vec<WorkerId> = Vec::new();
        match self.locations.get(&key) {
            Some(holders) => {
                proof {
                    assert forall|j: int| 0 <= j < holders@.len() implies (#[trigger] holders@[j]).group_name@
                        == group_name@ by {
                        assert(locations::holds(self.locations@, key@, holders@[j]@));
                    }
                }
                let mut i: usize = 0;
                while i < holders.len()
                    invariant
                        i <= holders@.len(),
                        key@ == (group_name@, block_id),
                        locations::distinct_workers(holders@),
                        forall|j: int| 0 <= j < holders@.len() ==> (#[trigger] holders@[j]).group_name@ == group_name@,
                        workers@.no_duplicates(),
                        forall|w: WorkerId| #[trigger]
                            workers@.contains(w) <==> locations::listed(holders@.take(i as int), (group_name@, w))
                                && self@.live((group_name@, w), now),
                    decreases holders@.len() - i,
                {
                    let ghost before = workers@;
                    let ghost taken = holders@.take(i as int);
                    let ghost more = holders@.take(i + 1);
                    let ghost next = holders@[i as int]@;
                    proof {
                        assert(!locations::listed(taken, next)) by {
                            if locations::listed(taken, next) {
                                let j = choose|j: int| 0 <= j < taken.len() && #[trigger] taken[j]@ == next;
                                assert(holders@[j]@ != holders@[i as int]@);
                            }
                        }
                        assert forall|k: model::WorkerAt| #[trigger] locations::listed(more, k) <==> locations::listed(
                            taken,
                            k,
                        ) || k == next by {
                            if locations::listed(more, k) {
                                let j = choose|j: int| 0 <= j < more.len() && #[trigger] more[j]@ == k;
                                if j < i {
                                    assert(taken[j]@ == k);
                                }
                            }
                            if locations::listed(taken, k) {
                                let j = choose|j: int| 0 <= j < taken.len() && #[trigger] taken[j]@ == k;
                                assert(more[j]@ == k);
                            }
                            if k == next {
                                assert(more[i as int]@ == k);
                            }
                        }
                    }
                    if self.key_is_live(&holders[i], now) {
                        let id = holders[i].worker_id;
                        assert(next == (group_name@, id));
                        assert(!before.contains(id));
                        workers.push(id);
                        proof {
                            assert forall|w: WorkerId| #[trigger] workers@.contains(w) <==> before.contains(w) || w == id by {
                                vstd::seq_lib::lemma_seq_contains_after_push(before, id, w);
                            }
                        }
                    }
                    i += 1;
                }
                proof {
                    assert(holders@.take(holders@.len() as int) =~= holders@);
                    assert forall|w: WorkerId| workers@.to_set().contains(w) == live_holders(
                        self@,
                        group_name@,
                        block_id,
                        now,
                    ).contains(w) by {
                        assert(locations::holds(self.locations@, key@, (group_name@, w)) <==> locations::listed(
                            holders@,
                            (group_name@, w),
                        ));
                        assert(workers@.contains(w) <==> locations::listed(holders@, (group_name@, w)) && self@.live(
                            (group_name@, w),
                            now,
                        ));
                    }
                }
            },
            None => {
                proof {
                    assert forall|w: WorkerId| !live_holders(self@, group_name@, block_id, now).contains(w) by {
                        assert(!locations::holds(self.locations@, key@, (group_name@, w)));
                    }
                }
            },
        }
        assert(workers@.to_set() =~= live_holders(self@, group_name@, block_id, now));
        workers
    }

    /// The live workers of the group that hold the block ready, in no promised order.
    pub fn get_block_locations(&self, group_name: &GroupName, block_id: BlockId) -> (workers: Vec<WorkerId>)
        requires
            self.inv(),
        ensures
            exists|now: Moment|
                lists_ids(workers@, #[trigger] live_holders(self@, group_name@, block_id, now)),
    {
        let now = self.now();
        self.get_block_locations_at(group_name, block_id, now)
    }
}

/// The lease of the worker's registration and its last heartbeat both hold.
pub open spec fn lease_valid(m: model::WorkerModel, k: model::WorkerAt, now: Moment) -> bool {
    m.registrations.contains_key(k) && m.registrations[k].lease_deadline_ns > now.mono_ns && m.live(k, now)
}

/// The host as it was read, or nothing.
pub open spec fn is_host(host: Option<String>, of: Seq<char>) -> bool {
    match host {
        Some(h) => crate::endpoint::host_of(of) == Some(h@),
        None => crate::endpoint::host_of(of) is None,
    }
}

/// The view is that of the worker.
pub open spec fn is_placement_view(
    view: WorkerPlacementView,
    m: model::WorkerModel,
    k: model::WorkerAt,
    current_format: BlockFormatId,
    now: Moment,
) -> bool {
    &&& view.group_name@ == k.0
    &&& view.worker_id == k.1
    &&& view.worker_run_id == (if m.registrations.contains_key(k) {
        Some(m.registrations[k].worker_run_id)
    } else {
        None
    })
    &&& view.endpoint == m.descriptors[k].address
    &&& view.worker_net_protocol == m.descriptors[k].worker_net_protocol
    &&& view.registered == m.registrations.contains_key(k)
    &&& view.lease_valid == lease_valid(m, k, now)
    &&& is_host(view.ip, m.descriptors[k].address@)
    &&& is_host(view.host, m.descriptors[k].address@)
    &&& view.az is None
    &&& view.rack == m.descriptors[k].fault_domain
    &&& view.region is None
    &&& view.free_bytes == (if m.runtime.contains_key(k) {
        Some(m.runtime[k].capacity_available)
    } else {
        None
    })
    &&& view.supported_block_formats@ == seq![current_format]
}

/// One view for each worker of the group with a descriptor, by ascending worker.
pub open spec fn are_placement_views(
    views: Seq<WorkerPlacementView>,
    m: model::WorkerModel,
    group: Seq<char>,
    current_format: BlockFormatId,
    now: Moment,
) -> bool {
    &&& forall|i: int, j: int| 0 <= i < j < views.len() ==> (#[trigger] views[i]).worker_id.raw < (#[trigger] views[j]).worker_id.raw
    &&& forall|i: int|
        0 <= i < views.len() ==> m.descriptors.contains_key((group, (#[trigger] views[i]).worker_id)) && is_placement_view(
            views[i],
            m,
            (group, views[i].worker_id),
            current_format,
            now,
        )
    &&& forall|w: WorkerId| #[trigger] m.descriptors.contains_key((group, w)) ==> has_view(views, w)
}

pub open spec fn has_view(views: Seq<WorkerPlacementView>, w: WorkerId) -> bool {
    exists|i: int| 0 <= i < views.len() && (#[trigger] views[i]).worker_id == w
}

/// The worker holds the block in a complete report.
pub open spec fn reports_block(m: model::WorkerModel, group: Seq<char>, block: BlockId, w: WorkerId) -> bool {
    m.blocks((group, w)).contains(block) && m.report((group, w)).state == BlockReportState::Ready
}

/// One location for each worker that holds the block in a complete report, by ascending worker.
pub open spec fn are_reported_locations(
    reported: Seq<ReportedBlockLocation>,
    m: model::WorkerModel,
    group: Seq<char>,
    block: BlockId,
) -> bool {
    &&& forall|i: int, j: int|
        0 <= i < j < reported.len() ==> (#[trigger] reported[i]).worker_id.raw < (#[trigger] reported[j]).worker_id.raw
    &&& forall|i: int|
        0 <= i < reported.len() ==> reports_block(m, group, block, (#[trigger] reported[i]).worker_id)
            && is_reported_location(reported[i], m, group, block)
    &&& forall|w: WorkerId| #[trigger] reports_block(m, group, block, w) ==> has_location(reported, w)
}

pub open spec fn is_reported_location(
    location: ReportedBlockLocation,
    m: model::WorkerModel,
    group: Seq<char>,
    block: BlockId,
) -> bool {
    let report = m.report((group, location.worker_id));
    &&& location.group_name@ == group
    &&& location.block_id == block
    &&& location.block_stamp == report.published[block].block_stamp
    &&& report.run == Some(location.worker_run_id)
}

pub open spec fn has_location(reported: Seq<ReportedBlockLocation>, w: WorkerId) -> bool {
    exists|i: int| 0 <= i < reported.len() && (#[trigger] reported[i]).worker_id == w
}

/// All pairs of a block and a worker that holds it.
pub open spec fn holder_pairs(m: model::WorkerModel) -> Set<(model::WorkerAt, BlockId)> {
    Set::new(|p: (model::WorkerAt, BlockId)| m.blocks(p.0).contains(p.1))
}

/// The active workers.
pub open spec fn active_workers(m: model::WorkerModel, now_ms: u64, ttl_ms: u64) -> Set<model::WorkerAt> {
    Set::new(|k: model::WorkerAt| m.active(k, now_ms, ttl_ms))
}

/// The active workers whose current run has published its blocks.
pub open spec fn full_reported_workers(m: model::WorkerModel, now_ms: u64, ttl_ms: u64) -> Set<model::WorkerAt> {
    Set::new(|k: model::WorkerAt| m.active(k, now_ms, ttl_ms) && m.full_reported(k))
}

/// Whether at least so many percent of the active workers have published; all have where there
/// is none.
pub open spec fn enough(active: nat, full: nat, threshold_percent: u64) -> bool {
    if active == 0 {
        threshold_percent <= 100
    } else {
        full * 100 >= active * threshold_percent
    }
}

/// The snapshot is that of the state.
pub open spec fn is_convergence(
    snapshot: BlockReportConvergenceSnapshot,
    m: model::WorkerModel,
    now_ms: u64,
    ttl_ms: u64,
    threshold_percent: u64,
) -> bool {
    &&& active_workers(m, now_ms, ttl_ms).finite()
    &&& full_reported_workers(m, now_ms, ttl_ms).finite()
    &&& snapshot.active_workers == active_workers(m, now_ms, ttl_ms).len()
    &&& snapshot.full_reported_workers == full_reported_workers(m, now_ms, ttl_ms).len()
    &&& snapshot.converged == enough(
        snapshot.active_workers as nat,
        snapshot.full_reported_workers as nat,
        threshold_percent,
    )
}

/// The share of active workers, in percent, whose blocks must be known before maintenance acts.
pub const CONVERGENCE_THRESHOLD_PERCENT: u64 = 80;

impl WorkerManager {
    /// Forgets the worker's heartbeat and where its blocks are; its descriptor stays. Gives the
    /// blocks under which it was found, as they were listed.
    pub fn remove_dead_worker(&mut self, group_name: &GroupName, worker_id: WorkerId) -> (blocks: Vec<BlockId>)
        requires
            old(self).inv(),
        ensures
            final(self).inv(),
            keeps_other_lists(*old(self), *final(self), (group_name@, worker_id)),
            final(self).listed((group_name@, worker_id)).len() == 0,
            blocks@ == old(self).listed((group_name@, worker_id)),
            final(self)@ == (model::WorkerModel {
                runtime: old(self)@.runtime.remove((group_name@, worker_id)),
                indexed: old(self)@.indexed.remove((group_name@, worker_id)),
                ..old(self)@
            }),
            blocks@.no_duplicates(),
            blocks@.to_set() == old(self)@.blocks((group_name@, worker_id)),
    {
        let key = WorkerRegistrationKey::new(group_name, worker_id);
        self.runtime.remove(&key);
        let ghost listed_before = old(self).worker_blocks@;
        let blocks = match self.worker_blocks.remove(&key) {
            Some(blocks) => {
                locations::drop_holder_of_all(&mut self.locations, group_name, &blocks, &key);
                proof {
                    assert(old(self)@.report(key@).published == old(self).block_reports@[key@].published_blocks@);
                }
                blocks
            },
            None => {
                let none: Vec<BlockId> = Vec::new();
                assert(none@.to_set() =~= Set::<BlockId>::empty());
                none
            },
        };
        proof {
            assert(self@ =~= model::WorkerModel {
                runtime: old(self)@.runtime.remove(key@),
                indexed: old(self)@.indexed.remove(key@),
                ..old(self)@
            });
            assert forall|b: (Seq<char>, BlockId), k: model::WorkerAt| #[trigger]
                locations::holds(self.locations@, b, k) <==> lists_block(self.worker_blocks@, b, k) by {
                assert(locations::holds(old(self).locations@, b, k) <==> lists_block(listed_before, b, k));
            }
        }
        blocks
    }

    /// The blocks under which the worker is found, each once. Their order is settled when they are
    /// published, in no promised way.
    pub fn get_worker_blocks(&self, group_name: &GroupName, worker_id: WorkerId) -> (blocks: Vec<BlockId>)
        requires
            self.inv(),
        ensures
            blocks@ == self.listed((group_name@, worker_id)),
            blocks@.no_duplicates(),
            blocks@.to_set() == self@.blocks((group_name@, worker_id)),
    {
        let key = WorkerRegistrationKey::new(group_name, worker_id);
        match self.worker_blocks.get(&key) {
            Some(blocks) => {
                proof {
                    assert(self@.report(key@).published == self.block_reports@[key@].published_blocks@);
                }
                let copy = blocks.clone();
                assert(copy@ =~= blocks@);
                copy
            },
            None => {
                let none: Vec<BlockId> = Vec::new();
                assert(none@.to_set() =~= Set::<BlockId>::empty());
                none
            },
        }
    }

    fn placement_view(
        &self,
        key: &WorkerRegistrationKey,
        descriptor: &WorkerDescriptor,
        current_format: BlockFormatId,
        now: Moment,
    ) -> (view: WorkerPlacementView)
        requires
            self@.descriptors.contains_key(key@),
            self@.descriptors[key@] == *descriptor,
        ensures
            is_placement_view(view, self@, key@, current_format, now),
    {
        let registration = self.registrations.get(key);
        let live = self.runtime.get(key);
        let lease_valid = (match registration {
            Some(r) => r.lease_deadline_ns > now.mono_ns as u128,
            None => false,
        }) && self.key_is_live(key, now);
        let mut supported_block_formats: Vec<BlockFormatId> = Vec::new();
        supported_block_formats.push(current_format);
        assert(supported_block_formats@ =~= seq![current_format]);
        WorkerPlacementView {
            group_name: key.group_name.clone(),
            worker_id: key.worker_id,
            worker_run_id: match registration {
                Some(r) => Some(r.worker_run_id),
                None => None,
            },
            endpoint: descriptor.address.clone(),
            worker_net_protocol: descriptor.worker_net_protocol,
            registered: registration.is_some(),
            lease_valid,
            ip: endpoint_host(descriptor.address.as_str()),
            host: endpoint_host(descriptor.address.as_str()),
            az: None,
            rack: copy_text(&descriptor.fault_domain),
            region: None,
            free_bytes: match live {
                Some(r) => Some(r.capacity_available),
                None => None,
            },
            supported_block_formats,
        }
    }

    /// The workers of a group as placement sees them at this time, by ascending worker.
    pub fn collect_worker_placement_views_at(
        &self,
        group_name: &GroupName,
        current_format: BlockFormatId,
        now: Moment,
    ) -> (views: Vec<WorkerPlacementView>)
        ensures
            are_placement_views(views@, self@, group_name@, current_format, now),
    {
        let mut views: Vec<WorkerPlacementView> = Vec::new();
        let rows = self.descriptors.rows();
        let mut i: usize = 0;
        while i < rows.len()
            invariant
                i <= rows@.len(),
                table::distinct_keys(rows@),
                self@.descriptors == table::rows_map(rows@),
                forall|a: int, b: int|
                    0 <= a < b < views@.len() ==> (#[trigger] views@[a]).worker_id.raw < (#[trigger] views@[b]).worker_id.raw,
                forall|a: int|
                    0 <= a < views@.len() ==> self@.descriptors.contains_key(
                        (group_name@, (#[trigger] views@[a]).worker_id),
                    ) && is_placement_view(views@[a], self@, (group_name@, views@[a].worker_id), current_format, now),
                forall|a: int| 0 <= a < views@.len() ==> among_rows(rows@, i as int, (group_name@, (#[trigger] views@[a]).worker_id)),
                forall|j: int| 0 <= j < i && (#[trigger] rows@[j]).0.group_name@ == group_name@ ==> has_view(views@, rows@[j].0.worker_id),
            decreases rows@.len() - i,
        {
            let (key, descriptor) = &rows[i];
            let ghost before = views@;
            proof {
                table::lemma_row_in_map(rows@, i as int);
            }
            if key.group_name.same(group_name) {
                let view = self.placement_view(key, descriptor, current_format, now);
                let mut at: usize = 0;
                while at < views.len() && views[at].worker_id.raw < view.worker_id.raw
                    invariant
                        at <= views@.len(),
                        views@ == before,
                        forall|a: int| 0 <= a < at ==> (#[trigger] views@[a]).worker_id.raw < view.worker_id.raw,
                    decreases views@.len() - at,
                {
                    at += 1;
                }
                proof {
                    assert forall|a: int| at <= a < before.len() implies (#[trigger] before[a]).worker_id.raw > view.worker_id.raw by {
                        assert(before[at as int].worker_id.raw >= view.worker_id.raw);
                        if before[a].worker_id.raw == view.worker_id.raw {
                            assert(before[a].worker_id == view.worker_id);
                            assert(among_rows(rows@, i as int, (group_name@, before[a].worker_id)));
                            let j = choose|j: int| 0 <= j < i && (#[trigger] rows@[j]).0@ == (group_name@, before[a].worker_id);
                            assert(rows@[j].0@ != rows@[i as int].0@);
                        }
                    }
                }
                views.insert(at, view);
                proof {
                    assert forall|a: int, b: int| 0 <= a < b < views@.len() implies (#[trigger] views@[a]).worker_id.raw < (#[trigger] views@[b]).worker_id.raw by {
                        let a0 = if a < at { a } else { a - 1 };
                        let b0 = if b < at { b } else { b - 1 };
                        if a != at && b != at {
                            assert(before[a0].worker_id.raw < before[b0].worker_id.raw);
                        }
                    }
                    assert forall|a: int| 0 <= a < views@.len() implies self@.descriptors.contains_key(
                        (group_name@, (#[trigger] views@[a]).worker_id),
                    ) && is_placement_view(views@[a], self@, (group_name@, views@[a].worker_id), current_format, now) && among_rows(rows@, i + 1, (group_name@, views@[a].worker_id)) by {
                        if a == at {
                            assert(rows@[i as int].0@ == (group_name@, views@[a].worker_id));
                        } else {
                            let a0 = if a < at { a } else { a - 1 };
                            assert(views@[a] == before[a0]);
                            assert(among_rows(rows@, i as int, (group_name@, before[a0].worker_id)));
                        }
                    }
                    assert forall|j: int| 0 <= j < i + 1 && (#[trigger] rows@[j]).0.group_name@ == group_name@ implies has_view(views@, rows@[j].0.worker_id) by {
                        if j < i {
                            assert(has_view(before, rows@[j].0.worker_id));
                            let a = choose|a: int| 0 <= a < before.len() && (#[trigger] before[a]).worker_id == rows@[j].0.worker_id;
                            let a1 = if a < at { a } else { a + 1 };
                            assert(views@[a1] == before[a]);
                        } else {
                            assert(views@[at as int].worker_id == rows@[j].0.worker_id);
                        }
                    }
                }
            } else {
                proof {
                    assert forall|a: int| 0 <= a < views@.len() implies among_rows(rows@, i + 1, (group_name@, (#[trigger] views@[a]).worker_id)) by {
                        assert(among_rows(rows@, i as int, (group_name@, views@[a].worker_id)));
                    }
                }
            }
            i += 1;
        }
        proof {
            assert forall|w: WorkerId| #[trigger] self@.descriptors.contains_key((group_name@, w)) implies has_view(views@, w) by {
                let j = table::lemma_map_in_rows(rows@, (group_name@, w));
                assert(rows@[j].0.group_name@ == group_name@);
            }
        }
        views
    }

    /// The workers of a group as placement sees them, by ascending worker.
    pub fn collect_worker_placement_views(&self, group_name: &GroupName, current_format: BlockFormatId) -> (views: Vec<
        WorkerPlacementView,
    >)
        ensures
            exists|now: Moment| #[trigger] are_placement_views(views@, self@, group_name@, current_format, now),
    {
        let now = self.now();
        self.collect_worker_placement_views_at(group_name, current_format, now)
    }

    /// The workers that hold the block in a complete report, with the run that reported it, by
    /// ascending worker.
    pub fn reported_block_locations(&self, group_name: &GroupName, block_id: BlockId) -> (reported: Vec<
        ReportedBlockLocation,
    >)
        requires
            self.inv(),
        ensures
            are_reported_locations(reported@, self@, group_name@, block_id),
    {
        let key = BlockLocationKey::new(group_name, block_id);
        let mut reported: Vec<ReportedBlockLocation> = Vec::new();
        proof {
            self.lemma_index_is_reported();
        }
        let holders = match self.locations.get(&key) {
            Some(holders) => holders,
            None => {
                proof {
                    assert forall|w: WorkerId| !reports_block(self@, group_name@, block_id, w) by {
                        assert(!locations::holds(self.locations@, key@, (group_name@, w)));
                    }
                }
                return reported;
            },
        };
        proof {
            assert forall|j: int| 0 <= j < holders@.len() implies (#[trigger] holders@[j]).group_name@ == group_name@
                && self@.blocks(holders@[j]@).contains(block_id) by {
                assert(locations::holds(self.locations@, key@, holders@[j]@));
            }
        }
        let mut i: usize = 0;
        while i < holders.len()
            invariant
                i <= holders@.len(),
                self.inv(),
                locations::distinct_workers(holders@),
                forall|j: int| 0 <= j < holders@.len() ==> (#[trigger] holders@[j]).group_name@ == group_name@
                    && self@.blocks(holders@[j]@).contains(block_id),
                forall|a: int, b: int|
                    0 <= a < b < reported@.len() ==> (#[trigger] reported@[a]).worker_id.raw < (#[trigger] reported@[b]).worker_id.raw,
                forall|a: int|
                    0 <= a < reported@.len() ==> reports_block(self@, group_name@, block_id, (#[trigger] reported@[a]).worker_id)
                        && is_reported_location(reported@[a], self@, group_name@, block_id)
                        && locations::listed(holders@.take(i as int), (group_name@, reported@[a].worker_id)),
                forall|j: int| 0 <= j < i && reports_block(self@, group_name@, block_id, (#[trigger] holders@[j]).worker_id)
                    ==> has_location(reported@, holders@[j].worker_id),
            decreases holders@.len() - i,
        {
            let holder = &holders[i];
            let ghost before = reported@;
            let ghost taken = holders@.take(i as int);
            let ghost more = holders@.take(i + 1);
            proof {
                assert forall|k: model::WorkerAt| #[trigger] locations::listed(taken, k) implies locations::listed(more, k) by {
                    let j = choose|j: int| 0 <= j < taken.len() && #[trigger] taken[j]@ == k;
                    assert(more[j]@ == k);
                }
                assert(holder@ == (group_name@, holder.worker_id));
                assert(more[i as int]@ == holder@);
                assert(locations::listed(more, holder@));
                assert(!locations::listed(taken, holder@)) by {
                    if locations::listed(taken, holder@) {
                        let j = choose|j: int| 0 <= j < taken.len() && #[trigger] taken[j]@ == holder@;
                        assert(holders@[j]@ != holders@[i as int]@);
                    }
                }
            }
            match self.block_reports.get(holder) {
                Some(report) => {
                    assert(report.model() == self@.report(holder@));
                    if report.state == BlockReportState::Ready {
                        match (report.worker_run_id, report.published_blocks.get(&block_id)) {
                            (Some(worker_run_id), Some(block)) => {
                                let location = ReportedBlockLocation {
                                    group_name: group_name.clone(),
                                    block_id,
                                    block_stamp: block.block_stamp,
                                    worker_id: holder.worker_id,
                                    worker_run_id,
                                };
                                let mut at: usize = 0;
                                while at < reported.len() && reported[at].worker_id.raw < location.worker_id.raw
                                    invariant
                                        at <= reported@.len(),
                                        reported@ == before,
                                        forall|a: int| 0 <= a < at ==> (#[trigger] reported@[a]).worker_id.raw < location.worker_id.raw,
                                    decreases reported@.len() - at,
                                {
                                    at += 1;
                                }
                                proof {
                                    assert forall|a: int| at <= a < before.len() implies (#[trigger] before[a]).worker_id.raw > location.worker_id.raw by {
                                        assert(before[at as int].worker_id.raw >= location.worker_id.raw);
                                        if before[a].worker_id.raw == location.worker_id.raw {
                                            assert(before[a].worker_id == holder.worker_id);
                                        }
                                    }
                                }
                                reported.insert(at, location);
                                proof {
                                    assert forall|a: int, b: int| 0 <= a < b < reported@.len() implies (#[trigger] reported@[a]).worker_id.raw < (#[trigger] reported@[b]).worker_id.raw by {
                                        let a0 = if a < at { a } else { a - 1 };
                                        let b0 = if b < at { b } else { b - 1 };
                                        if a != at && b != at {
                                            assert(before[a0].worker_id.raw < before[b0].worker_id.raw);
                                        }
                                    }
                                    assert forall|a: int| 0 <= a < reported@.len() implies reports_block(self@, group_name@, block_id, (#[trigger] reported@[a]).worker_id)
                                        && is_reported_location(reported@[a], self@, group_name@, block_id)
                                        && locations::listed(more, (group_name@, reported@[a].worker_id)) by {
                                        if a != at {
                                            let a0 = if a < at { a } else { a - 1 };
                                            assert(reported@[a] == before[a0]);
                                        }
                                    }
                                    assert forall|j: int| 0 <= j < i + 1 && reports_block(self@, group_name@, block_id, (#[trigger] holders@[j]).worker_id)
                                        implies has_location(reported@, holders@[j].worker_id) by {
                                        if j < i {
                                            assert(has_location(before, holders@[j].worker_id));
                                            let a = choose|a: int| 0 <= a < before.len() && (#[trigger] before[a]).worker_id == holders@[j].worker_id;
                                            let a1 = if a < at { a } else { a + 1 };
                                            assert(reported@[a1] == before[a]);
                                        } else {
                                            assert(reported@[at as int].worker_id == holders@[j].worker_id);
                                        }
                                    }
                                }
                            },
                            _ => {},
                        }
                    }
                },
                None => {},
            }
            i += 1;
        }
        proof {
            assert(holders@.take(holders@.len() as int) =~= holders@);
            assert forall|w: WorkerId| #[trigger] reports_block(self@, group_name@, block_id, w) implies has_location(reported@, w) by {
                assert(locations::holds(self.locations@, key@, (group_name@, w)));
                let j = choose|j: int| 0 <= j < holders@.len() && #[trigger] holders@[j]@ == (group_name@, w);
                assert(holders@[j].worker_id == w);
            }
        }
        reported
    }
}

/// One of the first `n` rows has the key.
spec fn among_rows(rows: Seq<(WorkerRegistrationKey, WorkerDescriptor)>, n: int, k: model::WorkerAt) -> bool {
    exists|j: int| 0 <= j < n && (#[trigger] rows[j]).0@ == k
}

/// The pairs of holder and block that the rows of the index name.
spec fn pairs_of(rows: Seq<(BlockLocationKey, Vec<WorkerRegistrationKey>)>) -> Seq<(model::WorkerAt, BlockId)>
    decreases rows.len(),
{
    if rows.len() == 0 {
        Seq::empty()
    } else {
        pairs_of(rows.drop_last()) + row_pairs(rows.last())
    }
}

spec fn row_pairs(row: (BlockLocationKey, Vec<WorkerRegistrationKey>)) -> Seq<(model::WorkerAt, BlockId)> {
    Seq::new(row.1@.len(), |i: int| (row.1@[i]@, row.0.block_id))
}

/// The row names the worker as a holder of the block.
spec fn row_names(row: (BlockLocationKey, Vec<WorkerRegistrationKey>), p: (model::WorkerAt, BlockId)) -> bool {
    row.0@ == (p.0.0, p.1) && locations::listed(row.1@, p.0)
}

/// No holder twice, and all of the block's group.
spec fn tidy_row(row: (BlockLocationKey, Vec<WorkerRegistrationKey>)) -> bool {
    locations::distinct_workers(row.1@) && forall|i: int|
        0 <= i < row.1@.len() ==> (#[trigger] row.1@[i]@).0 == row.0@.0
}

proof fn lemma_pairs(rows: Seq<(BlockLocationKey, Vec<WorkerRegistrationKey>)>)
    requires
        table::distinct_keys(rows),
        forall|j: int| 0 <= j < rows.len() ==> tidy_row(#[trigger] rows[j]),
    ensures
        pairs_of(rows).no_duplicates(),
        forall|p: (model::WorkerAt, BlockId)| #[trigger]
            pairs_of(rows).contains(p) <==> exists|j: int| 0 <= j < rows.len() && row_names(#[trigger] rows[j], p),
    decreases rows.len(),
{
    if rows.len() > 0 {
        let rest = rows.drop_last();
        let row = rows.last();
        assert forall|j: int| 0 <= j < rest.len() implies tidy_row(#[trigger] rest[j]) by {
            assert(rest[j] == rows[j]);
        }
        assert(table::distinct_keys(rest)) by {
            assert forall|a: int, b: int| 0 <= a < b < rest.len() implies #[trigger] rest[a].0@ != #[trigger] rest[b].0@ by {
                assert(rows[a].0@ != rows[b].0@);
            }
        }
        lemma_pairs(rest);
        let old_pairs = pairs_of(rest);
        let new_pairs = row_pairs(row);
        let all = old_pairs + new_pairs;
        assert forall|p: (model::WorkerAt, BlockId)| #[trigger] new_pairs.contains(p) <==> row_names(row, p) by {
            if new_pairs.contains(p) {
                let i = choose|i: int| 0 <= i < new_pairs.len() && new_pairs[i] == p;
                assert(row.1@[i]@ == p.0);
            }
            if row_names(row, p) {
                let i = choose|i: int| 0 <= i < row.1@.len() && #[trigger] row.1@[i]@ == p.0;
                assert(new_pairs[i] == p);
            }
        }
        assert forall|p: (model::WorkerAt, BlockId)| #[trigger]
            all.contains(p) <==> exists|j: int| 0 <= j < rows.len() && row_names(#[trigger] rows[j], p) by {
            if all.contains(p) {
                let i = choose|i: int| 0 <= i < all.len() && all[i] == p;
                if i < old_pairs.len() {
                    assert(old_pairs[i] == p);
                    assert(old_pairs.contains(p));
                    let j = choose|j: int| 0 <= j < rest.len() && row_names(#[trigger] rest[j], p);
                    assert(row_names(rows[j], p));
                } else {
                    assert(new_pairs[i - old_pairs.len()] == p);
                    assert(new_pairs.contains(p));
                    assert(row_names(rows[rows.len() - 1], p));
                }
            }
            if exists|j: int| 0 <= j < rows.len() && row_names(#[trigger] rows[j], p) {
                let j = choose|j: int| 0 <= j < rows.len() && row_names(#[trigger] rows[j], p);
                if j < rest.len() {
                    assert(row_names(rest[j], p));
                    assert(old_pairs.contains(p));
                    let i = choose|i: int| 0 <= i < old_pairs.len() && old_pairs[i] == p;
                    assert(all[i] == p);
                } else {
                    assert(new_pairs.contains(p));
                    let i = choose|i: int| 0 <= i < new_pairs.len() && new_pairs[i] == p;
                    assert(all[old_pairs.len() + i] == p);
                }
            }
        }
        assert forall|a: int, b: int| 0 <= a < b < all.len() implies all[a] != all[b] by {
            if b < old_pairs.len() {
                assert(old_pairs[a] != old_pairs[b]);
            } else if a >= old_pairs.len() {
                let a0 = a - old_pairs.len();
                let b0 = b - old_pairs.len();
                assert(row.1@[a0]@ != row.1@[b0]@);
            } else {
                let p = all[a];
                assert(old_pairs[a] == p);
                assert(old_pairs.contains(p));
                let j = choose|j: int| 0 <= j < rest.len() && row_names(#[trigger] rest[j], p);
                assert(rows[j].0@ != rows[rows.len() - 1].0@);
                if all[b] == p {
                    assert(new_pairs[b - old_pairs.len()] == p);
                    assert(new_pairs.contains(p));
                }
            }
        }
        assert(all.no_duplicates());
    }
}

proof fn lemma_pairs_grow(rows: Seq<(BlockLocationKey, Vec<WorkerRegistrationKey>)>, n: int)
    requires
        0 <= n <= rows.len(),
    ensures
        pairs_of(rows.take(n)).len() <= pairs_of(rows).len(),
    decreases rows.len() - n,
{
    if n < rows.len() {
        lemma_pairs_grow(rows, n + 1);
        assert(rows.take(n + 1).drop_last() =~= rows.take(n));
    } else {
        assert(rows.take(n) =~= rows);
    }
}

impl WorkerManager {
    /// How many workers, live workers, blocks and copies of blocks are known at this time.
    pub fn stats_at(&self, now: Moment) -> (stats: WorkerManagerStats)
        requires
            self.inv(),
            holder_pairs(self@).len() <= usize::MAX,
        ensures
            stats.total_workers == self@.descriptors.dom().len(),
            stats.live_workers == live_workers(self@, now).len(),
            stats.total_blocks == reported_blocks(self@).len(),
            stats.total_locations == holder_pairs(self@).len(),
            self@.descriptors.dom().finite(),
            live_workers(self@, now).finite(),
            reported_blocks(self@).finite(),
            holder_pairs(self@).finite(),
    {
        let live = self.list_live_workers_at(now);
        let rows = self.locations.rows();
        proof {
            table::lemma_lists_len(live@, live_workers(self@, now));
            self.lemma_index_is_reported();
            assert forall|j: int| 0 <= j < rows@.len() implies tidy_row(#[trigger] rows@[j]) by {
                table::lemma_row_in_map(rows@, j);
                assert forall|i: int| 0 <= i < rows@[j].1@.len() implies (#[trigger] rows@[j].1@[i]@).0 == rows@[j].0@.0 by {
                    assert(locations::holds(self.locations@, rows@[j].0@, rows@[j].1@[i]@));
                }
            }
            lemma_pairs(rows@);
            let pairs = pairs_of(rows@);
            pairs.unique_seq_to_set();
            assert forall|p: (model::WorkerAt, BlockId)| pairs.to_set().contains(p) == holder_pairs(self@).contains(p) by {
                let b = (p.0.0, p.1);
                assert(locations::holds(self.locations@, b, p.0) <==> self@.blocks(p.0).contains(p.1));
                if pairs.contains(p) {
                    let j = choose|j: int| 0 <= j < rows@.len() && row_names(#[trigger] rows@[j], p);
                    table::lemma_row_in_map(rows@, j);
                }
                if holder_pairs(self@).contains(p) {
                    let j = table::lemma_map_in_rows(rows@, b);
                    assert(row_names(rows@[j], p));
                }
            }
            assert(pairs.to_set() =~= holder_pairs(self@));
        }
        let mut total_locations: usize = 0;
        let mut i: usize = 0;
        while i < rows.len()
            invariant
                i <= rows@.len(),
                total_locations == pairs_of(rows@.take(i as int)).len(),
                pairs_of(rows@).len() <= usize::MAX,
            decreases rows@.len() - i,
        {
            proof {
                assert(rows@.take(i + 1).drop_last() =~= rows@.take(i as int));
                assert(rows@.take(i + 1).last() == rows@[i as int]);
                lemma_pairs_grow(rows@, i + 1);
            }
            total_locations += rows[i].1.len();
            i += 1;
        }
        proof {
            assert(rows@.take(rows@.len() as int) =~= rows@);
        }
        WorkerManagerStats {
            total_workers: self.descriptors.len(),
            live_workers: live.len(),
            total_blocks: self.locations.len(),
            total_locations,
        }
    }

    /// How many workers, live workers, blocks and copies of blocks are known.
    pub fn stats(&self) -> (stats: WorkerManagerStats)
        requires
            self.inv(),
            holder_pairs(self@).len() <= usize::MAX,
        ensures
            stats.total_workers == self@.descriptors.dom().len(),
            stats.total_blocks == reported_blocks(self@).len(),
            stats.total_locations == holder_pairs(self@).len(),
            exists|now: Moment|
                stats.live_workers == #[trigger] live_workers(self@, now).len() && live_workers(self@, now).finite(),
    {
        let now = self.now();
        self.stats_at(now)
    }

    /// How far the active workers have published their blocks. The epoch is not looked at:
    /// reports of an earlier epoch are not held.
    pub fn blockreport_convergence_snapshot(
        &self,
        now_ms: u64,
        active_ttl_ms: u64,
        _required_epoch: u64,
        threshold_percent: u64,
    ) -> (snapshot: BlockReportConvergenceSnapshot)
        ensures
            is_convergence(snapshot, self@, now_ms, active_ttl_ms, threshold_percent),
    {
        let active_test = |k: &WorkerRegistrationKey, r: &WorkerRuntime| -> (active: bool)
            ensures
                active == ((if now_ms >= r.last_seen_ms {
                    now_ms - r.last_seen_ms
                } else {
                    0
                }) < active_ttl_ms),
            { now_ms.saturating_sub(r.last_seen_ms) < active_ttl_ms };
        let ghost is_active = |k: model::WorkerAt, r: WorkerRuntime|
            (if now_ms >= r.last_seen_ms {
                now_ms - r.last_seen_ms
            } else {
                0
            }) < active_ttl_ms;
        let active = table::keys_where(&self.runtime, active_test, Ghost(is_active));
        let reports = &self.block_reports;
        let full_test = |k: &WorkerRegistrationKey, r: &WorkerRuntime| -> (full: bool)
            ensures
                full == ((if now_ms >= r.last_seen_ms {
                    now_ms - r.last_seen_ms
                } else {
                    0
                }) < active_ttl_ms && reports@.contains_key(k@) && reports@[k@].state == BlockReportState::Ready
                    && reports@[k@].worker_run_id == Some(r.worker_run_id)),
            {
                now_ms.saturating_sub(r.last_seen_ms) < active_ttl_ms && match reports.get(k) {
                    Some(report) => report.state == BlockReportState::Ready && report.worker_run_id == Some(
                        r.worker_run_id,
                    ),
                    None => false,
                }
            };
        let ghost is_full = |k: model::WorkerAt, r: WorkerRuntime|
            (if now_ms >= r.last_seen_ms {
                now_ms - r.last_seen_ms
            } else {
                0
            }) < active_ttl_ms && reports@.contains_key(k) && reports@[k].state == BlockReportState::Ready
                && reports@[k].worker_run_id == Some(r.worker_run_id);
        let full = table::keys_where(&self.runtime, full_test, Ghost(is_full));
        proof {
            assert(table::keys_meeting(self.runtime@, is_active) =~= active_workers(self@, now_ms, active_ttl_ms));
            assert(table::keys_meeting(self.runtime@, is_full) =~= full_reported_workers(
                self@,
                now_ms,
                active_ttl_ms,
            ));
            table::lemma_lists_len(active@, active_workers(self@, now_ms, active_ttl_ms));
            table::lemma_lists_len(full@, full_reported_workers(self@, now_ms, active_ttl_ms));
        }
        let active_count: usize = active.len();
        let full_count: usize = full.len();
        let converged = if active_count == 0 {
            threshold_percent <= 100
        } else {
            proof {
                assert(active_count as u128 * threshold_percent as u128 <= u128::MAX) by (nonlinear_arith)
                    requires
                        active_count <= u64::MAX,
                        threshold_percent <= u64::MAX,
                ;
            }
            full_count as u128 * 100 >= active_count as u128 * threshold_percent as u128
        };
        BlockReportConvergenceSnapshot {
            active_workers: active_count,
            full_reported_workers: full_count,
            converged,
        }
    }

    /// Whether enough workers with a heartbeat within the timeout have published their blocks.
    pub fn is_blockreport_converged(&self, now_ms: u64) -> (snapshot: BlockReportConvergenceSnapshot)
        requires
            self@.timeout_sec * 1000 <= u64::MAX,
        ensures
            is_convergence(
                snapshot,
                self@,
                now_ms,
                (self@.timeout_sec * 1000) as u64,
                CONVERGENCE_THRESHOLD_PERCENT,
            ),
    {
        let active_ttl_ms: u64 = self.heartbeat_timeout_sec * 1000;
        self.blockreport_convergence_snapshot(
            now_ms,
            active_ttl_ms,
            self.metadata_epoch,
            CONVERGENCE_THRESHOLD_PERCENT,
        )
    }
}

} // verus!
