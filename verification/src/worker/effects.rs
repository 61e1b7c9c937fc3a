//! What each event makes of what is known of a worker, told by what was known before and what the
//! event says.

use crate::clock::Moment;
use crate::error::MetadataResult;
use crate::ids::{BlockId, GroupName, WorkerId, WorkerRunId};
use crate::placement::{BlockFormatId, ReportedBlockLocation, WorkerPlacementView};
use crate::worker::locations;
use crate::worker::manager;
use crate::worker::model;
use crate::worker::types;
use crate::worker::types::{
    BlockReportApplyResult, BlockReportBlock, BlockReportBlockState, BlockReportConvergenceSnapshot,
    BlockReportDeltaEntry, BlockReportDeltaOp, BlockReportState, HealthStatus, WorkerDescriptor, WorkerInfo,
    WorkerFigures, WorkerLiveState, WorkerRuntime,
};
use vstd::prelude::*;

verus! {

// ---------------------------------------------------------------------------------------------
// Time
// ---------------------------------------------------------------------------------------------

/// The worker beat less than the timeout ago.
pub open spec fn beat_lately(m: model::WorkerModel, k: model::WorkerAt, now: Moment) -> bool {
    m.runtime.contains_key(k) && m.timeout_sec > 0 && now.mono_ns < m.runtime[k].last_seen_ns + m.timeout_sec
        * 1_000_000_000
}

/// A registration of the worker is in force.
pub open spec fn in_force(m: model::WorkerModel, k: model::WorkerAt, now: Moment) -> bool {
    m.registrations.contains_key(k) && m.registrations[k].lease_deadline_ns > now.mono_ns
}

/// A worker is live as long as its last heartbeat is less than the timeout ago, and its
/// registration lasts until its deadline. By wall time it is active as long as its last heartbeat
/// is less than so many milliseconds ago.
pub proof fn law_workers_live_by_their_heartbeat(
    m: model::WorkerModel,
    k: model::WorkerAt,
    now: Moment,
    ttl_ms: u64,
)
    ensures
        m.live(k, now) <==> beat_lately(m, k, now),
        m.lapsed(k, now) <==> m.registrations.contains_key(k) && !in_force(m, k, now),
        manager::lease_valid(m, k, now) <==> in_force(m, k, now) && beat_lately(m, k, now),
        m.active(k, now.wall_ms, ttl_ms) <==> m.runtime.contains_key(k) && ttl_ms > 0 && now.wall_ms
            < m.runtime[k].last_seen_ms + ttl_ms,
{
    assert(m.timeout_sec * 1_000_000_000 == model::nanos(m.timeout_sec));
}

/// A sweep forgets the heartbeats that are too old and ends the registrations that are over, which
/// are still told of. It touches nothing else.
pub proof fn law_sweeps_take_what_ran_out(m: model::WorkerModel, k: model::WorkerAt, now: Moment)
    ensures
        m.swept(now).runtime.contains_key(k) <==> beat_lately(m, k, now),
        beat_lately(m, k, now) ==> m.swept(now).runtime[k] == m.runtime[k],
        m.swept(now).registrations.contains_key(k) <==> in_force(m, k, now),
        in_force(m, k, now) ==> m.swept(now).registrations[k] == m.registrations[k],
        m.registrations.contains_key(k) ==> m.swept(now).last_registration(k) == Some(m.registrations[k]),
        !m.registrations.contains_key(k) ==> m.swept(now).last_registration(k) == m.ended.get(k),
        m.swept(now).descriptors == m.descriptors,
        m.swept(now).reports == m.reports,
        m.swept(now).indexed == m.indexed,
        m.swept(now).timeout_sec == m.timeout_sec,
        m.swept(now).metadata_epoch == m.metadata_epoch,
        m.swept_away(now).contains(k) <==> (m.runtime.contains_key(k) && !beat_lately(m, k, now)) || (
        m.registrations.contains_key(k) && !in_force(m, k, now)),
{
    law_workers_live_by_their_heartbeat(m, k, now, 0);
}

/// Epochs grow: the next is later than the one before, while there is one, and no earlier than the
/// time; and it is no later than it has to be.
pub proof fn law_epochs_grow(epoch: u64, now_sec: u64)
    ensures
        epoch < u64::MAX ==> manager::epoch_after(epoch, now_sec) > epoch,
        manager::epoch_after(epoch, now_sec) >= epoch,
        manager::epoch_after(epoch, now_sec) >= now_sec,
        manager::epoch_after(epoch, now_sec) == now_sec || manager::epoch_after(epoch, now_sec) <= epoch + 1,
{
}

// ---------------------------------------------------------------------------------------------
// Registration
// ---------------------------------------------------------------------------------------------

/// A registration is turned down only where the worker has one in force: the same run with another
/// address or protocol, or another run with another address while the worker is live. Otherwise
/// the run is registered with what it says, for one timeout from now. The run that was registered
/// goes on with its heartbeats and reports; another starts without any.
pub proof fn law_registration_takes_what_it_is_told(
    before: model::WorkerModel,
    after: model::WorkerModel,
    group_name: GroupName,
    worker_id: WorkerId,
    address: String,
    protocol: i32,
    run: WorkerRunId,
    fault_domain: Option<String>,
    now: Moment,
    result: MetadataResult<()>,
)
    requires
        manager::register_outcome(
            before,
            after,
            group_name,
            worker_id,
            address,
            protocol,
            run,
            fault_domain,
            now,
            result,
        ),
    ensures
        ({
            let k = (group_name@, worker_id);
            let held = in_force(before, k, now);
            let old = before.registrations[k];
            let same = held && old.worker_run_id == run;
            let moved = same && (old.address@ != address@ || old.worker_net_protocol != protocol);
            let taken = held && !same && beat_lately(before, k, now) && old.address@ != address@;
            &&& moved ==> (result is Err && result->Err_0 is InvalidArgument)
            &&& taken ==> (result is Err && result->Err_0 is ActiveWorkerConflict)
            &&& result is Ok <==> !moved && !taken
            &&& result is Err ==> after == before.swept(now)
            &&& result is Ok ==> {
                let new = after.registrations[k];
                let described = after.descriptors[k];
                &&& after.registrations.contains_key(k)
                &&& new.group_name == group_name && new.worker_id == worker_id && new.worker_run_id == run
                &&& new.address == address && new.worker_net_protocol == protocol && new.fault_domain == fault_domain
                &&& new.registered_at_ms == now.wall_ms
                &&& new.lease_deadline_ns == now.mono_ns + before.timeout_sec * 1_000_000_000
                &&& before.timeout_sec > 0 ==> in_force(after, k, now)
                &&& after.descriptors.contains_key(k)
                &&& described.group_name == group_name && described.worker_id == worker_id && described.address
                    == address && described.worker_net_protocol == protocol && described.fault_domain == fault_domain
                &&& after.last_registration(k) == Some(new)
                &&& same ==> after.report(k) == before.report(k) && after.blocks(k) == before.blocks(k) && (
                after.runtime.contains_key(k) <==> beat_lately(before, k, now)) && (after.runtime.contains_key(k)
                    ==> after.runtime[k] == before.runtime[k])
                &&& !same ==> !after.runtime.contains_key(k) && !after.reports.contains_key(k) && after.blocks(k)
                    == Set::<BlockId>::empty()
            }
        }),
{
    let k = (group_name@, worker_id);
    law_sweeps_take_what_ran_out(before, k, now);
    law_workers_live_by_their_heartbeat(before.swept(now), k, now, 0);
    assert(before.timeout_sec * 1_000_000_000 == model::nanos(before.timeout_sec));
}

/// The check before a registration turns down what the registration would, and changes no more
/// than a sweep does. The check for a second run turns down any other run while one is in force.
pub proof fn law_checks_foretell_registration(
    before: model::WorkerModel,
    after: model::WorkerModel,
    k: model::WorkerAt,
    run: WorkerRunId,
    endpoint: Seq<char>,
    protocol: i32,
    now: Moment,
    result: MetadataResult<()>,
)
    ensures
        manager::preflight_outcome(before, after, k, run, endpoint, protocol, now, result) ==> {
            let held = in_force(before, k, now);
            let old = before.registrations[k];
            let same = held && old.worker_run_id == run;
            let moved = same && (old.address@ != endpoint || old.worker_net_protocol != protocol);
            let taken = held && !same && beat_lately(before, k, now) && old.address@ != endpoint;
            &&& after == before.swept(now)
            &&& moved ==> (result is Err && result->Err_0 is InvalidArgument)
            &&& taken ==> (result is Err && result->Err_0 is ActiveWorkerConflict)
            &&& result is Ok <==> !moved && !taken
        },
        manager::run_check_outcome(before, after, k, run, now, result) ==> {
            let other = in_force(before, k, now) && before.registrations[k].worker_run_id != run;
            &&& after == before.swept(now)
            &&& other ==> (result is Err && result->Err_0 is AlreadyExists)
            &&& result is Ok <==> !other
        },
{
    law_sweeps_take_what_ran_out(before, k, now);
    law_workers_live_by_their_heartbeat(before.swept(now), k, now, 0);
}

// ---------------------------------------------------------------------------------------------
// Heartbeats
// ---------------------------------------------------------------------------------------------

/// A heartbeat is taken from the run that is registered, under the address and the protocol that
/// the worker is known by. It renews the registration for one timeout from now and the time of the
/// last heartbeat; the figures are those of the heartbeat with the highest number.
pub proof fn law_heartbeats_renew_the_worker(
    before: model::WorkerModel,
    after: model::WorkerModel,
    group_name: GroupName,
    worker_id: WorkerId,
    beat: model::Beat,
    now: Moment,
    result: MetadataResult<WorkerLiveState>,
)
    requires
        manager::heartbeat_outcome(before, after, group_name, worker_id, beat, now, result),
    ensures
        ({
            let k = (group_name@, worker_id);
            let described = before.descriptors.contains_key(k);
            let held = in_force(before, k, now);
            let own = held && before.registrations[k].worker_run_id == beat.run;
            let fits = before.descriptors[k].address@ == beat.endpoint && before.descriptors[k].worker_net_protocol
                == beat.protocol;
            &&& !described || !held ==> (result is Err && result->Err_0 is NotFound)
            &&& described && held && !own ==> (result is Err && result->Err_0 is StaleState)
            &&& described && own && !fits ==> (result is Err && result->Err_0 is InvalidArgument)
            &&& result is Ok <==> described && own && fits
            &&& result is Err ==> after == before.swept(now)
            &&& result is Ok ==> {
                let told = result->Ok_0;
                let seen = after.runtime[k];
                let known = beat_lately(before, k, now);
                let newer = !known || beat.seq > before.runtime[k].heartbeat_seq;
                &&& after.runtime.contains_key(k)
                &&& seen.worker_run_id == beat.run
                &&& seen.last_seen_ns == now.mono_ns && seen.last_seen_ms == now.wall_ms
                &&& before.timeout_sec > 0 ==> beat_lately(after, k, now)
                &&& newer ==> seen.heartbeat_seq == beat.seq && seen.capacity_total == beat.capacity_total
                    && seen.capacity_used == beat.capacity_used && seen.capacity_available == beat.capacity_available
                    && seen.active_reads == beat.active_reads && seen.active_writes == beat.active_writes
                    && seen.health == beat.health
                &&& !newer ==> {
                    let last = before.runtime[k];
                    seen.heartbeat_seq == last.heartbeat_seq && seen.capacity_total == last.capacity_total
                        && seen.capacity_used == last.capacity_used && seen.capacity_available
                        == last.capacity_available && seen.active_reads == last.active_reads && seen.active_writes
                        == last.active_writes && seen.health == last.health
                }
                &&& told.group_name == group_name && told.worker_id == worker_id && told.worker_run_id == beat.run
                &&& told.heartbeat_seq == seen.heartbeat_seq && told.last_seen_ms == now.wall_ms
                &&& after.registrations.contains_key(k)
                &&& after.registrations[k].lease_deadline_ns == now.mono_ns + before.timeout_sec * 1_000_000_000
                &&& after.registrations[k].worker_run_id == beat.run
                &&& after.registrations[k].address == before.registrations[k].address
                &&& after.registrations[k].worker_net_protocol == before.registrations[k].worker_net_protocol
                &&& after.registrations[k].fault_domain == before.registrations[k].fault_domain
                &&& after.registrations[k].registered_at_ms == before.registrations[k].registered_at_ms
                &&& after.descriptors == before.descriptors
                &&& after.reports == before.reports
                &&& after.indexed == before.indexed
            }
        }),
{
    let k = (group_name@, worker_id);
    law_sweeps_take_what_ran_out(before, k, now);
    law_workers_live_by_their_heartbeat(after, k, now, 0);
    assert(before.timeout_sec * 1_000_000_000 == model::nanos(before.timeout_sec));
}

// ---------------------------------------------------------------------------------------------
// Reports
// ---------------------------------------------------------------------------------------------

/// The last block of a list with this identity stands at this place.
pub open spec fn is_last_of(batch: Seq<BlockReportBlock>, b: BlockId, i: int) -> bool {
    0 <= i < batch.len() && batch[i].block_id == b && forall|j: int| i < j < batch.len() ==> (
    #[trigger] batch[j]).block_id != b
}

/// The batch has this block.
pub open spec fn has_block(batch: Seq<BlockReportBlock>, b: BlockId) -> bool {
    exists|i: int| 0 <= i < batch.len() && (#[trigger] batch[i]).block_id == b
}

/// A batch sets the blocks that it has, each as it says last, and leaves all others.
pub proof fn law_batches_set_their_blocks(
    blocks: Map<BlockId, BlockReportBlock>,
    batch: Seq<BlockReportBlock>,
    b: BlockId,
)
    ensures
        ({
            let staged = model::stage_all(blocks, batch);
            &&& staged.contains_key(b) <==> has_block(batch, b) || blocks.contains_key(b)
            &&& has_block(batch, b) ==> exists|i: int| #[trigger] is_last_of(batch, b, i) && staged[b] == batch[i]
            &&& !has_block(batch, b) && blocks.contains_key(b) ==> staged[b] == blocks[b]
        }),
    decreases batch.len(),
{
    if batch.len() > 0 {
        let rest = batch.drop_last();
        let last = batch.len() - 1;
        law_batches_set_their_blocks(blocks, rest, b);
        if batch[last].block_id == b {
            assert(is_last_of(batch, b, last));
        } else if has_block(rest, b) {
            let i = choose|i: int| #[trigger] is_last_of(rest, b, i) && model::stage_all(blocks, rest)[b] == rest[i];
            assert(is_last_of(batch, b, i)) by {
                assert forall|j: int| i < j < batch.len() implies (#[trigger] batch[j]).block_id != b by {
                    if j < last {
                        assert(rest[j].block_id != b);
                    }
                }
            }
            assert(batch[i].block_id == b);
        } else {
            assert(!has_block(batch, b)) by {
                if has_block(batch, b) {
                    let i = choose|i: int| 0 <= i < batch.len() && (#[trigger] batch[i]).block_id == b;
                    assert(rest[i].block_id == b);
                }
            }
        }
    }
}

/// The last delta about this block stands at this place.
pub open spec fn is_last_about(deltas: Seq<BlockReportDeltaEntry>, b: BlockId, i: int) -> bool {
    0 <= i < deltas.len() && deltas[i].block.block_id == b && forall|j: int| i < j < deltas.len() ==> (
    #[trigger] deltas[j]).block.block_id != b
}

/// Some delta is about this block.
pub open spec fn is_about(deltas: Seq<BlockReportDeltaEntry>, b: BlockId) -> bool {
    exists|i: int| 0 <= i < deltas.len() && (#[trigger] deltas[i]).block.block_id == b
}

/// What deltas make of a block is what the last of them about it says: it is there as it says, or
/// gone. Blocks that they are not about stay.
pub proof fn law_deltas_have_the_last_word(
    blocks: Map<BlockId, BlockReportBlock>,
    deltas: Seq<BlockReportDeltaEntry>,
    b: BlockId,
)
    ensures
        ({
            let changed = model::apply_all(blocks, deltas);
            &&& !is_about(deltas, b) ==> (changed.contains_key(b) <==> blocks.contains_key(b))
            &&& !is_about(deltas, b) && blocks.contains_key(b) ==> changed[b] == blocks[b]
            &&& is_about(deltas, b) ==> exists|i: int| #[trigger] is_last_about(deltas, b, i) && (
            changed.contains_key(b) <==> deltas[i].op == BlockReportDeltaOp::AddUpdate) && (changed.contains_key(b)
                ==> changed[b] == deltas[i].block)
        }),
    decreases deltas.len(),
{
    if deltas.len() > 0 {
        let rest = deltas.drop_last();
        let last = deltas.len() - 1;
        let before = model::apply_all(blocks, rest);
        let changed = model::apply_all(blocks, deltas);
        law_deltas_have_the_last_word(blocks, rest, b);
        if deltas[last].block.block_id == b {
            assert(is_last_about(deltas, b, last));
        } else if is_about(rest, b) {
            let i = choose|i: int| #[trigger]
                is_last_about(rest, b, i) && (before.contains_key(b) <==> rest[i].op == BlockReportDeltaOp::AddUpdate)
                    && (before.contains_key(b) ==> before[b] == rest[i].block);
            assert(is_last_about(deltas, b, i)) by {
                assert forall|j: int| i < j < deltas.len() implies (#[trigger] deltas[j]).block.block_id != b by {
                    if j < last {
                        assert(rest[j].block.block_id != b);
                    }
                }
            }
            assert(changed.contains_key(b) == before.contains_key(b));
            assert(deltas[i] == rest[i]);
        } else {
            assert(!is_about(deltas, b)) by {
                if is_about(deltas, b) {
                    let i = choose|i: int| 0 <= i < deltas.len() && (#[trigger] deltas[i]).block.block_id == b;
                    assert(rest[i].block.block_id == b);
                }
            }
        }
    }
}

/// The block is there and ready.
pub open spec fn is_ready(blocks: Map<BlockId, BlockReportBlock>, b: BlockId) -> bool {
    blocks.contains_key(b) && blocks[b].block_state == BlockReportBlockState::Ready
}

/// A report is taken only from the run that is registered, while the worker is live.
pub open spec fn may_report(m: model::WorkerModel, k: model::WorkerAt, run: WorkerRunId, now: Moment) -> bool {
    in_force(m, k, now) && m.registrations[k].worker_run_id == run && beat_lately(m, k, now)
}

/// What is told of a report is the change that it made: the blocks that became ready, and those
/// that no longer are, each once.
pub open spec fn tells_change(
    told: BlockReportApplyResult,
    was: Map<BlockId, BlockReportBlock>,
    is: Map<BlockId, BlockReportBlock>,
) -> bool {
    &&& told.added_blocks@.no_duplicates()
    &&& told.removed_blocks@.no_duplicates()
    &&& forall|b: BlockId|
        #![trigger told.added_blocks@.contains(b)]
        #![trigger told.removed_blocks@.contains(b)]
        (told.added_blocks@.contains(b) <==> is_ready(is, b) && !is_ready(was, b)) && (
        told.removed_blocks@.contains(b) <==> is_ready(was, b) && !is_ready(is, b))
}

proof fn lemma_changes(
    told: BlockReportApplyResult,
    was: Map<BlockId, BlockReportBlock>,
    is: Map<BlockId, BlockReportBlock>,
    next: u64,
)
    requires
        manager::tells_changes(told, locations::ready(was), locations::ready(is), next),
    ensures
        tells_change(told, was, is),
        told.next_delta_seq == next,
{
    let added = locations::ready(is).difference(locations::ready(was));
    let removed = locations::ready(was).difference(locations::ready(is));
    assert forall|b: BlockId|
        #![trigger told.added_blocks@.contains(b)]
        #![trigger told.removed_blocks@.contains(b)]
        (told.added_blocks@.contains(b) <==> is_ready(is, b) && !is_ready(was, b)) && (
        told.removed_blocks@.contains(b) <==> is_ready(was, b) && !is_ready(is, b)) by {
        assert(told.added_blocks@.contains(b) <==> told.added_blocks@.to_set().contains(b));
        assert(told.removed_blocks@.contains(b) <==> told.removed_blocks@.to_set().contains(b));
        assert(added.contains(b) <==> is_ready(is, b) && !is_ready(was, b));
        assert(removed.contains(b) <==> is_ready(was, b) && !is_ready(is, b));
    }
}

/// A batch of a full report is taken in turn: the first one, unless the run has begun a later
/// report, and then each next one. Its blocks are put with those of the batches before it, and
/// nothing is published until the last, which publishes all of them and nothing else.
pub proof fn law_full_reports_replace_what_was_published(
    before: model::WorkerModel,
    after: model::WorkerModel,
    k: model::WorkerAt,
    run: WorkerRunId,
    report_seq: u64,
    batch_seq: u64,
    final_batch: bool,
    blocks: Seq<BlockReportBlock>,
    now: Moment,
    result: MetadataResult<BlockReportApplyResult>,
)
    requires
        manager::full_report_outcome(
            before,
            after,
            k,
            run,
            report_seq,
            batch_seq,
            final_batch,
            blocks,
            now,
            result,
        ),
    ensures
        ({
            let held = before.report(k);
            let new = after.report(k);
            let may = may_report(before, k, run, now);
            let first = batch_seq == 0 && !(held.run == Some(run) && held.report_seq > report_seq);
            let next = batch_seq > 0 && held.state == BlockReportState::Receiving && held.run == Some(run)
                && held.report_seq == report_seq && held.next_batch_seq == batch_seq;
            let carried = if batch_seq == 0 {
                Map::<BlockId, BlockReportBlock>::empty()
            } else {
                held.staging
            };
            &&& result is Ok <==> may && (first || next)
            &&& may && result is Err ==> (result is Err && result->Err_0 is FullReportRequired)
            &&& in_force(before, k, now) && before.registrations[k].worker_run_id != run ==> (result is Err && result->Err_0 is StaleState)
            &&& !in_force(before, k, now) ==> (result is Err && result->Err_0 is NotFound)
            &&& in_force(before, k, now) && before.registrations[k].worker_run_id == run && !beat_lately(
                before,
                k,
                now,
            ) ==> (result is Err && result->Err_0 is NotFound)
            &&& result is Err ==> new == held && after.blocks(k) == before.blocks(k)
            &&& result is Ok ==> {
                &&& new.run == Some(run) && new.report_seq == report_seq
                &&& batch_seq < u64::MAX ==> new.next_batch_seq == batch_seq + 1
                &&& tells_change(result->Ok_0, held.published, new.published)
                &&& result->Ok_0.next_delta_seq == new.delta_seq
                &&& !final_batch ==> new.state == BlockReportState::Receiving && new.published == held.published
                    && new.delta_seq == held.delta_seq && after.indexed == before.indexed && new.staging
                    == model::stage_all(carried, blocks)
                &&& final_batch ==> new.state == BlockReportState::Ready && new.published == model::stage_all(
                    carried,
                    blocks,
                ) && new.staging == Map::<BlockId, BlockReportBlock>::empty() && new.delta_seq == 0
                    && after.indexed.contains(k)
            }
        }),
{
    law_sweeps_take_what_ran_out(before, k, now);
    law_workers_live_by_their_heartbeat(before.swept(now), k, now, 0);
    let held = before.report(k);
    assert(before.swept(now).report(k) == held);
    if result is Ok {
        lemma_changes(result->Ok_0, held.published, after.report(k).published, after.report(k).delta_seq);
    }
}

/// Deltas are taken on a complete report of the run, each once and in turn: those that come next
/// change what is published and move on the number that is expected, those that were taken before
/// are acknowledged again and change nothing, and all others are turned down.
pub proof fn law_deltas_go_on_from_the_report(
    before: model::WorkerModel,
    after: model::WorkerModel,
    k: model::WorkerAt,
    run: WorkerRunId,
    report_seq: u64,
    delta_seq: u64,
    deltas: Seq<BlockReportDeltaEntry>,
    now: Moment,
    result: MetadataResult<BlockReportApplyResult>,
)
    requires
        manager::delta_report_outcome(before, after, k, run, report_seq, delta_seq, deltas, now, result),
    ensures
        ({
            let held = before.report(k);
            let new = after.report(k);
            let may = may_report(before, k, run, now);
            let based = before.reports.contains_key(k) && held.state == BlockReportState::Ready && held.run == Some(
                run,
            ) && held.report_seq == report_seq;
            let next = delta_seq == held.delta_seq;
            let again = delta_seq < held.delta_seq && (delta_seq + deltas.len() <= held.delta_seq || held.delta_seq
                == u64::MAX);
            &&& result is Ok <==> may && based && (next || again)
            &&& may && result is Err ==> (result is Err && result->Err_0 is FullReportRequired)
            &&& in_force(before, k, now) && before.registrations[k].worker_run_id != run ==> (result is Err && result->Err_0 is StaleState)
            &&& !in_force(before, k, now) ==> (result is Err && result->Err_0 is NotFound)
            &&& result is Err || again ==> new == held && after.indexed == before.indexed
            &&& result is Ok ==> tells_change(result->Ok_0, held.published, new.published)
                && result->Ok_0.next_delta_seq == new.delta_seq
            &&& result is Ok && next ==> {
                &&& new.published == model::apply_all(held.published, deltas)
                &&& held.delta_seq + deltas.len() <= u64::MAX ==> new.delta_seq == held.delta_seq + deltas.len()
                &&& new.run == held.run && new.report_seq == held.report_seq && new.state == held.state
                &&& after.indexed.contains(k)
            }
        }),
{
    law_sweeps_take_what_ran_out(before, k, now);
    law_workers_live_by_their_heartbeat(before.swept(now), k, now, 0);
    let held = before.report(k);
    assert(before.swept(now).report(k) == held);
    if result is Ok {
        lemma_changes(result->Ok_0, held.published, after.report(k).published, after.report(k).delta_seq);
    }
}

// ---------------------------------------------------------------------------------------------
// Questions
// ---------------------------------------------------------------------------------------------

/// A worker is found under a block once its report was published, by the blocks that are ready in
/// it; the live holders of a block are the live ones of those, and a block is reported where a
/// worker is found under it.
pub proof fn law_workers_are_found_by_their_ready_blocks(
    m: model::WorkerModel,
    group: Seq<char>,
    w: WorkerId,
    b: BlockId,
    now: Moment,
)
    ensures
        m.blocks((group, w)).contains(b) <==> m.indexed.contains((group, w)) && m.reports.contains_key((group, w))
            && is_ready(m.reports[(group, w)].published, b),
        manager::live_ids(m, group, now).contains(w) <==> beat_lately(m, (group, w), now),
        manager::live_workers(m, now).contains((group, w)) <==> beat_lately(m, (group, w), now),
        manager::live_holders(m, group, b, now).contains(w) <==> m.indexed.contains((group, w))
            && m.reports.contains_key((group, w)) && is_ready(m.reports[(group, w)].published, b) && beat_lately(
            m,
            (group, w),
            now,
        ),
        m.indexed.contains((group, w)) && m.reports.contains_key((group, w)) && is_ready(
            m.reports[(group, w)].published,
            b,
        ) ==> manager::reported_blocks(m).contains((group, b)) && manager::holder_pairs(m).contains(((group, w), b)),
        manager::holder_pairs(m).contains(((group, w), b)) ==> m.indexed.contains((group, w)) && is_ready(
            m.reports[(group, w)].published,
            b,
        ),
        manager::reported_blocks(m).contains((group, b)) ==> exists|v: WorkerId|
            m.indexed.contains((group, v)) && is_ready(#[trigger] m.reports[(group, v)].published, b),
{
    law_workers_live_by_their_heartbeat(m, (group, w), now, 0);
    let found = (group, b);
    if m.blocks((group, w)).contains(b) {
        assert(m.blocks((found.0, w)).contains(found.1));
        assert(manager::reported_blocks(m).contains(found));
        assert(manager::holder_pairs(m).contains(((group, w), b)));
    }
    if manager::reported_blocks(m).contains((group, b)) {
        let v = choose|v: WorkerId| #[trigger] m.blocks((group, v)).contains(b);
        assert(is_ready(m.reports[(group, v)].published, b));
    }
}

/// What is told of workers to those who place blocks: each worker of the group that is described,
/// by ascending identity, with its own description, the run that is registered, whether its
/// registration and its last heartbeat both hold, and the space that its last heartbeat told.
pub proof fn law_placement_sees_the_workers(
    views: Seq<WorkerPlacementView>,
    m: model::WorkerModel,
    group: Seq<char>,
    format: BlockFormatId,
    now: Moment,
)
    requires
        manager::are_placement_views(views, m, group, format, now),
    ensures
        forall|i: int, j: int|
            0 <= i < j < views.len() ==> (#[trigger] views[i]).worker_id.raw < (#[trigger] views[j]).worker_id.raw,
        forall|w: WorkerId| #[trigger]
            m.descriptors.contains_key((group, w)) <==> exists|i: int|
                0 <= i < views.len() && (#[trigger] views[i]).worker_id == w,
        forall|i: int|
            0 <= i < views.len() ==> {
                let view = #[trigger] views[i];
                let k = (group, view.worker_id);
                &&& view.group_name@ == group
                &&& view.endpoint == m.descriptors[k].address
                &&& view.worker_net_protocol == m.descriptors[k].worker_net_protocol
                &&& view.rack == m.descriptors[k].fault_domain
                &&& view.az is None && view.region is None
                &&& view.registered <==> m.registrations.contains_key(k)
                &&& view.worker_run_id is Some <==> m.registrations.contains_key(k)
                &&& view.worker_run_id is Some ==> view.worker_run_id->0 == m.registrations[k].worker_run_id
                &&& view.lease_valid <==> in_force(m, k, now) && beat_lately(m, k, now)
                &&& view.free_bytes is Some <==> m.runtime.contains_key(k)
                &&& view.free_bytes is Some ==> view.free_bytes->0 == m.runtime[k].capacity_available
                &&& view.supported_block_formats@.len() == 1 && view.supported_block_formats@[0] == format
            },
{
    assert forall|w: WorkerId| #[trigger] m.descriptors.contains_key((group, w)) <==> exists|i: int|
        0 <= i < views.len() && (#[trigger] views[i]).worker_id == w by {
        if m.descriptors.contains_key((group, w)) {
            assert(manager::has_view(views, w));
        }
    }
    assert forall|i: int| 0 <= i < views.len() implies (#[trigger] views[i]).lease_valid == (in_force(
        m,
        (group, views[i].worker_id),
        now,
    ) && beat_lately(m, (group, views[i].worker_id), now)) by {
        law_workers_live_by_their_heartbeat(m, (group, views[i].worker_id), now, 0);
    }
}

/// What is told of a block: each worker with a complete report in which the block is ready, by
/// ascending identity, with the stamp that it reported and the run that reported it.
pub proof fn law_locations_are_as_reported(
    reported: Seq<ReportedBlockLocation>,
    m: model::WorkerModel,
    group: Seq<char>,
    block: BlockId,
)
    requires
        manager::are_reported_locations(reported, m, group, block),
    ensures
        forall|i: int, j: int|
            0 <= i < j < reported.len() ==> (#[trigger] reported[i]).worker_id.raw < (
            #[trigger] reported[j]).worker_id.raw,
        forall|i: int|
            0 <= i < reported.len() ==> {
                let told = #[trigger] reported[i];
                let k = (group, told.worker_id);
                &&& m.indexed.contains(k) && m.reports.contains_key(k)
                &&& m.reports[k].state == BlockReportState::Ready
                &&& is_ready(m.reports[k].published, block)
                &&& told.group_name@ == group && told.block_id == block
                &&& told.block_stamp == m.reports[k].published[block].block_stamp
                &&& m.reports[k].run == Some(told.worker_run_id)
            },
        forall|w: WorkerId|
            m.indexed.contains((group, w)) && m.reports.contains_key((group, w)) && is_ready(
                (#[trigger] m.reports[(group, w)]).published,
                block,
            ) && m.reports[(group, w)].state == BlockReportState::Ready ==> exists|i: int|
                0 <= i < reported.len() && (#[trigger] reported[i]).worker_id == w,
{
    assert forall|w: WorkerId|
        m.indexed.contains((group, w)) && m.reports.contains_key((group, w)) && is_ready(
            (#[trigger] m.reports[(group, w)]).published,
            block,
        ) && m.reports[(group, w)].state == BlockReportState::Ready implies exists|i: int|
        0 <= i < reported.len() && (#[trigger] reported[i]).worker_id == w by {
        assert(manager::reports_block(m, group, block, w));
        assert(manager::has_location(reported, w));
    }
    assert forall|i: int| 0 <= i < reported.len() implies m.reports.contains_key(
        (group, (#[trigger] reported[i]).worker_id),
    ) by {
        assert(manager::reports_block(m, group, block, reported[i].worker_id));
    }
}

/// Reports have converged once at least so many percent of the active workers have published,
/// where a worker counts that was seen lately and whose current run has a complete report.
pub proof fn law_convergence_counts_workers(
    snapshot: BlockReportConvergenceSnapshot,
    m: model::WorkerModel,
    now_ms: u64,
    ttl_ms: u64,
    percent: u64,
    k: model::WorkerAt,
)
    requires
        manager::is_convergence(snapshot, m, now_ms, ttl_ms, percent),
    ensures
        manager::active_workers(m, now_ms, ttl_ms).contains(k) <==> m.runtime.contains_key(k) && ttl_ms > 0 && now_ms
            < m.runtime[k].last_seen_ms + ttl_ms,
        manager::full_reported_workers(m, now_ms, ttl_ms).contains(k) <==> m.runtime.contains_key(k) && ttl_ms > 0
            && now_ms < m.runtime[k].last_seen_ms + ttl_ms && m.reports.contains_key(k) && m.reports[k].state
            == BlockReportState::Ready && m.reports[k].run == Some(m.runtime[k].worker_run_id),
        snapshot.active_workers == manager::active_workers(m, now_ms, ttl_ms).len(),
        snapshot.full_reported_workers == manager::full_reported_workers(m, now_ms, ttl_ms).len(),
        snapshot.active_workers > 0 ==> (snapshot.converged <==> snapshot.full_reported_workers * 100
            >= snapshot.active_workers * percent),
        snapshot.active_workers == 0 ==> (snapshot.converged <==> percent <= 100),
{
}

/// A record of a worker holds its description and the figures of its last heartbeat, the time in
/// seconds; the description comes back out of it.
pub proof fn law_records_hold_description_and_load(
    worker_id: WorkerId,
    descriptor: WorkerDescriptor,
    runtime: WorkerRuntime,
)
    ensures
        ({
            let info = manager::info_of(descriptor, runtime);
            let figures = manager::figures_of(worker_id, runtime);
            &&& model::descriptor_of(info) == descriptor
            &&& info.group_name == descriptor.group_name && info.worker_id == descriptor.worker_id && info.address
                == descriptor.address && info.worker_net_protocol == descriptor.worker_net_protocol
                && info.fault_domain == descriptor.fault_domain
            &&& info.capacity_total == runtime.capacity_total && info.capacity_used == runtime.capacity_used
                && info.capacity_available == runtime.capacity_available && info.active_reads == runtime.active_reads
                && info.active_writes == runtime.active_writes && info.health == runtime.health
            &&& 1000 * info.last_heartbeat <= runtime.last_seen_ms < 1000 * info.last_heartbeat + 1000
            &&& figures.worker_id == worker_id && figures.capacity_total == runtime.capacity_total
                && figures.capacity_used == runtime.capacity_used && figures.active_reads == runtime.active_reads
                && figures.active_writes == runtime.active_writes
        }),
{
}

/// The last stored record of a worker stands at this place.
pub open spec fn is_last_record(infos: Seq<WorkerInfo>, k: model::WorkerAt, i: int) -> bool {
    0 <= i < infos.len() && (infos[i].group_name@, infos[i].worker_id) == k && forall|j: int|
        i < j < infos.len() ==> ((#[trigger] infos[j]).group_name@, infos[j].worker_id) != k
}

/// Workers are loaded from their last stored record, and no other worker is.
pub proof fn law_loading_takes_the_last_record(infos: Seq<WorkerInfo>, k: model::WorkerAt)
    ensures
        model::load_all(infos).contains_key(k) <==> exists|i: int| #[trigger] is_last_record(infos, k, i),
        model::load_all(infos).contains_key(k) ==> exists|i: int| #[trigger]
            is_last_record(infos, k, i) && ({
                let loaded = model::load_all(infos)[k];
                loaded.group_name == infos[i].group_name && loaded.worker_id == infos[i].worker_id && loaded.address
                    == infos[i].address && loaded.worker_net_protocol == infos[i].worker_net_protocol
                    && loaded.fault_domain == infos[i].fault_domain
            }),
    decreases infos.len(),
{
    if infos.len() > 0 {
        let rest = infos.drop_last();
        let last = infos.len() - 1;
        law_loading_takes_the_last_record(rest, k);
        if (infos[last].group_name@, infos[last].worker_id) == k {
            assert(is_last_record(infos, k, last));
        } else {
            assert forall|i: int| #[trigger] is_last_record(infos, k, i) <==> is_last_record(rest, k, i) by {
                if is_last_record(rest, k, i) {
                    assert forall|j: int| i < j < infos.len() implies ((#[trigger] infos[j]).group_name@, infos[j].worker_id)
                        != k by {
                        if j < last {
                            assert((rest[j].group_name@, rest[j].worker_id) != k);
                        }
                    }
                }
                if is_last_record(infos, k, i) {
                    assert forall|j: int| i < j < rest.len() implies ((#[trigger] rest[j]).group_name@, rest[j].worker_id)
                        != k by {
                        assert((infos[j].group_name@, infos[j].worker_id) != k);
                    }
                }
            }
            if model::load_all(infos).contains_key(k) {
                let i = choose|i: int| #[trigger]
                    is_last_record(rest, k, i) && ({
                        let loaded = model::load_all(rest)[k];
                        loaded.group_name == rest[i].group_name && loaded.worker_id == rest[i].worker_id
                            && loaded.address == rest[i].address && loaded.worker_net_protocol
                            == rest[i].worker_net_protocol && loaded.fault_domain == rest[i].fault_domain
                    });
                assert(is_last_record(infos, k, i));
                assert(infos[i] == rest[i]);
            }
            if exists|i: int| #[trigger] is_last_record(infos, k, i) {
                let i = choose|i: int| #[trigger] is_last_record(infos, k, i);
                assert(is_last_record(rest, k, i));
            }
        }
    }
}

/// Numbers of the wire tell the health: 2 is degraded, 3 is unhealthy, and any other is healthy.
pub proof fn law_health_is_read_from_its_number(v: i32)
    ensures
        types::health_of(v) == HealthStatus::Degraded <==> v == 2,
        types::health_of(v) == HealthStatus::Unhealthy <==> v == 3,
        types::health_of(v) == HealthStatus::Healthy <==> v != 2 && v != 3,
{
}

/// The list of the live workers of a group names each of them once and nobody else, and so do their
/// figures, which are those of the last heartbeat.
pub proof fn law_live_workers_are_listed_once(
    m: model::WorkerModel,
    group: Seq<char>,
    now: Moment,
    ids: Seq<WorkerId>,
    figures: Seq<WorkerFigures>,
    w: WorkerId,
)
    requires
        manager::lists_ids(ids, manager::live_ids(m, group, now)),
        manager::are_figures(figures, m, group, now),
    ensures
        m.live((group, w), now) <==> exists|i: int| 0 <= i < ids.len() && #[trigger] ids[i] == w,
        m.live((group, w), now) <==> exists|i: int| 0 <= i < figures.len() && (#[trigger] figures[i]).worker_id == w,
        forall|i: int, j: int| 0 <= i < j < ids.len() ==> #[trigger] ids[i] != #[trigger] ids[j],
        forall|i: int, j: int|
            0 <= i < j < figures.len() ==> (#[trigger] figures[i]).worker_id != (#[trigger] figures[j]).worker_id,
        forall|i: int|
            0 <= i < figures.len() ==> ({
                let last = m.runtime[(group, (#[trigger] figures[i]).worker_id)];
                &&& figures[i].capacity_total == last.capacity_total
                &&& figures[i].capacity_used == last.capacity_used
                &&& figures[i].active_reads == last.active_reads
                &&& figures[i].active_writes == last.active_writes
            }),
{
    assert(manager::live_ids(m, group, now).contains(w) <==> m.live((group, w), now));
    assert(ids.to_set().contains(w) <==> ids.contains(w));
    if m.live((group, w), now) {
        assert(manager::has_figures(figures, w));
    }
}

/// The workers that a sweep tells are those that it took, each once.
pub proof fn law_swept_workers_are_told_once(
    m: model::WorkerModel,
    now: Moment,
    pairs: Seq<(GroupName, WorkerId)>,
    k: model::WorkerAt,
)
    requires
        manager::lists_pairs(pairs, m.swept_away(now)),
    ensures
        m.swept_away(now).contains(k) <==> exists|i: int|
            0 <= i < pairs.len() && (#[trigger] pairs[i]).0@ == k.0 && pairs[i].1 == k.1,
        forall|i: int, j: int|
            0 <= i < j < pairs.len() ==> (#[trigger] pairs[i]).0@ != (#[trigger] pairs[j]).0@ || pairs[i].1
                != pairs[j].1,
{
    if m.swept_away(now).contains(k) {
        assert(manager::has_pair(pairs, k));
        let i = choose|i: int| 0 <= i < pairs.len() && ((#[trigger] pairs[i]).0@, pairs[i].1) == k;
        assert(pairs[i].0@ == k.0);
    }
    if exists|i: int| 0 <= i < pairs.len() && (#[trigger] pairs[i]).0@ == k.0 && pairs[i].1 == k.1 {
        let i = choose|i: int| 0 <= i < pairs.len() && (#[trigger] pairs[i]).0@ == k.0 && pairs[i].1 == k.1;
        assert((pairs[i].0@, pairs[i].1) == k);
        assert(manager::has_pair(pairs, k));
    }
    assert forall|i: int, j: int| 0 <= i < j < pairs.len() implies (#[trigger] pairs[i]).0@ != (
    #[trigger] pairs[j]).0@ || pairs[i].1 != pairs[j].1 by {
        assert((pairs[i].0@, pairs[i].1) != (pairs[j].0@, pairs[j].1));
    }
}

} // verus!
