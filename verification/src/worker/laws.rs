//! What the worker manager promises across operations.

use crate::clock::Moment;
use crate::error::ErrorKind;
use crate::ids::{BlockId, GroupName, WorkerId, WorkerRunId};
use crate::worker::locations;
use crate::worker::manager;
use crate::worker::model;
use crate::worker::types::{BlockReportBlock, BlockReportDeltaEntry, BlockReportState};
use vstd::prelude::*;

verus! {

/// What is known of one worker is the same in both states.
pub open spec fn same_worker(a: model::WorkerModel, b: model::WorkerModel, k: model::WorkerAt) -> bool {
    &&& a.descriptors.contains_key(k) == b.descriptors.contains_key(k)
    &&& a.descriptors.contains_key(k) ==> a.descriptors[k] == b.descriptors[k]
    &&& a.registrations.contains_key(k) == b.registrations.contains_key(k)
    &&& a.registrations.contains_key(k) ==> a.registrations[k] == b.registrations[k]
    &&& a.last_registration(k) == b.last_registration(k)
    &&& a.runtime.contains_key(k) == b.runtime.contains_key(k)
    &&& a.runtime.contains_key(k) ==> a.runtime[k] == b.runtime[k]
    &&& a.report(k) == b.report(k)
    &&& a.blocks(k) == b.blocks(k)
}

/// Registering, reporting and beating touch the worker they name and no other, of its own group
/// or of another.
pub proof fn law_workers_are_independent(
    m: model::WorkerModel,
    group_name: GroupName,
    worker_id: WorkerId,
    other: model::WorkerAt,
    address: String,
    protocol: i32,
    run: WorkerRunId,
    fault_domain: Option<String>,
    report_seq: u64,
    batch_seq: u64,
    final_batch: bool,
    blocks: Seq<BlockReportBlock>,
    delta_seq: u64,
    deltas: Seq<BlockReportDeltaEntry>,
    beat: model::Beat,
    now: Moment,
)
    requires
        other != (group_name@, worker_id),
    ensures
        same_worker(m, m.registered(group_name, worker_id, address, protocol, run, fault_domain, now), other),
        same_worker(m, m.with_batch((group_name@, worker_id), run, report_seq, batch_seq, final_batch, blocks), other),
        same_worker(m, m.with_batch_refused((group_name@, worker_id), run, report_seq, batch_seq), other),
        same_worker(m, m.with_deltas((group_name@, worker_id), delta_seq, deltas), other),
        same_worker(m, m.with_beat((group_name@, worker_id), beat, now), other),
        same_worker(m, m.without_report((group_name@, worker_id)), other),
{
}

/// A batch that is not the final one changes neither what is published of any worker nor where
/// any block is found.
pub proof fn law_staged_blocks_stay_hidden(
    m: model::WorkerModel,
    k: model::WorkerAt,
    run: WorkerRunId,
    report_seq: u64,
    batch_seq: u64,
    blocks: Seq<BlockReportBlock>,
    any: model::WorkerAt,
)
    ensures
        ({
            let after = m.with_batch(k, run, report_seq, batch_seq, false, blocks);
            after.blocks(any) == m.blocks(any) && after.report(any).published == m.report(any).published
        }),
{
}

/// Once the final batch is taken, the worker is found under exactly the ready blocks of the
/// batches since the report started, and can take deltas from 0.
pub proof fn law_final_batch_publishes_all(
    m: model::WorkerModel,
    k: model::WorkerAt,
    run: WorkerRunId,
    report_seq: u64,
    batch_seq: u64,
    blocks: Seq<BlockReportBlock>,
)
    ensures
        ({
            let after = m.with_batch(k, run, report_seq, batch_seq, true, blocks);
            let staged = model::stage_all(m.report_for_batch(k, run, report_seq, batch_seq).staging, blocks);
            &&& after.report(k).published == staged
            &&& after.blocks(k) == locations::ready(staged)
            &&& after.report(k).state == BlockReportState::Ready
            &&& after.report(k).delta_seq == 0
        }),
{
}

/// Batches in a row publish what one batch with all their blocks would.
pub proof fn law_batches_add_up(
    start: Map<BlockId, BlockReportBlock>,
    first: Seq<BlockReportBlock>,
    second: Seq<BlockReportBlock>,
)
    ensures
        model::stage_all(model::stage_all(start, first), second) == model::stage_all(start, first + second),
    decreases second.len(),
{
    if second.len() == 0 {
        assert(first + second =~= first);
    } else {
        law_batches_add_up(start, first, second.drop_last());
        assert((first + second).drop_last() =~= first + second.drop_last());
        assert((first + second).last() == second.last());
    }
}

/// A report older than the one that is held is turned down and leaves everything as it was, so
/// what is published never goes back.
pub proof fn law_older_report_is_turned_down(
    m: model::WorkerModel,
    k: model::WorkerAt,
    run: WorkerRunId,
    report_seq: u64,
)
    requires
        m.report(k).run == Some(run),
        report_seq < m.report(k).report_seq,
    ensures
        m.batch_refusal(k, run, report_seq, 0) matches Some(refusal) && refusal.kind == ErrorKind::FullReportRequired,
        m.with_batch_refused(k, run, report_seq, 0) == m,
{
}

/// A batch out of turn is turned down, and what is published stays.
pub proof fn law_batch_out_of_turn_is_turned_down(
    m: model::WorkerModel,
    k: model::WorkerAt,
    run: WorkerRunId,
    report_seq: u64,
    batch_seq: u64,
)
    requires
        batch_seq != 0,
        batch_seq != m.report(k).next_batch_seq,
    ensures
        m.batch_refusal(k, run, report_seq, batch_seq) matches Some(refusal) && refusal.kind
            == ErrorKind::FullReportRequired,
        m.with_batch_refused(k, run, report_seq, batch_seq).blocks(k) == m.blocks(k),
        m.with_batch_refused(k, run, report_seq, batch_seq).report(k) == m.report(k),
{
}

/// Some delta speaks of the block.
pub open spec fn touches(deltas: Seq<BlockReportDeltaEntry>, b: BlockId) -> bool {
    exists|i: int| 0 <= i < deltas.len() && (#[trigger] deltas[i]).block.block_id == b
}

/// Blocks that deltas speak of end the same wherever they start; the others stay.
proof fn lemma_deltas_decide(
    one: Map<BlockId, BlockReportBlock>,
    other: Map<BlockId, BlockReportBlock>,
    deltas: Seq<BlockReportDeltaEntry>,
    b: BlockId,
)
    ensures
        touches(deltas, b) ==> model::apply_all(one, deltas).contains_key(b) == model::apply_all(other, deltas).contains_key(b)
            && (model::apply_all(one, deltas).contains_key(b) ==> model::apply_all(one, deltas)[b] == model::apply_all(other, deltas)[b]),
        !touches(deltas, b) ==> model::apply_all(one, deltas).contains_key(b) == one.contains_key(b)
            && (one.contains_key(b) ==> model::apply_all(one, deltas)[b] == one[b]),
    decreases deltas.len(),
{
    if deltas.len() > 0 {
        let rest = deltas.drop_last();
        lemma_deltas_decide(one, other, rest, b);
        if touches(rest, b) {
            let i = choose|i: int| 0 <= i < rest.len() && (#[trigger] rest[i]).block.block_id == b;
            assert(deltas[i].block.block_id == b);
        }
        if touches(deltas, b) && !touches(rest, b) {
            let i = choose|i: int| 0 <= i < deltas.len() && (#[trigger] deltas[i]).block.block_id == b;
            if i < rest.len() {
                assert(rest[i].block.block_id == b);
            }
            assert(deltas.last().block.block_id == b);
        }
        if !touches(deltas, b) {
            assert(deltas[deltas.len() - 1].block.block_id != b);
        }
    }
}

/// Taking the same deltas a second time changes no block.
pub proof fn law_deltas_are_idempotent(blocks: Map<BlockId, BlockReportBlock>, deltas: Seq<BlockReportDeltaEntry>)
    ensures
        model::apply_all(model::apply_all(blocks, deltas), deltas) == model::apply_all(blocks, deltas),
{
    let once = model::apply_all(blocks, deltas);
    let twice = model::apply_all(once, deltas);
    assert forall|b: BlockId|
        #![trigger once.dom().contains(b)]
        #![trigger twice.dom().contains(b)]
        once.dom().contains(b) == twice.dom().contains(b) && (once.dom().contains(b) ==> once[b] == twice[b]) by {
        lemma_deltas_decide(blocks, once, deltas, b);
        lemma_deltas_decide(once, blocks, deltas, b);
    }
    assert(twice =~= once);
}

/// Deltas in a row make what one list with all of them would.
pub proof fn law_deltas_add_up(
    blocks: Map<BlockId, BlockReportBlock>,
    first: Seq<BlockReportDeltaEntry>,
    second: Seq<BlockReportDeltaEntry>,
)
    ensures
        model::apply_all(model::apply_all(blocks, first), second) == model::apply_all(blocks, first + second),
    decreases second.len(),
{
    if second.len() == 0 {
        assert(first + second =~= first);
    } else {
        law_deltas_add_up(blocks, first, second.drop_last());
        assert((first + second).drop_last() =~= first + second.drop_last());
        assert((first + second).last() == second.last());
    }
}

/// A worker whose deltas come in two parts, the second numbered on, ends as one whose deltas come at
/// once, as long as the numbers last.
pub proof fn law_deltas_can_be_split(
    m: model::WorkerModel,
    k: model::WorkerAt,
    first: Seq<BlockReportDeltaEntry>,
    second: Seq<BlockReportDeltaEntry>,
)
    requires
        m.report(k).delta_seq + first.len() + second.len() <= u64::MAX,
    ensures
        ({
            let start = m.report(k).delta_seq;
            let half = m.with_deltas(k, start, first);
            half.with_deltas(k, (start + first.len()) as u64, second) == m.with_deltas(k, start, first + second)
        }),
{
    let start = m.report(k).delta_seq;
    let half = m.with_deltas(k, start, first);
    let split = half.with_deltas(k, (start + first.len()) as u64, second);
    let whole = m.with_deltas(k, start, first + second);
    law_deltas_add_up(m.report(k).published, first, second);
    assert(split.report(k) =~= whole.report(k));
    assert(split.reports =~= whole.reports);
    assert(split.indexed =~= whole.indexed);
}

/// Deltas that come again after they were taken are taken again, and change neither the
/// published blocks, nor where blocks are found, nor the number expected next.
pub proof fn law_repeated_deltas_are_acknowledged(
    m: model::WorkerModel,
    k: model::WorkerAt,
    run: WorkerRunId,
    report_seq: u64,
    delta_seq: u64,
    deltas: Seq<BlockReportDeltaEntry>,
)
    requires
        m.delta_refusal(k, run, report_seq, delta_seq, deltas.len()) is None,
    ensures
        ({
            let once = m.with_deltas(k, delta_seq, deltas);
            let twice = once.with_deltas(k, delta_seq, deltas);
            &&& once.delta_refusal(k, run, report_seq, delta_seq, deltas.len()) is None
            &&& twice.report(k).published == once.report(k).published
            &&& twice.blocks(k) == once.blocks(k)
            &&& twice.report(k).delta_seq == once.report(k).delta_seq
        }),
{
    law_deltas_are_idempotent(m.report(k).published, deltas);
}

/// Deltas that skip a number are turned down.
pub proof fn law_delta_gap_is_turned_down(
    m: model::WorkerModel,
    k: model::WorkerAt,
    run: WorkerRunId,
    report_seq: u64,
    delta_seq: u64,
    count: nat,
)
    requires
        delta_seq > m.report(k).delta_seq,
    ensures
        m.delta_refusal(k, run, report_seq, delta_seq, count) matches Some(refusal) && refusal.kind
            == ErrorKind::FullReportRequired,
{
}

/// Deltas are turned down until a full report is complete.
pub proof fn law_deltas_need_a_full_report(
    m: model::WorkerModel,
    k: model::WorkerAt,
    run: WorkerRunId,
    report_seq: u64,
    delta_seq: u64,
    count: nat,
)
    requires
        m.report(k).state != BlockReportState::Ready,
    ensures
        m.delta_refusal(k, run, report_seq, delta_seq, count) matches Some(refusal) && refusal.kind
            == ErrorKind::FullReportRequired,
{
}

/// A new run starts afresh: it is not live, is found under no block, and must send a full
/// report before deltas. The run before it is fenced off: its heartbeats and reports are stale.
pub proof fn law_new_run_starts_afresh(
    m: model::WorkerModel,
    group_name: GroupName,
    worker_id: WorkerId,
    address: String,
    protocol: i32,
    run: WorkerRunId,
    fault_domain: Option<String>,
    now: Moment,
    earlier_run: WorkerRunId,
    beat: model::Beat,
    later: Moment,
)
    requires
        earlier_run != run,
        !m.registrations.contains_key((group_name@, worker_id)) || m.other_run((group_name@, worker_id), run),
        beat.run == earlier_run,
    ensures
        ({
            let k = (group_name@, worker_id);
            let after = m.registered(group_name, worker_id, address, protocol, run, fault_domain, now);
            &&& after.registrations[k].worker_run_id == run
            &&& !after.live(k, later)
            &&& after.blocks(k) == Set::<BlockId>::empty()
            &&& after.report(k).state != BlockReportState::Ready
            &&& after.source_refusal(k, earlier_run, later) matches Some(refusal) && refusal.kind
                == ErrorKind::StaleState
            &&& after.beat_refusal(k, beat) matches Some(refusal) && refusal.kind == ErrorKind::StaleState
        }),
{
}

/// A run that registers again as it was keeps its heartbeat and everything it has reported.
pub proof fn law_registering_again_keeps_state(
    m: model::WorkerModel,
    group_name: GroupName,
    worker_id: WorkerId,
    address: String,
    protocol: i32,
    run: WorkerRunId,
    fault_domain: Option<String>,
    now: Moment,
    at: Moment,
)
    requires
        m.registrations.contains_key((group_name@, worker_id)),
        m.registrations[(group_name@, worker_id)].worker_run_id == run,
        m.registrations[(group_name@, worker_id)].address@ == address@,
        m.registrations[(group_name@, worker_id)].worker_net_protocol == protocol,
    ensures
        ({
            let k = (group_name@, worker_id);
            let after = m.registered(group_name, worker_id, address, protocol, run, fault_domain, now);
            &&& m.registration_refusal(k, run, address@, protocol, now) is None
            &&& after.runtime == m.runtime
            &&& after.reports == m.reports
            &&& after.blocks(k) == m.blocks(k)
            &&& after.live(k, at) == m.live(k, at)
        }),
{
}

/// A sweep keeps every descriptor and every report, every heartbeat that is recent enough and every
/// registration whose lease is not over; afterwards a worker is live if and only if it was, and no
/// heartbeat that is too old is held.
pub proof fn law_sweep_spares_the_live(m: model::WorkerModel, k: model::WorkerAt, now: Moment)
    ensures
        m.swept(now).descriptors == m.descriptors,
        m.swept(now).reports == m.reports,
        m.swept(now).blocks(k) == m.blocks(k),
        m.swept(now).live(k, now) == m.live(k, now),
        m.swept(now).runtime.contains_key(k) <==> m.live(k, now),
        m.live(k, now) ==> m.swept(now).runtime[k] == m.runtime[k],
        m.swept(now).registrations.contains_key(k) <==> m.registrations.contains_key(k) && !m.lapsed(k, now),
        m.swept(now).registrations.contains_key(k) ==> m.swept(now).registrations[k] == m.registrations[k],
        m.swept(now).last_registration(k) == m.last_registration(k),
        m.runtime.contains_key(k) && !m.live(k, now) ==> m.swept_away(now).contains(k),
        !m.swept_away(now).contains(k) ==> same_worker(m, m.swept(now), k),
{
}

/// What a sweep leaves depends on the time alone: a second sweep at the same time changes nothing
/// and names no worker.
pub proof fn law_sweeping_again_changes_nothing(m: model::WorkerModel, now: Moment)
    ensures
        m.swept(now).swept(now) == m.swept(now),
        m.swept(now).swept_away(now) == Set::<model::WorkerAt>::empty(),
{
    let once = m.swept(now);
    assert forall|k: model::WorkerAt| !(#[trigger] once.lapsed(k, now)) by {}
    assert forall|k: model::WorkerAt| once.runtime.contains_key(k) implies #[trigger] once.live(k, now) by {
        assert(m.live(k, now));
    }
    assert(once.swept(now) =~= once);
    assert(once.swept_away(now) =~= Set::<model::WorkerAt>::empty());
}

/// A registration whose lease is over holds nobody's place: whatever run asks, it may register, and
/// heartbeats and reports are turned down as those of a worker that is not registered. The
/// registration is still told.
pub proof fn law_ended_registrations_count_for_nothing(
    m: model::WorkerModel,
    k: model::WorkerAt,
    run: WorkerRunId,
    endpoint: Seq<char>,
    beat: model::Beat,
    now: Moment,
)
    requires
        m.lapsed(k, now),
    ensures
        m.swept(now).run_refusal(k, run) is None,
        m.swept(now).registration_refusal(k, run, endpoint, beat.protocol, now) is None,
        m.swept(now).source_refusal(k, run, now) matches Some(refusal) && refusal.kind == ErrorKind::NotFound,
        m.swept(now).beat_refusal(k, beat) matches Some(refusal) && refusal.kind == ErrorKind::NotFound,
        m.swept(now).last_registration(k) == Some(m.registrations[k]),
{
}

/// The sequence number that is held never goes back, and an older heartbeat leaves the reported
/// load as it was.
pub proof fn law_heartbeat_seq_never_goes_back(m: model::WorkerModel, k: model::WorkerAt, beat: model::Beat, now: Moment)
    requires
        m.runtime.contains_key(k),
    ensures
        m.with_beat(k, beat, now).runtime[k].heartbeat_seq >= m.runtime[k].heartbeat_seq,
        m.with_beat(k, beat, now).runtime[k].heartbeat_seq >= beat.seq,
        beat.seq <= m.runtime[k].heartbeat_seq ==> ({
            let after = m.with_beat(k, beat, now).runtime[k];
            &&& after.capacity_total == m.runtime[k].capacity_total
            &&& after.capacity_used == m.runtime[k].capacity_used
            &&& after.capacity_available == m.runtime[k].capacity_available
            &&& after.active_reads == m.runtime[k].active_reads
            &&& after.active_writes == m.runtime[k].active_writes
            &&& after.health == m.runtime[k].health
        }),
{
}

/// A heartbeat that is taken makes the worker live until the timeout is over, and renews its
/// registration for as long.
pub proof fn law_heartbeat_makes_live(
    m: model::WorkerModel,
    k: model::WorkerAt,
    beat: model::Beat,
    now: Moment,
    later: Moment,
)
    requires
        later.mono_ns >= now.mono_ns,
    ensures
        m.with_beat(k, beat, now).live(k, later) <==> later.mono_ns - now.mono_ns < model::nanos(m.timeout_sec),
        m.with_beat(k, beat, now).live(k, later) <==> !m.with_beat(k, beat, now).lapsed(k, later),
{
    assert(now.mono_ns + model::nanos(m.timeout_sec) <= u128::MAX) by (nonlinear_arith)
        requires
            now.mono_ns <= u64::MAX,
            model::nanos(m.timeout_sec) == m.timeout_sec as nat * 1_000_000_000,
            m.timeout_sec <= u64::MAX,
    ;
}

/// Only live workers are named as holders of a block.
pub proof fn law_only_live_workers_hold_blocks(
    m: model::WorkerModel,
    group: Seq<char>,
    block: BlockId,
    w: WorkerId,
    now: Moment,
)
    requires
        manager::live_holders(m, group, block, now).contains(w),
    ensures
        m.live((group, w), now),
        m.blocks((group, w)).contains(block),
{
}

/// After stored workers are loaded, or a new epoch has started, no worker is registered, live or
/// found under any block, and every report is turned down as one of an unknown worker.
pub proof fn law_restart_forgets_runs(
    descriptors: Map<model::WorkerAt, crate::worker::types::WorkerDescriptor>,
    timeout_sec: u64,
    epoch: u64,
    k: model::WorkerAt,
    run: WorkerRunId,
    now: Moment,
)
    ensures
        ({
            let fresh = model::WorkerModel { descriptors, ..model::WorkerModel::start(timeout_sec, epoch) };
            &&& !fresh.registrations.contains_key(k)
            &&& fresh.last_registration(k) is None
            &&& !fresh.live(k, now)
            &&& fresh.blocks(k) == Set::<BlockId>::empty()
            &&& fresh.report(k).state != BlockReportState::Ready
            &&& fresh.source_refusal(k, run, now) matches Some(refusal) && refusal.kind == ErrorKind::NotFound
        }),
{
}

/// No more workers have published than are active.
pub proof fn law_full_reported_are_active(m: model::WorkerModel, now_ms: u64, ttl_ms: u64)
    ensures
        manager::full_reported_workers(m, now_ms, ttl_ms).subset_of(manager::active_workers(m, now_ms, ttl_ms)),
{
}

} // verus!
