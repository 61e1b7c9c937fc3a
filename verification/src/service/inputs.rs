//! What requests hand on: to the log, and to the core.

use crate::error::{ErrorKind, MetadataError, MetadataResult};
use crate::ids::{CallId, ClientId, LeaseId};
use crate::text;
use crate::write_target::{FencingToken, WriteMode};
use vstd::prelude::*;

verus! {

/// A call of a client. A client's calls are carried out once each.
#[derive(Clone, Copy, Debug, PartialEq, Eq, Structural)]
pub struct DedupKey {
    pub client_id: ClientId,
    pub call_id: CallId,
}

/// How a file is written, by the number that the wire tells, given the wire's number of appending.
/// Whatever else it tells is writing.
pub fn write_mode_from_wire(number: i32, append: i32) -> (mode: WriteMode)
    ensures
        mode == WriteMode::Append <==> number == append,
        mode == WriteMode::Write <==> number != append,
{
    if number == append {
        WriteMode::Append
    } else {
        WriteMode::Write
    }
}

/// How fresh the client's knowledge is.
#[derive(Clone, Copy, Debug, PartialEq, Eq, Structural)]
pub struct Freshness {
    pub mount_epoch: Option<u64>,
    pub route_epoch: Option<u64>,
    pub worker_epoch: Option<u64>,
}

/// The epochs that a header tells.
#[derive(Clone, Copy, Debug, PartialEq, Eq, Structural)]
pub struct HeaderEpochs {
    pub mount_epoch: Option<u64>,
    pub route_epoch: Option<u64>,
}

pub open spec fn fresh_by(header: Option<HeaderEpochs>) -> Freshness {
    match header {
        Some(h) => Freshness { mount_epoch: h.mount_epoch, route_epoch: h.route_epoch, worker_epoch: None },
        None => Freshness { mount_epoch: None, route_epoch: None, worker_epoch: None },
    }
}

/// How fresh the client's knowledge is, by its header.
pub fn freshness_from_header(header: Option<HeaderEpochs>) -> (freshness: Freshness)
    ensures
        freshness == fresh_by(header),
{
    match header {
        Some(h) => Freshness { mount_epoch: h.mount_epoch, route_epoch: h.route_epoch, worker_epoch: None },
        None => Freshness { mount_epoch: None, route_epoch: None, worker_epoch: None },
    }
}

pub open spec fn fresh_at_barrier(
    header: Option<HeaderEpochs>,
    route_epoch: Option<u64>,
    worker_epoch: Option<u64>,
) -> Freshness {
    Freshness {
        mount_epoch: fresh_by(header).mount_epoch,
        route_epoch: if route_epoch is Some {
            route_epoch
        } else {
            fresh_by(header).route_epoch
        },
        worker_epoch,
    }
}

/// How fresh the client's knowledge is, by a barrier and its header. What the barrier says of
/// routes goes before what the header says.
pub fn barrier_freshness(header: Option<HeaderEpochs>, route_epoch: Option<u64>, worker_epoch: Option<u64>) -> (freshness: Freshness)
    ensures
        freshness == fresh_at_barrier(header, route_epoch, worker_epoch),
{
    let by_header = freshness_from_header(header);
    Freshness {
        mount_epoch: by_header.mount_epoch,
        route_epoch: match route_epoch {
            Some(r) => Some(r),
            None => by_header.route_epoch,
        },
        worker_epoch,
    }
}

/// How a file is cut and copied.
#[derive(Clone, Copy, Debug, PartialEq, Eq, Structural)]
pub struct FileLayout {
    pub block_size: u64,
    pub chunk_size: u64,
    pub replication: u8,
}

/// How a file is cut and copied, as the wire tells it.
#[derive(Clone, Copy, Debug, PartialEq, Eq, Structural)]
pub struct WireLayout {
    pub block_size: u64,
    pub chunk_size: u64,
    pub replication: u32,
}

/// The layout that the wire tells. The number of copies keeps its lowest byte.
pub open spec fn layout_told(layout: WireLayout) -> FileLayout {
    FileLayout {
        block_size: layout.block_size,
        chunk_size: layout.chunk_size,
        replication: (layout.replication % 256) as u8,
    }
}

/// The layout that the wire tells.
pub fn proto_to_file_layout(layout: Option<WireLayout>) -> (told: MetadataResult<FileLayout>)
    ensures
        match (layout, told) {
            (Some(w), Ok(l)) => l == layout_told(w),
            (None, Err(e)) => e.says(ErrorKind::InvalidArgument, "Missing FileLayout"@),
            _ => false,
        },
{
    match layout {
        Some(w) => Ok(
            FileLayout {
                block_size: w.block_size,
                chunk_size: w.chunk_size,
                replication: (w.replication % 256) as u8,
            },
        ),
        None => Err(MetadataError::InvalidArgument(text::literal("Missing FileLayout"))),
    }
}

/// A part of a file.
#[derive(Clone, Copy, Debug, PartialEq, Eq, Structural)]
pub struct FileRange {
    pub offset: u64,
    pub len: u64,
}

/// A part of a file, as the wire tells it.
#[derive(Clone, Copy, Debug, PartialEq, Eq, Structural)]
pub struct WireRange {
    pub offset: u64,
    pub len: u32,
}

pub open spec fn range_told(range: Option<WireRange>) -> Option<FileRange> {
    match range {
        Some(r) => Some(FileRange { offset: r.offset, len: r.len as u64 }),
        None => None,
    }
}

/// The part of a file that the wire tells.
pub fn range_from_wire(range: Option<WireRange>) -> (told: Option<FileRange>)
    ensures
        told == range_told(range),
{
    match range {
        Some(r) => Some(FileRange { offset: r.offset, len: r.len as u64 }),
        None => None,
    }
}

/// What a writer shows for its lease.
#[derive(Clone, Copy, Debug, PartialEq, Eq, Structural)]
pub struct LeaseProof {
    pub lease_id: Option<LeaseId>,
    pub lease_epoch: u64,
    pub open_epoch: u64,
    pub fencing_token: Option<FencingToken>,
}

/// What a barrier on the writes of a file carries.
#[derive(Clone, Copy, Debug, PartialEq, Eq, Structural)]
pub struct Barrier {
    pub file_handle: Option<u64>,
    pub lease_id: Option<LeaseId>,
    pub lease_epoch: Option<u64>,
    pub fencing_token: Option<FencingToken>,
    pub target_size: Option<u64>,
    pub flags: u32,
    pub route_epoch: Option<u64>,
    pub worker_epoch: Option<u64>,
}

/// What a header tells of the client's knowledge is kept, and nothing else is known. A barrier says
/// more: of workers, and of routes, where it goes before the header.
pub proof fn law_knowledge_is_as_fresh_as_told(
    header: Option<HeaderEpochs>,
    route_epoch: Option<u64>,
    worker_epoch: Option<u64>,
)
    ensures
        ({
            let fresh = fresh_by(header);
            let barrier = fresh_at_barrier(header, route_epoch, worker_epoch);
            &&& header matches Some(h) ==> fresh.mount_epoch == h.mount_epoch && fresh.route_epoch == h.route_epoch
            &&& header is None ==> fresh.mount_epoch is None && fresh.route_epoch is None
            &&& fresh.worker_epoch is None
            &&& header matches Some(h) ==> barrier.mount_epoch == h.mount_epoch
            &&& header is None ==> barrier.mount_epoch is None
            &&& route_epoch is Some ==> barrier.route_epoch == route_epoch
            &&& route_epoch is None && header is Some ==> barrier.route_epoch == header->0.route_epoch
            &&& route_epoch is None && header is None ==> barrier.route_epoch is None
            &&& barrier.worker_epoch == worker_epoch
        }),
{
}

/// A layout and a range are read as they were sent. The number of copies keeps its lowest byte.
pub proof fn law_layouts_and_ranges_are_read_as_sent(layout: WireLayout, range: Option<WireRange>)
    ensures
        layout_told(layout).block_size == layout.block_size,
        layout_told(layout).chunk_size == layout.chunk_size,
        layout.replication < 256 ==> layout_told(layout).replication == layout.replication,
        layout_told(layout).replication == layout.replication % 256,
        range_told(range) is Some <==> range is Some,
        range matches Some(sent) ==> range_told(range)->0.offset == sent.offset && range_told(range)->0.len == sent.len,
{
}

} // verus!
