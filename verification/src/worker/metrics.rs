//! Counters and gauges of worker management.

use vstd::prelude::*;

verus! {

/// Counters and gauges of worker management.
#[derive(Clone, Copy, Debug, PartialEq, Eq, Structural)]
pub struct WorkerMetrics {
    pub worker_live: usize,
    pub blockreport_blocks_total: u64,
    pub locations_size: usize,
    pub orphan_queue_len: usize,
    pub repair_queue_len: usize,
}

impl WorkerMetrics {
    pub open spec fn spec_zero() -> WorkerMetrics {
        WorkerMetrics {
            worker_live: 0,
            blockreport_blocks_total: 0,
            locations_size: 0,
            orphan_queue_len: 0,
            repair_queue_len: 0,
        }
    }

    /// All at zero.
    pub fn new() -> (metrics: Self)
        ensures
            metrics == Self::spec_zero(),
    {
        WorkerMetrics {
            worker_live: 0,
            blockreport_blocks_total: 0,
            locations_size: 0,
            orphan_queue_len: 0,
            repair_queue_len: 0,
        }
    }

    pub fn update_worker_live(&mut self, count: usize)
        ensures
            *final(self) == (WorkerMetrics { worker_live: count, ..*old(self) }),
    {
        self.worker_live = count;
    }

    /// Adds to the blocks that reports changed. The count starts over beyond its range.
    pub fn record_blockreport_blocks(&mut self, count: u64)
        ensures
            *final(self) == (WorkerMetrics {
                blockreport_blocks_total: final(self).blockreport_blocks_total,
                ..*old(self)
            }),
            final(self).blockreport_blocks_total == (old(self).blockreport_blocks_total + count) % (u64::MAX + 1),
    {
        self.blockreport_blocks_total = self.blockreport_blocks_total.wrapping_add(count);
    }

    pub fn update_locations_size(&mut self, size: usize)
        ensures
            *final(self) == (WorkerMetrics { locations_size: size, ..*old(self) }),
    {
        self.locations_size = size;
    }

    pub fn update_orphan_queue_len(&mut self, len: usize)
        ensures
            *final(self) == (WorkerMetrics { orphan_queue_len: len, ..*old(self) }),
    {
        self.orphan_queue_len = len;
    }

    pub fn update_repair_queue_len(&mut self, len: usize)
        ensures
            *final(self) == (WorkerMetrics { repair_queue_len: len, ..*old(self) }),
    {
        self.repair_queue_len = len;
    }
}

impl Default for WorkerMetrics {
    fn default() -> (metrics: Self)
        ensures
            metrics == Self::spec_zero(),
    {
        Self::new()
    }
}

/// Before anything is counted, every count is zero.
pub proof fn law_counts_start_at_zero()
    ensures
        ({
            let start = WorkerMetrics::spec_zero();
            &&& start.worker_live == 0 && start.locations_size == 0
            &&& start.orphan_queue_len == 0 && start.repair_queue_len == 0
            &&& start.blockreport_blocks_total == 0
        }),
{
}

} // verus!
