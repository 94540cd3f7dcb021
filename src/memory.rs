//! The memory report: seven byte counts read from one refresh of the snapshot.
use vstd::prelude::*;

use crate::policy::{refresh_for, Endpoint};
use crate::snapshot_specs::{cpu_usage_bits_of, memory_figures, process_table_of};

verus! {

/// RAM and swap figures, in bytes.
#[derive(Clone, Copy, Debug, PartialEq, Eq, Structural)]
pub struct MemoryStats {
    pub total_memory: u64,
    pub used_memory: u64,
    pub free_memory: u64,
    pub available_memory: u64,
    pub total_swap: u64,
    pub used_swap: u64,
    pub free_swap: u64,
}

impl MemoryStats {
    /// The seven figures, in field order.
    pub open spec fn figures(self) -> (u64, u64, u64, u64, u64, u64, u64) {
        (
            self.total_memory,
            self.used_memory,
            self.free_memory,
            self.available_memory,
            self.total_swap,
            self.used_swap,
            self.free_swap,
        )
    }
}

/// Reads the memory figures that the snapshot holds now, without refreshing it.
pub fn read_memory(sys: &sysinfo::System) -> (r: MemoryStats)
    ensures
        r.figures() == memory_figures(*sys),
{
    MemoryStats {
        total_memory: sys.total_memory(),
        used_memory: sys.used_memory(),
        free_memory: sys.free_memory(),
        available_memory: sys.available_memory(),
        total_swap: sys.total_swap(),
        used_swap: sys.used_swap(),
        free_swap: sys.free_swap(),
    }
}

/// Refreshes the memory part of the snapshot, then reads all seven figures from
/// the refreshed state; the cores and the process table are left as they were.
pub fn memory_report(sys: &mut sysinfo::System) -> (r: MemoryStats)
    ensures
        r.figures() == memory_figures(*final(sys)),
        cpu_usage_bits_of(*final(sys)) == cpu_usage_bits_of(*old(sys)),
        process_table_of(*final(sys)) == process_table_of(*old(sys)),
{
    refresh_for(sys, Endpoint::Memory);
    read_memory(sys)
}

/// Two memory reports taken from snapshots whose memory figures are the same are
/// identical, field by field.
pub proof fn lemma_memory_report_repeatable(
    s1: sysinfo::System,
    r1: MemoryStats,
    s2: sysinfo::System,
    r2: MemoryStats,
)
    requires
        r1.figures() == memory_figures(s1),
        r2.figures() == memory_figures(s2),
        memory_figures(s1) == memory_figures(s2),
    ensures
        r1 == r2,
{
}

} // verus!
