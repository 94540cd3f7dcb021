//! Which part of the shared snapshot each endpoint refreshes before reading it.
use vstd::prelude::*;

use crate::snapshot_specs::{cpu_usage_bits_of, memory_figures, process_table_of};

verus! {

/// The endpoints that report host metrics.
#[derive(Clone, Copy, Debug, PartialEq, Eq, Structural)]
pub enum Endpoint {
    Cpu,
    Memory,
    SystemIdentity,
    Networks,
    Processes,
}

/// How much of the shared snapshot is refreshed.
#[derive(Clone, Copy, Debug, PartialEq, Eq, Structural)]
pub enum RefreshScope {
    /// Only the per-core data.
    CpuOnly,
    /// Only the RAM and swap figures.
    MemoryOnly,
    /// Nothing: the endpoint does not read the snapshot.
    Nothing,
    /// Cores, memory and the process table.
    Full,
}

/// The refresh scope of each endpoint.
pub open spec fn scope_of(e: Endpoint) -> RefreshScope {
    match e {
        Endpoint::Cpu => RefreshScope::CpuOnly,
        Endpoint::Memory => RefreshScope::MemoryOnly,
        Endpoint::SystemIdentity => RefreshScope::Nothing,
        Endpoint::Networks => RefreshScope::Nothing,
        Endpoint::Processes => RefreshScope::Full,
    }
}

/// The refresh scope that an endpoint applies before it reads the snapshot.
pub fn refresh_scope(e: Endpoint) -> (r: RefreshScope)
    ensures
        r == scope_of(e),
{
    match e {
        Endpoint::Cpu => RefreshScope::CpuOnly,
        Endpoint::Memory => RefreshScope::MemoryOnly,
        Endpoint::SystemIdentity => RefreshScope::Nothing,
        Endpoint::Networks => RefreshScope::Nothing,
        Endpoint::Processes => RefreshScope::Full,
    }
}

/// Refreshes the given part of the snapshot, and leaves the parts outside it as they were.
pub fn apply_refresh(sys: &mut sysinfo::System, scope: RefreshScope)
    ensures
        scope == RefreshScope::Nothing ==> *final(sys) == *old(sys),
        scope == RefreshScope::CpuOnly ==> memory_figures(*final(sys)) == memory_figures(*old(sys))
            && process_table_of(*final(sys)) == process_table_of(*old(sys)),
        scope == RefreshScope::MemoryOnly ==> cpu_usage_bits_of(*final(sys)) == cpu_usage_bits_of(
            *old(sys),
        ) && process_table_of(*final(sys)) == process_table_of(*old(sys)),
{
    match scope {
        RefreshScope::CpuOnly => sys.refresh_cpu_all(),
        RefreshScope::MemoryOnly => sys.refresh_memory(),
        RefreshScope::Nothing => {},
        RefreshScope::Full => sys.refresh_all(),
    }
}

/// Refreshes what an endpoint reads, per its scope.
pub fn refresh_for(sys: &mut sysinfo::System, e: Endpoint)
    ensures
        scope_of(e) == RefreshScope::Nothing ==> *final(sys) == *old(sys),
        scope_of(e) == RefreshScope::CpuOnly ==> memory_figures(*final(sys)) == memory_figures(
            *old(sys),
        ) && process_table_of(*final(sys)) == process_table_of(*old(sys)),
        scope_of(e) == RefreshScope::MemoryOnly ==> cpu_usage_bits_of(*final(sys))
            == cpu_usage_bits_of(*old(sys)) && process_table_of(*final(sys)) == process_table_of(
            *old(sys),
        ),
{
    let scope = refresh_scope(e);
    apply_refresh(sys, scope);
}

} // verus!
