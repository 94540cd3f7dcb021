//! The processor's brand name, and the CPU report read from the shared snapshot.
use vstd::prelude::*;

use crate::policy::{refresh_for, Endpoint};
use crate::snapshot_specs::{
    cpu_brands, cpu_brands_of, cpu_usage_bits, cpu_usage_bits_of, load_average_one_bits,
    memory_figures, process_table_of,
};

verus! {

/// The brand name of the host's first processor, if the host reports one.
pub struct CPUInfo {
    pub model_name: Option<String>,
}

/// The brand of the first core in a list of brands, if any.
pub open spec fn first_brand(brands: Seq<Seq<char>>) -> Option<Seq<char>> {
    if brands.len() == 0 {
        None
    } else {
        Some(brands[0])
    }
}

/// The view of an optional string.
pub open spec fn opt_view(o: Option<String>) -> Option<Seq<char>> {
    match o {
        Some(s) => Some(s@),
        None => None,
    }
}

impl CPUInfo {
    /// Takes a full snapshot of the host and keeps the first processor's brand.
    pub fn new() -> (r: CPUInfo)
        ensures
            exists|s: sysinfo::System| opt_view(r.model_name) == first_brand(cpu_brands_of(s)),
    {
        let mut sys = sysinfo::System::new_all();
        sys.refresh_all();
        let brands = cpu_brands(&sys);
        CPUInfo::from_brands(&brands)
    }

    /// Keeps the first of the given per-core brand names, or none if the list is empty.
    pub fn from_brands(brands: &Vec<String>) -> (r: CPUInfo)
        ensures
            opt_view(r.model_name) == first_brand(brands@.map_values(|b: String| b@)),
    {
        if brands.len() == 0 {
            CPUInfo { model_name: None }
        } else {
            CPUInfo { model_name: Some(brands[0].clone()) }
        }
    }

    /// The stored brand name.
    pub fn get_brand_name(&self) -> (r: Option<String>)
        ensures
            r == self.model_name,
    {
        match &self.model_name {
            Some(s) => Some(s.clone()),
            None => None,
        }
    }
}

/// Per-core usage and the one-minute load average, each as the bit pattern of
/// its floating-point value (`f32` per core, `f64` for the load).
pub struct CpuReport {
    pub cpu_usage_bits: Vec<u32>,
    pub load_average_bits: u64,
}

/// Refreshes the per-core part of the snapshot, then reads every core's usage from
/// the refreshed state; memory figures and the process table are left as they were.
pub fn cpu_report(sys: &mut sysinfo::System) -> (r: CpuReport)
    ensures
        r.cpu_usage_bits@ == cpu_usage_bits_of(*final(sys)),
        memory_figures(*final(sys)) == memory_figures(*old(sys)),
        process_table_of(*final(sys)) == process_table_of(*old(sys)),
{
    refresh_for(sys, Endpoint::Cpu);
    let usage = cpu_usage_bits(sys);
    CpuReport { cpu_usage_bits: usage, load_average_bits: load_average_one_bits() }
}

} // verus!
