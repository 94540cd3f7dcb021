//! The outside snapshot type and the operations of it that the reports rely on.
//!
//! A `sysinfo::System` is modelled by what it holds: its memory figures, the
//! usage of each core, the brand of each core, and its process table.
use vstd::prelude::*;

use crate::process::ProcessRecord;

verus! {

#[verifier::external_type_specification]
#[verifier::external_body]
pub struct ExSystem(sysinfo::System);

#[verifier::external_type_specification]
#[verifier::external_body]
pub struct ExNetworks(sysinfo::Networks);

#[verifier::external_type_specification]
#[verifier::external_body]
pub struct ExNetworkData(sysinfo::NetworkData);

/// Total RAM, in bytes, as a snapshot last read it.
pub uninterp spec fn total_memory_of(s: sysinfo::System) -> u64;

/// Used RAM, in bytes, as a snapshot last read it.
pub uninterp spec fn used_memory_of(s: sysinfo::System) -> u64;

/// Free RAM, in bytes, as a snapshot last read it.
pub uninterp spec fn free_memory_of(s: sysinfo::System) -> u64;

/// Available RAM, in bytes, as a snapshot last read it.
pub uninterp spec fn available_memory_of(s: sysinfo::System) -> u64;

/// Total swap, in bytes, as a snapshot last read it.
pub uninterp spec fn total_swap_of(s: sysinfo::System) -> u64;

/// Used swap, in bytes, as a snapshot last read it.
pub uninterp spec fn used_swap_of(s: sysinfo::System) -> u64;

/// Free swap, in bytes, as a snapshot last read it.
pub uninterp spec fn free_swap_of(s: sysinfo::System) -> u64;

/// The usage of each core, in core order, each as the bit pattern of its `f32` percentage.
pub uninterp spec fn cpu_usage_bits_of(s: sysinfo::System) -> Seq<u32>;

/// The brand string of each core, in core order.
pub uninterp spec fn cpu_brands_of(s: sysinfo::System) -> Seq<Seq<char>>;

/// The process table: for each process identifier, its name (lossily decoded),
/// resident memory, virtual memory, usage bits of its `f32` CPU percentage,
/// run time in seconds, and the name of its status variant.
pub uninterp spec fn process_table_of(s: sysinfo::System) -> Map<
    u32,
    (Seq<char>, u64, u64, u32, u64, Seq<char>),
>;

/// The network interfaces of an enumeration: for each interface name, the
/// bytes received and transmitted since the interface came up.
pub uninterp spec fn interfaces_of(n: sysinfo::Networks) -> Map<Seq<char>, (u64, u64)>;

/// The text that `humantime::format_duration` gives for a whole number of seconds.
pub uninterp spec fn duration_text(secs: u64) -> Seq<char>;

/// All seven memory figures of a snapshot, in the order total, used, free,
/// available RAM, then total, used, free swap.
pub open spec fn memory_figures(s: sysinfo::System) -> (u64, u64, u64, u64, u64, u64, u64) {
    (
        total_memory_of(s),
        used_memory_of(s),
        free_memory_of(s),
        available_memory_of(s),
        total_swap_of(s),
        used_swap_of(s),
        free_swap_of(s),
    )
}

/// Relies on `sysinfo::System::new_all`: a snapshot with every kind of data loaded once.
pub assume_specification[ sysinfo::System::new_all ]() -> sysinfo::System;

/// Relies on `sysinfo::System::refresh_all`: reloads every kind of data; nothing is
/// promised of the values read.
pub assume_specification[ sysinfo::System::refresh_all ](s: &mut sysinfo::System);

/// Relies on `sysinfo::System::refresh_memory`: it rewrites only the RAM and swap
/// figures, so the cores and the process table stay as they were.
pub assume_specification[ sysinfo::System::refresh_memory ](s: &mut sysinfo::System)
    ensures
        cpu_usage_bits_of(*final(s)) == cpu_usage_bits_of(*old(s)),
        process_table_of(*final(s)) == process_table_of(*old(s)),
;

/// Relies on `sysinfo::System::refresh_cpu_all`: it rewrites only the per-core data,
/// so the memory figures and the process table stay as they were.
pub assume_specification[ sysinfo::System::refresh_cpu_all ](s: &mut sysinfo::System)
    ensures
        memory_figures(*final(s)) == memory_figures(*old(s)),
        process_table_of(*final(s)) == process_table_of(*old(s)),
;

/// Relies on `sysinfo::System::total_memory`: returns the stored figure.
pub assume_specification[ sysinfo::System::total_memory ](s: &sysinfo::System) -> (r: u64)
    ensures
        r == total_memory_of(*s),
;

/// Relies on `sysinfo::System::used_memory`: returns the stored figure.
pub assume_specification[ sysinfo::System::used_memory ](s: &sysinfo::System) -> (r: u64)
    ensures
        r == used_memory_of(*s),
;

/// Relies on `sysinfo::System::free_memory`: returns the stored figure.
pub assume_specification[ sysinfo::System::free_memory ](s: &sysinfo::System) -> (r: u64)
    ensures
        r == free_memory_of(*s),
;

/// Relies on `sysinfo::System::available_memory`: returns the stored figure.
pub assume_specification[ sysinfo::System::available_memory ](s: &sysinfo::System) -> (r: u64)
    ensures
        r == available_memory_of(*s),
;

/// Relies on `sysinfo::System::total_swap`: returns the stored figure.
pub assume_specification[ sysinfo::System::total_swap ](s: &sysinfo::System) -> (r: u64)
    ensures
        r == total_swap_of(*s),
;

/// Relies on `sysinfo::System::used_swap`: returns the stored figure.
pub assume_specification[ sysinfo::System::used_swap ](s: &sysinfo::System) -> (r: u64)
    ensures
        r == used_swap_of(*s),
;

/// Relies on `sysinfo::System::free_swap`: returns the stored figure.
pub assume_specification[ sysinfo::System::free_swap ](s: &sysinfo::System) -> (r: u64)
    ensures
        r == free_swap_of(*s),
;

/// Relies on `sysinfo::System::cpus` and `sysinfo::Cpu::cpu_usage`: the stored usage of
/// each core, in order, handed out as the bits of the `f32`.
#[verifier::external_body]
pub(crate) fn cpu_usage_bits(s: &sysinfo::System) -> (r: Vec<u32>)
    ensures
        r@ == cpu_usage_bits_of(*s),
{
    s.cpus().iter().map(|c| c.cpu_usage().to_bits()).collect()
}

/// Relies on `sysinfo::System::cpus` and `sysinfo::Cpu::brand`: one brand per core, in order.
#[verifier::external_body]
pub(crate) fn cpu_brands(s: &sysinfo::System) -> (r: Vec<String>)
    ensures
        r@.map_values(|b: String| b@) == cpu_brands_of(*s),
{
    s.cpus().iter().map(|c| c.brand().to_string()).collect()
}

/// Relies on `sysinfo::System::load_average`: the one-minute figure, as the bits of
/// the `f64`. It is read from the host on each call.
#[verifier::external_body]
pub(crate) fn load_average_one_bits() -> (r: u64) {
    sysinfo::System::load_average().one.to_bits()
}

/// Relies on `sysinfo::System::processes` and `sysinfo::Pid::as_u32`: the keys of the
/// process table, each once: they are the keys of a map, and `as_u32` casts the
/// platform's process identifier (a 32-bit `pid_t` on Unix, a `DWORD` value on
/// Windows), so distinct keys stay distinct; `Pid::from_u32` casts back.
#[verifier::external_body]
pub(crate) fn process_ids(s: &sysinfo::System) -> (r: Vec<u32>)
    ensures
        r@.no_duplicates(),
        r@.to_set() == process_table_of(*s).dom(),
{
    s.processes().keys().map(|p| p.as_u32()).collect()
}

/// Relies on `sysinfo::System::process` and the getters of `sysinfo::Process`: the
/// record stored under an identifier, its fields converted to plain values.
#[verifier::external_body]
pub(crate) fn process_record(s: &sysinfo::System, id: u32) -> (r: Option<ProcessRecord>)
    ensures
        r.is_some() == process_table_of(*s).dom().contains(id),
        r matches Some(rec) ==> rec.pid == id && rec.fields() == process_table_of(*s)[id],
{
    s.process(sysinfo::Pid::from_u32(id)).map(|p| ProcessRecord {
        pid: id,
        name: p.name().to_string_lossy().into_owned(),
        memory: p.memory(),
        virtual_memory: p.virtual_memory(),
        cpu_usage_bits: p.cpu_usage().to_bits(),
        run_time: p.run_time(),
        status: format!("{:?}", p.status()),
    })
}

/// Relies on `sysinfo::Networks::new_with_refreshed_list`: a fresh enumeration of the
/// host's interfaces; nothing is promised of what it finds.
pub assume_specification[ sysinfo::Networks::new_with_refreshed_list ]() -> sysinfo::Networks;

/// Relies on `sysinfo::Networks::list`: the interface names, each once (the keys of a map).
#[verifier::external_body]
pub(crate) fn interface_names(n: &sysinfo::Networks) -> (r: Vec<String>)
    ensures
        r@.map_values(|k: String| k@).no_duplicates(),
        r@.map_values(|k: String| k@).to_set() == interfaces_of(*n).dom(),
{
    n.list().keys().cloned().collect()
}

/// Relies on `sysinfo::Networks::list` and `sysinfo::NetworkData::total_received` /
/// `total_transmitted`: the counters stored under an interface name.
#[verifier::external_body]
pub(crate) fn interface_counters(n: &sysinfo::Networks, name: &String) -> (r: Option<(u64, u64)>)
    ensures
        r.is_some() == interfaces_of(*n).dom().contains(name@),
        r matches Some(c) ==> c == interfaces_of(*n)[name@],
{
    n.list().get(name).map(|d| (d.total_received(), d.total_transmitted()))
}

/// Relies on `sysinfo::System::uptime`: seconds since boot, read from the host.
pub assume_specification[ sysinfo::System::uptime ]() -> u64;

/// Relies on `sysinfo::System::name`: the OS name, if the host reports it.
pub assume_specification[ sysinfo::System::name ]() -> Option<String>;

/// Relies on `sysinfo::System::kernel_version`: the kernel version, if reported.
pub assume_specification[ sysinfo::System::kernel_version ]() -> Option<String>;

/// Relies on `sysinfo::System::os_version`: the OS version, if reported.
pub assume_specification[ sysinfo::System::os_version ]() -> Option<String>;

/// Relies on `sysinfo::System::long_os_version`: the long OS version, if reported.
pub assume_specification[ sysinfo::System::long_os_version ]() -> Option<String>;

/// Relies on `sysinfo::System::distribution_id`: the distribution identifier (never absent).
pub assume_specification[ sysinfo::System::distribution_id ]() -> String;

/// Relies on `sysinfo::System::host_name`: the host name, if reported.
pub assume_specification[ sysinfo::System::host_name ]() -> Option<String>;

/// Relies on `humantime::format_duration`: its text for a whole number of seconds,
/// which depends on the number alone.
#[verifier::external_body]
pub(crate) fn format_seconds(secs: u64) -> (r: String)
    ensures
        r@ == duration_text(secs),
{
    humantime::format_duration(std::time::Duration::new(secs, 0)).to_string()
}

} // verus!
