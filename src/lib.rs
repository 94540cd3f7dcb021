//! Host telemetry: a shared snapshot of operating-system metrics, the rule for
//! which part of it each endpoint refreshes, and the typed reports read from it.
//!
//! Every report that reads the snapshot takes it as `&mut sysinfo::System`: the
//! borrow is the exclusive hold on the shared handle, and each report refreshes
//! and reads inside that one hold.
mod snapshot_specs;

pub mod cpu;
pub mod host;
pub mod memory;
pub mod network;
pub mod policy;
pub mod process;
pub mod root;

pub use snapshot_specs::{
    available_memory_of, cpu_brands_of, cpu_usage_bits_of, duration_text, free_memory_of,
    free_swap_of, interfaces_of, memory_figures, process_table_of, total_memory_of, total_swap_of,
    used_memory_of, used_swap_of,
};
