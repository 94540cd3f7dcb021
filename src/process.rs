//! The process report: one record per process of the table, read after a full refresh.
use vstd::prelude::*;

use crate::policy::{refresh_for, Endpoint};
use crate::snapshot_specs::{process_ids, process_record, process_table_of};

verus! {

/// One process as the report lists it.
pub struct ProcessRecord {
    pub pid: u32,
    /// The name, with bytes that are not valid text replaced.
    pub name: String,
    /// Resident memory, in bytes.
    pub memory: u64,
    /// Virtual memory, in bytes.
    pub virtual_memory: u64,
    /// The bit pattern of the `f32` CPU usage percentage.
    pub cpu_usage_bits: u32,
    /// Run time, in seconds.
    pub run_time: u64,
    /// The name of the status variant (`Run`, `Sleep`, ...).
    pub status: String,
}

impl ProcessRecord {
    /// Everything but the identifier, as plain values.
    pub open spec fn fields(self) -> (Seq<char>, u64, u64, u32, u64, Seq<char>) {
        (self.name@, self.memory, self.virtual_memory, self.cpu_usage_bits, self.run_time, self.status@)
    }
}

/// The identifiers of a list of records, in list order.
pub open spec fn pids_of(rs: Seq<ProcessRecord>) -> Seq<u32> {
    rs.map_values(|r: ProcessRecord| r.pid)
}

/// A list of records that is exactly the given process table: one record per
/// identifier, no identifier twice, each with the fields stored under it.
pub open spec fn lists_table(
    rs: Seq<ProcessRecord>,
    table: Map<u32, (Seq<char>, u64, u64, u32, u64, Seq<char>)>,
) -> bool {
    &&& pids_of(rs).no_duplicates()
    &&& pids_of(rs).to_set() == table.dom()
    &&& rs.len() == table.dom().len()
    &&& forall|i: int| 0 <= i < rs.len() ==> #[trigger] table[rs[i].pid] == rs[i].fields()
}

/// Lists the process table that the snapshot holds now, without refreshing it.
pub fn collect_processes(sys: &sysinfo::System) -> (r: Vec<ProcessRecord>)
    ensures
        lists_table(r@, process_table_of(*sys)),
{
    let ids = process_ids(sys);
    let mut out: Vec<ProcessRecord> = Vec::new();
    let mut i: usize = 0;
    while i < ids.len()
        invariant
            i <= ids@.len(),
            ids@.no_duplicates(),
            ids@.to_set() == process_table_of(*sys).dom(),
            out@.len() == i,
            forall|j: int| 0 <= j < i ==> (#[trigger] out@[j]).pid == ids@[j],
            forall|j: int|
                0 <= j < i ==> process_table_of(*sys)[ids@[j]] == (#[trigger] out@[j]).fields(),
        decreases ids@.len() - i,
    {
        let id = ids[i];
        assert(ids@.to_set().contains(ids@[i as int]));
        match process_record(sys, id) {
            Some(rec) => out.push(rec),
            None => {},
        }
        i = i + 1;
    }
    proof {
        assert(pids_of(out@) =~= ids@);
        ids@.unique_seq_to_set();
        assert forall|j: int| 0 <= j < out@.len() implies #[trigger] process_table_of(*sys)[out@[j].pid]
            == out@[j].fields() by {
            assert(out@[j].pid == ids@[j]);
        }
    }
    out
}

/// Refreshes the whole snapshot, then lists its process table from the refreshed state.
pub fn process_report(sys: &mut sysinfo::System) -> (r: Vec<ProcessRecord>)
    ensures
        lists_table(r@, process_table_of(*final(sys))),
{
    refresh_for(sys, Endpoint::Processes);
    collect_processes(sys)
}

} // verus!
