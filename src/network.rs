//! The network report: one entry per interface of a fresh, stateless enumeration.
use vstd::prelude::*;

use crate::snapshot_specs::{interface_counters, interface_names, interfaces_of};

verus! {

/// One interface's cumulative byte counters.
pub struct NetworkEntry {
    pub interface_name: String,
    pub received: u64,
    pub transmitted: u64,
}

/// The interface names of a list of entries, in list order.
pub open spec fn names_of(es: Seq<NetworkEntry>) -> Seq<Seq<char>> {
    es.map_values(|e: NetworkEntry| e.interface_name@)
}

/// A list of entries that is exactly the given interface map: one entry per
/// name, no name twice, each with the counters stored under it.
pub open spec fn lists_interfaces(es: Seq<NetworkEntry>, ifs: Map<Seq<char>, (u64, u64)>) -> bool {
    &&& names_of(es).no_duplicates()
    &&& names_of(es).to_set() == ifs.dom()
    &&& es.len() == ifs.dom().len()
    &&& forall|i: int|
        0 <= i < es.len() ==> #[trigger] ifs[es[i].interface_name@] == (es[i].received, es[i].transmitted)
}

/// Lists the interfaces of an enumeration; with no interface the list is empty.
pub fn collect_interfaces(n: &sysinfo::Networks) -> (r: Vec<NetworkEntry>)
    ensures
        lists_interfaces(r@, interfaces_of(*n)),
        interfaces_of(*n).dom().len() == 0 ==> r@.len() == 0,
{
    let names = interface_names(n);
    let ghost keys = names@.map_values(|k: String| k@);
    let mut out: Vec<NetworkEntry> = Vec::new();
    let mut i: usize = 0;
    while i < names.len()
        invariant
            i <= names@.len(),
            keys == names@.map_values(|k: String| k@),
            keys.no_duplicates(),
            keys.to_set() == interfaces_of(*n).dom(),
            out@.len() == i,
            forall|j: int| 0 <= j < i ==> (#[trigger] out@[j]).interface_name@ == keys[j],
            forall|j: int|
                0 <= j < i ==> interfaces_of(*n)[keys[j]] == ((#[trigger] out@[j]).received, out@[j].transmitted),
        decreases names@.len() - i,
    {
        let name = &names[i];
        assert(keys.to_set().contains(keys[i as int]));
        match interface_counters(n, name) {
            Some(c) => {
                out.push(NetworkEntry { interface_name: name.clone(), received: c.0, transmitted: c.1 });
            },
            None => {},
        }
        i = i + 1;
    }
    proof {
        assert(names_of(out@) =~= keys);
        keys.unique_seq_to_set();
        assert forall|j: int| 0 <= j < out@.len() implies #[trigger] interfaces_of(*n)[out@[j].interface_name@]
            == (out@[j].received, out@[j].transmitted) by {
            assert(out@[j].interface_name@ == keys[j]);
        }
    }
    out
}

/// Enumerates the host's interfaces afresh and lists them.
pub fn network_report() -> (r: Vec<NetworkEntry>)
    ensures
        exists|n: sysinfo::Networks| lists_interfaces(r@, interfaces_of(n)),
{
    let n = sysinfo::Networks::new_with_refreshed_list();
    collect_interfaces(&n)
}

} // verus!
