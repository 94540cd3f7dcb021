//! The host identity report: seven strings, each always present.
use vstd::prelude::*;

use crate::snapshot_specs::{duration_text, format_seconds};

verus! {

/// OS and host identity, and uptime as text.
pub struct HostInfo {
    pub name: String,
    pub kernel_version: String,
    pub os_version: String,
    pub long_os_version: String,
    pub distribution_id: String,
    pub host_name: String,
    pub uptime: String,
}

/// The text that stands for a value the host does not report.
pub open spec fn unknown_text() -> Seq<char> {
    seq!['<', 'u', 'n', 'k', 'n', 'o', 'w', 'n', '>']
}

/// The reported value, or the placeholder when there is none.
pub open spec fn or_unknown(o: Option<String>) -> Seq<char> {
    match o {
        Some(s) => s@,
        None => unknown_text(),
    }
}

/// An uptime as seconds: the raw count where it fits an `i64`, else zero.
pub open spec fn clamped(raw: u64) -> u64 {
    if raw <= i64::MAX as u64 {
        raw
    } else {
        0
    }
}

/// The reported value, or the placeholder `<unknown>`.
pub fn value_or_unknown(o: Option<String>) -> (r: String)
    ensures
        r@ == or_unknown(o),
{
    match o {
        Some(s) => s,
        None => {
            let u = String::from_str("<unknown>");
            proof {
                reveal_strlit("<unknown>");
            }
            u
        },
    }
}

/// Clamps a raw uptime: a count that would be negative as an `i64` becomes zero.
pub fn clamp_uptime(raw: u64) -> (r: u64)
    ensures
        r == clamped(raw),
{
    if raw <= i64::MAX as u64 {
        raw
    } else {
        0
    }
}

/// The uptime text for a raw count of seconds, after clamping.
pub fn format_uptime(raw: u64) -> (r: String)
    ensures
        r@ == duration_text(clamped(raw)),
{
    format_seconds(clamp_uptime(raw))
}

impl HostInfo {
    /// Puts the report together: each optional field is the reported value or the
    /// placeholder, so every field is present whatever the host reports.
    pub fn from_parts(
        name: Option<String>,
        kernel_version: Option<String>,
        os_version: Option<String>,
        long_os_version: Option<String>,
        distribution_id: String,
        host_name: Option<String>,
        uptime: String,
    ) -> (r: HostInfo)
        ensures
            r.name@ == or_unknown(name),
            r.kernel_version@ == or_unknown(kernel_version),
            r.os_version@ == or_unknown(os_version),
            r.long_os_version@ == or_unknown(long_os_version),
            r.distribution_id@ == distribution_id@,
            r.host_name@ == or_unknown(host_name),
            r.uptime@ == uptime@,
    {
        HostInfo {
            name: value_or_unknown(name),
            kernel_version: value_or_unknown(kernel_version),
            os_version: value_or_unknown(os_version),
            long_os_version: value_or_unknown(long_os_version),
            distribution_id,
            host_name: value_or_unknown(host_name),
            uptime,
        }
    }
}

/// Reads the host's identity and uptime; this does not touch the shared snapshot.
pub fn host_info() -> (r: HostInfo)
    ensures
        exists|raw: u64| r.uptime@ == duration_text(clamped(raw)),
{
    let uptime = format_uptime(sysinfo::System::uptime());
    HostInfo::from_parts(
        sysinfo::System::name(),
        sysinfo::System::kernel_version(),
        sysinfo::System::os_version(),
        sysinfo::System::long_os_version(),
        sysinfo::System::distribution_id(),
        sysinfo::System::host_name(),
        uptime,
    )
}

} // verus!
