use sysmon::cpu::{cpu_report, CPUInfo, CpuReport};
use sysmon::host::{clamp_uptime, format_uptime, host_info, value_or_unknown, HostInfo};
use sysmon::memory::{memory_report, read_memory};
use sysmon::network::{collect_interfaces, network_report};
use sysmon::policy::{apply_refresh, refresh_scope, Endpoint, RefreshScope};
use sysmon::process::{collect_processes, process_report};
use sysmon::root::{root_response, STATUS_INTERNAL_ERROR, STATUS_OK};

#[test]
fn uptime_zero_renders_zero_seconds() {
    assert_eq!(format_uptime(0), "0s");
}

#[test]
fn uptime_hour_minute_second() {
    assert_eq!(format_uptime(3661), "1h 1m 1s");
}

#[test]
fn uptime_text_is_not_the_raw_count() {
    assert_ne!(format_uptime(3661), "3661");
    assert_eq!(format_uptime(59), "59s");
}

#[test]
fn uptime_beyond_i64_is_clamped_to_zero() {
    assert_eq!(clamp_uptime(u64::MAX), 0);
    assert_eq!(clamp_uptime(i64::MAX as u64 + 1), 0);
    assert_eq!(clamp_uptime(i64::MAX as u64), i64::MAX as u64);
    assert_eq!(clamp_uptime(42), 42);
    assert_eq!(format_uptime(u64::MAX), "0s");
}

#[test]
fn missing_host_fields_become_placeholder() {
    let h = HostInfo::from_parts(None, None, None, None, String::new(), None, "0s".to_string());
    assert_eq!(h.name, "<unknown>");
    assert_eq!(h.kernel_version, "<unknown>");
    assert_eq!(h.os_version, "<unknown>");
    assert_eq!(h.long_os_version, "<unknown>");
    assert_eq!(h.distribution_id, "");
    assert_eq!(h.host_name, "<unknown>");
    assert_eq!(h.uptime, "0s");
}

#[test]
fn reported_host_fields_are_kept() {
    let h = HostInfo::from_parts(
        Some("Linux".to_string()),
        Some("6.1.0".to_string()),
        Some("12".to_string()),
        Some("Linux 12 Debian".to_string()),
        "debian".to_string(),
        Some("box".to_string()),
        format_uptime(3661),
    );
    assert_eq!(h.name, "Linux");
    assert_eq!(h.kernel_version, "6.1.0");
    assert_eq!(h.os_version, "12");
    assert_eq!(h.long_os_version, "Linux 12 Debian");
    assert_eq!(h.distribution_id, "debian");
    assert_eq!(h.host_name, "box");
    assert_eq!(h.uptime, "1h 1m 1s");
}

#[test]
fn value_or_unknown_cases() {
    assert_eq!(value_or_unknown(None), "<unknown>");
    assert_eq!(value_or_unknown(Some(String::new())), "");
    assert_eq!(value_or_unknown(Some("x".to_string())), "x");
}

#[test]
fn host_info_has_every_field() {
    let h = host_info();
    assert!(!h.name.is_empty());
    assert!(!h.kernel_version.is_empty());
    assert!(!h.os_version.is_empty());
    assert!(!h.long_os_version.is_empty());
    assert!(!h.host_name.is_empty());
    assert!(!h.uptime.is_empty());
}

#[test]
fn root_page_served_when_read() {
    let r = root_response(Some("<html></html>".to_string()));
    assert_eq!(r.status, STATUS_OK);
    assert_eq!(r.status, 200);
    assert_eq!(r.body, "<html></html>");
}

#[test]
fn root_page_missing_gives_500_empty() {
    let r = root_response(None);
    assert_eq!(r.status, STATUS_INTERNAL_ERROR);
    assert_eq!(r.status, 500);
    assert_eq!(r.body, "");
}

#[test]
fn refresh_scope_table() {
    assert_eq!(refresh_scope(Endpoint::Cpu), RefreshScope::CpuOnly);
    assert_eq!(refresh_scope(Endpoint::Memory), RefreshScope::MemoryOnly);
    assert_eq!(refresh_scope(Endpoint::SystemIdentity), RefreshScope::Nothing);
    assert_eq!(refresh_scope(Endpoint::Networks), RefreshScope::Nothing);
    assert_eq!(refresh_scope(Endpoint::Processes), RefreshScope::Full);
}

#[test]
fn cpu_info_from_brands() {
    let none = CPUInfo::from_brands(&Vec::new());
    assert_eq!(none.get_brand_name(), None);
    let two = CPUInfo::from_brands(&vec!["Acme X1".to_string(), "Acme X2".to_string()]);
    assert_eq!(two.get_brand_name(), Some("Acme X1".to_string()));
}

#[test]
fn cpu_info_new_matches_first_core() {
    let info = CPUInfo::new();
    let sys = sysinfo::System::new_all();
    let first = sys.cpus().first().map(|c| c.brand().to_string());
    assert_eq!(info.get_brand_name().is_some(), first.is_some());
}

#[test]
fn cpu_report_values_round_trip() {
    let r = CpuReport {
        cpu_usage_bits: vec![12.5f32.to_bits(), 87.0f32.to_bits()],
        load_average_bits: 1.25f64.to_bits(),
    };
    let usage: Vec<f32> = r.cpu_usage_bits.iter().map(|b| f32::from_bits(*b)).collect();
    assert_eq!(usage, vec![12.5f32, 87.0f32]);
    assert_eq!(f64::from_bits(r.load_average_bits), 1.25f64);
}

#[test]
fn cpu_report_has_one_entry_per_core() {
    let mut sys = sysinfo::System::new_all();
    let r = cpu_report(&mut sys);
    assert_eq!(r.cpu_usage_bits.len(), sys.cpus().len());
    for (b, c) in r.cpu_usage_bits.iter().zip(sys.cpus()) {
        assert_eq!(*b, c.cpu_usage().to_bits());
    }
}

#[test]
fn memory_report_reads_refreshed_state() {
    let mut sys = sysinfo::System::new_all();
    let r = memory_report(&mut sys);
    assert_eq!(r.total_memory, sys.total_memory());
    assert_eq!(r.used_memory, sys.used_memory());
    assert_eq!(r.free_memory, sys.free_memory());
    assert_eq!(r.available_memory, sys.available_memory());
    assert_eq!(r.total_swap, sys.total_swap());
    assert_eq!(r.used_swap, sys.used_swap());
    assert_eq!(r.free_swap, sys.free_swap());
}

#[test]
fn memory_read_twice_without_change_is_identical() {
    let mut sys = sysinfo::System::new_all();
    memory_report(&mut sys);
    let a = read_memory(&sys);
    let b = read_memory(&sys);
    assert_eq!(a, b);
}

#[test]
fn refresh_nothing_leaves_memory_as_is() {
    let mut sys = sysinfo::System::new_all();
    let before = read_memory(&sys);
    apply_refresh(&mut sys, RefreshScope::Nothing);
    assert_eq!(read_memory(&sys), before);
}

#[test]
fn process_report_lists_each_pid_once() {
    let mut sys = sysinfo::System::new_all();
    let r = process_report(&mut sys);
    assert_eq!(r.len(), sys.processes().len());
    let mut pids: Vec<u32> = r.iter().map(|p| p.pid).collect();
    pids.sort();
    pids.dedup();
    assert_eq!(pids.len(), r.len());
}

#[test]
fn collected_process_fields_match_table() {
    let sys = sysinfo::System::new_all();
    let r = collect_processes(&sys);
    for rec in &r {
        let p = sys.process(sysinfo::Pid::from_u32(rec.pid)).unwrap();
        assert_eq!(rec.memory, p.memory());
        assert_eq!(rec.virtual_memory, p.virtual_memory());
        assert_eq!(rec.run_time, p.run_time());
        assert_eq!(rec.name, p.name().to_string_lossy());
        assert_eq!(rec.status, format!("{:?}", p.status()));
    }
}

#[test]
fn no_interfaces_gives_empty_list() {
    let n = sysinfo::Networks::new();
    assert!(collect_interfaces(&n).is_empty());
}

#[test]
fn interfaces_listed_once_each() {
    let n = sysinfo::Networks::new_with_refreshed_list();
    let r = collect_interfaces(&n);
    assert_eq!(r.len(), n.list().len());
    for e in &r {
        let d = n.list().get(&e.interface_name).unwrap();
        assert_eq!(e.received, d.total_received());
        assert_eq!(e.transmitted, d.total_transmitted());
    }
    let fresh = network_report();
    let mut names: Vec<String> = fresh.iter().map(|e| e.interface_name.clone()).collect();
    names.sort();
    names.dedup();
    assert_eq!(names.len(), fresh.len());
}
