use vm_agent::agent::frames::now_timestamp;
use vm_agent::agent::telemetry::{
    build_snapshot, cpu_busy_ticks, io_delta, parse_cpu_stats, parse_io_counters, vm_names,
    vm_power_state, vm_sample, vm_uuid, CpuStats, IoCounters, IoRates,
};
use vm_agent::model::host::HostFacts;

fn host_facts() -> HostFacts {
    HostFacts {
        agent_id: "agent-1".to_string(),
        host_id: "node-1".to_string(),
        hostname: "node-1".to_string(),
        private_ip: "127.0.0.1".to_string(),
        hypervisor_type: "kvm".to_string(),
        agent_version: "test".to_string(),
        capabilities_json: "{}".to_string(),
        cpu_cores: 4,
        cpu_threads: 4,
        memory_bytes: 8 * 1024 * 1024 * 1024,
        disk_bytes: 50 * 1024 * 1024 * 1024,
        gpu_cores: 0,
        gpu_memory_gib: 0,
        cpu_packages: Vec::new(),
        memory_modules: Vec::new(),
        gpu_devices: Vec::new(),
        network_interfaces: Vec::new(),
    }
}

fn no_rates() -> IoRates {
    IoRates { network_rx_bps: 0, network_tx_bps: 0, disk_read_bps: 0, disk_write_bps: 0 }
}

#[test]
fn telemetry_build_snapshot_has_required_identity() {
    let facts = host_facts();
    let snapshot = build_snapshot(&facts, "zone-a", now_timestamp(), no_rates(), 0, 0);
    assert_eq!(snapshot.schema_version, 1);
    assert_eq!(snapshot.zone, "zone-a");
    assert_eq!(snapshot.node_id, "node-1");
    assert_eq!(snapshot.agent_id, "agent-1");
    assert!(snapshot.collected_at.is_some());
    assert!(snapshot.node.is_some());
}

#[test]
fn snapshot_node_counters() {
    let mut facts = host_facts();
    let rates = IoRates { network_rx_bps: 10, network_tx_bps: 20, disk_read_bps: 30, disk_write_bps: 40 };
    let snapshot = build_snapshot(&facts, "  zone-b ", now_timestamp(), rates, 1234, 3);
    assert_eq!(snapshot.zone, "zone-b");
    let node = snapshot.node.unwrap();
    assert_eq!(node.network_rx_bps, 10);
    assert_eq!(node.disk_write_bps, 40);
    assert_eq!(node.filesystem_used_bytes, 1234);
    assert_eq!(node.filesystem_total_bytes, 50 * 1024 * 1024 * 1024);
    assert_eq!(node.vm_count, 3);
    assert!(node.agent_healthy);
    facts.disk_bytes = -5;
    let snapshot = build_snapshot(&facts, "z", now_timestamp(), rates, 0, 0);
    assert_eq!(snapshot.node.unwrap().filesystem_total_bytes, 0);
}

#[test]
fn cpu_stats_sum_every_counter_of_the_first_line() {
    let stat = "cpu  10 20 30 400 5 6 7 8\ncpu0 1 2 3 4 5\n";
    let s = parse_cpu_stats(stat).unwrap();
    assert_eq!(s.total, 486);
    assert_eq!(s.idle, 400);
    assert_eq!(parse_cpu_stats("").unwrap_err(), "empty /proc/stat");
    assert_eq!(parse_cpu_stats("cpu 1 2 3\n").unwrap_err(), "invalid /proc/stat format");
    let s = parse_cpu_stats("cpu x 2 3 y\n").unwrap();
    assert_eq!(s.total, 5);
    assert_eq!(s.idle, 0);
}

#[test]
fn cpu_busy_ticks_between_samples() {
    let prev = CpuStats { total: 1000, idle: 800 };
    let curr = CpuStats { total: 1100, idle: 850 };
    assert_eq!(cpu_busy_ticks(&prev, &curr), Some((50, 100)));
    assert_eq!(cpu_busy_ticks(&curr, &curr), None);
    assert_eq!(cpu_busy_ticks(&curr, &prev), None);
}

#[test]
fn io_counters_from_proc_files() {
    let net = "Inter-|   Receive\n face |bytes packets\n  eth0: 100 1 0 0 0 0 0 0 200 2 0 0 0 0 0 0\n    lo: 5 1 0 0 0 0 0 0 7 1 0 0 0 0 0 0\n";
    let disk = "   8       0 sda 10 0 4 0 10 0 6 0 0 0 0\n   7       0 loop0 1 0 100 0 1 0 100 0 0 0 0\n 259 0 nvme0n1 1 0 1 0 1 0 1 0 0 0 0\n";
    let c = parse_io_counters(Some(net), Some(disk));
    assert_eq!(c.net_rx, 105);
    assert_eq!(c.net_tx, 207);
    assert_eq!(c.disk_read, 5 * 512);
    assert_eq!(c.disk_write, 7 * 512);
    let none = parse_io_counters(None, None);
    assert_eq!(none, IoCounters { net_rx: 0, net_tx: 0, disk_read: 0, disk_write: 0 });
    let d = io_delta(&c, &none);
    assert_eq!(d, none);
    let d = io_delta(&none, &c);
    assert_eq!(d, c);
}

#[test]
fn vm_listing_helpers() {
    let names = vm_names("vm-a\n\n  vm-b  \n \n");
    assert_eq!(names, vec!["vm-a".to_string(), "vm-b".to_string()]);
    assert_eq!(vm_uuid(Some(" 1234-abcd \n")).as_deref(), Some("1234-abcd"));
    assert_eq!(vm_uuid(Some("  ")), None);
    assert_eq!(vm_uuid(None), None);
    assert_eq!(vm_power_state(Some("Running\n")), "running");
    assert_eq!(vm_power_state(Some(" ")), "unknown");
    assert_eq!(vm_power_state(None), "unknown");
}

#[test]
fn vm_samples_prefer_the_uuid() {
    let at = now_timestamp();
    let s = vm_sample(" node-1 ", " zone-a ", "vm-a", Some("uuid-1\n"), Some("Shut off\n"), at);
    assert_eq!(s.vm_id, "uuid-1");
    assert_eq!(s.node_id, "node-1");
    assert_eq!(s.zone, "zone-a");
    assert_eq!(s.power_state, "shut off");
    assert_eq!(s.sampled_at, Some(at));
    let s = vm_sample("n", "z", "vm-b", None, None, at);
    assert_eq!(s.vm_id, "vm-b");
    assert_eq!(s.power_state, "unknown");
}
