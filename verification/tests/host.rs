use vm_agent::agent::payload::{capabilities_json, device_metadata_json};
use vm_agent::clock::Duration;
use vm_agent::config::agent::AgentConfig;
use vm_agent::config::app::{AppEnvironment, AppSection};
use vm_agent::config::grpc::GrpcConfig;
use vm_agent::config::runtime::RuntimeConfig;
use vm_agent::config::worker::WorkerConfig;
use vm_agent::config::{AppConfig, LogConfig};
use vm_agent::model::host::NetworkInterface;
use vm_agent::service::host::{
    choose_private_ip, collect_host_facts, discover_disk_model, discover_hostname,
    discover_ram_model, discover_storage_pools, host_registration_from_facts, mount_candidates,
    network_interface_from, parse_cpu_model, parse_cpu_specs, parse_disk_bytes, parse_gpu_model,
    parse_interface_address, parse_memory_bytes, round_to_physical_ram, storage_pool_of,
    DiskProbe, HostProbe, MountCandidate,
};

const GIB: i64 = 1024 * 1024 * 1024;

fn app_config() -> AppConfig {
    AppConfig {
        app: AppSection {
            name: "agent".to_string(),
            environment: AppEnvironment::Prod,
            node_id: "node-1".to_string(),
            zone_id: "zone-a".to_string(),
            shutdown_timeout: Duration::from_secs(15),
        },
        agent: AgentConfig {
            enabled: true,
            bootstrap_target_addr: "https://cp.example:9443".to_string(),
            runtime_target_addr: String::new(),
            runtime_target_state_path: "/tmp/runtime-target".to_string(),
            server_name: String::new(),
            ca_path: "/tmp/ca.crt".to_string(),
            cert_path: "/tmp/client.crt".to_string(),
            key_path: "/tmp/client.key".to_string(),
            bootstrap_token: "bootstrap".to_string(),
            heartbeat_interval: Duration::from_secs(10),
            telemetry_interval: Duration::from_secs(15),
            connect_timeout: Duration::from_secs(3),
            failover_base_backoff: Duration::from_millis(200),
            failover_max_backoff: Duration::from_millis(3000),
            version: "9.9.9".to_string(),
            command_ledger_path: "/tmp/ledger.db".to_string(),
        },
        grpc: GrpcConfig { bind_addr: "0.0.0.0:8081".to_string() },
        runtime: RuntimeConfig { driver: "kvm".to_string(), redis_url: "redis://x".to_string() },
        worker: WorkerConfig { max_workers: 4 },
        log: LogConfig {
            level: "INFO".to_string(),
            format: "json".to_string(),
            service: "agent".to_string(),
            environment: "prod".to_string(),
            host_id: "node-1".to_string(),
        },
    }
}

fn iface(name: &str, ipv4: &str) -> NetworkInterface {
    NetworkInterface {
        name: name.to_string(),
        mac_address: String::new(),
        ipv4_address: ipv4.to_string(),
        ipv6_address: String::new(),
        speed_mbps: 0,
        status: "up".to_string(),
    }
}

#[test]
fn memory_rounds_up_to_module_sizes() {
    assert_eq!(round_to_physical_ram(0), GIB);
    assert_eq!(round_to_physical_ram(GIB), GIB);
    assert_eq!(round_to_physical_ram(GIB + 1), 2 * GIB);
    assert_eq!(round_to_physical_ram(7 * GIB + GIB / 2), 8 * GIB);
    assert_eq!(round_to_physical_ram(10 * GIB), 12 * GIB);
    assert_eq!(round_to_physical_ram(20 * GIB), 24 * GIB);
    assert_eq!(round_to_physical_ram(100 * GIB), 128 * GIB);
    assert_eq!(round_to_physical_ram(200 * GIB + 1), 201 * GIB);
    assert_eq!(round_to_physical_ram(i64::MAX), i64::MAX);
}

#[test]
fn meminfo_total_is_rounded() {
    let meminfo = "MemFree:  100 kB\nMemTotal:       16303428 kB\nMemTotal: 1 kB\n";
    assert_eq!(parse_memory_bytes(meminfo), Some(16 * GIB));
    assert_eq!(parse_memory_bytes("MemTotal: lots kB\n"), None);
    assert_eq!(parse_memory_bytes("nothing here\n"), None);
    assert_eq!(discover_ram_model(), "Standard Memory Module");
}

#[test]
fn cpuinfo_counts_and_model() {
    let cpuinfo = "processor\t: 0\nmodel name\t: Intel(R) Xeon(R) Gold\ncpu cores\t: 4\n\nprocessor\t: 1\ncpu cores\t: 4\n";
    assert_eq!(parse_cpu_specs(cpuinfo), (4, 2));
    assert_eq!(parse_cpu_specs("processor : 0\nprocessor : 1\nprocessor : 2\n"), (3, 3));
    assert_eq!(parse_cpu_specs(""), (0, 0));
    assert_eq!(parse_cpu_model(cpuinfo), "Intel(R) Xeon(R) Gold");
    assert_eq!(parse_cpu_model("processor : 0\n"), "Unknown CPU");
}

#[test]
fn gpu_model_from_lspci() {
    let lspci = "00:1f.3 Audio device: Intel\n01:00.0 VGA compatible controller: NVIDIA Corporation GA102\n";
    assert_eq!(
        parse_gpu_model(Some(lspci)),
        "00.0 VGA compatible controller: NVIDIA Corporation GA102"
    );
    assert_eq!(parse_gpu_model(Some("00:1f.3 Audio device: Intel\n")), "Internal Graphics");
    assert_eq!(parse_gpu_model(None), "Internal Graphics");
}

#[test]
fn root_disk_size_from_df() {
    let df = "Filesystem 1B-blocks Used Available Use% Mounted on\n/dev/sda1 53687091200 1000 2000 1% /\n";
    assert_eq!(parse_disk_bytes(df), Some(50 * GIB));
    assert_eq!(parse_disk_bytes("header only\n"), None);
    assert_eq!(parse_disk_bytes("h\nx\n"), None);
}

#[test]
fn interface_addresses_from_ip() {
    let out = "2: eth0: <BROADCAST> mtu 1500\n    link/ether aa:bb\n    inet 10.0.0.5/24 brd 10.0.0.255 scope global eth0\n";
    assert_eq!(parse_interface_address(Some(out)), "10.0.0.5");
    let out6 = "    inet6 fe80::1/64 scope link\n";
    assert_eq!(parse_interface_address(Some(out6)), "fe80::1");
    assert_eq!(parse_interface_address(Some("no address\n")), "");
    assert_eq!(parse_interface_address(None), "");
}

#[test]
fn network_interface_from_sysfs() {
    let i = network_interface_from(
        "eth0".to_string(),
        Some("aa:bb:cc:dd:ee:ff\n"),
        Some("up\n"),
        Some("-1\n"),
        Some("    inet 10.0.0.5/24 scope global\n"),
        None,
    );
    assert_eq!(i.name, "eth0");
    assert_eq!(i.mac_address, "aa:bb:cc:dd:ee:ff");
    assert_eq!(i.status, "up");
    assert_eq!(i.speed_mbps, 0);
    assert_eq!(i.ipv4_address, "10.0.0.5");
    assert_eq!(i.ipv6_address, "");
    let j = network_interface_from("eth1".to_string(), None, None, Some("1000"), None, None);
    assert_eq!(j.status, "unknown");
    assert_eq!(j.speed_mbps, 1000);
    assert_eq!(j.mac_address, "");
}

#[test]
fn mounts_that_can_hold_pools() {
    let mounts = "/dev/sda1 / ext4 rw 0 0\nproc /proc proc rw 0 0\n/dev/nvme0n1p2 /var/lib/vms xfs rw 0 0\n/dev/sdb1 /data vfat rw 0 0\n/dev/mapper/vg-data //srv/pool btrfs rw 0 0\n";
    let c = mount_candidates(mounts);
    assert_eq!(c.len(), 3);
    assert_eq!(c[0].name, "root");
    assert_eq!(c[0].device, "/dev/sda1");
    assert_eq!(c[1].name, "var-lib-vms");
    assert_eq!(c[1].path, "/var/lib/vms");
    assert_eq!(c[2].name, "srv-pool");
}

#[test]
fn storage_pools_from_df() {
    let m = MountCandidate {
        device: "/dev/sda1".to_string(),
        path: "/".to_string(),
        name: "root".to_string(),
    };
    let df = "Filesystem 1B-blocks Used Available Use% Mounted on\n/dev/sda1 1000 400 600 40% /\n";
    let pool = storage_pool_of(&m, Some(df)).unwrap();
    assert_eq!(pool.name, "root");
    assert_eq!(pool.driver, "dir");
    assert_eq!(pool.total_bytes, 1000);
    assert_eq!(pool.used_bytes, 400);
    assert_eq!(pool.status, "active");
    assert_eq!(pool.metadata_json, r#"{"device":"/dev/sda1"}"#);
    assert!(storage_pool_of(&m, None).is_none());
    assert!(storage_pool_of(&m, Some("h\n/dev/sda1 0 0 0 0% /\n")).is_none());
    let wrapped = "Filesystem 1B-blocks Used Available Use% Mounted on\n/dev/mapper/very-long-name\n 2000 500 1500 25% /srv\n";
    let p = storage_pool_of(&m, Some(wrapped)).unwrap();
    assert_eq!(p.total_bytes, 2000);
    assert_eq!(p.used_bytes, 500);
    let cut = "Filesystem 1B-blocks Used Available Use% Mounted on\n/dev/mapper/very-long-name\n 2000\n";
    assert!(storage_pool_of(&m, Some(cut)).is_none());
    let m2 = MountCandidate { device: "/dev/sdb1".to_string(), path: "/data".to_string(), name: "data".to_string() };
    let pools = discover_storage_pools(
        &vec![m.clone(), m2],
        &vec![Some(df.to_string()), None],
    );
    assert_eq!(pools.len(), 1);
    assert_eq!(pools[0].name, "root");
}

#[test]
fn disk_model_prefers_block_model_of_disks() {
    let probes = vec![
        DiskProbe { name: "loop0".to_string(), block_model: Some("Loop".to_string()), class_model: None },
        DiskProbe { name: "sda".to_string(), block_model: Some("  ".to_string()), class_model: Some(" Samsung SSD \n".to_string()) },
        DiskProbe { name: "nvme0n1".to_string(), block_model: Some("WD".to_string()), class_model: None },
    ];
    assert_eq!(discover_disk_model(&probes), "Samsung SSD");
    assert_eq!(discover_disk_model(&Vec::new()), "Generic System Disk");
}

#[test]
fn private_ip_and_hostname() {
    let ifaces = vec![iface("lo", "127.0.0.1"), iface("eth0", ""), iface("eth1", "10.1.2.3")];
    assert_eq!(choose_private_ip(&ifaces, Some("192.168.0.9".to_string())), "10.1.2.3");
    assert_eq!(choose_private_ip(&vec![iface("lo", "127.0.0.1")], Some("192.168.0.9".to_string())), "192.168.0.9");
    assert_eq!(choose_private_ip(&Vec::new(), None), "127.0.0.1");
    assert_eq!(discover_hostname(Some(" host-a "), Some("host-b")).as_deref(), Some("host-a"));
    assert_eq!(discover_hostname(Some("  "), Some("host-b\n")).as_deref(), Some("host-b"));
    assert_eq!(discover_hostname(None, Some(" ")), None);
}

#[test]
fn host_facts_from_probes() {
    let cfg = app_config();
    let probe = HostProbe {
        hostname: Some("node-host".to_string()),
        network_interfaces: vec![iface("eth0", "10.0.0.7")],
        route_ip: None,
        cpuinfo: Some("processor : 0\nmodel name : Test CPU\ncpu cores : 1\n".to_string()),
        meminfo: Some("MemTotal: 8000000 kB\n".to_string()),
        root_df: Some("h\n/dev/sda1 53687091200 1 2 3% /\n".to_string()),
        lspci: None,
    };
    let facts = collect_host_facts(&cfg, probe);
    assert_eq!(facts.agent_id, "node-1");
    assert_eq!(facts.host_id, "node-1");
    assert_eq!(facts.hostname, "node-host");
    assert_eq!(facts.private_ip, "10.0.0.7");
    assert_eq!(facts.hypervisor_type, "kvm");
    assert_eq!(facts.agent_version, "9.9.9");
    assert_eq!(facts.capabilities_json, r#"{"heartbeat":true,"mtls":true}"#);
    assert_eq!((facts.cpu_cores, facts.cpu_threads), (1, 1));
    assert_eq!(facts.memory_bytes, 8 * GIB);
    assert_eq!(facts.disk_bytes, 50 * GIB);
    assert_eq!(facts.cpu_packages[0].model, "Test CPU");
    assert_eq!(facts.memory_modules[0].size_gib, 8);
    assert_eq!(facts.gpu_devices[0].model, "Internal Graphics");
    let reg = host_registration_from_facts(&facts);
    assert_eq!(reg.agent_id, "node-1");
    assert_eq!(reg.hostname, "node-host");
    assert_eq!(reg.capabilities_json, facts.capabilities_json);
}

#[test]
fn json_texts_of_the_library() {
    assert_eq!(device_metadata_json("/dev/sdb"), r#"{"device":"/dev/sdb"}"#);
    assert_eq!(capabilities_json(), r#"{"heartbeat":true,"mtls":true}"#);
}
