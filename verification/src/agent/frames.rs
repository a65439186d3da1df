use vstd::prelude::*;

use crate::clock::{since_unix_epoch, system_now};
use crate::model::host::{HostFacts, HostRegistration, NetworkInterface, StoragePool};
use crate::text::str_to_string;

verus! {

/// A point in time as seconds and nanoseconds since the Unix epoch.
#[derive(Clone, Copy, Debug, PartialEq, Eq, Structural)]
pub struct Timestamp {
    pub seconds: i64,
    pub nanos: i32,
}

/// The timestamp of a clock reading `secs` seconds and `nanos` nanoseconds
/// past the epoch; the seconds are reinterpreted as `i64` (wrapping past
/// `i64::MAX`).
pub fn timestamp_from_parts(secs: u64, nanos: u32) -> (t: Timestamp)
    requires
        nanos < 1_000_000_000,
    ensures
        t.seconds == secs as i64,
        t.nanos == nanos,
{
    Timestamp { seconds: secs as i64, nanos: nanos as i32 }
}

/// The timestamp of a system time; a time before the epoch reads as the
/// epoch.
pub fn system_time_to_timestamp(t: std::time::SystemTime) -> (r: Timestamp)
    ensures
        0 <= r.nanos < 1_000_000_000,
{
    let (secs, nanos) = since_unix_epoch(t);
    timestamp_from_parts(secs, nanos)
}

/// The timestamp of now.
pub fn now_timestamp() -> (t: Timestamp)
    ensures
        0 <= t.nanos < 1_000_000_000,
{
    system_time_to_timestamp(system_now())
}

/// The host's registration as sent when a session opens.
#[derive(Clone, Debug)]
pub struct RegisterHost {
    pub agent_id: String,
    pub host_id: String,
    pub hostname: String,
    pub private_ip: String,
    pub hypervisor_type: String,
    pub agent_version: String,
    pub capabilities_json: String,
    pub cpu_cores: i32,
    pub cpu_threads: i32,
    pub memory_bytes: i64,
    pub disk_bytes: i64,
    pub gpu_cores: i32,
    pub gpu_memory_gib: i64,
}

#[derive(Clone, Debug)]
pub struct AgentHeartbeat {
    pub agent_id: String,
    pub host_id: String,
    pub status: String,
    pub last_seen_at: Option<Timestamp>,
}

#[derive(Clone, Debug)]
pub struct AgentCommandResult {
    pub agent_id: String,
    pub host_id: String,
    pub command_id: String,
    pub status: String,
    pub result_json: String,
    pub error_message: String,
    pub completed_at: Option<Timestamp>,
}

#[derive(Clone, Debug)]
pub struct NetworkInterfaceInventory {
    pub name: String,
    pub mac_address: String,
    pub ipv4_address: String,
    pub ipv6_address: String,
    pub speed_mbps: i32,
    pub status: String,
    pub metadata_json: String,
}

#[derive(Clone, Debug)]
pub struct StoragePoolInventory {
    pub name: String,
    pub driver: String,
    pub path: String,
    pub total_bytes: i64,
    pub used_bytes: i64,
    pub status: String,
    pub metadata_json: String,
}

#[derive(Clone, Debug)]
pub struct HostInventory {
    pub agent_id: String,
    pub host_id: String,
    pub storage_pools: Vec<StoragePoolInventory>,
    pub network_interfaces: Vec<NetworkInterfaceInventory>,
    pub collected_at: Option<Timestamp>,
}

/// What an agent frame carries.
#[derive(Clone, Debug)]
pub enum AgentMessage {
    RegisterHost(RegisterHost),
    Heartbeat(AgentHeartbeat),
    CommandResult(AgentCommandResult),
    HostInventory(HostInventory),
}

/// A frame of the agent's stream to the hypervisor control plane.
#[derive(Clone, Debug)]
pub struct AgentToHypervisor {
    pub stream_id: String,
    pub seq: u64,
    pub message: Option<AgentMessage>,
}

/// The registration frame of a session: the host's facts.
pub fn register_frame(facts: &HostFacts, stream_id: &str, seq: u64) -> (f: AgentToHypervisor)
    ensures
        f.stream_id@ == stream_id@,
        f.seq == seq,
        f.message matches Some(AgentMessage::RegisterHost(r)) && r.agent_id@ == facts.agent_id@
            && r.host_id@ == facts.host_id@ && r.hostname@ == facts.hostname@ && r.private_ip@
            == facts.private_ip@ && r.hypervisor_type@ == facts.hypervisor_type@
            && r.agent_version@ == facts.agent_version@ && r.capabilities_json@
            == facts.capabilities_json@ && r.cpu_cores == facts.cpu_cores && r.cpu_threads
            == facts.cpu_threads && r.memory_bytes == facts.memory_bytes && r.disk_bytes
            == facts.disk_bytes && r.gpu_cores == facts.gpu_cores && r.gpu_memory_gib
            == facts.gpu_memory_gib,
{
    AgentToHypervisor {
        stream_id: str_to_string(stream_id),
        seq,
        message: Some(
            AgentMessage::RegisterHost(
                RegisterHost {
                    agent_id: facts.agent_id.clone(),
                    host_id: facts.host_id.clone(),
                    hostname: facts.hostname.clone(),
                    private_ip: facts.private_ip.clone(),
                    hypervisor_type: facts.hypervisor_type.clone(),
                    agent_version: facts.agent_version.clone(),
                    capabilities_json: facts.capabilities_json.clone(),
                    cpu_cores: facts.cpu_cores,
                    cpu_threads: facts.cpu_threads,
                    memory_bytes: facts.memory_bytes,
                    disk_bytes: facts.disk_bytes,
                    gpu_cores: facts.gpu_cores,
                    gpu_memory_gib: facts.gpu_memory_gib,
                },
            ),
        ),
    }
}

/// A heartbeat frame: the registered host reports itself online at
/// `last_seen_at`.
pub fn heartbeat_frame(
    registration: &HostRegistration,
    stream_id: &str,
    seq: u64,
    last_seen_at: Timestamp,
) -> (f: AgentToHypervisor)
    ensures
        f.stream_id@ == stream_id@,
        f.seq == seq,
        f.message matches Some(AgentMessage::Heartbeat(h)) && h.agent_id@ == registration.agent_id@
            && h.host_id@ == registration.host_id@ && h.status@ == "online"@ && h.last_seen_at
            == Some(last_seen_at),
{
    AgentToHypervisor {
        stream_id: str_to_string(stream_id),
        seq,
        message: Some(
            AgentMessage::Heartbeat(
                AgentHeartbeat {
                    agent_id: registration.agent_id.clone(),
                    host_id: registration.host_id.clone(),
                    status: str_to_string("online"),
                    last_seen_at: Some(last_seen_at),
                },
            ),
        ),
    }
}

pub open spec fn interface_listed(iface: NetworkInterface, inv: NetworkInterfaceInventory) -> bool {
    &&& inv.name@ == iface.name@
    &&& inv.mac_address@ == iface.mac_address@
    &&& inv.ipv4_address@ == iface.ipv4_address@
    &&& inv.ipv6_address@ == iface.ipv6_address@
    &&& inv.speed_mbps == iface.speed_mbps
    &&& inv.status@ == iface.status@
    &&& inv.metadata_json@ == "{}"@
}

pub open spec fn pool_listed(pool: StoragePool, inv: StoragePoolInventory) -> bool {
    &&& inv.name@ == pool.name@
    &&& inv.driver@ == pool.driver@
    &&& inv.path@ == pool.path@
    &&& inv.total_bytes == pool.total_bytes
    &&& inv.used_bytes == pool.used_bytes
    &&& inv.status@ == pool.status@
    &&& inv.metadata_json@ == pool.metadata_json@
}

/// The inventory frame: the host's network interfaces (with empty
/// metadata) and its storage pools, as collected at `collected_at`.
pub fn host_inventory_frame(
    facts: &HostFacts,
    stream_id: &str,
    seq: u64,
    storage_pools: &Vec<StoragePool>,
    collected_at: Timestamp,
) -> (f: AgentToHypervisor)
    ensures
        f.stream_id@ == stream_id@,
        f.seq == seq,
        f.message matches Some(AgentMessage::HostInventory(inv)) && inv.agent_id@
            == facts.agent_id@ && inv.host_id@ == facts.host_id@ && inv.collected_at == Some(
            collected_at,
        ) && inv.network_interfaces@.len() == facts.network_interfaces@.len() && (forall|i: int|
            0 <= i < facts.network_interfaces@.len() ==> interface_listed(
                #[trigger] facts.network_interfaces@[i],
                inv.network_interfaces@[i],
            )) && inv.storage_pools@.len() == storage_pools@.len() && (forall|i: int|
            0 <= i < storage_pools@.len() ==> pool_listed(
                #[trigger] storage_pools@[i],
                inv.storage_pools@[i],
            )),
{
    let mut interfaces: Vec<NetworkInterfaceInventory> = Vec::new();
    let mut i: usize = 0;
    while i < facts.network_interfaces.len()
        invariant
            i <= facts.network_interfaces.len(),
            interfaces@.len() == i,
            forall|k: int| 0 <= k < i ==> interface_listed(
                #[trigger] facts.network_interfaces@[k],
                interfaces@[k],
            ),
        decreases facts.network_interfaces.len() - i,
    {
        let iface = &facts.network_interfaces[i];
        interfaces.push(
            NetworkInterfaceInventory {
                name: iface.name.clone(),
                mac_address: iface.mac_address.clone(),
                ipv4_address: iface.ipv4_address.clone(),
                ipv6_address: iface.ipv6_address.clone(),
                speed_mbps: iface.speed_mbps,
                status: iface.status.clone(),
                metadata_json: str_to_string("{}"),
            },
        );
        i = i + 1;
    }
    let mut pools: Vec<StoragePoolInventory> = Vec::new();
    let mut j: usize = 0;
    while j < storage_pools.len()
        invariant
            j <= storage_pools.len(),
            pools@.len() == j,
            forall|k: int| 0 <= k < j ==> pool_listed(#[trigger] storage_pools@[k], pools@[k]),
        decreases storage_pools.len() - j,
    {
        let p = &storage_pools[j];
        pools.push(
            StoragePoolInventory {
                name: p.name.clone(),
                driver: p.driver.clone(),
                path: p.path.clone(),
                total_bytes: p.total_bytes,
                used_bytes: p.used_bytes,
                status: p.status.clone(),
                metadata_json: p.metadata_json.clone(),
            },
        );
        j = j + 1;
    }
    AgentToHypervisor {
        stream_id: str_to_string(stream_id),
        seq,
        message: Some(
            AgentMessage::HostInventory(
                HostInventory {
                    agent_id: facts.agent_id.clone(),
                    host_id: facts.host_id.clone(),
                    storage_pools: pools,
                    network_interfaces: interfaces,
                    collected_at: Some(collected_at),
                },
            ),
        ),
    }
}

} // verus!
