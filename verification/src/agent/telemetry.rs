use vstd::prelude::*;

use crate::agent::command_handler::{to_lowercase, unicode_lowercase};
use crate::agent::frames::Timestamp;
use crate::model::host::HostFacts;
use crate::text::{
    opt_str_view, opt_string_view, string_views,
    chars_of, fields_spec, has_prefix, is_blank, lines_spec, parse_u64_chars, parse_u64_spec,
    split_fields, split_lines, str_to_string, string_from_chars, trim_spec, trimmed_string,
    vec_has_prefix, vec_trim, views,
};

verus! {

/// `a + b` on `u64` as release builds compute it: wrapping around.
pub open spec fn wrap_add(a: u64, b: u64) -> u64 {
    if a + b > u64::MAX {
        (a + b - 0x1_0000_0000_0000_0000) as u64
    } else {
        (a + b) as u64
    }
}

fn wrapping_add(a: u64, b: u64) -> (r: u64)
    ensures
        r == wrap_add(a, b),
{
    if a > u64::MAX - b {
        b - (u64::MAX - a) - 1
    } else {
        a + b
    }
}

/// A field parsed as a counter; zero when it is not a number.
pub open spec fn counter(s: Seq<char>) -> u64 {
    match parse_u64_spec(s) {
        Some(v) => v,
        None => 0,
    }
}

fn counter_of(v: &Vec<char>) -> (r: u64)
    ensures
        r == counter(v@),
{
    match parse_u64_chars(v) {
        Some(x) => x,
        None => 0,
    }
}

/// Sectors to bytes: the low 64 bits of `sectors * 512`.
pub open spec fn sector_bytes(sectors: u64) -> u64 {
    ((sectors % 0x80_0000_0000_0000) * 512) as u64
}

fn sectors_to_bytes(sectors: u64) -> (r: u64)
    ensures
        r == sector_bytes(sectors),
{
    (sectors % 0x80_0000_0000_0000) * 512
}

/// Aggregate CPU time counters of `/proc/stat`.
#[derive(Clone, Copy, Debug, PartialEq, Eq, Structural)]
pub struct CpuStats {
    pub total: u64,
    pub idle: u64,
}

/// The (wrapping) sum of the counters of `fields`.
pub open spec fn counters_sum(fields: Seq<Seq<char>>) -> u64
    decreases fields.len(),
{
    if fields.len() == 0 {
        0
    } else {
        wrap_add(counters_sum(fields.drop_last()), counter(fields.last()))
    }
}

/// The CPU counters of the first line of `/proc/stat`: the sum of every
/// counter after the label, and the fourth one (idle).
pub open spec fn cpu_stats_spec(stat: Seq<char>) -> Result<CpuStats, Seq<char>> {
    let lines = lines_spec(stat);
    if lines.len() == 0 {
        Err("empty /proc/stat"@)
    } else {
        let parts = fields_spec(lines[0]);
        if parts.len() < 5 {
            Err("invalid /proc/stat format"@)
        } else {
            Ok(
                CpuStats {
                    total: counters_sum(parts.subrange(1, parts.len() as int)),
                    idle: counter(parts[4]),
                },
            )
        }
    }
}

pub fn parse_cpu_stats(stat: &str) -> (r: Result<CpuStats, String>)
    ensures
        match r {
            Ok(s) => cpu_stats_spec(stat@) == Ok::<CpuStats, Seq<char>>(s),
            Err(e) => cpu_stats_spec(stat@) == Err::<CpuStats, Seq<char>>(e@),
        },
{
    let text = chars_of(stat);
    let lines = split_lines(&text);
    if lines.len() == 0 {
        return Err(str_to_string("empty /proc/stat"));
    }
    assert(views(lines@)[0] == lines@[0]@);
    let parts = split_fields(&lines[0]);
    if parts.len() < 5 {
        return Err(str_to_string("invalid /proc/stat format"));
    }
    let ghost ps = views(parts@);
    let mut total: u64 = 0;
    let mut i: usize = 1;
    while i < parts.len()
        invariant
            1 <= i <= parts.len(),
            ps == views(parts@),
            total == counters_sum(ps.subrange(1, i as int)),
        decreases parts.len() - i,
    {
        assert(ps.subrange(1, i + 1).drop_last() =~= ps.subrange(1, i as int));
        assert(ps.subrange(1, i + 1).last() == parts@[i as int]@);
        total = wrapping_add(total, counter_of(&parts[i]));
        i = i + 1;
    }
    assert(ps[4] == parts@[4]@);
    Ok(CpuStats { total, idle: counter_of(&parts[4]) })
}

/// The CPU time between two samples: `(busy, total)` ticks, `None` when no
/// time passed.
pub open spec fn cpu_busy_spec(prev: CpuStats, curr: CpuStats) -> Option<(u64, u64)> {
    let total = if curr.total >= prev.total {
        (curr.total - prev.total) as u64
    } else {
        0
    };
    let idle = if curr.idle >= prev.idle {
        (curr.idle - prev.idle) as u64
    } else {
        0
    };
    if total == 0 {
        None
    } else {
        Some((
            if total >= idle {
                (total - idle) as u64
            } else {
                0
            },
            total,
        ))
    }
}

pub fn cpu_busy_ticks(prev: &CpuStats, curr: &CpuStats) -> (r: Option<(u64, u64)>)
    ensures
        r == cpu_busy_spec(*prev, *curr),
{
    let total = curr.total.saturating_sub(prev.total);
    let idle = curr.idle.saturating_sub(prev.idle);
    if total == 0 {
        return None;
    }
    Some((total.saturating_sub(idle), total))
}

/// Network and disk byte counters of the host.
#[derive(Clone, Copy, Debug, PartialEq, Eq, Structural)]
pub struct IoCounters {
    pub net_rx: u64,
    pub net_tx: u64,
    pub disk_read: u64,
    pub disk_write: u64,
}

/// Received and sent bytes over the interface lines of `/proc/net/dev`
/// (every line after the two header lines with more than nine fields).
pub open spec fn net_totals(lines: Seq<Seq<char>>) -> (u64, u64)
    decreases lines.len(),
{
    if lines.len() == 0 {
        (0, 0)
    } else {
        let (rx, tx) = net_totals(lines.drop_last());
        let p = fields_spec(lines.last());
        if p.len() > 9 {
            (wrap_add(rx, counter(p[1])), wrap_add(tx, counter(p[9])))
        } else {
            (rx, tx)
        }
    }
}

pub open spec fn is_disk_device(name: Seq<char>) -> bool {
    has_prefix(name, "sd"@) || has_prefix(name, "nvme"@) || has_prefix(name, "vd"@)
}

/// Read and written bytes over the disk lines of `/proc/diskstats`
/// (devices `sd*`, `nvme*`, `vd*`; sectors of 512 bytes).
pub open spec fn disk_totals(lines: Seq<Seq<char>>) -> (u64, u64)
    decreases lines.len(),
{
    if lines.len() == 0 {
        (0, 0)
    } else {
        let (rd, wr) = disk_totals(lines.drop_last());
        let p = fields_spec(lines.last());
        if p.len() > 9 && is_disk_device(p[2]) {
            (wrap_add(rd, sector_bytes(counter(p[5]))), wrap_add(wr, sector_bytes(counter(p[9]))))
        } else {
            (rd, wr)
        }
    }
}

/// A `/proc/diskstats` line with more than nine fields whose device name
/// starts with `sd`, `nvme` or `vd` adds 512 times its sixth and tenth
/// fields (sectors read and written) to the byte totals, modulo 2^64 as the
/// counters wrap; any other line adds nothing.
pub proof fn law_disk_lines_count_sd_nvme_vd(lines: Seq<Seq<char>>, line: Seq<char>)
    ensures
        ({
            let p = fields_spec(line);
            let before = disk_totals(lines);
            let after = disk_totals(lines.push(line));
            if p.len() > 9 && (has_prefix(p[2], "sd"@) || has_prefix(p[2], "nvme"@) || has_prefix(
                p[2],
                "vd"@,
            )) {
                &&& after.0 as int == (before.0 + 512 * counter(p[5])) % 0x1_0000_0000_0000_0000
                &&& after.1 as int == (before.1 + 512 * counter(p[9])) % 0x1_0000_0000_0000_0000
            } else {
                after == before
            }
        }),
{
    let l2 = lines.push(line);
    assert(l2.drop_last() =~= lines);
    let p = fields_spec(line);
    if p.len() > 9 {
        lemma_wrapped_sector_bytes(disk_totals(lines).0, counter(p[5]));
        lemma_wrapped_sector_bytes(disk_totals(lines).1, counter(p[9]));
    }
}

proof fn lemma_wrapped_sector_bytes(total: u64, sectors: u64)
    ensures
        wrap_add(total, sector_bytes(sectors)) as int == (total + 512 * sectors)
            % 0x1_0000_0000_0000_0000,
{
    let m = 0x1_0000_0000_0000_0000int;
    let k = 0x80_0000_0000_0000int;
    let n = sectors as int;
    let t = total as int;
    let b = (n % k) * 512;
    assert(0 <= b < m) by (nonlinear_arith)
        requires
            b == (n % k) * 512,
            k == 0x80_0000_0000_0000,
            m == 0x1_0000_0000_0000_0000,
    ;
    assert(sector_bytes(sectors) as int == b);
    assert(n == sectors && t == total);
    let q = n / k;
    assert(n == q * k + n % k && q >= 0) by (nonlinear_arith)
        requires
            q == n / k,
            k == 0x80_0000_0000_0000,
            n >= 0,
    ;
    assert(512 * n == q * m + b) by (nonlinear_arith)
        requires
            n == q * k + n % k,
            b == (n % k) * 512,
            k == 0x80_0000_0000_0000,
            m == 0x1_0000_0000_0000_0000,
    ;
    assert((t + b + q * m) % m == (t + b) % m) by {
        vstd::arithmetic::div_mod::lemma_mod_multiples_vanish(q, t + b, m);
    }
    assert(t + 512 * n == t + b + q * m);
    assert(0 <= total + b < 2 * m);
    if total + b >= m {
        assert((total + b) % m == total + b - m) by {
            vstd::arithmetic::div_mod::lemma_fundamental_div_mod_converse(total + b, m, 1, total + b - m);
        }
    } else {
        assert((total + b) % m == total + b) by {
            vstd::arithmetic::div_mod::lemma_small_mod((total + b) as nat, m as nat);
        }
    }
}

pub open spec fn skip_lines(lines: Seq<Seq<char>>, n: int) -> Seq<Seq<char>> {
    if lines.len() <= n {
        Seq::empty()
    } else {
        lines.subrange(n, lines.len() as int)
    }
}

/// The host's I/O counters from `/proc/net/dev` and `/proc/diskstats`
/// (`None` where unreadable, counted as nothing).
pub open spec fn io_counters_spec(net_dev: Option<Seq<char>>, diskstats: Option<Seq<char>>) -> IoCounters {
    let (rx, tx) = match net_dev {
        Some(t) => net_totals(skip_lines(lines_spec(t), 2)),
        None => (0u64, 0u64),
    };
    let (rd, wr) = match diskstats {
        Some(t) => disk_totals(lines_spec(t)),
        None => (0u64, 0u64),
    };
    IoCounters { net_rx: rx, net_tx: tx, disk_read: rd, disk_write: wr }
}

fn net_totals_of(text: &str) -> (r: (u64, u64))
    ensures
        r == net_totals(skip_lines(lines_spec(text@), 2)),
{
    let chars = chars_of(text);
    let lines = split_lines(&chars);
    let ghost ls = views(lines@);
    let ghost body = skip_lines(ls, 2);
    let mut rx: u64 = 0;
    let mut tx: u64 = 0;
    if lines.len() <= 2 {
        return (0, 0);
    }
    let mut i: usize = 2;
    while i < lines.len()
        invariant
            2 <= i <= lines.len(),
            ls == views(lines@),
            body == ls.subrange(2, ls.len() as int),
            (rx, tx) == net_totals(ls.subrange(2, i as int)),
        decreases lines.len() - i,
    {
        assert(ls.subrange(2, i + 1).drop_last() =~= ls.subrange(2, i as int));
        assert(ls.subrange(2, i + 1).last() == lines@[i as int]@);
        let p = split_fields(&lines[i]);
        if p.len() > 9 {
            assert(views(p@)[1] == p@[1]@ && views(p@)[9] == p@[9]@);
            rx = wrapping_add(rx, counter_of(&p[1]));
            tx = wrapping_add(tx, counter_of(&p[9]));
        }
        i = i + 1;
    }
    assert(ls.subrange(2, ls.len() as int) =~= body);
    (rx, tx)
}

fn disk_totals_of(text: &str) -> (r: (u64, u64))
    ensures
        r == disk_totals(lines_spec(text@)),
{
    let chars = chars_of(text);
    let lines = split_lines(&chars);
    let ghost ls = views(lines@);
    let mut rd: u64 = 0;
    let mut wr: u64 = 0;
    let mut i: usize = 0;
    while i < lines.len()
        invariant
            i <= lines.len(),
            ls == views(lines@),
            (rd, wr) == disk_totals(ls.subrange(0, i as int)),
        decreases lines.len() - i,
    {
        assert(ls.subrange(0, i + 1).drop_last() =~= ls.subrange(0, i as int));
        assert(ls.subrange(0, i + 1).last() == lines@[i as int]@);
        let p = split_fields(&lines[i]);
        if p.len() > 9 {
            assert(views(p@)[2] == p@[2]@ && views(p@)[5] == p@[5]@ && views(p@)[9] == p@[9]@);
            let dev = &p[2];
            if vec_has_prefix(dev, "sd") || vec_has_prefix(dev, "nvme") || vec_has_prefix(dev, "vd") {
                rd = wrapping_add(rd, sectors_to_bytes(counter_of(&p[5])));
                wr = wrapping_add(wr, sectors_to_bytes(counter_of(&p[9])));
            }
        }
        i = i + 1;
    }
    assert(ls.subrange(0, ls.len() as int) =~= ls);
    (rd, wr)
}

pub fn parse_io_counters(net_dev: Option<&str>, diskstats: Option<&str>) -> (r: IoCounters)
    ensures
        r == io_counters_spec(opt_str_view(net_dev), opt_str_view(diskstats)),
{
    let (net_rx, net_tx) = match net_dev {
        Some(t) => net_totals_of(t),
        None => (0, 0),
    };
    let (disk_read, disk_write) = match diskstats {
        Some(t) => disk_totals_of(t),
        None => (0, 0),
    };
    IoCounters { net_rx, net_tx, disk_read, disk_write }
}

pub open spec fn sat_sub(a: u64, b: u64) -> u64 {
    if a >= b {
        (a - b) as u64
    } else {
        0
    }
}

/// The bytes moved between two samples, counter by counter (zero where a
/// counter went backwards).
pub fn io_delta(prev: &IoCounters, curr: &IoCounters) -> (r: IoCounters)
    ensures
        r.net_rx == sat_sub(curr.net_rx, prev.net_rx),
        r.net_tx == sat_sub(curr.net_tx, prev.net_tx),
        r.disk_read == sat_sub(curr.disk_read, prev.disk_read),
        r.disk_write == sat_sub(curr.disk_write, prev.disk_write),
{
    IoCounters {
        net_rx: curr.net_rx.saturating_sub(prev.net_rx),
        net_tx: curr.net_tx.saturating_sub(prev.net_tx),
        disk_read: curr.disk_read.saturating_sub(prev.disk_read),
        disk_write: curr.disk_write.saturating_sub(prev.disk_write),
    }
}

/// Transfer rates of the host between two samples, in bytes per second.
#[derive(Clone, Copy, Debug, PartialEq, Eq, Structural)]
pub struct IoRates {
    pub network_rx_bps: i64,
    pub network_tx_bps: i64,
    pub disk_read_bps: u64,
    pub disk_write_bps: u64,
}

/// The integer-valued node metrics of a telemetry snapshot.
#[derive(Clone, Copy, Debug, PartialEq, Eq, Structural)]
pub struct NodeCounters {
    pub network_rx_bps: i64,
    pub network_tx_bps: i64,
    pub disk_read_bps: u64,
    pub disk_write_bps: u64,
    pub filesystem_used_bytes: u64,
    pub filesystem_total_bytes: u64,
    pub vm_count: u32,
    pub agent_healthy: bool,
}

/// A telemetry snapshot of the node as pushed to the control plane.
#[derive(Clone, Debug)]
pub struct TelemetrySnapshot {
    pub schema_version: u32,
    pub zone: String,
    pub node_id: String,
    pub agent_id: String,
    pub collected_at: Option<Timestamp>,
    pub node: Option<NodeCounters>,
}

/// The snapshot of the node at `collected_at`: schema version 1, the
/// trimmed zone, the host as node and the agent, the given rates, the used
/// filesystem bytes, the host's disk size (zero when negative) as the
/// filesystem's total, the number of domains sampled, and a healthy agent.
pub fn build_snapshot(
    facts: &HostFacts,
    zone: &str,
    collected_at: Timestamp,
    rates: IoRates,
    filesystem_used_bytes: u64,
    vm_count: usize,
) -> (r: TelemetrySnapshot)
    ensures
        r.schema_version == 1,
        r.zone@ == trim_spec(zone@),
        r.node_id@ == facts.host_id@,
        r.agent_id@ == facts.agent_id@,
        r.collected_at == Some(collected_at),
        r.node == Some(
            NodeCounters {
                network_rx_bps: rates.network_rx_bps,
                network_tx_bps: rates.network_tx_bps,
                disk_read_bps: rates.disk_read_bps,
                disk_write_bps: rates.disk_write_bps,
                filesystem_used_bytes,
                filesystem_total_bytes: if facts.disk_bytes < 0 {
                    0
                } else {
                    facts.disk_bytes as u64
                },
                vm_count: vm_count as u32,
                agent_healthy: true,
            },
        ),
{
    let total: u64 = if facts.disk_bytes < 0 {
        0
    } else {
        facts.disk_bytes as u64
    };
    TelemetrySnapshot {
        schema_version: 1,
        zone: trimmed_string(zone),
        node_id: facts.host_id.clone(),
        agent_id: facts.agent_id.clone(),
        collected_at: Some(collected_at),
        node: Some(
            NodeCounters {
                network_rx_bps: rates.network_rx_bps,
                network_tx_bps: rates.network_tx_bps,
                disk_read_bps: rates.disk_read_bps,
                disk_write_bps: rates.disk_write_bps,
                filesystem_used_bytes,
                filesystem_total_bytes: total,
                vm_count: vm_count as u32,
                agent_healthy: true,
            },
        ),
    }
}

/// The non-blank lines of `virsh list --name` output, trimmed: the names
/// of the host's domains.
pub open spec fn vm_names_in(lines: Seq<Seq<char>>) -> Seq<Seq<char>>
    decreases lines.len(),
{
    if lines.len() == 0 {
        Seq::empty()
    } else {
        let rest = vm_names_in(lines.drop_last());
        if is_blank(lines.last()) {
            rest
        } else {
            rest.push(trim_spec(lines.last()))
        }
    }
}

pub fn vm_names(virsh_list: &str) -> (r: Vec<String>)
    ensures
        string_views(r@) == vm_names_in(lines_spec(virsh_list@)),
{
    let chars = chars_of(virsh_list);
    let lines = split_lines(&chars);
    let ghost ls = views(lines@);
    let mut names: Vec<String> = Vec::new();
    let mut i: usize = 0;
    while i < lines.len()
        invariant
            i <= lines.len(),
            ls == views(lines@),
            string_views(names@) == vm_names_in(ls.subrange(0, i as int)),
        decreases lines.len() - i,
    {
        assert(ls.subrange(0, i + 1).drop_last() =~= ls.subrange(0, i as int));
        assert(ls.subrange(0, i + 1).last() == lines@[i as int]@);
        let t = vec_trim(&lines[i]);
        if t.len() > 0 {
            let ghost before = names@;
            names.push(string_from_chars(&t));
            assert(string_views(names@) =~= string_views(before).push(t@));
        }
        i = i + 1;
    }
    assert(ls.subrange(0, ls.len() as int) =~= ls);
    names
}

/// The UUID of a domain from `virsh domuuid` output (`None` when the
/// command failed): its trimmed text, unless blank.
pub fn vm_uuid(domuuid_output: Option<&str>) -> (r: Option<String>)
    ensures
        opt_string_view(r) == (match opt_str_view(domuuid_output) {
            Some(o) => if is_blank(o) {
                None
            } else {
                Some(trim_spec(o))
            },
            None => None,
        }),
{
    match domuuid_output {
        Some(o) => {
            let t = trimmed_string(o);
            if t.as_str().unicode_len() == 0 {
                None
            } else {
                Some(t)
            }
        },
        None => None,
    }
}

/// The identity and state of a domain in a telemetry snapshot.
#[derive(Clone, Debug)]
pub struct VmSample {
    pub vm_id: String,
    pub node_id: String,
    pub zone: String,
    pub power_state: String,
    pub sampled_at: Option<Timestamp>,
}

/// The sample of the domain `name`: identified by its UUID when `virsh
/// domuuid` gave one, else by its name; the node and zone trimmed; its
/// power state from `virsh domstate`.
pub fn vm_sample(
    node_id: &str,
    zone: &str,
    name: &str,
    domuuid_output: Option<&str>,
    domstate_output: Option<&str>,
    sampled_at: Timestamp,
) -> (r: VmSample)
    ensures
        r.vm_id@ == (match opt_str_view(domuuid_output) {
            Some(o) => if is_blank(o) {
                name@
            } else {
                trim_spec(o)
            },
            None => name@,
        }),
        r.node_id@ == trim_spec(node_id@),
        r.zone@ == trim_spec(zone@),
        r.power_state@ == (match opt_str_view(domstate_output) {
            Some(o) => if unicode_lowercase(trim_spec(o)).len() == 0 {
                "unknown"@
            } else {
                unicode_lowercase(trim_spec(o))
            },
            None => "unknown"@,
        }),
        r.sampled_at == Some(sampled_at),
{
    let vm_id = match vm_uuid(domuuid_output) {
        Some(u) => u,
        None => str_to_string(name),
    };
    VmSample {
        vm_id,
        node_id: trimmed_string(node_id),
        zone: trimmed_string(zone),
        power_state: vm_power_state(domstate_output),
        sampled_at: Some(sampled_at),
    }
}

/// The power state of a domain from `virsh domstate` output (`None` when
/// the command failed): its trimmed, lower-cased text, `"unknown"` when
/// that is empty.
pub fn vm_power_state(domstate_output: Option<&str>) -> (r: String)
    ensures
        r@ == (match opt_str_view(domstate_output) {
            Some(o) => if unicode_lowercase(trim_spec(o)).len() == 0 {
                "unknown"@
            } else {
                unicode_lowercase(trim_spec(o))
            },
            None => "unknown"@,
        }),
{
    match domstate_output {
        Some(o) => {
            let v = to_lowercase(crate::text::trim(o));
            if v.as_str().unicode_len() == 0 {
                str_to_string("unknown")
            } else {
                v
            }
        },
        None => str_to_string("unknown"),
    }
}

} // verus!
