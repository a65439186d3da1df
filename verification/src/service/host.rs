use vstd::prelude::*;

use crate::config::AppConfig;
use crate::model::host::{
    CPUPackage, GPUDevice, HostFacts, HostRegistration, MemoryModule, NetworkInterface, StoragePool,
};
use crate::text::{
    opt_str_view, opt_string_view,
    contains_seq, vec_contains, is_blank, blank, trim,
    after_char, before_char, chars_of, fields_spec, has_prefix, lines_spec, parse_i32_chars,
    parse_i32_spec, parse_i64_chars, parse_i64_spec, split_fields, split_lines, str_to_string,
    string_from_chars, trim_spec, vec_after_char, vec_before_char, vec_has_prefix, vec_slice,
    vec_trim, views,
};

verus! {

/// The registration view of the host facts.
pub fn host_registration_from_facts(facts: &HostFacts) -> (r: HostRegistration)
    ensures
        r.agent_id@ == facts.agent_id@,
        r.host_id@ == facts.host_id@,
        r.hostname@ == facts.hostname@,
        r.private_ip@ == facts.private_ip@,
        r.hypervisor_type@ == facts.hypervisor_type@,
        r.agent_version@ == facts.agent_version@,
        r.capabilities_json@ == facts.capabilities_json@,
{
    HostRegistration {
        agent_id: facts.agent_id.clone(),
        host_id: facts.host_id.clone(),
        hostname: facts.hostname.clone(),
        private_ip: facts.private_ip.clone(),
        hypervisor_type: facts.hypervisor_type.clone(),
        agent_version: facts.agent_version.clone(),
        capabilities_json: facts.capabilities_json.clone(),
    }
}

pub open spec fn gib() -> int {
    1073741824
}

/// The installed memory a kernel-reported total stands for: the next
/// common module size up to 128 GiB (1, 2, 4, 8, 12, 16, 24, 32, 64, 128
/// GiB), whole GiB above, saturating at `i64::MAX`.
pub open spec fn physical_ram_spec(bytes: int) -> int {
    if bytes <= gib() {
        gib()
    } else if bytes <= 2 * gib() {
        2 * gib()
    } else if bytes <= 4 * gib() {
        4 * gib()
    } else if bytes <= 8 * gib() {
        8 * gib()
    } else if bytes <= 12 * gib() {
        12 * gib()
    } else if bytes <= 16 * gib() {
        16 * gib()
    } else if bytes <= 24 * gib() {
        24 * gib()
    } else if bytes <= 32 * gib() {
        32 * gib()
    } else if bytes <= 64 * gib() {
        64 * gib()
    } else if bytes <= 128 * gib() {
        128 * gib()
    } else {
        let whole = (bytes + gib() - 1) / gib() * gib();
        if whole > i64::MAX {
            i64::MAX as int
        } else {
            whole
        }
    }
}

/// The memory module sizes a total is rounded up to: 1, 2, 4, 8, 12, 16,
/// 24, 32, 64 and 128 GiB.
pub open spec fn is_module_size(m: int) -> bool {
    m == 1073741824 || m == 2147483648 || m == 4294967296 || m == 8589934592 || m
        == 12884901888 || m == 17179869184 || m == 25769803776 || m == 34359738368 || m
        == 68719476736 || m == 137438953472
}

/// Rounding a memory total of at most 128 GiB gives the smallest module
/// size that is at least the total; a larger total goes up to the next
/// whole GiB (within `i64`).
pub proof fn law_memory_rounds_to_smallest_module(bytes: int)
    ensures
        bytes <= 137438953472 ==> {
            &&& is_module_size(physical_ram_spec(bytes))
            &&& bytes <= physical_ram_spec(bytes)
            &&& forall|m: int| is_module_size(m) && bytes <= m ==> physical_ram_spec(bytes) <= m
        },
        137438953472 < bytes <= i64::MAX - 1073741824 ==> {
            &&& physical_ram_spec(bytes) % 1073741824 == 0
            &&& bytes <= physical_ram_spec(bytes) < bytes + 1073741824
        },
{
    if 137438953472 < bytes <= i64::MAX - 1073741824 {
        let g = 1073741824int;
        let w = (bytes + g - 1) / g * g;
        assert(w % g == 0 && bytes <= w < bytes + g) by (nonlinear_arith)
            requires
                w == (bytes + g - 1) / g * g,
                g == 1073741824,
                bytes > 0,
        {
            let q = (bytes + g - 1) / g;
            let r = (bytes + g - 1) % g;
            assert(bytes + g - 1 == q * g + r);
            assert(0 <= r < g);
        }
    }
}

/// Rounds a memory total to the physical size it stands for, computed
/// exactly in integers.
pub fn round_to_physical_ram(bytes: i64) -> (r: i64)
    ensures
        r == physical_ram_spec(bytes as int),
{
    let g: i64 = 1073741824;
    if bytes <= g {
        return g;
    } else if bytes <= 2 * g {
        return 2 * g;
    } else if bytes <= 4 * g {
        return 4 * g;
    } else if bytes <= 8 * g {
        return 8 * g;
    } else if bytes <= 12 * g {
        return 12 * g;
    } else if bytes <= 16 * g {
        return 16 * g;
    } else if bytes <= 24 * g {
        return 24 * g;
    } else if bytes <= 32 * g {
        return 32 * g;
    } else if bytes <= 64 * g {
        return 64 * g;
    } else if bytes <= 128 * g {
        return 128 * g;
    }
    let q: i64 = bytes / g;
    let whole_units: i64 = if bytes % g == 0 {
        q
    } else {
        q + 1
    };
    proof {
        assert((bytes as int + gib() - 1) / gib() == whole_units) by (nonlinear_arith)
            requires
                bytes > 0,
                q == bytes / 1073741824,
                whole_units == (if bytes % 1073741824 == 0 { q as int } else { q + 1 }),
        ;
    }
    if whole_units > i64::MAX / g {
        proof {
            assert(whole_units * gib() > i64::MAX) by (nonlinear_arith)
                requires
                    whole_units > 0x7fff_ffff_ffff_ffffint / 1073741824int,
            ;
        }
        i64::MAX
    } else {
        proof {
            assert(whole_units * gib() <= i64::MAX) by (nonlinear_arith)
                requires
                    whole_units <= 0x7fff_ffff_ffff_ffffint / 1073741824int,
            ;
        }
        whole_units * g
    }
}

/// The memory module model the agent reports.
pub fn discover_ram_model() -> (r: String)
    ensures
        r@ == "Standard Memory Module"@,
{
    str_to_string("Standard Memory Module")
}

/// `i64::saturating_mul`.
pub open spec fn saturating_mul_i64(a: int, b: int) -> int {
    if a * b > i64::MAX {
        i64::MAX as int
    } else if a * b < i64::MIN {
        i64::MIN as int
    } else {
        a * b
    }
}

fn saturating_mul_1024(kb: i64) -> (r: i64)
    ensures
        r == saturating_mul_i64(kb as int, 1024),
{
    if kb > i64::MAX / 1024 {
        i64::MAX
    } else if kb < i64::MIN / 1024 {
        i64::MIN
    } else {
        kb * 1024
    }
}

/// The memory total a `MemTotal:` line reports, in bytes rounded to the
/// physical size; `None` when its first field is not a number of KiB.
pub open spec fn mem_total_line(line: Seq<char>) -> Option<i64> {
    let f = fields_spec(line.subrange("MemTotal:"@.len() as int, line.len() as int));
    if f.len() == 0 {
        None
    } else {
        match parse_i64_spec(f[0]) {
            Some(kb) => Some(physical_ram_spec(saturating_mul_i64(kb as int, 1024)) as i64),
            None => None,
        }
    }
}

/// The memory total of `/proc/meminfo`: read from its first `MemTotal:`
/// line.
pub open spec fn mem_total_in(lines: Seq<Seq<char>>) -> Option<i64>
    decreases lines.len(),
{
    if lines.len() == 0 {
        None
    } else if has_prefix(lines[0], "MemTotal:"@) {
        mem_total_line(lines[0])
    } else {
        mem_total_in(lines.drop_first())
    }
}

/// The machine's memory size from the text of `/proc/meminfo`.
pub fn parse_memory_bytes(meminfo: &str) -> (r: Option<i64>)
    ensures
        r == mem_total_in(lines_spec(meminfo@)),
{
    let text = chars_of(meminfo);
    let lines = split_lines(&text);
    let prefix = chars_of("MemTotal:");
    let ghost ls = views(lines@);
    assert(ls.subrange(0, ls.len() as int) =~= ls);
    let mut i: usize = 0;
    while i < lines.len()
        invariant
            i <= lines.len(),
            ls == views(lines@),
            ls == lines_spec(meminfo@),
            prefix@ == "MemTotal:"@,
            mem_total_in(ls) == mem_total_in(ls.subrange(i as int, ls.len() as int)),
        decreases lines.len() - i,
    {
        let ghost rest = ls.subrange(i as int, ls.len() as int);
        assert(rest[0] == lines@[i as int]@);
        let line = &lines[i];
        if vec_has_prefix(line, "MemTotal:") {
            let tail = vec_slice(line, prefix.len(), line.len());
            let f = split_fields(&tail);
            if f.len() == 0 {
                return None;
            }
            assert(views(f@)[0] == f@[0]@);
            return match parse_i64_chars(&f[0]) {
                Some(kb) => Some(round_to_physical_ram(saturating_mul_1024(kb))),
                None => None,
            };
        }
        assert(rest.drop_first() =~= ls.subrange(i + 1, ls.len() as int));
        i = i + 1;
    }
    None
}


/// The core count a `cpu cores` line reports: the trimmed text between
/// its first and second `:`, when it is a number.
pub open spec fn cores_value(line: Seq<char>) -> Option<i32> {
    match after_char(line, ':') {
        Some(rest) => parse_i32_spec(trim_spec(before_char(rest, ':'))),
        None => None,
    }
}

/// Number of lines starting with `p`.
pub open spec fn count_prefixed(lines: Seq<Seq<char>>, p: Seq<char>) -> int
    decreases lines.len(),
{
    if lines.len() == 0 {
        0
    } else {
        (if has_prefix(lines[0], p) {
            1int
        } else {
            0int
        }) + count_prefixed(lines.drop_first(), p)
    }
}

/// The cores per package: the first non-zero count of a `cpu cores` line
/// (zero when none), scanning from `acc`.
pub open spec fn cores_scan(lines: Seq<Seq<char>>, acc: i32) -> i32
    decreases lines.len(),
{
    if lines.len() == 0 {
        acc
    } else {
        let l = lines[0];
        let next = if !has_prefix(l, "processor"@) && has_prefix(l, "cpu cores"@) && acc == 0 {
            match cores_value(l) {
                Some(c) => c,
                None => acc,
            }
        } else {
            acc
        };
        cores_scan(lines.drop_first(), next)
    }
}

/// `(cores, threads)` from the lines of `/proc/cpuinfo`: threads are the
/// `processor` entries, cores the reported cores per package, or the
/// threads when no core count is reported.
pub open spec fn cpu_specs_spec(lines: Seq<Seq<char>>) -> (i32, i32) {
    let threads = count_prefixed(lines, "processor"@) as i32;
    let cores = cores_scan(lines, 0);
    (if cores == 0 {
        threads
    } else {
        cores
    }, threads)
}

fn cores_of_line(line: &Vec<char>) -> (r: Option<i32>)
    ensures
        r == cores_value(line@),
{
    match vec_after_char(line, ':') {
        Some(rest) => {
            let seg = vec_before_char(&rest, ':');
            let t = vec_trim(&seg);
            parse_i32_chars(&t)
        },
        None => None,
    }
}

/// The CPU's cores and threads from the text of `/proc/cpuinfo`, for a
/// text of fewer than `i32::MAX` lines.
pub fn parse_cpu_specs(cpuinfo: &str) -> (r: (i32, i32))
    requires
        lines_spec(cpuinfo@).len() < i32::MAX,
    ensures
        r == cpu_specs_spec(lines_spec(cpuinfo@)),
{
    let text = chars_of(cpuinfo);
    let lines = split_lines(&text);
    let ghost ls = views(lines@);
    assert(ls.subrange(0, ls.len() as int) =~= ls);
    let mut processors: i32 = 0;
    let mut cores: i32 = 0;
    let mut i: usize = 0;
    while i < lines.len()
        invariant
            i <= lines.len(),
            ls == views(lines@),
            lines.len() < i32::MAX,
            0 <= processors <= i,
            count_prefixed(ls, "processor"@) == processors + count_prefixed(
                ls.subrange(i as int, ls.len() as int),
                "processor"@,
            ),
            cores_scan(ls, 0) == cores_scan(ls.subrange(i as int, ls.len() as int), cores),
        decreases lines.len() - i,
    {
        let ghost rest = ls.subrange(i as int, ls.len() as int);
        assert(rest[0] == lines@[i as int]@);
        assert(rest.drop_first() =~= ls.subrange(i + 1, ls.len() as int));
        let line = &lines[i];
        if vec_has_prefix(line, "processor") {
            processors = processors + 1;
        } else if vec_has_prefix(line, "cpu cores") {
            match cores_of_line(line) {
                Some(c) => {
                    if cores == 0 {
                        cores = c;
                    }
                },
                None => {},
            }
        }
        i = i + 1;
    }
    assert(ls.subrange(ls.len() as int, ls.len() as int).len() == 0);
    if cores == 0 {
        cores = processors;
    }
    (cores, processors)
}

/// The CPU model of `/proc/cpuinfo`: the trimmed text after the `:` of the
/// first `model name` line that has one.
pub open spec fn cpu_model_in(lines: Seq<Seq<char>>) -> Option<Seq<char>>
    decreases lines.len(),
{
    if lines.len() == 0 {
        None
    } else if has_prefix(lines[0], "model name"@) && after_char(lines[0], ':') is Some {
        Some(trim_spec(after_char(lines[0], ':').unwrap()))
    } else {
        cpu_model_in(lines.drop_first())
    }
}

pub open spec fn cpu_model_spec(cpuinfo: Seq<char>) -> Seq<char> {
    match cpu_model_in(lines_spec(cpuinfo)) {
        Some(m) => m,
        None => "Unknown CPU"@,
    }
}

/// The CPU model from the text of `/proc/cpuinfo`, `"Unknown CPU"` when it
/// names none.
pub fn parse_cpu_model(cpuinfo: &str) -> (r: String)
    ensures
        r@ == cpu_model_spec(cpuinfo@),
{
    let text = chars_of(cpuinfo);
    let lines = split_lines(&text);
    let ghost ls = views(lines@);
    assert(ls.subrange(0, ls.len() as int) =~= ls);
    let mut i: usize = 0;
    while i < lines.len()
        invariant
            i <= lines.len(),
            ls == views(lines@),
            ls == lines_spec(cpuinfo@),
            cpu_model_in(ls) == cpu_model_in(ls.subrange(i as int, ls.len() as int)),
        decreases lines.len() - i,
    {
        let ghost rest = ls.subrange(i as int, ls.len() as int);
        assert(rest[0] == lines@[i as int]@);
        assert(rest.drop_first() =~= ls.subrange(i + 1, ls.len() as int));
        let line = &lines[i];
        if vec_has_prefix(line, "model name") {
            match vec_after_char(line, ':') {
                Some(after) => {
                    let t = vec_trim(&after);
                    return string_from_chars(&t);
                },
                None => {},
            }
        }
        i = i + 1;
    }
    str_to_string("Unknown CPU")
}

/// Whether an `lspci` line describes a graphics device.
pub open spec fn is_gpu_line(line: Seq<char>) -> bool {
    contains_seq(line, "VGA compatible controller"@) || contains_seq(line, "NVIDIA"@)
        || contains_seq(line, "AMD"@)
}

/// The GPU model of `lspci` output: the non-blank trimmed text after the
/// first `:` of the first graphics line that has one.
pub open spec fn gpu_model_in(lines: Seq<Seq<char>>) -> Option<Seq<char>>
    decreases lines.len(),
{
    if lines.len() == 0 {
        None
    } else if is_gpu_line(lines[0]) && after_char(lines[0], ':') is Some && trim_spec(
        after_char(lines[0], ':').unwrap(),
    ).len() > 0 {
        Some(trim_spec(after_char(lines[0], ':').unwrap()))
    } else {
        gpu_model_in(lines.drop_first())
    }
}

pub open spec fn gpu_model_spec(lspci: Option<Seq<char>>) -> Seq<char> {
    match lspci {
        Some(out) => match gpu_model_in(lines_spec(out)) {
            Some(m) => m,
            None => "Internal Graphics"@,
        },
        None => "Internal Graphics"@,
    }
}

/// The GPU model from the output of `lspci` (`None` when it could not
/// run), `"Internal Graphics"` when it lists none.
pub fn parse_gpu_model(lspci_output: Option<&str>) -> (r: String)
    ensures
        r@ == gpu_model_spec(opt_str_view(lspci_output)),
{
    let out = match lspci_output {
        Some(o) => o,
        None => {
            return str_to_string("Internal Graphics");
        },
    };
    let text = chars_of(out);
    let lines = split_lines(&text);
    let ghost ls = views(lines@);
    assert(ls.subrange(0, ls.len() as int) =~= ls);
    let mut i: usize = 0;
    while i < lines.len()
        invariant
            i <= lines.len(),
            ls == views(lines@),
            ls == lines_spec(out@),
            opt_str_view(lspci_output) == Some(out@),
            gpu_model_in(ls) == gpu_model_in(ls.subrange(i as int, ls.len() as int)),
        decreases lines.len() - i,
    {
        let ghost rest = ls.subrange(i as int, ls.len() as int);
        assert(rest[0] == lines@[i as int]@);
        assert(rest.drop_first() =~= ls.subrange(i + 1, ls.len() as int));
        let line = &lines[i];
        if vec_contains(line, "VGA compatible controller") || vec_contains(line, "NVIDIA")
            || vec_contains(line, "AMD") {
            match vec_after_char(line, ':') {
                Some(after) => {
                    let t = vec_trim(&after);
                    if t.len() > 0 {
                        assert(gpu_model_in(ls) == Some(t@));
                        assert(opt_str_view(lspci_output) == Some(out@));
                        return string_from_chars(&t);
                    }
                },
                None => {},
            }
        }
        i = i + 1;
    }
    str_to_string("Internal Graphics")
}

/// The size of the root filesystem from `df -B1 /` output: the second
/// field of its second line.
pub open spec fn disk_bytes_spec(df: Seq<char>) -> Option<i64> {
    let lines = lines_spec(df);
    if lines.len() < 2 {
        None
    } else {
        let f = fields_spec(lines[1]);
        if f.len() < 2 {
            None
        } else {
            parse_i64_spec(f[1])
        }
    }
}

pub fn parse_disk_bytes(df_output: &str) -> (r: Option<i64>)
    ensures
        r == disk_bytes_spec(df_output@),
{
    let text = chars_of(df_output);
    let lines = split_lines(&text);
    if lines.len() < 2 {
        return None;
    }
    assert(views(lines@)[1] == lines@[1]@);
    let f = split_fields(&lines[1]);
    if f.len() < 2 {
        return None;
    }
    assert(views(f@)[1] == f@[1]@);
    parse_i64_chars(&f[1])
}

/// Whether a trimmed `ip addr` line carries an address.
pub open spec fn is_inet_line(t: Seq<char>) -> bool {
    has_prefix(t, "inet "@) || has_prefix(t, "inet6 "@)
}

/// The address of `ip addr show` output: the second field of the first
/// address line that has one, without its prefix length.
pub open spec fn address_in(lines: Seq<Seq<char>>) -> Option<Seq<char>>
    decreases lines.len(),
{
    if lines.len() == 0 {
        None
    } else {
        let t = trim_spec(lines[0]);
        if is_inet_line(t) && fields_spec(t).len() >= 2 {
            Some(before_char(fields_spec(t)[1], '/'))
        } else {
            address_in(lines.drop_first())
        }
    }
}

pub open spec fn interface_address_spec(ip_output: Option<Seq<char>>) -> Seq<char> {
    match ip_output {
        Some(out) => match address_in(lines_spec(out)) {
            Some(a) => a,
            None => Seq::empty(),
        },
        None => Seq::empty(),
    }
}

/// The address of an interface from `ip -4|-6 addr show <name>` output
/// (`None` when the command could not run); empty when it lists none.
pub fn parse_interface_address(ip_output: Option<&str>) -> (r: String)
    ensures
        r@ == interface_address_spec(opt_str_view(ip_output)),
{
    let out = match ip_output {
        Some(o) => o,
        None => {
            return String::new();
        },
    };
    let text = chars_of(out);
    let lines = split_lines(&text);
    let ghost ls = views(lines@);
    assert(ls.subrange(0, ls.len() as int) =~= ls);
    let mut i: usize = 0;
    while i < lines.len()
        invariant
            i <= lines.len(),
            ls == views(lines@),
            ls == lines_spec(out@),
            opt_str_view(ip_output) == Some(out@),
            address_in(ls) == address_in(ls.subrange(i as int, ls.len() as int)),
        decreases lines.len() - i,
    {
        let ghost rest = ls.subrange(i as int, ls.len() as int);
        assert(rest[0] == lines@[i as int]@);
        assert(rest.drop_first() =~= ls.subrange(i + 1, ls.len() as int));
        let t = vec_trim(&lines[i]);
        if vec_has_prefix(&t, "inet ") || vec_has_prefix(&t, "inet6 ") {
            let f = split_fields(&t);
            if f.len() >= 2 {
                assert(views(f@)[1] == f@[1]@);
                let a = vec_before_char(&f[1], '/');
                assert(address_in(ls) == Some(a@));
                assert(opt_str_view(ip_output) == Some(out@));
                return string_from_chars(&a);
            }
        }
        i = i + 1;
    }
    String::new()
}


/// A filesystem of `/proc/mounts` that may hold a storage pool.
#[derive(Clone, Debug)]
pub struct MountCandidate {
    pub device: String,
    pub path: String,
    pub name: String,
}

pub struct MountView {
    pub device: Seq<char>,
    pub path: Seq<char>,
    pub name: Seq<char>,
}

impl View for MountCandidate {
    type V = MountView;

    open spec fn view(&self) -> MountView {
        MountView { device: self.device@, path: self.path@, name: self.name@ }
    }
}

/// Whether a device is a local disk, partition or mapped volume.
pub open spec fn is_pool_device(device: Seq<char>) -> bool {
    has_prefix(device, "/dev/sd"@) || has_prefix(device, "/dev/nvme"@) || has_prefix(
        device,
        "/dev/vd"@,
    ) || has_prefix(device, "/dev/mapper/"@)
}

pub open spec fn is_pool_filesystem(fs: Seq<char>) -> bool {
    fs == "ext4"@ || fs == "xfs"@ || fs == "btrfs"@
}

pub open spec fn slash_to_dash(c: char) -> char {
    if c == '/' {
        '-'
    } else {
        c
    }
}

/// The pool name of a mount point: `root` for `/`, else the path without
/// its leading slashes and with `-` for every other `/`.
pub open spec fn pool_name_spec(path: Seq<char>) -> Seq<char> {
    if path == "/"@ {
        "root"@
    } else {
        crate::text::strip_all_prefix(path, "/"@).map_values(|c: char| slash_to_dash(c))
    }
}

/// The pool candidate a `/proc/mounts` line describes, if any.
pub open spec fn mount_line_spec(line: Seq<char>) -> Option<MountView> {
    let f = fields_spec(line);
    if f.len() >= 3 && is_pool_device(f[0]) && is_pool_filesystem(f[2]) {
        Some(MountView { device: f[0], path: f[1], name: pool_name_spec(f[1]) })
    } else {
        None
    }
}

pub open spec fn mount_candidates_in(lines: Seq<Seq<char>>) -> Seq<MountView>
    decreases lines.len(),
{
    if lines.len() == 0 {
        Seq::empty()
    } else {
        let rest = mount_candidates_in(lines.drop_last());
        match mount_line_spec(lines.last()) {
            Some(m) => rest.push(m),
            None => rest,
        }
    }
}

fn pool_name_of(path: &Vec<char>) -> (r: String)
    ensures
        r@ == pool_name_spec(path@),
{
    if crate::text::vec_is(path, "/") {
        return str_to_string("root");
    }
    let slash = chars_of("/");
    let k = crate::text::skip_all_prefix(path, 0, &slash);
    assert(path@.subrange(0, path@.len() as int) =~= path@);
    let mut out = String::new();
    let mut i = k;
    while i < path.len()
        invariant
            k <= i <= path.len(),
            out@ == path@.subrange(k as int, i as int).map_values(|c: char| slash_to_dash(c)),
        decreases path.len() - i,
    {
        let c = if path[i] == '/' {
            '-'
        } else {
            path[i]
        };
        crate::text::push_char(&mut out, c);
        assert(path@.subrange(k as int, i + 1).map_values(|c: char| slash_to_dash(c))
            =~= path@.subrange(k as int, i as int).map_values(|c: char| slash_to_dash(c)).push(
            slash_to_dash(path@[i as int]),
        ));
        i = i + 1;
    }
    out
}

fn mount_of_line(line: &Vec<char>) -> (r: Option<MountCandidate>)
    ensures
        match r {
            Some(m) => mount_line_spec(line@) == Some(m@),
            None => mount_line_spec(line@) is None,
        },
{
    let f = split_fields(line);
    if f.len() < 3 {
        return None;
    }
    assert(views(f@)[0] == f@[0]@ && views(f@)[1] == f@[1]@ && views(f@)[2] == f@[2]@);
    let device = &f[0];
    let fs = &f[2];
    let device_ok = vec_has_prefix(device, "/dev/sd") || vec_has_prefix(device, "/dev/nvme")
        || vec_has_prefix(device, "/dev/vd") || vec_has_prefix(device, "/dev/mapper/");
    let fs_ok = crate::text::vec_is(fs, "ext4") || crate::text::vec_is(fs, "xfs")
        || crate::text::vec_is(fs, "btrfs");
    if !(device_ok && fs_ok) {
        return None;
    }
    Some(
        MountCandidate {
            device: string_from_chars(device),
            path: string_from_chars(&f[1]),
            name: pool_name_of(&f[1]),
        },
    )
}

pub open spec fn mount_views(v: Seq<MountCandidate>) -> Seq<MountView> {
    v.map_values(|m: MountCandidate| m@)
}

/// The filesystems of `/proc/mounts` that may hold storage pools: local
/// ext4, xfs or btrfs filesystems on `/dev/sd*`, `/dev/nvme*`, `/dev/vd*`
/// or `/dev/mapper/*`, in mount order.
pub fn mount_candidates(mounts: &str) -> (r: Vec<MountCandidate>)
    ensures
        mount_views(r@) == mount_candidates_in(lines_spec(mounts@)),
{
    let text = chars_of(mounts);
    let lines = split_lines(&text);
    let ghost ls = views(lines@);
    let mut out: Vec<MountCandidate> = Vec::new();
    let mut i: usize = 0;
    while i < lines.len()
        invariant
            i <= lines.len(),
            ls == views(lines@),
            mount_views(out@) == mount_candidates_in(ls.subrange(0, i as int)),
        decreases lines.len() - i,
    {
        assert(ls.subrange(0, i + 1).drop_last() =~= ls.subrange(0, i as int));
        assert(ls.subrange(0, i + 1).last() == lines@[i as int]@);
        match mount_of_line(&lines[i]) {
            Some(m) => {
                let ghost before = out@;
                out.push(m);
                assert(mount_views(out@) =~= mount_views(before).push(m@));
            },
            None => {},
        }
        i = i + 1;
    }
    assert(ls.subrange(0, ls.len() as int) =~= ls);
    out
}

/// A field of a `df` line parsed as a byte count, zero when missing or not
/// a number.
pub open spec fn field_or_zero(f: Seq<Seq<char>>, i: int) -> i64 {
    if 0 <= i < f.len() {
        match parse_i64_spec(f[i]) {
            Some(v) => v,
            None => 0,
        }
    } else {
        0
    }
}

/// `(total, used)` bytes from `df -B1 <path>` output: the second and third
/// fields of its first data line. When `df` wrapped that line (a long
/// device name alone on it) the numbers start the continuation line, whose
/// first and second fields are read instead.
pub open spec fn df_usage_spec(df: Seq<char>) -> Option<(i64, i64)> {
    let lines = lines_spec(df);
    if lines.len() < 2 {
        None
    } else {
        let f = fields_spec(lines[1]);
        if f.len() >= 3 {
            Some((field_or_zero(f, 1), field_or_zero(f, 2)))
        } else if lines.len() >= 3 && fields_spec(lines[2]).len() >= 2 {
            let g = fields_spec(lines[2]);
            Some((field_or_zero(g, 0), field_or_zero(g, 1)))
        } else {
            None
        }
    }
}

fn field_value(f: &Vec<Vec<char>>, i: usize) -> (r: i64)
    ensures
        r == field_or_zero(views(f@), i as int),
{
    if i < f.len() {
        assert(views(f@)[i as int] == f@[i as int]@);
        match parse_i64_chars(&f[i]) {
            Some(v) => v,
            None => 0,
        }
    } else {
        0
    }
}

fn df_usage(df_output: &str) -> (r: Option<(i64, i64)>)
    ensures
        r == df_usage_spec(df_output@),
{
    let text = chars_of(df_output);
    let lines = split_lines(&text);
    if lines.len() < 2 {
        return None;
    }
    assert(views(lines@)[1] == lines@[1]@);
    let f = split_fields(&lines[1]);
    if f.len() >= 3 {
        return Some((field_value(&f, 1), field_value(&f, 2)));
    }
    if lines.len() >= 3 {
        assert(views(lines@)[2] == lines@[2]@);
        let g = split_fields(&lines[2]);
        if g.len() >= 2 {
            return Some((field_value(&g, 0), field_value(&g, 1)));
        }
    }
    None
}

/// A storage pool as plain values.
pub struct PoolView {
    pub name: Seq<char>,
    pub driver: Seq<char>,
    pub path: Seq<char>,
    pub total_bytes: i64,
    pub used_bytes: i64,
    pub status: Seq<char>,
    pub metadata_json: Seq<char>,
}

impl View for StoragePool {
    type V = PoolView;

    open spec fn view(&self) -> PoolView {
        PoolView {
            name: self.name@,
            driver: self.driver@,
            path: self.path@,
            total_bytes: self.total_bytes,
            used_bytes: self.used_bytes,
            status: self.status@,
            metadata_json: self.metadata_json@,
        }
    }
}

/// The pool a candidate forms given its `df` output (`None` when `df`
/// failed): a `dir` pool, active, with its device in its metadata; none
/// when the output holds no usage or a zero total.
pub open spec fn pool_spec(m: MountView, df: Option<Seq<char>>) -> Option<PoolView> {
    match df {
        None => None,
        Some(out) => match df_usage_spec(out) {
            Some((total, used)) => if total > 0 {
                Some(
                    PoolView {
                        name: m.name,
                        driver: "dir"@,
                        path: m.path,
                        total_bytes: total,
                        used_bytes: used,
                        status: "active"@,
                        metadata_json: crate::agent::payload::json_object_text(
                            seq![("device"@, crate::agent::payload::JsonScalarView::Str(m.device))],
                        ),
                    },
                )
            } else {
                None
            },
            None => None,
        },
    }
}

pub fn storage_pool_of(m: &MountCandidate, df_output: Option<&str>) -> (r: Option<StoragePool>)
    ensures
        match r {
            Some(p) => pool_spec(m@, opt_str_view(df_output)) == Some(p@),
            None => pool_spec(m@, opt_str_view(df_output)) is None,
        },
{
    let out = match df_output {
        Some(o) => o,
        None => {
            return None;
        },
    };
    match df_usage(out) {
        Some((total, used)) => {
            if total > 0 {
                let metadata = crate::agent::payload::device_metadata_json(m.device.as_str());
                Some(
                    StoragePool {
                        name: m.name.clone(),
                        driver: str_to_string("dir"),
                        path: m.path.clone(),
                        total_bytes: total,
                        used_bytes: used,
                        status: str_to_string("active"),
                        metadata_json: metadata,
                    },
                )
            } else {
                None
            }
        },
        None => None,
    }
}

/// The pools formed by the candidates, in order, each paired with its
/// `df` output.
pub open spec fn pools_spec(cands: Seq<MountView>, outs: Seq<Option<Seq<char>>>) -> Seq<PoolView>
    decreases cands.len(),
{
    if cands.len() == 0 || outs.len() == 0 {
        Seq::empty()
    } else {
        let rest = pools_spec(cands.drop_last(), outs.drop_last());
        match pool_spec(cands.last(), outs.last()) {
            Some(p) => rest.push(p),
            None => rest,
        }
    }
}

pub open spec fn opt_string_views(v: Seq<Option<String>>) -> Seq<Option<Seq<char>>> {
    v.map_values(|o: Option<String>| opt_string_view(o))
}

pub open spec fn pool_views(v: Seq<StoragePool>) -> Seq<PoolView> {
    v.map_values(|p: StoragePool| p@)
}

/// The host's storage pools: each mount candidate with its `df -B1` output
/// (`None` where `df` failed), in mount order.
pub fn discover_storage_pools(candidates: &Vec<MountCandidate>, df_outputs: &Vec<Option<String>>) -> (r:
    Vec<StoragePool>)
    requires
        candidates.len() == df_outputs.len(),
    ensures
        pool_views(r@) == pools_spec(mount_views(candidates@), opt_string_views(df_outputs@)),
{
    let ghost cs = mount_views(candidates@);
    let ghost os = opt_string_views(df_outputs@);
    let mut pools: Vec<StoragePool> = Vec::new();
    let mut i: usize = 0;
    while i < candidates.len()
        invariant
            i <= candidates.len() == df_outputs.len(),
            cs == mount_views(candidates@),
            os == opt_string_views(df_outputs@),
            pool_views(pools@) == pools_spec(cs.subrange(0, i as int), os.subrange(0, i as int)),
        decreases candidates.len() - i,
    {
        assert(cs.subrange(0, i + 1).drop_last() =~= cs.subrange(0, i as int));
        assert(os.subrange(0, i + 1).drop_last() =~= os.subrange(0, i as int));
        assert(cs.subrange(0, i + 1).last() == candidates@[i as int]@);
        assert(os.subrange(0, i + 1).last() == opt_string_view(
            df_outputs@[i as int],
        ));
        let out: Option<&str> = match &df_outputs[i] {
            Some(s) => Some(s.as_str()),
            None => None,
        };
        assert(opt_str_view(out) == opt_string_view(df_outputs@[i as int]));
        match storage_pool_of(&candidates[i], out) {
            Some(p) => {
                let ghost before = pools@;
                pools.push(p);
                assert(pool_views(pools@) =~= pool_views(before).push(p@));
            },
            None => {},
        }
        i = i + 1;
    }
    assert(cs.subrange(0, cs.len() as int) =~= cs);
    assert(os.subrange(0, os.len() as int) =~= os);
    pools
}


pub open spec fn opt_trimmed_or(o: Option<Seq<char>>, default: Seq<char>) -> Seq<char> {
    match o {
        Some(s) => trim_spec(s),
        None => default,
    }
}

/// The link speed a sysfs `speed` file reports: negative values (unknown
/// speed) read as zero, unreadable or malformed ones too.
pub open spec fn speed_spec(speed: Option<Seq<char>>) -> i32 {
    match speed {
        Some(s) => match parse_i32_spec(trim_spec(s)) {
            Some(v) => if v < 0 {
                0
            } else {
                v
            },
            None => 0,
        },
        None => 0,
    }
}

fn trimmed_or(o: Option<&str>, default: &str) -> (r: String)
    ensures
        r@ == opt_trimmed_or(opt_str_view(o), default@),
{
    match o {
        Some(s) => crate::text::trimmed_string(s),
        None => str_to_string(default),
    }
}

/// A network interface from its sysfs `address`, `operstate` and `speed`
/// files (`None` where unreadable) and the output of `ip -4 addr show` and
/// `ip -6 addr show` for it.
pub fn network_interface_from(
    name: String,
    address: Option<&str>,
    operstate: Option<&str>,
    speed: Option<&str>,
    ipv4_output: Option<&str>,
    ipv6_output: Option<&str>,
) -> (r: NetworkInterface)
    ensures
        r.name@ == name@,
        r.mac_address@ == opt_trimmed_or(opt_str_view(address), Seq::empty()),
        r.status@ == opt_trimmed_or(opt_str_view(operstate), "unknown"@),
        r.speed_mbps == speed_spec(opt_str_view(speed)),
        r.ipv4_address@ == interface_address_spec(opt_str_view(ipv4_output)),
        r.ipv6_address@ == interface_address_spec(opt_str_view(ipv6_output)),
{
    let speed_mbps = match speed {
        Some(s) => match crate::text::parse_i32(trim(s)) {
            Some(v) => if v < 0 {
                0
            } else {
                v
            },
            None => 0,
        },
        None => 0,
    };
    proof {
        reveal_strlit("");
    }
    NetworkInterface {
        name,
        mac_address: trimmed_or(address, ""),
        ipv4_address: parse_interface_address(ipv4_output),
        ipv6_address: parse_interface_address(ipv6_output),
        speed_mbps,
        status: trimmed_or(operstate, "unknown"),
    }
}

/// What the disk model of a block device is read from.
#[derive(Clone, Debug)]
pub struct DiskProbe {
    /// The device's name under `/sys/block`.
    pub name: String,
    /// `/sys/block/<name>/device/model`, when readable.
    pub block_model: Option<String>,
    /// `/sys/class/block/<name>/device/model`, when readable.
    pub class_model: Option<String>,
}

pub open spec fn is_disk_name(name: Seq<char>) -> bool {
    has_prefix(name, "sd"@) || has_prefix(name, "nvme"@) || has_prefix(name, "vd"@)
}

pub open spec fn nonblank_trimmed(o: Option<String>) -> Option<Seq<char>> {
    match o {
        Some(s) => if trim_spec(s@).len() > 0 {
            Some(trim_spec(s@))
        } else {
            None
        },
        None => None,
    }
}

/// The disk model: from the first disk device (`sd*`, `nvme*`, `vd*`) with
/// a non-blank model file, the block model preferred.
pub open spec fn disk_model_in(probes: Seq<DiskProbe>) -> Option<Seq<char>>
    decreases probes.len(),
{
    if probes.len() == 0 {
        None
    } else {
        let p = probes[0];
        if is_disk_name(p.name@) && nonblank_trimmed(p.block_model) is Some {
            nonblank_trimmed(p.block_model)
        } else if is_disk_name(p.name@) && nonblank_trimmed(p.class_model) is Some {
            nonblank_trimmed(p.class_model)
        } else {
            disk_model_in(probes.drop_first())
        }
    }
}

fn nonblank_model(o: &Option<String>) -> (r: Option<String>)
    ensures
        opt_string_view(r) == nonblank_trimmed(*o),
{
    match o {
        Some(s) => {
            let t = crate::text::trimmed_string(s.as_str());
            if t.as_str().unicode_len() > 0 {
                Some(t)
            } else {
                None
            }
        },
        None => None,
    }
}

/// The model of the host's system disk, `"Generic System Disk"` when no
/// disk reports one.
pub fn discover_disk_model(probes: &Vec<DiskProbe>) -> (r: String)
    ensures
        r@ == (match disk_model_in(probes@) {
            Some(m) => m,
            None => "Generic System Disk"@,
        }),
{
    let mut i: usize = 0;
    assert(probes@.subrange(0, probes@.len() as int) =~= probes@);
    while i < probes.len()
        invariant
            i <= probes.len(),
            disk_model_in(probes@) == disk_model_in(probes@.subrange(i as int, probes@.len() as int)),
        decreases probes.len() - i,
    {
        let ghost rest = probes@.subrange(i as int, probes@.len() as int);
        assert(rest[0] == probes@[i as int]);
        assert(rest.drop_first() =~= probes@.subrange(i + 1, probes@.len() as int));
        let p = &probes[i];
        let name = chars_of(p.name.as_str());
        if vec_has_prefix(&name, "sd") || vec_has_prefix(&name, "nvme") || vec_has_prefix(&name, "vd") {
            match nonblank_model(&p.block_model) {
                Some(m) => {
                    return m;
                },
                None => {},
            }
            match nonblank_model(&p.class_model) {
                Some(m) => {
                    return m;
                },
                None => {},
            }
        }
        i = i + 1;
    }
    str_to_string("Generic System Disk")
}

/// The private address of the host: the IPv4 address of its first
/// non-loopback interface that has one, else the address its outbound
/// route uses (`fallback`), else `127.0.0.1`.
pub open spec fn private_ip_in(ifaces: Seq<NetworkInterface>) -> Option<Seq<char>>
    decreases ifaces.len(),
{
    if ifaces.len() == 0 {
        None
    } else if ifaces[0].name@ != "lo"@ && ifaces[0].ipv4_address@.len() > 0 {
        Some(ifaces[0].ipv4_address@)
    } else {
        private_ip_in(ifaces.drop_first())
    }
}

pub open spec fn private_ip_spec(ifaces: Seq<NetworkInterface>, fallback: Option<Seq<char>>) -> Seq<
    char,
> {
    match private_ip_in(ifaces) {
        Some(a) => a,
        None => match fallback {
            Some(f) => f,
            None => "127.0.0.1"@,
        },
    }
}

pub fn choose_private_ip(ifaces: &Vec<NetworkInterface>, fallback: Option<String>) -> (r: String)
    ensures
        r@ == private_ip_spec(ifaces@, opt_string_view(fallback)),
{
    let mut i: usize = 0;
    assert(ifaces@.subrange(0, ifaces@.len() as int) =~= ifaces@);
    while i < ifaces.len()
        invariant
            i <= ifaces.len(),
            private_ip_in(ifaces@) == private_ip_in(ifaces@.subrange(i as int, ifaces@.len() as int)),
        decreases ifaces.len() - i,
    {
        let ghost rest = ifaces@.subrange(i as int, ifaces@.len() as int);
        assert(rest[0] == ifaces@[i as int]);
        assert(rest.drop_first() =~= ifaces@.subrange(i + 1, ifaces@.len() as int));
        let iface = &ifaces[i];
        if !crate::text::str_eq(iface.name.as_str(), "lo") && iface.ipv4_address.as_str().unicode_len()
            > 0 {
            return iface.ipv4_address.clone();
        }
        i = i + 1;
    }
    match fallback {
        Some(f) => f,
        None => str_to_string("127.0.0.1"),
    }
}

/// The host name: the `HOSTNAME` environment value when it is not blank,
/// else the output of `hostname` when that is not blank, trimmed.
pub open spec fn hostname_spec(env: Option<Seq<char>>, command: Option<Seq<char>>) -> Option<
    Seq<char>,
> {
    match env {
        Some(e) if trim_spec(e).len() > 0 => Some(trim_spec(e)),
        _ => match command {
            Some(c) if trim_spec(c).len() > 0 => Some(trim_spec(c)),
            _ => None,
        },
    }
}

pub fn discover_hostname(env_value: Option<&str>, command_output: Option<&str>) -> (r: Option<String>)
    ensures
        opt_string_view(r) == hostname_spec(
            opt_str_view(env_value),
            opt_str_view(command_output),
        ),
{
    match env_value {
        Some(e) => {
            let t = crate::text::trimmed_string(e);
            if t.as_str().unicode_len() > 0 {
                return Some(t);
            }
        },
        None => {},
    }
    match command_output {
        Some(c) => {
            let t = crate::text::trimmed_string(c);
            if t.as_str().unicode_len() > 0 {
                return Some(t);
            }
        },
        None => {},
    }
    None
}


/// What the agent read about the host, raw, for its facts.
#[derive(Clone, Debug)]
pub struct HostProbe {
    /// `discover_hostname` of the environment and the `hostname` command.
    pub hostname: Option<String>,
    pub network_interfaces: Vec<NetworkInterface>,
    /// The local address of the host's outbound route, when known.
    pub route_ip: Option<String>,
    pub cpuinfo: Option<String>,
    pub meminfo: Option<String>,
    /// `df -B1 /` output, when it succeeded.
    pub root_df: Option<String>,
    /// `lspci` output, when it ran.
    pub lspci: Option<String>,
}

pub open spec fn text_or_empty(o: Option<String>) -> Seq<char> {
    match o {
        Some(s) => s@,
        None => Seq::empty(),
    }
}

pub open spec fn memory_size_gib(bytes: i64) -> i32 {
    if bytes < 0 {
        0
    } else if (bytes as int) / gib() > i32::MAX {
        i32::MAX
    } else {
        ((bytes as int) / gib()) as i32
    }
}

fn text_or_empty_of(o: &Option<String>) -> (r: &str)
    ensures
        r@ == text_or_empty(*o),
{
    proof {
        reveal_strlit("");
    }
    match o {
        Some(s) => {
            assert(text_or_empty(*o) == s@);
            s.as_str()
        },
        None => "",
    }
}

/// The facts of this host from what was probed: its identity is the
/// configured node id, hardware counts and models come from the probed
/// texts (zero or the documented defaults where a probe failed), and each
/// discovered model names one package, module and device entry.
pub fn collect_host_facts(config: &AppConfig, probe: HostProbe) -> (r: HostFacts)
    requires
        lines_spec(text_or_empty(probe.cpuinfo)).len() < i32::MAX,
    ensures
        r.agent_id@ == config.app.node_id@,
        r.host_id@ == config.app.node_id@,
        r.hostname@ == (match probe.hostname {
            Some(h) => h@,
            None => config.app.node_id@,
        }),
        r.private_ip@ == private_ip_spec(
            probe.network_interfaces@,
            opt_string_view(probe.route_ip),
        ),
        r.hypervisor_type@ == "kvm"@,
        r.agent_version@ == config.agent.version@,
        r.capabilities_json@ == crate::agent::payload::json_object_text(
            seq![
                ("mtls"@, crate::agent::payload::JsonScalarView::Bool(true)),
                ("heartbeat"@, crate::agent::payload::JsonScalarView::Bool(true)),
            ],
        ),
        (r.cpu_cores, r.cpu_threads) == cpu_specs_spec(lines_spec(text_or_empty(probe.cpuinfo))),
        r.memory_bytes == (match probe.meminfo {
            Some(m) => match mem_total_in(lines_spec(m@)) {
                Some(b) => b,
                None => 0,
            },
            None => 0,
        }),
        r.disk_bytes == (match probe.root_df {
            Some(d) => match disk_bytes_spec(d@) {
                Some(b) => b,
                None => 0,
            },
            None => 0,
        }),
        r.gpu_cores == 0,
        r.gpu_memory_gib == 0,
        r.cpu_packages@.len() == 1,
        r.cpu_packages@[0].model@ == cpu_model_spec(text_or_empty(probe.cpuinfo)),
        r.cpu_packages@[0].cores == r.cpu_cores,
        r.cpu_packages@[0].threads == r.cpu_threads,
        r.memory_modules@.len() == 1,
        r.memory_modules@[0].model@ == "Standard Memory Module"@,
        r.memory_modules@[0].size_gib == memory_size_gib(r.memory_bytes),
        r.gpu_devices@.len() == 1,
        r.gpu_devices@[0].model@ == gpu_model_spec(
            opt_string_view(probe.lspci),
        ),
        r.network_interfaces@ == probe.network_interfaces@,
{
    let node_id = &config.app.node_id;
    let hostname = match probe.hostname {
        Some(h) => h,
        None => node_id.clone(),
    };
    let private_ip = choose_private_ip(&probe.network_interfaces, probe.route_ip);
    let cpuinfo = text_or_empty_of(&probe.cpuinfo);
    let (cpu_cores, cpu_threads) = parse_cpu_specs(cpuinfo);
    let cpu_model = parse_cpu_model(cpuinfo);
    let memory_bytes = match &probe.meminfo {
        Some(m) => match parse_memory_bytes(m.as_str()) {
            Some(b) => b,
            None => 0,
        },
        None => 0,
    };
    let disk_bytes = match &probe.root_df {
        Some(d) => match parse_disk_bytes(d.as_str()) {
            Some(b) => b,
            None => 0,
        },
        None => 0,
    };
    let lspci: Option<&str> = match &probe.lspci {
        Some(o) => Some(o.as_str()),
        None => None,
    };
    let gpu_model = parse_gpu_model(lspci);
    let g = memory_bytes / 1073741824;
    let size_gib: i32 = if g > 0x7fff_ffff {
        0x7fff_ffff
    } else if g < 0 {
        0
    } else {
        g as i32
    };
    let mut cpu_packages: Vec<CPUPackage> = Vec::new();
    cpu_packages.push(
        CPUPackage { package_index: 0, model: cpu_model, cores: cpu_cores, threads: cpu_threads },
    );
    let mut memory_modules: Vec<MemoryModule> = Vec::new();
    memory_modules.push(MemoryModule { slot_index: 0, model: discover_ram_model(), size_gib });
    let mut gpu_devices: Vec<GPUDevice> = Vec::new();
    gpu_devices.push(GPUDevice { device_index: 0, model: gpu_model, memory_gib: 0, core_count: 0 });
    HostFacts {
        agent_id: node_id.clone(),
        host_id: node_id.clone(),
        hostname,
        private_ip,
        hypervisor_type: str_to_string("kvm"),
        agent_version: config.agent.version.clone(),
        capabilities_json: crate::agent::payload::capabilities_json(),
        cpu_cores,
        cpu_threads,
        memory_bytes,
        disk_bytes,
        gpu_cores: 0,
        gpu_memory_gib: 0,
        cpu_packages,
        memory_modules,
        gpu_devices,
        network_interfaces: probe.network_interfaces,
    }
}

} // verus!
