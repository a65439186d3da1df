use vstd::prelude::*;

use crate::config::LogConfig;
use crate::text::{chars_of, str_to_string, trimmed_upper, upper_seq, trim_spec, vec_is};

verus! {

/// The severity of a log event, most verbose first.
#[derive(Clone, Copy, Debug, PartialEq, Eq, Structural)]
pub enum LogLevel {
    Trace,
    Debug,
    Info,
    Warn,
    Error,
}

/// The most verbose level a log output accepts, or none at all.
#[derive(Clone, Copy, Debug, PartialEq, Eq, Structural)]
pub enum LevelFilter {
    Off,
    Error,
    Warn,
    Info,
    Debug,
    Trace,
}

/// The filter a `LOG_LEVEL` value names, compared after trimming and ASCII
/// upper-casing; `WARNING` is `WARN`.
pub open spec fn level_filter_spec(raw: Seq<char>) -> Option<LevelFilter> {
    let u = upper_seq(trim_spec(raw));
    if u == "TRACE"@ {
        Some(LevelFilter::Trace)
    } else if u == "DEBUG"@ {
        Some(LevelFilter::Debug)
    } else if u == "INFO"@ {
        Some(LevelFilter::Info)
    } else if u == "WARN"@ || u == "WARNING"@ {
        Some(LevelFilter::Warn)
    } else if u == "ERROR"@ {
        Some(LevelFilter::Error)
    } else if u == "OFF"@ {
        Some(LevelFilter::Off)
    } else {
        None
    }
}

/// The name a filter goes by in `LOG_LEVEL`.
pub open spec fn filter_name(f: LevelFilter) -> Seq<char> {
    match f {
        LevelFilter::Off => "OFF"@,
        LevelFilter::Error => "ERROR"@,
        LevelFilter::Warn => "WARN"@,
        LevelFilter::Info => "INFO"@,
        LevelFilter::Debug => "DEBUG"@,
        LevelFilter::Trace => "TRACE"@,
    }
}

/// Each `LOG_LEVEL` value selects the filter whose name it is, once
/// trimmed and upper-cased (`WARNING` also naming `WARN`), and no filter
/// when it names none.
pub proof fn law_level_name_selects_its_filter(raw: Seq<char>, f: LevelFilter)
    ensures
        level_filter_spec(raw) == Some(f) <==> (upper_seq(trim_spec(raw)) == filter_name(f) || (f
            == LevelFilter::Warn && upper_seq(trim_spec(raw)) == "WARNING"@)),
{
    reveal_strlit("OFF");
    reveal_strlit("ERROR");
    reveal_strlit("WARN");
    reveal_strlit("WARNING");
    reveal_strlit("INFO");
    reveal_strlit("DEBUG");
    reveal_strlit("TRACE");
    let u = upper_seq(trim_spec(raw));
    assert(forall|a: Seq<char>, b: Seq<char>| a.len() != b.len() ==> a != b);
    assert("OFF"@[0] != "ERROR"@[0] && "OFF"@[0] != "WARN"@[0] && "OFF"@[0] != "INFO"@[0]
        && "OFF"@[0] != "DEBUG"@[0] && "OFF"@[0] != "TRACE"@[0] && "OFF"@[0] != "WARNING"@[0]);
    assert("ERROR"@[0] != "WARN"@[0] && "ERROR"@[0] != "INFO"@[0] && "ERROR"@[0] != "DEBUG"@[0]
        && "ERROR"@[0] != "TRACE"@[0] && "ERROR"@[0] != "WARNING"@[0]);
    assert("WARN"@[0] != "INFO"@[0] && "WARN"@[0] != "DEBUG"@[0] && "WARN"@[0] != "TRACE"@[0]);
    assert("WARNING"@[0] != "INFO"@[0] && "WARNING"@[0] != "DEBUG"@[0] && "WARNING"@[0]
        != "TRACE"@[0]);
    assert("INFO"@[0] != "DEBUG"@[0] && "INFO"@[0] != "TRACE"@[0]);
    assert("DEBUG"@[0] != "TRACE"@[0]);
    assert("WARN"@.len() != "WARNING"@.len());
}

pub fn parse_level_filter(raw: &str) -> (r: Option<LevelFilter>)
    ensures
        r == level_filter_spec(raw@),
{
    let u = trimmed_upper(raw);
    if vec_is(&u, "TRACE") {
        Some(LevelFilter::Trace)
    } else if vec_is(&u, "DEBUG") {
        Some(LevelFilter::Debug)
    } else if vec_is(&u, "INFO") {
        Some(LevelFilter::Info)
    } else if vec_is(&u, "WARN") || vec_is(&u, "WARNING") {
        Some(LevelFilter::Warn)
    } else if vec_is(&u, "ERROR") {
        Some(LevelFilter::Error)
    } else if vec_is(&u, "OFF") {
        Some(LevelFilter::Off)
    } else {
        None
    }
}

/// Rank of a level, errors lowest.
pub open spec fn severity_rank(level: LogLevel) -> int {
    match level {
        LogLevel::Error => 1,
        LogLevel::Warn => 2,
        LogLevel::Info => 3,
        LogLevel::Debug => 4,
        LogLevel::Trace => 5,
    }
}

pub open spec fn filter_rank(min: LevelFilter) -> int {
    match min {
        LevelFilter::Off => 0,
        LevelFilter::Error => 1,
        LevelFilter::Warn => 2,
        LevelFilter::Info => 3,
        LevelFilter::Debug => 4,
        LevelFilter::Trace => 5,
    }
}

/// Whether a filter lets a level through: a level passes when it is at
/// most as verbose as the filter; `Off` passes nothing.
pub fn level_allowed(level: LogLevel, min: LevelFilter) -> (r: bool)
    ensures
        r == (severity_rank(level) <= filter_rank(min)),
{
    match min {
        LevelFilter::Off => false,
        LevelFilter::Error => level == LogLevel::Error,
        LevelFilter::Warn => match level {
            LogLevel::Warn | LogLevel::Error => true,
            _ => false,
        },
        LevelFilter::Info => match level {
            LogLevel::Info | LogLevel::Warn | LogLevel::Error => true,
            _ => false,
        },
        LevelFilter::Debug => match level {
            LogLevel::Debug | LogLevel::Info | LogLevel::Warn | LogLevel::Error => true,
            _ => false,
        },
        LevelFilter::Trace => true,
    }
}

/// The filter the logger runs with: the configured one, `Info` when the
/// configured level is not known.
pub fn effective_filter(raw: &str) -> (r: LevelFilter)
    ensures
        r == (match level_filter_spec(raw@) {
            Some(f) => f,
            None => LevelFilter::Info,
        }),
{
    match parse_level_filter(raw) {
        Some(f) => f,
        None => LevelFilter::Info,
    }
}

/// Whether an event goes to standard output: allowed by the filter and of
/// level `WARN` or `ERROR` (levels at most as verbose as `WARN`).
pub fn stdout_accepts(level: LogLevel, min: LevelFilter) -> (r: bool)
    ensures
        r == (severity_rank(level) <= filter_rank(min) && severity_rank(level) <= 2),
{
    level_allowed(level, min) && (level == LogLevel::Warn || level == LogLevel::Error)
}

/// Whether an event goes to standard error: allowed by the filter (every
/// level is at least as verbose as `ERROR`).
pub fn stderr_accepts(level: LogLevel, min: LevelFilter) -> (r: bool)
    ensures
        r == (severity_rank(level) <= filter_rank(min)),
{
    level_allowed(level, min)
}

/// The fields of the process's root span `vm_agent`: the service, the
/// environment and the host id it logs for.
#[derive(Clone, Debug)]
pub struct AppSpan {
    pub service: String,
    pub environment: String,
    pub host_id: String,
}

pub fn app_span(cfg: &LogConfig) -> (s: AppSpan)
    ensures
        s.service@ == cfg.service@,
        s.environment@ == cfg.environment@,
        s.host_id@ == cfg.host_id@,
{
    AppSpan {
        service: cfg.service.clone(),
        environment: cfg.environment.clone(),
        host_id: cfg.host_id.clone(),
    }
}

/// Whether the log format is JSON: `json` in any ASCII case, after
/// trimming.
pub fn is_json_format(format: &str) -> (r: bool)
    ensures
        r == (crate::text::lower_seq(trim_spec(format@)) == "json"@),
{
    let l = crate::text::trimmed_lower(format);
    vec_is(&l, "json")
}

/// The UTF-8 width of a character.
pub open spec fn utf8_width(c: char) -> nat {
    let n = c as u32;
    if n < 0x80 {
        1
    } else if n < 0x800 {
        2
    } else if n < 0x10000 {
        3
    } else {
        4
    }
}

/// The UTF-8 length of a text in bytes.
pub open spec fn byte_len(s: Seq<char>) -> nat
    decreases s.len(),
{
    if s.len() == 0 {
        0
    } else {
        byte_len(s.drop_last()) + utf8_width(s.last())
    }
}

/// Whether byte offset `b` of a text falls between two characters.
pub open spec fn is_boundary(s: Seq<char>, b: int) -> bool {
    exists|k: int| 0 <= k <= s.len() && byte_len(#[trigger] s.take(k)) == b
}

/// The character index at byte offset `b`.
pub open spec fn boundary_index(s: Seq<char>, b: int) -> int {
    choose|k: int| 0 <= k <= s.len() && byte_len(#[trigger] s.take(k)) == b
}

/// A secret masked for logging: empty stays empty, up to six bytes become
/// `***`, longer texts keep their first and last three bytes around `***`.
pub open spec fn redact_spec(s: Seq<char>) -> Seq<char> {
    let n = byte_len(s);
    if n == 0 {
        Seq::empty()
    } else if n <= 6 {
        "***"@
    } else {
        s.take(boundary_index(s, 3)) + "***"@ + s.skip(boundary_index(s, n - 3))
    }
}

proof fn lemma_byte_len_take_strict(s: Seq<char>, i: int, j: int)
    requires
        0 <= i < j <= s.len(),
    ensures
        byte_len(s.take(i)) < byte_len(s.take(j)),
    decreases j - i,
{
    assert(s.take(j).drop_last() =~= s.take(j - 1));
    if i < j - 1 {
        lemma_byte_len_take_strict(s, i, j - 1);
    }
}

proof fn lemma_boundary_unique(s: Seq<char>, b: int, k: int)
    requires
        0 <= k <= s.len(),
        byte_len(s.take(k)) == b,
    ensures
        is_boundary(s, b),
        boundary_index(s, b) == k,
{
    assert(is_boundary(s, b));
    let c = boundary_index(s, b);
    if c < k {
        lemma_byte_len_take_strict(s, c, k);
    } else if c > k {
        lemma_byte_len_take_strict(s, k, c);
    }
}

fn char_width(c: char) -> (w: usize)
    ensures
        w == utf8_width(c),
{
    let n = c as u32;
    if n < 0x80 {
        1
    } else if n < 0x800 {
        2
    } else if n < 0x10000 {
        3
    } else {
        4
    }
}

proof fn lemma_byte_len_concat(a: Seq<char>, b: Seq<char>)
    ensures
        byte_len(a + b) == byte_len(a) + byte_len(b),
    decreases b.len(),
{
    if b.len() > 0 {
        assert((a + b).drop_last() =~= a + b.drop_last());
        lemma_byte_len_concat(a, b.drop_last());
    } else {
        assert(a + b =~= a);
    }
}

/// A masked secret shows at most six of its bytes: a secret of up to six
/// bytes is masked entirely (as nothing when empty, else as `***`), a
/// longer one keeps only its first three and last three bytes around
/// `***`, nine bytes in all.
pub proof fn law_redaction_shows_at_most_six_bytes(s: Seq<char>)
    requires
        byte_len(s) > 6 ==> is_boundary(s, 3) && is_boundary(s, byte_len(s) - 3),
    ensures
        byte_len(s) == 0 ==> redact_spec(s).len() == 0,
        0 < byte_len(s) <= 6 ==> redact_spec(s) == "***"@,
        byte_len(s) > 6 ==> byte_len(redact_spec(s)) == 9 && byte_len(
            redact_spec(s).take(boundary_index(s, 3)),
        ) == 3,
{
    reveal_strlit("***");
    let star = "***"@;
    assert(byte_len(star) == 3) by {
        let s2 = star.drop_last();
        let s1 = s2.drop_last();
        let s0 = s1.drop_last();
        assert(s0.len() == 0);
        assert(s1.last() == '*' && s2.last() == '*' && star.last() == '*');
        assert(byte_len(s0) == 0);
        assert(byte_len(s1) == 1);
        assert(byte_len(s2) == 2);
    }
    let n = byte_len(s);
    if n > 6 {
        let ka = boundary_index(s, 3);
        let kb = boundary_index(s, n - 3);
        assert(0 <= ka <= s.len() && byte_len(s.take(ka)) == 3);
        assert(0 <= kb <= s.len() && byte_len(s.take(kb)) == n - 3);
        assert(s =~= s.take(kb) + s.skip(kb));
        lemma_byte_len_concat(s.take(kb), s.skip(kb));
        lemma_byte_len_concat(s.take(ka), star);
        lemma_byte_len_concat(s.take(ka) + star, s.skip(kb));
        let r = s.take(ka) + star + s.skip(kb);
        assert(r.take(ka) =~= s.take(ka));
    }
}

/// Masks a secret for logging; for texts over six bytes, the third byte
/// and the third from the end must fall between characters.
pub fn redact(input: &str) -> (r: String)
    requires
        byte_len(input@) > 6 ==> is_boundary(input@, 3) && is_boundary(
            input@,
            byte_len(input@) - 3,
        ),
        byte_len(input@) <= usize::MAX,
    ensures
        r@ == redact_spec(input@),
{
    let v = chars_of(input);
    let mut offsets: Vec<usize> = Vec::new();
    let mut total: usize = 0;
    let mut i: usize = 0;
    offsets.push(0);
    assert(v@.take(0) =~= Seq::<char>::empty());
    while i < v.len()
        invariant
            i <= v.len(),
            v@ == input@,
            byte_len(input@) <= usize::MAX,
            offsets@.len() == i + 1,
            total == byte_len(v@.take(i as int)),
            forall|k: int| 0 <= k <= i ==> offsets@[k] == byte_len(#[trigger] v@.take(k)),
        decreases v.len() - i,
    {
        assert(v@.take(i + 1).drop_last() =~= v@.take(i as int));
        proof {
            lemma_byte_len_take_le(v@, i + 1);
        }
        total = total + char_width(v[i]);
        offsets.push(total);
        i = i + 1;
    }
    assert(v@.take(v@.len() as int) =~= v@);
    if total == 0 {
        return String::new();
    }
    if total <= 6 {
        return str_to_string("***");
    }
    let mut a: usize = 0;
    while a < v.len() && offsets[a] != 3
        invariant
            a <= v.len(),
            forall|k: int| 0 <= k < a ==> offsets@[k] != 3,
            offsets@.len() == v.len() + 1,
            forall|k: int| 0 <= k <= v.len() ==> offsets@[k] == byte_len(#[trigger] v@.take(k)),
        decreases v.len() - a,
    {
        a = a + 1;
    }
    let mut b: usize = 0;
    while b < v.len() && offsets[b] != total - 3
        invariant
            b <= v.len(),
            total > 6,
            forall|k: int| 0 <= k < b ==> offsets@[k] != total - 3,
            offsets@.len() == v.len() + 1,
            forall|k: int| 0 <= k <= v.len() ==> offsets@[k] == byte_len(#[trigger] v@.take(k)),
        decreases v.len() - b,
    {
        b = b + 1;
    }
    proof {
        let ka = boundary_index(input@, 3);
        let kb = boundary_index(input@, byte_len(input@) - 3);
        lemma_boundary_unique(input@, 3, ka);
        lemma_boundary_unique(input@, byte_len(input@) - 3, kb);
        assert(offsets@[ka] == 3);
        assert(offsets@[kb] == total - 3);
        assert(offsets@[v.len() as int] == total);
        assert(offsets@[a as int] == 3);
        assert(offsets@[b as int] == total - 3);
        lemma_boundary_unique(input@, 3, a as int);
        lemma_boundary_unique(input@, byte_len(input@) - 3, b as int);
    }
    let left = crate::text::string_from_range(&v, 0, a);
    let right = crate::text::string_from_range(&v, b, v.len());
    assert(v@.subrange(0, a as int) =~= input@.take(a as int));
    assert(v@.subrange(b as int, v@.len() as int) =~= input@.skip(b as int));
    crate::text::concat3(left.as_str(), "***", right.as_str())
}

proof fn lemma_byte_len_take_le(s: Seq<char>, k: int)
    requires
        0 <= k <= s.len(),
    ensures
        byte_len(s.take(k)) <= byte_len(s),
    decreases s.len() - k,
{
    if k < s.len() {
        lemma_byte_len_take_le(s, k + 1);
        assert(s.take(k + 1).drop_last() =~= s.take(k));
    } else {
        assert(s.take(k) =~= s);
    }
}

} // verus!
