use vstd::prelude::*;

use crate::config::AppConfig;
use crate::clock::Duration;
use crate::model::host::{AgentIdentityState, HostFacts};
use crate::text::{
    lower_seq, lower_vec, vec_has_prefix,
    opt_string_view,
    before_char, blank, chars_of, concat2, find_char_in, has_prefix, has_prefix_at, is_blank, is_ws,
    skip_all_prefix, starts_with, str_to_string, string_from_range, strip_all_prefix,
    strip_prefix_spec, trim, trim_end_spec, trim_spec, trim_start_spec, vec_slice,
    lemma_strip_all_prefix_suffix, lemma_trim_fixed, lemma_trimmed_ends,
};

verus! {

/// The status codes a gRPC call can fail with.
#[derive(Clone, Copy, Debug, PartialEq, Eq, Structural)]
pub enum GrpcCode {
    Success,
    Cancelled,
    Unknown,
    InvalidArgument,
    DeadlineExceeded,
    NotFound,
    AlreadyExists,
    PermissionDenied,
    ResourceExhausted,
    FailedPrecondition,
    Aborted,
    OutOfRange,
    Unimplemented,
    Internal,
    Unavailable,
    DataLoss,
    Unauthenticated,
}

/// Whether an address begins with the scheme prefix `p` (given in lower
/// case), in any ASCII case.
pub open spec fn names_scheme(addr: Seq<char>, p: Seq<char>) -> bool {
    has_prefix(lower_seq(addr), p)
}

/// The bootstrap endpoint for a configured address: trimmed, an explicit
/// `http://` or `https://` scheme (in any ASCII case) kept, and defaulted
/// to plaintext `http://` when it names no scheme.
pub open spec fn bootstrap_endpoint_spec(raw: Seq<char>) -> Option<Seq<char>> {
    let t = trim_spec(raw);
    if t.len() == 0 {
        None
    } else if names_scheme(t, "https://"@) || names_scheme(t, "http://"@) {
        Some(t)
    } else {
        Some("http://"@ + t)
    }
}

/// The runtime (mTLS) endpoint for an address: always `https://`, an
/// `http://` scheme replaced rather than kept.
pub open spec fn mtls_endpoint_spec(raw: Seq<char>) -> Seq<char> {
    let t = trim_spec(raw);
    if has_prefix(t, "https://"@) {
        t
    } else if has_prefix(t, "http://"@) {
        "https://"@ + strip_all_prefix(t, "http://"@)
    } else {
        "https://"@ + t
    }
}

/// An address without its `https://` or `http://` scheme.
pub open spec fn without_scheme(raw: Seq<char>) -> Seq<char> {
    match strip_prefix_spec(raw, "https://"@) {
        Some(rest) => rest,
        None => match strip_prefix_spec(raw, "http://"@) {
            Some(rest) => rest,
            None => raw,
        },
    }
}

/// The host part of a target address: scheme, path and port removed.
pub open spec fn target_host(target: Seq<char>) -> Seq<char> {
    before_char(before_char(without_scheme(trim_spec(target)), '/'), ':')
}

/// The TLS server name: the configured override when it is not blank,
/// else the host of the target address.
pub open spec fn server_name_spec(server_name: Seq<char>, target: Seq<char>) -> Seq<char> {
    let name = trim_spec(server_name);
    if name.len() > 0 {
        name
    } else {
        target_host(target)
    }
}

/// The bootstrap endpoint for `raw`: an explicit `http://` or `https://`
/// scheme is kept, a bare `host:port` gets `http://`.
pub fn normalize_bootstrap_endpoint(raw: &str) -> (r: Result<String, String>)
    ensures
        match r {
            Ok(e) => bootstrap_endpoint_spec(raw@) == Some(e@),
            Err(msg) => bootstrap_endpoint_spec(raw@) is None && msg@
                == "AGENT_BOOTSTRAP_TARGET_ADDR must not be empty"@,
        },
{
    let trimmed = trim(raw);
    if blank(trimmed) {
        proof {
            lemma_trim_idempotent_blank(raw@);
        }
        return Err(str_to_string("AGENT_BOOTSTRAP_TARGET_ADDR must not be empty"));
    }
    proof {
        lemma_trim_idempotent_blank(raw@);
    }
    let lower = lower_vec(&chars_of(trimmed));
    if vec_has_prefix(&lower, "https://") || vec_has_prefix(&lower, "http://") {
        return Ok(str_to_string(trimmed));
    }
    Ok(concat2("http://", trimmed))
}

/// The runtime endpoint for `raw`, forced to `https://` so that runtime
/// traffic cannot fall back to plaintext.
pub fn normalize_mtls_endpoint(raw: &str) -> (r: String)
    ensures
        r@ == mtls_endpoint_spec(raw@),
{
    let trimmed = trim(raw);
    if starts_with(trimmed, "https://") {
        return str_to_string(trimmed);
    }
    if starts_with(trimmed, "http://") {
        let v = chars_of(trimmed);
        let p = chars_of("http://");
        let k = skip_all_prefix(&v, 0, &p);
        assert(v@.subrange(0, v@.len() as int) =~= v@);
        let rest = string_from_range(&v, k, v.len());
        return concat2("https://", rest.as_str());
    }
    concat2("https://", trimmed)
}

/// `s` without the leading run of `p` when `s` starts with `p`, as the
/// index where the rest begins.
fn strip_once(v: &Vec<char>, p: &str) -> (r: Option<usize>)
    ensures
        match r {
            Some(k) => k <= v.len() && strip_prefix_spec(v@, p@) == Some(
                v@.subrange(k as int, v@.len() as int),
            ),
            None => strip_prefix_spec(v@, p@) is None,
        },
{
    let pv = chars_of(p);
    assert(v@.subrange(0, v@.len() as int) =~= v@);
    if has_prefix_at(v, 0, &pv) {
        Some(pv.len())
    } else {
        None
    }
}

/// The TLS server name for a connection to `target_addr`: the configured
/// `server_name` override when it is set, otherwise the target's host.
pub fn server_name_for_target(config: &AppConfig, target_addr: &str) -> (r: String)
    ensures
        r@ == server_name_spec(config.agent.server_name@, target_addr@),
{
    let name = trim(config.agent.server_name.as_str());
    if !blank(name) {
        proof {
            lemma_trim_idempotent_blank(config.agent.server_name@);
        }
        return str_to_string(name);
    }
    proof {
        lemma_trim_idempotent_blank(config.agent.server_name@);
    }
    let raw = chars_of(trim(target_addr));
    let start: usize = match strip_once(&raw, "https://") {
        Some(k) => k,
        None => match strip_once(&raw, "http://") {
            Some(k) => k,
            None => {
                assert(raw@.subrange(0, raw@.len() as int) =~= raw@);
                0
            },
        },
    };
    let ghost ws = without_scheme(raw@);
    assert(ws == raw@.subrange(start as int, raw@.len() as int));
    let slash = find_char_in(&raw, start, '/');
    let ghost hp = before_char(ws, '/');
    assert(hp =~= raw@.subrange(start as int, slash as int));
    let hp_vec = vec_slice(&raw, start, slash);
    let colon = find_char_in(&hp_vec, 0, ':');
    assert(hp_vec@.subrange(0, hp_vec@.len() as int) =~= hp_vec@);
    string_from_range(&hp_vec, 0, colon)
}

/// Trimming a string that trims to nothing leaves nothing, and trimming
/// twice is trimming once.
pub proof fn lemma_trim_idempotent_blank(s: Seq<char>)
    ensures
        trim_spec(trim_spec(s)) == trim_spec(s),
        is_blank(trim_spec(s)) == is_blank(s),
{
    lemma_trim_start_no_ws(s);
    lemma_trim_end_shape(trim_start_spec(s));
    let u = trim_start_spec(s);
    let t = trim_spec(s);
    if t.len() > 0 {
        assert(t[0] == u[0]);
        assert(trim_start_spec(t) == t);
        assert(trim_end_spec(t) == t);
    }
}

proof fn lemma_trim_start_no_ws(s: Seq<char>)
    ensures
        trim_start_spec(s).len() > 0 ==> !is_ws(trim_start_spec(s)[0]),
    decreases s.len(),
{
    if s.len() > 0 && is_ws(s[0]) {
        lemma_trim_start_no_ws(s.drop_first());
    }
}

proof fn lemma_trim_end_shape(s: Seq<char>)
    ensures
        trim_end_spec(s).len() <= s.len(),
        trim_end_spec(s) == s.subrange(0, trim_end_spec(s).len() as int),
        trim_end_spec(s).len() > 0 ==> !is_ws(trim_end_spec(s).last()),
    decreases s.len(),
{
    if s.len() > 0 && is_ws(s.last()) {
        lemma_trim_end_shape(s.drop_last());
        assert(s.drop_last().subrange(0, trim_end_spec(s).len() as int) =~= s.subrange(
            0,
            trim_end_spec(s).len() as int,
        ));
    } else {
        assert(s.subrange(0, s.len() as int) =~= s);
    }
}


/// Whether a gRPC failure means the bootstrap request itself is invalid, so
/// that retrying cannot help.
pub open spec fn is_fatal_code(code: Option<GrpcCode>) -> bool {
    code == Some(GrpcCode::Unauthenticated) || code == Some(GrpcCode::InvalidArgument)
}

/// Whether a gRPC failure is an authentication or authorization failure.
pub open spec fn is_auth_code(code: Option<GrpcCode>) -> bool {
    code == Some(GrpcCode::Unauthenticated) || code == Some(GrpcCode::PermissionDenied)
}

/// A bootstrap endpoint is already normalized: normalizing it again gives
/// it back unchanged.
pub proof fn law_bootstrap_endpoint_is_stable(raw: Seq<char>)
    ensures
        bootstrap_endpoint_spec(raw) matches Some(e) ==> bootstrap_endpoint_spec(e) == Some(e),
{
    let t = trim_spec(raw);
    lemma_trimmed_ends(raw);
    reveal_strlit("http://");
    reveal_strlit("https://");
    if t.len() > 0 {
        if names_scheme(t, "https://"@) || names_scheme(t, "http://"@) {
            lemma_trim_fixed(t);
        } else {
            let e = "http://"@ + t;
            assert(e[0] == 'h');
            assert(e.last() == t.last());
            lemma_trim_fixed(e);
            assert(lower_seq(e).subrange(0, 7) =~= "http://"@);
        }
    }
}

/// Runtime traffic cannot fall back to plaintext: every runtime endpoint
/// is `https://`, and normalizing it again gives it back unchanged.
pub proof fn law_runtime_endpoint_is_https(raw: Seq<char>)
    ensures
        has_prefix(mtls_endpoint_spec(raw), "https://"@),
        mtls_endpoint_spec(mtls_endpoint_spec(raw)) == mtls_endpoint_spec(raw),
{
    let t = trim_spec(raw);
    let m = mtls_endpoint_spec(raw);
    lemma_trimmed_ends(raw);
    reveal_strlit("http://");
    reveal_strlit("https://");
    if has_prefix(t, "https://"@) {
        lemma_trim_fixed(t);
    } else {
        let rest = if has_prefix(t, "http://"@) {
            strip_all_prefix(t, "http://"@)
        } else {
            t
        };
        lemma_strip_all_prefix_suffix(t, "http://"@);
        assert(m == "https://"@ + rest);
        assert(m.subrange(0, 8) =~= "https://"@);
        if rest.len() > 0 {
            assert(rest.last() == t.last());
            assert(m.last() == rest.last());
        } else {
            assert(m.last() == '/');
        }
        assert(m[0] == 'h');
        lemma_trim_fixed(m);
    }
}

/// Classifies a failure by the gRPC status found in its cause chain
/// (`None` when the chain holds no gRPC status): fatal when the token or
/// request is rejected as such.
pub fn is_fatal_bootstrap_error(status_code: Option<GrpcCode>) -> (r: bool)
    ensures
        r == is_fatal_code(status_code),
{
    match status_code {
        Some(GrpcCode::Unauthenticated) => true,
        Some(GrpcCode::InvalidArgument) => true,
        _ => false,
    }
}

/// Classifies a failure by the gRPC status found in its cause chain as a
/// credential problem rather than a transient transport error.
pub fn is_auth_failure(status_code: Option<GrpcCode>) -> (r: bool)
    ensures
        r == is_auth_code(status_code),
{
    match status_code {
        Some(GrpcCode::Unauthenticated) => true,
        Some(GrpcCode::PermissionDenied) => true,
        _ => false,
    }
}

/// The runtime target for post-enrollment traffic: the target stored with
/// the enrolled identity, else the configured runtime target, else the
/// bootstrap target.
pub open spec fn controlplane_target_spec(
    stored: Option<Seq<char>>,
    configured: Seq<char>,
    bootstrap: Seq<char>,
) -> Seq<char> {
    match stored {
        Some(a) if trim_spec(a).len() > 0 => trim_spec(a),
        _ => if trim_spec(configured).len() > 0 {
            trim_spec(configured)
        } else {
            bootstrap
        },
    }
}

pub fn controlplane_target(config: &AppConfig, identity: &AgentIdentityState) -> (r: String)
    ensures
        r@ == controlplane_target_spec(
            opt_string_view(identity.runtime_target_addr),
            config.agent.runtime_target_addr@,
            config.agent.bootstrap_target_addr@,
        ),
{
    match &identity.runtime_target_addr {
        Some(a) => {
            let t = trim(a.as_str());
            if !blank(t) {
                proof {
                    lemma_trim_idempotent_blank(a@);
                }
                return str_to_string(t);
            }
            proof {
                lemma_trim_idempotent_blank(a@);
            }
        },
        None => {},
    }
    let configured = trim(config.agent.runtime_target_addr.as_str());
    proof {
        lemma_trim_idempotent_blank(config.agent.runtime_target_addr@);
    }
    if !blank(configured) {
        str_to_string(configured)
    } else {
        config.agent.bootstrap_target_addr.clone()
    }
}

/// How to reach a runtime target over mTLS.
#[derive(Clone, Debug)]
pub struct MtlsTransport {
    pub endpoint: String,
    pub server_name: String,
    pub connect_timeout: Duration,
}

pub open spec fn mtls_identity_error(identity: AgentIdentityState) -> Option<Seq<char>> {
    if identity.ca_bundle_pem@.len() == 0 {
        Some("missing CA bundle for mTLS controlplane/dataplane connection"@)
    } else if identity.client_cert_pem@.len() == 0 || identity.client_key_pem@.len() == 0 {
        Some(
            "missing client certificate or private key for mTLS controlplane/dataplane connection"@,
        )
    } else {
        None
    }
}

/// The mTLS connection plan for `target_addr`: the endpoint forced to
/// `https://`, the server name, and the connect timeout; refused when the
/// identity lacks the CA bundle, the client certificate or the key.
pub fn mtls_transport(config: &AppConfig, target_addr: &str, identity: &AgentIdentityState) -> (r:
    Result<MtlsTransport, String>)
    ensures
        match r {
            Ok(t) => mtls_identity_error(*identity) is None && t.endpoint@ == mtls_endpoint_spec(
                target_addr@,
            ) && t.server_name@ == server_name_spec(config.agent.server_name@, target_addr@)
                && t.connect_timeout == config.agent.connect_timeout,
            Err(e) => mtls_identity_error(*identity) == Some(e@),
        },
{
    if identity.ca_bundle_pem.len() == 0 {
        return Err(str_to_string("missing CA bundle for mTLS controlplane/dataplane connection"));
    }
    if identity.client_cert_pem.len() == 0 || identity.client_key_pem.len() == 0 {
        return Err(
            str_to_string(
                "missing client certificate or private key for mTLS controlplane/dataplane connection",
            ),
        );
    }
    Ok(
        MtlsTransport {
            endpoint: normalize_mtls_endpoint(target_addr),
            server_name: server_name_for_target(config, target_addr),
            connect_timeout: config.agent.connect_timeout,
        },
    )
}

/// How to reach the bootstrap endpoint: plaintext for `http://`, one-way
/// TLS (server name and CA bundle path) otherwise.
#[derive(Clone, Debug)]
pub struct BootstrapTransport {
    pub endpoint: String,
    pub connect_timeout: Duration,
    pub tls: Option<BootstrapTls>,
}

#[derive(Clone, Debug)]
pub struct BootstrapTls {
    pub server_name: String,
    pub ca_path: String,
}

pub fn bootstrap_transport(config: &AppConfig) -> (r: Result<BootstrapTransport, String>)
    ensures
        match r {
            Ok(t) => {
                &&& bootstrap_endpoint_spec(config.agent.bootstrap_target_addr@) == Some(t.endpoint@)
                &&& t.connect_timeout == config.agent.connect_timeout
                &&& match t.tls {
                    None => names_scheme(t.endpoint@, "http://"@),
                    Some(tls) => !names_scheme(t.endpoint@, "http://"@) && tls.server_name@
                        == server_name_spec(
                        config.agent.server_name@,
                        config.agent.bootstrap_target_addr@,
                    ) && tls.ca_path@ == config.agent.ca_path@,
                }
            },
            Err(e) => bootstrap_endpoint_spec(config.agent.bootstrap_target_addr@) is None && e@
                == "AGENT_BOOTSTRAP_TARGET_ADDR must not be empty"@,
        },
{
    let endpoint = normalize_bootstrap_endpoint(config.agent.bootstrap_target_addr.as_str())?;
    if vec_has_prefix(&lower_vec(&chars_of(endpoint.as_str())), "http://") {
        return Ok(
            BootstrapTransport { endpoint, connect_timeout: config.agent.connect_timeout, tls: None },
        );
    }
    let server_name = server_name_for_target(config, config.agent.bootstrap_target_addr.as_str());
    Ok(
        BootstrapTransport {
            endpoint,
            connect_timeout: config.agent.connect_timeout,
            tls: Some(BootstrapTls { server_name, ca_path: config.agent.ca_path.clone() }),
        },
    )
}

/// The bootstrap enrollment request, before the CSR is attached.
#[derive(Clone, Debug)]
pub struct EnrollmentRequest {
    pub bootstrap_token: String,
    pub requested_agent_id: String,
    pub hostname: String,
    pub csr_common_name: String,
}

/// The enrollment request for this host; refused while no bootstrap token
/// is configured.
pub fn enrollment_request(config: &AppConfig, facts: &HostFacts) -> (r: Result<
    EnrollmentRequest,
    String,
>)
    ensures
        match r {
            Ok(req) => !is_blank(config.agent.bootstrap_token@) && req.bootstrap_token@
                == config.agent.bootstrap_token@ && req.requested_agent_id@ == facts.agent_id@
                && req.hostname@ == facts.hostname@ && req.csr_common_name@ == "vm-agent:"@
                + facts.agent_id@,
            Err(e) => is_blank(config.agent.bootstrap_token@) && e@
                == "bootstrap token is required until the first enrollment succeeds"@,
        },
{
    if blank(config.agent.bootstrap_token.as_str()) {
        return Err(str_to_string("bootstrap token is required until the first enrollment succeeds"));
    }
    Ok(
        EnrollmentRequest {
            bootstrap_token: config.agent.bootstrap_token.clone(),
            requested_agent_id: facts.agent_id.clone(),
            hostname: facts.hostname.clone(),
            csr_common_name: concat2("vm-agent:", facts.agent_id.as_str()),
        },
    )
}

/// Checks the control plane's enrollment answer: both the assigned agent id
/// and the runtime target must be present.
pub fn check_enrollment_response(agent_id: &str, runtime_target_addr: &str) -> (r: Result<(), String>)
    ensures
        match r {
            Ok(_) => !is_blank(agent_id@) && !is_blank(runtime_target_addr@),
            Err(e) => if is_blank(agent_id@) {
                e@ == "bootstrap enrollment returned empty agent id"@
            } else {
                is_blank(runtime_target_addr@) && e@
                    == "bootstrap enrollment returned empty runtime target addr"@
            },
        },
{
    if blank(agent_id) {
        return Err(str_to_string("bootstrap enrollment returned empty agent id"));
    }
    if blank(runtime_target_addr) {
        return Err(str_to_string("bootstrap enrollment returned empty runtime target addr"));
    }
    Ok(())
}


} // verus!
