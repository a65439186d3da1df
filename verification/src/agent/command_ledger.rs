use vstd::prelude::*;

use crate::agent::payload::{json_document, parse_json, payload_target, payload_target_of};
use crate::clock::{since_unix_epoch, system_now};
use crate::text::{blank, is_blank, opt_string_view, str_eq, str_to_string, trim, trim_spec, trimmed_string};

verus! {

/// One command in the ledger: what was asked, and how it ended.
#[derive(Clone, Debug)]
pub struct LedgerRecord {
    pub command_id: String,
    pub command_type: String,
    pub payload_hash: String,
    pub resource_key: Option<String>,
    pub status: String,
    pub result_json: String,
    pub error_message: String,
}

pub struct LedgerRecordView {
    pub command_id: Seq<char>,
    pub command_type: Seq<char>,
    pub payload_hash: Seq<char>,
    pub resource_key: Option<Seq<char>>,
    pub status: Seq<char>,
    pub result_json: Seq<char>,
    pub error_message: Seq<char>,
}

impl View for LedgerRecord {
    type V = LedgerRecordView;

    open spec fn view(&self) -> LedgerRecordView {
        LedgerRecordView {
            command_id: self.command_id@,
            command_type: self.command_type@,
            payload_hash: self.payload_hash@,
            resource_key: opt_string_view(self.resource_key),
            status: self.status@,
            result_json: self.result_json@,
            error_message: self.error_message@,
        }
    }
}

fn copy_opt(o: &Option<String>) -> (r: Option<String>)
    ensures
        opt_string_view(r) == opt_string_view(*o),
{
    match o {
        Some(s) => Some(s.clone()),
        None => None,
    }
}

impl LedgerRecord {
    pub fn copy(&self) -> (r: LedgerRecord)
        ensures
            r@ == self@,
    {
        LedgerRecord {
            command_id: self.command_id.clone(),
            command_type: self.command_type.clone(),
            payload_hash: self.payload_hash.clone(),
            resource_key: copy_opt(&self.resource_key),
            status: self.status.clone(),
            result_json: self.result_json.clone(),
            error_message: self.error_message.clone(),
        }
    }
}

/// The outcome of claiming a command id.
pub enum BeginOrGet {
    /// The id was new; this record was stored for it, running.
    New(LedgerRecord),
    /// The id is known with the same type and payload.
    Existing(LedgerRecord),
    /// The id is known with another type or payload.
    PayloadMismatch(LedgerRecord),
}

/// The hex SHA-256 digest of a text's UTF-8 bytes.
pub uninterp spec fn sha256_hex(text: Seq<char>) -> Seq<char>;

/// `sha2::Sha256::digest` of the text's bytes, formatted as lowercase hex.
/// The contract claims that the digest is a function of the text and that
/// its hex form has 64 characters.
#[verifier::external_body]
fn sha256_hex_of(text: &str) -> (r: String)
    ensures
        r@ == sha256_hex(text@),
        r@.len() == 64,
{
    format!("{:x}", <sha2::Sha256 as sha2::Digest>::digest(text.as_bytes()))
}

/// The fingerprint of a payload: the digest of its trimmed text.
pub fn hash_payload(payload_json: &str) -> (r: String)
    ensures
        r@ == sha256_hex(trim_spec(payload_json@)),
{
    sha256_hex_of(trim(payload_json))
}

/// The resource a payload concerns: the target it names, when it parses.
pub open spec fn resource_key_spec(payload_json: Seq<char>) -> Option<Seq<char>> {
    match json_document(payload_json) {
        Ok(doc) => payload_target(doc),
        Err(_) => None,
    }
}

pub fn extract_resource_key(payload_json: &str) -> (r: Option<String>)
    ensures
        opt_string_view(r) == resource_key_spec(payload_json@),
{
    match parse_json(payload_json) {
        Ok(doc) => payload_target_of(&doc),
        Err(_) => None,
    }
}

/// A stored result: `"{}"` in place of a blank one.
pub open spec fn normalized_result(value: Seq<char>) -> Seq<char> {
    if is_blank(value) {
        "{}"@
    } else {
        value
    }
}

pub fn normalize_result_json(value: &str) -> (r: String)
    ensures
        r@ == normalized_result(value@),
{
    if blank(value) {
        return str_to_string("{}");
    }
    str_to_string(value)
}

/// The file the ledger is kept in: the configured path trimmed; a blank
/// path is refused.
pub fn ledger_path(path: &str) -> (r: Result<String, String>)
    ensures
        match r {
            Ok(p) => !is_blank(path@) && p@ == trim_spec(path@),
            Err(e) => is_blank(path@) && e@ == "agent command ledger path is required"@,
        },
{
    if blank(path) {
        return Err(str_to_string("agent command ledger path is required"));
    }
    Ok(trimmed_string(path))
}

/// Seconds since the Unix epoch, reinterpreted as `i64`.
pub fn unix_now() -> (r: i64) {
    let (secs, _) = since_unix_epoch(system_now());
    secs as i64
}

/// A claim on a command id, with its type and payload normalized.
pub struct BeginRequest {
    pub command_id: String,
    pub command_type: String,
    pub payload_hash: String,
    pub resource_key: Option<String>,
}

/// Normalizes a claim: the id and type trimmed, the payload reduced to its
/// fingerprint and the resource it names. A blank id is refused.
pub fn begin_request(command_id: &str, command_type: &str, payload_json: &str) -> (r: Result<
    BeginRequest,
    String,
>)
    ensures
        match r {
            Ok(req) => {
                &&& !is_blank(command_id@)
                &&& req.command_id@ == trim_spec(command_id@)
                &&& req.command_type@ == trim_spec(command_type@)
                &&& req.payload_hash@ == sha256_hex(trim_spec(payload_json@))
                &&& opt_string_view(req.resource_key) == resource_key_spec(payload_json@)
            },
            Err(e) => is_blank(command_id@) && e@ == "command_id is required"@,
        },
{
    if blank(command_id) {
        return Err(str_to_string("command_id is required"));
    }
    Ok(
        BeginRequest {
            command_id: trimmed_string(command_id),
            command_type: trimmed_string(command_type),
            payload_hash: hash_payload(payload_json),
            resource_key: extract_resource_key(payload_json),
        },
    )
}

/// The record stored for a newly claimed command: running, no result yet.
pub open spec fn running_record_spec(
    command_id: Seq<char>,
    command_type: Seq<char>,
    payload_hash: Seq<char>,
    resource_key: Option<Seq<char>>,
) -> LedgerRecordView {
    LedgerRecordView {
        command_id,
        command_type,
        payload_hash,
        resource_key,
        status: "running"@,
        result_json: "{}"@,
        error_message: Seq::empty(),
    }
}

pub fn running_record(req: &BeginRequest) -> (r: LedgerRecord)
    ensures
        r@ == running_record_spec(
            req.command_id@,
            req.command_type@,
            req.payload_hash@,
            opt_string_view(req.resource_key),
        ),
{
    LedgerRecord {
        command_id: req.command_id.clone(),
        command_type: req.command_type.clone(),
        payload_hash: req.payload_hash.clone(),
        resource_key: copy_opt(&req.resource_key),
        status: str_to_string("running"),
        result_json: str_to_string("{}"),
        error_message: String::new(),
    }
}

/// What a claim leads to, given the record already stored for its id.
pub enum BeginDecision {
    /// Answer with this outcome; the ledger is unchanged.
    Answer(BeginOrGet),
    /// Store this record, then answer `New` with it.
    Insert(LedgerRecord),
}

/// A claim as plain values.
pub struct ClaimView {
    pub command_id: Seq<char>,
    pub command_type: Seq<char>,
    pub payload_hash: Seq<char>,
    pub resource_key: Option<Seq<char>>,
}

impl View for BeginRequest {
    type V = ClaimView;

    open spec fn view(&self) -> ClaimView {
        ClaimView {
            command_id: self.command_id@,
            command_type: self.command_type@,
            payload_hash: self.payload_hash@,
            resource_key: opt_string_view(self.resource_key),
        }
    }
}

/// A claim's outcome as plain values.
pub enum ClaimOutcome {
    Insert(LedgerRecordView),
    Existing(LedgerRecordView),
    Mismatch(LedgerRecordView),
}

/// What a claim leads to, given the record stored for its id: that record
/// answers, as `Existing` when type and payload fingerprint agree and as a
/// mismatch otherwise; a new id stores a running record.
pub open spec fn claim_outcome(q: ClaimView, stored: Option<LedgerRecordView>) -> ClaimOutcome {
    match stored {
        Some(rec) => if rec.command_type == q.command_type && rec.payload_hash == q.payload_hash {
            ClaimOutcome::Existing(rec)
        } else {
            ClaimOutcome::Mismatch(rec)
        },
        None => ClaimOutcome::Insert(
            running_record_spec(q.command_id, q.command_type, q.payload_hash, q.resource_key),
        ),
    }
}

pub open spec fn decision_view(d: BeginDecision) -> ClaimOutcome {
    match d {
        BeginDecision::Insert(x) => ClaimOutcome::Insert(x@),
        BeginDecision::Answer(BeginOrGet::Existing(x)) => ClaimOutcome::Existing(x@),
        BeginDecision::Answer(BeginOrGet::PayloadMismatch(x)) => ClaimOutcome::Mismatch(x@),
        BeginDecision::Answer(BeginOrGet::New(x)) => ClaimOutcome::Insert(x@),
    }
}

pub open spec fn opt_record_view(o: Option<LedgerRecord>) -> Option<LedgerRecordView> {
    match o {
        Some(r) => Some(r@),
        None => None,
    }
}

pub fn begin_decision(req: &BeginRequest, stored: Option<LedgerRecord>) -> (r: BeginDecision)
    ensures
        decision_view(r) == claim_outcome(req@, opt_record_view(stored)),
        !(r matches BeginDecision::Answer(BeginOrGet::New(_))),
{
    match stored {
        Some(rec) => {
            if !str_eq(rec.command_type.as_str(), req.command_type.as_str()) || !str_eq(
                rec.payload_hash.as_str(),
                req.payload_hash.as_str(),
            ) {
                return BeginDecision::Answer(BeginOrGet::PayloadMismatch(rec));
            }
            BeginDecision::Answer(BeginOrGet::Existing(rec))
        },
        None => BeginDecision::Insert(running_record(req)),
    }
}

/// How a command ended, as it is written to the ledger.
pub struct Completion {
    pub command_id: String,
    pub status: String,
    pub result_json: String,
    pub error_message: String,
}

/// Normalizes a completion: id, status and error trimmed, a blank result
/// stored as `"{}"`.
pub fn completion(command_id: &str, status: &str, result_json: &str, error_message: &str) -> (r:
    Completion)
    ensures
        r.command_id@ == trim_spec(command_id@),
        r.status@ == trim_spec(status@),
        r.result_json@ == normalized_result(result_json@),
        r.error_message@ == trim_spec(error_message@),
{
    Completion {
        command_id: trimmed_string(command_id),
        status: trimmed_string(status),
        result_json: normalize_result_json(result_json),
        error_message: trimmed_string(error_message),
    }
}

/// A stored record after a completion: the record of the completed id
/// takes its status, result and error; any other record is unchanged.
pub open spec fn completed_spec(rec: LedgerRecordView, c: Completion) -> LedgerRecordView {
    if rec.command_id == c.command_id@ {
        LedgerRecordView {
            status: c.status@,
            result_json: c.result_json@,
            error_message: c.error_message@,
            ..rec
        }
    } else {
        rec
    }
}

pub fn apply_completion(rec: &LedgerRecord, c: &Completion) -> (r: LedgerRecord)
    ensures
        r@ == completed_spec(rec@, *c),
{
    if !str_eq(rec.command_id.as_str(), c.command_id.as_str()) {
        return rec.copy();
    }
    LedgerRecord {
        command_id: rec.command_id.clone(),
        command_type: rec.command_type.clone(),
        payload_hash: rec.payload_hash.clone(),
        resource_key: copy_opt(&rec.resource_key),
        status: c.status.clone(),
        result_json: c.result_json.clone(),
        error_message: c.error_message.clone(),
    }
}

/// A stored record when the ledger is opened again: a command still
/// running was cut off by a restart and is marked failed.
pub open spec fn recovered_spec(rec: LedgerRecordView) -> LedgerRecordView {
    if rec.status == "running"@ {
        LedgerRecordView {
            status: "failed"@,
            error_message: "agent_restart_before_completion"@,
            ..rec
        }
    } else {
        rec
    }
}

pub fn recover_stale(rec: &LedgerRecord) -> (r: LedgerRecord)
    ensures
        r@ == recovered_spec(rec@),
{
    if !str_eq(rec.status.as_str(), "running") {
        return rec.copy();
    }
    LedgerRecord {
        command_id: rec.command_id.clone(),
        command_type: rec.command_type.clone(),
        payload_hash: rec.payload_hash.clone(),
        resource_key: copy_opt(&rec.resource_key),
        status: str_to_string("failed"),
        result_json: rec.result_json.clone(),
        error_message: str_to_string("agent_restart_before_completion"),
    }
}


/// Claiming a command id twice with the same type and payload: the second
/// claim finds the record the first one stored and answers `Existing` with
/// it, so a command is executed at most once.
pub proof fn law_claim_is_idempotent(q: ClaimView)
    ensures
        claim_outcome(q, None) matches ClaimOutcome::Insert(stored) && claim_outcome(
            q,
            Some(stored),
        ) == ClaimOutcome::Existing(stored),
{
}

/// Claiming a stored id with another command type or payload fingerprint
/// is answered as a mismatch, carrying the stored record.
pub proof fn law_changed_claim_is_mismatch(q: ClaimView, rec: LedgerRecordView)
    requires
        rec.command_type != q.command_type || rec.payload_hash != q.payload_hash,
    ensures
        claim_outcome(q, Some(rec)) == ClaimOutcome::Mismatch(rec),
{
}

/// After a claimed command completes, claiming it again answers with the
/// stored record carrying the completion's status, result and error.
pub proof fn law_completed_claim_returns_result(q: ClaimView, c: Completion)
    requires
        c.command_id@ == q.command_id,
    ensures
        claim_outcome(q, None) matches ClaimOutcome::Insert(stored) && claim_outcome(
            q,
            Some(completed_spec(stored, c)),
        ) matches ClaimOutcome::Existing(answer) && answer.status == c.status@
            && answer.result_json == c.result_json@ && answer.error_message == c.error_message@,
{
}

/// A command that was still running when the ledger was reopened is
/// answered, on its next claim, as failed by the restart.
pub proof fn law_restart_fails_running_claims(q: ClaimView)
    ensures
        claim_outcome(q, None) matches ClaimOutcome::Insert(stored) && claim_outcome(
            q,
            Some(recovered_spec(stored)),
        ) matches ClaimOutcome::Existing(answer) && answer.status == "failed"@
            && answer.error_message == "agent_restart_before_completion"@,
{
}

/// Reopening the ledger leaves every record that is not `running`
/// exactly as stored, and marks a `running` one failed by the restart,
/// keeping its id, type, payload hash, resource and result.
pub proof fn law_recovery_touches_only_running(rec: LedgerRecordView)
    ensures
        rec.status != "running"@ ==> recovered_spec(rec) == rec,
        rec.status == "running"@ ==> recovered_spec(rec).status == "failed"@
            && recovered_spec(rec).error_message == "agent_restart_before_completion"@,
        recovered_spec(rec).command_id == rec.command_id,
        recovered_spec(rec).command_type == rec.command_type,
        recovered_spec(rec).payload_hash == rec.payload_hash,
        recovered_spec(rec).resource_key == rec.resource_key,
        recovered_spec(rec).result_json == rec.result_json,
{
}

/// Reopening the ledger again changes nothing more: recovery is
/// idempotent.
pub proof fn law_recovery_is_idempotent(rec: LedgerRecordView)
    ensures
        recovered_spec(recovered_spec(rec)) == recovered_spec(rec),
{
    if rec.status == "running"@ {
        reveal_strlit("running");
        reveal_strlit("failed");
        assert("failed"@ != "running"@) by {
            assert("failed"@[0] != "running"@[0]);
        }
    }
}

} // verus!
