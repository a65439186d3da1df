use vm_agent::agent::registration::{command_outcome, HypervisorCommand};
use vm_agent::agent::command_ledger::{
    apply_completion, begin_decision, begin_request, completion, extract_resource_key, ledger_path,
    hash_payload, normalize_result_json, recover_stale, BeginDecision, BeginOrGet, LedgerRecord,
};

/// One command id's slot of a ledger held in memory: what a claim stores
/// or answers, as the durable ledger does.
fn claim(
    slot: &mut Option<LedgerRecord>,
    command_id: &str,
    command_type: &str,
    payload_json: &str,
) -> BeginOrGet {
    let req = begin_request(command_id, command_type, payload_json).unwrap();
    let stored = slot.as_ref().map(|r| r.copy());
    match begin_decision(&req, stored) {
        BeginDecision::Answer(outcome) => outcome,
        BeginDecision::Insert(rec) => {
            *slot = Some(rec.copy());
            BeginOrGet::New(rec)
        }
    }
}

fn complete(
    slot: &mut Option<LedgerRecord>,
    command_id: &str,
    status: &str,
    result_json: &str,
    error_message: &str,
) {
    let c = completion(command_id, status, result_json, error_message);
    if let Some(rec) = slot.as_ref() {
        *slot = Some(apply_completion(rec, &c));
    }
}

fn reopen(slot: &mut Option<LedgerRecord>) {
    if let Some(rec) = slot.as_ref() {
        *slot = Some(recover_stale(rec));
    }
}

#[test]
fn command_ledger_ledger_returns_existing_after_success() {
    let mut ledger: Option<LedgerRecord> = None;
    match claim(&mut ledger, "cmd-1", "start", r#"{"vps_id":"vps-1"}"#) {
        BeginOrGet::New(_) => {}
        _ => panic!("expected new record"),
    }
    complete(&mut ledger, "cmd-1", "succeeded", r#"{"ok":true}"#, "");
    match claim(&mut ledger, "cmd-1", "start", r#"{"vps_id":"vps-1"}"#) {
        BeginOrGet::Existing(record) => {
            assert_eq!(record.status, "succeeded");
            assert_eq!(record.result_json, r#"{"ok":true}"#);
        }
        _ => panic!("expected existing record"),
    }
}

#[test]
fn command_ledger_ledger_marks_stale_running_failed_on_reopen() {
    let mut ledger: Option<LedgerRecord> = None;
    match claim(&mut ledger, "cmd-1", "start", r#"{"vps_id":"vps-1"}"#) {
        BeginOrGet::New(_) => {}
        _ => panic!("expected new record"),
    }
    reopen(&mut ledger);
    match claim(&mut ledger, "cmd-1", "start", r#"{"vps_id":"vps-1"}"#) {
        BeginOrGet::Existing(record) => {
            assert_eq!(record.status, "failed");
            assert_eq!(record.error_message, "agent_restart_before_completion");
        }
        _ => panic!("expected existing failed record"),
    }
}

#[test]
fn command_ledger_ledger_detects_command_type_mismatch() {
    let mut ledger: Option<LedgerRecord> = None;
    let _ = claim(&mut ledger, "cmd-1", "start", r#"{"vps_id":"vps-1"}"#);
    match claim(&mut ledger, "cmd-1", "stop", r#"{"vps_id":"vps-1"}"#) {
        BeginOrGet::PayloadMismatch(_) => {}
        _ => panic!("expected command type mismatch"),
    }
}

#[test]
fn command_ledger_ledger_detects_payload_mismatch() {
    let mut ledger: Option<LedgerRecord> = None;
    let _ = claim(&mut ledger, "cmd-1", "start", r#"{"vps_id":"vps-1"}"#);
    match claim(&mut ledger, "cmd-1", "start", r#"{"vps_id":"vps-2"}"#) {
        BeginOrGet::PayloadMismatch(_) => {}
        _ => panic!("expected payload mismatch"),
    }
}

#[test]
fn new_claims_store_a_running_record() {
    let mut ledger: Option<LedgerRecord> = None;
    match claim(&mut ledger, " cmd-9 ", " start ", r#" {"vm_id":" vm-3 "} "#) {
        BeginOrGet::New(rec) => {
            assert_eq!(rec.command_id, "cmd-9");
            assert_eq!(rec.command_type, "start");
            assert_eq!(rec.status, "running");
            assert_eq!(rec.result_json, "{}");
            assert_eq!(rec.error_message, "");
            assert_eq!(rec.resource_key.as_deref(), Some("vm-3"));
        }
        _ => panic!("expected new record"),
    }
    assert!(begin_request("  ", "start", "{}").is_err());
    assert_eq!(begin_request("", "start", "{}").err().unwrap(), "command_id is required");
}

#[test]
fn recovery_twice_changes_nothing_more() {
    let mut ledger: Option<LedgerRecord> = None;
    let _ = claim(&mut ledger, "cmd-1", "start", "{}");
    reopen(&mut ledger);
    let once = ledger.as_ref().unwrap().copy();
    reopen(&mut ledger);
    let twice = ledger.as_ref().unwrap();
    assert_eq!(once.status, twice.status);
    assert_eq!(once.error_message, twice.error_message);
    assert_eq!(twice.status, "failed");
}

#[test]
fn completion_of_another_id_leaves_the_record() {
    let mut ledger: Option<LedgerRecord> = None;
    let _ = claim(&mut ledger, "cmd-1", "start", "{}");
    complete(&mut ledger, "cmd-2", "succeeded", "{}", "");
    assert_eq!(ledger.as_ref().unwrap().status, "running");
}

#[test]
fn completions_are_normalized() {
    let c = completion(" cmd-1 ", " failed ", "  ", " boom ");
    assert_eq!(c.command_id, "cmd-1");
    assert_eq!(c.status, "failed");
    assert_eq!(c.result_json, "{}");
    assert_eq!(c.error_message, "boom");
    assert_eq!(normalize_result_json(""), "{}");
    assert_eq!(normalize_result_json(r#"{"a":1}"#), r#"{"a":1}"#);
}

#[test]
fn payload_hash_is_the_sha256_of_the_trimmed_text() {
    assert_eq!(
        hash_payload(r#"{"vps_id":"vps-1"}"#),
        "823f0b3b3274b54edc45d09809191ff8c5be3951c9ea2c1f0420d3de41c1fe46"
    );
    assert_eq!(
        hash_payload("  abc\n"),
        "ba7816bf8f01cfea414140de5dae2223b00361a396177a9cb410ff61f20015ad"
    );
    assert_eq!(
        hash_payload(""),
        "e3b0c44298fc1c149afbf4c8996fb92427ae41e4649b934ca495991b7852b855"
    );
}

#[test]
fn resource_key_is_the_first_named_target() {
    assert_eq!(extract_resource_key(r#"{"vps_id":"vps-1"}"#).as_deref(), Some("vps-1"));
    assert_eq!(
        extract_resource_key(r#"{"id":"x","domain_id":" dom-2 "}"#).as_deref(),
        Some("dom-2")
    );
    assert_eq!(extract_resource_key(r#"{"vps_id":"  ","vm_id":"vm-1"}"#).as_deref(), Some("vm-1"));
    assert_eq!(extract_resource_key(r#"{"vps_id":7}"#), None);
    assert_eq!(extract_resource_key("not json"), None);
    assert_eq!(extract_resource_key("[1,2]"), None);
}

#[test]
fn replayed_command_is_answered_like_its_first_run() {
    let cmd = HypervisorCommand {
        command_id: "cmd-5".to_string(),
        command_type: "reboot".to_string(),
        payload_json: r#"{"vm_id":"vm-1"}"#.to_string(),
    };
    let mut ledger: Option<LedgerRecord> = None;
    let first = claim(&mut ledger, &cmd.command_id, &cmd.command_type, &cmd.payload_json);
    assert!(matches!(first, BeginOrGet::New(_)));
    let out = command_outcome(first, &cmd);
    let done = out.completion.unwrap();
    *ledger.as_mut().unwrap() = apply_completion(ledger.as_ref().unwrap(), &done);
    let again = claim(&mut ledger, &cmd.command_id, &cmd.command_type, &cmd.payload_json);
    assert!(matches!(again, BeginOrGet::Existing(_)));
    let replay = command_outcome(again, &cmd);
    assert_eq!(replay.reply.status, out.reply.status);
    assert_eq!(replay.reply.result_json, out.reply.result_json);
    assert_eq!(replay.reply.error_message, out.reply.error_message);
    assert!(replay.completion.is_none());
}

#[test]
fn ledger_path_is_trimmed_and_required() {
    assert_eq!(ledger_path(" /var/lib/ledger.db ").unwrap(), "/var/lib/ledger.db");
    assert_eq!(ledger_path("  ").unwrap_err(), "agent command ledger path is required");
}
