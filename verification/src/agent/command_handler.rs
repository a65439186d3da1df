use vstd::prelude::*;

use crate::agent::payload::{
    json_document, member_view, parse_json, payload_target, payload_target_of, JsonShape, JsonTop,
};
use crate::text::{blank, concat2, concat3, is_blank, str_to_string, str_eq, trim, trim_spec};

verus! {

/// The characters of `str::to_lowercase` of a text (full Unicode
/// lower-casing).
pub uninterp spec fn unicode_lowercase(s: Seq<char>) -> Seq<char>;

/// `str::to_lowercase`; the contract claims only that the result is a
/// function of the text.
#[verifier::external_body]
pub(crate) fn to_lowercase(s: &str) -> (r: String)
    ensures
        r@ == unicode_lowercase(s@),
{
    s.to_lowercase()
}

/// The command types the agent knows.
pub open spec fn supported_commands() -> Seq<Seq<char>> {
    seq![
        "start"@,
        "stop"@,
        "restart"@,
        "reboot"@,
        "shutdown"@,
        "poweroff"@,
        "pause"@,
        "resume"@,
        "delete"@,
        "destroy"@,
        "snapshot_create"@,
        "snapshot_delete"@,
    ]
}

/// The payload a command carries: an empty object when the text is blank.
pub open spec fn payload_document(payload_json: Seq<char>) -> Result<JsonShape, Seq<char>> {
    if is_blank(payload_json) {
        Ok(JsonShape::Object(Seq::empty()))
    } else {
        match json_document(payload_json) {
            Ok(d) => Ok(d),
            Err(e) => Err("invalid command payload json: "@ + e),
        }
    }
}

pub open spec fn target_or_unknown(doc: JsonShape) -> Seq<char> {
    match payload_target(doc) {
        Some(t) => t,
        None => "unknown-target"@,
    }
}

/// Why a command fails: the runtime executes no command yet, so every
/// command is refused, with the first reason that applies.
pub open spec fn command_error(command_type: Seq<char>, payload_json: Seq<char>) -> Seq<char> {
    let n = unicode_lowercase(trim_spec(command_type));
    if n.len() == 0 {
        "agent command type is required"@
    } else {
        match payload_document(payload_json) {
            Err(e) => e,
            Ok(doc) => if !supported_commands().contains(n) {
                "agent command type '"@ + n + "' is unsupported"@
            } else {
                "agent command '"@ + n + "' for target '"@ + target_or_unknown(doc)
                    + "' is not implemented by kvm runtime yet"@
            },
        }
    }
}

/// Parses a command payload; a blank payload is an empty object.
pub fn parse_payload(payload_json: &str) -> (r: Result<JsonTop, String>)
    ensures
        match r {
            Ok(t) => payload_document(payload_json@) == Ok::<JsonShape, Seq<char>>(t@),
            Err(e) => payload_document(payload_json@) == Err::<JsonShape, Seq<char>>(e@),
        },
{
    if blank(payload_json) {
        let members: Vec<(String, Option<String>)> = Vec::new();
        assert(members@.map_values(|m: (String, Option<String>)| member_view(m)) =~= Seq::<
            (Seq<char>, Option<Seq<char>>),
        >::empty());
        let t = JsonTop::Object(members);
        return Ok(t);
    }
    match parse_json(payload_json) {
        Ok(t) => Ok(t),
        Err(e) => Err(concat2("invalid command payload json: ", e.as_str())),
    }
}

/// The VM a payload targets, `"unknown-target"` when it names none.
pub fn extract_target(payload: &JsonTop) -> (r: String)
    ensures
        r@ == target_or_unknown(payload@),
{
    match payload_target_of(payload) {
        Some(t) => t,
        None => str_to_string("unknown-target"),
    }
}

fn is_supported(n: &str) -> (r: bool)
    ensures
        r == supported_commands().contains(n@),
{
    let names: [&str; 12] = [
        "start",
        "stop",
        "restart",
        "reboot",
        "shutdown",
        "poweroff",
        "pause",
        "resume",
        "delete",
        "destroy",
        "snapshot_create",
        "snapshot_delete",
    ];
    let ghost all = supported_commands();
    let mut i: usize = 0;
    while i < 12
        invariant
            i <= 12,
            all == supported_commands(),
            forall|k: int| 0 <= k < 12 ==> (#[trigger] names@[k])@ == all[k],
            forall|k: int| 0 <= k < i ==> all[k] != n@,
        decreases 12 - i,
    {
        if str_eq(names[i], n) {
            assert(all[i as int] == n@);
            return true;
        }
        i = i + 1;
    }
    assert(!all.contains(n@)) by {
        if all.contains(n@) {
            let k = choose|k: int| 0 <= k < all.len() && all[k] == n@;
            assert(all[k] != n@);
        }
    }
    false
}

/// Executes an agent command on the VM runtime. The runtime implements no
/// command yet, so the outcome is always an error: a missing type, an
/// unparseable payload, an unsupported type, or the not-implemented notice
/// naming the command and its target.
pub fn execute_agent_command(command_type: &str, payload_json: &str) -> (r: Result<String, String>)
    ensures
        match r {
            Ok(_) => false,
            Err(e) => e@ == command_error(command_type@, payload_json@),
        },
{
    let normalized = to_lowercase(trim(command_type));
    if normalized.as_str().unicode_len() == 0 {
        return Err(str_to_string("agent command type is required"));
    }
    let payload = parse_payload(payload_json)?;
    let target = extract_target(&payload);
    if !is_supported(normalized.as_str()) {
        return Err(concat3("agent command type '", normalized.as_str(), "' is unsupported"));
    }
    let head = concat3("agent command '", normalized.as_str(), "' for target '");
    Err(concat3(head.as_str(), target.as_str(), "' is not implemented by kvm runtime yet"))
}

} // verus!
