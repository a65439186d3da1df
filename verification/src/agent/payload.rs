use vstd::prelude::*;

use crate::text::{blank, is_blank, opt_string_view, str_to_string, str_eq, trim_spec, trimmed_string};

verus! {

/// A JSON document as the command logic reads it: a top-level object's
/// members, each with its value when that value is a JSON string.
#[derive(Clone, Debug)]
pub enum JsonTop {
    Object(Vec<(String, Option<String>)>),
    Other,
}

pub enum JsonShape {
    Object(Seq<(Seq<char>, Option<Seq<char>>)>),
    Other,
}

pub open spec fn member_view(m: (String, Option<String>)) -> (Seq<char>, Option<Seq<char>>) {
    (
        m.0@,
        match m.1 {
            Some(v) => Some(v@),
            None => None,
        },
    )
}

impl View for JsonTop {
    type V = JsonShape;

    open spec fn view(&self) -> JsonShape {
        match self {
            JsonTop::Object(members) => JsonShape::Object(
                members@.map_values(|m: (String, Option<String>)| member_view(m)),
            ),
            JsonTop::Other => JsonShape::Other,
        }
    }
}

pub open spec fn json_result_view(r: Result<JsonTop, String>) -> Result<JsonShape, Seq<char>> {
    match r {
        Ok(t) => Ok(t@),
        Err(e) => Err(e@),
    }
}

/// What `serde_json` parses a text into: its top-level members when it is
/// an object, or the parser's error message.
pub uninterp spec fn json_document(text: Seq<char>) -> Result<JsonShape, Seq<char>>;

/// `serde_json::from_str::<serde_json::Value>`, the value reduced to its
/// top-level members (each with its string value, if any) and the error to
/// its message. The contract claims only that the outcome is a function of
/// the text.
#[verifier::external_body]
fn parse_json_document(text: &str) -> (r: Result<JsonTop, String>)
    ensures
        json_result_view(r) == json_document(text@),
{
    match serde_json::from_str::<serde_json::Value>(text) {
        Ok(serde_json::Value::Object(map)) => Ok(
            JsonTop::Object(map.into_iter().map(|(k, v)| (k, v.as_str().map(String::from))).collect()),
        ),
        Ok(_) => Ok(JsonTop::Other),
        Err(err) => Err(err.to_string()),
    }
}

/// The value of the first member named `key`, when the document is an
/// object holding one: `Some(None)` when that value is not a string.
pub open spec fn member_value(members: Seq<(Seq<char>, Option<Seq<char>>)>, key: Seq<char>) -> Option<
    Option<Seq<char>>,
>
    decreases members.len(),
{
    if members.len() == 0 {
        None
    } else if members[0].0 == key {
        Some(members[0].1)
    } else {
        member_value(members.drop_first(), key)
    }
}

/// `payload.get(key).and_then(Value::as_str)`.
pub open spec fn string_field(doc: JsonShape, key: Seq<char>) -> Option<Seq<char>> {
    match doc {
        JsonShape::Object(members) => match member_value(members, key) {
            Some(Some(v)) => Some(v),
            _ => None,
        },
        JsonShape::Other => None,
    }
}

/// The keys a command payload may name its target VM by, in order of
/// preference.
pub open spec fn target_keys() -> Seq<Seq<char>> {
    seq!["vps_id"@, "vm_id"@, "instance_id"@, "domain_id"@, "id"@]
}

/// The first of `keys` whose string value is not blank, trimmed.
pub open spec fn first_target(doc: JsonShape, keys: Seq<Seq<char>>) -> Option<Seq<char>>
    decreases keys.len(),
{
    if keys.len() == 0 {
        None
    } else {
        match string_field(doc, keys[0]) {
            Some(v) if !is_blank(v) => Some(trim_spec(v)),
            _ => first_target(doc, keys.drop_first()),
        }
    }
}

pub open spec fn payload_target(doc: JsonShape) -> Option<Seq<char>> {
    first_target(doc, target_keys())
}

fn lookup_string(members: &Vec<(String, Option<String>)>, key: &str) -> (r: Option<String>)
    ensures
        match r {
            Some(v) => member_value(
                members@.map_values(|m: (String, Option<String>)| member_view(m)),
                key@,
            ) == Some(Some(v@)),
            None => !(member_value(
                members@.map_values(|m: (String, Option<String>)| member_view(m)),
                key@,
            ) matches Some(Some(_))),
        },
{
    let ghost ms = members@.map_values(|m: (String, Option<String>)| member_view(m));
    assert(ms.subrange(0, ms.len() as int) =~= ms);
    let mut i: usize = 0;
    while i < members.len()
        invariant
            i <= members.len(),
            ms == members@.map_values(|m: (String, Option<String>)| member_view(m)),
            member_value(ms, key@) == member_value(ms.subrange(i as int, ms.len() as int), key@),
        decreases members.len() - i,
    {
        let ghost rest = ms.subrange(i as int, ms.len() as int);
        assert(rest[0] == member_view(members@[i as int]));
        if str_eq(members[i].0.as_str(), key) {
            return match &members[i].1 {
                Some(v) => Some(v.clone()),
                None => None,
            };
        }
        assert(rest.drop_first() =~= ms.subrange(i + 1, ms.len() as int));
        i = i + 1;
    }
    None
}

fn field_of(doc: &JsonTop, key: &str) -> (r: Option<String>)
    ensures
        opt_string_view(r) == string_field(doc@, key@),
{
    match doc {
        JsonTop::Object(members) => lookup_string(members, key),
        JsonTop::Other => None,
    }
}

/// The target a payload names: the first of `vps_id`, `vm_id`,
/// `instance_id`, `domain_id`, `id` whose value is a non-blank string,
/// trimmed.
pub fn payload_target_of(doc: &JsonTop) -> (r: Option<String>)
    ensures
        opt_string_view(r) == payload_target(doc@),
{
    let keys: [&str; 5] = ["vps_id", "vm_id", "instance_id", "domain_id", "id"];
    proof {
        reveal_strlit("vps_id");
        reveal_strlit("vm_id");
        reveal_strlit("instance_id");
        reveal_strlit("domain_id");
        reveal_strlit("id");
    }
    let ghost ks = target_keys();
    assert(ks.subrange(0, 5) =~= ks);
    let mut i: usize = 0;
    while i < 5
        invariant
            i <= 5,
            ks == target_keys(),
            forall|k: int| 0 <= k < 5 ==> (#[trigger] keys@[k])@ == ks[k],
            payload_target(doc@) == first_target(doc@, ks.subrange(i as int, 5)),
        decreases 5 - i,
    {
        let ghost rest = ks.subrange(i as int, 5);
        assert(rest[0] == ks[i as int]);
        let v = field_of(doc, keys[i]);
        match v {
            Some(s) => {
                if !blank(s.as_str()) {
                    return Some(trimmed_string(s.as_str()));
                }
            },
            None => {},
        }
        assert(rest.drop_first() =~= ks.subrange(i + 1, 5));
        i = i + 1;
    }
    assert(ks.subrange(5, 5).len() == 0);
    None
}

/// Parses a JSON text into its top-level members.
pub fn parse_json(text: &str) -> (r: Result<JsonTop, String>)
    ensures
        json_result_view(r) == json_document(text@),
{
    parse_json_document(text)
}


/// A JSON scalar member value.
#[derive(Clone, Debug)]
pub enum JsonScalar {
    Bool(bool),
    Str(String),
}

pub enum JsonScalarView {
    Bool(bool),
    Str(Seq<char>),
}

impl View for JsonScalar {
    type V = JsonScalarView;

    open spec fn view(&self) -> JsonScalarView {
        match self {
            JsonScalar::Bool(b) => JsonScalarView::Bool(*b),
            JsonScalar::Str(s) => JsonScalarView::Str(s@),
        }
    }
}

/// The text `serde_json` writes for an object of these members.
pub uninterp spec fn json_object_text(members: Seq<(Seq<char>, JsonScalarView)>) -> Seq<char>;

pub open spec fn scalar_member_view(m: (String, JsonScalar)) -> (Seq<char>, JsonScalarView) {
    (m.0@, m.1@)
}

/// `serde_json::Value::to_string` of an object holding these members. The
/// contract claims only that the text is a function of the members.
#[verifier::external_body]
fn json_object_to_string(members: Vec<(String, JsonScalar)>) -> (r: String)
    ensures
        r@ == json_object_text(members@.map_values(|m: (String, JsonScalar)| scalar_member_view(m))),
{
    let mut map = serde_json::Map::new();
    for (key, value) in members {
        let v = match value {
            JsonScalar::Bool(b) => serde_json::Value::Bool(b),
            JsonScalar::Str(s) => serde_json::Value::String(s),
        };
        map.insert(key, v);
    }
    serde_json::Value::Object(map).to_string()
}

/// The metadata of a storage pool: `{"device": <device>}` as JSON text.
pub fn device_metadata_json(device: &str) -> (r: String)
    ensures
        r@ == json_object_text(seq![("device"@, JsonScalarView::Str(device@))]),
{
    let mut members: Vec<(String, JsonScalar)> = Vec::new();
    members.push((str_to_string("device"), JsonScalar::Str(str_to_string(device))));
    assert(members@.map_values(|m: (String, JsonScalar)| scalar_member_view(m)) =~= seq![
        ("device"@, JsonScalarView::Str(device@)),
    ]);
    json_object_to_string(members)
}

/// The capabilities a host advertises: `{"mtls": true, "heartbeat": true}`
/// as JSON text.
pub fn capabilities_json() -> (r: String)
    ensures
        r@ == json_object_text(
            seq![("mtls"@, JsonScalarView::Bool(true)), ("heartbeat"@, JsonScalarView::Bool(true))],
        ),
{
    let mut members: Vec<(String, JsonScalar)> = Vec::new();
    members.push((str_to_string("mtls"), JsonScalar::Bool(true)));
    members.push((str_to_string("heartbeat"), JsonScalar::Bool(true)));
    assert(members@.map_values(|m: (String, JsonScalar)| scalar_member_view(m)) =~= seq![
        ("mtls"@, JsonScalarView::Bool(true)),
        ("heartbeat"@, JsonScalarView::Bool(true)),
    ]);
    json_object_to_string(members)
}

} // verus!
