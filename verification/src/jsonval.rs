use vstd::prelude::*;

verus! {

#[verifier::external_type_specification]
#[verifier::external_body]
pub struct ExValue(serde_json::Value);

/// The mathematical shape of a JSON document: object keys are character
/// strings, string contents are their UTF-8 bytes. Numbers are not read
/// by this library, so their value is not modelled.
pub enum JsonData {
    Null,
    Bool(bool),
    Num,
    Str(Seq<u8>),
    Arr(Seq<JsonData>),
    Obj(Map<Seq<char>, JsonData>),
}

/// What JSON parsing returns for the given input bytes: `None` where
/// the input is not a JSON document, otherwise its shape. A pure
/// function of the input.
pub uninterp spec fn json_of(s: Seq<u8>) -> Option<JsonData>;

/// The JSON document a `serde_json::Value` holds.
pub uninterp spec fn json_rep(v: serde_json::Value) -> JsonData;

/// Relies on serde_json's `from_slice::<Value>`: parses the input bytes
/// into the JSON document they spell, a function of the input alone.
#[verifier::external_body]
pub fn parse_json(b: &[u8]) -> (r: Option<serde_json::Value>)
    ensures
        match r {
            Some(v) => json_of(b@) == Some(json_rep(v)),
            None => json_of(b@) is None,
        },
{
    serde_json::from_slice(b).ok()
}

/// Relies on serde_json's `Value::get` with a string index: looks the
/// key up where the value is an object, and returns `None` elsewhere.
#[verifier::external_body]
pub fn get_field<'a>(v: &'a serde_json::Value, key: &str) -> (r: Option<&'a serde_json::Value>)
    ensures
        match json_rep(*v) {
            JsonData::Obj(m) => match r {
                Some(u) => m.contains_key(key@) && json_rep(*u) == m[key@],
                None => !m.contains_key(key@),
            },
            _ => r is None,
        },
{
    v.get(key)
}

/// Relies on serde_json's `Value::as_str`: the string's UTF-8 bytes
/// where the value is a string, `None` elsewhere.
#[verifier::external_body]
pub fn as_str_bytes(v: &serde_json::Value) -> (r: Option<Vec<u8>>)
    ensures
        match r {
            Some(b) => json_rep(*v) == JsonData::Str(b@),
            None => !(json_rep(*v) is Str),
        },
{
    v.as_str().map(|s| s.as_bytes().to_vec())
}

/// Relies on serde_json's `Value::as_array`: the elements where the
/// value is an array, `None` elsewhere.
#[verifier::external_body]
pub fn as_array(v: &serde_json::Value) -> (r: Option<&Vec<serde_json::Value>>)
    ensures
        match r {
            Some(a) => json_rep(*v) == JsonData::Arr(
                a@.map_values(|x: serde_json::Value| json_rep(x)),
            ),
            None => !(json_rep(*v) is Arr),
        },
{
    v.as_array()
}

/// Relies on serde_json's `Value: Clone`: the copy holds the same
/// document.
#[verifier::external_body]
pub fn clone_value(v: &serde_json::Value) -> (r: serde_json::Value)
    ensures
        json_rep(r) == json_rep(*v),
{
    v.clone()
}

/// Relies on serde_json's `Value::as_object` and the entry iterator of
/// its map: where the value is an object, every entry of the object,
/// each key once; `None` elsewhere.
#[verifier::external_body]
pub fn obj_entries(v: &serde_json::Value) -> (r: Option<Vec<(String, serde_json::Value)>>)
    ensures
        match json_rep(*v) {
            JsonData::Obj(m) => match r {
                Some(es) => {
                    &&& forall|i: int|
                        0 <= i < es@.len() ==> m.contains_key(es@[i].0@) && json_rep(es@[i].1)
                            == m[es@[i].0@]
                    &&& forall|i: int, j: int|
                        0 <= i < j < es@.len() ==> es@[i].0@ != es@[j].0@
                    &&& forall|k: Seq<char>|
                        m.contains_key(k) ==> exists|i: int| 0 <= i < es@.len() && es@[i].0@ == k
                },
                None => false,
            },
            _ => r is None,
        },
{
    v.as_object().map(|m| m.iter().map(|(k, val)| (k.clone(), val.clone())).collect())
}

/// The field `key` of `j`, where `j` is an object that has it.
pub open spec fn spec_obj_field(j: JsonData, key: Seq<char>) -> Option<JsonData> {
    match j {
        JsonData::Obj(m) => if m.contains_key(key) {
            Some(m[key])
        } else {
            None
        },
        _ => None,
    }
}

/// The string field `key` of `j`, as UTF-8 bytes.
pub open spec fn spec_str_field(j: JsonData, key: Seq<char>) -> Option<Seq<u8>> {
    match spec_obj_field(j, key) {
        Some(JsonData::Str(s)) => Some(s),
        _ => None,
    }
}

/// Relies on serde_json's `Value::is_null`.
#[verifier::external_body]
pub fn is_null(v: &serde_json::Value) -> (r: bool)
    ensures
        r == (json_rep(*v) is Null),
{
    v.is_null()
}

} // verus!
