//! JSON values of `serde_json`, as far as the library reads them: the entries
//! of objects, parsing text, and string values.

use vstd::prelude::*;

verus! {

#[verifier::external_type_specification]
#[verifier::external_body]
pub struct ExJsonValue(serde_json::Value);

#[verifier::external_type_specification]
#[verifier::external_body]
#[verifier::reject_recursive_types(K)]
#[verifier::reject_recursive_types(V)]
pub struct ExJsonMap<K, V>(serde_json::Map<K, V>);

/// What a JSON object map (`serde_json::Map<String, Value>`) holds, key by key.
pub uninterp spec fn json_map_entries(m: serde_json::Map<String, serde_json::Value>) -> Map<
    Seq<char>,
    serde_json::Value,
>;

/// The entries of a JSON value when it is an object (`Value::Object`), `None`
/// for every other kind of value.
pub uninterp spec fn json_object_entries(v: serde_json::Value) -> Option<Map<Seq<char>, serde_json::Value>>;

/// `Value::is_object`. Trusted: true exactly for an object.
#[verifier::external_body]
pub(crate) fn json_is_object(v: &serde_json::Value) -> (r: bool)
    ensures
        r == json_object_entries(*v) is Some,
{
    v.is_object()
}

/// Takes the map out of an object value, or gives any other value back.
/// Trusted: an object yields its map, whose entries are the value's entries.
#[verifier::external_body]
pub(crate) fn json_into_object(v: serde_json::Value) -> (r: Result<
    serde_json::Map<String, serde_json::Value>,
    serde_json::Value,
>)
    ensures
        match r {
            Ok(m) => json_object_entries(v) == Some(json_map_entries(m)),
            Err(o) => o == v && json_object_entries(v) is None,
        },
{
    match v {
        serde_json::Value::Object(m) => Ok(m),
        other => Err(other),
    }
}

/// Wraps a map as an object value (`Value::Object`). Trusted: the value's
/// entries are the map's.
#[verifier::external_body]
pub(crate) fn json_from_object(m: serde_json::Map<String, serde_json::Value>) -> (r: serde_json::Value)
    ensures
        json_object_entries(r) == Some(json_map_entries(m)),
{
    serde_json::Value::Object(m)
}

/// The entries of an object value as `(key, value)` pairs (`as_object`, then
/// `Map::iter` with each key and value cloned). Trusted: keys are distinct, every
/// pair is an entry of the object, and every entry appears.
#[verifier::external_body]
pub(crate) fn json_object_items(v: &serde_json::Value) -> (r: Vec<(String, serde_json::Value)>)
    requires
        json_object_entries(*v) is Some,
    ensures
        forall|i: int, j: int|
            0 <= i < j < r@.len() ==> (#[trigger] r@[i]).0@ != (#[trigger] r@[j]).0@,
        forall|i: int|
            0 <= i < r@.len() ==> json_object_entries(*v)->Some_0.contains_key((#[trigger] r@[i]).0@)
                && json_object_entries(*v)->Some_0[r@[i].0@] == r@[i].1,
        forall|k: Seq<char>|
            #[trigger] json_object_entries(*v)->Some_0.contains_key(k) ==> exists|i: int|
                0 <= i < r@.len() && (#[trigger] r@[i]).0@ == k,
{
    match v.as_object() {
        Some(m) => m.iter().map(|(k, x)| (k.clone(), x.clone())).collect(),
        None => Vec::new(),
    }
}

/// `Map::insert`. Trusted: the key now maps to the value; other entries stay.
#[verifier::external_body]
pub(crate) fn json_map_insert(m: &mut serde_json::Map<String, serde_json::Value>, k: String, x: serde_json::Value)
    ensures
        json_map_entries(*final(m)) == json_map_entries(*old(m)).insert(k@, x),
{
    m.insert(k, x);
}

/// The JSON value that `serde_json::from_str::<Value>` parses from `text`, or
/// `None` when `text` is not one JSON document.
pub uninterp spec fn json_text_value(text: Seq<char>) -> Option<serde_json::Value>;

/// Parses a JSON document (`serde_json::from_str::<Value>`). Trusted: the
/// result is `json_text_value(text)`.
#[verifier::external_body]
pub(crate) fn json_parse_value(text: &str) -> (r: Option<serde_json::Value>)
    ensures
        r == json_text_value(text@),
{
    serde_json::from_str::<serde_json::Value>(text).ok()
}

/// The JSON string value holding `s` (`Value::String`).
pub uninterp spec fn json_string(s: Seq<char>) -> serde_json::Value;

/// Wraps a string as a JSON string value (`Value::String`). Trusted: the result
/// is `json_string(s)`, which is not an object.
#[verifier::external_body]
pub(crate) fn json_string_value(s: String) -> (r: serde_json::Value)
    ensures
        r == json_string(s@),
        json_object_entries(r) is None,
{
    serde_json::Value::String(s)
}

} // verus!
