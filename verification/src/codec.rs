use vstd::prelude::*;

use crate::model::{fields_depth_below, fields_wf, value_wf, FieldsModel, ValueModel};
use crate::value::{JObject, Value};

verus! {

// Aliased so that the declarations below share no name with this library's
// own `Error`, `Value` and the prelude's `Map`.
use serde_json::Error as JsonFault;
use serde_json::Map as JsonMap;
use serde_json::Value as JsonValue;
use std::io::Error as IoFault;

#[verifier::external_type_specification]
#[verifier::external_body]
pub struct ExNumber(serde_json::Number);

#[verifier::external_type_specification]
#[verifier::external_body]
pub struct ExJsonValue(JsonValue);

#[verifier::external_type_specification]
#[verifier::external_body]
#[verifier::reject_recursive_types(K)]
#[verifier::reject_recursive_types(V)]
pub struct ExJsonMap<K, V>(JsonMap<K, V>);

#[verifier::external_type_specification]
#[verifier::external_body]
pub struct ExJsonFault(JsonFault);

#[verifier::external_type_specification]
#[verifier::external_body]
pub struct ExIoFault(IoFault);

/// Relies on `str`'s `PartialEq`: equality of the two strings' characters.
#[verifier::external_body]
pub(crate) fn str_eq(a: &str, b: &str) -> (r: bool)
    ensures
        r == (a@ == b@),
{
    a == b
}

/// Relies on `serde_json::Number`'s derived `Clone`: the copy equals the
/// original.
#[verifier::external_body]
pub(crate) fn clone_number(n: &serde_json::Number) -> (r: serde_json::Number)
    ensures
        r == *n,
{
    n.clone()
}

/// The text `serde_json::to_string_pretty` renders for an object with these
/// fields; a function of the fields alone.
pub uninterp spec fn rendered_text(m: FieldsModel) -> Seq<char>;

/// The object `serde_json::from_str` parses this text into, or `None` when
/// it refuses the text (not valid JSON, no object at the top level, or nested
/// beyond its recursion limit); a function of the text alone.
pub uninterp spec fn parsed_fields(s: Seq<char>) -> Option<FieldsModel>;

/// Carries a `serde_json` value into the library's tree, one variant to one
/// variant. Only called from the trusted codec bodies below.
#[verifier::external_body]
fn value_from_json(j: JsonValue) -> Value {
    match j {
        serde_json::Value::Null => Value::Null,
        serde_json::Value::Bool(b) => Value::Bool(b),
        serde_json::Value::Number(n) => Value::Num(n),
        serde_json::Value::String(s) => Value::Str(s),
        serde_json::Value::Array(a) => Value::Arr(a.into_iter().map(value_from_json).collect()),
        serde_json::Value::Object(m) => Value::Object(obj_from_json(m)),
    }
}

/// Carries a `serde_json` object into the library's tree, entry by entry in
/// order. Only called from the trusted codec bodies below.
#[verifier::external_body]
fn obj_from_json(m: JsonMap<String, JsonValue>) -> JObject {
    JObject::from_entries(m.into_iter().map(|p| (p.0, value_from_json(p.1))).collect())
}

/// Carries a library tree value out to `serde_json`, one variant to one
/// variant. Only called from the trusted codec bodies below.
#[verifier::external_body]
fn json_of_value(v: &Value) -> JsonValue {
    match v {
        Value::Null => serde_json::Value::Null,
        Value::Bool(b) => serde_json::Value::Bool(*b),
        Value::Num(n) => serde_json::Value::Number(n.clone()),
        Value::Str(s) => serde_json::Value::String(s.clone()),
        Value::Arr(a) => serde_json::Value::Array(a.iter().map(json_of_value).collect()),
        Value::Object(o) => serde_json::Value::Object(json_of_obj(o)),
    }
}

/// Carries a library object out to `serde_json`, entry by entry in order.
/// Only called from the trusted codec bodies below.
#[verifier::external_body]
fn json_of_obj(o: &JObject) -> JsonMap<String, JsonValue> {
    o.entry_pairs().iter().map(|p| (p.0.clone(), json_of_value(&p.1))).collect()
}

/// Relies on `serde_json::to_value`: encodes any `Serialize` value as a JSON
/// tree whose nested objects have unique keys.
#[verifier::external_body]
pub(crate) fn to_tree<V: serde::Serialize>(value: &V) -> (r: Result<Value, serde_json::Error>)
    ensures
        r matches Ok(v) ==> value_wf(v@),
{
    match serde_json::to_value(value) {
        Ok(j) => Ok(value_from_json(j)),
        Err(e) => Err(e),
    }
}

/// Relies on `serde_json::from_value`: decodes a JSON tree into any
/// `DeserializeOwned` type, `Err` when the tree does not fit that type.
#[verifier::external_body]
pub(crate) fn from_tree<V: serde::de::DeserializeOwned>(v: &Value) -> Result<V, serde_json::Error> {
    serde_json::from_value(json_of_value(v))
}

/// Relies on `serde_json::from_str` at type `serde_json::Map`: parses the
/// text as a JSON document with an object at the top level, deterministically
/// in the text, keeping key order and key uniqueness. The parser refuses text
/// nested beyond its recursion limit of 128 containers; `parsed_fields` is
/// `None` for such text, as for any other text it refuses.
#[verifier::external_body]
pub(crate) fn parse_json(s: &str) -> (r: Result<JObject, serde_json::Error>)
    ensures
        r matches Ok(o) ==> parsed_fields(s@) == Some(o@) && fields_wf(o@),
        r is Err ==> parsed_fields(s@) is None,
{
    match serde_json::from_str::<serde_json::Map<String, serde_json::Value>>(s) {
        Ok(m) => Ok(obj_from_json(m)),
        Err(e) => Err(e),
    }
}

/// Relies on `serde_json::to_string_pretty`: on a string-keyed map it cannot
/// fail (its only failure sources are I/O, impossible on the in-memory
/// buffer, and non-string map keys), and the text is non-empty and a function
/// of the fields alone. Relies on `serde_json::from_str` to recover exactly
/// these fields, in order, from that text — provided the keys are unique (a
/// duplicate would be collapsed on the way back) and the tree stays under the
/// parser's recursion limit of 128 nested containers, the top-level object
/// counting as the first.
#[verifier::external_body]
pub(crate) fn render_json(o: &JObject) -> (r: Result<String, serde_json::Error>)
    requires
        fields_wf(o@),
    ensures
        r is Ok,
        r matches Ok(s) ==> s@ == rendered_text(o@) && s@.len() > 0,
        r matches Ok(s) ==> (fields_depth_below(o@, 127) ==> parsed_fields(s@) == Some(o@)),
{
    serde_json::to_string_pretty(&json_of_obj(o))
}

} // verus!
