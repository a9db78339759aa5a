//! A mathematical model of the JSON values that the metadata endpoints
//! return, and the trusted boundary to `serde_json`.
//!
//! `serde_json::Value` is opaque to the verifier, so every `Value` is given a
//! ghost meaning through the uninterpreted function [`json_data`]; parsing a
//! body is named by [`parsed_json`]. The thin wrappers below relate each
//! `serde_json` call to those names, and all verified extraction logic is
//! stated and proved over [`JsonData`] alone.

use vstd::prelude::*;

verus! {

/// The shape of a JSON value, as far as the metadata extraction reads it:
/// strings, unsigned integers that fit a `u64`, arrays, objects. Every other
/// value (null, booleans, other numbers) plays no role and is `Other`.
pub enum JsonData {
    Str(Seq<char>),
    UInt(u64),
    Arr(Seq<JsonData>),
    Obj(Map<Seq<char>, JsonData>),
    Other,
}

/// The field of an object under a key: `Some` exactly when the value is an
/// object that has the key. Mirrors `serde_json::Value::get` with a string
/// index.
pub open spec fn json_field(j: JsonData, key: Seq<char>) -> Option<JsonData> {
    match j {
        JsonData::Obj(m) => if m.dom().contains(key) {
            Some(m[key])
        } else {
            None
        },
        _ => None,
    }
}

#[verifier::external_type_specification]
#[verifier::external_body]
pub struct ExValue(serde_json::Value);

/// The ghost meaning of a `serde_json::Value`: a fixed function of the value,
/// constrained only by the contracts of the wrappers below.
pub uninterp spec fn json_data(v: serde_json::Value) -> JsonData;

/// What `serde_json::from_str::<Value>` makes of a body: `None` where the
/// text is not valid JSON, otherwise the meaning of the parsed value. Parsing
/// depends on the text alone.
pub uninterp spec fn parsed_json(s: Seq<char>) -> Option<JsonData>;

/// Relies on `serde_json::from_str::<Value>`: parsing is a function of the
/// input text, and a failed parse yields an error, mapped to `None` here.
#[verifier::external_body]
pub(crate) fn parse_json(s: &str) -> (r: Option<serde_json::Value>)
    ensures
        match r {
            Some(v) => parsed_json(s@) == Some(json_data(v)),
            None => parsed_json(s@) is None,
        },
{
    serde_json::from_str::<serde_json::Value>(s).ok()
}

/// Relies on `serde_json::Value::get` with a string index: the field of an
/// object under the key, `None` on a missing key or a non-object.
#[verifier::external_body]
pub(crate) fn json_get<'a>(v: &'a serde_json::Value, key: &str) -> (r: Option<
    &'a serde_json::Value,
>)
    ensures
        match r {
            Some(f) => json_field(json_data(*v), key@) == Some(json_data(*f)),
            None => json_field(json_data(*v), key@) is None,
        },
{
    v.get(key)
}

/// Relies on `serde_json::Value::as_array`: the element vector exactly when
/// the value is an array.
#[verifier::external_body]
pub(crate) fn json_as_array<'a>(v: &'a serde_json::Value) -> (r: Option<
    &'a Vec<serde_json::Value>,
>)
    ensures
        match r {
            Some(a) => json_data(*v) == JsonData::Arr(a@.map_values(|e| json_data(e))),
            None => !(json_data(*v) is Arr),
        },
{
    v.as_array()
}

/// Relies on `serde_json::Value::as_str`: the character content exactly when
/// the value is a string.
#[verifier::external_body]
pub(crate) fn json_as_str<'a>(v: &'a serde_json::Value) -> (r: Option<&'a str>)
    ensures
        match r {
            Some(s) => json_data(*v) == JsonData::Str(s@),
            None => !(json_data(*v) is Str),
        },
{
    v.as_str()
}

/// Relies on `serde_json::Value::as_u64`: the number exactly when the value
/// is an unsigned integer that fits a `u64`.
#[verifier::external_body]
pub(crate) fn json_as_u64(v: &serde_json::Value) -> (r: Option<u64>)
    ensures
        match r {
            Some(n) => json_data(*v) == JsonData::UInt(n),
            None => !(json_data(*v) is UInt),
        },
{
    v.as_u64()
}

} // verus!
