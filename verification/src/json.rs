//! A mathematical model of JSON documents, and trusted access to
//! `serde_json` for parsing response text into that model.
//!
//! The API responses are JSON trees. Parsing text into a tree is
//! `serde_json`'s work and stays behind trusted items; every walk of the
//! tree (field lookups, array and scalar reads) is verified code whose
//! contracts speak of the model below.

use vstd::prelude::*;

verus! {

/// The shape of a JSON document, as contracts see it.
pub ghost enum JsonModel {
    Null,
    Bool(bool),
    /// A number, carrying the `i64` it denotes when it is representable as
    /// one and `None` otherwise (out-of-range integers, fractions).
    Num(Option<i64>),
    Str(Seq<char>),
    Arr(Seq<JsonModel>),
    /// Object fields in the order the parser keeps them; keys are unique.
    Obj(Seq<(Seq<char>, JsonModel)>),
}

/// The value of the first field named `key`, if any.
pub open spec fn obj_lookup(fields: Seq<(Seq<char>, JsonModel)>, key: Seq<char>) -> Option<
    JsonModel,
>
    decreases fields.len(),
{
    if fields.len() == 0 {
        None
    } else if fields[0].0 == key {
        Some(fields[0].1)
    } else {
        obj_lookup(fields.subrange(1, fields.len() as int), key)
    }
}

/// The field named `key` of `j`, when `j` is an object that has one.
pub open spec fn field_of(j: JsonModel, key: Seq<char>) -> Option<JsonModel> {
    match j {
        JsonModel::Obj(fields) => obj_lookup(fields, key),
        _ => None,
    }
}

/// What a `serde_json::Value` holds, as a model tree.
pub uninterp spec fn json_model(v: serde_json::Value) -> JsonModel;

/// What parsing a text as JSON yields: `None` exactly when the parser
/// rejects the text (not JSON, or nested beyond its limit). Parsing
/// depends on the characters alone.
pub uninterp spec fn json_of(s: Seq<char>) -> Option<JsonModel>;

/// The models of the elements of an array.
pub open spec fn models_of(a: Seq<serde_json::Value>) -> Seq<JsonModel> {
    a.map_values(|x: serde_json::Value| json_model(x))
}

#[verifier::external_type_specification]
#[verifier::external_body]
pub struct ExValue(serde_json::Value);

#[verifier::external_type_specification]
#[verifier::external_body]
pub struct ExJsonError(serde_json::Error);

/// Relies on `serde_json::from_str::<Value>`: parses a text as JSON, `Err`
/// exactly on a text the parser rejects, and the result depends on the
/// text alone.
#[verifier::external_body]
pub(crate) fn parse_json(s: &str) -> (r: Result<serde_json::Value, serde_json::Error>)
    ensures
        match r {
            Ok(v) => json_of(s@) == Some(json_model(v)),
            Err(_) => json_of(s@) is None,
        },
{
    serde_json::from_str(s)
}

/// Relies on `serde_json::Value::get` with a string index: returns the
/// field of that name when `self` is an object holding one, `None` otherwise.
#[verifier::external_body]
pub(crate) fn value_get<'a>(v: &'a serde_json::Value, key: &str) -> (r: Option<
    &'a serde_json::Value,
>)
    ensures
        match r {
            Some(f) => field_of(json_model(*v), key@) == Some(json_model(*f)),
            None => field_of(json_model(*v), key@) is None,
        },
{
    v.get(key)
}

/// Relies on `serde_json::Value::as_i64`: `Some` exactly when the value is
/// a number representable as an `i64`.
#[verifier::external_body]
pub(crate) fn value_as_i64(v: &serde_json::Value) -> (r: Option<i64>)
    ensures
        r == (match json_model(*v) {
            JsonModel::Num(n) => n,
            _ => None::<i64>,
        }),
{
    v.as_i64()
}

/// Relies on `serde_json::Value::as_str`: `Some` exactly when the value is
/// a string, handing that string out.
#[verifier::external_body]
pub(crate) fn value_as_str<'a>(v: &'a serde_json::Value) -> (r: Option<&'a str>)
    ensures
        match r {
            Some(s) => json_model(*v) == JsonModel::Str(s@),
            None => !(json_model(*v) is Str),
        },
{
    v.as_str()
}

/// Relies on `serde_json::Value::as_array`: `Some` exactly when the value
/// is an array, handing its elements out.
#[verifier::external_body]
pub(crate) fn value_as_array<'a>(v: &'a serde_json::Value) -> (r: Option<
    &'a Vec<serde_json::Value>,
>)
    ensures
        match r {
            Some(a) => json_model(*v) == JsonModel::Arr(models_of(a@)),
            None => !(json_model(*v) is Arr),
        },
{
    v.as_array()
}

/// Why a response could not be decoded.
#[derive(Debug)]
pub enum DecodeError {
    /// The response text is not valid JSON.
    Syntax,
    /// The response JSON lacks the expected shape.
    Shape,
}

impl DecodeError {
    /// A human-readable description of the error.
    pub fn message(&self) -> (r: &'static str)
        ensures
            r@ == match *self {
                DecodeError::Syntax => "response is not valid JSON"@,
                DecodeError::Shape => "response JSON does not have the expected shape"@,
            },
    {
        match *self {
            DecodeError::Syntax => "response is not valid JSON",
            DecodeError::Shape => "response JSON does not have the expected shape",
        }
    }
}

/// The integer at `data.phone_numbers.page_info.total_pages`, if the tree
/// has that shape.
pub open spec fn spec_total_pages(j: JsonModel) -> Option<i64> {
    match field_of(j, "data"@) {
        Some(d) => match field_of(d, "phone_numbers"@) {
            Some(p) => match field_of(p, "page_info"@) {
                Some(pi) => match field_of(pi, "total_pages"@) {
                    Some(tp) => match tp {
                        JsonModel::Num(n) => n,
                        _ => None,
                    },
                    None => None,
                },
                None => None,
            },
            None => None,
        },
        None => None,
    }
}

/// Reads `data.phone_numbers.page_info.total_pages` out of a parsed
/// response: the count of records the endpoint reports.
pub fn extract_total_pages(v: &serde_json::Value) -> (r: Result<i64, DecodeError>)
    ensures
        match r {
            Ok(n) => spec_total_pages(json_model(*v)) == Some(n),
            Err(e) => spec_total_pages(json_model(*v)) is None && e == DecodeError::Shape,
        },
{
    let d = match value_get(v, "data") {
        Some(x) => x,
        None => { return Err(DecodeError::Shape) },
    };
    let p = match value_get(d, "phone_numbers") {
        Some(x) => x,
        None => { return Err(DecodeError::Shape) },
    };
    let pi = match value_get(p, "page_info") {
        Some(x) => x,
        None => { return Err(DecodeError::Shape) },
    };
    let tp = match value_get(pi, "total_pages") {
        Some(x) => x,
        None => { return Err(DecodeError::Shape) },
    };
    match value_as_i64(tp) {
        Some(n) => Ok(n),
        None => Err(DecodeError::Shape),
    }
}

} // verus!
