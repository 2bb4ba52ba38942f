//! JSON text: reading a JSON value from text and printing it, with
//! `serde_json`.

use vstd::prelude::*;

use serde_json::{Error, Value};

use crate::error::ProtocolError;
use crate::json::{json_wf, JsonNumber, JsonValue, JsonView};

verus! {

/// A JSON document as `serde_json` holds it.
#[verifier::external_type_specification]
#[verifier::external_body]
pub struct ExSerdeValue(Value);

/// The content of the JSON value that `serde_json::from_str` reads from a
/// text; `None` where it reports an error.
pub uninterp spec fn parsed_json_text(text: Seq<char>) -> Option<JsonView>;

/// The text that `serde_json::to_string` prints for a JSON value of this
/// content; `None` where it reports an error.
pub uninterp spec fn printed_json_text(v: JsonView) -> Option<Seq<char>>;

/// Moves a `serde_json` value into the library's JSON value, node for node:
/// numbers keep their integer form where they have one, else their text;
/// object members keep the order `serde_json` holds them in.
#[verifier::external_body]
fn value_from_serde(v: Value) -> JsonValue {
    match v {
        Value::Null => JsonValue::Null,
        Value::Bool(b) => JsonValue::Bool(b),
        Value::Number(n) => JsonValue::Number(match (n.as_u64(), n.as_i64()) {
            (Some(u), _) => JsonNumber::PosInt(u),
            (None, Some(i)) => JsonNumber::NegInt(i),
            (None, None) => JsonNumber::Float(n.to_string()),
        }),
        Value::String(s) => JsonValue::String(s),
        Value::Array(a) => JsonValue::Array(a.into_iter().map(value_from_serde).collect()),
        Value::Object(o) => JsonValue::Object(o.into_iter().map(|(k, v)| (k, value_from_serde(v))).collect()),
    }
}

/// Moves the library's JSON value into a `serde_json` value, node for node;
/// a number held as text is read back with `serde_json::from_str`.
#[verifier::external_body]
fn value_to_serde(v: &JsonValue) -> Result<Value, Error> {
    Ok(match v {
        JsonValue::Null => Value::Null,
        JsonValue::Bool(b) => Value::Bool(*b),
        JsonValue::Number(JsonNumber::PosInt(u)) => Value::from(*u),
        JsonValue::Number(JsonNumber::NegInt(i)) => Value::from(*i),
        JsonValue::Number(JsonNumber::Float(t)) => Value::Number(serde_json::from_str(t)?),
        JsonValue::String(s) => Value::String(s.clone()),
        JsonValue::Array(a) => Value::Array(a.iter().map(value_to_serde).collect::<Result<_, _>>()?),
        JsonValue::Object(o) => Value::Object(o.iter().map(member_to_serde).collect::<Result<_, _>>()?),
    })
}

/// Moves one object member into its `serde_json` form.
#[verifier::external_body]
fn member_to_serde(m: &(String, JsonValue)) -> Result<(String, Value), Error> {
    Ok((m.0.clone(), value_to_serde(&m.1)?))
}

/// Calls `serde_json::from_str` for a `serde_json::Value` and moves the
/// result into a `JsonValue`. The contract claims that the result is the one
/// `parsed_json_text` names for the text, that a failure is reported as the
/// `serde_json` error, and that the result is well formed: `serde_json`
/// keeps only negative integers as `NegInt` (`as_u64` answers for every
/// other integer), and without `preserve_order` its object map is a
/// `BTreeMap`, walked in increasing key order with each key once. What the
/// text of a float looks like is not stated.
#[verifier::external_body]
pub(crate) fn parse_json_text(text: &str) -> (r: Result<JsonValue, ProtocolError>)
    ensures
        match r {
            Ok(v) => parsed_json_text(text@) == Some(v@) && json_wf(v@),
            Err(e) => parsed_json_text(text@) is None && e is Json,
        },
{
    match serde_json::from_str::<Value>(text) {
        Ok(v) => Ok(value_from_serde(v)),
        Err(e) => Err(ProtocolError::Json(e)),
    }
}

/// Moves a `JsonValue` into a `serde_json::Value` and calls
/// `serde_json::to_string` on it. The contract claims only that the result
/// is the text `printed_json_text` names for the value's content, and that a
/// failure is reported as the `serde_json` error.
#[verifier::external_body]
pub(crate) fn print_json_text(v: &JsonValue) -> (r: Result<String, ProtocolError>)
    ensures
        match r {
            Ok(t) => printed_json_text(v@) == Some(t@),
            Err(e) => printed_json_text(v@) is None && e is Json,
        },
{
    match value_to_serde(v) {
        Ok(s) => match serde_json::to_string(&s) {
            Ok(t) => Ok(t),
            Err(e) => Err(ProtocolError::Json(e)),
        },
        Err(e) => Err(ProtocolError::Json(e)),
    }
}

} // verus!
