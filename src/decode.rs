//! Decoding filter text with serde_json into the library's [`Json`] model.
use crate::json::Json;
use serde_json::Error as DecodeFailure;
use serde_json::Value;
use vstd::prelude::*;

verus! {

#[verifier::external_type_specification]
#[verifier::external_body]
pub struct ExValue(Value);

/// The value that serde_json decodes from a text, seen as a [`Json`]; `None`
/// where the text is not valid JSON.
pub uninterp spec fn decoded(text: Seq<char>) -> Option<Json>;

/// Relies on `serde_json::from_str::<Value>` to decode the text, which gives the
/// same value or the same refusal for the same text.
#[verifier::external_body]
pub(crate) fn decode(text: &str) -> (r: Result<Json, DecodeFailure>)
    ensures
        match r {
            Ok(v) => decoded(text@) == Some(v),
            Err(_) => decoded(text@) is None,
        },
{
    match serde_json::from_str::<Value>(text) {
        Ok(v) => Ok(json_of_value(&v)),
        Err(e) => Err(e),
    }
}

/// Relies on serde_json's `Display` for `Value`, which writes compact JSON
/// text, for numbers and objects (an object's keys come out in sorted order,
/// serde_json's default map being ordered); every other kind is moved over as
/// it is. serde_json's nesting limit bounds the recursion.
#[verifier::external_body]
fn json_of_value(v: &Value) -> Json {
    match v {
        Value::Null => Json::Null,
        Value::Bool(b) => Json::Bool(*b),
        Value::Number(_) => Json::Number(v.to_string()),
        Value::String(s) => Json::Str(s.clone()),
        Value::Array(items) => Json::Array(items.iter().map(json_of_value).collect()),
        Value::Object(_) => Json::Object(v.to_string()),
    }
}

} // verus!
