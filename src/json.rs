//! The decoded shape of a filter: a JSON value, with the parts that the
//! compiler reads held as plain values.
use vstd::prelude::*;

verus! {

/// A decoded JSON value.
///
/// Numbers and objects are kept as the text that the JSON encoder writes for
/// them, which is exactly what they render to in SQL.
#[derive(Debug)]
pub enum Json {
    Null,
    Bool(bool),
    /// A number, as its canonical decimal text (`42`, `-7`, `2.5`).
    Number(String),
    Str(String),
    Array(Vec<Json>),
    /// An object, as its serialized JSON text.
    Object(String),
}

/// The SQL literal that a non-array value renders to.
pub open spec fn leaf_text(value: Json) -> Seq<char> {
    match value {
        Json::Null => "null"@,
        Json::Bool(b) => if b {
            "true"@
        } else {
            "false"@
        },
        Json::Number(t) => t@,
        Json::Str(s) => "'"@ + s@ + "'"@,
        Json::Object(t) => t@,
        Json::Array(_) => Seq::empty(),
    }
}

/// Renders a scalar as a SQL literal: a string in single quotes (inner
/// quotes are not escaped), anything else as its JSON text, unquoted.
pub fn render_leaf(value: &Json) -> (r: String)
    requires
        !(value is Array),
    ensures
        r@ == leaf_text(*value),
{
    match value {
        Json::Null => String::from_str("null"),
        Json::Bool(b) => if *b {
            String::from_str("true")
        } else {
            String::from_str("false")
        },
        Json::Number(t) => t.clone(),
        Json::Str(s) => {
            let mut r = String::from_str("'");
            r.append(s.as_str());
            r.append("'");
            r
        },
        Json::Object(t) => t.clone(),
        Json::Array(_) => String::new(),
    }
}

/// Rendering a scalar depends on its value alone: equal scalars render to
/// the same text.
pub proof fn lemma_render_leaf_deterministic(a: Json, b: Json)
    requires
        !(a is Array),
        a == b,
    ensures
        leaf_text(a) == leaf_text(b),
{
}

} // verus!
