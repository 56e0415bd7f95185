//! Decoding one line of protocol input into a `Json` tree.
//!
//! The text-level JSON grammar is handled by `serde_json`; everything the
//! library then does with the decoded tree is verified. A line whose
//! numbers do not all fit in a `u64` is treated as malformed, since the
//! protocol's only numbers are non-negative integers (wide identifiers
//! travel as decimal strings).
use vstd::prelude::*;
use crate::json::{Json, JsonV};
use serde_json::Value;

verus! {

#[verifier::external_type_specification]
#[verifier::external_body]
pub struct ExJsonValue(serde_json::Value);

/// The value tree denoted by one line of input text: `None` for text that
/// is not a JSON document or that uses a number shape the protocol
/// excludes. A function of the text alone.
pub uninterp spec fn json_text_parse(s: Seq<char>) -> Option<JsonV>;

/// Relies on `serde_json::Value`'s accessors to walk the decoded tree,
/// carrying each node over one for one; a number that does not fit in a
/// `u64` rejects the whole document. No contract: only `parse_json_text`
/// calls it, inside its own trusted body.
#[verifier::external_body]
fn json_of_value(v: &Value) -> (r: Option<Json>) {
    match v {
        Value::Null => Some(Json::Null),
        Value::Bool(b) => Some(Json::Bool(*b)),
        Value::Number(n) => n.as_u64().map(Json::Num),
        Value::String(s) => Some(Json::Str(s.clone())),
        Value::Array(a) => a.iter().map(json_of_value).collect::<Option<_>>().map(Json::Arr),
        Value::Object(m) => m.iter().map(
            |kv: (&String, &Value)| Some((kv.0.clone(), json_of_value(kv.1)?)),
        ).collect::<Option<_>>().map(Json::Obj),
    }
}

/// Relies on `serde_json::from_str::<serde_json::Value>`: decodes one JSON
/// document from text, returning an error for malformed text; the result
/// depends on the text alone. The decoded tree is then translated one
/// node for one node into the library's value type, `None` where a number
/// does not fit in a `u64`.
#[verifier::external_body]
pub fn parse_json_text(s: &str) -> (r: Option<Json>)
    ensures
        match r {
            Some(j) => json_text_parse(s@) == Some(j@),
            None => json_text_parse(s@) is None,
        },
{
    match serde_json::from_str::<Value>(s) {
        Ok(v) => json_of_value(&v),
        Err(_) => None,
    }
}

} // verus!
