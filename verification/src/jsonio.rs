//! Trusted surface over `serde_json`: parsing the worker's status text into
//! the library's own JSON model.
//!
//! The parse is a function of the text alone, so its result carries a name,
//! [`json_of`], and everything downstream — the schema read, the defaults,
//! the PID backfill — is verified against that name over the model.

use vstd::prelude::*;

verus! {

#[verifier::external_type_specification]
#[verifier::external_body]
pub struct ExJsonValue(serde_json::Value);

/// A parsed JSON document, held as plain values: booleans, integers as
/// `as_u64` reads them (nothing for a float, a negative or an overflow),
/// strings, arrays, and objects as key-value pairs in the parser's
/// (key-ordered) iteration order.
#[derive(Debug)]
pub enum JsonDoc {
    Null,
    Bool(bool),
    Num(Option<u64>),
    Str(String),
    Arr(Vec<JsonDoc>),
    Obj(Vec<(String, JsonDoc)>),
}

/// The document that `s` parses to, or nothing when `s` is not one JSON
/// document: the result of `serde_json::from_str`, converted variant by
/// variant into [`JsonDoc`].
pub uninterp spec fn json_of(s: Seq<char>) -> Option<JsonDoc>;

/// Relies on `serde_json::Value`'s variants: converts a parsed document
/// into the library's model, one arm per variant, numbers read as `as_u64`
/// reads them and object pairs taken in the map's key-ordered iteration.
#[verifier::external_body]
fn doc_of_value(v: &serde_json::Value) -> JsonDoc {
    match v {
        serde_json::Value::Null => JsonDoc::Null,
        serde_json::Value::Bool(b) => JsonDoc::Bool(*b),
        serde_json::Value::Number(_) => JsonDoc::Num(v.as_u64()),
        serde_json::Value::String(s) => JsonDoc::Str(s.clone()),
        serde_json::Value::Array(a) => JsonDoc::Arr(a.iter().map(doc_of_value).collect()),
        serde_json::Value::Object(m) => JsonDoc::Obj(
            m.iter().map(|(k, x)| (k.clone(), doc_of_value(x))).collect(),
        ),
    }
}

/// Relies on `serde_json::from_str::<Value>`: parses the text as a single
/// JSON document, or reports that it is not one. The result depends on the
/// text alone (with default features the object map iterates by key), so
/// it is exactly [`json_of`] of the input.
#[verifier::external_body]
pub(crate) fn parse_json_doc(s: &str) -> (r: Option<JsonDoc>)
    ensures
        r == json_of(s@),
{
    serde_json::from_str::<serde_json::Value>(s).ok().map(|v| doc_of_value(&v))
}

} // verus!
