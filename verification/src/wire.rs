//! Calls into `serde_json`, std and `reqwest` that turn wire bytes into
//! values: JSON text parsing, lossy UTF-8 decoding, and HTTP status reasons.
use vstd::prelude::*;
use crate::json::JsonValue;

verus! {

/// A JSON document as `serde_json` holds it (opaque to proofs).
#[verifier::external_type_specification]
#[verifier::external_body]
pub struct ExSerdeJsonValue(serde_json::Value);

/// What `serde_json` makes of a JSON text: the document, or its error
/// message.
pub uninterp spec fn json_parse(bytes: Seq<u8>) -> Result<JsonValue, Seq<char>>;

/// What `String::from_utf8_lossy` makes of a byte string, as UTF-8 bytes.
pub uninterp spec fn lossy_utf8(bytes: Seq<u8>) -> Seq<u8>;

/// The reason phrase that `http::StatusCode::canonical_reason` gives for a
/// status code, when the code is a valid status it knows.
pub uninterp spec fn status_reason(code: u16) -> Option<Seq<char>>;

/// Copies a `serde_json` document into a [`JsonValue`]: integers that fit an
/// `i64` as `Int`, other numbers by their decimal text, objects entry by
/// entry in `serde_json`'s order. Nothing is stated of the result.
#[verifier::external_body]
fn json_from_serde(v: &serde_json::Value) -> (r: JsonValue)
{
    match v {
        serde_json::Value::Null => JsonValue::Null,
        serde_json::Value::Bool(b) => JsonValue::Bool(*b),
        serde_json::Value::Number(n) => match n.as_i64() {
            Some(i) => JsonValue::Int(i),
            None => JsonValue::Decimal(n.to_string()),
        },
        serde_json::Value::String(s) => JsonValue::Str(s.clone()),
        serde_json::Value::Array(a) => JsonValue::Array(a.iter().map(json_from_serde).collect()),
        serde_json::Value::Object(o) => JsonValue::Object(o.iter().map(|(k, x)| (k.clone(), json_from_serde(x))).collect()),
    }
}

/// Parses a JSON text with `serde_json::from_slice`. The result is a function
/// of the bytes alone (`json_parse`); which documents parse, and the error
/// messages, are left to `serde_json`.
#[verifier::external_body]
pub(crate) fn parse_json_bytes(bytes: &[u8]) -> (r: Result<JsonValue, String>)
    ensures
        json_parse(bytes@) == (match r {
            Ok(v) => Ok::<JsonValue, Seq<char>>(v),
            Err(m) => Err::<JsonValue, Seq<char>>(m@),
        }),
{
    match serde_json::from_slice::<serde_json::Value>(bytes) {
        Ok(v) => Ok(json_from_serde(&v)),
        Err(e) => Err(e.to_string()),
    }
}

/// Decodes bytes as UTF-8 with `String::from_utf8_lossy`, replacing invalid
/// sequences, and returns the bytes of the result. Its documentation says
/// that valid UTF-8 comes back unchanged, and the result is a `String`, so
/// its bytes are valid UTF-8.
#[verifier::external_body]
pub(crate) fn lossy_utf8_bytes(bytes: &[u8]) -> (r: Vec<u8>)
    ensures
        r@ == lossy_utf8(bytes@),
        vstd::utf8::valid_utf8(bytes@) ==> r@ == bytes@,
{
    String::from_utf8_lossy(bytes).into_owned().into_bytes()
}

/// The canonical reason phrase of a status code (`reqwest::StatusCode`);
/// `None` for codes outside 100..=999 and for codes it has no phrase for.
#[verifier::external_body]
pub(crate) fn canonical_reason(code: u16) -> (r: Option<String>)
    ensures
        status_reason(code) == (match r {
            Some(s) => Some(s@),
            None => None::<Seq<char>>,
        }),
{
    match reqwest::StatusCode::from_u16(code) {
        Ok(status) => status.canonical_reason().map(|s| s.to_string()),
        Err(_) => None,
    }
}

/// How `serde_json` debug-prints a JSON document (`{:?}` of its `Value`).
pub uninterp spec fn json_debug(v: JsonValue) -> Seq<char>;

/// Copies a [`JsonValue`] into a `serde_json` document: `Int` as an integer,
/// `Decimal` by parsing its text (null when it does not parse), objects
/// entry by entry. Nothing is stated of the result.
#[verifier::external_body]
fn json_to_serde(v: &JsonValue) -> (r: serde_json::Value)
{
    match v {
        JsonValue::Null => serde_json::Value::Null,
        JsonValue::Bool(b) => serde_json::Value::Bool(*b),
        JsonValue::Int(i) => serde_json::Value::from(*i),
        JsonValue::Decimal(t) => serde_json::from_str::<serde_json::Number>(t).map(serde_json::Value::Number).unwrap_or(serde_json::Value::Null),
        JsonValue::Str(s) => serde_json::Value::String(s.clone()),
        JsonValue::Array(a) => serde_json::Value::Array(a.iter().map(json_to_serde).collect()),
        JsonValue::Object(o) => serde_json::Value::Object(o.iter().map(|(k, x)| (k.clone(), json_to_serde(x))).collect()),
    }
}

/// The text that `{:?}` gives for the `serde_json` copy of `v`; a function
/// of the value alone (`json_debug`).
#[verifier::external_body]
pub(crate) fn json_debug_text(v: &JsonValue) -> (r: String)
    ensures
        r@ == json_debug(*v),
{
    format!("{:?}", json_to_serde(v))
}

} // verus!
