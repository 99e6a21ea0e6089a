//! The SDK's error type, its JSON-RPC error codes, and the two directions of
//! translation between them.
use vstd::prelude::*;
use vstd::string::StringExecFns;
use crate::json::{JsonValue, json_get, json_get_str, json_as_str, get_str, take_field, json_same, json_clone, object_set};
use crate::text::u64_text;
use crate::text::{decimal_text, i64_text, concat};

verus! {

/// JSON-RPC 2.0 and MCP error codes.
pub const PARSE_ERROR: i64 = -32700;
pub const INVALID_REQUEST: i64 = -32600;
pub const METHOD_NOT_FOUND: i64 = -32601;
pub const INVALID_PARAMS: i64 = -32602;
pub const INTERNAL_ERROR: i64 = -32603;
pub const TOOL_NOT_FOUND: i64 = -32001;
pub const RESOURCE_NOT_FOUND: i64 = -32002;
pub const PROMPT_NOT_FOUND: i64 = -32003;
pub const FORBIDDEN_ERROR: i64 = -32010;
pub const RATE_LIMITED_ERROR: i64 = -32011;
pub const HEADER_MISMATCH: i64 = -32020;
pub const UNSUPPORTED_PROTOCOL_VERSION: i64 = -32021;
pub const MISSING_REQUIRED_CLIENT_CAPABILITY: i64 = -32022;

/// Errors of the SDK.
#[derive(Debug, Clone)]
pub enum McpError {
    Validation(String),
    Protocol(String),
    ToolNotFound(String),
    ResourceNotFound(String),
    PromptNotFound(String),
    MethodNotFound(String),
    InvalidParams(String),
    Connection(String),
    Transport(String),
    Timeout(String),
    Http(String),
    Serialization(String),
    Internal(String),
    Io(String),
    Authentication(String),
    Cancelled(String),
    Forbidden(String),
    RateLimited { retry_after_ms: u64 },
    HeaderMismatch(String),
    MissingRequiredClientCapability(JsonValue),
    UnsupportedProtocolVersion { requested: String, supported: Vec<String> },
}

/// Failures that say the endpoint or the link is unhealthy, as opposed to a
/// reply that rejected the request.
pub open spec fn spec_is_recoverable(e: McpError) -> bool {
    match e {
        McpError::Connection(_) | McpError::Transport(_) | McpError::Timeout(_)
        | McpError::Http(_) | McpError::Io(_) => true,
        _ => false,
    }
}

impl McpError {
    /// Whether the failure says the endpoint is unhealthy.
    pub fn is_recoverable(&self) -> (r: bool)
        ensures
            r == spec_is_recoverable(*self),
    {
        match self {
            McpError::Connection(_) | McpError::Transport(_) | McpError::Timeout(_)
            | McpError::Http(_) | McpError::Io(_) => true,
            _ => false,
        }
    }
}

/// The JSON-RPC code a server reports for an error.
pub open spec fn spec_error_code(e: McpError) -> i64 {
    match e {
        McpError::MethodNotFound(_) => METHOD_NOT_FOUND,
        McpError::InvalidParams(_) | McpError::Validation(_) => INVALID_PARAMS,
        McpError::ToolNotFound(_) => TOOL_NOT_FOUND,
        McpError::ResourceNotFound(_) => RESOURCE_NOT_FOUND,
        McpError::PromptNotFound(_) => PROMPT_NOT_FOUND,
        McpError::Serialization(_) => PARSE_ERROR,
        McpError::Forbidden(_) => FORBIDDEN_ERROR,
        McpError::RateLimited { .. } => RATE_LIMITED_ERROR,
        McpError::HeaderMismatch(_) => HEADER_MISMATCH,
        McpError::UnsupportedProtocolVersion { .. } => UNSUPPORTED_PROTOCOL_VERSION,
        McpError::MissingRequiredClientCapability(_) => MISSING_REQUIRED_CLIENT_CAPABILITY,
        _ => INTERNAL_ERROR,
    }
}

/// The JSON-RPC code a server reports for an error.
pub fn error_code(e: &McpError) -> (r: i64)
    ensures
        r == spec_error_code(*e),
{
    match e {
        McpError::MethodNotFound(_) => METHOD_NOT_FOUND,
        McpError::InvalidParams(_) | McpError::Validation(_) => INVALID_PARAMS,
        McpError::ToolNotFound(_) => TOOL_NOT_FOUND,
        McpError::ResourceNotFound(_) => RESOURCE_NOT_FOUND,
        McpError::PromptNotFound(_) => PROMPT_NOT_FOUND,
        McpError::Serialization(_) => PARSE_ERROR,
        McpError::Forbidden(_) => FORBIDDEN_ERROR,
        McpError::RateLimited { .. } => RATE_LIMITED_ERROR,
        McpError::HeaderMismatch(_) => HEADER_MISMATCH,
        McpError::UnsupportedProtocolVersion { .. } => UNSUPPORTED_PROTOCOL_VERSION,
        McpError::MissingRequiredClientCapability(_) => MISSING_REQUIRED_CLIENT_CAPABILITY,
        _ => INTERNAL_ERROR,
    }
}

/// The text of a generic JSON-RPC failure: `JSON-RPC error {code}: {message}`.
pub open spec fn rpc_error_text(code: i64, message: Seq<char>) -> Seq<char> {
    "JSON-RPC error "@ + decimal_text(code as int) + ": "@ + message
}

/// The `retryAfterMs` a rate-limit reply carries, 0 when absent or not a
/// non-negative integer.
pub open spec fn spec_retry_after(data: Option<JsonValue>) -> u64 {
    match data {
        Some(d) => match json_get(d, "retryAfterMs"@) {
            Some(JsonValue::Int(n)) => if n >= 0 { n as u64 } else { 0 },
            _ => 0,
        },
        None => 0,
    }
}

/// The capabilities a "missing client capability" reply asks for: the
/// reply's `requiredCapabilities`, or an empty object when absent.
pub open spec fn is_required_capabilities(data: Option<JsonValue>, v: JsonValue) -> bool {
    match data {
        Some(d) => match json_get(d, "requiredCapabilities"@) {
            Some(x) => v == x,
            None => v matches JsonValue::Object(es) && es@.len() == 0,
        },
        None => v matches JsonValue::Object(es) && es@.len() == 0,
    }
}

/// The version the peer reported as requested (`unknown` when absent).
pub open spec fn spec_requested_version(data: Option<JsonValue>) -> Seq<char> {
    match data {
        Some(d) => match json_get_str(d, "requested"@) {
            Some(s) => s,
            None => "unknown"@,
        },
        None => "unknown"@,
    }
}

/// The string items of a JSON array, in order (non-strings skipped).
pub open spec fn string_items(items: Seq<JsonValue>) -> Seq<Seq<char>>
    decreases items.len(),
{
    if items.len() == 0 {
        Seq::empty()
    } else {
        let rest = string_items(items.drop_last());
        match json_as_str(items.last()) {
            Some(s) => rest.push(s),
            None => rest,
        }
    }
}

/// The versions the peer reported as supported.
pub open spec fn spec_supported_versions(data: Option<JsonValue>) -> Seq<Seq<char>> {
    match data {
        Some(d) => match json_get(d, "supported"@) {
            Some(JsonValue::Array(items)) => string_items(items@),
            _ => Seq::empty(),
        },
        None => Seq::empty(),
    }
}

/// How a client reads a JSON-RPC error reply: the error a caller sees.
pub open spec fn spec_error_from_reply(code: i64, message: Seq<char>, data: Option<JsonValue>, e: McpError) -> bool {
    if code == FORBIDDEN_ERROR {
        e matches McpError::Forbidden(m) && m@ == message
    } else if code == RATE_LIMITED_ERROR {
        e == McpError::RateLimited { retry_after_ms: spec_retry_after(data) }
    } else if code == METHOD_NOT_FOUND {
        e matches McpError::MethodNotFound(m) && m@ == message
    } else if code == HEADER_MISMATCH {
        e matches McpError::HeaderMismatch(m) && m@ == message
    } else if code == MISSING_REQUIRED_CLIENT_CAPABILITY {
        e matches McpError::MissingRequiredClientCapability(v) && is_required_capabilities(data, v)
    } else if code == UNSUPPORTED_PROTOCOL_VERSION {
        e matches McpError::UnsupportedProtocolVersion { requested, supported }
            && requested@ == spec_requested_version(data)
            && supported@.map_values(|s: String| s@) == spec_supported_versions(data)
    } else {
        e matches McpError::Protocol(m) && m@ == rpc_error_text(code, message)
    }
}

fn retry_after(data: &Option<JsonValue>) -> (r: u64)
    ensures
        r == spec_retry_after(*data),
{
    match data {
        Some(d) => match d.get("retryAfterMs") {
            Some(JsonValue::Int(n)) => if *n >= 0 { *n as u64 } else { 0 },
            _ => 0,
        },
        None => 0,
    }
}

fn required_capabilities(data: Option<JsonValue>) -> (r: JsonValue)
    ensures
        is_required_capabilities(data, r),
{
    match data {
        Some(d) => match take_field(d, "requiredCapabilities") {
            Some(v) => v,
            None => JsonValue::Object(Vec::new()),
        },
        None => JsonValue::Object(Vec::new()),
    }
}

fn requested_version(data: &Option<JsonValue>) -> (r: String)
    ensures
        r@ == spec_requested_version(*data),
{
    match data {
        Some(d) => match get_str(d, "requested") {
            Some(s) => s.clone(),
            None => String::from_str("unknown"),
        },
        None => String::from_str("unknown"),
    }
}

#[verifier::loop_isolation(false)]
fn supported_versions(data: &Option<JsonValue>) -> (r: Vec<String>)
    ensures
        r@.map_values(|s: String| s@) == spec_supported_versions(*data),
{
    let mut out: Vec<String> = Vec::new();
    match data {
        Some(d) => match d.get("supported") {
            Some(JsonValue::Array(items)) => {
                let n = items.len();
                let mut i: usize = 0;
                while i < n
                    invariant
                        n == items@.len(),
                        i <= n,
                        out@.map_values(|s: String| s@) == string_items(items@.take(i as int)),
                    decreases n - i,
                {
                    assert(items@.take(i + 1).drop_last() =~= items@.take(i as int));
                    match items[i].as_str() {
                        Some(s) => {
                            out.push(s.clone());
                        },
                        None => {},
                    }
                    assert(out@.map_values(|s: String| s@) =~= string_items(items@.take(i + 1)));
                    i = i + 1;
                }
                assert(items@.take(n as int) =~= items@);
                out
            },
            _ => {
                assert(out@.map_values(|s: String| s@) =~= Seq::<Seq<char>>::empty());
                out
            },
        },
        None => {
            assert(out@.map_values(|s: String| s@) =~= Seq::<Seq<char>>::empty());
            out
        },
    }
}

/// Reads a JSON-RPC error reply (code, message, data) as the error a caller sees.
pub fn error_from_reply(code: i64, message: String, data: Option<JsonValue>) -> (e: McpError)
    ensures
        spec_error_from_reply(code, message@, data, e),
{
    if code == FORBIDDEN_ERROR {
        McpError::Forbidden(message)
    } else if code == RATE_LIMITED_ERROR {
        McpError::RateLimited { retry_after_ms: retry_after(&data) }
    } else if code == METHOD_NOT_FOUND {
        McpError::MethodNotFound(message)
    } else if code == HEADER_MISMATCH {
        McpError::HeaderMismatch(message)
    } else if code == MISSING_REQUIRED_CLIENT_CAPABILITY {
        McpError::MissingRequiredClientCapability(required_capabilities(data))
    } else if code == UNSUPPORTED_PROTOCOL_VERSION {
        let requested = requested_version(&data);
        let supported = supported_versions(&data);
        McpError::UnsupportedProtocolVersion { requested, supported }
    } else {
        proof { reveal_strlit("JSON-RPC error "); reveal_strlit(": "); }
        let mut text = String::from_str("JSON-RPC error ");
        let digits = i64_text(code);
        text.append(digits.as_str());
        text.append(": ");
        text.append(message.as_str());
        assert(text@ =~= rpc_error_text(code, message@));
        McpError::Protocol(text)
    }
}

/// The human-readable text of an error.
pub open spec fn spec_error_text(e: McpError) -> Seq<char> {
    match e {
        McpError::Validation(m) => m@,
        McpError::Protocol(m) => m@,
        McpError::ToolNotFound(m) => m@,
        McpError::ResourceNotFound(m) => m@,
        McpError::PromptNotFound(m) => m@,
        McpError::MethodNotFound(m) => m@,
        McpError::InvalidParams(m) => m@,
        McpError::Connection(m) => m@,
        McpError::Transport(m) => m@,
        McpError::Timeout(m) => m@,
        McpError::Http(m) => m@,
        McpError::Serialization(m) => m@,
        McpError::Internal(m) => m@,
        McpError::Io(m) => m@,
        McpError::Authentication(m) => m@,
        McpError::Cancelled(m) => m@,
        McpError::Forbidden(m) => m@,
        McpError::RateLimited { .. } => "Rate limited"@,
        McpError::HeaderMismatch(m) => m@,
        McpError::MissingRequiredClientCapability(_) => "Missing required client capability"@,
        McpError::UnsupportedProtocolVersion { requested, .. } => "Unsupported protocol version: "@ + requested@,
    }
}

impl McpError {
    /// The human-readable text of the error.
    pub fn text(&self) -> (r: String)
        ensures
            r@ == spec_error_text(*self),
    {
        match self {
            McpError::Validation(m) => m.clone(),
            McpError::Protocol(m) => m.clone(),
            McpError::ToolNotFound(m) => m.clone(),
            McpError::ResourceNotFound(m) => m.clone(),
            McpError::PromptNotFound(m) => m.clone(),
            McpError::MethodNotFound(m) => m.clone(),
            McpError::InvalidParams(m) => m.clone(),
            McpError::Connection(m) => m.clone(),
            McpError::Transport(m) => m.clone(),
            McpError::Timeout(m) => m.clone(),
            McpError::Http(m) => m.clone(),
            McpError::Serialization(m) => m.clone(),
            McpError::Internal(m) => m.clone(),
            McpError::Io(m) => m.clone(),
            McpError::Authentication(m) => m.clone(),
            McpError::Cancelled(m) => m.clone(),
            McpError::Forbidden(m) => m.clone(),
            McpError::RateLimited { .. } => String::from_str("Rate limited"),
            McpError::HeaderMismatch(m) => m.clone(),
            McpError::MissingRequiredClientCapability(_) => String::from_str("Missing required client capability"),
            McpError::UnsupportedProtocolVersion { requested, .. } => concat("Unsupported protocol version: ", requested.as_str()),
        }
    }
}

/// The text of `JSON-RPC error {code}: {message}`.
pub fn rpc_error_message(code: i64, message: &str) -> (r: String)
    ensures
        r@ == rpc_error_text(code, message@),
{
    let mut text = String::from_str("JSON-RPC error ");
    let digits = i64_text(code);
    text.append(digits.as_str());
    text.append(": ");
    text.append(message);
    text
}

/// `v` writes the unsigned integer `n`: exactly when it fits an `i64`, else
/// by its decimal text.
pub open spec fn json_u64_is(v: JsonValue, n: u64) -> bool {
    if n <= i64::MAX {
        v == JsonValue::Int(n as i64)
    } else {
        v matches JsonValue::Decimal(t) && t@ == decimal_text(n as int)
    }
}

/// The `data` a server writes with an error: the retry delay of a rate
/// limit, the capabilities a missing-capability error asks for, the versions
/// of a version mismatch, and nothing for other errors.
pub open spec fn error_data_fits(e: McpError, data: Option<JsonValue>) -> bool {
    match e {
        McpError::RateLimited { retry_after_ms } => data matches Some(d) && {
            &&& d is Object
            &&& json_get(d, "retryAfterMs"@) matches Some(x) && json_u64_is(x, retry_after_ms)
        },
        McpError::MissingRequiredClientCapability(v) => data matches Some(d) && {
            &&& d is Object
            &&& json_get(d, "requiredCapabilities"@) matches Some(x) && json_same(v, x)
        },
        McpError::UnsupportedProtocolVersion { requested, supported } => data matches Some(d) && {
            &&& d is Object
            &&& json_get_str(d, "requested"@) == Some(requested@)
            &&& json_get(d, "supported"@) matches Some(JsonValue::Array(items)) && {
                &&& string_items(items@) == supported@.map_values(|s: String| s@)
                &&& items@.len() == supported@.len()
            }
        },
        _ => data is None,
    }
}

fn u64_json(n: u64) -> (r: JsonValue)
    ensures
        json_u64_is(r, n),
{
    if n <= i64::MAX as u64 {
        JsonValue::Int(n as i64)
    } else {
        JsonValue::Decimal(u64_text(n))
    }
}

#[verifier::loop_isolation(false)]
fn string_array(items: &Vec<String>) -> (r: JsonValue)
    ensures
        r matches JsonValue::Array(xs) && string_items(xs@) == items@.map_values(|s: String| s@)
            && xs@.len() == items@.len(),
{
    let mut xs: Vec<JsonValue> = Vec::new();
    let n = items.len();
    let mut i: usize = 0;
    while i < n
        invariant
            n == items@.len(),
            i <= n,
            xs@.len() == i,
            string_items(xs@) == items@.take(i as int).map_values(|s: String| s@),
        decreases n - i,
    {
        let ghost before = xs@;
        xs.push(JsonValue::Str(items[i].clone()));
        assert(xs@.drop_last() =~= before);
        assert(items@.take(i + 1).map_values(|s: String| s@) =~= items@.take(i as int).map_values(|s: String| s@).push(items@[i as int]@));
        i = i + 1;
    }
    assert(items@.take(n as int) =~= items@);
    JsonValue::Array(xs)
}

/// The `data` a server writes with an error.
pub fn error_data(e: &McpError) -> (r: Option<JsonValue>)
    ensures
        error_data_fits(*e, r),
{
    match e {
        McpError::RateLimited { retry_after_ms } => {
            let mut d = JsonValue::Object(Vec::new());
            object_set(&mut d, "retryAfterMs", u64_json(*retry_after_ms));
            Some(d)
        },
        McpError::MissingRequiredClientCapability(v) => {
            let mut d = JsonValue::Object(Vec::new());
            object_set(&mut d, "requiredCapabilities", json_clone(v));
            Some(d)
        },
        McpError::UnsupportedProtocolVersion { requested, supported } => {
            proof { reveal_strlit("requested"); reveal_strlit("supported"); }
            let mut d = JsonValue::Object(Vec::new());
            object_set(&mut d, "requested", JsonValue::Str(requested.clone()));
            let arr = string_array(supported);
            object_set(&mut d, "supported", arr);
            assert("requested"@[0] != "supported"@[0]);
            Some(d)
        },
        _ => None,
    }
}

/// Errors that a reply carries across the wire without loss.
pub open spec fn travels_intact(e: McpError) -> bool {
    match e {
        McpError::Forbidden(_) | McpError::MethodNotFound(_) | McpError::HeaderMismatch(_)
        | McpError::MissingRequiredClientCapability(_) | McpError::UnsupportedProtocolVersion { .. } => true,
        McpError::RateLimited { retry_after_ms } => retry_after_ms <= i64::MAX,
        _ => false,
    }
}

/// `b` says what `a` says: the same kind, with the same text or payload.
pub open spec fn same_error(a: McpError, b: McpError) -> bool {
    match (a, b) {
        (McpError::Forbidden(x), McpError::Forbidden(y)) => x@ == y@,
        (McpError::MethodNotFound(x), McpError::MethodNotFound(y)) => x@ == y@,
        (McpError::HeaderMismatch(x), McpError::HeaderMismatch(y)) => x@ == y@,
        (McpError::RateLimited { retry_after_ms: x }, McpError::RateLimited { retry_after_ms: y }) => x == y,
        (McpError::MissingRequiredClientCapability(x), McpError::MissingRequiredClientCapability(y)) => json_same(x, y),
        (McpError::UnsupportedProtocolVersion { requested: r1, supported: s1 },
            McpError::UnsupportedProtocolVersion { requested: r2, supported: s2 }) =>
            r1@ == r2@ && s1@.map_values(|s: String| s@) == s2@.map_values(|s: String| s@),
        _ => false,
    }
}

/// What a refused request is answered, the client reads back: an error
/// written by a server as its code, text and data is read by a client as the
/// same error, for every error that a reply carries intact.
pub proof fn error_reply_roundtrip(e: McpError, data: Option<JsonValue>, back: McpError)
    requires
        travels_intact(e),
        error_data_fits(e, data),
        spec_error_from_reply(spec_error_code(e), spec_error_text(e), data, back),
    ensures
        same_error(e, back),
{
    match e {
        McpError::MissingRequiredClientCapability(v) => {
            let d = data.unwrap();
            assert(json_get(d, "requiredCapabilities"@) is Some);
        },
        _ => {},
    }
}

} // verus!
