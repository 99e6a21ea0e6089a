//! JSON-RPC message shapes, MCP method names, request validation helpers and
//! notification builders.
use vstd::prelude::*;
use vstd::string::StringExecFns;
use crate::json::{JsonValue, json_get, json_get_str, json_as_str, get_str};
use crate::text::{text_eq, contains, starts_with, utf8_of, has_infix, has_prefix, concat};
use crate::error::McpError;

verus! {

pub const JSONRPC_VERSION: &'static str = "2.0";
pub const LATEST_PROTOCOL_VERSION: &'static str = "2025-06-18";

pub const INITIALIZE: &'static str = "initialize";
pub const PING: &'static str = "ping";
pub const TOOLS_LIST: &'static str = "tools/list";
pub const TOOLS_CALL: &'static str = "tools/call";
pub const RESOURCES_LIST: &'static str = "resources/list";
pub const RESOURCES_READ: &'static str = "resources/read";
pub const RESOURCES_SUBSCRIBE: &'static str = "resources/subscribe";
pub const RESOURCES_UNSUBSCRIBE: &'static str = "resources/unsubscribe";
pub const RESOURCES_TEMPLATES_LIST: &'static str = "resources/templates/list";
pub const PROMPTS_LIST: &'static str = "prompts/list";
pub const PROMPTS_GET: &'static str = "prompts/get";
pub const COMPLETION_COMPLETE: &'static str = "completion/complete";
pub const LOGGING_SET_LEVEL: &'static str = "logging/setLevel";
pub const RPC_DISCOVER: &'static str = "rpc.discover";
pub const SUBSCRIPTIONS_LISTEN: &'static str = "subscriptions/listen";
pub const SAMPLING_CREATE_MESSAGE: &'static str = "sampling/createMessage";
pub const ROOTS_LIST: &'static str = "roots/list";
pub const ELICITATION_CREATE: &'static str = "elicitation/create";
pub const INITIALIZED: &'static str = "notifications/initialized";
pub const CANCELLED: &'static str = "notifications/cancelled";
pub const PROGRESS: &'static str = "notifications/progress";
pub const LOGGING_MESSAGE: &'static str = "notifications/message";
pub const TOOLS_LIST_CHANGED: &'static str = "notifications/tools/list_changed";
pub const RESOURCES_LIST_CHANGED: &'static str = "notifications/resources/list_changed";
pub const RESOURCES_UPDATED: &'static str = "notifications/resources/updated";
pub const PROMPTS_LIST_CHANGED: &'static str = "notifications/prompts/list_changed";
pub const ROOTS_LIST_CHANGED: &'static str = "notifications/roots/list_changed";
pub const ELICITATION_COMPLETE: &'static str = "notifications/elicitation/complete";
pub const TASKS_STATUS: &'static str = "notifications/tasks/status";
pub const TASKS_STATUS_UPDATE: &'static str = "notifications/tasks/status_update";
pub const SUBSCRIPTIONS_ACKNOWLEDGED: &'static str = "notifications/subscriptions/acknowledged";
pub const TASKS_EXTENSION_ID: &'static str = "io.modelcontextprotocol/tasks";
pub const SUBSCRIPTION_ID_META_KEY: &'static str = "io.modelcontextprotocol/subscriptionId";

/// A JSON-RPC request.
#[derive(Debug, Clone)]
pub struct JsonRpcRequest {
    pub jsonrpc: String,
    pub id: JsonValue,
    pub method: String,
    pub params: Option<JsonValue>,
}

/// A JSON-RPC notification (no id, no reply).
#[derive(Debug, Clone)]
pub struct JsonRpcNotification {
    pub jsonrpc: String,
    pub method: String,
    pub params: Option<JsonValue>,
}

/// A successful JSON-RPC reply.
#[derive(Debug, Clone)]
pub struct JsonRpcResponse {
    pub jsonrpc: String,
    pub id: JsonValue,
    pub result: Option<JsonValue>,
}

/// The error member of a JSON-RPC error reply.
#[derive(Debug, Clone)]
pub struct ErrorObject {
    pub code: i64,
    pub message: String,
    pub data: Option<JsonValue>,
}

/// A JSON-RPC error reply.
#[derive(Debug, Clone)]
pub struct JsonRpcError {
    pub jsonrpc: String,
    pub id: JsonValue,
    pub error: ErrorObject,
}

/// Any JSON-RPC message.
#[derive(Debug, Clone)]
pub enum JsonRpcMessage {
    Request(JsonRpcRequest),
    Notification(JsonRpcNotification),
    Response(JsonRpcResponse),
    Error(JsonRpcError),
}

impl JsonRpcNotification {
    /// A `2.0` notification with the given method and params.
    pub fn new(method: String, params: Option<JsonValue>) -> (r: JsonRpcNotification)
        ensures
            r.jsonrpc@ == JSONRPC_VERSION@,
            r.method == method,
            r.params == params,
    {
        JsonRpcNotification { jsonrpc: String::from_str(JSONRPC_VERSION), method, params }
    }
}

impl JsonRpcResponse {
    /// A successful reply carrying `result` for request `id`.
    pub fn success(id: JsonValue, result: JsonValue) -> (r: JsonRpcResponse)
        ensures
            r.jsonrpc@ == JSONRPC_VERSION@,
            r.id == id,
            r.result == Some(result),
    {
        JsonRpcResponse { jsonrpc: String::from_str(JSONRPC_VERSION), id, result: Some(result) }
    }
}

impl JsonRpcError {
    /// An error reply for request `id`.
    pub fn error(id: JsonValue, code: i64, message: String, data: Option<JsonValue>) -> (r: JsonRpcError)
        ensures
            r.jsonrpc@ == JSONRPC_VERSION@,
            r.id == id,
            r.error.code == code,
            r.error.message == message,
            r.error.data == data,
    {
        JsonRpcError {
            jsonrpc: String::from_str(JSONRPC_VERSION),
            id,
            error: ErrorObject { code, message, data },
        }
    }
}

/// An empty JSON object.
pub fn empty_object() -> (r: JsonValue)
    ensures
        r matches JsonValue::Object(es) && es@.len() == 0,
{
    JsonValue::Object(Vec::new())
}

/// A JSON object with a single entry.
pub fn single_entry(key: &str, value: JsonValue) -> (r: JsonValue)
    ensures
        r matches JsonValue::Object(es) && es@.len() == 1 && es@[0].0@ == key@ && es@[0].1 == value,
        json_get(r, key@) == Some(value),
{
    let mut es: Vec<(String, JsonValue)> = Vec::new();
    es.push((String::from_str(key), value));
    let r = JsonValue::Object(es);
    proof {
        assert(es@.drop_first().len() == 0);
    }
    r
}

/// The `_meta` key under which a request names the protocol version it
/// speaks; requests that carry it follow the versioned HTTP conventions.
pub const PROTOCOL_VERSION_META_KEY: &'static str = "io.modelcontextprotocol/protocolVersion";

/// The protocol version a request declares in `params._meta`.
pub open spec fn spec_request_protocol_version(r: JsonRpcRequest) -> Option<Seq<char>> {
    match r.params {
        Some(p) => match json_get(p, "_meta"@) {
            Some(m) => json_get_str(m, PROTOCOL_VERSION_META_KEY@),
            None => None,
        },
        None => None,
    }
}

/// The protocol version a request declares in `params._meta`.
pub fn request_protocol_version(r: &JsonRpcRequest) -> (v: Option<&String>)
    ensures
        spec_request_protocol_version(*r) == (match v {
            Some(s) => Some(s@),
            None => None::<Seq<char>>,
        }),
{
    match &r.params {
        Some(p) => match p.get("_meta") {
            Some(m) => get_str(m, PROTOCOL_VERSION_META_KEY),
            None => None,
        },
        None => None,
    }
}

// ---------------------------------------------------------------------------
// Validation helpers
// ---------------------------------------------------------------------------

/// Fails with `"{field_name} cannot be empty"` when `value` is empty.
pub fn require_non_empty_string(value: &str, field_name: &str) -> (r: Result<(), McpError>)
    ensures
        r is Ok <==> value@.len() > 0,
        r matches Err(e) ==> (e matches McpError::Validation(m) && m@ == field_name@ + " cannot be empty"@),
{
    if value.is_empty() {
        let m = concat(field_name, " cannot be empty");
        Err(McpError::Validation(m))
    } else {
        Ok(())
    }
}

/// The shape a resource URI must have: a scheme separator, an absolute path,
/// or a `file:` prefix.
pub open spec fn spec_uri_well_formed(uri: Seq<char>) -> bool {
    uri.len() > 0 && (
        has_infix(utf8_of(uri), utf8_of("://"@))
        || has_prefix(utf8_of(uri), utf8_of("/"@))
        || has_prefix(utf8_of(uri), utf8_of("file:"@)))
}

/// Checks a resource URI: it must be non-empty and have a scheme, start with
/// `/`, or start with `file:`.
pub fn validate_uri_format(uri: &str) -> (r: Result<(), McpError>)
    ensures
        r is Ok <==> spec_uri_well_formed(uri@),
        uri@.len() == 0 ==> (r matches Err(McpError::Validation(m)) && m@ == "URI cannot be empty"@),
        uri@.len() > 0 && !spec_uri_well_formed(uri@) ==> (r matches Err(McpError::Validation(m))
            && m@ == "URI must have a scheme or be an absolute path"@),
{
    if uri.is_empty() {
        return Err(McpError::Validation(String::from_str("URI cannot be empty")));
    }
    if !contains(uri, "://") && !starts_with(uri, "/") && !starts_with(uri, "file:") {
        return Err(McpError::Validation(String::from_str("URI must have a scheme or be an absolute path")));
    }
    Ok(())
}

/// The protocol revisions this SDK speaks.
pub open spec fn spec_supported_protocol_version(v: Seq<char>) -> bool {
    v == "2024-11-05"@ || v == "2025-03-26"@ || v == "2025-06-18"@ || v == "2025-11-25"@
        || v == "2026-07-28"@
}

/// Whether `version` is a protocol revision this SDK speaks.
pub fn validate_protocol_version(version: &str) -> (r: bool)
    ensures
        r == spec_supported_protocol_version(version@),
{
    text_eq(version, "2024-11-05") || text_eq(version, "2025-03-26") || text_eq(version, "2025-06-18")
        || text_eq(version, "2025-11-25") || text_eq(version, "2026-07-28")
}

/// Bytes that may appear in a URI (anything but ASCII whitespace and control bytes).
pub open spec fn uri_byte(b: u8) -> bool {
    b > 32 && b != 127
}

/// A URI with a scheme separator and no whitespace.
pub open spec fn spec_valid_uri(uri: Seq<char>) -> bool {
    uri.len() > 0 && has_infix(utf8_of(uri), utf8_of("://"@))
        && forall|i: int| 0 <= i < utf8_of(uri).len() ==> uri_byte(#[trigger] utf8_of(uri)[i])
}

/// Whether every byte of `s` satisfies `uri_byte`.
fn all_uri_bytes(s: &str) -> (r: bool)
    ensures
        r == forall|i: int| 0 <= i < utf8_of(s@).len() ==> uri_byte(#[trigger] utf8_of(s@)[i]),
{
    let b = s.as_bytes();
    let n = b.len();
    let mut i: usize = 0;
    while i < n
        invariant
            n == b@.len(),
            b@ == utf8_of(s@),
            i <= n,
            forall|k: int| 0 <= k < i ==> uri_byte(#[trigger] b@[k]),
        decreases n - i,
    {
        if !(b[i] > 32 && b[i] != 127) {
            return false;
        }
        i = i + 1;
    }
    true
}

/// Whether `uri` is non-empty, has a `://` scheme separator and no whitespace.
pub fn validate_uri(uri: &str) -> (r: bool)
    ensures
        r == spec_valid_uri(uri@),
{
    !uri.is_empty() && contains(uri, "://") && all_uri_bytes(uri)
}

/// Bytes allowed in a tool name.
pub open spec fn tool_name_byte(b: u8) -> bool {
    (48 <= b <= 57) || (65 <= b <= 90) || (97 <= b <= 122) || b == 95 || b == 45
}

/// A tool name: non-empty ASCII letters, digits, `_` and `-`.
pub open spec fn spec_valid_tool_name(name: Seq<char>) -> bool {
    name.len() > 0 && forall|i: int| 0 <= i < utf8_of(name).len() ==> tool_name_byte(#[trigger] utf8_of(name)[i])
}

/// Whether `name` is a valid tool name.
pub fn validate_tool_name(name: &str) -> (r: bool)
    ensures
        r == spec_valid_tool_name(name@),
{
    if name.is_empty() {
        return false;
    }
    let b = name.as_bytes();
    let n = b.len();
    let mut i: usize = 0;
    while i < n
        invariant
            n == b@.len(),
            b@ == utf8_of(name@),
            name@.len() > 0,
            i <= n,
            forall|k: int| 0 <= k < i ==> tool_name_byte(#[trigger] b@[k]),
        decreases n - i,
    {
        let c = b[i];
        if !((48 <= c && c <= 57) || (65 <= c && c <= 90) || (97 <= c && c <= 122) || c == 95 || c == 45) {
            return false;
        }
        i = i + 1;
    }
    true
}

// ---------------------------------------------------------------------------
// Notification builders
// ---------------------------------------------------------------------------

/// `notifications/tools/list_changed` with no params.
pub fn build_tool_list_changed_notification() -> (r: JsonRpcNotification)
    ensures
        r.jsonrpc@ == JSONRPC_VERSION@,
        r.method@ == TOOLS_LIST_CHANGED@,
        r.params is None,
{
    JsonRpcNotification::new(String::from_str(TOOLS_LIST_CHANGED), None)
}

/// `notifications/resources/updated` with params `{"uri": uri}`.
pub fn build_resource_updated_notification(uri: String) -> (r: JsonRpcNotification)
    ensures
        r.jsonrpc@ == JSONRPC_VERSION@,
        r.method@ == RESOURCES_UPDATED@,
        r.params matches Some(p) && json_get_str(p, "uri"@) == Some(uri@),
{
    let p = single_entry("uri", JsonValue::Str(uri));
    JsonRpcNotification::new(String::from_str(RESOURCES_UPDATED), Some(p))
}

/// A list-changed style notification whose params are an empty object.
pub open spec fn is_bare_notification(n: JsonRpcNotification, method: Seq<char>) -> bool {
    &&& n.jsonrpc@ == JSONRPC_VERSION@
    &&& n.method@ == method
    &&& n.params matches Some(JsonValue::Object(es)) && es@.len() == 0
}

/// `notifications/tools/list_changed` with empty params.
pub fn tools_list_changed() -> (r: Result<JsonRpcNotification, McpError>)
    ensures
        r matches Ok(n) && is_bare_notification(n, TOOLS_LIST_CHANGED@),
{
    Ok(JsonRpcNotification::new(String::from_str(TOOLS_LIST_CHANGED), Some(empty_object())))
}

/// `notifications/resources/list_changed` with empty params.
pub fn resources_list_changed() -> (r: Result<JsonRpcNotification, McpError>)
    ensures
        r matches Ok(n) && is_bare_notification(n, RESOURCES_LIST_CHANGED@),
{
    Ok(JsonRpcNotification::new(String::from_str(RESOURCES_LIST_CHANGED), Some(empty_object())))
}

/// `notifications/prompts/list_changed` with empty params.
pub fn prompts_list_changed() -> (r: Result<JsonRpcNotification, McpError>)
    ensures
        r matches Ok(n) && is_bare_notification(n, PROMPTS_LIST_CHANGED@),
{
    Ok(JsonRpcNotification::new(String::from_str(PROMPTS_LIST_CHANGED), Some(empty_object())))
}

/// `notifications/resources/updated` for `uri`.
pub fn resource_updated(uri: String) -> (r: Result<JsonRpcNotification, McpError>)
    ensures
        r matches Ok(n) && (n.jsonrpc@ == JSONRPC_VERSION@ && n.method@ == RESOURCES_UPDATED@
            && (n.params matches Some(p) && json_get_str(p, "uri"@) == Some(uri@))),
{
    Ok(build_resource_updated_notification(uri))
}

/// Severity of a log message, least severe first.
#[derive(PartialEq, Eq, Structural, Clone, Copy, Debug)]
pub enum LoggingLevel {
    Debug,
    Info,
    Notice,
    Warning,
    Error,
    Critical,
    Alert,
    Emergency,
}

/// The wire name of a logging level.
pub open spec fn spec_level_name(l: LoggingLevel) -> Seq<char> {
    match l {
        LoggingLevel::Debug => "debug"@,
        LoggingLevel::Info => "info"@,
        LoggingLevel::Notice => "notice"@,
        LoggingLevel::Warning => "warning"@,
        LoggingLevel::Error => "error"@,
        LoggingLevel::Critical => "critical"@,
        LoggingLevel::Alert => "alert"@,
        LoggingLevel::Emergency => "emergency"@,
    }
}

/// The wire name of a logging level.
pub fn level_name(l: LoggingLevel) -> (r: &'static str)
    ensures
        r@ == spec_level_name(l),
{
    match l {
        LoggingLevel::Debug => "debug",
        LoggingLevel::Info => "info",
        LoggingLevel::Notice => "notice",
        LoggingLevel::Warning => "warning",
        LoggingLevel::Error => "error",
        LoggingLevel::Critical => "critical",
        LoggingLevel::Alert => "alert",
        LoggingLevel::Emergency => "emergency",
    }
}

/// `notifications/message` carrying `data` at `level`, from `logger` when
/// one is named.
pub fn log_message(level: LoggingLevel, logger: Option<String>, data: JsonValue) -> (r: Result<JsonRpcNotification, McpError>)
    ensures
        r matches Ok(n) && {
            &&& n.jsonrpc@ == JSONRPC_VERSION@
            &&& n.method@ == LOGGING_MESSAGE@
            &&& n.params matches Some(p) && {
                &&& json_get_str(p, "level"@) == Some(spec_level_name(level))
                &&& json_get(p, "data"@) == Some(data)
                &&& match logger {
                    Some(l) => json_get_str(p, "logger"@) == Some(l@),
                    None => json_get(p, "logger"@) is None,
                }
            }
        },
{
    proof {
        reveal_strlit("level");
        reveal_strlit("logger");
        reveal_strlit("data");
        assert("level"@.len() == 5 && "logger"@.len() == 6 && "data"@.len() == 4);
    }
    let mut es: Vec<(String, JsonValue)> = Vec::new();
    es.push((String::from_str("level"), JsonValue::Str(String::from_str(level_name(level)))));
    match logger {
        Some(l) => {
            es.push((String::from_str("logger"), JsonValue::Str(l)));
            es.push((String::from_str("data"), data));
            proof {
                let e = es@;
                assert(e.drop_first().drop_first() =~= seq![e[2]]);
                assert(seq![e[2]].drop_first().len() == 0);
                assert(crate::json::entries_lookup(e.drop_first().drop_first(), "data"@) == Some(e[2].1));
                assert(crate::json::entries_lookup(e.drop_first(), "data"@) == Some(e[2].1));
                assert(crate::json::entries_lookup(e, "data"@) == Some(e[2].1));
                assert(crate::json::entries_lookup(e.drop_first(), "logger"@) == Some(e[1].1));
                assert(crate::json::entries_lookup(e, "logger"@) == Some(e[1].1));
                assert(crate::json::entries_lookup(e, "level"@) == Some(e[0].1));
            }
        },
        None => {
            es.push((String::from_str("data"), data));
            proof {
                let e = es@;
                assert(e.drop_first() =~= seq![e[1]]);
                assert(seq![e[1]].drop_first().len() == 0);
                assert(crate::json::entries_lookup(e.drop_first().drop_first(), "logger"@) is None);
                assert(crate::json::entries_lookup(e.drop_first(), "logger"@) is None);
                assert(crate::json::entries_lookup(e, "logger"@) is None);
                assert(crate::json::entries_lookup(e.drop_first(), "data"@) == Some(e[1].1));
                assert(crate::json::entries_lookup(e, "data"@) == Some(e[1].1));
                assert(crate::json::entries_lookup(e, "level"@) == Some(e[0].1));
            }
        },
    }
    Ok(JsonRpcNotification::new(String::from_str(LOGGING_MESSAGE), Some(JsonValue::Object(es))))
}

// ---------------------------------------------------------------------------
// Capabilities
// ---------------------------------------------------------------------------

/// The `prompts` server capability.
pub struct PromptsCapability {
    pub list_changed: Option<bool>,
}

/// The `resources` server capability.
pub struct ResourcesCapability {
    pub subscribe: Option<bool>,
    pub list_changed: Option<bool>,
}

/// The `tools` server capability.
pub struct ToolsCapability {
    pub list_changed: Option<bool>,
}

/// The `sampling` capability (no options).
pub struct SamplingCapability {}

/// The `logging` capability (no options).
pub struct LoggingCapability {}

/// The `completions` capability (no options).
pub struct CompletionsCapability {}

/// What a server declares it supports.
pub struct ServerCapabilities {
    pub prompts: Option<PromptsCapability>,
    pub resources: Option<ResourcesCapability>,
    pub tools: Option<ToolsCapability>,
    pub sampling: Option<SamplingCapability>,
    pub logging: Option<LoggingCapability>,
    pub completions: Option<CompletionsCapability>,
    pub experimental: Option<Vec<(String, JsonValue)>>,
    pub extensions: Option<Vec<(String, JsonValue)>>,
}

impl ServerCapabilities {
    /// No capability declared.
    pub fn empty() -> (r: ServerCapabilities)
        ensures
            r.prompts is None,
            r.resources is None,
            r.tools is None,
            r.sampling is None,
            r.logging is None,
            r.completions is None,
            r.experimental is None,
            r.extensions is None,
    {
        ServerCapabilities {
            prompts: None,
            resources: None,
            tools: None,
            sampling: None,
            logging: None,
            completions: None,
            experimental: None,
            extensions: None,
        }
    }
}

/// Identity of a server (or client) implementation.
pub struct Implementation {
    pub name: String,
    pub version: String,
}

impl Implementation {
    pub fn new(name: String, version: String) -> (r: Implementation)
        ensures
            r.name == name,
            r.version == version,
    {
        Implementation { name, version }
    }
}

} // verus!
