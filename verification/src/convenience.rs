//! Conveniences around the HTTP client: its endpoint URLs, a fluent builder
//! for its configuration, the reading of a server's self-description, and
//! the decision whether a failed call is worth retrying.
use vstd::prelude::*;
use vstd::string::StringExecFns;
use crate::error::McpError;
use crate::json::{JsonValue, json_get, json_get_str, get_str, json_clone, json_same, object_set, entries_copied, clone_entries};
use crate::protocol::{JsonRpcRequest, INITIALIZE, LATEST_PROTOCOL_VERSION, JSONRPC_VERSION};
use crate::text::{concat, text_eq};
use crate::transport_types::TransportConfig;

verus! {

broadcast use vstd::std_specs::vec::group_vec_axioms;

/// The URLs a client talks to.
pub struct HttpEndpoints {
    pub mcp: String,
    pub notify: String,
    pub events: Option<String>,
    pub health: String,
}

/// The endpoints under a base URL: `/mcp`, `/mcp/notify`, `/health`, and
/// the event stream URL when there is one.
pub fn get_endpoints(base_url: &str, sse_url: &Option<String>) -> (r: HttpEndpoints)
    ensures
        r.mcp@ == base_url@ + "/mcp"@,
        r.notify@ == base_url@ + "/mcp/notify"@,
        r.health@ == base_url@ + "/health"@,
        r.events == *sse_url,
{
    HttpEndpoints {
        mcp: concat(base_url, "/mcp"),
        notify: concat(base_url, "/mcp/notify"),
        events: match sse_url {
            Some(u) => Some(u.clone()),
            None => None,
        },
        health: concat(base_url, "/health"),
    }
}

/// Counters of a client connection (durations in milliseconds).
pub struct ConnectionStats {
    pub requests_sent: u64,
    pub responses_received: u64,
    pub request_failures: u64,
    pub notifications_sent: u64,
    pub notifications_received: u64,
    pub uptime_ms: u64,
    pub connected_at: Option<std::time::Instant>,
    pub last_success_at: Option<std::time::Instant>,
    pub last_error_at: Option<std::time::Instant>,
    pub avg_response_time_ms: u64,
    pub reconnect_attempts: u64,
}

impl Default for ConnectionStats {
    /// Nothing counted, no time recorded.
    fn default() -> (r: ConnectionStats)
        ensures
            r.requests_sent == 0,
            r.responses_received == 0,
            r.request_failures == 0,
            r.notifications_sent == 0,
            r.notifications_received == 0,
            r.uptime_ms == 0,
            r.connected_at is None,
            r.last_success_at is None,
            r.last_error_at is None,
            r.avg_response_time_ms == 0,
            r.reconnect_attempts == 0,
    {
        ConnectionStats {
            requests_sent: 0,
            responses_received: 0,
            request_failures: 0,
            notifications_sent: 0,
            notifications_received: 0,
            uptime_ms: 0,
            connected_at: None,
            last_success_at: None,
            last_error_at: None,
            avg_response_time_ms: 0,
            reconnect_attempts: 0,
        }
    }
}

/// Error counters, with HTTP errors counted per status code.
pub struct ErrorMetrics {
    pub total_errors: u64,
    pub timeout_errors: u64,
    pub connection_errors: u64,
    pub protocol_errors: u64,
    pub http_errors: Vec<(u16, u64)>,
}

impl Default for ErrorMetrics {
    /// Nothing counted.
    fn default() -> (r: ErrorMetrics)
        ensures
            r.total_errors == 0,
            r.timeout_errors == 0,
            r.connection_errors == 0,
            r.protocol_errors == 0,
            r.http_errors@.len() == 0,
    {
        ErrorMetrics { total_errors: 0, timeout_errors: 0, connection_errors: 0, protocol_errors: 0, http_errors: Vec::new() }
    }
}

/// Whether a failed call may be retried: timeouts when timeouts are
/// retried, connection and HTTP failures when connection failures are.
pub open spec fn spec_retry_allowed(e: McpError, on_timeout: bool, on_connection: bool) -> bool {
    match e {
        McpError::Timeout(_) => on_timeout,
        McpError::Connection(_) => on_connection,
        McpError::Http(_) => on_connection,
        _ => false,
    }
}

/// Whether a failed call may be retried.
pub fn retry_allowed(e: &McpError, on_timeout: bool, on_connection: bool) -> (r: bool)
    ensures
        r == spec_retry_allowed(*e, on_timeout, on_connection),
{
    match e {
        McpError::Timeout(_) => on_timeout,
        McpError::Connection(_) => on_connection,
        McpError::Http(_) => on_connection,
        _ => false,
    }
}

/// Whether a call that failed with `e` on attempt `attempt` (counted from
/// 0, at most `max_attempts + 1` attempts) is tried again: attempts must be
/// left and the failure must be of a retried kind.
pub fn should_retry_call(attempt: u32, max_attempts: u32, e: &McpError, on_timeout: bool, on_connection: bool) -> (r: bool)
    ensures
        r == (attempt < max_attempts && spec_retry_allowed(*e, on_timeout, on_connection)),
{
    attempt < max_attempts && retry_allowed(e, on_timeout, on_connection)
}

/// The value under `name` in a header list, if any (first match).
pub open spec fn header_value(h: Seq<(String, String)>, name: Seq<char>) -> Option<Seq<char>>
    decreases h.len(),
{
    if h.len() == 0 {
        None
    } else if h[0].0@ == name {
        Some(h[0].1@)
    } else {
        header_value(h.drop_first(), name)
    }
}

/// Sets a header: the first header with that name gets the value, or the
/// header is added at the end.
pub fn set_header(h: &mut Vec<(String, String)>, name: String, value: String)
    ensures
        header_value(final(h)@, name@) == Some(value@),
        forall|k: Seq<char>| k != name@ ==> #[trigger] header_value(final(h)@, k) == header_value(old(h)@, k),
{
    let ghost orig = h@;
    let n = h.len();
    let mut i: usize = 0;
    assert(orig.subrange(0, n as int) =~= orig);
    while i < n
        invariant
            n == h@.len(),
            h@ == orig,
            orig == old(h)@,
            i <= n,
            header_value(orig, name@) == header_value(orig.subrange(i as int, n as int), name@),
            forall|j: int| 0 <= j < i ==> (#[trigger] orig[j]).0@ != name@,
        decreases n - i,
    {
        assert(orig.subrange(i as int, n as int).drop_first() =~= orig.subrange(i + 1, n as int));
        if text_eq(h[i].0.as_str(), name.as_str()) {
            let entry = (name, value);
            h.set(i, entry);
            proof {
                lemma_header_replace(orig, i as int, entry, entry.0@);
                assert forall|k: Seq<char>| k != entry.0@ implies #[trigger] header_value(h@, k) == header_value(orig, k) by {
                    lemma_header_replace(orig, i as int, entry, k);
                }
            }
            return;
        }
        i = i + 1;
    }
    let entry = (name, value);
    h.push(entry);
    proof {
        assert forall|k: Seq<char>| true implies #[trigger] header_value(h@, k) == (match header_value(orig, k) {
            Some(v) => Some(v),
            None => if entry.0@ == k { Some(entry.1@) } else { None },
        }) by {
            lemma_header_push(orig, entry, k);
        }
        lemma_header_absent(orig, entry.0@);
    }
}

proof fn lemma_header_replace(h: Seq<(String, String)>, i: int, entry: (String, String), k: Seq<char>)
    requires
        0 <= i < h.len(),
        h[i].0@ == entry.0@,
        forall|j: int| 0 <= j < i ==> (#[trigger] h[j]).0@ != entry.0@,
    ensures
        header_value(h.update(i, entry), k) == (if k == entry.0@ { Some(entry.1@) } else { header_value(h, k) }),
    decreases h.len(),
{
    if i > 0 {
        lemma_header_replace(h.drop_first(), i - 1, entry, k);
        assert(h.update(i, entry).drop_first() =~= h.drop_first().update(i - 1, entry));
    } else {
        assert(h.update(i, entry).drop_first() =~= h.drop_first());
    }
}

proof fn lemma_header_push(h: Seq<(String, String)>, entry: (String, String), k: Seq<char>)
    ensures
        header_value(h.push(entry), k) == (match header_value(h, k) {
            Some(v) => Some(v),
            None => if entry.0@ == k { Some(entry.1@) } else { None },
        }),
    decreases h.len(),
{
    if h.len() > 0 {
        lemma_header_push(h.drop_first(), entry, k);
        assert(h.push(entry).drop_first() =~= h.drop_first().push(entry));
        assert(h.push(entry)[0] == h[0]);
    } else {
        assert(h.push(entry).drop_first().len() == 0);
        assert(header_value(h.push(entry).drop_first(), k) is None);
        assert(h.push(entry)[0] == entry);
    }
}

proof fn lemma_header_absent(h: Seq<(String, String)>, k: Seq<char>)
    requires
        forall|j: int| 0 <= j < h.len() ==> (#[trigger] h[j]).0@ != k,
    ensures
        header_value(h, k) is None,
    decreases h.len(),
{
    if h.len() > 0 {
        assert forall|j: int| 0 <= j < h.drop_first().len() implies (#[trigger] h.drop_first()[j]).0@ != k by {
            assert(h.drop_first()[j] == h[j + 1]);
        }
        lemma_header_absent(h.drop_first(), k);
    }
}

/// A fluent builder for the HTTP client's configuration.
pub struct HttpClientTransportBuilder {
    pub base_url: Option<String>,
    pub sse_url: Option<String>,
    pub config: TransportConfig,
}

impl HttpClientTransportBuilder {
    /// No URL yet, the default configuration.
    pub fn new() -> (r: HttpClientTransportBuilder)
        ensures
            r.base_url is None,
            r.sse_url is None,
            r.config.connect_timeout_ms == Some(30000u64),
            r.config.read_timeout_ms == Some(60000u64),
            r.config.write_timeout_ms == Some(30000u64),
            r.config.max_message_size == Some(16777216usize),
            !r.config.compression,
            r.config.headers@.len() == 0,
    {
        HttpClientTransportBuilder { base_url: None, sse_url: None, config: TransportConfig::default() }
    }

    /// Sets the base URL.
    pub fn base_url(self, url: String) -> (r: HttpClientTransportBuilder)
        ensures
            r == (HttpClientTransportBuilder { base_url: Some(url), ..self }),
    {
        HttpClientTransportBuilder { base_url: Some(url), ..self }
    }

    /// Sets the event stream URL.
    pub fn sse_url(self, url: String) -> (r: HttpClientTransportBuilder)
        ensures
            r == (HttpClientTransportBuilder { sse_url: Some(url), ..self }),
    {
        HttpClientTransportBuilder { sse_url: Some(url), ..self }
    }

    /// Sets the read and write timeouts.
    pub fn timeout(self, ms: u64) -> (r: HttpClientTransportBuilder)
        ensures
            r.config == (TransportConfig { read_timeout_ms: Some(ms), write_timeout_ms: Some(ms), ..self.config }),
            r.base_url == self.base_url,
            r.sse_url == self.sse_url,
    {
        let mut s = self;
        s.config.read_timeout_ms = Some(ms);
        s.config.write_timeout_ms = Some(ms);
        s
    }

    /// Sets a header.
    pub fn header(self, key: String, value: String) -> (r: HttpClientTransportBuilder)
        ensures
            header_value(r.config.headers@, key@) == Some(value@),
            forall|k: Seq<char>| k != key@ ==> #[trigger] header_value(r.config.headers@, k) == header_value(self.config.headers@, k),
            r.base_url == self.base_url,
            r.sse_url == self.sse_url,
            r.config.read_timeout_ms == self.config.read_timeout_ms,
            r.config.write_timeout_ms == self.config.write_timeout_ms,
            r.config.connect_timeout_ms == self.config.connect_timeout_ms,
            r.config.max_message_size == self.config.max_message_size,
            r.config.compression == self.config.compression,
    {
        let mut s = self;
        set_header(&mut s.config.headers, key, value);
        s
    }

    /// Turns compression on or off.
    pub fn compression(self, enabled: bool) -> (r: HttpClientTransportBuilder)
        ensures
            r.config == (TransportConfig { compression: enabled, ..self.config }),
            r.base_url == self.base_url,
            r.sse_url == self.sse_url,
    {
        let mut s = self;
        s.config.compression = enabled;
        s
    }

    /// Sets the connect timeout.
    pub fn connect_timeout(self, ms: u64) -> (r: HttpClientTransportBuilder)
        ensures
            r.config == (TransportConfig { connect_timeout_ms: Some(ms), ..self.config }),
            r.base_url == self.base_url,
            r.sse_url == self.sse_url,
    {
        let mut s = self;
        s.config.connect_timeout_ms = Some(ms);
        s
    }

    /// Sets the largest message accepted.
    pub fn max_message_size(self, size: usize) -> (r: HttpClientTransportBuilder)
        ensures
            r.config == (TransportConfig { max_message_size: Some(size), ..self.config }),
            r.base_url == self.base_url,
            r.sse_url == self.sse_url,
    {
        let mut s = self;
        s.config.max_message_size = Some(size);
        s
    }

    /// What the client is built from: the base URL (required), the event
    /// stream URL and the configuration.
    pub fn finish(self) -> (r: Result<(String, Option<String>, TransportConfig), McpError>)
        ensures
            match self.base_url {
                Some(u) => r == Ok::<(String, Option<String>, TransportConfig), McpError>((u, self.sse_url, self.config)),
                None => r matches Err(McpError::Protocol(m)) && m@ == "Base URL is required"@,
            },
    {
        match self.base_url {
            Some(u) => Ok((u, self.sse_url, self.config)),
            None => Err(McpError::Protocol(String::from_str("Base URL is required"))),
        }
    }
}

/// What a server says of itself in its `initialize` result.
pub struct ServerInfo {
    pub name: String,
    pub version: String,
    pub protocol_version: String,
    pub capabilities: Vec<(String, JsonValue)>,
    pub metadata: Vec<(String, JsonValue)>,
}

/// A text field of the result, or `Unknown`.
pub open spec fn text_or_unknown(v: Option<Seq<char>>) -> Seq<char> {
    match v {
        Some(s) => s,
        None => "Unknown"@,
    }
}

/// The entries of an object value (none for any other value).
pub open spec fn object_entries(v: Option<JsonValue>) -> Seq<(String, JsonValue)> {
    match v {
        Some(JsonValue::Object(es)) => es@,
        _ => Seq::empty(),
    }
}

fn copy_entries(v: Option<&JsonValue>) -> (r: Vec<(String, JsonValue)>)
    ensures
        entries_copied(r@, object_entries(match v { Some(x) => Some(*x), None => None })),
{
    match v {
        Some(JsonValue::Object(es)) => clone_entries(es),
        _ => Vec::new(),
    }
}

fn text_field(v: Option<&String>) -> (r: String)
    ensures
        r@ == text_or_unknown(match v { Some(s) => Some(s@), None => None }),
{
    match v {
        Some(s) => s.clone(),
        None => String::from_str("Unknown"),
    }
}

/// Reads a server's description from the result of its `initialize`
/// response: `serverInfo.name` and `.version`, `protocolVersion` (each
/// `Unknown` when missing), the `capabilities` entries and every entry of
/// the result. A response without a result is refused.
pub fn server_info_from(result: &Option<JsonValue>) -> (r: Result<ServerInfo, McpError>)
    ensures
        match *result {
            None => r matches Err(McpError::Protocol(m)) && m@ == "Invalid server info response"@,
            Some(v) => r matches Ok(info) && {
                &&& info.name@ == text_or_unknown(match json_get(v, "serverInfo"@) { Some(s) => json_get_str(s, "name"@), None => None })
                &&& info.version@ == text_or_unknown(match json_get(v, "serverInfo"@) { Some(s) => json_get_str(s, "version"@), None => None })
                &&& info.protocol_version@ == text_or_unknown(json_get_str(v, "protocolVersion"@))
                &&& entries_copied(info.capabilities@, object_entries(json_get(v, "capabilities"@)))
                &&& entries_copied(info.metadata@, object_entries(Some(v)))
            },
        },
{
    match result {
        None => Err(McpError::Protocol(String::from_str("Invalid server info response"))),
        Some(v) => {
            let si = v.get("serverInfo");
            let name = match si {
                Some(s) => text_field(get_str(s, "name")),
                None => String::from_str("Unknown"),
            };
            let version = match si {
                Some(s) => text_field(get_str(s, "version")),
                None => String::from_str("Unknown"),
            };
            let protocol_version = text_field(get_str(v, "protocolVersion"));
            let capabilities = copy_entries(v.get("capabilities"));
            let metadata = copy_entries(Some(v));
            Ok(ServerInfo { name, version, protocol_version, capabilities, metadata })
        },
    }
}

/// The `initialize` request a client sends to learn about a server: the
/// latest protocol version, no capabilities, and the client's name and
/// version.
pub fn server_info_request(id: JsonValue, client_name: &str, client_version: &str) -> (r: JsonRpcRequest)
    ensures
        r.jsonrpc@ == JSONRPC_VERSION@,
        r.method@ == INITIALIZE@,
        r.id == id,
        r.params matches Some(p) && {
            &&& json_get_str(p, "protocolVersion"@) == Some(LATEST_PROTOCOL_VERSION@)
            &&& json_get(p, "capabilities"@) matches Some(c) && (c matches JsonValue::Object(es) && es@.len() == 0)
            &&& json_get(p, "clientInfo"@) matches Some(ci) && {
                &&& json_get_str(ci, "name"@) == Some(client_name@)
                &&& json_get_str(ci, "version"@) == Some(client_version@)
            }
        },
{
    proof {
        reveal_strlit("protocolVersion");
        reveal_strlit("capabilities");
        reveal_strlit("clientInfo");
        reveal_strlit("name");
        reveal_strlit("version");
    }
    let mut ci = JsonValue::Object(Vec::new());
    object_set(&mut ci, "name", JsonValue::Str(String::from_str(client_name)));
    object_set(&mut ci, "version", JsonValue::Str(String::from_str(client_version)));
    assert("name"@.len() != "version"@.len());
    let mut p = JsonValue::Object(Vec::new());
    object_set(&mut p, "protocolVersion", JsonValue::Str(String::from_str(LATEST_PROTOCOL_VERSION)));
    object_set(&mut p, "capabilities", JsonValue::Object(Vec::new()));
    object_set(&mut p, "clientInfo", ci);
    assert("protocolVersion"@[0] != "capabilities"@[0]);
    assert("protocolVersion"@[0] != "clientInfo"@[0]);
    assert("capabilities"@[1] != "clientInfo"@[1]);
    JsonRpcRequest {
        jsonrpc: String::from_str(JSONRPC_VERSION),
        id,
        method: String::from_str(INITIALIZE),
        params: Some(p),
    }
}

} // verus!
