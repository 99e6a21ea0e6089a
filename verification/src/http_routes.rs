//! Server side of the HTTP transport: which route a request takes, how a
//! posted JSON-RPC message is dispatched, what HTTP status a reply carries,
//! and how a handler's failure is written back.
use vstd::prelude::*;
use vstd::string::StringExecFns;
use crate::error::{McpError, spec_error_code, error_code, spec_error_text, error_data, error_data_fits, FORBIDDEN_ERROR, RATE_LIMITED_ERROR,
    METHOD_NOT_FOUND, HEADER_MISMATCH, UNSUPPORTED_PROTOCOL_VERSION, MISSING_REQUIRED_CLIENT_CAPABILITY,
    INVALID_REQUEST, INVALID_PARAMS};
use crate::json::{JsonValue, json_get, json_get_str, get_str};
use crate::protocol::{JsonRpcRequest, JsonRpcNotification, JsonRpcError, JsonRpcMessage, JsonRpcResponse, JSONRPC_VERSION,
    SUBSCRIPTIONS_LISTEN, INITIALIZED, TOOLS_LIST_CHANGED, RESOURCES_UPDATED, RESOURCES_LIST_CHANGED,
    PROMPTS_LIST_CHANGED, ROOTS_LIST_CHANGED, ELICITATION_COMPLETE, TASKS_STATUS, TASKS_STATUS_UPDATE,
    LOGGING_MESSAGE, PROGRESS, CANCELLED, spec_request_protocol_version, request_protocol_version, single_entry,
    TOOLS_CALL, PROMPTS_GET, RESOURCES_READ};
use crate::sse::trim_start;
use crate::subscriptions::{SubscriptionFilter, spec_filter_matches, taggable, tagged_with, add_subscription_id};
use crate::text::{text_eq, utf8_of, has_prefix};

verus! {

broadcast use vstd::std_specs::vec::group_vec_axioms;

/// The routes the HTTP server answers.
#[derive(Clone, Copy, Debug, PartialEq, Eq, Structural)]
pub enum HttpRoute {
    /// `POST /mcp`: a JSON-RPC message.
    Message,
    /// `POST /mcp/notify`: a notification, acknowledged with 200.
    Notify,
    /// `GET /mcp/events`: the server-sent event stream.
    Events,
    /// `GET /health`: a health report.
    Health,
    /// Anything else.
    NotFound,
}

/// The route for an HTTP method and path.
pub open spec fn spec_route(method: Seq<char>, path: Seq<char>) -> HttpRoute {
    if method == "POST"@ && path == "/mcp"@ {
        HttpRoute::Message
    } else if method == "POST"@ && path == "/mcp/notify"@ {
        HttpRoute::Notify
    } else if method == "GET"@ && path == "/mcp/events"@ {
        HttpRoute::Events
    } else if method == "GET"@ && path == "/health"@ {
        HttpRoute::Health
    } else {
        HttpRoute::NotFound
    }
}

/// The route for an HTTP method and path.
pub fn route(method: &str, path: &str) -> (r: HttpRoute)
    ensures
        r == spec_route(method@, path@),
{
    if text_eq(method, "POST") && text_eq(path, "/mcp") {
        HttpRoute::Message
    } else if text_eq(method, "POST") && text_eq(path, "/mcp/notify") {
        HttpRoute::Notify
    } else if text_eq(method, "GET") && text_eq(path, "/mcp/events") {
        HttpRoute::Events
    } else if text_eq(method, "GET") && text_eq(path, "/health") {
        HttpRoute::Health
    } else {
        HttpRoute::NotFound
    }
}

/// The notifications a client may post over HTTP: JSON-RPC 2.0, with one of
/// the notification methods the protocol defines.
pub open spec fn spec_supported_http_notification(n: JsonRpcNotification) -> bool {
    let m = n.method@;
    &&& n.jsonrpc@ == JSONRPC_VERSION@
    &&& (m == INITIALIZED@ || m == TOOLS_LIST_CHANGED@ || m == RESOURCES_UPDATED@
        || m == RESOURCES_LIST_CHANGED@ || m == PROMPTS_LIST_CHANGED@ || m == ROOTS_LIST_CHANGED@
        || m == ELICITATION_COMPLETE@ || m == TASKS_STATUS@ || m == TASKS_STATUS_UPDATE@
        || m == LOGGING_MESSAGE@ || m == PROGRESS@ || m == CANCELLED@)
}

/// Whether a client may post this notification over HTTP.
pub fn is_supported_http_notification(n: &JsonRpcNotification) -> (r: bool)
    ensures
        r == spec_supported_http_notification(*n),
{
    if !text_eq(n.jsonrpc.as_str(), JSONRPC_VERSION) {
        return false;
    }
    let m = n.method.as_str();
    text_eq(m, INITIALIZED) || text_eq(m, TOOLS_LIST_CHANGED) || text_eq(m, RESOURCES_UPDATED)
        || text_eq(m, RESOURCES_LIST_CHANGED) || text_eq(m, PROMPTS_LIST_CHANGED)
        || text_eq(m, ROOTS_LIST_CHANGED) || text_eq(m, ELICITATION_COMPLETE) || text_eq(m, TASKS_STATUS)
        || text_eq(m, TASKS_STATUS_UPDATE) || text_eq(m, LOGGING_MESSAGE) || text_eq(m, PROGRESS)
        || text_eq(m, CANCELLED)
}

/// Index of the first `,` at or after `i`.
pub open spec fn comma_from(s: Seq<u8>, i: int) -> Option<int>
    decreases s.len() - i,
{
    if i < 0 || i >= s.len() {
        None
    } else if s[i] == 44 {
        Some(i)
    } else {
        comma_from(s, i + 1)
    }
}

/// The pieces of `s` between commas (always at least one).
pub open spec fn comma_pieces(s: Seq<u8>) -> Seq<Seq<u8>>
    decreases s.len(),
{
    match comma_from(s, 0) {
        Some(i) => if 0 <= i < s.len() {
            seq![s.take(i)] + comma_pieces(s.skip(i + 1))
        } else {
            seq![s]
        },
        None => seq![s],
    }
}

/// A piece that names `text/event-stream` once leading whitespace is
/// trimmed.
pub open spec fn names_event_stream(piece: Seq<u8>) -> bool {
    has_prefix(trim_start(piece), utf8_of("text/event-stream"@))
}

/// Some piece names `text/event-stream`.
pub open spec fn any_names_event_stream(pieces: Seq<Seq<u8>>) -> bool
    decreases pieces.len(),
{
    pieces.len() > 0 && (names_event_stream(pieces[0]) || any_names_event_stream(pieces.skip(1)))
}

/// An `Accept` header that lists `text/event-stream`.
pub open spec fn accepts_event_stream(accept: Seq<char>) -> bool {
    any_names_event_stream(comma_pieces(utf8_of(accept)))
}

proof fn lemma_comma_shift(s: Seq<u8>, k: int, i: int)
    requires
        0 <= k <= s.len(),
        k <= i,
    ensures
        comma_from(s.skip(k), i - k) == (match comma_from(s, i) {
            Some(j) => Some(j - k),
            None => None::<int>,
        }),
        comma_from(s, i) matches Some(j) ==> i <= j < s.len(),
    decreases s.len() - i,
{
    if i < 0 || i >= s.len() {
    } else if s[i] == 44 {
    } else {
        lemma_comma_shift(s, k, i + 1);
    }
}

/// Index of the first `,` at or after `i`, or the length.
fn find_comma(s: &[u8], i: usize) -> (r: usize)
    requires
        i <= s@.len(),
    ensures
        i <= r <= s@.len(),
        r < s@.len() ==> comma_from(s@, i as int) == Some(r as int),
        r == s@.len() ==> comma_from(s@, i as int) is None,
{
    let mut j = i;
    while j < s.len()
        invariant
            i <= j <= s@.len(),
            comma_from(s@, i as int) == comma_from(s@, j as int),
        decreases s@.len() - j,
    {
        if s[j] == 44 {
            return j;
        }
        j = j + 1;
    }
    j
}

/// Whether the piece `s[a..b]` names `text/event-stream`.
fn piece_is_event_stream(s: &[u8], a: usize, b: usize) -> (r: bool)
    requires
        a <= b <= s@.len(),
    ensures
        r == names_event_stream(s@.subrange(a as int, b as int)),
{
    let start = crate::sse::trimmed_start(s, a, b);
    let pat = "text/event-stream".as_bytes();
    let ghost t = s@.subrange(start as int, b as int);
    assert(trim_start(s@.subrange(a as int, b as int)) == t);
    assert(pat@ == utf8_of("text/event-stream"@));
    if b - start < pat.len() {
        return false;
    }
    let mut k: usize = 0;
    while k < pat.len()
        invariant
            start <= b <= s@.len(),
            t == s@.subrange(start as int, b as int),
            a <= start,
            trim_start(s@.subrange(a as int, b as int)) == t,
            pat@ == utf8_of("text/event-stream"@),
            b - start >= pat@.len(),
            k <= pat@.len(),
            forall|j: int| 0 <= j < k ==> t[j] == pat@[j],
        decreases pat@.len() - k,
    {
        assert(t[k as int] == s@[start + k]);
        if s[start + k] != pat[k] {
            assert(t.subrange(0, pat@.len() as int)[k as int] != pat@[k as int]);
            return false;
        }
        k = k + 1;
    }
    assert(t.subrange(0, pat@.len() as int) =~= pat@);
    true
}

/// Whether an `Accept` header lists `text/event-stream`.
pub fn accepts_event_stream_header(accept: &str) -> (r: bool)
    ensures
        r == accepts_event_stream(accept@),
{
    let s = accept.as_bytes();
    let n = s.len();
    let mut pos: usize = 0;
    assert(s@.skip(0) =~= s@);
    loop
        invariant
            n == s@.len(),
            pos <= n,
            accepts_event_stream(accept@) == any_names_event_stream(comma_pieces(s@.skip(pos as int))),
        decreases n - pos,
    {
        let ghost rest = s@.skip(pos as int);
        let c = find_comma(s, pos);
        proof {
            lemma_comma_shift(s@, pos as int, pos as int);
            assert(rest.skip(0) =~= rest);
        }
        let ghost pieces = comma_pieces(rest);
        if c < n {
            assert(rest.take(c - pos) =~= s@.subrange(pos as int, c as int));
            assert(rest.skip(c - pos + 1) =~= s@.skip(c + 1));
            assert(pieces.skip(1) =~= comma_pieces(s@.skip(c + 1)));
            if piece_is_event_stream(s, pos, c) {
                return true;
            }
            pos = c + 1;
        } else {
            assert(rest =~= s@.subrange(pos as int, n as int));
            assert(pieces.skip(1) =~= Seq::<Seq<u8>>::empty());
            assert(!any_names_event_stream(pieces.skip(1)));
            return piece_is_event_stream(s, pos, n);
        }
    }
}

/// The HTTP status a reply carries: 400 for header, version, capability,
/// request and params errors; 404 for an unknown method on a versioned
/// request; 403 when forbidden; 429 when rate limited; 200 otherwise.
pub open spec fn spec_reply_status(message: JsonRpcMessage, is_modern: bool) -> u16 {
    match message {
        JsonRpcMessage::Error(e) => {
            let c = e.error.code;
            if c == HEADER_MISMATCH || c == UNSUPPORTED_PROTOCOL_VERSION || c == MISSING_REQUIRED_CLIENT_CAPABILITY
                || c == INVALID_REQUEST || c == INVALID_PARAMS {
                400
            } else if is_modern && c == METHOD_NOT_FOUND {
                404
            } else if c == FORBIDDEN_ERROR {
                403
            } else if c == RATE_LIMITED_ERROR {
                429
            } else {
                200
            }
        },
        _ => 200,
    }
}

/// The HTTP status a reply carries.
pub fn reply_status(message: &JsonRpcMessage, is_modern: bool) -> (r: u16)
    ensures
        r == spec_reply_status(*message, is_modern),
{
    match message {
        JsonRpcMessage::Error(e) => {
            let c = e.error.code;
            if c == HEADER_MISMATCH || c == UNSUPPORTED_PROTOCOL_VERSION || c == MISSING_REQUIRED_CLIENT_CAPABILITY
                || c == INVALID_REQUEST || c == INVALID_PARAMS {
                400
            } else if is_modern && c == METHOD_NOT_FOUND {
                404
            } else if c == FORBIDDEN_ERROR {
                403
            } else if c == RATE_LIMITED_ERROR {
                429
            } else {
                200
            }
        },
        _ => 200,
    }
}

/// The MCP headers of a posted message, as text.
pub struct RequestHeaders {
    pub protocol_version: Option<String>,
    pub method: Option<String>,
    pub name: Option<String>,
    pub accept: String,
}

/// Headers agree with a request: a request that declares a protocol version
/// must repeat it in `Mcp-Protocol-Version` and its method in `Mcp-Method`;
/// a request that declares none is not checked.
pub open spec fn header_problem(r: JsonRpcRequest, h: RequestHeaders) -> Option<Seq<char>> {
    match spec_request_protocol_version(r) {
        None => None,
        Some(v) => if !(h.protocol_version matches Some(p) && p@ == v) {
            Some("Mcp-Protocol-Version header does not match the request"@)
        } else if !(h.method matches Some(m) && m@ == r.method@) {
            Some("Mcp-Method header does not match the request"@)
        } else {
            None
        },
    }
}

fn opt_text_is(o: &Option<String>, t: &str) -> (r: bool)
    ensures
        r == (*o matches Some(p) && p@ == t@),
{
    match o {
        Some(p) => text_eq(p.as_str(), t),
        None => false,
    }
}

/// Checks the MCP headers against the request.
pub fn validate_http_headers(r: &JsonRpcRequest, h: &RequestHeaders) -> (res: Result<(), McpError>)
    ensures
        match header_problem(*r, *h) {
            None => res is Ok,
            Some(m) => res matches Err(McpError::HeaderMismatch(t)) && t@ == m,
        },
{
    match request_protocol_version(r) {
        None => Ok(()),
        Some(v) => {
            if !opt_text_is(&h.protocol_version, v.as_str()) {
                Err(McpError::HeaderMismatch(String::from_str("Mcp-Protocol-Version header does not match the request")))
            } else if !opt_text_is(&h.method, r.method.as_str()) {
                Err(McpError::HeaderMismatch(String::from_str("Mcp-Method header does not match the request")))
            } else {
                Ok(())
            }
        },
    }
}

/// The MCP headers a client sends with a request: a request that declares
/// a protocol version repeats it in `Mcp-Protocol-Version` and its method in
/// `Mcp-Method`, and names the tool or prompt (`params.name`) or resource
/// (`params.uri`) it is about in `Mcp-Name`; a legacy request carries none.
pub open spec fn spec_request_name(r: JsonRpcRequest) -> Option<Seq<char>> {
    match r.params {
        Some(p) => if r.method@ == TOOLS_CALL@ || r.method@ == PROMPTS_GET@ {
            json_get_str(p, "name"@)
        } else if r.method@ == RESOURCES_READ@ {
            json_get_str(p, "uri"@)
        } else {
            None
        },
        None => None,
    }
}

fn request_name(r: &JsonRpcRequest) -> (n: Option<String>)
    ensures
        match n {
            Some(t) => spec_request_name(*r) == Some(t@),
            None => spec_request_name(*r) is None,
        },
{
    match &r.params {
        Some(p) => {
            let m = r.method.as_str();
            if text_eq(m, TOOLS_CALL) || text_eq(m, PROMPTS_GET) {
                match get_str(p, "name") {
                    Some(t) => Some(t.clone()),
                    None => None,
                }
            } else if text_eq(m, RESOURCES_READ) {
                match get_str(p, "uri") {
                    Some(t) => Some(t.clone()),
                    None => None,
                }
            } else {
                None
            }
        },
        None => None,
    }
}

/// The MCP headers a client sends with `r`.
pub fn request_headers(r: &JsonRpcRequest) -> (h: RequestHeaders)
    ensures
        h.accept@ == "application/json, text/event-stream"@,
        match spec_request_protocol_version(*r) {
            Some(v) => {
                &&& h.protocol_version matches Some(p) && p@ == v
                &&& h.method matches Some(m) && m@ == r.method@
                &&& match h.name {
                    Some(t) => spec_request_name(*r) == Some(t@),
                    None => spec_request_name(*r) is None,
                }
            },
            None => h.protocol_version is None && h.method is None && h.name is None,
        },
{
    let accept = String::from_str("application/json, text/event-stream");
    match request_protocol_version(r) {
        Some(v) => RequestHeaders {
            protocol_version: Some(v.clone()),
            method: Some(r.method.clone()),
            name: request_name(r),
            accept,
        },
        None => RequestHeaders { protocol_version: None, method: None, name: None, accept },
    }
}

/// The HTTP status follows the error code of the reply: a forbidden reply
/// (-32010) is answered 403 and a rate-limited one (-32011) 429; header,
/// version, capability, request and params errors (-32020, -32021, -32022,
/// -32600, -32602) are answered 400; an unknown method (-32601) is 404 on a
/// versioned request and 200 otherwise; any other error reply, and a reply
/// that is not an error, is 200.
/// So a request refused as forbidden or rate limited carries that status.
pub proof fn reply_status_follows_the_error_code(message: JsonRpcMessage, is_modern: bool, id: JsonValue, e: McpError)
    ensures
        !(message is Error) ==> spec_reply_status(message, is_modern) == 200,
        message matches JsonRpcMessage::Error(x) ==> {
            &&& x.error.code == -32010 ==> spec_reply_status(message, is_modern) == 403
            &&& x.error.code == -32011 ==> spec_reply_status(message, is_modern) == 429
            &&& (x.error.code == -32020 || x.error.code == -32021 || x.error.code == -32022
                || x.error.code == -32600 || x.error.code == -32602) ==> spec_reply_status(message, is_modern) == 400
            &&& x.error.code == -32601 ==> spec_reply_status(message, is_modern) == (if is_modern { 404u16 } else { 200u16 })
            &&& (x.error.code != -32010 && x.error.code != -32011 && x.error.code != -32020 && x.error.code != -32021
                && x.error.code != -32022 && x.error.code != -32600 && x.error.code != -32602 && x.error.code != -32601)
                ==> spec_reply_status(message, is_modern) == 200
        },
        message matches JsonRpcMessage::Error(x) && is_error_reply(x, id, e) ==> {
            &&& e is Forbidden ==> spec_reply_status(message, is_modern) == 403
            &&& e is RateLimited ==> spec_reply_status(message, is_modern) == 429
        },
{
}

/// A client and a server agree: the headers a client sends with any request
/// pass the server's header check.
pub proof fn sent_headers_pass_the_check(r: JsonRpcRequest, h: RequestHeaders)
    requires
        match spec_request_protocol_version(r) {
            Some(v) => (h.protocol_version matches Some(p) && p@ == v) && (h.method matches Some(m) && m@ == r.method@),
            None => true,
        },
    ensures
        header_problem(r, h) is None,
{
}

/// The JSON-RPC error reply that carries `e` for request `id`: its code, its
/// text and its data.
pub open spec fn is_error_reply(r: JsonRpcError, id: JsonValue, e: McpError) -> bool {
    &&& r.jsonrpc@ == JSONRPC_VERSION@
    &&& r.id == id
    &&& r.error.code == spec_error_code(e)
    &&& r.error.message@ == spec_error_text(e)
    &&& error_data_fits(e, r.error.data)
}

/// The JSON-RPC error reply that carries `e` for request `id`.
pub fn error_reply(id: JsonValue, e: &McpError) -> (r: JsonRpcError)
    ensures
        is_error_reply(r, id, *e),
{
    JsonRpcError::error(id, error_code(e), e.text(), error_data(e))
}

/// What the server does with a posted message.
pub enum HttpDispatch {
    /// Answer 400 with this error reply.
    Reject(JsonRpcError),
    /// Open a subscription stream for this `subscriptions/listen` request.
    Listen(JsonRpcRequest),
    /// Pass the request to the request handler.
    Handle(JsonRpcRequest),
    /// Deliver the notification to listeners and answer 202.
    Deliver(JsonRpcNotification),
    /// Answer 400 without a body.
    BadRequest,
}

/// How a posted message is dispatched: requests whose headers disagree are
/// rejected; a versioned `subscriptions/listen` needs an `Accept` that lists
/// `text/event-stream` and opens a stream; other requests go to the handler;
/// supported notifications are delivered; anything else is a bad request.
pub open spec fn dispatch_outcome(message: JsonRpcMessage, h: RequestHeaders, d: HttpDispatch) -> bool {
    match message {
        JsonRpcMessage::Request(r) => match header_problem(r, h) {
            Some(m) => d matches HttpDispatch::Reject(e) && e.id == r.id && e.error.code == HEADER_MISMATCH
                && e.error.message@ == m && e.error.data is None && e.jsonrpc@ == JSONRPC_VERSION@,
            None => if spec_request_protocol_version(r) is Some && r.method@ == SUBSCRIPTIONS_LISTEN@ {
                if !accepts_event_stream(h.accept@) {
                    d matches HttpDispatch::Reject(e) && e.id == r.id && e.error.code == HEADER_MISMATCH
                        && e.error.message@ == "subscriptions/listen requires Accept: text/event-stream"@
                        && e.error.data is None && e.jsonrpc@ == JSONRPC_VERSION@
                } else {
                    d == HttpDispatch::Listen(r)
                }
            } else {
                d == HttpDispatch::Handle(r)
            },
        },
        JsonRpcMessage::Notification(n) => if spec_supported_http_notification(n) {
            d == HttpDispatch::Deliver(n)
        } else {
            d is BadRequest
        },
        _ => d is BadRequest,
    }
}

/// Dispatches a posted message.
pub fn dispatch_http_message(message: JsonRpcMessage, h: &RequestHeaders) -> (d: HttpDispatch)
    ensures
        dispatch_outcome(message, *h, d),
{
    match message {
        JsonRpcMessage::Request(r) => {
            match validate_http_headers(&r, h) {
                Err(e) => {
                    let reply = error_reply(r.id, &e);
                    return HttpDispatch::Reject(reply);
                },
                Ok(()) => {},
            }
            let modern = request_protocol_version(&r).is_some();
            if modern && text_eq(r.method.as_str(), SUBSCRIPTIONS_LISTEN) {
                if !accepts_event_stream_header(h.accept.as_str()) {
                    let e = JsonRpcError::error(
                        r.id,
                        HEADER_MISMATCH,
                        String::from_str("subscriptions/listen requires Accept: text/event-stream"),
                        None,
                    );
                    return HttpDispatch::Reject(e);
                }
                return HttpDispatch::Listen(r);
            }
            HttpDispatch::Handle(r)
        },
        JsonRpcMessage::Notification(n) => {
            if is_supported_http_notification(&n) {
                HttpDispatch::Deliver(n)
            } else {
                HttpDispatch::BadRequest
            }
        },
        _ => HttpDispatch::BadRequest,
    }
}

/// What became of a request passed to the handler.
pub enum HandlerResult {
    /// No request handler is installed.
    NoHandler,
    /// The handler went away without answering.
    Dropped,
    /// The handler answered.
    Done(Result<JsonRpcResponse, McpError>),
}

/// The reply to a handled request: the response, the error reply for a
/// failure, `method not found` without a handler, and none (a 500) when the
/// handler went away.
pub open spec fn handled_reply(id: JsonValue, h: HandlerResult, r: Option<JsonRpcMessage>) -> bool {
    match h {
        HandlerResult::NoHandler => r matches Some(JsonRpcMessage::Error(e)) && e.id == id
            && e.error.code == METHOD_NOT_FOUND && e.error.message@ == "No request handler configured"@
            && e.error.data is None && e.jsonrpc@ == JSONRPC_VERSION@,
        HandlerResult::Dropped => r is None,
        HandlerResult::Done(Ok(resp)) => r == Some(JsonRpcMessage::Response(resp)),
        HandlerResult::Done(Err(err)) => r matches Some(JsonRpcMessage::Error(e)) && is_error_reply(e, id, err),
    }
}

/// The reply to a handled request.
pub fn reply_for_handled(id: JsonValue, h: HandlerResult) -> (r: Option<JsonRpcMessage>)
    ensures
        handled_reply(id, h, r),
{
    match h {
        HandlerResult::NoHandler => Some(JsonRpcMessage::Error(JsonRpcError::error(
            id,
            METHOD_NOT_FOUND,
            String::from_str("No request handler configured"),
            None,
        ))),
        HandlerResult::Dropped => None,
        HandlerResult::Done(Ok(resp)) => Some(JsonRpcMessage::Response(resp)),
        HandlerResult::Done(Err(err)) => Some(JsonRpcMessage::Error(error_reply(id, &err))),
    }
}

/// One notification offered to a subscription stream: delivered, tagged
/// with the subscription id, when the filter matches and its params can be
/// tagged; dropped otherwise.
pub fn stream_notification(filter: &SubscriptionFilter, id: &JsonValue, n: JsonRpcNotification) -> (r: Option<JsonRpcNotification>)
    ensures
        !(spec_filter_matches(*filter, n.method@, n.params) && taggable(n.params)) ==> r is None,
        spec_filter_matches(*filter, n.method@, n.params) && taggable(n.params) ==> (r matches Some(t) && {
            &&& t.method == n.method
            &&& t.jsonrpc == n.jsonrpc
            &&& tagged_with(t.params, *id)
            &&& (t.params matches Some(p) && forall|k: Seq<char>| k != "_meta"@ ==> #[trigger] json_get(p, k) == match n.params {
                Some(q) => json_get(q, k),
                None => None,
            })
        }),
{
    let keep = match &n.params {
        Some(p) => filter.matches(n.method.as_str(), Some(p)),
        None => filter.matches(n.method.as_str(), None),
    };
    if !keep || !params_taggable(&n.params) {
        return None;
    }
    let mut t = n;
    add_subscription_id(&mut t, id);
    Some(t)
}

/// Whether params can carry a subscription tag.
pub fn params_taggable(params: &Option<JsonValue>) -> (r: bool)
    ensures
        r == taggable(*params),
{
    match params {
        None => true,
        Some(p) => match p {
            JsonValue::Object(_) => match p.get("_meta") {
                None => true,
                Some(m) => match m {
                    JsonValue::Object(_) => true,
                    _ => false,
                },
            },
            _ => false,
        },
    }
}

} // verus!
