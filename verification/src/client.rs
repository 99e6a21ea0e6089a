//! Client side of the HTTP transport: where requests go, how ids are
//! assigned, and how a reply (plain JSON or an SSE stream) becomes the
//! response or the error a caller sees.
use vstd::prelude::*;
use vstd::string::StringExecFns;
use vstd::string::StrSliceExecFns;
use crate::error::{McpError, spec_error_from_reply, error_from_reply};
use crate::json::{JsonValue, json_get, json_get_str, json_same, json_equal, take_field_mut, object_set};
use crate::protocol::JsonRpcRequest;
use crate::protocol::JsonRpcResponse;
use crate::sse::{normalize_newlines, split_events, event_payload, normalize_crlf, next_event, event_data, copy_range};
use crate::text::{text_eq, utf8_of, has_prefix, has_suffix, decimal_text, starts_with, ends_with, concat, u64_text};
use crate::wire::{json_parse, lossy_utf8, status_reason, parse_json_bytes, lossy_utf8_bytes, canonical_reason,
    json_debug, json_debug_text};

verus! {

broadcast use vstd::std_specs::vec::group_vec_axioms;

/// `s` without its trailing `/` characters.
pub open spec fn trim_trailing_slashes(s: Seq<char>) -> Seq<char>
    decreases s.len(),
{
    if s.len() > 0 && s.last() == '/' {
        trim_trailing_slashes(s.drop_last())
    } else {
        s
    }
}

/// The endpoint that requests are posted to: the base URL without trailing
/// slashes, with `/mcp` appended unless it already ends so.
pub open spec fn spec_mcp_url(base: Seq<char>) -> Seq<char> {
    let t = trim_trailing_slashes(base);
    if has_suffix(utf8_of(t), utf8_of("/mcp"@)) { t } else { t + "/mcp"@ }
}

/// The endpoint that requests are posted to.
pub fn mcp_url(base: &str) -> (r: String)
    ensures
        r@ == spec_mcp_url(base@),
{
    let n = base.unicode_len();
    let mut j = n;
    assert(base@.take(n as int) =~= base@);
    while j > 0 && base.get_char(j - 1) == '/'
        invariant
            n == base@.len(),
            j <= n,
            trim_trailing_slashes(base@) == trim_trailing_slashes(base@.take(j as int)),
        decreases j,
    {
        assert(base@.take(j as int).drop_last() =~= base@.take(j - 1));
        j = j - 1;
    }
    let t = base.substring_char(0, j);
    assert(t@ =~= base@.take(j as int));
    if ends_with(t, "/mcp") {
        String::from_str(t)
    } else {
        concat(t, "/mcp")
    }
}

/// Gives a request without an id (`null`) the next number of `counter`;
/// any other request is left as it is.
pub fn assign_request_id(request: JsonRpcRequest, counter: &mut u64) -> (r: JsonRpcRequest)
    requires
        request.id is Null ==> *old(counter) < i64::MAX,
    ensures
        request.id is Null ==> *final(counter) == *old(counter) + 1
            && r == (JsonRpcRequest { id: JsonValue::Int(*final(counter) as i64), ..request }),
        !(request.id is Null) ==> *final(counter) == *old(counter) && r == request,
{
    if request.id.is_null() {
        *counter = *counter + 1;
        JsonRpcRequest { id: JsonValue::Int(*counter as i64), ..request }
    } else {
        request
    }
}

/// An HTTP status in the success class.
pub open spec fn is_success(status: u16) -> bool {
    200 <= status <= 299
}

/// `{code} {reason}`, with `Unknown` for a code without a reason phrase.
pub open spec fn status_line(status: u16) -> Seq<char> {
    decimal_text(status as int) + " "@ + match status_reason(status) {
        Some(r) => r,
        None => "Unknown"@,
    }
}

/// `{code} {reason}` for a status.
pub fn status_line_text(status: u16) -> (r: String)
    ensures
        r@ == status_line(status),
{
    let digits = u64_text(status as u64);
    let head = concat(digits.as_str(), " ");
    let out = match canonical_reason(status) {
        Some(reason) => concat(head.as_str(), reason.as_str()),
        None => concat(head.as_str(), "Unknown"),
    };
    out
}

/// A present, non-null value.
pub open spec fn non_null(v: Option<JsonValue>) -> Option<JsonValue> {
    match v {
        Some(JsonValue::Null) => None,
        other => other,
    }
}

/// The parts of a JSON-RPC error reply: id, code (an `i32`), message and
/// optional data; `None` when the document is not such a reply.
pub open spec fn error_reply_parts(v: JsonValue) -> Option<(JsonValue, i64, Seq<char>, Option<JsonValue>)> {
    match (json_get(v, "jsonrpc"@), json_get(v, "id"@), json_get(v, "error"@)) {
        (Some(JsonValue::Str(_)), Some(id), Some(e)) => match (json_get(e, "code"@), json_get(e, "message"@)) {
            (Some(JsonValue::Int(c)), Some(JsonValue::Str(m))) => if i32::MIN <= c <= i32::MAX {
                Some((id, c, m@, non_null(json_get(e, "data"@))))
            } else {
                None
            },
            _ => None,
        },
        _ => None,
    }
}

/// The JSON-RPC response a document holds: `jsonrpc` text, `id`, and the
/// optional `result`; `None` when the document is not one.
pub open spec fn response_parts(v: JsonValue) -> Option<JsonRpcResponse> {
    match (json_get(v, "jsonrpc"@), json_get(v, "id"@)) {
        (Some(JsonValue::Str(j)), Some(id)) => Some(JsonRpcResponse { jsonrpc: j, id, result: non_null(json_get(v, "result"@)) }),
        _ => None,
    }
}

fn drop_null(v: Option<JsonValue>) -> (r: Option<JsonValue>)
    ensures
        r == non_null(v),
{
    match v {
        Some(JsonValue::Null) => None,
        other => other,
    }
}

/// Reads a JSON-RPC error reply into its parts.
pub fn decode_error_reply(v: JsonValue) -> (r: Option<(JsonValue, i64, String, Option<JsonValue>)>)
    ensures
        error_reply_parts(v) == (match r {
            Some((id, c, m, d)) => Some((id, c, m@, d)),
            None => None::<(JsonValue, i64, Seq<char>, Option<JsonValue>)>,
        }),
{
    proof {
        reveal_strlit("jsonrpc");
        reveal_strlit("id");
        reveal_strlit("error");
        reveal_strlit("code");
        reveal_strlit("message");
        reveal_strlit("data");
    }
    let ghost orig = v;
    let mut v = v;
    let j = take_field_mut(&mut v, "jsonrpc");
    let ghost v1 = v;
    assert("id"@.len() != "jsonrpc"@.len());
    assert("error"@.len() != "jsonrpc"@.len());
    assert(json_get(v1, "id"@) == json_get(orig, "id"@));
    assert(json_get(v1, "error"@) == json_get(orig, "error"@));
    let id = take_field_mut(&mut v, "id");
    assert("id"@.len() != "error"@.len());
    assert(json_get(v, "error"@) == json_get(v1, "error"@));
    let e = take_field_mut(&mut v, "error");
    match (j, id, e) {
        (Some(JsonValue::Str(_)), Some(id), Some(e)) => {
            let ghost eo = e;
            let mut e = e;
            let c = take_field_mut(&mut e, "code");
            let ghost e1 = e;
            assert("message"@.len() != "code"@.len());
            assert("data"@[0] != "code"@[0]);
            assert("data"@ != "code"@);
            assert(json_get(e1, "message"@) == json_get(eo, "message"@));
            assert(json_get(e1, "data"@) == json_get(eo, "data"@));
            let m = take_field_mut(&mut e, "message");
            assert("data"@.len() != "message"@.len());
            assert(json_get(e, "data"@) == json_get(e1, "data"@));
            let d = take_field_mut(&mut e, "data");
            match (c, m) {
                (Some(JsonValue::Int(c)), Some(JsonValue::Str(m))) => {
                    if i32::MIN as i64 <= c && c <= i32::MAX as i64 {
                        Some((id, c, m, drop_null(d)))
                    } else {
                        None
                    }
                },
                _ => None,
            }
        },
        _ => None,
    }
}

/// Reads a JSON-RPC response.
pub fn decode_response(v: JsonValue) -> (r: Option<JsonRpcResponse>)
    ensures
        r == response_parts(v),
{
    proof {
        reveal_strlit("jsonrpc");
        reveal_strlit("id");
        reveal_strlit("result");
    }
    let ghost orig = v;
    let mut v = v;
    let j = take_field_mut(&mut v, "jsonrpc");
    let ghost v1 = v;
    assert("id"@.len() != "jsonrpc"@.len());
    assert("result"@.len() != "jsonrpc"@.len());
    assert(json_get(v1, "id"@) == json_get(orig, "id"@));
    assert(json_get(v1, "result"@) == json_get(orig, "result"@));
    let id = take_field_mut(&mut v, "id");
    assert("result"@.len() != "id"@.len());
    assert(json_get(v, "result"@) == json_get(v1, "result"@));
    let res = take_field_mut(&mut v, "result");
    match (j, id) {
        (Some(JsonValue::Str(j)), Some(id)) => Some(JsonRpcResponse { jsonrpc: j, id, result: drop_null(res) }),
        _ => None,
    }
}

/// What a caller sees for a reply with HTTP `status` whose body read as
/// `parsed`, to a request with id `request_id`.
pub open spec fn reply_outcome(request_id: JsonValue, status: u16, parsed: Result<JsonValue, McpError>, r: Result<JsonRpcResponse, McpError>) -> bool {
    match parsed {
        Err(e) => if !is_success(status) {
            r matches Err(McpError::Http(m)) && m@ == "HTTP error: "@ + status_line(status)
        } else {
            r == Err::<JsonRpcResponse, McpError>(e)
        },
        Ok(v) => if json_get(v, "error"@) is Some {
            match error_reply_parts(v) {
                None => r matches Err(McpError::Serialization(m)) && m@ == "invalid JSON-RPC error reply"@,
                Some((id, code, msg, data)) => if !json_same(id, request_id) {
                    r matches Err(McpError::Http(m)) && m@ == "Error response ID "@ + json_debug(id)
                        + " does not match request ID "@ + json_debug(request_id)
                } else {
                    r matches Err(e) && spec_error_from_reply(code, msg, data, e)
                },
            }
        } else if !is_success(status) {
            r matches Err(McpError::Http(m)) && m@ == "HTTP error: "@ + status_line(status)
        } else {
            match response_parts(v) {
                None => r matches Err(McpError::Serialization(m)) && m@ == "invalid JSON-RPC response"@,
                Some(resp) => if !json_same(resp.id, request_id) {
                    r matches Err(McpError::Http(m)) && m@ == "Response ID "@ + json_debug(resp.id)
                        + " does not match request ID "@ + json_debug(request_id)
                } else {
                    r == Ok::<JsonRpcResponse, McpError>(resp)
                },
            }
        },
    }
}

/// `{lead}{got:?} does not match request ID {want:?}`.
fn mismatch_text(lead: &str, got: &JsonValue, want: &JsonValue) -> (r: String)
    ensures
        r@ == lead@ + json_debug(*got) + " does not match request ID "@ + json_debug(*want),
{
    let a = json_debug_text(got);
    let b = json_debug_text(want);
    let head = concat(lead, a.as_str());
    let mid = concat(head.as_str(), " does not match request ID ");
    concat(mid.as_str(), b.as_str())
}

fn http_error(status: u16) -> (r: McpError)
    ensures
        r matches McpError::Http(m) && m@ == "HTTP error: "@ + status_line(status),
{
    let line = status_line_text(status);
    McpError::Http(concat("HTTP error: ", line.as_str()))
}

/// Turns a reply into the response or the error a caller sees.
pub fn classify_reply(request_id: &JsonValue, status: u16, parsed: Result<JsonValue, McpError>) -> (r: Result<JsonRpcResponse, McpError>)
    ensures
        reply_outcome(*request_id, status, parsed, r),
{
    let success = 200 <= status && status <= 299;
    match parsed {
        Err(e) => {
            if !success {
                Err(http_error(status))
            } else {
                Err(e)
            }
        },
        Ok(v) => {
            if v.get("error").is_some() {
                match decode_error_reply(v) {
                    None => Err(McpError::Serialization(String::from_str("invalid JSON-RPC error reply"))),
                    Some((id, code, msg, data)) => {
                        if !json_equal(&id, request_id) {
                            Err(McpError::Http(mismatch_text("Error response ID ", &id, request_id)))
                        } else {
                            Err(error_from_reply(code, msg, data))
                        }
                    },
                }
            } else if !success {
                Err(http_error(status))
            } else {
                match decode_response(v) {
                    None => Err(McpError::Serialization(String::from_str("invalid JSON-RPC response"))),
                    Some(resp) => {
                        if !json_equal(&resp.id, request_id) {
                            Err(McpError::Http(mismatch_text("Response ID ", &resp.id, request_id)))
                        } else {
                            Ok(resp)
                        }
                    },
                }
            }
        },
    }
}

/// Reads a plain JSON reply body.
pub fn parse_json_reply(body: &[u8]) -> (r: Result<JsonValue, McpError>)
    ensures
        match json_parse(body@) {
            Ok(v) => r == Ok::<JsonValue, McpError>(v),
            Err(m) => r matches Err(McpError::Serialization(t)) && t@ == "invalid JSON response: "@ + m,
        },
{
    match parse_json_bytes(body) {
        Ok(v) => Ok(v),
        Err(m) => Err(McpError::Serialization(concat("invalid JSON response: ", m.as_str()))),
    }
}

/// `v` answers the request `id`: it carries that id and a result or an error.
pub open spec fn is_reply_to(v: JsonValue, id: JsonValue) -> bool {
    &&& json_get(v, "id"@) matches Some(x) && json_same(x, id)
    &&& (json_get(v, "result"@) is Some || json_get(v, "error"@) is Some)
}

/// The first event that answers `id`, reading events in order and skipping
/// those without data; `Err(Some(m))` at the first data that is not JSON,
/// `Err(None)` when no event answers.
pub open spec fn sse_reply(events: Seq<Seq<u8>>, id: JsonValue) -> Result<JsonValue, Option<Seq<char>>>
    decreases events.len(),
{
    if events.len() == 0 {
        Err(None)
    } else {
        let p = event_payload(events[0]);
        if p.len() == 0 {
            sse_reply(events.skip(1), id)
        } else {
            match json_parse(p) {
                Err(m) => Err(Some(m)),
                Ok(v) => if is_reply_to(v, id) { Ok(v) } else { sse_reply(events.skip(1), id) },
            }
        }
    }
}

/// The events of an SSE body: decoded as UTF-8 (lossily), line endings
/// normalised, split at blank lines.
pub open spec fn sse_body_events(body: Seq<u8>) -> Seq<Seq<u8>> {
    split_events(normalize_newlines(lossy_utf8(body)))
}

fn answers(v: &JsonValue, id: &JsonValue) -> (r: bool)
    ensures
        r == is_reply_to(*v, *id),
{
    let matches_id = match v.get("id") {
        Some(x) => json_equal(x, id),
        None => false,
    };
    matches_id && (v.get("result").is_some() || v.get("error").is_some())
}

/// Finds the reply to `request_id` in an SSE response body.
pub fn parse_sse_response(bytes: &[u8], request_id: &JsonValue) -> (r: Result<JsonValue, McpError>)
    ensures
        match sse_reply(sse_body_events(bytes@), *request_id) {
            Ok(v) => r == Ok::<JsonValue, McpError>(v),
            Err(Some(m)) => r matches Err(McpError::Serialization(t)) && t@ == "invalid SSE JSON data: "@ + m,
            Err(None) => r matches Err(McpError::Serialization(t))
                && t@ == "SSE response ended without a JSON-RPC result for the request"@,
        },
{
    let text = lossy_utf8_bytes(bytes);
    let body = normalize_crlf(text.as_slice());
    let n = body.len();
    let mut pos: usize = 0;
    assert(body@.skip(0) =~= body@);
    loop
        invariant
            n == body@.len(),
            pos <= n,
            body@ == normalize_newlines(lossy_utf8(bytes@)),
            sse_reply(sse_body_events(bytes@), *request_id) == sse_reply(split_events(body@.skip(pos as int)), *request_id),
        decreases n - pos,
    {
        let (end, next, more) = next_event(body.as_slice(), pos);
        let event = copy_range(body.as_slice(), pos, end);
        let payload = event_data(event.as_slice());
        let ghost events = split_events(body@.skip(pos as int));
        assert(events[0] == event@);
        if payload.len() > 0 {
            match parse_json_bytes(payload.as_slice()) {
                Err(m) => {
                    return Err(McpError::Serialization(concat("invalid SSE JSON data: ", m.as_str())));
                },
                Ok(v) => {
                    if answers(&v, request_id) {
                        return Ok(v);
                    }
                },
            }
        }
        if !more {
            assert(events.skip(1) =~= Seq::<Seq<u8>>::empty());
            assert(sse_reply(events.skip(1), *request_id) == Err::<JsonValue, Option<Seq<char>>>(None));
            return Err(McpError::Serialization(
                String::from_str("SSE response ended without a JSON-RPC result for the request"),
            ));
        }
        assert(events.skip(1) =~= split_events(body@.skip(next as int)));
        pos = next;
    }
}

/// The body of a reply is an SSE stream when its content type says so.
pub open spec fn is_event_stream(content_type: Seq<char>) -> bool {
    has_prefix(utf8_of(content_type), utf8_of("text/event-stream"@))
}

/// What a caller sees for a reply with HTTP `status`, content type and body.
pub open spec fn read_reply_outcome(request_id: JsonValue, status: u16, content_type: Seq<char>, body: Seq<u8>, r: Result<JsonRpcResponse, McpError>) -> bool {
    if is_event_stream(content_type) {
        exists|p: Result<JsonValue, McpError>| {
            &&& (match sse_reply(sse_body_events(body), request_id) {
                Ok(v) => p == Ok::<JsonValue, McpError>(v),
                Err(Some(m)) => p matches Err(McpError::Serialization(t)) && t@ == "invalid SSE JSON data: "@ + m,
                Err(None) => p matches Err(McpError::Serialization(t))
                    && t@ == "SSE response ended without a JSON-RPC result for the request"@,
            })
            &&& reply_outcome(request_id, status, p, r)
        }
    } else {
        exists|p: Result<JsonValue, McpError>| {
            &&& (match json_parse(body) {
                Ok(v) => p == Ok::<JsonValue, McpError>(v),
                Err(m) => p matches Err(McpError::Serialization(t)) && t@ == "invalid JSON response: "@ + m,
            })
            &&& reply_outcome(request_id, status, p, r)
        }
    }
}

/// Reads a reply to the request `request_id`: an SSE stream or a JSON
/// document, then the response or the error a caller sees.
pub fn read_reply(request_id: &JsonValue, status: u16, content_type: &str, body: &[u8]) -> (r: Result<JsonRpcResponse, McpError>)
    ensures
        read_reply_outcome(*request_id, status, content_type@, body@, r),
{
    if starts_with(content_type, "text/event-stream") {
        let parsed = parse_sse_response(body, request_id);
        let ghost p = parsed;
        let r = classify_reply(request_id, status, parsed);
        assert(reply_outcome(*request_id, status, p, r));
        r
    } else {
        let parsed = parse_json_reply(body);
        let ghost p = parsed;
        let r = classify_reply(request_id, status, parsed);
        assert(reply_outcome(*request_id, status, p, r));
        r
    }
}

/// The failure a notification post reports for a non-success status.
pub fn notification_status(status: u16) -> (r: Result<(), McpError>)
    ensures
        is_success(status) ==> r is Ok,
        !is_success(status) ==> (r matches Err(McpError::Http(m)) && m@ == "HTTP notification error: "@ + status_line(status)),
{
    if 200 <= status && status <= 299 {
        Ok(())
    } else {
        let line = status_line_text(status);
        Err(McpError::Http(concat("HTTP notification error: ", line.as_str())))
    }
}

/// `{code} {reason}` as a status code displays itself, with
/// `<unknown status code>` for a code without a reason phrase.
pub open spec fn status_display(status: u16) -> Seq<char> {
    decimal_text(status as int) + " "@ + match status_reason(status) {
        Some(r) => r,
        None => "<unknown status code>"@,
    }
}

fn status_display_text(status: u16) -> (r: String)
    ensures
        r@ == status_display(status),
{
    let digits = u64_text(status as u64);
    let head = concat(digits.as_str(), " ");
    match canonical_reason(status) {
        Some(reason) => concat(head.as_str(), reason.as_str()),
        None => concat(head.as_str(), "<unknown status code>"),
    }
}

/// What a reply on an HTTP/2 stream gives: a non-success status is an
/// error naming it; otherwise the body must be a JSON-RPC response (a body
/// that is not JSON, invalid UTF-8 included, is a parse failure).
pub fn http2_reply(status: u16, body: &[u8]) -> (r: Result<JsonRpcResponse, McpError>)
    ensures
        !is_success(status) ==> (r matches Err(McpError::Http(m)) && m@ == "HTTP/2 error: "@ + status_display(status)),
        is_success(status) ==> match json_parse(body@) {
            Err(m) => r matches Err(McpError::Http(t)) && t@ == "Failed to parse HTTP/2 JSON response: "@ + m,
            Ok(v) => match response_parts(v) {
                Some(resp) => r == Ok::<JsonRpcResponse, McpError>(resp),
                None => r matches Err(McpError::Http(t))
                    && t@ == "Failed to parse HTTP/2 JSON response: invalid JSON-RPC response"@,
            },
        },
{
    if !(200 <= status && status <= 299) {
        let line = status_display_text(status);
        return Err(McpError::Http(concat("HTTP/2 error: ", line.as_str())));
    }
    match parse_json_bytes(body) {
        Err(m) => Err(McpError::Http(concat("Failed to parse HTTP/2 JSON response: ", m.as_str()))),
        Ok(v) => match decode_response(v) {
            Some(resp) => Ok(resp),
            None => Err(McpError::Http(String::from_str("Failed to parse HTTP/2 JSON response: invalid JSON-RPC response"))),
        },
    }
}

/// The error a failed send reports: a timeout, a failed connection (with
/// the failure's text), or any other HTTP failure (with its text).
pub fn send_failure(is_timeout: bool, is_connect: bool, text: &str) -> (e: McpError)
    ensures
        is_timeout ==> (e matches McpError::Timeout(m) && m@ == "HTTP request timeout"@),
        !is_timeout && is_connect ==> (e matches McpError::Connection(m) && m@ == "HTTP connection failed: "@ + text@),
        !is_timeout && !is_connect ==> (e matches McpError::Http(m) && m@ == "HTTP request failed: "@ + text@),
{
    if is_timeout {
        McpError::Timeout(String::from_str("HTTP request timeout"))
    } else if is_connect {
        McpError::Connection(concat("HTTP connection failed: ", text))
    } else {
        McpError::Http(concat("HTTP request failed: ", text))
    }
}

/// Whether a tool listed in a `tools/list` reply is kept: it names itself
/// with a string and carries an input schema.
pub open spec fn listed_tool_kept(tool: JsonValue) -> bool {
    json_get_str(tool, "name"@) is Some && json_get(tool, "inputSchema"@) is Some
}

/// The listed tools that are kept, in their order.
pub open spec fn kept_tools(items: Seq<JsonValue>) -> Seq<JsonValue>
    decreases items.len(),
{
    if items.len() == 0 {
        Seq::empty()
    } else if listed_tool_kept(items.last()) {
        kept_tools(items.drop_last()).push(items.last())
    } else {
        kept_tools(items.drop_last())
    }
}

/// The tools of `items` that are kept.
fn keep_listed_tools(items: Vec<JsonValue>) -> (r: Vec<JsonValue>)
    ensures
        r@ == kept_tools(items@),
{
    let ghost orig = items@;
    let mut rest = items;
    let mut kept: Vec<JsonValue> = Vec::new();
    let n = rest.len();
    let mut i: usize = 0;
    assert(orig.take(0) =~= Seq::<JsonValue>::empty());
    assert(orig.skip(0) =~= orig);
    while i < n
        invariant
            n == orig.len(),
            i <= n,
            rest@ == orig.skip(i as int),
            kept@ == kept_tools(orig.take(i as int)),
        decreases n - i,
    {
        let tool = rest.remove(0);
        proof {
            assert(tool == orig[i as int]);
            assert(orig.take(i + 1).drop_last() =~= orig.take(i as int));
            assert(orig.take(i + 1).last() == orig[i as int]);
            assert(rest@ =~= orig.skip(i + 1));
        }
        let named = match tool.get("name") {
            Some(JsonValue::Str(_)) => true,
            _ => false,
        };
        let with_schema = tool.get("inputSchema").is_some();
        if named && with_schema {
            kept.push(tool);
        }
        i = i + 1;
    }
    assert(orig.take(n as int) =~= orig);
    kept
}

/// `after` is `before` with the unusable tools dropped from its `tools`
/// array: every other member reads as before; without such an array the
/// value is unchanged.
pub open spec fn usable_tools_kept(before: JsonValue, after: JsonValue) -> bool {
    match json_get(before, "tools"@) {
        Some(JsonValue::Array(items)) => {
            &&& json_get(after, "tools"@) matches Some(JsonValue::Array(kept)) && kept@ == kept_tools(items@)
            &&& after is Object
            &&& forall|k: Seq<char>| k != "tools"@ ==> #[trigger] json_get(after, k) == json_get(before, k)
        },
        _ => after == before,
    }
}

/// A `tools/list` result with the tools that cannot be kept dropped from its
/// `tools` array; a result without such an array is left as it is. A kept
/// tool's schema is not inspected further (its header annotations are not
/// checked).
pub fn keep_usable_tools(result: &mut JsonValue)
    ensures
        usable_tools_kept(*old(result), *final(result)),
{
    let listed = match result.get("tools") {
        Some(JsonValue::Array(_)) => true,
        _ => false,
    };
    if listed {
        let taken = take_field_mut(result, "tools");
        match taken {
            Some(JsonValue::Array(items)) => {
                let kept = keep_listed_tools(items);
                object_set(result, "tools", JsonValue::Array(kept));
            },
            _ => {},
        }
    }
}

/// What a caller receives for a request with `method`: the reply as it came,
/// except that a successful `tools/list` reply keeps only the usable tools.
pub fn listed_reply(method: &str, reply: Result<JsonRpcResponse, McpError>) -> (r: Result<JsonRpcResponse, McpError>)
    ensures
        method@ != crate::protocol::TOOLS_LIST@ ==> r == reply,
        method@ == crate::protocol::TOOLS_LIST@ ==> match reply {
            Ok(resp) => match resp.result {
                Some(res) => {
                    &&& r matches Ok(out)
                    &&& out.jsonrpc == resp.jsonrpc
                    &&& out.id == resp.id
                    &&& out.result matches Some(v)
                    &&& usable_tools_kept(res, v)
                },
                None => r == reply,
            },
            Err(_) => r == reply,
        },
{
    if !text_eq(method, crate::protocol::TOOLS_LIST) {
        return reply;
    }
    match reply {
        Ok(resp) => {
            let JsonRpcResponse { jsonrpc, id, result } = resp;
            match result {
                Some(mut v) => {
                    keep_usable_tools(&mut v);
                    Ok(JsonRpcResponse { jsonrpc, id, result: Some(v) })
                },
                None => Ok(JsonRpcResponse { jsonrpc, id, result: None }),
            }
        },
        Err(e) => Err(e),
    }
}

} // verus!
