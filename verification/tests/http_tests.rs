use prism_mcp_rs::error::McpError;
use prism_mcp_rs::http_routes::{
    accepts_event_stream_header, dispatch_http_message, error_reply, reply_for_handled, reply_status, route,
    request_headers, validate_http_headers, HandlerResult, HttpDispatch, HttpRoute, RequestHeaders,
};
use prism_mcp_rs::client::send_failure;
use prism_mcp_rs::json::JsonValue;
use prism_mcp_rs::listen::{check_listen_content_type, listen_failure, ListenStream};
use prism_mcp_rs::protocol::{JsonRpcMessage, JsonRpcNotification, JsonRpcRequest};

fn modern_request(method: &str) -> JsonRpcRequest {
    let meta = JsonValue::Object(vec![(
        "io.modelcontextprotocol/protocolVersion".to_string(),
        JsonValue::Str("2026-07-28".to_string()),
    )]);
    JsonRpcRequest {
        jsonrpc: "2.0".to_string(),
        id: JsonValue::Int(9),
        method: method.to_string(),
        params: Some(JsonValue::Object(vec![("_meta".to_string(), meta)])),
    }
}

fn headers(version: Option<&str>, method: Option<&str>, accept: &str) -> RequestHeaders {
    RequestHeaders {
        protocol_version: version.map(|v| v.to_string()),
        method: method.map(|m| m.to_string()),
        name: None,
        accept: accept.to_string(),
    }
}

#[test]
fn routes() {
    assert_eq!(route("POST", "/mcp"), HttpRoute::Message);
    assert_eq!(route("POST", "/mcp/notify"), HttpRoute::Notify);
    assert_eq!(route("GET", "/mcp/events"), HttpRoute::Events);
    assert_eq!(route("GET", "/health"), HttpRoute::Health);
    assert_eq!(route("GET", "/mcp"), HttpRoute::NotFound);
}

#[test]
fn header_checks() {
    let r = modern_request("tools/list");
    assert!(validate_http_headers(&r, &headers(Some("2026-07-28"), Some("tools/list"), "*/*")).is_ok());
    match validate_http_headers(&r, &headers(Some("2025-06-18"), Some("tools/list"), "*/*")) {
        Err(McpError::HeaderMismatch(m)) => assert_eq!(m, "Mcp-Protocol-Version header does not match the request"),
        other => panic!("unexpected {:?}", other),
    }
    match validate_http_headers(&r, &headers(Some("2026-07-28"), None, "*/*")) {
        Err(McpError::HeaderMismatch(m)) => assert_eq!(m, "Mcp-Method header does not match the request"),
        other => panic!("unexpected {:?}", other),
    }
    let plain = JsonRpcRequest { jsonrpc: "2.0".to_string(), id: JsonValue::Int(1), method: "ping".to_string(), params: None };
    assert!(validate_http_headers(&plain, &headers(None, None, "")).is_ok());
}

#[test]
fn dispatching_posted_messages() {
    let h = headers(Some("2026-07-28"), Some("subscriptions/listen"), "application/json, text/event-stream");
    assert!(matches!(dispatch_http_message(JsonRpcMessage::Request(modern_request("subscriptions/listen")), &h), HttpDispatch::Listen(_)));
    let h = headers(Some("2026-07-28"), Some("subscriptions/listen"), "application/json");
    match dispatch_http_message(JsonRpcMessage::Request(modern_request("subscriptions/listen")), &h) {
        HttpDispatch::Reject(e) => {
            assert_eq!(e.error.code, -32020);
            assert_eq!(e.error.message, "subscriptions/listen requires Accept: text/event-stream");
        }
        _ => panic!("expected a rejection"),
    }
    let n = JsonRpcNotification::new("notifications/initialized".to_string(), None);
    assert!(matches!(dispatch_http_message(JsonRpcMessage::Notification(n), &h), HttpDispatch::Deliver(_)));
    let n = JsonRpcNotification::new("notifications/unknown".to_string(), None);
    assert!(matches!(dispatch_http_message(JsonRpcMessage::Notification(n), &h), HttpDispatch::BadRequest));
    assert!(accepts_event_stream_header("text/html, text/event-stream;q=0.9"));
    assert!(!accepts_event_stream_header("text/html"));
}

#[test]
fn reply_statuses_and_handled_replies() {
    let e = error_reply(JsonValue::Int(1), &McpError::RateLimited { retry_after_ms: 10 });
    assert_eq!(e.error.code, -32011);
    assert_eq!(reply_status(&JsonRpcMessage::Error(e), true), 429);
    let e = error_reply(JsonValue::Int(1), &McpError::MethodNotFound("x".to_string()));
    assert_eq!(reply_status(&JsonRpcMessage::Error(e), true), 404);
    let e = error_reply(JsonValue::Int(1), &McpError::MethodNotFound("x".to_string()));
    assert_eq!(reply_status(&JsonRpcMessage::Error(e), false), 200);
    match reply_for_handled(JsonValue::Int(2), HandlerResult::NoHandler) {
        Some(JsonRpcMessage::Error(e)) => {
            assert_eq!(e.error.code, -32601);
            assert_eq!(e.error.message, "No request handler configured");
        }
        other => panic!("unexpected {:?}", other),
    }
    assert!(reply_for_handled(JsonValue::Int(2), HandlerResult::Dropped).is_none());
}

#[test]
fn listen_stream_reads_events_across_chunks() {
    assert!(check_listen_content_type("text/event-stream; charset=utf-8").is_ok());
    assert!(check_listen_content_type("application/json").is_err());
    let mut s = ListenStream::new();
    let b1 = s.feed(b"data: {\"jsonrpc\":\"2.0\",\"method\":\"notifications/tools/list_changed\"}\n");
    assert!(b1.notifications.is_empty());
    let b2 = s.feed(b"\n");
    assert_eq!(b2.notifications.len(), 1);
    assert_eq!(b2.notifications[0].method, "notifications/tools/list_changed");
    match listen_failure(403, b"denied") {
        McpError::Http(m) => assert!(m.contains("403")),
        other => panic!("unexpected {:?}", other),
    }
}

#[test]
fn client_headers_pass_the_server_check() {
    let mut r = modern_request("tools/call");
    if let Some(JsonValue::Object(es)) = &mut r.params {
        es.push(("name".to_string(), JsonValue::Str("echo".to_string())));
    }
    let h = request_headers(&r);
    assert_eq!(h.protocol_version.as_deref(), Some("2026-07-28"));
    assert_eq!(h.method.as_deref(), Some("tools/call"));
    assert_eq!(h.name.as_deref(), Some("echo"));
    assert_eq!(h.accept, "application/json, text/event-stream");
    assert!(validate_http_headers(&r, &h).is_ok());

    let legacy = JsonRpcRequest { jsonrpc: "2.0".to_string(), id: JsonValue::Int(1), method: "ping".to_string(), params: None };
    let h = request_headers(&legacy);
    assert!(h.protocol_version.is_none() && h.method.is_none() && h.name.is_none());
}

#[test]
fn send_failures_are_classified() {
    match send_failure(true, true, "x") {
        McpError::Timeout(m) => assert_eq!(m, "HTTP request timeout"),
        other => panic!("unexpected {:?}", other),
    }
    match send_failure(false, true, "refused") {
        McpError::Connection(m) => assert_eq!(m, "HTTP connection failed: refused"),
        other => panic!("unexpected {:?}", other),
    }
    match send_failure(false, false, "bad") {
        McpError::Http(m) => assert_eq!(m, "HTTP request failed: bad"),
        other => panic!("unexpected {:?}", other),
    }
}
