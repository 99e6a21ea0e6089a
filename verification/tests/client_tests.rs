use prism_mcp_rs::client::{assign_request_id, classify_reply, listed_reply, mcp_url, notification_status, parse_json_reply, parse_sse_response, read_reply, status_line_text};
use prism_mcp_rs::error::{error_code, error_data, error_from_reply, McpError};
use prism_mcp_rs::json::JsonValue;
use prism_mcp_rs::pool::{is_request_idempotent, no_endpoint_error, AttemptOutcome, EndpointPoolConfig, EndpointPoolTransport};
use prism_mcp_rs::protocol::{JsonRpcRequest, JsonRpcResponse, TOOLS_CALL};

fn request(method: &str, params: Option<JsonValue>) -> JsonRpcRequest {
    JsonRpcRequest { jsonrpc: "2.0".to_string(), id: JsonValue::Int(1), method: method.to_string(), params }
}

fn obj(es: Vec<(&str, JsonValue)>) -> JsonValue {
    JsonValue::Object(es.into_iter().map(|(k, v)| (k.to_string(), v)).collect())
}

#[test]
fn tool_call_requires_an_idempotency_key_for_replay() {
    assert!(!is_request_idempotent(&request(TOOLS_CALL, Some(obj(vec![("name", JsonValue::Str("charge".to_string()))])))));
    assert!(is_request_idempotent(&request(
        TOOLS_CALL,
        Some(obj(vec![
            ("name", JsonValue::Str("charge".to_string())),
            ("_meta", obj(vec![("idempotencyKey", JsonValue::Str("operation-42".to_string()))])),
        ]))
    )));
}

#[test]
fn parses_json_rpc_result_from_standard_post_sse() {
    let body = b"event: message\r\ndata: {\"jsonrpc\":\"2.0\",\"id\":7,\"result\":{\"ok\":true}}\r\n\r\n";
    let parsed = parse_sse_response(body, &JsonValue::Int(7)).unwrap();
    assert_eq!(parsed.get("result").and_then(|r| r.get("ok")), Some(&JsonValue::Bool(true)));
}

#[test]
fn sse_without_the_reply_is_an_error() {
    let body = b"data: {\"jsonrpc\":\"2.0\",\"id\":8,\"result\":{}}\n\n";
    match parse_sse_response(body, &JsonValue::Int(7)) {
        Err(McpError::Serialization(m)) => {
            assert_eq!(m, "SSE response ended without a JSON-RPC result for the request")
        }
        other => panic!("unexpected {:?}", other),
    }
    match parse_sse_response(b"data: {nope\n\n", &JsonValue::Int(7)) {
        Err(McpError::Serialization(m)) => assert!(m.starts_with("invalid SSE JSON data: ")),
        other => panic!("unexpected {:?}", other),
    }
}

#[test]
fn multi_line_sse_data_is_joined() {
    let body = b"data: {\"jsonrpc\":\"2.0\",\ndata: \"id\":1,\"result\":5}\n\n";
    let v = parse_sse_response(body, &JsonValue::Int(1)).unwrap();
    assert_eq!(v.get("result"), Some(&JsonValue::Int(5)));
}

#[test]
fn json_bodies_are_read_with_serde() {
    let v = parse_json_reply(b"{\"a\":[1,\"x\",null,true]}").unwrap();
    assert_eq!(
        v,
        obj(vec![("a", JsonValue::Array(vec![JsonValue::Int(1), JsonValue::Str("x".to_string()), JsonValue::Null, JsonValue::Bool(true)]))])
    );
    match parse_json_reply(b"not json") {
        Err(McpError::Serialization(m)) => assert!(m.starts_with("invalid JSON response: ")),
        other => panic!("unexpected {:?}", other),
    }
    match parse_json_reply(b"1.5") {
        Ok(JsonValue::Decimal(t)) => assert_eq!(t, "1.5"),
        other => panic!("unexpected {:?}", other),
    }
}

#[test]
fn replies_are_classified() {
    let ok = read_reply(&JsonValue::Int(1), 200, "application/json", b"{\"jsonrpc\":\"2.0\",\"id\":1,\"result\":{}}").unwrap();
    assert_eq!(ok.id, JsonValue::Int(1));
    match read_reply(&JsonValue::Int(2), 200, "application/json", b"{\"jsonrpc\":\"2.0\",\"id\":1,\"result\":{}}") {
        Err(McpError::Http(m)) => assert_eq!(m, "Response ID Number(1) does not match request ID Number(2)"),
        other => panic!("unexpected {:?}", other),
    }
    match read_reply(&JsonValue::Int(1), 500, "application/json", b"{\"jsonrpc\":\"2.0\",\"id\":1,\"result\":{}}") {
        Err(McpError::Http(m)) => assert_eq!(m, "HTTP error: 500 Internal Server Error"),
        other => panic!("unexpected {:?}", other),
    }
    let err = b"{\"jsonrpc\":\"2.0\",\"id\":1,\"error\":{\"code\":-32001,\"message\":\"no tool\"}}";
    match read_reply(&JsonValue::Int(1), 200, "application/json", err) {
        Err(McpError::Protocol(m)) => assert_eq!(m, "JSON-RPC error -32001: no tool"),
        other => panic!("unexpected {:?}", other),
    }
    match classify_reply(&JsonValue::Int(1), 404, Err(McpError::Serialization("x".to_string()))) {
        Err(McpError::Http(m)) => assert_eq!(m, "HTTP error: 404 Not Found"),
        other => panic!("unexpected {:?}", other),
    }
}

#[test]
fn status_lines_use_the_canonical_reason() {
    assert_eq!(status_line_text(404), "404 Not Found");
    assert_eq!(status_line_text(599), "599 Unknown");
    assert_eq!(status_line_text(200), "200 OK");
    assert!(notification_status(202).is_ok());
    match notification_status(503) {
        Err(McpError::Http(m)) => assert_eq!(m, "HTTP notification error: 503 Service Unavailable"),
        other => panic!("unexpected {:?}", other),
    }
}

#[test]
fn invalid_utf8_is_replaced() {
    let body = b"data: {\"jsonrpc\":\"2.0\",\"id\":1,\"result\":\"a\xffb\"}\n\n";
    let v = parse_sse_response(body, &JsonValue::Int(1)).unwrap();
    assert_eq!(v.get("result"), Some(&JsonValue::Str("a\u{FFFD}b".to_string())));
}

#[test]
fn base_urls_get_the_mcp_path() {
    assert_eq!(mcp_url("http://h:1"), "http://h:1/mcp");
    assert_eq!(mcp_url("http://h:1//"), "http://h:1/mcp");
    assert_eq!(mcp_url("http://h:1/mcp/"), "http://h:1/mcp");
}

#[test]
fn request_ids_are_assigned_to_null_ids_only() {
    let mut counter = 0u64;
    let r = assign_request_id(JsonRpcRequest { id: JsonValue::Null, ..request("ping", None) }, &mut counter);
    assert_eq!(r.id, JsonValue::Int(1));
    let r = assign_request_id(request("ping", None), &mut counter);
    assert_eq!(r.id, JsonValue::Int(1));
    assert_eq!(counter, 1);
}

#[test]
fn error_codes_round_trip() {
    let e = McpError::RateLimited { retry_after_ms: 250 };
    let code = error_code(&e);
    let back = error_from_reply(code, e.text(), error_data(&e));
    match back {
        McpError::RateLimited { retry_after_ms } => assert_eq!(retry_after_ms, 250),
        other => panic!("unexpected {:?}", other),
    }
    let e = McpError::UnsupportedProtocolVersion { requested: "1999".to_string(), supported: vec!["2025-06-18".to_string()] };
    match error_from_reply(error_code(&e), e.text(), error_data(&e)) {
        McpError::UnsupportedProtocolVersion { requested, supported } => {
            assert_eq!(requested, "1999");
            assert_eq!(supported, vec!["2025-06-18".to_string()]);
        }
        other => panic!("unexpected {:?}", other),
    }
    match error_from_reply(-32601, "m".to_string(), None) {
        McpError::MethodNotFound(m) => assert_eq!(m, "m"),
        other => panic!("unexpected {:?}", other),
    }
    assert!(McpError::Timeout("t".to_string()).is_recoverable());
    assert!(!McpError::Validation("v".to_string()).is_recoverable());
}

#[test]
fn pool_tries_unsafe_requests_once() {
    let mut pool = EndpointPoolTransport::new(EndpointPoolConfig::default())
        .add_endpoint("a".to_string())
        .add_endpoint("b".to_string());
    assert_eq!(pool.endpoint_count(), 2);
    let selected = pool.selectable_indices(0);
    assert_eq!(selected, vec![0, 1]);
    let charge = request(TOOLS_CALL, Some(obj(vec![("name", JsonValue::Str("charge".to_string()))])));
    assert_eq!(EndpointPoolTransport::attempt_budget(&charge, selected.len()), 1);
    assert_eq!(EndpointPoolTransport::attempt_budget(&request("ping", None), selected.len()), 2);
    let failure = McpError::Connection("down".to_string());
    assert_eq!(pool.after_attempt(0, Some(&failure), 10), AttemptOutcome::TryNext);
    match no_endpoint_error() {
        McpError::Connection(m) => assert_eq!(m, "endpoint pool has no available endpoints"),
        other => panic!("unexpected {:?}", other),
    }
}

#[test]
fn open_circuits_are_skipped_until_their_cooldown_passes() {
    let mut pool = EndpointPoolTransport::new(EndpointPoolConfig::default())
        .add_endpoint("a".to_string())
        .add_endpoint("b".to_string());
    for _ in 0..3 {
        pool.record_failure(0, 1000);
    }
    let first = pool.selectable_indices(2000);
    assert_eq!(first, vec![1]);
    let later = pool.selectable_indices(1000 + 30_000);
    assert_eq!(later.len(), 2);
    assert!(later.contains(&0) && later.contains(&1));
}

#[test]
fn error_reply_id_mismatch_names_both_ids() {
    let body = b"{\"jsonrpc\":\"2.0\",\"id\":\"a\",\"error\":{\"code\":-32601,\"message\":\"nope\"}}";
    match read_reply(&JsonValue::Int(7), 200, "application/json", body) {
        Err(McpError::Http(m)) => assert_eq!(m, "Error response ID String(\"a\") does not match request ID Number(7)"),
        other => panic!("unexpected {:?}", other),
    }
}

fn tool_entry(name: Option<JsonValue>, schema: bool) -> JsonValue {
    let mut entries = Vec::new();
    if let Some(n) = name {
        entries.push(("name".to_string(), n));
    }
    if schema {
        entries.push(("inputSchema".to_string(), JsonValue::Object(vec![("type".to_string(), JsonValue::Str("object".to_string()))])));
    }
    JsonValue::Object(entries)
}

fn listed_names(v: &JsonValue) -> Vec<String> {
    match v.get("tools") {
        Some(JsonValue::Array(items)) => items
            .iter()
            .map(|t| match t.get("name") {
                Some(JsonValue::Str(s)) => s.clone(),
                _ => String::new(),
            })
            .collect(),
        _ => panic!("no tools array"),
    }
}

#[test]
fn tools_list_replies_keep_only_named_tools_with_schemas() {
    let tools = JsonValue::Array(vec![
        tool_entry(Some(JsonValue::Str("echo".to_string())), true),
        tool_entry(Some(JsonValue::Str("no_schema".to_string())), false),
        tool_entry(None, true),
        tool_entry(Some(JsonValue::Int(7)), true),
        tool_entry(Some(JsonValue::Str("add".to_string())), true),
    ]);
    let result = JsonValue::Object(vec![
        ("tools".to_string(), tools),
        ("nextCursor".to_string(), JsonValue::Str("c1".to_string())),
    ]);
    let reply = JsonRpcResponse { jsonrpc: "2.0".to_string(), id: JsonValue::Int(3), result: Some(result) };
    let out = listed_reply("tools/list", Ok(reply)).unwrap();
    let v = out.result.unwrap();
    assert_eq!(listed_names(&v), vec!["echo".to_string(), "add".to_string()]);
    assert!(matches!(v.get("nextCursor"), Some(JsonValue::Str(c)) if c == "c1"));

    let other = JsonValue::Object(vec![("tools".to_string(), JsonValue::Array(vec![tool_entry(None, false)]))]);
    let reply = JsonRpcResponse { jsonrpc: "2.0".to_string(), id: JsonValue::Int(4), result: Some(other) };
    let out = listed_reply("prompts/list", Ok(reply)).unwrap();
    match out.result.unwrap().get("tools") {
        Some(JsonValue::Array(items)) => assert_eq!(items.len(), 1),
        _ => panic!("tools changed"),
    }
    match listed_reply("tools/list", Err(McpError::Http("down".to_string()))) {
        Err(McpError::Http(m)) => assert_eq!(m, "down"),
        other => panic!("unexpected {:?}", other.is_ok()),
    }
}
