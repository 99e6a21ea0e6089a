use prism_mcp_rs::json::JsonValue;
use prism_mcp_rs::protocol::{
    build_resource_updated_notification, build_tool_list_changed_notification, log_message, prompts_list_changed,
    require_non_empty_string, resource_updated, resources_list_changed, tools_list_changed, validate_protocol_version,
    validate_tool_name, validate_uri, validate_uri_format, LoggingLevel, JsonRpcNotification, JsonRpcRequest,
    JsonRpcResponse, JsonRpcError, ErrorObject, JsonRpcMessage,
};
use prism_mcp_rs::encode::message_json;
use prism_mcp_rs::stdio_session::decode_message;
use prism_mcp_rs::error::McpError;

fn param<'a>(n: &'a JsonRpcNotification, key: &str) -> Option<&'a JsonValue> {
    match &n.params {
        Some(p) => p.get(key),
        None => None,
    }
}

fn text(v: Option<&JsonValue>) -> Option<&str> {
    match v {
        Some(JsonValue::Str(s)) => Some(s.as_str()),
        _ => None,
    }
}

#[test]
fn test_validation_helpers() {
    assert!(require_non_empty_string("test", "field").is_ok());
    assert!(require_non_empty_string("", "field").is_err());

    assert!(validate_uri_format("https://example.com").is_ok());
    assert!(validate_uri_format("file:///path").is_ok());
    assert!(validate_uri_format("/absolute/path").is_ok());
    assert!(validate_uri_format("").is_err());
    assert!(validate_uri_format("invalid").is_err());
}

#[test]
fn test_validate_protocol_version() {
    assert!(validate_protocol_version("2025-06-18"));
    assert!(validate_protocol_version("2025-03-26"));
    assert!(!validate_protocol_version("invalid"));
    assert!(!validate_protocol_version("2024-01-01"));
}

#[test]
fn test_validate_uri_format() {
    assert!(validate_uri("file:///path/to/file.txt"));
    assert!(validate_uri("https://example.com/resource"));
    assert!(validate_uri("custom://resource/path"));
    assert!(!validate_uri("invalid uri"));
    assert!(!validate_uri(""));
}

#[test]
fn test_validate_tool_name() {
    assert!(validate_tool_name("valid_tool_name"));
    assert!(validate_tool_name("tool-with-dash"));
    assert!(validate_tool_name("tool123"));
    assert!(!validate_tool_name(""));
    assert!(!validate_tool_name("tool with spaces"));
    assert!(!validate_tool_name("tool/with/slashes"));
}

#[test]
fn test_build_resource_updated_notification() {
    let notification = build_resource_updated_notification("file:///test.txt".to_string());
    assert_eq!(notification.method, "notifications/resources/updated");
    if notification.params.is_some() {
        assert_eq!(text(param(&notification, "uri")), Some("file:///test.txt"));
    } else {
        panic!("Expected params");
    }
}

#[test]
fn test_build_tool_list_changed_notification() {
    let notification = build_tool_list_changed_notification();
    assert_eq!(notification.method, "notifications/tools/list_changed");
    assert!(notification.params.is_none());
}

#[test]
fn test_lifecycle_constants_and_types() {
    // The lifecycle states are reachable from the crate root.
    let _ = prism_mcp_rs::server::ServerState::Uninitialized;
}

#[test]
fn require_non_empty_string_names_the_field() {
    match require_non_empty_string("", "Tool name") {
        Err(McpError::Validation(m)) => assert_eq!(m, "Tool name cannot be empty"),
        other => panic!("unexpected {:?}", other),
    }
}

#[test]
fn uri_format_messages() {
    match validate_uri_format("") {
        Err(McpError::Validation(m)) => assert_eq!(m, "URI cannot be empty"),
        other => panic!("unexpected {:?}", other),
    }
    match validate_uri_format("relative/path") {
        Err(McpError::Validation(m)) => assert_eq!(m, "URI must have a scheme or be an absolute path"),
        other => panic!("unexpected {:?}", other),
    }
}

#[test]
fn protocol_versions_known() {
    for v in ["2024-11-05", "2025-03-26", "2025-06-18", "2025-11-25", "2026-07-28"] {
        assert!(validate_protocol_version(v));
    }
    assert!(!validate_protocol_version(""));
    assert!(!validate_protocol_version("2025-06-18 "));
}

#[test]
fn notification_builders_without_progress() {
    let n = tools_list_changed().unwrap();
    assert_eq!(n.method, "notifications/tools/list_changed");
    assert_eq!(n.params, Some(JsonValue::Object(vec![])));
    let n = resources_list_changed().unwrap();
    assert_eq!(n.method, "notifications/resources/list_changed");
    let n = prompts_list_changed().unwrap();
    assert_eq!(n.method, "notifications/prompts/list_changed");
    let n = resource_updated("file:///test".to_string()).unwrap();
    assert_eq!(n.method, "notifications/resources/updated");
    assert_eq!(text(param(&n, "uri")), Some("file:///test"));
}

#[test]
fn log_message_carries_level_logger_and_data() {
    let data = JsonValue::Object(vec![("message".to_string(), JsonValue::Str("test log".to_string()))]);
    let n = log_message(LoggingLevel::Info, Some("test".to_string()), data).unwrap();
    assert_eq!(n.jsonrpc, "2.0");
    assert_eq!(n.method, "notifications/message");
    assert_eq!(text(param(&n, "level")), Some("info"));
    assert_eq!(text(param(&n, "logger")), Some("test"));
    let d = param(&n, "data").unwrap();
    assert_eq!(text(d.get("message")), Some("test log"));

    let n = log_message(LoggingLevel::Emergency, None, JsonValue::Null).unwrap();
    assert_eq!(text(param(&n, "level")), Some("emergency"));
    assert!(param(&n, "logger").is_none());
    assert_eq!(param(&n, "data"), Some(&JsonValue::Null));
}

fn obj(entries: Vec<(&str, JsonValue)>) -> JsonValue {
    JsonValue::Object(entries.into_iter().map(|(k, v)| (k.to_string(), v)).collect())
}

#[test]
fn encoded_messages_read_back() {
    let request = JsonRpcRequest {
        jsonrpc: "2.0".to_string(),
        id: JsonValue::Int(7),
        method: "tools/call".to_string(),
        params: Some(obj(vec![("name", JsonValue::Str("echo".to_string()))])),
    };
    let doc = message_json(JsonRpcMessage::Request(request.clone()));
    assert_eq!(doc.get("method"), Some(&JsonValue::Str("tools/call".to_string())));
    assert_eq!(doc.get("result"), None);
    match decode_message(doc) {
        Some(JsonRpcMessage::Request(r)) => {
            assert_eq!(r.jsonrpc, "2.0");
            assert_eq!(r.id, JsonValue::Int(7));
            assert_eq!(r.method, "tools/call");
            assert_eq!(r.params, request.params);
        }
        other => panic!("not a request: {:?}", other),
    }

    let note = JsonRpcNotification { jsonrpc: "2.0".to_string(), method: "notifications/initialized".to_string(), params: None };
    let doc = message_json(JsonRpcMessage::Notification(note));
    assert_eq!(doc.get("id"), None);
    assert_eq!(doc.get("params"), None);
    match decode_message(doc) {
        Some(JsonRpcMessage::Notification(n)) => {
            assert_eq!(n.method, "notifications/initialized");
            assert_eq!(n.params, None);
        }
        other => panic!("not a notification: {:?}", other),
    }

    let response = JsonRpcResponse { jsonrpc: "2.0".to_string(), id: JsonValue::Str("a".to_string()), result: Some(obj(vec![])) };
    match decode_message(message_json(JsonRpcMessage::Response(response))) {
        Some(JsonRpcMessage::Response(r)) => {
            assert_eq!(r.id, JsonValue::Str("a".to_string()));
            assert_eq!(r.result, Some(obj(vec![])));
        }
        other => panic!("not a response: {:?}", other),
    }

    let error = JsonRpcError {
        jsonrpc: "2.0".to_string(),
        id: JsonValue::Int(3),
        error: ErrorObject { code: -32601, message: "Method not found".to_string(), data: Some(JsonValue::Bool(true)) },
    };
    let doc = message_json(JsonRpcMessage::Error(error));
    let inner = doc.get("error").unwrap();
    assert_eq!(inner.get("code"), Some(&JsonValue::Int(-32601)));
    assert_eq!(inner.get("message"), Some(&JsonValue::Str("Method not found".to_string())));
    match decode_message(doc) {
        Some(JsonRpcMessage::Error(e)) => {
            assert_eq!(e.id, JsonValue::Int(3));
            assert_eq!(e.error.code, -32601);
            assert_eq!(e.error.message, "Method not found");
            assert_eq!(e.error.data, Some(JsonValue::Bool(true)));
        }
        other => panic!("not an error reply: {:?}", other),
    }
}

#[test]
fn null_params_read_back_absent() {
    let request = JsonRpcRequest { jsonrpc: "2.0".to_string(), id: JsonValue::Int(1), method: "ping".to_string(), params: Some(JsonValue::Null) };
    let doc = message_json(JsonRpcMessage::Request(request));
    assert_eq!(doc.get("params"), Some(&JsonValue::Null));
    match decode_message(doc) {
        Some(JsonRpcMessage::Request(r)) => assert_eq!(r.params, None),
        other => panic!("not a request: {:?}", other),
    }
}

#[test]
fn uri_rejections_say_why() {
    match validate_uri_format("") {
        Err(McpError::Validation(m)) => assert_eq!(m, "URI cannot be empty"),
        other => panic!("unexpected {:?}", other),
    }
    match validate_uri_format("relative/path") {
        Err(McpError::Validation(m)) => assert_eq!(m, "URI must have a scheme or be an absolute path"),
        other => panic!("unexpected {:?}", other),
    }
}
