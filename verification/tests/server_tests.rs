use prism_mcp_rs::error::McpError;
use prism_mcp_rs::json::JsonValue;
use prism_mcp_rs::protocol::JsonRpcRequest;
use prism_mcp_rs::server::{
    reply_for, route_request, McpServer, PromptInfo, RequestRoute, ResourceInfo, ServerBuilder, ServerBuilderError,
    ServerState,
};

#[test]
fn test_builder_basic() {
    let server = ServerBuilder::new().name("test-server".to_string()).version("1.0.0".to_string()).build();
    assert_eq!(server.name(), "test-server");
    assert_eq!(server.version(), "1.0.0");
}

#[test]
fn test_builder_with_capabilities() {
    let server = ServerBuilder::new()
        .name("test-server".to_string())
        .version("1.0.0".to_string())
        .with_prompts()
        .with_resources()
        .with_tools()
        .with_sampling()
        .with_logging()
        .with_completions()
        .build();
    let caps = server.capabilities();
    assert!(caps.prompts.is_some());
    assert!(caps.resources.is_some());
    assert!(caps.tools.is_some());
    assert!(caps.sampling.is_some());
    assert!(caps.logging.is_some());
    assert!(caps.completions.is_some());
}

#[test]
fn test_builder_with_config() {
    let server = ServerBuilder::new()
        .name("test-server".to_string())
        .version("1.0.0".to_string())
        .max_concurrent_requests(50)
        .request_timeout_ms(60000)
        .validate_requests(false)
        .enable_logging(false)
        .build();
    let config = server.config();
    assert_eq!(config.max_concurrent_requests, 50);
    assert_eq!(config.request_timeout_ms, 60000);
    assert!(!config.validate_requests);
    assert!(!config.enable_logging);
}

#[test]
fn test_builder_with_experimental() {
    let server = ServerBuilder::new()
        .name("test-server".to_string())
        .version("1.0.0".to_string())
        .with_experimental("custom_feature".to_string(), JsonValue::Bool(true))
        .with_experimental(
            "beta_mode".to_string(),
            JsonValue::Object(vec![("enabled".to_string(), JsonValue::Bool(true))]),
        )
        .build();
    let experimental = server.capabilities().experimental.as_ref().unwrap();
    assert_eq!(experimental.len(), 2);
    assert_eq!(experimental[0], ("custom_feature".to_string(), JsonValue::Bool(true)));
    assert_eq!(experimental[1].0, "beta_mode");
}

#[test]
fn experimental_keys_are_replaced() {
    let server = ServerBuilder::new()
        .name("s".to_string())
        .version("1".to_string())
        .with_experimental("k".to_string(), JsonValue::Int(1))
        .with_experimental("k".to_string(), JsonValue::Int(2))
        .build();
    let experimental = server.capabilities().experimental.as_ref().unwrap();
    assert_eq!(experimental, &vec![("k".to_string(), JsonValue::Int(2))]);
}

#[test]
fn simple_tools_accept_any_object() {
    let mut server = McpServer::new("srv".to_string(), "1".to_string());
    assert!(server.add_simple_tool("echo", "Echoes").is_ok());
    let tools = server.list_tools();
    assert_eq!(tools[0].description.as_deref(), Some("Echoes"));
    let schema = &tools[0].input_schema;
    assert_eq!(schema.get("type"), Some(&JsonValue::Str("object".to_string())));
    assert_eq!(schema.get("additionalProperties"), Some(&JsonValue::Bool(true)));
    assert!(server.add_simple_tool("", "x").is_err());
}

#[test]
fn test_try_build_success() {
    let result = ServerBuilder::new().name("test-server".to_string()).version("1.0.0".to_string()).try_build();
    assert!(result.is_ok());
}

#[test]
fn test_try_build_missing_name() {
    let result = ServerBuilder::new().version("1.0.0".to_string()).try_build();
    assert!(matches!(result, Err(ServerBuilderError::MissingName)));
}

#[test]
fn test_try_build_missing_version() {
    let result = ServerBuilder::new().name("test-server".to_string()).try_build();
    assert!(matches!(result, Err(ServerBuilderError::MissingVersion)));
}

#[test]
fn builder_error_messages() {
    assert_eq!(ServerBuilderError::MissingName.message(), "Server name is required");
    assert_eq!(ServerBuilderError::MissingVersion.message(), "Server version is required");
}

fn request(method: &str) -> JsonRpcRequest {
    JsonRpcRequest { jsonrpc: "2.0".to_string(), id: JsonValue::Int(1), method: method.to_string(), params: None }
}

#[test]
fn a_transport_that_fails_to_start_leaves_the_server_initializing() {
    let mut server = McpServer::new("srv".to_string(), "1".to_string());
    assert!(server.begin_start().is_ok());
    match server.finish_start(Err(McpError::Transport("bind failed".to_string()))) {
        Err(McpError::Transport(m)) => assert_eq!(m, "bind failed"),
        other => panic!("unexpected {:?}", other),
    }
    assert_eq!(server.state(), ServerState::Initializing);
    match server.begin_start() {
        Err(McpError::Protocol(m)) => assert_eq!(m, "Server is already started"),
        other => panic!("unexpected {:?}", other),
    }
}

#[test]
fn lifecycle_runs_in_order() {
    let mut server = McpServer::new("srv".to_string(), "1".to_string());
    assert_eq!(server.state(), ServerState::Uninitialized);
    assert!(server.begin_start().is_ok());
    assert_eq!(server.state(), ServerState::Initializing);
    match server.begin_start() {
        Err(McpError::Protocol(m)) => assert_eq!(m, "Server is already started"),
        other => panic!("unexpected {:?}", other),
    }
    assert!(server.finish_start(Ok(())).is_ok());
    assert!(server.is_running());
    assert!(server.begin_stop().is_ok());
    server.finish_stop();
    assert!(server.is_stopped());
}

#[test]
fn requests_are_routed_by_method() {
    assert_eq!(route_request("tools/call"), RequestRoute::ToolsCall);
    assert_eq!(route_request("rpc.discover"), RequestRoute::RpcDiscover);
    assert_eq!(route_request("nope"), RequestRoute::Unknown);
    let server = McpServer::new("srv".to_string(), "1".to_string());
    assert!(matches!(server.check_request(&request("ping")), Ok(RequestRoute::Ping)));
    match server.check_request(&request("frobnicate")) {
        Err(McpError::Protocol(m)) => assert_eq!(m, "JSON-RPC error -32603: Unknown method: frobnicate"),
        other => panic!("unexpected {:?}", other),
    }
    let mut bad = request("ping");
    bad.jsonrpc = "1.0".to_string();
    assert!(matches!(server.check_request(&bad), Err(McpError::Validation(_))));
}

#[test]
fn handler_failures_become_protocol_errors() {
    match reply_for(JsonValue::Int(3), Err(McpError::ToolNotFound("x".to_string()))) {
        Err(McpError::Protocol(m)) => assert_eq!(m, "JSON-RPC error -32001: x"),
        other => panic!("unexpected {:?}", other),
    }
    match reply_for(JsonValue::Int(3), Ok(JsonValue::Bool(true))) {
        Ok(r) => {
            assert_eq!(r.id, JsonValue::Int(3));
            assert_eq!(r.result, Some(JsonValue::Bool(true)));
        }
        Err(e) => panic!("{:?}", e),
    }
}

#[test]
fn registries_add_replace_and_remove() {
    let mut server = McpServer::new("srv".to_string(), "1".to_string());
    assert!(server.add_tool("echo".to_string(), None, JsonValue::Object(vec![])).is_ok());
    assert!(server.add_tool("".to_string(), None, JsonValue::Null).is_err());
    assert_eq!(server.tool_count(), 1);
    assert!(server.check_tool_call("echo").is_ok());
    match server.check_tool_call("other") {
        Err(McpError::ToolNotFound(m)) => assert_eq!(m, "other"),
        other => panic!("unexpected {:?}", other),
    }
    assert!(server.remove_tool("echo"));
    assert!(!server.remove_tool("echo"));
    assert!(!server.has_tools());

    let info = ResourceInfo { uri: "file:///x".to_string(), name: "x".to_string(), description: None, mime_type: None };
    assert!(server.add_resource_detailed(info).is_ok());
    assert!(server.has_resource("file:///x"));
    assert!(server.check_resource_read("file:///y").is_err());

    let prompt = PromptInfo { name: "p".to_string(), description: None, arguments: None };
    assert!(server.add_prompt(prompt).is_ok());
    assert_eq!(server.prompt_count(), 1);
    assert_eq!(server.list_prompts()[0].name, "p");
}

#[test]
fn test_duplicate_tool_name() {
    let mut server = McpServer::new("test-server".to_string(), "1.0.0".to_string());
    assert!(server.add_tool("duplicate".to_string(), Some("First tool".to_string()), JsonValue::Object(vec![])).is_ok());
    let result = server.add_tool("duplicate".to_string(), Some("Second tool".to_string()), JsonValue::Object(vec![]));
    match result {
        Err(McpError::Validation(m)) => assert_eq!(m, "Tool already registered: duplicate"),
        other => panic!("duplicate accepted: {:?}", other),
    }
    assert_eq!(server.tool_count(), 1);
    let tools = server.list_tools();
    assert_eq!(tools[0].description, Some("First tool".to_string()));
    assert!(server.add_simple_tool("duplicate", "Third").is_err());
}

fn obj(entries: Vec<(&str, JsonValue)>) -> JsonValue {
    JsonValue::Object(entries.into_iter().map(|(k, v)| (k.to_string(), v)).collect())
}

#[test]
fn tool_schemas_are_rebuilt_as_object_schemas() {
    let mut server = McpServer::new("test-server".to_string(), "1.0.0".to_string());
    let schema = obj(vec![
        ("type", JsonValue::Str("array".to_string())),
        ("properties", obj(vec![("name", obj(vec![("type", JsonValue::Str("string".to_string()))]))])),
        ("required", JsonValue::Array(vec![JsonValue::Str("name".to_string()), JsonValue::Int(3)])),
        ("title", JsonValue::Str("T".to_string())),
    ]);
    server.add_tool("test_tool".to_string(), Some("A test tool".to_string()), schema).unwrap();
    let tools = server.list_tools();
    assert_eq!(tools.len(), 1);
    let s = &tools[0].input_schema;
    assert_eq!(s.get("type"), Some(&JsonValue::Str("object".to_string())));
    assert_eq!(s.get("properties"), Some(&obj(vec![("name", obj(vec![("type", JsonValue::Str("string".to_string()))]))])));
    assert_eq!(s.get("required"), Some(&JsonValue::Array(vec![JsonValue::Str("name".to_string())])));
    assert_eq!(s.get("title"), Some(&JsonValue::Str("T".to_string())));

    server.add_tool("bare".to_string(), None, JsonValue::Null).unwrap();
    let bare = server.tools().get("bare").unwrap();
    assert_eq!(bare.info.input_schema, obj(vec![("type", JsonValue::Str("object".to_string()))]));
}
