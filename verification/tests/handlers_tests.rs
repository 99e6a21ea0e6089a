use prism_mcp_rs::error::McpError;
use prism_mcp_rs::handlers::{
    InitializeHandler, LoggingHandler, PingHandler, PromptHandler, ResourceHandler, SamplingHandler, ToolHandler,
};
use prism_mcp_rs::json::JsonValue;
use prism_mcp_rs::protocol::{
    Implementation, LoggingCapability, ServerCapabilities, ToolsCapability, LATEST_PROTOCOL_VERSION,
};
use prism_mcp_rs::registry::Registry;
use prism_mcp_rs::server::{Prompt, PromptArgument, PromptInfo, Resource, ResourceInfo, Tool};

fn s(v: &str) -> JsonValue {
    JsonValue::Str(v.to_string())
}

fn obj(es: Vec<(&str, JsonValue)>) -> JsonValue {
    JsonValue::Object(es.into_iter().map(|(k, v)| (k.to_string(), v)).collect())
}

fn init_params(version: &str, name: &str, client_version: &str) -> JsonValue {
    obj(vec![
        ("clientInfo", obj(vec![("name", s(name)), ("version", s(client_version))])),
        ("capabilities", obj(vec![])),
        ("protocolVersion", s(version)),
    ])
}

fn ok<T>(r: Result<T, McpError>) -> T {
    match r {
        Ok(v) => v,
        Err(e) => panic!("unexpected error {:?}", e),
    }
}

fn err<T>(r: Result<T, McpError>) -> McpError {
    match r {
        Ok(_) => panic!("expected an error"),
        Err(e) => e,
    }
}

fn validation<T>(r: Result<T, McpError>) -> String {
    match err(r) {
        McpError::Validation(m) => m,
        other => panic!("expected a validation error, got {:?}", other),
    }
}

#[test]
fn test_initialize_handler() {
    let server_info = Implementation::new("test-server".to_string(), "1.0.0".to_string());
    let capabilities = ServerCapabilities::empty();
    let result = InitializeHandler::handle(
        &server_info,
        &capabilities,
        Some(init_params(LATEST_PROTOCOL_VERSION, "test-client", "1.0.0")),
    );
    assert!(result.is_ok());
    let init_result = match result {
        Ok(r) => r,
        Err(e) => panic!("{:?}", e),
    };
    assert_eq!(init_result.server_info.name, "test-server");
    assert_eq!(init_result.server_info.version, "1.0.0");
    assert_eq!(init_result.protocol_version, LATEST_PROTOCOL_VERSION);
}

#[test]
fn initialize_copies_capabilities() {
    let server_info = Implementation::new("srv".to_string(), "2".to_string());
    let mut capabilities = ServerCapabilities::empty();
    capabilities.tools = Some(ToolsCapability { list_changed: Some(true) });
    capabilities.logging = Some(LoggingCapability {});
    capabilities.experimental = Some(vec![("beta".to_string(), JsonValue::Bool(true))]);
    let r = match InitializeHandler::handle(&server_info, &capabilities, Some(init_params("2025-06-18", "c", "1"))) {
        Ok(r) => r,
        Err(e) => panic!("{:?}", e),
    };
    assert_eq!(r.capabilities.tools.unwrap().list_changed, Some(true));
    assert!(r.capabilities.logging.is_some());
    assert!(r.capabilities.prompts.is_none());
    let exp = r.capabilities.experimental.unwrap();
    assert_eq!(exp.len(), 1);
    assert_eq!(exp[0].0, "beta");
    assert_eq!(exp[0].1, JsonValue::Bool(true));
}

#[test]
fn initialize_refusals() {
    let info = Implementation::new("srv".to_string(), "1".to_string());
    let caps = ServerCapabilities::empty();
    assert_eq!(validation(InitializeHandler::handle(&info, &caps, None)), "Missing initialize parameters");
    assert_eq!(
        validation(InitializeHandler::handle(&info, &caps, Some(obj(vec![("protocolVersion", s("2025-06-18"))])))),
        "Invalid initialize params: expected protocolVersion, capabilities and clientInfo"
    );
    match err(InitializeHandler::handle(&info, &caps, Some(init_params("2024-11-05", "c", "1")))) {
        McpError::Protocol(m) => assert_eq!(m, "Unsupported protocol version: 2024-11-05. Expected: 2025-06-18"),
        other => panic!("unexpected {:?}", other),
    }
    assert_eq!(
        validation(InitializeHandler::handle(&info, &caps, Some(init_params("2025-06-18", "", "1")))),
        "Client name cannot be empty"
    );
    assert_eq!(
        validation(InitializeHandler::handle(&info, &caps, Some(init_params("2025-06-18", "c", "")))),
        "Client version cannot be empty"
    );
}

#[test]
fn test_ping_handler() {
    assert!(PingHandler::handle(None).is_ok());
    assert!(PingHandler::handle(Some(obj(vec![]))).is_ok());
}

#[test]
fn sampling_is_refused() {
    match SamplingHandler::handle_create_message(None) {
        Err(McpError::Protocol(m)) => assert_eq!(m, "Sampling not implemented on server side"),
        other => panic!("unexpected {:?}", other),
    }
}

#[test]
fn logging_levels() {
    assert!(LoggingHandler::handle_set_level(Some(obj(vec![("level", s("warning"))]))).is_ok());
    assert_eq!(validation(LoggingHandler::handle_set_level(None)), "Missing logging level parameters");
    assert_eq!(
        validation(LoggingHandler::handle_set_level(Some(obj(vec![("level", s("loud"))])))),
        "Invalid set logging level params: unknown level"
    );
    assert_eq!(
        validation(LoggingHandler::handle_set_level(Some(obj(vec![])))),
        "Invalid set logging level params: expected level"
    );
}

fn tools() -> Registry<Tool> {
    let mut r = Registry::new();
    r.insert("echo".to_string(), Tool::new("echo".to_string(), Some("Echoes".to_string()), obj(vec![])));
    let mut off = Tool::new("off".to_string(), None, obj(vec![]));
    off.enabled = false;
    r.insert("off".to_string(), off);
    r.insert("sum".to_string(), Tool::new("sum".to_string(), None, obj(vec![("type", s("object"))])));
    r
}

#[test]
fn tool_list_keeps_enabled_tools_in_order() {
    let r = ok(ToolHandler::handle_list(&tools(), None));
    let names: Vec<&str> = r.tools.iter().map(|t| t.name.as_str()).collect();
    assert_eq!(names, vec!["echo", "sum"]);
    assert_eq!(r.tools[0].description.as_deref(), Some("Echoes"));
    assert_eq!(r.tools[1].input_schema, obj(vec![("type", s("object"))]));
    assert!(r.next_cursor.is_none());

    assert!(ToolHandler::handle_list(&tools(), Some(obj(vec![("cursor", s("abc"))]))).is_ok());
    assert!(ToolHandler::handle_list(&tools(), Some(obj(vec![("cursor", JsonValue::Null)]))).is_ok());
    assert_eq!(
        validation(ToolHandler::handle_list(&tools(), Some(JsonValue::Int(3)))),
        "Invalid list tools params: expected an object with an optional cursor"
    );
    assert!(ToolHandler::handle_list(&tools(), Some(obj(vec![("cursor", JsonValue::Int(1))]))).is_err());
}

#[test]
fn tool_call_checks() {
    let t = tools();
    let call = ok(ToolHandler::handle_call(
        &t,
        Some(obj(vec![("name", s("echo")), ("arguments", obj(vec![("text", s("hi"))]))])),
    ));
    assert_eq!(call.name, "echo");
    assert_eq!(call.arguments, vec![("text".to_string(), s("hi"))]);

    let call = ok(ToolHandler::handle_call(&t, Some(obj(vec![("name", s("sum"))]))));
    assert!(call.arguments.is_empty());

    assert_eq!(validation(ToolHandler::handle_call(&t, None)), "Missing tool call parameters");
    assert_eq!(
        validation(ToolHandler::handle_call(&t, Some(obj(vec![("arguments", obj(vec![]))])))),
        "Invalid call tool params: expected a name and an arguments object"
    );
    assert_eq!(
        validation(ToolHandler::handle_call(&t, Some(obj(vec![("name", s("echo")), ("arguments", s("x"))])))),
        "Invalid call tool params: expected a name and an arguments object"
    );
    assert_eq!(validation(ToolHandler::handle_call(&t, Some(obj(vec![("name", s(""))])))), "Tool name cannot be empty");
    match err(ToolHandler::handle_call(&t, Some(obj(vec![("name", s("missing"))])))) {
        McpError::ToolNotFound(m) => assert_eq!(m, "missing"),
        other => panic!("unexpected {:?}", other),
    }
    match err(ToolHandler::handle_call(&t, Some(obj(vec![("name", s("off"))])))) {
        McpError::ToolNotFound(m) => assert_eq!(m, "Tool 'off' is disabled"),
        other => panic!("unexpected {:?}", other),
    }
}

fn resources() -> Registry<Resource> {
    let mut r = Registry::new();
    r.insert(
        "file:///a.txt".to_string(),
        Resource {
            info: ResourceInfo {
                uri: "file:///a.txt".to_string(),
                name: "a".to_string(),
                description: None,
                mime_type: Some("text/plain".to_string()),
            },
        },
    );
    r
}

#[test]
fn resource_requests() {
    let r = resources();
    let list = ok(ResourceHandler::handle_list(&r, None));
    assert_eq!(list.resources.len(), 1);
    assert_eq!(list.resources[0].uri, "file:///a.txt");
    assert_eq!(list.resources[0].mime_type.as_deref(), Some("text/plain"));

    let uri = obj(vec![("uri", s("file:///a.txt"))]);
    assert_eq!(ok(ResourceHandler::handle_read(&r, Some(uri))), "file:///a.txt");
    assert_eq!(validation(ResourceHandler::handle_read(&r, None)), "Missing resource read parameters");
    assert_eq!(
        validation(ResourceHandler::handle_subscribe(&r, None)),
        "Missing resource subscribe parameters"
    );
    assert_eq!(
        validation(ResourceHandler::handle_unsubscribe(&r, Some(obj(vec![])))),
        "Invalid unsubscribe resource params: expected a uri"
    );
    assert_eq!(
        validation(ResourceHandler::handle_read(&r, Some(obj(vec![("uri", s(""))])))),
        "Resource URI cannot be empty"
    );
    match ResourceHandler::handle_subscribe(&r, Some(obj(vec![("uri", s("file:///b"))]))) {
        Err(McpError::ResourceNotFound(m)) => assert_eq!(m, "file:///b"),
        other => panic!("unexpected {:?}", other),
    }
}

fn prompts() -> Registry<Prompt> {
    let mut r = Registry::new();
    r.insert(
        "greet".to_string(),
        Prompt {
            info: PromptInfo {
                name: "greet".to_string(),
                description: Some("Greets".to_string()),
                arguments: Some(vec![PromptArgument {
                    name: "who".to_string(),
                    description: None,
                    required: Some(true),
                }]),
            },
        },
    );
    r
}

#[test]
fn prompt_requests() {
    let p = prompts();
    let list = ok(PromptHandler::handle_list(&p, None));
    assert_eq!(list.prompts.len(), 1);
    assert_eq!(list.prompts[0].name, "greet");
    let args = list.prompts[0].arguments.as_ref().unwrap();
    assert_eq!(args[0].name, "who");
    assert_eq!(args[0].required, Some(true));
    assert_eq!(
        validation(PromptHandler::handle_list(&p, Some(JsonValue::Null))),
        "Invalid list prompts params: expected an object with an optional cursor"
    );

    let call = ok(PromptHandler::handle_get(
        &p,
        Some(obj(vec![("name", s("greet")), ("arguments", obj(vec![("who", s("Ada"))]))])),
    ));
    assert_eq!(call.name, "greet");
    assert_eq!(call.arguments, vec![("who".to_string(), "Ada".to_string())]);
    assert_eq!(validation(PromptHandler::handle_get(&p, None)), "Missing prompt get parameters");
    assert_eq!(
        validation(PromptHandler::handle_get(
            &p,
            Some(obj(vec![("name", s("greet")), ("arguments", obj(vec![("who", JsonValue::Int(1))]))]))
        )),
        "Invalid get prompt params: expected a name and string arguments"
    );
    assert_eq!(validation(PromptHandler::handle_get(&p, Some(obj(vec![("name", s(""))])))), "Prompt name cannot be empty");
    match err(PromptHandler::handle_get(&p, Some(obj(vec![("name", s("nope"))])))) {
        McpError::PromptNotFound(m) => assert_eq!(m, "nope"),
        other => panic!("unexpected {:?}", other),
    }
}
