use prism_mcp_rs::discovery::DiscoveryHandler;
use prism_mcp_rs::handlers::{ListPromptsResult, ListToolsResult};
use prism_mcp_rs::json::JsonValue;
use prism_mcp_rs::protocol::Implementation;
use prism_mcp_rs::results::{
    capabilities_json, completion_json, discover_result_json, initialize_result_json, prompts_list_json, tools_list_json,
};
use prism_mcp_rs::handlers::InitializeResult;
use prism_mcp_rs::server::{McpServer, PromptArgument, PromptInfo, ToolInfo};

fn text(v: Option<&JsonValue>) -> Option<&str> {
    match v {
        Some(JsonValue::Str(s)) => Some(s.as_str()),
        _ => None,
    }
}

fn items(v: Option<&JsonValue>) -> &Vec<JsonValue> {
    match v {
        Some(JsonValue::Array(xs)) => xs,
        other => panic!("not an array: {:?}", other),
    }
}

fn schema() -> JsonValue {
    JsonValue::Object(vec![("type".to_string(), JsonValue::Str("object".to_string()))])
}

#[test]
fn tools_list_carries_each_tool_in_order() {
    let result = ListToolsResult {
        tools: vec![
            ToolInfo { name: "echo".to_string(), description: Some("Echo text".to_string()), input_schema: schema(), output_schema: None },
            ToolInfo { name: "add".to_string(), description: None, input_schema: schema(), output_schema: Some(schema()) },
        ],
        next_cursor: None,
    };
    let v = tools_list_json(&result);
    assert_eq!(v.get("nextCursor"), None);
    let tools = items(v.get("tools"));
    assert_eq!(tools.len(), 2);
    assert_eq!(text(tools[0].get("name")), Some("echo"));
    assert_eq!(text(tools[0].get("description")), Some("Echo text"));
    assert_eq!(tools[0].get("inputSchema"), Some(&schema()));
    assert_eq!(tools[0].get("outputSchema"), None);
    assert_eq!(text(tools[1].get("name")), Some("add"));
    assert_eq!(tools[1].get("description"), None);
    assert_eq!(tools[1].get("outputSchema"), Some(&schema()));
}

#[test]
fn prompts_list_carries_arguments() {
    let result = ListPromptsResult {
        prompts: vec![PromptInfo {
            name: "greet".to_string(),
            description: None,
            arguments: Some(vec![PromptArgument { name: "who".to_string(), description: None, required: Some(true) }]),
        }],
        next_cursor: Some("page-2".to_string()),
    };
    let v = prompts_list_json(&result);
    assert_eq!(text(v.get("nextCursor")), Some("page-2"));
    let prompts = items(v.get("prompts"));
    let args = items(prompts[0].get("arguments"));
    assert_eq!(args.len(), 1);
    assert_eq!(text(args[0].get("name")), Some("who"));
    assert_eq!(args[0].get("required"), Some(&JsonValue::Bool(true)));
    assert_eq!(args[0].get("description"), None);
}

#[test]
fn default_capabilities_are_declared() {
    let server = McpServer::new("srv".to_string(), "1.0.0".to_string());
    let v = capabilities_json(server.capabilities());
    let tools = v.get("tools").unwrap();
    assert_eq!(tools.get("listChanged"), Some(&JsonValue::Bool(true)));
    let resources = v.get("resources").unwrap();
    assert_eq!(resources.get("subscribe"), Some(&JsonValue::Bool(true)));
    assert_eq!(resources.get("listChanged"), Some(&JsonValue::Bool(true)));
    assert_eq!(v.get("completions"), Some(&JsonValue::Object(vec![])));
    assert_eq!(v.get("sampling"), None);
    assert_eq!(v.get("logging"), None);
}

#[test]
fn initialize_result_names_the_server() {
    let server = McpServer::new("srv".to_string(), "1.0.0".to_string());
    let info = server.info();
    let r = InitializeResult {
        protocol_version: "2025-06-18".to_string(),
        capabilities: prism_mcp_rs::protocol::ServerCapabilities::empty(),
        server_info: Implementation::new(info.name.clone(), info.version.clone()),
    };
    let v = initialize_result_json(&r);
    assert_eq!(text(v.get("protocolVersion")), Some("2025-06-18"));
    assert_eq!(v.get("capabilities"), Some(&JsonValue::Object(vec![])));
    let si = v.get("serverInfo").unwrap();
    assert_eq!(text(si.get("name")), Some("srv"));
    assert_eq!(text(si.get("version")), Some("1.0.0"));
}

#[test]
fn completion_values_are_listed() {
    let v = completion_json(vec!["alpha".to_string(), "beta".to_string()]);
    let c = v.get("completion").unwrap();
    let values = items(c.get("values"));
    assert_eq!(values, &vec![JsonValue::Str("alpha".to_string()), JsonValue::Str("beta".to_string())]);
}

#[test]
fn discovery_answer_carries_metadata_and_groups() {
    let handler = DiscoveryHandler::new();
    let server = Implementation::new("test-server".to_string(), "1.0.0".to_string());
    let caps = prism_mcp_rs::protocol::ServerCapabilities::empty();
    let result = handler.handle(&server, &caps, None).unwrap();
    let v = discover_result_json(&result);
    assert_eq!(text(v.get("protocol_version")), Some("2025-06-18"));
    let meta = v.get("metadata").unwrap();
    assert_eq!(text(meta.get("server_name")), Some("test-server"));
    assert_eq!(text(meta.get("server_version")), Some("1.0.0"));
    match v.get("methods") {
        Some(JsonValue::Object(groups)) => {
            assert_eq!(groups.len(), result.methods.len());
            assert!(!groups.is_empty());
            for (g, (name, methods)) in groups.iter().zip(result.methods.iter()) {
                assert_eq!(&g.0, name);
                assert_eq!(items(Some(&g.1)).len(), methods.len());
            }
        }
        other => panic!("methods is not an object: {:?}", other),
    }
    let server_caps = v.get("capabilities").unwrap().get("server").unwrap();
    assert_eq!(server_caps.get("tools"), Some(&JsonValue::Bool(false)));
}
