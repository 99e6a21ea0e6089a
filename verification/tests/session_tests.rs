use prism_mcp_rs::error::McpError;
use prism_mcp_rs::json::JsonValue;
use prism_mcp_rs::protocol::{JsonRpcNotification, ResourcesCapability, ServerCapabilities, ToolsCapability};
use prism_mcp_rs::stdio_session::{classify_client_line, no_handler_error, ClientLine, StdioSession, StdioStep};
use prism_mcp_rs::subscriptions::{accepted_subscription_filter, add_subscription_id, filter_from_json, filter_to_json, SubscriptionFilter};

fn caps() -> ServerCapabilities {
    let mut c = ServerCapabilities::empty();
    c.tools = Some(ToolsCapability { list_changed: Some(true) });
    c.resources = Some(ResourcesCapability { subscribe: Some(true), list_changed: None });
    c
}

const LISTEN: &str = r#"{"jsonrpc":"2.0","id":"sub-1","method":"subscriptions/listen","params":{"_meta":{"io.modelcontextprotocol/protocolVersion":"2026-07-28"},"notifications":{"toolsListChanged":true,"promptsListChanged":true,"resourceSubscriptions":["file:///a"]}}}"#;

fn meta_id(n: &JsonRpcNotification) -> Option<&JsonValue> {
    n.params.as_ref()?.get("_meta")?.get("io.modelcontextprotocol/subscriptionId")
}

#[test]
fn listen_opens_a_narrowed_subscription() {
    let mut s = StdioSession::new(caps());
    match s.on_line(LISTEN) {
        StdioStep::Notify(ack) => {
            assert_eq!(ack.method, "notifications/subscriptions/acknowledged");
            assert_eq!(meta_id(&ack), Some(&JsonValue::Str("sub-1".to_string())));
            let f = filter_from_json(ack.params.as_ref().unwrap().get("notifications").unwrap()).unwrap();
            assert_eq!(f.tools_list_changed, Some(true));
            // prompts are not offered by the server, so the request is narrowed.
            assert_eq!(f.prompts_list_changed, None);
            assert_eq!(f.resource_subscriptions, vec!["file:///a".to_string()]);
        }
        _ => panic!("expected an acknowledgement"),
    }
    assert_eq!(s.subscription_count(), 1);

    let n = JsonRpcNotification::new("notifications/tools/list_changed".to_string(), None);
    let out = s.fan_out(&n);
    assert_eq!(out.len(), 1);
    assert_eq!(meta_id(&out[0].1), Some(&JsonValue::Str("sub-1".to_string())));
    let prompts = JsonRpcNotification::new("notifications/prompts/list_changed".to_string(), None);
    assert!(s.fan_out(&prompts).is_empty());

    let cancel = r#"{"jsonrpc":"2.0","method":"notifications/cancelled","params":{"requestId":"sub-1"}}"#;
    match s.on_line(cancel) {
        StdioStep::Respond(resp) => {
            assert_eq!(resp.id, JsonValue::Str("sub-1".to_string()));
            let result = resp.result.unwrap();
            assert_eq!(result.get("resultType"), Some(&JsonValue::Str("complete".to_string())));
        }
        _ => panic!("expected the completion"),
    }
    assert_eq!(s.subscription_count(), 0);
}

#[test]
fn without_subscriptions_notifications_go_out_as_they_are() {
    let s = StdioSession::new(caps());
    let n = JsonRpcNotification::new("notifications/tools/list_changed".to_string(), None);
    let out = s.outgoing(&n);
    assert_eq!(out.len(), 1);
    assert_eq!(out[0].method, "notifications/tools/list_changed");
    assert!(out[0].params.is_none());
    assert!(s.fan_out(&n).is_empty());
}

#[test]
fn other_lines() {
    let mut s = StdioSession::new(caps());
    assert!(matches!(s.on_line("   "), StdioStep::Skip));
    assert!(matches!(s.on_line("not json"), StdioStep::Skip));
    match s.on_line(r#"{"jsonrpc":"2.0","id":1,"method":"ping"}"#) {
        StdioStep::Handle(req) => assert_eq!(req.method, "ping"),
        _ => panic!("expected a request to handle"),
    }
    let old_style = r#"{"jsonrpc":"2.0","id":2,"method":"subscriptions/listen","params":{"notifications":{}}}"#;
    match s.on_line(old_style) {
        StdioStep::Stop(McpError::InvalidParams(m)) => assert_eq!(m, "subscriptions/listen requires modern metadata"),
        _ => panic!("expected a refusal"),
    }
    match no_handler_error("tools/call") {
        McpError::Protocol(m) => assert_eq!(m, "Method 'tools/call' not found"),
        other => panic!("unexpected {:?}", other),
    }
}

#[test]
fn client_lines_are_classified() {
    match classify_client_line(r#"{"jsonrpc":"2.0","id":4,"result":{"x":1}}"#) {
        ClientLine::Response(r) => assert_eq!(r.id, JsonValue::Int(4)),
        _ => panic!("expected a response"),
    }
    match classify_client_line(r#"{"jsonrpc":"2.0","id":5,"error":{"code":-32010,"message":"no"}}"#) {
        ClientLine::Failure { id, error: McpError::Protocol(m) } => {
            assert_eq!(id, JsonValue::Int(5));
            assert_eq!(m, "JSON-RPC error -32010: no");
        }
        _ => panic!("expected a failure"),
    }
    let tagged = r#"{"jsonrpc":"2.0","method":"notifications/tools/list_changed","params":{"_meta":{"io.modelcontextprotocol/subscriptionId":7}}}"#;
    match classify_client_line(tagged) {
        ClientLine::Notification { notification, subscription } => {
            assert_eq!(notification.method, "notifications/tools/list_changed");
            assert_eq!(subscription, Some(JsonValue::Int(7)));
        }
        _ => panic!("expected a notification"),
    }
    assert!(matches!(classify_client_line(""), ClientLine::Ignore));
}

fn filter(tools: bool, uris: &[&str]) -> SubscriptionFilter {
    SubscriptionFilter {
        tools_list_changed: if tools { Some(true) } else { None },
        prompts_list_changed: None,
        resources_list_changed: Some(true),
        resource_subscriptions: uris.iter().map(|u| u.to_string()).collect(),
        task_ids: vec![],
    }
}

#[test]
fn filters_match_and_round_trip() {
    let f = filter(true, &["file:///a"]);
    assert!(f.matches("notifications/tools/list_changed", None));
    let p = JsonValue::Object(vec![("uri".to_string(), JsonValue::Str("file:///a".to_string()))]);
    assert!(f.matches("notifications/resources/updated", Some(&p)));
    let q = JsonValue::Object(vec![("uri".to_string(), JsonValue::Str("file:///b".to_string()))]);
    assert!(!f.matches("notifications/resources/updated", Some(&q)));
    assert!(!f.matches("notifications/message", None));

    let back = filter_from_json(&filter_to_json(&f)).unwrap();
    assert_eq!(back.tools_list_changed, f.tools_list_changed);
    assert_eq!(back.resources_list_changed, f.resources_list_changed);
    assert_eq!(back.resource_subscriptions, f.resource_subscriptions);
    assert!(filter_from_json(&JsonValue::Int(1)).is_none());
}

#[test]
fn accepted_filter_never_widens() {
    let requested = filter(true, &["file:///a"]);
    let accepted = accepted_subscription_filter(&requested, &ServerCapabilities::empty());
    assert_eq!(accepted.tools_list_changed, None);
    assert_eq!(accepted.resources_list_changed, None);
    assert!(accepted.resource_subscriptions.is_empty());
    let accepted = accepted_subscription_filter(&requested, &caps());
    assert_eq!(accepted.tools_list_changed, Some(true));
    assert_eq!(accepted.resources_list_changed, None);
}

#[test]
fn subscription_ids_are_added_under_meta() {
    let mut n = JsonRpcNotification::new("notifications/tools/list_changed".to_string(), None);
    add_subscription_id(&mut n, &JsonValue::Str("s".to_string()));
    assert_eq!(meta_id(&n), Some(&JsonValue::Str("s".to_string())));
}

const LISTEN_TASKS: &str = r#"{"jsonrpc":"2.0","id":"sub-2","method":"subscriptions/listen","params":{"_meta":{"io.modelcontextprotocol/protocolVersion":"2026-07-28"},"notifications":{"taskIds":["t-1"]}}}"#;

const LISTEN_TASKS_WITH_EXTENSION: &str = r#"{"jsonrpc":"2.0","id":"sub-3","method":"subscriptions/listen","params":{"_meta":{"io.modelcontextprotocol/protocolVersion":"2026-07-28","io.modelcontextprotocol/clientCapabilities":{"extensions":{"io.modelcontextprotocol/tasks":{}}}},"notifications":{"taskIds":["t-1"]}}}"#;

#[test]
fn task_subscriptions_need_the_clients_tasks_extension() {
    let mut s = StdioSession::new(caps());
    match s.on_line(LISTEN_TASKS) {
        StdioStep::Refuse(e) => {
            assert_eq!(e.id, JsonValue::Str("sub-2".to_string()));
            assert_eq!(e.error.code, -32022);
            let data = e.error.data.expect("the refusal names the capability");
            let required = data.get("requiredCapabilities").unwrap();
            assert!(required.get("extensions").unwrap().get("io.modelcontextprotocol/tasks").is_some());
        }
        _ => panic!("expected a refusal"),
    }
    assert_eq!(s.subscription_count(), 0);
    assert!(matches!(s.on_line(LISTEN_TASKS_WITH_EXTENSION), StdioStep::Notify(_)));
    assert_eq!(s.subscription_count(), 1);
}
