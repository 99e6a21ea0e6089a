use prism_mcp_rs::completion::{read_complete_request, ref_type, CompletionReference};
use prism_mcp_rs::error::McpError;
use prism_mcp_rs::json::JsonValue;
use prism_mcp_rs::protocol::{JsonRpcMessage, JsonRpcNotification, JsonRpcResponse};
use prism_mcp_rs::results::task_json;
use prism_mcp_rs::server::{
    client_reply_result, client_request_error, notify_roots_list_changed, McpServer, MessageStep,
};
use prism_mcp_rs::tasks::TaskRegistry;

fn obj(entries: Vec<(&str, JsonValue)>) -> JsonValue {
    JsonValue::Object(entries.into_iter().map(|(k, v)| (k.to_string(), v)).collect())
}

fn s(t: &str) -> JsonValue {
    JsonValue::Str(t.to_string())
}

#[test]
fn completion_params_are_read() {
    let params = obj(vec![
        ("ref", obj(vec![("type", s("ref/prompt")), ("name", s("greet"))])),
        ("argument", obj(vec![("name", s("who")), ("value", s("Al"))])),
    ]);
    let request = read_complete_request(&Some(params)).unwrap();
    match &request.reference {
        CompletionReference::Prompt { name } => assert_eq!(name, "greet"),
        _ => panic!("not a prompt reference"),
    }
    assert_eq!(ref_type(&request.reference), "ref/prompt");
    assert_eq!(request.argument.name, "who");
    assert_eq!(request.argument.value, "Al");

    let resource = obj(vec![
        ("ref", obj(vec![("type", s("ref/resource")), ("uri", s("file:///a"))])),
        ("argument", obj(vec![("name", s("path")), ("value", s(""))])),
    ]);
    let request = read_complete_request(&Some(resource)).unwrap();
    assert_eq!(ref_type(&request.reference), "ref/resource");
}

#[test]
fn completion_params_that_do_not_read_are_refused() {
    match read_complete_request(&None) {
        Err(McpError::Validation(m)) => assert_eq!(m, "Missing completion parameters"),
        _ => panic!("missing params accepted"),
    }
    let unknown = obj(vec![
        ("ref", obj(vec![("type", s("ref/other")), ("name", s("x"))])),
        ("argument", obj(vec![("name", s("a")), ("value", s("b"))])),
    ]);
    match read_complete_request(&Some(unknown)) {
        Err(McpError::Validation(m)) => assert_eq!(m, "Invalid completion parameters"),
        _ => panic!("unknown reference accepted"),
    }
    let no_value = obj(vec![
        ("ref", obj(vec![("type", s("ref/tool")), ("name", s("x"))])),
        ("argument", obj(vec![("name", s("a"))])),
    ]);
    assert!(read_complete_request(&Some(no_value)).is_err());
}

#[test]
fn completion_handlers_are_found_by_reference_kind() {
    let mut server = McpServer::new("srv".to_string(), "1.0.0".to_string());
    let prompt = CompletionReference::Prompt { name: "greet".to_string() };
    let tool = CompletionReference::Tool { name: "add".to_string() };
    assert_eq!(server.completion_handler_for(&prompt), None);
    server.add_completion_handler("ref/prompt".to_string()).unwrap();
    assert_eq!(server.completion_handler_for(&prompt), Some("ref/prompt"));
    assert_eq!(server.completion_handler_for(&tool), None);
    assert!(server.remove_completion_handler("ref/prompt").unwrap());
    assert!(!server.remove_completion_handler("ref/prompt").unwrap());
    assert_eq!(server.completion_handler_for(&prompt), None);
}

#[test]
fn messages_are_stepped() {
    let server = McpServer::new("srv".to_string(), "1.0.0".to_string());
    let note = JsonRpcNotification { jsonrpc: "2.0".to_string(), method: "initialized".to_string(), params: None };
    assert!(server.handle_notification(&note).is_ok());
    match server.process_message(JsonRpcMessage::Notification(note)) {
        MessageStep::Answer(JsonRpcMessage::Response(r)) => {
            assert_eq!(r.id, JsonValue::Null);
            assert_eq!(r.result, Some(JsonValue::Null));
        }
        _ => panic!("a notification is answered with an empty response"),
    }
    let reply = JsonRpcResponse { jsonrpc: "2.0".to_string(), id: JsonValue::Int(4), result: None };
    match server.process_message(JsonRpcMessage::Response(reply)) {
        MessageStep::Answer(JsonRpcMessage::Response(r)) => assert_eq!(r.id, JsonValue::Int(4)),
        _ => panic!("a response is passed back"),
    }
}

#[test]
fn client_requests_take_successive_ids() {
    let mut server = McpServer::new("srv".to_string(), "1.0.0".to_string());
    assert_eq!(server.last_request_id(), 0);
    let a = server.sampling_request(obj(vec![]));
    assert_eq!(a.method, "sampling/createMessage");
    assert_eq!(a.id, JsonValue::Int(1));
    let b = server.roots_request();
    assert_eq!(b.method, "roots/list");
    assert_eq!(b.id, JsonValue::Int(2));
    assert_eq!(b.params, Some(obj(vec![])));
    let c = server.list_roots_request();
    assert_eq!(c.params, None);
    let d = server.elicitation_request(obj(vec![("message", s("name?"))]));
    assert_eq!(d.method, "elicitation/create");
    assert_eq!(d.id, JsonValue::Int(4));
    assert_eq!(server.next_request_id(), 5);
}

#[test]
fn client_request_outcomes() {
    match client_request_error(true) {
        McpError::MethodNotFound(m) => assert_eq!(m, "Bidirectional communication not yet fully implemented"),
        other => panic!("unexpected {:?}", other),
    }
    match client_request_error(false) {
        McpError::Transport(m) => assert_eq!(m, "Not connected"),
        other => panic!("unexpected {:?}", other),
    }
    let with = JsonRpcResponse { jsonrpc: "2.0".to_string(), id: JsonValue::Int(1), result: Some(s("ok")) };
    assert_eq!(client_reply_result(with).unwrap(), s("ok"));
    let without = JsonRpcResponse { jsonrpc: "2.0".to_string(), id: JsonValue::Int(1), result: None };
    match client_reply_result(without) {
        Err(McpError::Protocol(m)) => assert_eq!(m, "No result in response"),
        other => panic!("unexpected {:?}", other),
    }
    let n = notify_roots_list_changed(true).unwrap();
    assert_eq!(n.method, "notifications/roots/list_changed");
    assert_eq!(n.params, None);
    match notify_roots_list_changed(false) {
        Err(McpError::Connection(m)) => assert_eq!(m, "No transport available"),
        other => panic!("unexpected {:?}", other),
    }
}

#[test]
fn task_descriptions_carry_status_and_lifetime() {
    let mut store = TaskRegistry::new(Some(60000), 1000);
    let id = store.create("alice".to_string(), 5);
    let v = task_json(store.task(&id).unwrap());
    assert_eq!(v.get("taskId"), Some(&s(&id)));
    assert_eq!(v.get("status"), Some(&s("working")));
    assert_eq!(v.get("statusMessage"), Some(&s("Task accepted")));
    assert_eq!(v.get("ttl"), Some(&JsonValue::Int(60000)));
    assert_eq!(v.get("pollInterval"), Some(&JsonValue::Int(1000)));
    assert_eq!(v.get("inputRequests"), Some(&obj(vec![])));
    assert_eq!(v.get("result"), None);
    assert!(!store.is_cancelled(&id));
    store.cancel(&id, "alice", 6).unwrap();
    assert!(store.is_cancelled(&id));
    store.finish(&id, Ok(s("done")));
    let v = task_json(store.task(&id).unwrap());
    assert_eq!(v.get("status"), Some(&s("cancelled")));
    assert_eq!(v.get("result"), None);
}
