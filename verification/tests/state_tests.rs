use prism_mcp_rs::discovery::{DiscoveryHandler, MethodRegistry, STANDARD_METHOD_COUNT};
use prism_mcp_rs::error::McpError;
use prism_mcp_rs::json::{json_equal, object_set, take_field, JsonValue};
use prism_mcp_rs::protocol::{Implementation, ServerCapabilities, ToolsCapability};
use prism_mcp_rs::registry::Registry;
use prism_mcp_rs::streams::{Http2StreamManager, StreamState};
use prism_mcp_rs::tasks::{InputPoll, TaskRegistry, TaskStatus};
use prism_mcp_rs::text::{i64_text, u64_text};

#[test]
fn tasks_belong_to_their_owner() {
    let mut reg = TaskRegistry::new(Some(1000), 50);
    let id = reg.create("alice".to_string(), 0);
    assert_eq!(id.len(), 36);
    let t = reg.task(&id).unwrap();
    assert_eq!(t.status, TaskStatus::Working);
    assert_eq!(t.status_message.as_deref(), Some("Task accepted"));
    assert_eq!(t.poll_interval_ms, Some(50));
    assert!(!t.created_at.is_empty());
    assert_eq!(t.task_id, id);
    match reg.check_access(&id, "bob", 10) {
        Err(McpError::InvalidParams(m)) => assert_eq!(m, "Task not found"),
        other => panic!("unexpected {:?}", other),
    }
    assert!(reg.check_access(&id, "alice", 10).is_ok());
    match reg.check_access(&id, "alice", 1000) {
        Err(McpError::InvalidParams(m)) => assert_eq!(m, "Task has expired"),
        other => panic!("unexpected {:?}", other),
    }
    assert!(reg.task(&id).is_none());
}

#[test]
fn task_records_are_reached_by_their_owner_only() {
    let mut reg = TaskRegistry::new(Some(500), 50);
    let id = reg.create("alice".to_string(), 100);
    match reg.record(&id, "mallory", 200) {
        Err(McpError::InvalidParams(m)) => assert_eq!(m, "Task not found"),
        other => panic!("unexpected {:?}", other.map(|r| r.owner.clone())),
    }
    match reg.record("no-such-task", "alice", 200) {
        Err(McpError::InvalidParams(m)) => assert_eq!(m, "Task not found"),
        other => panic!("unexpected {:?}", other.map(|r| r.owner.clone())),
    }
    let rec = reg.record(&id, "alice", 200).unwrap();
    assert_eq!(rec.owner, "alice");
    assert_eq!(rec.expires_at_ms, Some(600));
    let task = reg.get(&id, "alice", 599).unwrap();
    assert_eq!(task.task_id, id);
    assert_eq!(task.status, TaskStatus::Working);
    match reg.get(&id, "alice", 600) {
        Err(McpError::InvalidParams(m)) => assert_eq!(m, "Task has expired"),
        other => panic!("unexpected {:?}", other.map(|t| t.task_id.clone())),
    }
    assert!(reg.task(&id).is_none());
}

#[test]
fn finished_tasks_stay_finished() {
    let mut reg = TaskRegistry::new(None, 1000);
    let id = reg.create("o".to_string(), 0);
    assert!(reg.report_progress(&id, "half way".to_string()).is_ok());
    assert!(reg.finish(&id, Ok(JsonValue::Bool(true))));
    assert_eq!(reg.task(&id).unwrap().status, TaskStatus::Completed);
    match reg.report_progress(&id, "more".to_string()) {
        Err(McpError::Cancelled(m)) => assert_eq!(m, "task is already terminal"),
        other => panic!("unexpected {:?}", other),
    }
    assert!(!reg.finish("missing", Ok(JsonValue::Null)));
}

#[test]
fn cancelled_tasks_end_as_cancelled() {
    let mut reg = TaskRegistry::new(None, 1000);
    let id = reg.create("o".to_string(), 0);
    assert!(reg.cancel(&id, "o", 1).is_ok());
    match reg.poll_input(&id, &vec!["k".to_string()]) {
        InputPoll::Cancelled(McpError::Cancelled(m)) => assert_eq!(m, "task cancellation requested"),
        _ => panic!("expected cancellation"),
    }
    assert!(reg.finish(&id, Ok(JsonValue::Null)));
    let t = reg.task(&id).unwrap();
    assert_eq!(t.status, TaskStatus::Cancelled);
    assert_eq!(t.status_message.as_deref(), Some("Task cancellation accepted"));
}

#[test]
fn input_requests_are_answered_by_update() {
    let mut reg = TaskRegistry::new(None, 1000);
    let id = reg.create("o".to_string(), 0);
    let mut requests = Registry::new();
    requests.insert("q".to_string(), JsonValue::Str("name?".to_string()));
    assert!(reg.require_input(&id, requests, Some("need input".to_string())).is_ok());
    assert_eq!(reg.task(&id).unwrap().status, TaskStatus::InputRequired);
    assert!(matches!(reg.poll_input(&id, &vec!["q".to_string()]), InputPoll::Waiting));
    assert!(reg.update(&id, "o", vec![("q".to_string(), JsonValue::Str("Ada".to_string()))], 5).is_ok());
    match reg.poll_input(&id, &vec!["q".to_string()]) {
        InputPoll::Ready(vals) => assert_eq!(vals, vec![("q".to_string(), JsonValue::Str("Ada".to_string()))]),
        _ => panic!("expected the answers"),
    }
    assert_eq!(reg.task(&id).unwrap().status, TaskStatus::Working);
}

#[test]
fn discovery_lists_the_standard_methods() {
    let registry = MethodRegistry::build_standard_registry();
    assert_eq!(registry.get_methods().len(), STANDARD_METHOD_COUNT);
    let handler = DiscoveryHandler::new();
    let info = Implementation::new("srv".to_string(), "1.0".to_string());
    let mut caps = ServerCapabilities::empty();
    caps.tools = Some(ToolsCapability { list_changed: None });
    let result = match handler.handle(&info, &caps, None) {
        Ok(r) => r,
        Err(e) => panic!("{:?}", e),
    };
    assert_eq!(result.protocol_version, "2025-06-18");
    let total: usize = result.methods.iter().map(|(_, ms)| ms.len()).sum();
    assert_eq!(total, STANDARD_METHOD_COUNT);
    let server = result.capabilities.unwrap().server.unwrap();
    assert!(server.tools);
    assert!(!server.prompts);
    assert_eq!(result.metadata.unwrap().server_name.as_deref(), Some("srv"));

    let params = JsonValue::Object(vec![
        ("filter".to_string(), JsonValue::Object(vec![("category".to_string(), JsonValue::Str("tools".to_string()))])),
        ("include_capabilities".to_string(), JsonValue::Bool(false)),
    ]);
    let result = match handler.handle(&info, &caps, Some(params)) {
        Ok(r) => r,
        Err(e) => panic!("{:?}", e),
    };
    assert!(result.capabilities.is_none());
    assert!(result.methods.iter().all(|(_, ms)| ms.iter().all(|m| m.tags.as_ref().unwrap().iter().any(|t| t == "tools"))));
    match handler.handle(&info, &caps, Some(JsonValue::Int(1))) {
        Err(McpError::Validation(m)) => assert_eq!(m, "Invalid discover params"),
        _ => panic!("expected a refusal"),
    }
}

#[test]
fn http2_streams_are_bounded() {
    let mut m = Http2StreamManager::new(2);
    assert!(m.can_create_stream());
    m.add_stream(1, "POST".to_string(), "/mcp".to_string());
    m.add_stream(3, "POST".to_string(), "/mcp".to_string());
    assert!(!m.can_create_stream());
    m.update_stream_bytes(1, 100, 40);
    m.update_stream_bytes(3, 1, 2);
    assert_eq!(m.get_stream_stats(), (2, 101, 42));
    m.close_stream(1);
    assert_eq!(m.stream_count(), 1);
    assert!(m.can_create_stream());
    let _ = StreamState::Open;
}

#[test]
fn registry_keeps_one_item_per_key() {
    let mut r: Registry<u32> = Registry::new();
    r.insert("a".to_string(), 1);
    r.insert("b".to_string(), 2);
    r.insert("a".to_string(), 3);
    assert_eq!(r.len(), 2);
    assert_eq!(r.get("a"), Some(&3));
    assert_eq!(r.keys(), vec!["a".to_string(), "b".to_string()]);
    assert_eq!(r.take("a"), Some(3));
    assert!(!r.contains("a"));
    assert!(r.remove("b"));
    assert!(r.is_empty());
}

#[test]
fn json_helpers() {
    let mut o = JsonValue::Object(vec![]);
    object_set(&mut o, "k", JsonValue::Int(1));
    object_set(&mut o, "k", JsonValue::Int(2));
    assert_eq!(o, JsonValue::Object(vec![("k".to_string(), JsonValue::Int(2))]));
    assert!(json_equal(&o, &JsonValue::Object(vec![("k".to_string(), JsonValue::Int(2))])));
    assert!(!json_equal(&o, &JsonValue::Null));
    assert_eq!(take_field(o, "k"), Some(JsonValue::Int(2)));
    assert_eq!(i64_text(-42), "-42");
    assert_eq!(u64_text(0), "0");
    assert_eq!(prism_mcp_rs::text::concat("ab", "cd"), "abcd");
}
