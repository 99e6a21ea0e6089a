use prism_mcp_rs::error::McpError;
use prism_mcp_rs::json::JsonValue;
use prism_mcp_rs::request_ops::{after_attempt, batch_internal_error, batch_parse_error, timeout_error, RetryAction};

#[test]
fn retry_decisions() {
    assert_eq!(after_attempt(0, 3, true), RetryAction::Done);
    assert_eq!(after_attempt(0, 3, false), RetryAction::Retry);
    assert_eq!(after_attempt(2, 3, false), RetryAction::Retry);
    assert_eq!(after_attempt(3, 3, false), RetryAction::GiveUp);
    assert_eq!(after_attempt(0, 0, false), RetryAction::GiveUp);
}

#[test]
fn always_failing_request_is_tried_max_retries_plus_one_times() {
    let max = 4u32;
    let mut attempts = 0u32;
    let mut attempt = 0u32;
    loop {
        attempts += 1;
        match after_attempt(attempt, max, false) {
            RetryAction::Retry => attempt += 1,
            _ => break,
        }
    }
    assert_eq!(attempts, max + 1);
}

#[test]
fn timeouts_report_the_limit() {
    match timeout_error(1500) {
        McpError::Timeout(m) => assert_eq!(m, "Request timed out after 1500ms"),
        other => panic!("unexpected {:?}", other),
    }
}

fn field<'a>(v: &'a JsonValue, k: &str) -> &'a JsonValue {
    v.get(k).expect("field")
}

#[test]
fn batch_error_replies() {
    let r = batch_parse_error("expected value".to_string());
    assert_eq!(field(&r, "jsonrpc"), &JsonValue::Str("2.0".to_string()));
    assert_eq!(field(&r, "id"), &JsonValue::Null);
    let e = field(&r, "error");
    assert_eq!(field(e, "code"), &JsonValue::Int(-32700));
    assert_eq!(field(e, "message"), &JsonValue::Str("expected value".to_string()));

    let r = batch_internal_error(&McpError::ToolNotFound("calc".to_string()));
    let e = field(&r, "error");
    assert_eq!(field(e, "code"), &JsonValue::Int(-32603));
    assert_eq!(field(e, "message"), &JsonValue::Str("calc".to_string()));
}
