//! Decisions of the server's request helpers: when a failed request is
//! tried again, what a timed-out request reports, and the error replies
//! that stand for failed members of a batch.
use vstd::prelude::*;
use vstd::string::StringExecFns;
use crate::error::{McpError, PARSE_ERROR, INTERNAL_ERROR};
use crate::json::JsonValue;
use crate::text::{concat, u64_text, decimal_text};

verus! {

/// What follows an attempt to handle a request.
#[derive(PartialEq, Eq, Structural, Clone, Copy, Debug)]
pub enum RetryAction {
    /// The request succeeded: return its response.
    Done,
    /// Wait the retry delay, then try again.
    Retry,
    /// No attempt is left: return the last error.
    GiveUp,
}

/// After attempt number `attempt` (counted from 0) of at most
/// `max_retries + 1`.
pub open spec fn spec_after_attempt(attempt: u32, max_retries: u32, succeeded: bool) -> RetryAction {
    if succeeded {
        RetryAction::Done
    } else if attempt < max_retries {
        RetryAction::Retry
    } else {
        RetryAction::GiveUp
    }
}

/// What to do after an attempt to handle a request.
pub fn after_attempt(attempt: u32, max_retries: u32, succeeded: bool) -> (r: RetryAction)
    ensures
        r == spec_after_attempt(attempt, max_retries, succeeded),
{
    if succeeded {
        RetryAction::Done
    } else if attempt < max_retries {
        RetryAction::Retry
    } else {
        RetryAction::GiveUp
    }
}

/// The number of attempts made from attempt `from` on, when attempt `i`
/// succeeds exactly when `outcomes[i]` holds (and every attempt past the
/// listed ones fails).
pub open spec fn attempts_from(outcomes: Seq<bool>, from: nat, max_retries: u32) -> nat
    decreases max_retries - from,
{
    if from > max_retries as nat {
        0
    } else {
        let ok = from < outcomes.len() && outcomes[from as int];
        match spec_after_attempt(from as u32, max_retries, ok) {
            RetryAction::Retry => 1 + attempts_from(outcomes, from + 1, max_retries),
            _ => 1,
        }
    }
}

/// A request is handled at most `max_retries + 1` times, and exactly that
/// often when every attempt fails.
pub proof fn retries_are_bounded(outcomes: Seq<bool>, max_retries: u32)
    ensures
        1 <= attempts_from(outcomes, 0, max_retries) <= max_retries as nat + 1,
        (forall|i: int| 0 <= i < outcomes.len() ==> !outcomes[i]) ==>
            attempts_from(outcomes, 0, max_retries) == max_retries as nat + 1,
{
    lemma_attempts_from(outcomes, 0, max_retries);
}

proof fn lemma_attempts_from(outcomes: Seq<bool>, from: nat, max_retries: u32)
    requires
        from <= max_retries as nat,
    ensures
        1 <= attempts_from(outcomes, from, max_retries) <= max_retries as nat + 1 - from,
        (forall|i: int| 0 <= i < outcomes.len() ==> !outcomes[i]) ==>
            attempts_from(outcomes, from, max_retries) == max_retries as nat + 1 - from,
    decreases max_retries - from,
{
    if from < max_retries as nat {
        lemma_attempts_from(outcomes, from + 1, max_retries);
    }
}

/// The error of a request that did not finish in time.
pub fn timeout_error(timeout_ms: u64) -> (e: McpError)
    ensures
        e matches McpError::Timeout(m) && m@ == "Request timed out after "@ + decimal_text(timeout_ms as int) + "ms"@,
{
    let a = concat("Request timed out after ", u64_text(timeout_ms).as_str());
    McpError::Timeout(concat(a.as_str(), "ms"))
}

/// The JSON-RPC error reply, without an id, with `code` and `message`.
pub open spec fn is_batch_error_reply(v: JsonValue, code: i64, message: Seq<char>) -> bool {
    match v {
        JsonValue::Object(es) => {
            &&& es@.len() == 3
            &&& es@[0].0@ == "jsonrpc"@
            &&& es@[0].1 is Str
            &&& es@[0].1->Str_0@ == "2.0"@
            &&& es@[1].0@ == "id"@
            &&& es@[1].1 is Null
            &&& es@[2].0@ == "error"@
            &&& match es@[2].1 {
                JsonValue::Object(fs) => {
                    &&& fs@.len() == 2
                    &&& fs@[0].0@ == "code"@
                    &&& fs@[0].1 == JsonValue::Int(code)
                    &&& fs@[1].0@ == "message"@
                    &&& fs@[1].1 is Str
                    &&& fs@[1].1->Str_0@ == message
                },
                _ => false,
            }
        },
        _ => false,
    }
}

fn batch_error_reply(code: i64, message: String) -> (r: JsonValue)
    ensures
        is_batch_error_reply(r, code, message@),
{
    let mut error: Vec<(String, JsonValue)> = Vec::new();
    error.push((String::from_str("code"), JsonValue::Int(code)));
    error.push((String::from_str("message"), JsonValue::Str(message)));
    let mut es: Vec<(String, JsonValue)> = Vec::new();
    es.push((String::from_str("jsonrpc"), JsonValue::Str(String::from_str("2.0"))));
    es.push((String::from_str("id"), JsonValue::Null));
    es.push((String::from_str("error"), JsonValue::Object(error)));
    proof {
        reveal_strlit("code");
        reveal_strlit("message");
        reveal_strlit("jsonrpc");
        reveal_strlit("2.0");
        reveal_strlit("id");
        reveal_strlit("error");
    }
    JsonValue::Object(es)
}

/// The reply standing for a batch member that could not be read as a
/// request: a parse error carrying the reader's message.
pub fn batch_parse_error(message: String) -> (r: JsonValue)
    ensures
        is_batch_error_reply(r, PARSE_ERROR, message@),
{
    batch_error_reply(PARSE_ERROR, message)
}

/// The reply standing for a batch member whose handling failed: an internal
/// error carrying the failure's text.
pub fn batch_internal_error(e: &McpError) -> (r: JsonValue)
    ensures
        is_batch_error_reply(r, INTERNAL_ERROR, crate::error::spec_error_text(*e)),
{
    batch_error_reply(INTERNAL_ERROR, e.text())
}

} // verus!
