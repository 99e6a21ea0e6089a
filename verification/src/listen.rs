//! The client end of a `subscriptions/listen` stream: the checks before the
//! stream opens, and the decoder that turns SSE bytes into notifications and
//! the final response.
use vstd::prelude::*;
use vstd::string::StringExecFns;
use crate::client::{non_null, response_parts, decode_response, is_success, error_reply_parts, decode_error_reply, is_event_stream};
use crate::error::{McpError, rpc_error_text, is_required_capabilities, MISSING_REQUIRED_CLIENT_CAPABILITY, HEADER_MISMATCH, rpc_error_message};
use crate::json::{JsonValue, json_get, json_get_str, take_field_mut, get_str};
use crate::protocol::{JsonRpcRequest, JsonRpcResponse, JsonRpcNotification, SUBSCRIPTIONS_LISTEN, spec_request_protocol_version, request_protocol_version};
use crate::sse::{normalize_newlines, split_events, event_payload, normalize_crlf, next_event, event_data, copy_range};
use crate::text::{decimal_text, concat, u64_text, text_eq, starts_with};
use crate::wire::{json_parse, lossy_utf8, parse_json_bytes, lossy_utf8_bytes};

verus! {

broadcast use vstd::std_specs::vec::group_vec_axioms;

/// Why a `subscriptions/listen` request cannot be sent, if it cannot: it
/// must use that method and declare a protocol version.
pub open spec fn listen_request_problem(r: JsonRpcRequest) -> Option<Seq<char>> {
    if r.method@ != SUBSCRIPTIONS_LISTEN@ {
        Some("open_subscription requires subscriptions/listen"@)
    } else if spec_request_protocol_version(r) is None {
        Some("subscription request is missing modern metadata"@)
    } else {
        None
    }
}

/// Checks a `subscriptions/listen` request and returns the protocol version
/// it declares.
pub fn check_listen_request(r: &JsonRpcRequest) -> (v: Result<String, McpError>)
    ensures
        match listen_request_problem(*r) {
            Some(m) => v matches Err(McpError::InvalidParams(t)) && t@ == m,
            None => v matches Ok(s) && spec_request_protocol_version(*r) == Some(s@),
        },
{
    if !text_eq(r.method.as_str(), SUBSCRIPTIONS_LISTEN) {
        return Err(McpError::InvalidParams(String::from_str("open_subscription requires subscriptions/listen")));
    }
    match request_protocol_version(r) {
        Some(v) => Ok(v.clone()),
        None => Err(McpError::InvalidParams(String::from_str("subscription request is missing modern metadata"))),
    }
}

/// The error a rejected `subscriptions/listen` post reports: read from a
/// JSON-RPC error body when there is one, else from the status.
pub open spec fn listen_rejection(status: u16, body: Seq<u8>, e: McpError) -> bool {
    match json_parse(body) {
        Ok(v) => match error_reply_parts(v) {
            Some((_id, code, msg, data)) => if code == MISSING_REQUIRED_CLIENT_CAPABILITY {
                e matches McpError::MissingRequiredClientCapability(x) && is_required_capabilities(data, x)
            } else if code == HEADER_MISMATCH {
                e matches McpError::HeaderMismatch(m) && m@ == msg
            } else {
                e matches McpError::Protocol(m) && m@ == rpc_error_text(code, msg)
            },
            None => e matches McpError::Http(m) && m@ == "subscription HTTP error: "@ + decimal_text(status as int),
        },
        Err(_) => e matches McpError::Http(m) && m@ == "subscription HTTP error: "@ + decimal_text(status as int),
    }
}

fn capabilities_of(data: Option<JsonValue>) -> (r: JsonValue)
    ensures
        is_required_capabilities(data, r),
{
    proof { reveal_strlit("requiredCapabilities"); }
    match data {
        Some(d) => {
            let mut d = d;
            match take_field_mut(&mut d, "requiredCapabilities") {
                Some(x) => x,
                None => JsonValue::Object(Vec::new()),
            }
        },
        None => JsonValue::Object(Vec::new()),
    }
}

/// The error for a `subscriptions/listen` post answered with a failure
/// status.
pub fn listen_failure(status: u16, body: &[u8]) -> (e: McpError)
    ensures
        listen_rejection(status, body@, e),
{
    let parsed = parse_json_bytes(body);
    let decoded = match parsed {
        Ok(v) => decode_error_reply(v),
        Err(_) => None,
    };
    match decoded {
        Some((_id, code, msg, data)) => {
            if code == MISSING_REQUIRED_CLIENT_CAPABILITY {
                McpError::MissingRequiredClientCapability(capabilities_of(data))
            } else if code == HEADER_MISMATCH {
                McpError::HeaderMismatch(msg)
            } else {
                McpError::Protocol(rpc_error_message(code, msg.as_str()))
            }
        },
        None => {
            let digits = u64_text(status as u64);
            McpError::Http(concat("subscription HTTP error: ", digits.as_str()))
        },
    }
}

/// A listen stream must come back as `text/event-stream`.
pub fn check_listen_content_type(content_type: &str) -> (r: Result<(), McpError>)
    ensures
        is_event_stream(content_type@) ==> r is Ok,
        !is_event_stream(content_type@) ==> (r matches Err(McpError::Http(m))
            && m@ == "subscriptions/listen requires text/event-stream, received "@ + content_type@),
{
    if starts_with(content_type, "text/event-stream") {
        Ok(())
    } else {
        Err(McpError::Http(concat("subscriptions/listen requires text/event-stream, received ", content_type)))
    }
}

/// The notification a document holds: `jsonrpc` and `method` texts and the
/// optional `params`.
pub open spec fn notification_parts(v: JsonValue) -> Option<JsonRpcNotification> {
    match (json_get(v, "jsonrpc"@), json_get(v, "method"@)) {
        (Some(JsonValue::Str(j)), Some(JsonValue::Str(m))) => Some(JsonRpcNotification { jsonrpc: j, method: m, params: non_null(json_get(v, "params"@)) }),
        _ => None,
    }
}

/// Reads a notification document.
pub fn decode_notification(v: JsonValue) -> (r: Option<JsonRpcNotification>)
    ensures
        r == notification_parts(v),
{
    proof {
        reveal_strlit("jsonrpc");
        reveal_strlit("method");
        reveal_strlit("params");
    }
    let ghost orig = v;
    let mut v = v;
    let j = take_field_mut(&mut v, "jsonrpc");
    let ghost v1 = v;
    assert("method"@.len() != "jsonrpc"@.len());
    assert("params"@.len() != "jsonrpc"@.len());
    assert(json_get(v1, "method"@) == json_get(orig, "method"@));
    assert(json_get(v1, "params"@) == json_get(orig, "params"@));
    let m = take_field_mut(&mut v, "method");
    assert("params"@[0] != "method"@[0]);
    assert(json_get(v, "params"@) == json_get(v1, "params"@));
    let p = take_field_mut(&mut v, "params");
    match (j, m) {
        (Some(JsonValue::Str(j)), Some(JsonValue::Str(m))) => {
            let params = match p {
                Some(JsonValue::Null) => None,
                other => other,
            };
            Some(JsonRpcNotification { jsonrpc: j, method: m, params })
        },
        _ => None,
    }
}

/// A document that names a method and carries no id.
pub open spec fn is_notification_doc(v: JsonValue) -> bool {
    json_get(v, "method"@) is Some && json_get(v, "id"@) is None
}

/// A document that ends the stream: it carries a result or an error.
pub open spec fn is_final_doc(v: JsonValue) -> bool {
    json_get(v, "result"@) is Some || json_get(v, "error"@) is Some
}

/// Reading complete events in order: the notifications found before the
/// first final document, and that document. Events without data, data that
/// is not JSON, undecodable notifications and other documents are skipped.
pub open spec fn listen_scan(events: Seq<Seq<u8>>) -> (Seq<JsonRpcNotification>, Option<JsonValue>)
    decreases events.len(),
{
    if events.len() == 0 {
        (Seq::empty(), None)
    } else {
        let p = event_payload(events[0]);
        let rest = listen_scan(events.skip(1));
        if p.len() == 0 {
            rest
        } else {
            match json_parse(p) {
                Err(_) => rest,
                Ok(v) => if is_notification_doc(v) {
                    match notification_parts(v) {
                        Some(n) => (seq![n] + rest.0, rest.1),
                        None => rest,
                    }
                } else if is_final_doc(v) {
                    (Seq::empty(), Some(v))
                } else {
                    rest
                },
            }
        }
    }
}

/// The message of an error document (`subscription failed` when it has
/// none).
pub open spec fn error_message_of(doc: JsonValue) -> Seq<char> {
    match json_get(doc, "error"@) {
        Some(e) => match json_get_str(e, "message"@) {
            Some(m) => m,
            None => "subscription failed"@,
        },
        None => "subscription failed"@,
    }
}

/// How a final document completes the subscription.
pub open spec fn completion_of(doc: JsonValue, c: Result<JsonRpcResponse, McpError>) -> bool {
    if json_get(doc, "result"@) is Some {
        match response_parts(doc) {
            Some(resp) => c == Ok::<JsonRpcResponse, McpError>(resp),
            None => c matches Err(McpError::Serialization(m)) && m@ == "invalid JSON-RPC response"@,
        }
    } else {
        c matches Err(McpError::Protocol(m)) && m@ == error_message_of(doc)
    }
}

/// What one chunk of a listen stream yields.
pub struct ListenBatch {
    pub notifications: Vec<JsonRpcNotification>,
    pub completion: Option<Result<JsonRpcResponse, McpError>>,
}

/// Decoder state of one listen stream.
pub struct ListenStream {
    buffer: Vec<u8>,
    finished: bool,
}

proof fn lemma_split_nonempty(s: Seq<u8>)
    ensures
        split_events(s).len() > 0,
{
}

fn complete_doc(doc: JsonValue) -> (c: Result<JsonRpcResponse, McpError>)
    requires
        is_final_doc(doc),
    ensures
        completion_of(doc, c),
{
    if doc.get("result").is_some() {
        match decode_response(doc) {
            Some(resp) => Ok(resp),
            None => Err(McpError::Serialization(String::from_str("invalid JSON-RPC response"))),
        }
    } else {
        let message = match doc.get("error") {
            Some(e) => match get_str(e, "message") {
                Some(m) => m.clone(),
                None => String::from_str("subscription failed"),
            },
            None => String::from_str("subscription failed"),
        };
        Err(McpError::Protocol(message))
    }
}

impl ListenStream {
    /// Bytes of an incomplete event, kept for the next chunk.
    pub closed spec fn pending(self) -> Seq<u8> {
        self.buffer@
    }

    /// Whether the final response has been seen or the stream has ended.
    pub closed spec fn is_finished(self) -> bool {
        self.finished
    }

    /// A decoder that has seen nothing.
    pub fn new() -> (r: ListenStream)
        ensures
            r.pending().len() == 0,
            !r.is_finished(),
    {
        ListenStream { buffer: Vec::new(), finished: false }
    }

    /// Feeds one chunk: it is decoded as UTF-8 (lossily) and appended, line
    /// endings are normalised, and every complete event is read in order.
    /// Reading stops at the first final document, which completes the
    /// subscription.
    pub fn feed(&mut self, chunk: &[u8]) -> (r: ListenBatch)
        ensures
            old(self).is_finished() ==> r.notifications@.len() == 0 && r.completion is None && *final(self) == *old(self),
            !old(self).is_finished() ==> ({
                let evs = split_events(normalize_newlines(old(self).pending() + lossy_utf8(chunk@)));
                let scan = listen_scan(evs.drop_last());
                &&& r.notifications@ == scan.0
                &&& match scan.1 {
                    None => r.completion is None && !final(self).is_finished() && final(self).pending() == evs.last(),
                    Some(doc) => final(self).is_finished() && (r.completion matches Some(c) && completion_of(doc, c)),
                }
            }),
    {
        if self.finished {
            return ListenBatch { notifications: Vec::new(), completion: None };
        }
        let decoded = lossy_utf8_bytes(chunk);
        let mut joined: Vec<u8> = Vec::new();
        std::mem::swap(&mut joined, &mut self.buffer);
        let mut tail = decoded;
        joined.append(&mut tail);
        let full = normalize_crlf(joined.as_slice());
        assert(joined@ =~= old(self).pending() + lossy_utf8(chunk@));
        let ghost evs = split_events(full@);
        let ghost target = listen_scan(evs.drop_last());
        let n = full.len();
        let mut notes: Vec<JsonRpcNotification> = Vec::new();
        let mut pos: usize = 0;
        assert(full@.skip(0) =~= full@);
        loop
            invariant
                n == full@.len(),
                pos <= n,
                evs == split_events(full@),
                target == listen_scan(evs.drop_last()),
                !self.finished,
                !old(self).finished,
                full@ == normalize_newlines(old(self).pending() + lossy_utf8(chunk@)),
                target.1 == listen_scan(split_events(full@.skip(pos as int)).drop_last()).1,
                target.0 == notes@ + listen_scan(split_events(full@.skip(pos as int)).drop_last()).0,
                evs.last() == split_events(full@.skip(pos as int)).last(),
            decreases n - pos,
        {
            let ghost here = split_events(full@.skip(pos as int));
            let (end, next, more) = next_event(full.as_slice(), pos);
            if !more {
                assert(here.drop_last() =~= Seq::<Seq<u8>>::empty());
                assert(notes@ + Seq::<JsonRpcNotification>::empty() =~= notes@);
                let rest = copy_range(full.as_slice(), pos, end);
                assert(here.last() == rest@);
                self.buffer = rest;
                return ListenBatch { notifications: notes, completion: None };
            }
            let ghost later = split_events(full@.skip(next as int));
            proof {
                lemma_split_nonempty(full@.skip(next as int));
                assert(here.drop_last() =~= seq![here[0]] + later.drop_last());
                assert(here.drop_last().skip(1) =~= later.drop_last());
            }
            let event = copy_range(full.as_slice(), pos, end);
            let payload = event_data(event.as_slice());
            if payload.len() > 0 {
                match parse_json_bytes(payload.as_slice()) {
                    Err(_) => {},
                    Ok(v) => {
                        let is_note = v.get("method").is_some() && v.get("id").is_none();
                        if is_note {
                            match decode_notification(v) {
                                Some(note) => {
                                    let ghost before = notes@;
                                    notes.push(note);
                                    assert(notes@ + listen_scan(later.drop_last()).0 =~= before + (seq![note] + listen_scan(later.drop_last()).0));
                                },
                                None => {},
                            }
                        } else if v.get("result").is_some() || v.get("error").is_some() {
                            let c = complete_doc(v);
                            self.finished = true;
                            assert(notes@ + Seq::<JsonRpcNotification>::empty() =~= notes@);
                            return ListenBatch { notifications: notes, completion: Some(c) };
                        }
                    },
                }
            }
            pos = next;
        }
    }

    /// The stream ended: a subscription that saw no final response fails.
    pub fn finish(&mut self) -> (r: Option<Result<JsonRpcResponse, McpError>>)
        ensures
            old(self).is_finished() ==> r is None,
            !old(self).is_finished() ==> (r matches Some(Err(McpError::Transport(m)))
                && m@ == "subscription stream closed without a final response"@),
            final(self).is_finished(),
    {
        if self.finished {
            return None;
        }
        self.finished = true;
        Some(Err(McpError::Transport(String::from_str("subscription stream closed without a final response"))))
    }
}

} // verus!
