//! The JSON documents that carry JSON-RPC messages on the wire, and the law
//! that reading such a document back gives the message that was written.
use vstd::prelude::*;
use vstd::string::StringExecFns;
use crate::json::{JsonValue, json_get, entries_lookup, lemma_lookup_push};
use crate::protocol::{JsonRpcRequest, JsonRpcNotification, JsonRpcResponse, JsonRpcError, ErrorObject, JsonRpcMessage};
use crate::stdio_session::message_of;

verus! {

/// Appends the member `key: value` to an object's entries.
pub(crate) fn push_member(es: &mut Vec<(String, JsonValue)>, key: &str, value: JsonValue)
    ensures
        final(es)@.len() == old(es)@.len() + 1,
        forall|k: Seq<char>| #[trigger] entries_lookup(final(es)@, k) == match entries_lookup(old(es)@, k) {
            Some(v) => Some(v),
            None => if k == key@ { Some(value) } else { None },
        },
{
    let entry = (String::from_str(key), value);
    proof {
        assert forall|k: Seq<char>| #[trigger] entries_lookup(old(es)@.push(entry), k) == match entries_lookup(old(es)@, k) {
            Some(v) => Some(v),
            None => if k == key@ { Some(value) } else { None },
        } by {
            lemma_lookup_push(old(es)@, entry, k);
        }
    }
    es.push(entry);
}

/// `v` is an object whose members are exactly the keys `keys` says.
pub open spec fn only_members(v: JsonValue, keys: spec_fn(Seq<char>) -> bool) -> bool {
    &&& v is Object
    &&& forall|k: Seq<char>| !keys(k) ==> #[trigger] json_get(v, k) is None
}

/// The `error` member of an error reply: `code`, `message` and `data`
/// when there is data.
pub open spec fn carries_error_object(v: JsonValue, e: ErrorObject) -> bool {
    &&& json_get(v, "code"@) == Some(JsonValue::Int(e.code))
    &&& json_get(v, "message"@) == Some(JsonValue::Str(e.message))
    &&& json_get(v, "data"@) == e.data
    &&& only_members(v, |k: Seq<char>| k == "code"@ || k == "message"@ || k == "data"@)
}

/// `v` is the document that carries `m`: `jsonrpc` and, by kind, `id`,
/// `method`, `params`, `result` or `error`, with the optional members
/// present exactly when the message has them, and nothing else.
pub open spec fn carries_message(v: JsonValue, m: JsonRpcMessage) -> bool {
    match m {
        JsonRpcMessage::Request(r) => {
            &&& json_get(v, "jsonrpc"@) == Some(JsonValue::Str(r.jsonrpc))
            &&& json_get(v, "id"@) == Some(r.id)
            &&& json_get(v, "method"@) == Some(JsonValue::Str(r.method))
            &&& json_get(v, "params"@) == r.params
            &&& only_members(v, |k: Seq<char>| k == "jsonrpc"@ || k == "id"@ || k == "method"@ || k == "params"@)
        },
        JsonRpcMessage::Notification(n) => {
            &&& json_get(v, "jsonrpc"@) == Some(JsonValue::Str(n.jsonrpc))
            &&& json_get(v, "method"@) == Some(JsonValue::Str(n.method))
            &&& json_get(v, "params"@) == n.params
            &&& only_members(v, |k: Seq<char>| k == "jsonrpc"@ || k == "method"@ || k == "params"@)
        },
        JsonRpcMessage::Response(r) => {
            &&& json_get(v, "jsonrpc"@) == Some(JsonValue::Str(r.jsonrpc))
            &&& json_get(v, "id"@) == Some(r.id)
            &&& json_get(v, "result"@) == r.result
            &&& only_members(v, |k: Seq<char>| k == "jsonrpc"@ || k == "id"@ || k == "result"@)
        },
        JsonRpcMessage::Error(e) => {
            &&& json_get(v, "jsonrpc"@) == Some(JsonValue::Str(e.jsonrpc))
            &&& json_get(v, "id"@) == Some(e.id)
            &&& (json_get(v, "error"@) matches Some(o) && carries_error_object(o, e.error))
            &&& only_members(v, |k: Seq<char>| k == "jsonrpc"@ || k == "id"@ || k == "error"@)
        },
    }
}

/// The `error` member of an error reply.
fn error_object_json(e: ErrorObject) -> (v: JsonValue)
    ensures
        carries_error_object(v, e),
{
    proof {
        reveal_strlit("code");
        reveal_strlit("message");
        reveal_strlit("data");
    }
    let ErrorObject { code, message, data } = e;
    let mut es: Vec<(String, JsonValue)> = Vec::new();
    push_member(&mut es, "code", JsonValue::Int(code));
    push_member(&mut es, "message", JsonValue::Str(message));
    match data {
        Some(d) => push_member(&mut es, "data", d),
        None => {},
    }
    assert("code"@.len() != "message"@.len());
    assert("code"@[0] != "data"@[0]);
    assert("message"@.len() != "data"@.len());
    JsonValue::Object(es)
}

/// The JSON document that carries a message.
pub fn message_json(m: JsonRpcMessage) -> (v: JsonValue)
    ensures
        carries_message(v, m),
{
    proof {
        reveal_strlit("jsonrpc");
        reveal_strlit("id");
        reveal_strlit("method");
        reveal_strlit("params");
        reveal_strlit("result");
        reveal_strlit("error");
        assert("jsonrpc"@.len() != "id"@.len());
        assert("jsonrpc"@.len() != "method"@.len());
        assert("jsonrpc"@.len() != "params"@.len());
        assert("jsonrpc"@.len() != "result"@.len());
        assert("jsonrpc"@.len() != "error"@.len());
        assert("id"@.len() != "method"@.len());
        assert("id"@.len() != "params"@.len());
        assert("id"@.len() != "result"@.len());
        assert("id"@.len() != "error"@.len());
        assert("method"@[0] != "params"@[0]);
    }
    let mut es: Vec<(String, JsonValue)> = Vec::new();
    match m {
        JsonRpcMessage::Request(JsonRpcRequest { jsonrpc, id, method, params }) => {
            push_member(&mut es, "jsonrpc", JsonValue::Str(jsonrpc));
            push_member(&mut es, "id", id);
            push_member(&mut es, "method", JsonValue::Str(method));
            match params {
                Some(p) => push_member(&mut es, "params", p),
                None => {},
            }
        },
        JsonRpcMessage::Notification(JsonRpcNotification { jsonrpc, method, params }) => {
            push_member(&mut es, "jsonrpc", JsonValue::Str(jsonrpc));
            push_member(&mut es, "method", JsonValue::Str(method));
            match params {
                Some(p) => push_member(&mut es, "params", p),
                None => {},
            }
        },
        JsonRpcMessage::Response(JsonRpcResponse { jsonrpc, id, result }) => {
            push_member(&mut es, "jsonrpc", JsonValue::Str(jsonrpc));
            push_member(&mut es, "id", id);
            match result {
                Some(x) => push_member(&mut es, "result", x),
                None => {},
            }
        },
        JsonRpcMessage::Error(JsonRpcError { jsonrpc, id, error }) => {
            push_member(&mut es, "jsonrpc", JsonValue::Str(jsonrpc));
            push_member(&mut es, "id", id);
            let o = error_object_json(error);
            push_member(&mut es, "error", o);
        },
    }
    JsonValue::Object(es)
}

/// A message survives being written and read back: no member it has is
/// `null` (a `null` member reads back as an absent one), and an error
/// code fits in 32 bits.
pub open spec fn survives_wire(m: JsonRpcMessage) -> bool {
    match m {
        JsonRpcMessage::Request(r) => r.params != Some(JsonValue::Null),
        JsonRpcMessage::Notification(n) => n.params != Some(JsonValue::Null),
        JsonRpcMessage::Response(r) => r.result != Some(JsonValue::Null),
        JsonRpcMessage::Error(e) => e.error.data != Some(JsonValue::Null)
            && i32::MIN <= e.error.code <= i32::MAX,
    }
}

/// Two messages say the same: equal, except that texts of an error reply
/// are compared by their characters.
pub open spec fn same_message(a: JsonRpcMessage, b: JsonRpcMessage) -> bool {
    match (a, b) {
        (JsonRpcMessage::Error(x), JsonRpcMessage::Error(y)) => {
            &&& x.jsonrpc@ == y.jsonrpc@
            &&& x.id == y.id
            &&& x.error.code == y.error.code
            &&& x.error.message@ == y.error.message@
            &&& x.error.data == y.error.data
        },
        _ => a == b,
    }
}

/// Reading back the document written for a message gives that message.
pub proof fn messages_read_back(m: JsonRpcMessage, v: JsonValue, r: Option<JsonRpcMessage>)
    requires
        carries_message(v, m),
        message_of(v, r),
        survives_wire(m),
    ensures
        r matches Some(x) && same_message(x, m),
{
    reveal_strlit("jsonrpc");
    reveal_strlit("id");
    reveal_strlit("method");
    reveal_strlit("params");
    reveal_strlit("result");
    reveal_strlit("error");
    reveal_strlit("code");
    reveal_strlit("message");
    reveal_strlit("data");
    assert("method"@.len() != "jsonrpc"@.len());
    assert("method"@.len() != "id"@.len());
    assert("method"@[0] != "params"@[0]);
    assert("method"@[0] != "result"@[0]);
    assert("method"@.len() != "error"@.len());
    assert("error"@.len() != "jsonrpc"@.len());
    assert("error"@.len() != "id"@.len());
    assert("error"@.len() != "result"@.len());
    assert("id"@.len() != "jsonrpc"@.len());
    assert("id"@.len() != "params"@.len());
    assert("id"@.len() != "result"@.len());
    match m {
        JsonRpcMessage::Request(q) => {
            assert(json_get(v, "method"@) is Some);
            assert(json_get(v, "id"@) is Some);
        },
        JsonRpcMessage::Notification(n) => {
            assert(json_get(v, "id"@) is None);
        },
        JsonRpcMessage::Response(q) => {
            assert(json_get(v, "method"@) is None);
            assert(json_get(v, "error"@) is None);
        },
        JsonRpcMessage::Error(e) => {
            assert(json_get(v, "method"@) is None);
            assert(json_get(v, "error"@) is Some);
        },
    }
}

} // verus!
