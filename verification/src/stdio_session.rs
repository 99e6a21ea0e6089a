//! The decisions of a server that speaks JSON-RPC over standard input and
//! output: what each input line asks for, which subscriptions are open, and
//! what is written back. Reading and writing the streams is left to the
//! caller, which runs the loop.
use vstd::prelude::*;
use vstd::string::StringExecFns;
use crate::client::{non_null, error_reply_parts, decode_error_reply, response_parts, decode_response};
use crate::listen::{notification_parts, decode_notification};
use crate::error::{McpError, spec_error_from_reply, error_from_reply, rpc_error_text, rpc_error_message, FORBIDDEN_ERROR, RATE_LIMITED_ERROR};
use crate::http_routes::{is_error_reply, error_reply};
use crate::json::{JsonValue, json_get, json_get_str, json_same, json_equal, json_clone, take_field_mut, get_str, object_set, lemma_same_get};
use crate::protocol::{JsonRpcRequest, JsonRpcResponse, JsonRpcNotification, JsonRpcError, JsonRpcMessage, ServerCapabilities,
    CANCELLED, SUBSCRIPTIONS_LISTEN, SUBSCRIPTIONS_ACKNOWLEDGED, SUBSCRIPTION_ID_META_KEY, JSONRPC_VERSION,
    spec_request_protocol_version, request_protocol_version};
use crate::sse::{trim_ws, trim_bytes};
use crate::subscriptions::{requests_tasks, spec_client_has_tasks_extension, client_has_tasks_extension,
    is_tasks_capability, tasks_capability, SubscriptionFilter, is_accepted_filter, accepted_subscription_filter, filter_json,
    filter_readable, filter_from_json, filter_to_json, spec_filter_matches, taggable, tagged_with, add_subscription_id};
use crate::text::{utf8_of, text_eq, concat};
use crate::wire::{json_parse, parse_json_bytes};

verus! {

broadcast use vstd::std_specs::vec::group_vec_axioms;

/// The request a document holds: `jsonrpc`, `id`, `method` and optional
/// `params`.
pub open spec fn request_parts(v: JsonValue) -> Option<JsonRpcRequest> {
    match (json_get(v, "jsonrpc"@), json_get(v, "id"@), json_get(v, "method"@)) {
        (Some(JsonValue::Str(j)), Some(id), Some(JsonValue::Str(m))) =>
            Some(JsonRpcRequest { jsonrpc: j, id, method: m, params: non_null(json_get(v, "params"@)) }),
        _ => None,
    }
}

/// Reads a request document.
pub fn decode_request(v: JsonValue) -> (r: Option<JsonRpcRequest>)
    ensures
        r == request_parts(v),
{
    proof {
        reveal_strlit("jsonrpc");
        reveal_strlit("id");
        reveal_strlit("method");
        reveal_strlit("params");
    }
    let ghost orig = v;
    let mut v = v;
    let j = take_field_mut(&mut v, "jsonrpc");
    let ghost v1 = v;
    assert("id"@.len() != "jsonrpc"@.len());
    assert("method"@.len() != "jsonrpc"@.len());
    assert("params"@.len() != "jsonrpc"@.len());
    assert(json_get(v1, "id"@) == json_get(orig, "id"@));
    assert(json_get(v1, "method"@) == json_get(orig, "method"@));
    assert(json_get(v1, "params"@) == json_get(orig, "params"@));
    let id = take_field_mut(&mut v, "id");
    let ghost v2 = v;
    assert("method"@.len() != "id"@.len());
    assert("params"@.len() != "id"@.len());
    assert(json_get(v2, "method"@) == json_get(v1, "method"@));
    assert(json_get(v2, "params"@) == json_get(v1, "params"@));
    let m = take_field_mut(&mut v, "method");
    assert("params"@[0] != "method"@[0]);
    assert(json_get(v, "params"@) == json_get(v2, "params"@));
    let p = take_field_mut(&mut v, "params");
    match (j, id, m) {
        (Some(JsonValue::Str(j)), Some(id), Some(JsonValue::Str(m))) => {
            let params = match p {
                Some(JsonValue::Null) => None,
                other => other,
            };
            Some(JsonRpcRequest { jsonrpc: j, id, method: m, params })
        },
        _ => None,
    }
}

/// Index of the first subscription whose id is `k`.
pub open spec fn first_sub(subs: Seq<(JsonValue, SubscriptionFilter)>, k: JsonValue) -> Option<int>
    decreases subs.len(),
{
    if subs.len() == 0 {
        None
    } else if json_same(subs[0].0, k) {
        Some(0)
    } else {
        match first_sub(subs.skip(1), k) {
            Some(i) => Some(i + 1),
            None => None,
        }
    }
}

proof fn lemma_first_sub_bounds(subs: Seq<(JsonValue, SubscriptionFilter)>, k: JsonValue)
    ensures
        first_sub(subs, k) matches Some(i) ==> 0 <= i < subs.len() && json_same(subs[i].0, k),
        first_sub(subs, k) matches Some(i) ==> forall|j: int| 0 <= j < i ==> !json_same(#[trigger] subs[j].0, k),
        first_sub(subs, k) is None ==> forall|j: int| 0 <= j < subs.len() ==> !json_same(#[trigger] subs[j].0, k),
    decreases subs.len(),
{
    if subs.len() > 0 {
        lemma_first_sub_bounds(subs.skip(1), k);
        if !json_same(subs[0].0, k) {
            assert forall|j: int| 0 < j < subs.len() implies #[trigger] subs[j].0 == subs.skip(1)[j - 1].0 by {}
        }
    }
}

/// Index of the first subscription whose id is `k`.
#[verifier::loop_isolation(false)]
fn find_sub(subs: &Vec<(JsonValue, SubscriptionFilter)>, k: &JsonValue) -> (r: Option<usize>)
    ensures
        r matches Some(i) ==> first_sub(subs@, *k) == Some(i as int),
        r is None ==> first_sub(subs@, *k) is None,
{
    proof { lemma_first_sub_bounds(subs@, *k); }
    let n = subs.len();
    let mut i: usize = 0;
    while i < n
        invariant
            n == subs@.len(),
            i <= n,
            forall|j: int| 0 <= j < i ==> !json_same(#[trigger] subs@[j].0, *k),
        decreases n - i,
    {
        if json_equal(&subs[i].0, k) {
            proof { lemma_first_is(subs@, *k, i as int); }
            return Some(i);
        }
        i = i + 1;
    }
    proof { lemma_none_is(subs@, *k); }
    None
}

proof fn lemma_first_is(subs: Seq<(JsonValue, SubscriptionFilter)>, k: JsonValue, i: int)
    requires
        0 <= i < subs.len(),
        json_same(subs[i].0, k),
        forall|j: int| 0 <= j < i ==> !json_same(#[trigger] subs[j].0, k),
    ensures
        first_sub(subs, k) == Some(i),
    decreases i,
{
    if i > 0 {
        assert forall|j: int| 0 <= j < i - 1 implies !json_same(#[trigger] subs.skip(1)[j].0, k) by {
            assert(subs.skip(1)[j] == subs[j + 1]);
        }
        lemma_first_is(subs.skip(1), k, i - 1);
        assert(!json_same(subs[0].0, k));
    }
}

proof fn lemma_none_is(subs: Seq<(JsonValue, SubscriptionFilter)>, k: JsonValue)
    requires
        forall|j: int| 0 <= j < subs.len() ==> !json_same(#[trigger] subs[j].0, k),
    ensures
        first_sub(subs, k) is None,
    decreases subs.len(),
{
    if subs.len() > 0 {
        assert forall|j: int| 0 <= j < subs.len() - 1 implies !json_same(#[trigger] subs.skip(1)[j].0, k) by {
            assert(subs.skip(1)[j] == subs[j + 1]);
        }
        lemma_none_is(subs.skip(1), k);
        assert(!json_same(subs[0].0, k));
    }
}

/// The subscriptions after opening one under `id` with filter `f`: the first
/// subscription with that id is replaced, or a new one is added at the end.
pub open spec fn subs_after_open(subs: Seq<(JsonValue, SubscriptionFilter)>, id: JsonValue, f: SubscriptionFilter, after: Seq<(JsonValue, SubscriptionFilter)>) -> bool {
    match first_sub(subs, id) {
        Some(i) => after.len() == subs.len() && json_same(after[i].0, id) && after[i].1 == f
            && forall|j: int| 0 <= j < subs.len() && j != i ==> #[trigger] after[j] == subs[j],
        None => after.len() == subs.len() + 1 && json_same(after.last().0, id) && after.last().1 == f
            && forall|j: int| 0 <= j < subs.len() ==> #[trigger] after[j] == subs[j],
    }
}

/// The result that ends a cancelled subscription: `resultType` `complete`
/// and the subscription id under `_meta`.
pub open spec fn is_completion_result(v: JsonValue, id: JsonValue) -> bool {
    &&& v is Object
    &&& json_get_str(v, "resultType"@) == Some("complete"@)
    &&& json_get(v, "_meta"@) matches Some(m) && {
        &&& m is Object
        &&& json_get(m, SUBSCRIPTION_ID_META_KEY@) matches Some(x) && json_same(x, id)
    }
}

/// The acknowledgement of a subscription: `notifications/subscriptions/
/// acknowledged` with the accepted filter and the subscription id.
pub open spec fn is_acknowledgement(n: JsonRpcNotification, id: JsonValue, f: SubscriptionFilter) -> bool {
    &&& n.jsonrpc@ == JSONRPC_VERSION@
    &&& n.method@ == SUBSCRIPTIONS_ACKNOWLEDGED@
    &&& n.params matches Some(p) && {
        &&& p is Object
        &&& json_get(p, "notifications"@) matches Some(x) && filter_json(x, f)
        &&& json_get(p, "_meta"@) matches Some(m) && {
            &&& m is Object
            &&& json_get(m, SUBSCRIPTION_ID_META_KEY@) matches Some(y) && json_same(y, id)
        }
    }
}

/// What the server does with one input line.
pub enum StdioStep {
    /// Nothing to do.
    Skip,
    /// Write this response line.
    Respond(JsonRpcResponse),
    /// Write this notification line.
    Notify(JsonRpcNotification),
    /// Hand the request to the request handler and write its answer.
    Handle(JsonRpcRequest),
    /// Write this error reply line.
    Refuse(JsonRpcError),
    /// Stop serving with this error.
    Stop(McpError),
}

/// `r` is the message a document holds: a request when it has a method and
/// an id, a notification when it has a method only, an error reply when it
/// has an error, else a response; `None` when the document is none of them.
pub open spec fn message_of(v: JsonValue, r: Option<JsonRpcMessage>) -> bool {
    if json_get(v, "method"@) is Some {
        if json_get(v, "id"@) is Some {
            match request_parts(v) {
                Some(q) => r == Some(JsonRpcMessage::Request(q)),
                None => r is None,
            }
        } else {
            match notification_parts(v) {
                Some(n) => r == Some(JsonRpcMessage::Notification(n)),
                None => r is None,
            }
        }
    } else if json_get(v, "error"@) is Some {
        match error_reply_parts(v) {
            Some((id, code, message, data)) => r matches Some(JsonRpcMessage::Error(e)) && {
                &&& json_get_str(v, "jsonrpc"@) == Some(e.jsonrpc@)
                &&& e.id == id
                &&& e.error.code == code
                &&& e.error.message@ == message
                &&& e.error.data == data
            },
            None => r is None,
        }
    } else {
        match response_parts(v) {
            Some(q) => r == Some(JsonRpcMessage::Response(q)),
            None => r is None,
        }
    }
}

/// Reads a JSON-RPC message document.
pub fn decode_message(v: JsonValue) -> (r: Option<JsonRpcMessage>)
    ensures
        message_of(v, r),
{
    let has_method = v.get("method").is_some();
    let has_id = v.get("id").is_some();
    let has_error = v.get("error").is_some();
    if has_method {
        if has_id {
            match decode_request(v) {
                Some(q) => Some(JsonRpcMessage::Request(q)),
                None => None,
            }
        } else {
            match decode_notification(v) {
                Some(n) => Some(JsonRpcMessage::Notification(n)),
                None => None,
            }
        }
    } else if has_error {
        let jsonrpc = match get_str(&v, "jsonrpc") {
            Some(j) => j.clone(),
            None => String::new(),
        };
        match decode_error_reply(v) {
            Some((id, code, message, data)) => Some(JsonRpcMessage::Error(JsonRpcError {
                jsonrpc,
                id,
                error: crate::protocol::ErrorObject { code, message, data },
            })),
            None => None,
        }
    } else {
        match decode_response(v) {
            Some(q) => Some(JsonRpcMessage::Response(q)),
            None => None,
        }
    }
}

/// The open subscriptions whose filter matches `n`, in order.
pub open spec fn matching_subscriptions(subs: Seq<(JsonValue, SubscriptionFilter)>, n: JsonRpcNotification) -> Seq<(JsonValue, SubscriptionFilter)>
    decreases subs.len(),
{
    if subs.len() == 0 {
        Seq::empty()
    } else {
        let prev = matching_subscriptions(subs.drop_last(), n);
        if spec_filter_matches(subs.last().1, n.method@, n.params) { prev.push(subs.last()) } else { prev }
    }
}

/// Both absent, or both present and structurally equal.
pub open spec fn json_option_same(a: Option<JsonValue>, b: Option<JsonValue>) -> bool {
    match (a, b) {
        (Some(x), Some(y)) => json_same(x, y),
        (None, None) => true,
        _ => false,
    }
}

/// `t` is `n` routed to the subscription `id`: the same method and version,
/// params tagged with `id` when they can carry a tag (and left as they are
/// otherwise), and every other param as in `n`.
pub open spec fn routed_copy(n: JsonRpcNotification, id: JsonValue, t: JsonRpcNotification) -> bool {
    &&& t.method == n.method
    &&& t.jsonrpc == n.jsonrpc
    &&& taggable(n.params) ==> tagged_with(t.params, id)
    &&& !taggable(n.params) ==> json_option_same(t.params, n.params)
    &&& taggable(n.params) ==> (t.params matches Some(p) && forall|k: Seq<char>| k != "_meta"@ ==> {
        &&& (#[trigger] json_get(p, k) is None) == (match n.params { Some(q) => json_get(q, k) is None, None => true })
        &&& json_get(p, k) matches Some(x) ==> (n.params matches Some(q) && json_get(q, k) matches Some(y) && json_same(x, y))
    })
}

/// A copy of `n` routed to the subscription `id`.
fn route_copy(n: &JsonRpcNotification, id: &JsonValue) -> (t: JsonRpcNotification)
    ensures
        routed_copy(*n, *id, t),
{
    let mut copy = JsonRpcNotification {
        jsonrpc: n.jsonrpc.clone(),
        method: n.method.clone(),
        params: match &n.params {
            Some(p) => Some(json_clone(p)),
            None => None,
        },
    };
    proof {
        if n.params is Some {
            let p = n.params->Some_0;
            let q = copy.params->Some_0;
            lemma_same_get(q, p, "_meta"@);
            match json_get(q, "_meta"@) {
                Some(x) => {
                    let y = json_get(p, "_meta"@)->Some_0;
                    lemma_same_get(x, y, "_meta"@);
                },
                None => {},
            }
            assert(taggable(copy.params) == taggable(n.params));
            assert forall|k: Seq<char>| true implies {
                &&& (#[trigger] json_get(q, k) is None) == (json_get(p, k) is None)
                &&& json_get(q, k) matches Some(x) ==> (json_get(p, k) matches Some(y) && json_same(x, y))
            } by {
                lemma_same_get(q, p, k);
            }
        }
    }
    let ghost before = copy;
    add_subscription_id(&mut copy, id);
    copy
}

/// The session state: the server's capabilities and the open subscriptions.
pub struct StdioSession {
    capabilities: ServerCapabilities,
    subscriptions: Vec<(JsonValue, SubscriptionFilter)>,
}

/// The document an input line holds, if it holds one: the line without
/// surrounding whitespace, when not empty, parsed as JSON.
pub open spec fn line_document(line: Seq<char>) -> Option<JsonValue> {
    let t = trim_ws(utf8_of(line));
    if t.len() == 0 {
        None
    } else {
        match json_parse(t) {
            Ok(v) => Some(v),
            Err(_) => None,
        }
    }
}

/// A cancellation: method `notifications/cancelled` and no id.
pub open spec fn is_cancellation(v: JsonValue) -> bool {
    json_get_str(v, "method"@) == Some(CANCELLED@) && json_get(v, "id"@) is None
}

/// The request id a cancellation names.
pub open spec fn cancelled_id(v: JsonValue) -> Option<JsonValue> {
    match json_get(v, "params"@) {
        Some(p) => json_get(p, "requestId"@),
        None => None,
    }
}

/// The result that ends the subscription `id`.
pub fn completion_result(id: &JsonValue) -> (r: JsonValue)
    ensures
        is_completion_result(r, *id),
{
    proof {
        reveal_strlit("resultType");
        reveal_strlit("_meta");
    }
    let mut meta = JsonValue::Object(Vec::new());
    object_set(&mut meta, SUBSCRIPTION_ID_META_KEY, json_clone(id));
    let mut r = JsonValue::Object(Vec::new());
    object_set(&mut r, "resultType", JsonValue::Str(String::from_str("complete")));
    object_set(&mut r, "_meta", meta);
    assert("resultType"@[0] != "_meta"@[0]);
    r
}

/// The acknowledgement of the subscription `id` with the accepted filter.
pub fn acknowledgement(id: &JsonValue, f: &SubscriptionFilter) -> (n: JsonRpcNotification)
    ensures
        is_acknowledgement(n, *id, *f),
{
    proof {
        reveal_strlit("notifications");
        reveal_strlit("_meta");
    }
    let mut meta = JsonValue::Object(Vec::new());
    object_set(&mut meta, SUBSCRIPTION_ID_META_KEY, json_clone(id));
    let mut p = JsonValue::Object(Vec::new());
    object_set(&mut p, "notifications", filter_to_json(f));
    object_set(&mut p, "_meta", meta);
    assert("notifications"@[0] != "_meta"@[0]);
    JsonRpcNotification::new(String::from_str(SUBSCRIPTIONS_ACKNOWLEDGED), Some(p))
}

impl StdioSession {
    /// The server's capabilities.
    pub closed spec fn spec_capabilities(self) -> ServerCapabilities {
        self.capabilities
    }

    /// The open subscriptions, oldest first.
    pub closed spec fn subscriptions(self) -> Seq<(JsonValue, SubscriptionFilter)> {
        self.subscriptions@
    }

    /// A session with no subscription.
    pub fn new(capabilities: ServerCapabilities) -> (r: StdioSession)
        ensures
            r.spec_capabilities() == capabilities,
            r.subscriptions().len() == 0,
    {
        StdioSession { capabilities, subscriptions: Vec::new() }
    }

    /// Number of open subscriptions.
    pub fn subscription_count(&self) -> (r: usize)
        ensures
            r == self.subscriptions().len(),
    {
        self.subscriptions.len()
    }

    /// Handles a cancellation document.
    fn on_cancel(&mut self, v: &JsonValue) -> (r: StdioStep)
        ensures
            final(self).spec_capabilities() == old(self).spec_capabilities(),
            match cancelled_id(*v) {
                Some(rid) => match first_sub(old(self).subscriptions(), rid) {
                    Some(i) => final(self).subscriptions() == old(self).subscriptions().remove(i)
                        && (r matches StdioStep::Respond(resp) && resp.jsonrpc@ == JSONRPC_VERSION@
                            && json_same(resp.id, rid)
                            && (resp.result matches Some(x) && is_completion_result(x, rid))),
                    None => final(self).subscriptions() == old(self).subscriptions() && r is Skip,
                },
                None => final(self).subscriptions() == old(self).subscriptions() && r is Skip,
            },
    {
        let rid = match v.get("params") {
            Some(p) => p.get("requestId"),
            None => None,
        };
        match rid {
            None => StdioStep::Skip,
            Some(rid) => match find_sub(&self.subscriptions, rid) {
                None => StdioStep::Skip,
                Some(i) => {
                    proof { lemma_first_sub_bounds(self.subscriptions@, *rid); }
                    let _removed = self.subscriptions.remove(i);
                    let id = json_clone(rid);
                    let result = completion_result(rid);
                    StdioStep::Respond(JsonRpcResponse::success(id, result))
                },
            },
        }
    }

    /// Opens (or replaces) the subscription `id` with filter `f`.
    fn open(&mut self, id: &JsonValue, f: SubscriptionFilter)
        ensures
            final(self).spec_capabilities() == old(self).spec_capabilities(),
            subs_after_open(old(self).subscriptions(), *id, f, final(self).subscriptions()),
    {
        proof { lemma_first_sub_bounds(self.subscriptions@, *id); }
        match find_sub(&self.subscriptions, id) {
            Some(i) => {
                let entry = (json_clone(id), f);
                self.subscriptions.set(i, entry);
            },
            None => {
                self.subscriptions.push((json_clone(id), f));
            },
        }
    }

    /// What to do with one input line. A cancellation ends the named
    /// subscription; a `subscriptions/listen` request opens one (narrowed to
    /// the server's capabilities) and is acknowledged; any other request goes
    /// to the request handler; lines that hold no request are skipped.
    pub fn on_line(&mut self, line: &str) -> (r: StdioStep)
        ensures
            final(self).spec_capabilities() == old(self).spec_capabilities(),
            match line_document(line@) {
                None => r is Skip && final(self).subscriptions() == old(self).subscriptions(),
                Some(v) => if is_cancellation(v) {
                    match cancelled_id(v) {
                        Some(rid) => match first_sub(old(self).subscriptions(), rid) {
                            Some(i) => final(self).subscriptions() == old(self).subscriptions().remove(i)
                                && (r matches StdioStep::Respond(resp) && resp.jsonrpc@ == JSONRPC_VERSION@
                                    && json_same(resp.id, rid)
                                    && (resp.result matches Some(x) && is_completion_result(x, rid))),
                            None => final(self).subscriptions() == old(self).subscriptions() && r is Skip,
                        },
                        None => final(self).subscriptions() == old(self).subscriptions() && r is Skip,
                    }
                } else {
                    match request_parts(v) {
                        None => r is Skip && final(self).subscriptions() == old(self).subscriptions(),
                        Some(req) => if req.method@ != SUBSCRIPTIONS_LISTEN@ {
                            r == StdioStep::Handle(req) && final(self).subscriptions() == old(self).subscriptions()
                        } else if spec_request_protocol_version(req) is None {
                            final(self).subscriptions() == old(self).subscriptions()
                                && (r matches StdioStep::Stop(McpError::InvalidParams(m))
                                    && m@ == "subscriptions/listen requires modern metadata"@)
                        } else {
                            match req.params {
                                None => final(self).subscriptions() == old(self).subscriptions()
                                    && (r matches StdioStep::Stop(McpError::InvalidParams(m))
                                        && m@ == "missing subscription filter"@),
                                Some(p) => match json_get(p, "notifications"@) {
                                    Some(fv) => if filter_readable(fv) {
                                        exists|requested: SubscriptionFilter| {
                                            &&& #[trigger] filter_json(fv, requested)
                                            &&& if requests_tasks(requested) && !spec_client_has_tasks_extension(req.params) {
                                                &&& final(self).subscriptions() == old(self).subscriptions()
                                                &&& r matches StdioStep::Refuse(e) && exists|v: JsonValue| #[trigger] is_tasks_capability(v)
                                                    && is_error_reply(e, req.id, McpError::MissingRequiredClientCapability(v))
                                            } else {
                                                exists|accepted: SubscriptionFilter| {
                                                    &&& #[trigger] is_accepted_filter(requested, old(self).spec_capabilities(), accepted)
                                                    &&& subs_after_open(old(self).subscriptions(), req.id, accepted, final(self).subscriptions())
                                                    &&& r matches StdioStep::Notify(n) && is_acknowledgement(n, req.id, accepted)
                                                }
                                            }
                                        }
                                    } else {
                                        final(self).subscriptions() == old(self).subscriptions()
                                            && (r matches StdioStep::Stop(McpError::Serialization(m))
                                                && m@ == "invalid subscription filter"@)
                                    },
                                    None => final(self).subscriptions() == old(self).subscriptions()
                                        && (r matches StdioStep::Stop(McpError::Serialization(m))
                                            && m@ == "invalid subscription filter"@),
                                },
                            }
                        },
                    }
                },
            },
    {
        let trimmed = trim_bytes(line.as_bytes());
        if trimmed.len() == 0 {
            return StdioStep::Skip;
        }
        let v = match parse_json_bytes(trimmed.as_slice()) {
            Ok(v) => v,
            Err(_) => return StdioStep::Skip,
        };
        let is_cancel = match get_str(&v, "method") {
            Some(m) => text_eq(m.as_str(), CANCELLED),
            None => false,
        } && v.get("id").is_none();
        if is_cancel {
            return self.on_cancel(&v);
        }
        let req = match decode_request(v) {
            Some(req) => req,
            None => return StdioStep::Skip,
        };
        if !text_eq(req.method.as_str(), SUBSCRIPTIONS_LISTEN) {
            return StdioStep::Handle(req);
        }
        if request_protocol_version(&req).is_none() {
            return StdioStep::Stop(McpError::InvalidParams(String::from_str("subscriptions/listen requires modern metadata")));
        }
        let fv = match &req.params {
            None => return StdioStep::Stop(McpError::InvalidParams(String::from_str("missing subscription filter"))),
            Some(p) => p.get("notifications"),
        };
        let requested = match fv {
            Some(fv) => filter_from_json(fv),
            None => None,
        };
        match requested {
            None => StdioStep::Stop(McpError::Serialization(String::from_str("invalid subscription filter"))),
            Some(requested) => {
                if requested.task_ids.len() > 0 && !client_has_tasks_extension(&req.params) {
                    let v = tasks_capability();
                    let ghost gv = v;
                    let ghost gid = req.id;
                    let e = McpError::MissingRequiredClientCapability(v);
                    let reply = error_reply(req.id, &e);
                    assert(is_tasks_capability(gv) && is_error_reply(reply, gid, McpError::MissingRequiredClientCapability(gv)));
                    return StdioStep::Refuse(reply);
                }
                let accepted = accepted_subscription_filter(&requested, &self.capabilities);
                let ack = acknowledgement(&req.id, &accepted);
                self.open(&req.id, accepted);
                StdioStep::Notify(ack)
            },
        }
    }

    /// The notifications a server-side notification fans out to: one copy
    /// per open subscription whose filter matches, in subscription order,
    /// each tagged with that subscription's id.
    pub fn fan_out(&self, n: &JsonRpcNotification) -> (r: Vec<(JsonValue, JsonRpcNotification)>)
        ensures
            r@.len() == matching_subscriptions(self.subscriptions(), *n).len(),
            forall|i: int| 0 <= i < r@.len() ==> {
                &&& json_same((#[trigger] r@[i]).0, matching_subscriptions(self.subscriptions(), *n)[i].0)
                &&& routed_copy(*n, matching_subscriptions(self.subscriptions(), *n)[i].0, r@[i].1)
            },
    {
        let mut out: Vec<(JsonValue, JsonRpcNotification)> = Vec::new();
        let m = self.subscriptions.len();
        let ghost subs = self.subscriptions@;
        let mut i: usize = 0;
        while i < m
            invariant
                m == subs.len(),
                subs == self.subscriptions@,
                subs == self.subscriptions(),
                i <= m,
                out@.len() == matching_subscriptions(subs.take(i as int), *n).len(),
                forall|k: int| 0 <= k < out@.len() ==> {
                    &&& json_same((#[trigger] out@[k]).0, matching_subscriptions(subs.take(i as int), *n)[k].0)
                    &&& routed_copy(*n, matching_subscriptions(subs.take(i as int), *n)[k].0, out@[k].1)
                },
            decreases m - i,
        {
            assert(subs.take(i + 1).drop_last() =~= subs.take(i as int));
            assert(subs.take(i + 1).last() == subs[i as int]);
            let keep = match &n.params {
                Some(p) => self.subscriptions[i].1.matches(n.method.as_str(), Some(p)),
                None => self.subscriptions[i].1.matches(n.method.as_str(), None),
            };
            if keep {
                let copy = route_copy(n, &self.subscriptions[i].0);
                let id = json_clone(&self.subscriptions[i].0);
                out.push((id, copy));
            }
            i = i + 1;
        }
        assert(subs.take(m as int) =~= subs);
        out
    }

    /// What goes out for a server-side notification: the notification as it
    /// is while no subscription is open, else its copies for the matching
    /// subscriptions.
    pub fn outgoing(&self, n: &JsonRpcNotification) -> (r: Vec<JsonRpcNotification>)
        ensures
            self.subscriptions().len() == 0 ==> r@.len() == 1 && r@[0].method == n.method && r@[0].jsonrpc == n.jsonrpc
                && json_option_same(r@[0].params, n.params),
            self.subscriptions().len() > 0 ==> {
                &&& r@.len() == matching_subscriptions(self.subscriptions(), *n).len()
                &&& forall|i: int| 0 <= i < r@.len() ==>
                    routed_copy(*n, matching_subscriptions(self.subscriptions(), *n)[i].0, #[trigger] r@[i])
            },
    {
        let mut out: Vec<JsonRpcNotification> = Vec::new();
        if self.subscriptions.len() == 0 {
            out.push(JsonRpcNotification {
                jsonrpc: n.jsonrpc.clone(),
                method: n.method.clone(),
                params: match &n.params {
                    Some(p) => Some(json_clone(p)),
                    None => None,
                },
            });
            return out;
        }
        let mut pairs = self.fan_out(n);
        let ghost orig = pairs@;
        let ghost ms = matching_subscriptions(self.subscriptions(), *n);
        let k = pairs.len();
        let mut i: usize = 0;
        while i < k
            invariant
                k == orig.len(),
                k == ms.len(),
                forall|j: int| 0 <= j < k ==> routed_copy(*n, ms[j].0, (#[trigger] orig[j]).1),
                i <= k,
                pairs@ == orig.skip(i as int),
                out@.len() == i,
                forall|j: int| 0 <= j < i ==> #[trigger] out@[j] == orig[j].1,
            decreases k - i,
        {
            assert(pairs@[0] == orig[i as int]);
            let (_, t) = pairs.remove(0);
            assert(pairs@ =~= orig.skip(i + 1));
            out.push(t);
            i = i + 1;
        }
        out
    }
}

/// What a handled request is answered: its response, or the error reply
/// for its failure.
pub fn answer_for(id: JsonValue, result: Result<JsonRpcResponse, McpError>) -> (r: JsonRpcMessage)
    ensures
        match result {
            Ok(resp) => r == JsonRpcMessage::Response(resp),
            Err(e) => r matches JsonRpcMessage::Error(x) && is_error_reply(x, id, e),
        },
{
    match result {
        Ok(resp) => JsonRpcMessage::Response(resp),
        Err(e) => JsonRpcMessage::Error(error_reply(id, &e)),
    }
}

/// The failure reported for a request when no handler is installed:
/// `Method '{method}' not found`.
pub fn no_handler_error(method: &str) -> (e: McpError)
    ensures
        e matches McpError::Protocol(m) && m@ == "Method '"@ + method@ + "' not found"@,
{
    let a = concat("Method '", method);
    McpError::Protocol(concat(a.as_str(), "' not found"))
}

/// How a client reads an error reply that arrives over standard input: as
/// over HTTP, except that the forbidden and rate-limited codes are read as
/// generic JSON-RPC errors.
pub open spec fn stdio_error_from_reply(code: i64, message: Seq<char>, data: Option<JsonValue>, e: McpError) -> bool {
    if code == FORBIDDEN_ERROR || code == RATE_LIMITED_ERROR {
        e matches McpError::Protocol(m) && m@ == rpc_error_text(code, message)
    } else {
        spec_error_from_reply(code, message, data, e)
    }
}

/// What a line from the server means to the client.
pub enum ClientLine {
    /// Nothing usable.
    Ignore,
    /// The request `id` failed.
    Failure { id: JsonValue, error: McpError },
    /// The request answered.
    Response(JsonRpcResponse),
    /// A notification, with the subscription id it carries, if any.
    Notification { notification: JsonRpcNotification, subscription: Option<JsonValue> },
}

/// The subscription id a notification's params carry under `_meta`.
pub open spec fn subscription_tag(params: Option<JsonValue>) -> Option<JsonValue> {
    match params {
        Some(p) => match json_get(p, "_meta"@) {
            Some(m) => json_get(m, SUBSCRIPTION_ID_META_KEY@),
            None => None,
        },
        None => None,
    }
}

/// How the client reads a line: an error reply (a document with `error`),
/// else a response, else a notification; anything else is ignored.
pub open spec fn client_line_meaning(line: Seq<char>, r: ClientLine) -> bool {
    match line_document(line) {
        None => r is Ignore,
        Some(v) => if json_get(v, "error"@) is Some {
            match error_reply_parts(v) {
                None => r is Ignore,
                Some((id, code, msg, data)) => r matches ClientLine::Failure { id: rid, error } && rid == id
                    && stdio_error_from_reply(code, msg, data, error),
            }
        } else {
            match response_parts(v) {
                Some(resp) => r == ClientLine::Response(resp),
                None => match notification_parts(v) {
                    Some(n) => r matches ClientLine::Notification { notification, subscription } && notification == n
                        && match (subscription, subscription_tag(n.params)) {
                            (Some(a), Some(b)) => json_same(a, b),
                            (None, None) => true,
                            _ => false,
                        },
                    None => r is Ignore,
                },
            }
        },
    }
}

fn tag_of(params: &Option<JsonValue>) -> (r: Option<JsonValue>)
    ensures
        match (r, subscription_tag(*params)) {
            (Some(a), Some(b)) => json_same(a, b),
            (None, None) => true,
            _ => false,
        },
{
    match params {
        Some(p) => match p.get("_meta") {
            Some(m) => match m.get(SUBSCRIPTION_ID_META_KEY) {
                Some(x) => Some(json_clone(x)),
                None => None,
            },
            None => None,
        },
        None => None,
    }
}

/// Reads a line from the server.
pub fn classify_client_line(line: &str) -> (r: ClientLine)
    ensures
        client_line_meaning(line@, r),
{
    let trimmed = trim_bytes(line.as_bytes());
    if trimmed.len() == 0 {
        return ClientLine::Ignore;
    }
    let v = match parse_json_bytes(trimmed.as_slice()) {
        Ok(v) => v,
        Err(_) => return ClientLine::Ignore,
    };
    if v.get("error").is_some() {
        return match decode_error_reply(v) {
            None => ClientLine::Ignore,
            Some((id, code, msg, data)) => {
                let error = if code == FORBIDDEN_ERROR || code == RATE_LIMITED_ERROR {
                    McpError::Protocol(rpc_error_message(code, msg.as_str()))
                } else {
                    error_from_reply(code, msg, data)
                };
                ClientLine::Failure { id, error }
            },
        };
    }
    let shaped = match v.get("jsonrpc") {
        Some(JsonValue::Str(_)) => v.get("id").is_some(),
        _ => false,
    };
    if shaped {
        match decode_response(v) {
            Some(resp) => ClientLine::Response(resp),
            None => ClientLine::Ignore,
        }
    } else {
        match decode_notification(v) {
            Some(n) => {
                let subscription = tag_of(&n.params);
                ClientLine::Notification { notification: n, subscription }
            },
            None => ClientLine::Ignore,
        }
    }
}

} // verus!
