//! MCP 2026 subscriptions: which notifications a subscription asked for, what
//! a server accepts of that request, and how a notification is tagged with
//! the subscription it is delivered on.
use vstd::prelude::*;
use vstd::string::StringExecFns;
use crate::json::{JsonValue, json_get, json_get_str, get_str, entries_lookup, entries_has_key, object_set, json_same, json_clone};
use crate::text::text_eq;
use crate::error::string_items;
use crate::protocol::{
    ServerCapabilities, JsonRpcNotification, TOOLS_LIST_CHANGED, PROMPTS_LIST_CHANGED,
    RESOURCES_LIST_CHANGED, RESOURCES_UPDATED, TASKS_STATUS, TASKS_EXTENSION_ID,
    SUBSCRIPTION_ID_META_KEY, empty_object, JsonRpcRequest, JsonRpcError, spec_request_protocol_version,
    request_protocol_version,
};
use crate::error::McpError;
use crate::http_routes::{error_reply, is_error_reply};

verus! {

/// The notifications a subscription receives.
pub struct SubscriptionFilter {
    pub tools_list_changed: Option<bool>,
    pub prompts_list_changed: Option<bool>,
    pub resources_list_changed: Option<bool>,
    pub resource_subscriptions: Vec<String>,
    pub task_ids: Vec<String>,
}

/// `t` is one of the texts in `v`.
pub open spec fn has_text(v: Seq<String>, t: Seq<char>) -> bool {
    exists|i: int| 0 <= i < v.len() && (#[trigger] v[i])@ == t
}

/// Whether a notification with `method` and `params` is delivered under `f`.
pub open spec fn spec_filter_matches(f: SubscriptionFilter, method: Seq<char>, params: Option<JsonValue>) -> bool {
    if method == TOOLS_LIST_CHANGED@ {
        f.tools_list_changed == Some(true)
    } else if method == PROMPTS_LIST_CHANGED@ {
        f.prompts_list_changed == Some(true)
    } else if method == RESOURCES_LIST_CHANGED@ {
        f.resources_list_changed == Some(true)
    } else if method == RESOURCES_UPDATED@ {
        match params {
            Some(p) => match json_get_str(p, "uri"@) {
                Some(uri) => has_text(f.resource_subscriptions@, uri),
                None => false,
            },
            None => false,
        }
    } else if method == TASKS_STATUS@ {
        match params {
            Some(p) => match json_get_str(p, "taskId"@) {
                Some(id) => has_text(f.task_ids@, id),
                None => false,
            },
            None => false,
        }
    } else {
        false
    }
}

/// Whether `t` occurs in `v`.
pub fn contains_text(v: &Vec<String>, t: &str) -> (r: bool)
    ensures
        r == has_text(v@, t@),
{
    let n = v.len();
    let mut i: usize = 0;
    while i < n
        invariant
            n == v@.len(),
            i <= n,
            forall|k: int| 0 <= k < i ==> (#[trigger] v@[k])@ != t@,
        decreases n - i,
    {
        if text_eq(v[i].as_str(), t) {
            return true;
        }
        i = i + 1;
    }
    false
}

fn copy_texts(v: &Vec<String>) -> (r: Vec<String>)
    ensures
        r@ == v@,
{
    let mut out: Vec<String> = Vec::new();
    let n = v.len();
    let mut i: usize = 0;
    while i < n
        invariant
            n == v@.len(),
            i <= n,
            out@ == v@.take(i as int),
        decreases n - i,
    {
        out.push(v[i].clone());
        assert(out@ =~= v@.take(i + 1));
        i = i + 1;
    }
    assert(v@.take(n as int) =~= v@);
    out
}

impl SubscriptionFilter {
    /// Whether a notification with `method` and `params` is delivered.
    pub fn matches(&self, method: &str, params: Option<&JsonValue>) -> (r: bool)
        ensures
            r == spec_filter_matches(*self, method@, match params { Some(p) => Some(*p), None => None }),
    {
        if text_eq(method, TOOLS_LIST_CHANGED) {
            self.tools_list_changed == Some(true)
        } else if text_eq(method, PROMPTS_LIST_CHANGED) {
            self.prompts_list_changed == Some(true)
        } else if text_eq(method, RESOURCES_LIST_CHANGED) {
            self.resources_list_changed == Some(true)
        } else if text_eq(method, RESOURCES_UPDATED) {
            match params {
                Some(p) => match get_str(p, "uri") {
                    Some(uri) => contains_text(&self.resource_subscriptions, uri.as_str()),
                    None => false,
                },
                None => false,
            }
        } else if text_eq(method, TASKS_STATUS) {
            match params {
                Some(p) => match get_str(p, "taskId") {
                    Some(id) => contains_text(&self.task_ids, id.as_str()),
                    None => false,
                },
                None => false,
            }
        } else {
            false
        }
    }

    /// Whether the subscription asks for task status notifications.
    pub fn requests_tasks(&self) -> (r: bool)
        ensures
            r == (self.task_ids@.len() > 0),
    {
        self.task_ids.len() > 0
    }
}

/// Whether a server declares the tasks extension.
pub open spec fn spec_tasks_enabled(caps: ServerCapabilities) -> bool {
    caps.extensions matches Some(ext) && entries_lookup(ext@, TASKS_EXTENSION_ID@) is Some
}

/// `Some(true)` when both the client asked and the server supports, else `None`.
pub open spec fn both_on(requested: Option<bool>, supported: bool) -> Option<bool> {
    if requested == Some(true) && supported { Some(true) } else { None }
}

/// `acc` is what a server with `caps` accepts of the subscription request `req`.
pub open spec fn is_accepted_filter(req: SubscriptionFilter, caps: ServerCapabilities, acc: SubscriptionFilter) -> bool {
    &&& acc.tools_list_changed == both_on(req.tools_list_changed,
            caps.tools matches Some(t) && t.list_changed == Some(true))
    &&& acc.prompts_list_changed == both_on(req.prompts_list_changed,
            caps.prompts matches Some(p) && p.list_changed == Some(true))
    &&& acc.resources_list_changed == both_on(req.resources_list_changed,
            caps.resources matches Some(r) && r.list_changed == Some(true))
    &&& acc.resource_subscriptions@ == (if caps.resources matches Some(r) && r.subscribe == Some(true) {
            req.resource_subscriptions@ } else { Seq::empty() })
    &&& acc.task_ids@ == (if spec_tasks_enabled(caps) { req.task_ids@ } else { Seq::empty() })
}

/// Narrows a requested subscription to what the server's capabilities support.
pub fn accepted_subscription_filter(requested: &SubscriptionFilter, capabilities: &ServerCapabilities) -> (r: SubscriptionFilter)
    ensures
        is_accepted_filter(*requested, *capabilities, r),
{
    let tasks_enabled = match &capabilities.extensions {
        Some(ext) => entries_has_key(ext, TASKS_EXTENSION_ID),
        None => false,
    };
    let tools_ok = match &capabilities.tools {
        Some(t) => t.list_changed == Some(true),
        None => false,
    };
    let prompts_ok = match &capabilities.prompts {
        Some(p) => p.list_changed == Some(true),
        None => false,
    };
    let resources_ok = match &capabilities.resources {
        Some(r) => r.list_changed == Some(true),
        None => false,
    };
    let subscribe_ok = match &capabilities.resources {
        Some(r) => r.subscribe == Some(true),
        None => false,
    };
    SubscriptionFilter {
        tools_list_changed: if requested.tools_list_changed == Some(true) && tools_ok { Some(true) } else { None },
        prompts_list_changed: if requested.prompts_list_changed == Some(true) && prompts_ok { Some(true) } else { None },
        resources_list_changed: if requested.resources_list_changed == Some(true) && resources_ok { Some(true) } else { None },
        resource_subscriptions: if subscribe_ok { copy_texts(&requested.resource_subscriptions) } else { Vec::new() },
        task_ids: if tasks_enabled { copy_texts(&requested.task_ids) } else { Vec::new() },
    }
}

/// Each list-change notification is governed by its own flag and by
/// nothing else: a subscriber receives
/// `notifications/tools/list_changed`, `notifications/prompts/list_changed`
/// or `notifications/resources/list_changed` exactly when it asked for that
/// kind of change, whatever else its filter holds and whatever the params.
pub proof fn list_changes_follow_their_own_flag(f: SubscriptionFilter, params: Option<JsonValue>)
    ensures
        spec_filter_matches(f, "notifications/tools/list_changed"@, params) == (f.tools_list_changed == Some(true)),
        spec_filter_matches(f, "notifications/prompts/list_changed"@, params) == (f.prompts_list_changed == Some(true)),
        spec_filter_matches(f, "notifications/resources/list_changed"@, params) == (f.resources_list_changed == Some(true)),
{
    reveal_strlit("notifications/tools/list_changed");
    reveal_strlit("notifications/prompts/list_changed");
    reveal_strlit("notifications/resources/list_changed");
    assert(TOOLS_LIST_CHANGED@[14] != PROMPTS_LIST_CHANGED@[14]);
    assert(TOOLS_LIST_CHANGED@[14] != RESOURCES_LIST_CHANGED@[14]);
    assert(PROMPTS_LIST_CHANGED@[14] != RESOURCES_LIST_CHANGED@[14]);
}

/// Resource updates and task status changes go to the subscribers that
/// named them: `notifications/resources/updated` is delivered exactly when
/// its `uri` is one of the filter's resource subscriptions, and
/// `notifications/tasks/status` exactly when its `taskId` is one of the
/// filter's task ids; any other method is never delivered.
pub proof fn named_subjects_are_delivered(f: SubscriptionFilter, method: Seq<char>, params: Option<JsonValue>)
    ensures
        spec_filter_matches(f, "notifications/resources/updated"@, params) == (params matches Some(p)
            && json_get_str(p, "uri"@) matches Some(u)
            && exists|i: int| 0 <= i < f.resource_subscriptions@.len() && (#[trigger] f.resource_subscriptions@[i])@ == u),
        spec_filter_matches(f, "notifications/tasks/status"@, params) == (params matches Some(p)
            && json_get_str(p, "taskId"@) matches Some(t)
            && exists|i: int| 0 <= i < f.task_ids@.len() && (#[trigger] f.task_ids@[i])@ == t),
        (method != "notifications/tools/list_changed"@ && method != "notifications/prompts/list_changed"@
            && method != "notifications/resources/list_changed"@ && method != "notifications/resources/updated"@
            && method != "notifications/tasks/status"@) ==> !spec_filter_matches(f, method, params),
{
    reveal_strlit("notifications/tools/list_changed");
    reveal_strlit("notifications/prompts/list_changed");
    reveal_strlit("notifications/resources/list_changed");
    reveal_strlit("notifications/resources/updated");
    reveal_strlit("notifications/tasks/status");
    assert(RESOURCES_UPDATED@.len() != TOOLS_LIST_CHANGED@.len());
    assert(RESOURCES_UPDATED@.len() != PROMPTS_LIST_CHANGED@.len());
    assert(RESOURCES_UPDATED@.len() != RESOURCES_LIST_CHANGED@.len());
    assert(TASKS_STATUS@[15] != TOOLS_LIST_CHANGED@[15]);
    assert(TASKS_STATUS@[14] != PROMPTS_LIST_CHANGED@[14]);
    assert(TASKS_STATUS@[14] != RESOURCES_LIST_CHANGED@[14]);
    assert(TASKS_STATUS@[14] != RESOURCES_UPDATED@[14]);
}

/// A server never widens a subscription: every notification delivered under
/// the accepted filter was asked for by the client.
pub proof fn accepted_filter_only_narrows(req: SubscriptionFilter, caps: ServerCapabilities, acc: SubscriptionFilter, method: Seq<char>, params: Option<JsonValue>)
    requires
        is_accepted_filter(req, caps, acc),
        spec_filter_matches(acc, method, params),
    ensures
        spec_filter_matches(req, method, params),
{
}

/// Whether `params` carries `id` under `_meta` as the subscription id.
pub open spec fn tagged_with(params: Option<JsonValue>, id: JsonValue) -> bool {
    params matches Some(p) && (json_get(p, "_meta"@) matches Some(m)
        && (json_get(m, SUBSCRIPTION_ID_META_KEY@) matches Some(x) && json_same(x, id)))
}

/// Whether the params of a notification can hold a subscription tag: absent,
/// or an object whose `_meta` is absent or an object.
pub open spec fn taggable(params: Option<JsonValue>) -> bool {
    match params {
        None => true,
        Some(p) => p is Object && match json_get(p, "_meta"@) {
            None => true,
            Some(m) => m is Object,
        },
    }
}

/// Tags a notification's params with the subscription id it is delivered on,
/// creating `params` and `_meta` objects when absent. Params of another shape
/// are left as they are.
pub fn add_subscription_id(notification: &mut JsonRpcNotification, id: &JsonValue)
    ensures
        final(notification).method == old(notification).method,
        final(notification).jsonrpc == old(notification).jsonrpc,
        taggable(old(notification).params) ==> tagged_with(final(notification).params, *id),
        taggable(old(notification).params) ==> (final(notification).params matches Some(p) && forall|k: Seq<char>|
            k != "_meta"@ ==> #[trigger] json_get(p, k) == match old(notification).params {
                Some(q) => json_get(q, k),
                None => None,
            }),
        !taggable(old(notification).params) ==> final(notification).params == old(notification).params,
{
    let mut params = match notification.params.take() {
        Some(p) => p,
        None => empty_object(),
    };
    let ghost p0 = params;
    let is_object = match &params {
        JsonValue::Object(_) => true,
        _ => false,
    };
    if !is_object {
        notification.params = Some(params);
        return;
    }
    let new_meta = match params.get("_meta") {
        None => {
            let mut m = empty_object();
            object_set(&mut m, SUBSCRIPTION_ID_META_KEY, json_clone(id));
            Some(m)
        },
        Some(existing) => match existing {
            JsonValue::Object(_) => {
                let mut m = json_clone(existing);
                object_set(&mut m, SUBSCRIPTION_ID_META_KEY, json_clone(id));
                Some(m)
            },
            _ => None,
        },
    };
    match new_meta {
        Some(m) => {
            object_set(&mut params, "_meta", m);
            notification.params = Some(params);
        },
        None => {
            notification.params = Some(params);
        },
    }
}

/// How an optional flag reads from JSON: absent or `null` is `None`, a
/// boolean is itself; anything else does not read.
pub open spec fn flag_of(v: Option<JsonValue>) -> Option<Option<bool>> {
    match v {
        None => Some(None),
        Some(JsonValue::Null) => Some(None),
        Some(JsonValue::Bool(b)) => Some(Some(b)),
        _ => None,
    }
}

/// Every item is a string.
pub open spec fn all_strings(items: Seq<JsonValue>) -> bool {
    forall|i: int| 0 <= i < items.len() ==> #[trigger] items[i] is Str
}

/// How a list of texts reads from JSON: absent or `null` is empty, an array
/// of strings is its texts; anything else does not read.
pub open spec fn texts_of(v: Option<JsonValue>) -> Option<Seq<Seq<char>>> {
    match v {
        None => Some(Seq::empty()),
        Some(JsonValue::Null) => Some(Seq::empty()),
        Some(JsonValue::Array(items)) => if all_strings(items@) { Some(string_items(items@)) } else { None },
        _ => None,
    }
}

/// The texts of a list of strings.
pub open spec fn texts(v: Seq<String>) -> Seq<Seq<char>> {
    v.map_values(|s: String| s@)
}

/// `v` is the JSON form of the filter `f`: an object with the flags
/// `toolsListChanged`, `promptsListChanged`, `resourcesListChanged` and the
/// lists `resourceSubscriptions` and `taskIds`.
pub open spec fn filter_json(v: JsonValue, f: SubscriptionFilter) -> bool {
    &&& v is Object
    &&& flag_of(json_get(v, "toolsListChanged"@)) == Some(f.tools_list_changed)
    &&& flag_of(json_get(v, "promptsListChanged"@)) == Some(f.prompts_list_changed)
    &&& flag_of(json_get(v, "resourcesListChanged"@)) == Some(f.resources_list_changed)
    &&& texts_of(json_get(v, "resourceSubscriptions"@)) == Some(texts(f.resource_subscriptions@))
    &&& texts_of(json_get(v, "taskIds"@)) == Some(texts(f.task_ids@))
}

/// `v` reads as some filter.
pub open spec fn filter_readable(v: JsonValue) -> bool {
    &&& v is Object
    &&& flag_of(json_get(v, "toolsListChanged"@)) is Some
    &&& flag_of(json_get(v, "promptsListChanged"@)) is Some
    &&& flag_of(json_get(v, "resourcesListChanged"@)) is Some
    &&& texts_of(json_get(v, "resourceSubscriptions"@)) is Some
    &&& texts_of(json_get(v, "taskIds"@)) is Some
}

fn read_flag(v: Option<&JsonValue>) -> (r: Option<Option<bool>>)
    ensures
        r == flag_of(match v { Some(x) => Some(*x), None => None }),
{
    match v {
        None => Some(None),
        Some(JsonValue::Null) => Some(None),
        Some(JsonValue::Bool(b)) => Some(Some(*b)),
        _ => None,
    }
}

#[verifier::loop_isolation(false)]
fn read_texts(v: Option<&JsonValue>) -> (r: Option<Vec<String>>)
    ensures
        texts_of(match v { Some(x) => Some(*x), None => None }) == (match r {
            Some(out) => Some(texts(out@)),
            None => None::<Seq<Seq<char>>>,
        }),
{
    match v {
        None => Some(Vec::new()),
        Some(JsonValue::Null) => Some(Vec::new()),
        Some(JsonValue::Array(items)) => {
            let mut out: Vec<String> = Vec::new();
            let n = items.len();
            let mut i: usize = 0;
            while i < n
                invariant
                    n == items@.len(),
                    i <= n,
                    all_strings(items@.take(i as int)),
                    texts(out@) == string_items(items@.take(i as int)),
                decreases n - i,
            {
                assert(items@.take(i + 1).drop_last() =~= items@.take(i as int));
                match &items[i] {
                    JsonValue::Str(t) => {
                        let ghost before = out@;
                        out.push(t.clone());
                        assert(texts(out@) =~= texts(before).push(t@));
                        assert forall|j: int| 0 <= j < i + 1 implies #[trigger] items@.take(i + 1)[j] is Str by {
                            if j < i {
                                assert(items@.take(i + 1)[j] == items@.take(i as int)[j]);
                            }
                        }
                    },
                    _ => {
                        assert(!(items@[i as int] is Str));
                        assert(!all_strings(items@));
                        return None;
                    },
                }
                i = i + 1;
            }
            assert(items@.take(n as int) =~= items@);
            Some(out)
        },
        _ => None,
    }
}

/// Reads a subscription filter from JSON.
pub fn filter_from_json(v: &JsonValue) -> (r: Option<SubscriptionFilter>)
    ensures
        r is Some <==> filter_readable(*v),
        r matches Some(f) ==> filter_json(*v, f),
{
    match v {
        JsonValue::Object(_) => {},
        _ => return None,
    }
    let t = read_flag(v.get("toolsListChanged"));
    let p = read_flag(v.get("promptsListChanged"));
    let rl = read_flag(v.get("resourcesListChanged"));
    let rs = read_texts(v.get("resourceSubscriptions"));
    let ti = read_texts(v.get("taskIds"));
    match (t, p, rl, rs, ti) {
        (Some(t), Some(p), Some(rl), Some(rs), Some(ti)) => Some(SubscriptionFilter {
            tools_list_changed: t,
            prompts_list_changed: p,
            resources_list_changed: rl,
            resource_subscriptions: rs,
            task_ids: ti,
        }),
        _ => None,
    }
}

fn flag_json(b: Option<bool>) -> (r: JsonValue)
    ensures
        flag_of(Some(r)) == Some(b),
{
    match b {
        Some(x) => JsonValue::Bool(x),
        None => JsonValue::Null,
    }
}

#[verifier::loop_isolation(false)]
fn texts_json(v: &Vec<String>) -> (r: JsonValue)
    ensures
        texts_of(Some(r)) == Some(texts(v@)),
{
    let mut xs: Vec<JsonValue> = Vec::new();
    let n = v.len();
    let mut i: usize = 0;
    while i < n
        invariant
            n == v@.len(),
            i <= n,
            xs@.len() == i,
            all_strings(xs@),
            string_items(xs@) == texts(v@.take(i as int)),
        decreases n - i,
    {
        let ghost before = xs@;
        xs.push(JsonValue::Str(v[i].clone()));
        assert(xs@.drop_last() =~= before);
        assert(texts(v@.take(i + 1)) =~= texts(v@.take(i as int)).push(v@[i as int]@));
        i = i + 1;
    }
    assert(v@.take(n as int) =~= v@);
    JsonValue::Array(xs)
}

/// The JSON form of a filter; it reads back as the same filter.
pub fn filter_to_json(f: &SubscriptionFilter) -> (r: JsonValue)
    ensures
        filter_json(r, *f),
{
    proof {
        reveal_strlit("toolsListChanged");
        reveal_strlit("promptsListChanged");
        reveal_strlit("resourcesListChanged");
        reveal_strlit("resourceSubscriptions");
        reveal_strlit("taskIds");
    }
    let mut o = JsonValue::Object(Vec::new());
    object_set(&mut o, "toolsListChanged", flag_json(f.tools_list_changed));
    object_set(&mut o, "promptsListChanged", flag_json(f.prompts_list_changed));
    object_set(&mut o, "resourcesListChanged", flag_json(f.resources_list_changed));
    object_set(&mut o, "resourceSubscriptions", texts_json(&f.resource_subscriptions));
    object_set(&mut o, "taskIds", texts_json(&f.task_ids));
    assert("toolsListChanged"@[0] != "promptsListChanged"@[0]);
    assert("toolsListChanged"@[0] != "resourcesListChanged"@[0]);
    assert("toolsListChanged"@[0] != "resourceSubscriptions"@[0]);
    assert("toolsListChanged"@.len() != "taskIds"@.len());
    assert("promptsListChanged"@[0] != "resourcesListChanged"@[0]);
    assert("promptsListChanged"@[0] != "resourceSubscriptions"@[0]);
    assert("promptsListChanged"@[0] != "taskIds"@[0]);
    assert("resourcesListChanged"@[8] != "resourceSubscriptions"@[8]);
    assert("resourcesListChanged"@[0] != "taskIds"@[0]);
    assert("resourceSubscriptions"@[0] != "taskIds"@[0]);
    o
}

/// The `_meta` key under which a modern request states the client's
/// capabilities.
pub const CLIENT_CAPABILITIES_META_KEY: &'static str = "io.modelcontextprotocol/clientCapabilities";

/// A filter asks for task status notifications when it names tasks.
pub open spec fn requests_tasks(f: SubscriptionFilter) -> bool {
    f.task_ids@.len() > 0
}

/// The client capabilities that `params._meta` states include the tasks
/// extension.
pub open spec fn spec_client_has_tasks_extension(params: Option<JsonValue>) -> bool {
    params matches Some(p) && (json_get(p, "_meta"@) matches Some(m)
        && (json_get(m, CLIENT_CAPABILITIES_META_KEY@) matches Some(c)
        && (json_get(c, "extensions"@) matches Some(e) && json_get(e, TASKS_EXTENSION_ID@) is Some)))
}

/// Whether the client capabilities a request states include the tasks
/// extension.
pub fn client_has_tasks_extension(params: &Option<JsonValue>) -> (r: bool)
    ensures
        r == spec_client_has_tasks_extension(*params),
{
    match params {
        Some(p) => match p.get("_meta") {
            Some(m) => match m.get(CLIENT_CAPABILITIES_META_KEY) {
                Some(c) => match c.get("extensions") {
                    Some(e) => e.get(TASKS_EXTENSION_ID).is_some(),
                    None => false,
                },
                None => false,
            },
            None => false,
        },
        None => false,
    }
}

/// `v` names the tasks extension as the client capability required:
/// `{"extensions": {"io.modelcontextprotocol/tasks": {}}}`.
pub open spec fn is_tasks_capability(v: JsonValue) -> bool {
    &&& v matches JsonValue::Object(es) && es@.len() == 1
    &&& json_get(v, "extensions"@) matches Some(e) && (e matches JsonValue::Object(xs) && xs@.len() == 1
        && (json_get(e, TASKS_EXTENSION_ID@) matches Some(JsonValue::Object(ys)) && ys@.len() == 0))
}

pub(crate) fn tasks_capability() -> (v: JsonValue)
    ensures
        is_tasks_capability(v),
{
    let mut inner: Vec<(String, JsonValue)> = Vec::new();
    inner.push((String::from_str(TASKS_EXTENSION_ID), JsonValue::Object(Vec::new())));
    let mut outer: Vec<(String, JsonValue)> = Vec::new();
    outer.push((String::from_str("extensions"), JsonValue::Object(inner)));
    proof {
        assert(inner@.drop_first().len() == 0);
        assert(outer@.drop_first().len() == 0);
    }
    JsonValue::Object(outer)
}

/// What a `subscriptions/listen` request gets.
pub enum ListenDecision {
    /// Open the subscription with this accepted filter.
    Accept(SubscriptionFilter),
    /// The request is not a modern one or its filter does not read.
    BadRequest,
    /// Refuse it with this error reply.
    Refuse(JsonRpcError),
}

/// The decision on a `subscriptions/listen` request: it must carry modern
/// metadata and a readable `notifications` filter; a filter that asks for
/// tasks from a client without the tasks extension is refused with a
/// missing-capability error naming that extension; otherwise the server
/// accepts what its capabilities allow.
pub open spec fn listen_decision_of(req: JsonRpcRequest, caps: ServerCapabilities, d: ListenDecision) -> bool {
    if spec_request_protocol_version(req) is None {
        d is BadRequest
    } else {
        match req.params {
            None => d is BadRequest,
            Some(p) => match json_get(p, "notifications"@) {
                None => d is BadRequest,
                Some(fv) => if !filter_readable(fv) {
                    d is BadRequest
                } else {
                    exists|requested: SubscriptionFilter| {
                        &&& #[trigger] filter_json(fv, requested)
                        &&& if requests_tasks(requested) && !spec_client_has_tasks_extension(req.params) {
                            d matches ListenDecision::Refuse(e) && exists|v: JsonValue| #[trigger] is_tasks_capability(v)
                                && is_error_reply(e, req.id, McpError::MissingRequiredClientCapability(v))
                        } else {
                            d matches ListenDecision::Accept(acc) && is_accepted_filter(requested, caps, acc)
                        }
                    }
                },
            },
        }
    }
}

/// Decides a `subscriptions/listen` request.
pub fn listen_decision(req: JsonRpcRequest, caps: &ServerCapabilities) -> (d: ListenDecision)
    ensures
        listen_decision_of(req, *caps, d),
{
    if request_protocol_version(&req).is_none() {
        return ListenDecision::BadRequest;
    }
    let fv = match &req.params {
        None => return ListenDecision::BadRequest,
        Some(p) => match p.get("notifications") {
            None => return ListenDecision::BadRequest,
            Some(fv) => fv,
        },
    };
    let ghost gfv = *fv;
    let ghost greq = req;
    let requested = match filter_from_json(fv) {
        None => return ListenDecision::BadRequest,
        Some(f) => f,
    };
    assert(filter_json(gfv, requested));
    assert(filter_readable(gfv));
    assert(greq.params matches Some(p) && json_get(p, "notifications"@) == Some(gfv));
    assert(spec_request_protocol_version(greq) is Some);
    if requested.task_ids.len() > 0 && !client_has_tasks_extension(&req.params) {
        let v = tasks_capability();
        let ghost gv = v;
        let e = McpError::MissingRequiredClientCapability(v);
        let reply = error_reply(req.id, &e);
        assert(is_tasks_capability(gv) && is_error_reply(reply, greq.id, McpError::MissingRequiredClientCapability(gv)));
        return ListenDecision::Refuse(reply);
    }
    let acc = accepted_subscription_filter(&requested, caps);
    assert(is_accepted_filter(requested, *caps, acc));
    assert(!(requests_tasks(requested) && !spec_client_has_tasks_extension(greq.params)));
    ListenDecision::Accept(acc)
}

} // verus!
