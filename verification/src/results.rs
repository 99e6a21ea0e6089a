//! The JSON documents a server answers its requests with: tool, resource,
//! prompt and template listings, the `initialize` result with the declared
//! capabilities, and completion values. Optional fields appear exactly when
//! they are set.
use vstd::prelude::*;
use vstd::string::StringExecFns;
use crate::json::{JsonValue, json_get, json_get_str, json_same, json_clone, entries_lookup, entries_copied, clone_entries};
use crate::encode::{push_member, only_members};
use crate::server::{ToolInfo, ResourceInfo, PromptInfo, PromptArgument, ResourceTemplate};
use crate::handlers::{InitializeResult, ListToolsResult, ListResourcesResult, ListPromptsResult};
use crate::protocol::{ServerCapabilities, Implementation, JsonRpcNotification, JSONRPC_VERSION, TASKS_STATUS};
use crate::tasks::{Task, TaskStatus};
use crate::registry::Registry;
use crate::text::{u64_text, decimal_text};
use crate::discovery::{MethodDirection, MethodType, MethodInfo, ServerCapabilityInfo, ClientCapabilityInfo,
    DiscoveredCapabilities, DiscoveryMetadata, DiscoverResult};

verus! {

broadcast use vstd::std_specs::vec::group_vec_axioms;

/// `key` holds the text `s` when there is one and is absent otherwise.
pub open spec fn text_member(v: JsonValue, key: Seq<char>, s: Option<String>) -> bool {
    match s {
        Some(t) => json_get_str(v, key) == Some(t@),
        None => json_get(v, key) is None,
    }
}

/// `key` holds a copy of `x` when there is one and is absent otherwise.
pub open spec fn json_member(v: JsonValue, key: Seq<char>, x: Option<JsonValue>) -> bool {
    match x {
        Some(t) => json_get(v, key) matches Some(y) && json_same(y, t),
        None => json_get(v, key) is None,
    }
}

/// `key` holds the flag `b` when there is one and is absent otherwise.
pub open spec fn bool_member(v: JsonValue, key: Seq<char>, b: Option<bool>) -> bool {
    json_get(v, key) == match b {
        Some(x) => Some(JsonValue::Bool(x)),
        None => None::<JsonValue>,
    }
}

/// Appends `key` with the text `s` when there is one.
fn push_text(es: &mut Vec<(String, JsonValue)>, key: &str, s: &Option<String>)
    requires
        entries_lookup(old(es)@, key@) is None,
    ensures
        forall|k: Seq<char>| k != key@ ==> #[trigger] entries_lookup(final(es)@, k) == entries_lookup(old(es)@, k),
        text_member(JsonValue::Object(*final(es)), key@, *s),
{
    match s {
        Some(t) => push_member(es, key, JsonValue::Str(t.clone())),
        None => {},
    }
}

/// Appends `key` with a copy of `x` when there is one.
fn push_json(es: &mut Vec<(String, JsonValue)>, key: &str, x: &Option<JsonValue>)
    requires
        entries_lookup(old(es)@, key@) is None,
    ensures
        forall|k: Seq<char>| k != key@ ==> #[trigger] entries_lookup(final(es)@, k) == entries_lookup(old(es)@, k),
        json_member(JsonValue::Object(*final(es)), key@, *x),
{
    match x {
        Some(t) => push_member(es, key, json_clone(t)),
        None => {},
    }
}

/// Appends `key` with the flag `b` when there is one.
fn push_bool(es: &mut Vec<(String, JsonValue)>, key: &str, b: Option<bool>)
    requires
        entries_lookup(old(es)@, key@) is None,
    ensures
        forall|k: Seq<char>| k != key@ ==> #[trigger] entries_lookup(final(es)@, k) == entries_lookup(old(es)@, k),
        bool_member(JsonValue::Object(*final(es)), key@, b),
{
    match b {
        Some(x) => push_member(es, key, JsonValue::Bool(x)),
        None => {},
    }
}

// ---------------------------------------------------------------------------
// Tools
// ---------------------------------------------------------------------------

/// `v` describes the tool `t`: `name`, `description`, `inputSchema` and
/// `outputSchema`.
pub open spec fn carries_tool(v: JsonValue, t: ToolInfo) -> bool {
    &&& json_get(v, "name"@) == Some(JsonValue::Str(t.name))
    &&& text_member(v, "description"@, t.description)
    &&& json_member(v, "inputSchema"@, Some(t.input_schema))
    &&& json_member(v, "outputSchema"@, t.output_schema)
    &&& only_members(v, |k: Seq<char>| k == "name"@ || k == "description"@ || k == "inputSchema"@ || k == "outputSchema"@)
}

/// The description of a tool in a listing.
pub fn tool_json(t: &ToolInfo) -> (v: JsonValue)
    ensures
        carries_tool(v, *t),
{
    proof {
        reveal_strlit("name");
        reveal_strlit("description");
        reveal_strlit("inputSchema");
        reveal_strlit("outputSchema");
        assert("name"@.len() != "description"@.len());
        assert("name"@.len() != "inputSchema"@.len());
        assert("name"@.len() != "outputSchema"@.len());
        assert("description"@[0] != "inputSchema"@[0]);
        assert("description"@[0] != "outputSchema"@[0]);
        assert("inputSchema"@[0] != "outputSchema"@[0]);
    }
    let mut es: Vec<(String, JsonValue)> = Vec::new();
    push_member(&mut es, "name", JsonValue::Str(t.name.clone()));
    push_text(&mut es, "description", &t.description);
    push_member(&mut es, "inputSchema", json_clone(&t.input_schema));
    push_json(&mut es, "outputSchema", &t.output_schema);
    JsonValue::Object(es)
}

/// `v` is the answer to `tools/list`: the listed tools, in order, under
/// `tools`, and `nextCursor` when there is one.
pub open spec fn carries_tools_list(v: JsonValue, r: ListToolsResult) -> bool {
    &&& json_get(v, "tools"@) matches Some(JsonValue::Array(items)) && items@.len() == r.tools@.len()
        && forall|i: int| 0 <= i < items@.len() ==> carries_tool(#[trigger] items@[i], r.tools@[i])
    &&& text_member(v, "nextCursor"@, r.next_cursor)
    &&& only_members(v, |k: Seq<char>| k == "tools"@ || k == "nextCursor"@)
}

/// The answer to `tools/list`.
pub fn tools_list_json(r: &ListToolsResult) -> (v: JsonValue)
    ensures
        carries_tools_list(v, *r),
{
    proof {
        reveal_strlit("tools");
        reveal_strlit("nextCursor");
        assert("tools"@[0] != "nextCursor"@[0]);
    }
    let mut items: Vec<JsonValue> = Vec::new();
    let n = r.tools.len();
    let mut i: usize = 0;
    while i < n
        invariant
            n == r.tools@.len(),
            i <= n,
            items@.len() == i,
            forall|j: int| 0 <= j < i ==> carries_tool(#[trigger] items@[j], r.tools@[j]),
        decreases n - i,
    {
        items.push(tool_json(&r.tools[i]));
        i = i + 1;
    }
    let mut es: Vec<(String, JsonValue)> = Vec::new();
    push_member(&mut es, "tools", JsonValue::Array(items));
    push_text(&mut es, "nextCursor", &r.next_cursor);
    JsonValue::Object(es)
}

// ---------------------------------------------------------------------------
// Resources
// ---------------------------------------------------------------------------

/// `v` describes the resource `r`: `uri`, `name`, `description` and
/// `mimeType`.
pub open spec fn carries_resource(v: JsonValue, r: ResourceInfo) -> bool {
    &&& json_get(v, "uri"@) == Some(JsonValue::Str(r.uri))
    &&& json_get(v, "name"@) == Some(JsonValue::Str(r.name))
    &&& text_member(v, "description"@, r.description)
    &&& text_member(v, "mimeType"@, r.mime_type)
    &&& only_members(v, |k: Seq<char>| k == "uri"@ || k == "name"@ || k == "description"@ || k == "mimeType"@)
}

/// The description of a resource in a listing.
pub fn resource_json(r: &ResourceInfo) -> (v: JsonValue)
    ensures
        carries_resource(v, *r),
{
    proof {
        reveal_strlit("uri");
        reveal_strlit("name");
        reveal_strlit("description");
        reveal_strlit("mimeType");
        assert("uri"@.len() != "name"@.len());
        assert("uri"@.len() != "description"@.len());
        assert("uri"@.len() != "mimeType"@.len());
        assert("name"@.len() != "description"@.len());
        assert("name"@.len() != "mimeType"@.len());
        assert("description"@.len() != "mimeType"@.len());
    }
    let mut es: Vec<(String, JsonValue)> = Vec::new();
    push_member(&mut es, "uri", JsonValue::Str(r.uri.clone()));
    push_member(&mut es, "name", JsonValue::Str(r.name.clone()));
    push_text(&mut es, "description", &r.description);
    push_text(&mut es, "mimeType", &r.mime_type);
    JsonValue::Object(es)
}

/// `v` is the answer to `resources/list`.
pub open spec fn carries_resources_list(v: JsonValue, r: ListResourcesResult) -> bool {
    &&& json_get(v, "resources"@) matches Some(JsonValue::Array(items)) && items@.len() == r.resources@.len()
        && forall|i: int| 0 <= i < items@.len() ==> carries_resource(#[trigger] items@[i], r.resources@[i])
    &&& text_member(v, "nextCursor"@, r.next_cursor)
    &&& only_members(v, |k: Seq<char>| k == "resources"@ || k == "nextCursor"@)
}

/// The answer to `resources/list`.
pub fn resources_list_json(r: &ListResourcesResult) -> (v: JsonValue)
    ensures
        carries_resources_list(v, *r),
{
    proof {
        reveal_strlit("resources");
        reveal_strlit("nextCursor");
        assert("resources"@[0] != "nextCursor"@[0]);
    }
    let mut items: Vec<JsonValue> = Vec::new();
    let n = r.resources.len();
    let mut i: usize = 0;
    while i < n
        invariant
            n == r.resources@.len(),
            i <= n,
            items@.len() == i,
            forall|j: int| 0 <= j < i ==> carries_resource(#[trigger] items@[j], r.resources@[j]),
        decreases n - i,
    {
        items.push(resource_json(&r.resources[i]));
        i = i + 1;
    }
    let mut es: Vec<(String, JsonValue)> = Vec::new();
    push_member(&mut es, "resources", JsonValue::Array(items));
    push_text(&mut es, "nextCursor", &r.next_cursor);
    JsonValue::Object(es)
}

/// `v` describes the resource template `t`: `uriTemplate`, `name`,
/// `description` and `mimeType`.
pub open spec fn carries_template(v: JsonValue, t: ResourceTemplate) -> bool {
    &&& json_get(v, "uriTemplate"@) == Some(JsonValue::Str(t.uri_template))
    &&& json_get(v, "name"@) == Some(JsonValue::Str(t.name))
    &&& text_member(v, "description"@, t.description)
    &&& text_member(v, "mimeType"@, t.mime_type)
    &&& only_members(v, |k: Seq<char>| k == "uriTemplate"@ || k == "name"@ || k == "description"@ || k == "mimeType"@)
}

/// The description of a resource template in a listing.
pub fn template_json(t: &ResourceTemplate) -> (v: JsonValue)
    ensures
        carries_template(v, *t),
{
    proof {
        reveal_strlit("uriTemplate");
        reveal_strlit("name");
        reveal_strlit("description");
        reveal_strlit("mimeType");
        assert("uriTemplate"@.len() != "name"@.len());
        assert("uriTemplate"@[0] != "description"@[0]);
        assert("uriTemplate"@.len() != "mimeType"@.len());
        assert("name"@.len() != "description"@.len());
        assert("name"@.len() != "mimeType"@.len());
        assert("description"@.len() != "mimeType"@.len());
    }
    let mut es: Vec<(String, JsonValue)> = Vec::new();
    push_member(&mut es, "uriTemplate", JsonValue::Str(t.uri_template.clone()));
    push_member(&mut es, "name", JsonValue::Str(t.name.clone()));
    push_text(&mut es, "description", &t.description);
    push_text(&mut es, "mimeType", &t.mime_type);
    JsonValue::Object(es)
}

/// `v` is the answer to `resources/templates/list` for `templates`.
pub open spec fn carries_templates_list(v: JsonValue, templates: Seq<&ResourceTemplate>) -> bool {
    &&& json_get(v, "resourceTemplates"@) matches Some(JsonValue::Array(items)) && items@.len() == templates.len()
        && forall|i: int| 0 <= i < items@.len() ==> carries_template(#[trigger] items@[i], *templates[i])
    &&& only_members(v, |k: Seq<char>| k == "resourceTemplates"@)
}

/// The answer to `resources/templates/list`.
pub fn templates_list_json(templates: &Vec<&ResourceTemplate>) -> (v: JsonValue)
    ensures
        carries_templates_list(v, templates@),
{
    proof {
        reveal_strlit("resourceTemplates");
    }
    let mut items: Vec<JsonValue> = Vec::new();
    let n = templates.len();
    let mut i: usize = 0;
    while i < n
        invariant
            n == templates@.len(),
            i <= n,
            items@.len() == i,
            forall|j: int| 0 <= j < i ==> carries_template(#[trigger] items@[j], *templates@[j]),
        decreases n - i,
    {
        items.push(template_json(templates[i]));
        i = i + 1;
    }
    let mut es: Vec<(String, JsonValue)> = Vec::new();
    push_member(&mut es, "resourceTemplates", JsonValue::Array(items));
    JsonValue::Object(es)
}

// ---------------------------------------------------------------------------
// Prompts
// ---------------------------------------------------------------------------

/// `v` describes the prompt argument `a`: `name`, `description` and
/// `required`.
pub open spec fn carries_argument(v: JsonValue, a: PromptArgument) -> bool {
    &&& json_get(v, "name"@) == Some(JsonValue::Str(a.name))
    &&& text_member(v, "description"@, a.description)
    &&& bool_member(v, "required"@, a.required)
    &&& only_members(v, |k: Seq<char>| k == "name"@ || k == "description"@ || k == "required"@)
}

fn argument_json(a: &PromptArgument) -> (v: JsonValue)
    ensures
        carries_argument(v, *a),
{
    proof {
        reveal_strlit("name");
        reveal_strlit("description");
        reveal_strlit("required");
        assert("name"@.len() != "description"@.len());
        assert("name"@.len() != "required"@.len());
        assert("description"@.len() != "required"@.len());
    }
    let mut es: Vec<(String, JsonValue)> = Vec::new();
    push_member(&mut es, "name", JsonValue::Str(a.name.clone()));
    push_text(&mut es, "description", &a.description);
    push_bool(&mut es, "required", a.required);
    JsonValue::Object(es)
}

/// `v` lists the arguments `args` in order.
pub open spec fn carries_arguments(v: JsonValue, args: Seq<PromptArgument>) -> bool {
    v matches JsonValue::Array(items) && items@.len() == args.len()
        && forall|i: int| 0 <= i < items@.len() ==> carries_argument(#[trigger] items@[i], args[i])
}

fn arguments_json(args: &Vec<PromptArgument>) -> (v: JsonValue)
    ensures
        carries_arguments(v, args@),
{
    let mut items: Vec<JsonValue> = Vec::new();
    let n = args.len();
    let mut i: usize = 0;
    while i < n
        invariant
            n == args@.len(),
            i <= n,
            items@.len() == i,
            forall|j: int| 0 <= j < i ==> carries_argument(#[trigger] items@[j], args@[j]),
        decreases n - i,
    {
        items.push(argument_json(&args[i]));
        i = i + 1;
    }
    JsonValue::Array(items)
}

/// `v` describes the prompt `p`: `name`, `description` and `arguments`.
pub open spec fn carries_prompt(v: JsonValue, p: PromptInfo) -> bool {
    &&& json_get(v, "name"@) == Some(JsonValue::Str(p.name))
    &&& text_member(v, "description"@, p.description)
    &&& match p.arguments {
        Some(args) => json_get(v, "arguments"@) matches Some(a) && carries_arguments(a, args@),
        None => json_get(v, "arguments"@) is None,
    }
    &&& only_members(v, |k: Seq<char>| k == "name"@ || k == "description"@ || k == "arguments"@)
}

/// The description of a prompt in a listing.
pub fn prompt_json(p: &PromptInfo) -> (v: JsonValue)
    ensures
        carries_prompt(v, *p),
{
    proof {
        reveal_strlit("name");
        reveal_strlit("description");
        reveal_strlit("arguments");
        assert("name"@.len() != "description"@.len());
        assert("name"@.len() != "arguments"@.len());
        assert("description"@.len() != "arguments"@.len());
    }
    let mut es: Vec<(String, JsonValue)> = Vec::new();
    push_member(&mut es, "name", JsonValue::Str(p.name.clone()));
    push_text(&mut es, "description", &p.description);
    match &p.arguments {
        Some(args) => push_member(&mut es, "arguments", arguments_json(args)),
        None => {},
    }
    JsonValue::Object(es)
}

/// `v` is the answer to `prompts/list`.
pub open spec fn carries_prompts_list(v: JsonValue, r: ListPromptsResult) -> bool {
    &&& json_get(v, "prompts"@) matches Some(JsonValue::Array(items)) && items@.len() == r.prompts@.len()
        && forall|i: int| 0 <= i < items@.len() ==> carries_prompt(#[trigger] items@[i], r.prompts@[i])
    &&& text_member(v, "nextCursor"@, r.next_cursor)
    &&& only_members(v, |k: Seq<char>| k == "prompts"@ || k == "nextCursor"@)
}

/// The answer to `prompts/list`.
pub fn prompts_list_json(r: &ListPromptsResult) -> (v: JsonValue)
    ensures
        carries_prompts_list(v, *r),
{
    proof {
        reveal_strlit("prompts");
        reveal_strlit("nextCursor");
        assert("prompts"@[0] != "nextCursor"@[0]);
    }
    let mut items: Vec<JsonValue> = Vec::new();
    let n = r.prompts.len();
    let mut i: usize = 0;
    while i < n
        invariant
            n == r.prompts@.len(),
            i <= n,
            items@.len() == i,
            forall|j: int| 0 <= j < i ==> carries_prompt(#[trigger] items@[j], r.prompts@[j]),
        decreases n - i,
    {
        items.push(prompt_json(&r.prompts[i]));
        i = i + 1;
    }
    let mut es: Vec<(String, JsonValue)> = Vec::new();
    push_member(&mut es, "prompts", JsonValue::Array(items));
    push_text(&mut es, "nextCursor", &r.next_cursor);
    JsonValue::Object(es)
}

// ---------------------------------------------------------------------------
// Initialization
// ---------------------------------------------------------------------------

/// `v` is an object with no members.
pub open spec fn empty_object_json(v: JsonValue) -> bool {
    only_members(v, |k: Seq<char>| false)
}

/// `key` holds an empty object when `present`, and is absent otherwise.
pub open spec fn marker_member(v: JsonValue, key: Seq<char>, present: bool) -> bool {
    if present {
        json_get(v, key) matches Some(o) && empty_object_json(o)
    } else {
        json_get(v, key) is None
    }
}

/// `key` holds a copy of the members `es` when there are some, and is
/// absent otherwise.
pub open spec fn entries_member(v: JsonValue, key: Seq<char>, es: Option<Vec<(String, JsonValue)>>) -> bool {
    match es {
        Some(x) => json_get(v, key) matches Some(JsonValue::Object(y)) && entries_copied(y@, x@),
        None => json_get(v, key) is None,
    }
}

/// `v` declares the capabilities `c`: one member per declared capability,
/// carrying its flags.
pub open spec fn carries_capabilities(v: JsonValue, c: ServerCapabilities) -> bool {
    &&& match c.tools {
        Some(t) => json_get(v, "tools"@) matches Some(o) && bool_member(o, "listChanged"@, t.list_changed)
            && only_members(o, |k: Seq<char>| k == "listChanged"@),
        None => json_get(v, "tools"@) is None,
    }
    &&& match c.resources {
        Some(r) => json_get(v, "resources"@) matches Some(o) && bool_member(o, "subscribe"@, r.subscribe)
            && bool_member(o, "listChanged"@, r.list_changed)
            && only_members(o, |k: Seq<char>| k == "subscribe"@ || k == "listChanged"@),
        None => json_get(v, "resources"@) is None,
    }
    &&& match c.prompts {
        Some(p) => json_get(v, "prompts"@) matches Some(o) && bool_member(o, "listChanged"@, p.list_changed)
            && only_members(o, |k: Seq<char>| k == "listChanged"@),
        None => json_get(v, "prompts"@) is None,
    }
    &&& marker_member(v, "sampling"@, c.sampling is Some)
    &&& marker_member(v, "logging"@, c.logging is Some)
    &&& marker_member(v, "completions"@, c.completions is Some)
    &&& entries_member(v, "experimental"@, c.experimental)
    &&& entries_member(v, "extensions"@, c.extensions)
    &&& only_members(v, |k: Seq<char>| k == "tools"@ || k == "resources"@ || k == "prompts"@ || k == "sampling"@
        || k == "logging"@ || k == "completions"@ || k == "experimental"@ || k == "extensions"@)
}

/// An object holding the one flag `key` when it is set.
fn flag_object(key: &str, b: Option<bool>) -> (v: JsonValue)
    ensures
        bool_member(v, key@, b),
        only_members(v, |k: Seq<char>| k == key@),
{
    let mut es: Vec<(String, JsonValue)> = Vec::new();
    push_bool(&mut es, key, b);
    JsonValue::Object(es)
}

/// Appends `key` with an empty object when `present`.
fn push_marker(es: &mut Vec<(String, JsonValue)>, key: &str, present: bool)
    requires
        entries_lookup(old(es)@, key@) is None,
    ensures
        forall|k: Seq<char>| k != key@ ==> #[trigger] entries_lookup(final(es)@, k) == entries_lookup(old(es)@, k),
        marker_member(JsonValue::Object(*final(es)), key@, present),
{
    if present {
        push_member(es, key, JsonValue::Object(Vec::new()));
    }
}

/// Appends `key` with a copy of the members `x` when there are some.
fn push_entries(es: &mut Vec<(String, JsonValue)>, key: &str, x: &Option<Vec<(String, JsonValue)>>)
    requires
        entries_lookup(old(es)@, key@) is None,
    ensures
        forall|k: Seq<char>| k != key@ ==> #[trigger] entries_lookup(final(es)@, k) == entries_lookup(old(es)@, k),
        entries_member(JsonValue::Object(*final(es)), key@, *x),
{
    match x {
        Some(m) => push_member(es, key, JsonValue::Object(clone_entries(m))),
        None => {},
    }
}

/// The declaration of a server's capabilities.
pub fn capabilities_json(c: &ServerCapabilities) -> (v: JsonValue)
    ensures
        carries_capabilities(v, *c),
{
    proof {
        reveal_strlit("tools");
        reveal_strlit("resources");
        reveal_strlit("prompts");
        reveal_strlit("sampling");
        reveal_strlit("logging");
        reveal_strlit("completions");
        reveal_strlit("experimental");
        reveal_strlit("extensions");
        reveal_strlit("listChanged");
        reveal_strlit("subscribe");
        assert("subscribe"@.len() != "listChanged"@.len());
        assert("tools"@[0] != "resources"@[0]);
        assert("tools"@[0] != "prompts"@[0]);
        assert("tools"@[0] != "sampling"@[0]);
        assert("tools"@[0] != "logging"@[0]);
        assert("tools"@[0] != "completions"@[0]);
        assert("tools"@[0] != "experimental"@[0]);
        assert("tools"@[0] != "extensions"@[0]);
        assert("resources"@[0] != "prompts"@[0]);
        assert("resources"@[0] != "sampling"@[0]);
        assert("resources"@[0] != "logging"@[0]);
        assert("resources"@[0] != "completions"@[0]);
        assert("resources"@[0] != "experimental"@[0]);
        assert("resources"@[0] != "extensions"@[0]);
        assert("prompts"@[0] != "sampling"@[0]);
        assert("prompts"@[0] != "logging"@[0]);
        assert("prompts"@[0] != "completions"@[0]);
        assert("prompts"@[0] != "experimental"@[0]);
        assert("prompts"@[0] != "extensions"@[0]);
        assert("sampling"@[0] != "logging"@[0]);
        assert("sampling"@[0] != "completions"@[0]);
        assert("sampling"@[0] != "experimental"@[0]);
        assert("sampling"@[0] != "extensions"@[0]);
        assert("logging"@[0] != "completions"@[0]);
        assert("logging"@[0] != "experimental"@[0]);
        assert("logging"@[0] != "extensions"@[0]);
        assert("completions"@[0] != "experimental"@[0]);
        assert("completions"@[0] != "extensions"@[0]);
        assert("experimental"@[2] != "extensions"@[2]);
    }
    let mut es: Vec<(String, JsonValue)> = Vec::new();
    match &c.tools {
        Some(t) => push_member(&mut es, "tools", flag_object("listChanged", t.list_changed)),
        None => {},
    }
    match &c.resources {
        Some(r) => {
            let mut o: Vec<(String, JsonValue)> = Vec::new();
            push_bool(&mut o, "subscribe", r.subscribe);
            push_bool(&mut o, "listChanged", r.list_changed);
            push_member(&mut es, "resources", JsonValue::Object(o));
        },
        None => {},
    }
    match &c.prompts {
        Some(p) => push_member(&mut es, "prompts", flag_object("listChanged", p.list_changed)),
        None => {},
    }
    push_marker(&mut es, "sampling", c.sampling.is_some());
    push_marker(&mut es, "logging", c.logging.is_some());
    push_marker(&mut es, "completions", c.completions.is_some());
    push_entries(&mut es, "experimental", &c.experimental);
    push_entries(&mut es, "extensions", &c.extensions);
    JsonValue::Object(es)
}

/// `v` names the implementation `i`: `name` and `version`.
pub open spec fn carries_implementation(v: JsonValue, i: Implementation) -> bool {
    &&& json_get(v, "name"@) == Some(JsonValue::Str(i.name))
    &&& json_get(v, "version"@) == Some(JsonValue::Str(i.version))
    &&& only_members(v, |k: Seq<char>| k == "name"@ || k == "version"@)
}

/// The name and version of an implementation.
pub fn implementation_json(i: &Implementation) -> (v: JsonValue)
    ensures
        carries_implementation(v, *i),
{
    proof {
        reveal_strlit("name");
        reveal_strlit("version");
        assert("name"@.len() != "version"@.len());
    }
    let mut es: Vec<(String, JsonValue)> = Vec::new();
    push_member(&mut es, "name", JsonValue::Str(i.name.clone()));
    push_member(&mut es, "version", JsonValue::Str(i.version.clone()));
    JsonValue::Object(es)
}

/// `v` is the answer to `initialize`: `protocolVersion`, `capabilities`
/// and `serverInfo`.
pub open spec fn carries_initialize_result(v: JsonValue, r: InitializeResult) -> bool {
    &&& json_get(v, "protocolVersion"@) == Some(JsonValue::Str(r.protocol_version))
    &&& json_get(v, "capabilities"@) matches Some(c) && carries_capabilities(c, r.capabilities)
    &&& json_get(v, "serverInfo"@) matches Some(s) && carries_implementation(s, r.server_info)
    &&& only_members(v, |k: Seq<char>| k == "protocolVersion"@ || k == "capabilities"@ || k == "serverInfo"@)
}

/// The answer to `initialize`.
pub fn initialize_result_json(r: &InitializeResult) -> (v: JsonValue)
    ensures
        carries_initialize_result(v, *r),
{
    proof {
        reveal_strlit("protocolVersion");
        reveal_strlit("capabilities");
        reveal_strlit("serverInfo");
        assert("protocolVersion"@[0] != "capabilities"@[0]);
        assert("protocolVersion"@[0] != "serverInfo"@[0]);
        assert("capabilities"@[0] != "serverInfo"@[0]);
    }
    let mut es: Vec<(String, JsonValue)> = Vec::new();
    push_member(&mut es, "protocolVersion", JsonValue::Str(r.protocol_version.clone()));
    push_member(&mut es, "capabilities", capabilities_json(&r.capabilities));
    push_member(&mut es, "serverInfo", implementation_json(&r.server_info));
    JsonValue::Object(es)
}

// ---------------------------------------------------------------------------
// Completion
// ---------------------------------------------------------------------------

/// `v` is the answer to `completion/complete` offering `values`:
/// `completion` holding `values`, in order.
pub open spec fn carries_completion(v: JsonValue, values: Seq<String>) -> bool {
    &&& json_get(v, "completion"@) matches Some(c) && {
        &&& json_get(c, "values"@) matches Some(JsonValue::Array(items)) && items@.len() == values.len()
            && forall|i: int| 0 <= i < items@.len() ==> #[trigger] items@[i] == JsonValue::Str(values[i])
        &&& only_members(c, |k: Seq<char>| k == "values"@)
    }
    &&& only_members(v, |k: Seq<char>| k == "completion"@)
}

/// The answer to `completion/complete`.
pub fn completion_json(values: Vec<String>) -> (v: JsonValue)
    ensures
        carries_completion(v, values@),
{
    proof {
        reveal_strlit("completion");
        reveal_strlit("values");
    }
    let mut items: Vec<JsonValue> = Vec::new();
    let n = values.len();
    let mut i: usize = 0;
    while i < n
        invariant
            n == values@.len(),
            i <= n,
            items@.len() == i,
            forall|j: int| 0 <= j < i ==> #[trigger] items@[j] == JsonValue::Str(values@[j]),
        decreases n - i,
    {
        items.push(JsonValue::Str(values[i].clone()));
        i = i + 1;
    }
    let mut inner: Vec<(String, JsonValue)> = Vec::new();
    push_member(&mut inner, "values", JsonValue::Array(items));
    let mut es: Vec<(String, JsonValue)> = Vec::new();
    push_member(&mut es, "completion", JsonValue::Object(inner));
    JsonValue::Object(es)
}

// ---------------------------------------------------------------------------
// Discovery
// ---------------------------------------------------------------------------

/// How a direction is written.
pub open spec fn direction_name(d: MethodDirection) -> Seq<char> {
    match d {
        MethodDirection::ClientToServer => "client_to_server"@,
        MethodDirection::ServerToClient => "server_to_client"@,
        MethodDirection::Bidirectional => "bidirectional"@,
    }
}

fn direction_text(d: MethodDirection) -> (r: String)
    ensures
        r@ == direction_name(d),
{
    match d {
        MethodDirection::ClientToServer => String::from_str("client_to_server"),
        MethodDirection::ServerToClient => String::from_str("server_to_client"),
        MethodDirection::Bidirectional => String::from_str("bidirectional"),
    }
}

/// How a method kind is written.
pub open spec fn method_type_name(t: MethodType) -> Seq<char> {
    match t {
        MethodType::Request => "request"@,
        MethodType::Notification => "notification"@,
    }
}

fn method_type_text(t: MethodType) -> (r: String)
    ensures
        r@ == method_type_name(t),
{
    match t {
        MethodType::Request => String::from_str("request"),
        MethodType::Notification => String::from_str("notification"),
    }
}

/// `v` is an array of the texts `xs`, in order.
pub open spec fn carries_texts(v: JsonValue, xs: Seq<String>) -> bool {
    v matches JsonValue::Array(items) && items@.len() == xs.len()
        && forall|i: int| 0 <= i < items@.len() ==> #[trigger] items@[i] == JsonValue::Str(xs[i])
}

fn texts_json(xs: &Vec<String>) -> (v: JsonValue)
    ensures
        carries_texts(v, xs@),
{
    let mut items: Vec<JsonValue> = Vec::new();
    let n = xs.len();
    let mut i: usize = 0;
    while i < n
        invariant
            n == xs@.len(),
            i <= n,
            items@.len() == i,
            forall|j: int| 0 <= j < i ==> #[trigger] items@[j] == JsonValue::Str(xs@[j]),
        decreases n - i,
    {
        items.push(JsonValue::Str(xs[i].clone()));
        i = i + 1;
    }
    JsonValue::Array(items)
}

/// `key` holds the texts `xs` when there are some, and is absent otherwise.
pub open spec fn texts_member(v: JsonValue, key: Seq<char>, xs: Option<Vec<String>>) -> bool {
    match xs {
        Some(t) => json_get(v, key) matches Some(a) && carries_texts(a, t@),
        None => json_get(v, key) is None,
    }
}

fn push_texts(es: &mut Vec<(String, JsonValue)>, key: &str, xs: &Option<Vec<String>>)
    requires
        entries_lookup(old(es)@, key@) is None,
    ensures
        forall|k: Seq<char>| k != key@ ==> #[trigger] entries_lookup(final(es)@, k) == entries_lookup(old(es)@, k),
        texts_member(JsonValue::Object(*final(es)), key@, *xs),
{
    match xs {
        Some(t) => push_member(es, key, texts_json(t)),
        None => {},
    }
}

/// `v` describes the method `m`: `name`, `description`, `direction`,
/// `method_type`, `tags`, `params_schema` and `result_schema`.
pub open spec fn carries_method(v: JsonValue, m: MethodInfo) -> bool {
    &&& json_get(v, "name"@) == Some(JsonValue::Str(m.name))
    &&& text_member(v, "description"@, m.description)
    &&& json_get_str(v, "direction"@) == Some(direction_name(m.direction))
    &&& json_get_str(v, "method_type"@) == Some(method_type_name(m.method_type))
    &&& texts_member(v, "tags"@, m.tags)
    &&& json_member(v, "params_schema"@, m.params_schema)
    &&& json_member(v, "result_schema"@, m.result_schema)
    &&& only_members(v, |k: Seq<char>| k == "name"@ || k == "description"@ || k == "direction"@ || k == "method_type"@
        || k == "tags"@ || k == "params_schema"@ || k == "result_schema"@)
}

/// The description of a method in a discovery answer.
pub fn method_json(m: &MethodInfo) -> (v: JsonValue)
    ensures
        carries_method(v, *m),
{
    proof {
        reveal_strlit("name");
        reveal_strlit("description");
        reveal_strlit("direction");
        reveal_strlit("method_type");
        reveal_strlit("tags");
        reveal_strlit("params_schema");
        reveal_strlit("result_schema");
        assert("name"@[0] != "description"@[0]);
        assert("name"@[0] != "direction"@[0]);
        assert("name"@[0] != "method_type"@[0]);
        assert("name"@[0] != "tags"@[0]);
        assert("name"@[0] != "params_schema"@[0]);
        assert("name"@[0] != "result_schema"@[0]);
        assert("description"@[2] != "direction"@[2]);
        assert("description"@[0] != "method_type"@[0]);
        assert("description"@[0] != "tags"@[0]);
        assert("description"@[0] != "params_schema"@[0]);
        assert("description"@[0] != "result_schema"@[0]);
        assert("direction"@[0] != "method_type"@[0]);
        assert("direction"@[0] != "tags"@[0]);
        assert("direction"@[0] != "params_schema"@[0]);
        assert("direction"@[0] != "result_schema"@[0]);
        assert("method_type"@[0] != "tags"@[0]);
        assert("method_type"@[0] != "params_schema"@[0]);
        assert("method_type"@[0] != "result_schema"@[0]);
        assert("tags"@[0] != "params_schema"@[0]);
        assert("tags"@[0] != "result_schema"@[0]);
        assert("params_schema"@[0] != "result_schema"@[0]);
    }
    let mut es: Vec<(String, JsonValue)> = Vec::new();
    push_member(&mut es, "name", JsonValue::Str(m.name.clone()));
    push_text(&mut es, "description", &m.description);
    push_member(&mut es, "direction", JsonValue::Str(direction_text(m.direction)));
    push_member(&mut es, "method_type", JsonValue::Str(method_type_text(m.method_type)));
    push_texts(&mut es, "tags", &m.tags);
    push_json(&mut es, "params_schema", &m.params_schema);
    push_json(&mut es, "result_schema", &m.result_schema);
    JsonValue::Object(es)
}

/// `v` lists the methods `ms` in order.
pub open spec fn carries_methods(v: JsonValue, ms: Seq<MethodInfo>) -> bool {
    v matches JsonValue::Array(items) && items@.len() == ms.len()
        && forall|i: int| 0 <= i < items@.len() ==> carries_method(#[trigger] items@[i], ms[i])
}

fn methods_json(ms: &Vec<MethodInfo>) -> (v: JsonValue)
    ensures
        carries_methods(v, ms@),
{
    let mut items: Vec<JsonValue> = Vec::new();
    let n = ms.len();
    let mut i: usize = 0;
    while i < n
        invariant
            n == ms@.len(),
            i <= n,
            items@.len() == i,
            forall|j: int| 0 <= j < i ==> carries_method(#[trigger] items@[j], ms@[j]),
        decreases n - i,
    {
        items.push(method_json(&ms[i]));
        i = i + 1;
    }
    JsonValue::Array(items)
}

/// `v` holds one member per group, in order: the group's name, with its
/// methods.
pub open spec fn carries_groups(v: JsonValue, groups: Seq<(String, Vec<MethodInfo>)>) -> bool {
    v matches JsonValue::Object(es) && es@.len() == groups.len()
        && forall|i: int| 0 <= i < es@.len() ==> (#[trigger] es@[i]).0 == groups[i].0
            && carries_methods(es@[i].1, groups[i].1@)
}

fn groups_json(groups: &Vec<(String, Vec<MethodInfo>)>) -> (v: JsonValue)
    ensures
        carries_groups(v, groups@),
{
    let mut es: Vec<(String, JsonValue)> = Vec::new();
    let n = groups.len();
    let mut i: usize = 0;
    while i < n
        invariant
            n == groups@.len(),
            i <= n,
            es@.len() == i,
            forall|j: int| 0 <= j < i ==> (#[trigger] es@[j]).0 == groups@[j].0 && carries_methods(es@[j].1, groups@[j].1@),
        decreases n - i,
    {
        es.push((groups[i].0.clone(), methods_json(&groups[i].1)));
        i = i + 1;
    }
    JsonValue::Object(es)
}

/// `v` states what the server supports: one flag per capability and the
/// names of its experimental ones.
pub open spec fn carries_server_capability_info(v: JsonValue, s: ServerCapabilityInfo) -> bool {
    &&& json_get(v, "tools"@) == Some(JsonValue::Bool(s.tools))
    &&& json_get(v, "resources"@) == Some(JsonValue::Bool(s.resources))
    &&& json_get(v, "prompts"@) == Some(JsonValue::Bool(s.prompts))
    &&& json_get(v, "logging"@) == Some(JsonValue::Bool(s.logging))
    &&& json_get(v, "completions"@) == Some(JsonValue::Bool(s.completions))
    &&& texts_member(v, "experimental"@, s.experimental)
    &&& only_members(v, |k: Seq<char>| k == "tools"@ || k == "resources"@ || k == "prompts"@ || k == "logging"@
        || k == "completions"@ || k == "experimental"@)
}

fn server_capability_info_json(s: &ServerCapabilityInfo) -> (v: JsonValue)
    ensures
        carries_server_capability_info(v, *s),
{
    proof {
        reveal_strlit("tools");
        reveal_strlit("resources");
        reveal_strlit("prompts");
        reveal_strlit("logging");
        reveal_strlit("completions");
        reveal_strlit("experimental");
        assert("tools"@[0] != "resources"@[0]);
        assert("tools"@[0] != "prompts"@[0]);
        assert("tools"@[0] != "logging"@[0]);
        assert("tools"@[0] != "completions"@[0]);
        assert("tools"@[0] != "experimental"@[0]);
        assert("resources"@[0] != "prompts"@[0]);
        assert("resources"@[0] != "logging"@[0]);
        assert("resources"@[0] != "completions"@[0]);
        assert("resources"@[0] != "experimental"@[0]);
        assert("prompts"@[0] != "logging"@[0]);
        assert("prompts"@[0] != "completions"@[0]);
        assert("prompts"@[0] != "experimental"@[0]);
        assert("logging"@[0] != "completions"@[0]);
        assert("logging"@[0] != "experimental"@[0]);
        assert("completions"@[0] != "experimental"@[0]);
    }
    let mut es: Vec<(String, JsonValue)> = Vec::new();
    push_member(&mut es, "tools", JsonValue::Bool(s.tools));
    push_member(&mut es, "resources", JsonValue::Bool(s.resources));
    push_member(&mut es, "prompts", JsonValue::Bool(s.prompts));
    push_member(&mut es, "logging", JsonValue::Bool(s.logging));
    push_member(&mut es, "completions", JsonValue::Bool(s.completions));
    push_texts(&mut es, "experimental", &s.experimental);
    JsonValue::Object(es)
}

/// `v` states client capabilities: `sampling`, `roots`, `elicitation` and
/// the experimental ones.
pub open spec fn carries_client_capability_info(v: JsonValue, c: ClientCapabilityInfo) -> bool {
    &&& json_get(v, "sampling"@) == Some(JsonValue::Bool(c.sampling))
    &&& json_get(v, "roots"@) == Some(JsonValue::Bool(c.roots))
    &&& json_get(v, "elicitation"@) == Some(JsonValue::Bool(c.elicitation))
    &&& texts_member(v, "experimental"@, c.experimental)
    &&& only_members(v, |k: Seq<char>| k == "sampling"@ || k == "roots"@ || k == "elicitation"@ || k == "experimental"@)
}

fn client_capability_info_json(c: &ClientCapabilityInfo) -> (v: JsonValue)
    ensures
        carries_client_capability_info(v, *c),
{
    proof {
        reveal_strlit("sampling");
        reveal_strlit("roots");
        reveal_strlit("elicitation");
        reveal_strlit("experimental");
        assert("sampling"@[0] != "roots"@[0]);
        assert("sampling"@[0] != "elicitation"@[0]);
        assert("sampling"@[0] != "experimental"@[0]);
        assert("roots"@[0] != "elicitation"@[0]);
        assert("roots"@[0] != "experimental"@[0]);
        assert("elicitation"@[1] != "experimental"@[1]);
    }
    let mut es: Vec<(String, JsonValue)> = Vec::new();
    push_member(&mut es, "sampling", JsonValue::Bool(c.sampling));
    push_member(&mut es, "roots", JsonValue::Bool(c.roots));
    push_member(&mut es, "elicitation", JsonValue::Bool(c.elicitation));
    push_texts(&mut es, "experimental", &c.experimental);
    JsonValue::Object(es)
}

/// `key` describes the client capabilities `c` when there are some, and is
/// absent otherwise.
pub open spec fn client_info_member(v: JsonValue, key: Seq<char>, c: Option<ClientCapabilityInfo>) -> bool {
    match c {
        Some(x) => json_get(v, key) matches Some(o) && carries_client_capability_info(o, x),
        None => json_get(v, key) is None,
    }
}

fn push_client_info(es: &mut Vec<(String, JsonValue)>, key: &str, c: &Option<ClientCapabilityInfo>)
    requires
        entries_lookup(old(es)@, key@) is None,
    ensures
        forall|k: Seq<char>| k != key@ ==> #[trigger] entries_lookup(final(es)@, k) == entries_lookup(old(es)@, k),
        client_info_member(JsonValue::Object(*final(es)), key@, *c),
{
    match c {
        Some(x) => push_member(es, key, client_capability_info_json(x)),
        None => {},
    }
}

/// `v` is the capability part of a discovery answer.
pub open spec fn carries_discovered_capabilities(v: JsonValue, c: DiscoveredCapabilities) -> bool {
    &&& match c.server {
        Some(s) => json_get(v, "server"@) matches Some(o) && carries_server_capability_info(o, s),
        None => json_get(v, "server"@) is None,
    }
    &&& client_info_member(v, "required_client"@, c.required_client)
    &&& client_info_member(v, "optional_client"@, c.optional_client)
    &&& only_members(v, |k: Seq<char>| k == "server"@ || k == "required_client"@ || k == "optional_client"@)
}

fn discovered_capabilities_json(c: &DiscoveredCapabilities) -> (v: JsonValue)
    ensures
        carries_discovered_capabilities(v, *c),
{
    proof {
        reveal_strlit("server");
        reveal_strlit("required_client");
        reveal_strlit("optional_client");
        assert("server"@[0] != "required_client"@[0]);
        assert("server"@[0] != "optional_client"@[0]);
        assert("required_client"@[0] != "optional_client"@[0]);
    }
    let mut es: Vec<(String, JsonValue)> = Vec::new();
    match &c.server {
        Some(s) => push_member(&mut es, "server", server_capability_info_json(s)),
        None => {},
    }
    push_client_info(&mut es, "required_client", &c.required_client);
    push_client_info(&mut es, "optional_client", &c.optional_client);
    JsonValue::Object(es)
}

/// `v` names who answers: `server_name`, `server_version`,
/// `documentation_url`, `support_contact` and `rate_limits`, each when set.
pub open spec fn carries_metadata(v: JsonValue, m: DiscoveryMetadata) -> bool {
    &&& text_member(v, "server_name"@, m.server_name)
    &&& text_member(v, "server_version"@, m.server_version)
    &&& text_member(v, "documentation_url"@, m.documentation_url)
    &&& text_member(v, "support_contact"@, m.support_contact)
    &&& json_member(v, "rate_limits"@, m.rate_limits)
    &&& only_members(v, |k: Seq<char>| k == "server_name"@ || k == "server_version"@ || k == "documentation_url"@
        || k == "support_contact"@ || k == "rate_limits"@)
}

fn metadata_json(m: &DiscoveryMetadata) -> (v: JsonValue)
    ensures
        carries_metadata(v, *m),
{
    proof {
        reveal_strlit("server_name");
        reveal_strlit("server_version");
        reveal_strlit("documentation_url");
        reveal_strlit("support_contact");
        reveal_strlit("rate_limits");
        assert("server_name"@.len() != "server_version"@.len());
        assert("server_name"@[0] != "documentation_url"@[0]);
        assert("server_name"@[1] != "support_contact"@[1]);
        assert("server_name"@[0] != "rate_limits"@[0]);
        assert("server_version"@[0] != "documentation_url"@[0]);
        assert("server_version"@[1] != "support_contact"@[1]);
        assert("server_version"@[0] != "rate_limits"@[0]);
        assert("documentation_url"@[0] != "support_contact"@[0]);
        assert("documentation_url"@[0] != "rate_limits"@[0]);
        assert("support_contact"@[0] != "rate_limits"@[0]);
    }
    let mut es: Vec<(String, JsonValue)> = Vec::new();
    push_text(&mut es, "server_name", &m.server_name);
    push_text(&mut es, "server_version", &m.server_version);
    push_text(&mut es, "documentation_url", &m.documentation_url);
    push_text(&mut es, "support_contact", &m.support_contact);
    push_json(&mut es, "rate_limits", &m.rate_limits);
    JsonValue::Object(es)
}

/// `v` is the answer to `rpc.discover`: `protocol_version`, the methods by
/// group, and the capabilities and metadata when present.
pub open spec fn carries_discover_result(v: JsonValue, r: DiscoverResult) -> bool {
    &&& json_get(v, "protocol_version"@) == Some(JsonValue::Str(r.protocol_version))
    &&& json_get(v, "methods"@) matches Some(g) && carries_groups(g, r.methods@)
    &&& match r.capabilities {
        Some(c) => json_get(v, "capabilities"@) matches Some(o) && carries_discovered_capabilities(o, c),
        None => json_get(v, "capabilities"@) is None,
    }
    &&& match r.metadata {
        Some(m) => json_get(v, "metadata"@) matches Some(o) && carries_metadata(o, m),
        None => json_get(v, "metadata"@) is None,
    }
    &&& only_members(v, |k: Seq<char>| k == "protocol_version"@ || k == "methods"@ || k == "capabilities"@ || k == "metadata"@)
}

/// The answer to `rpc.discover`.
pub fn discover_result_json(r: &DiscoverResult) -> (v: JsonValue)
    ensures
        carries_discover_result(v, *r),
{
    proof {
        reveal_strlit("protocol_version");
        reveal_strlit("methods");
        reveal_strlit("capabilities");
        reveal_strlit("metadata");
        assert("protocol_version"@[0] != "methods"@[0]);
        assert("protocol_version"@[0] != "capabilities"@[0]);
        assert("protocol_version"@[0] != "metadata"@[0]);
        assert("methods"@[0] != "capabilities"@[0]);
        assert("methods"@.len() != "metadata"@.len());
        assert("capabilities"@[0] != "metadata"@[0]);
    }
    let mut es: Vec<(String, JsonValue)> = Vec::new();
    push_member(&mut es, "protocol_version", JsonValue::Str(r.protocol_version.clone()));
    push_member(&mut es, "methods", groups_json(&r.methods));
    match &r.capabilities {
        Some(c) => push_member(&mut es, "capabilities", discovered_capabilities_json(c)),
        None => {},
    }
    match &r.metadata {
        Some(m) => push_member(&mut es, "metadata", metadata_json(m)),
        None => {},
    }
    JsonValue::Object(es)
}

// ---------------------------------------------------------------------------
// Tasks
// ---------------------------------------------------------------------------

/// How a task status is written.
pub open spec fn task_status_name(s: TaskStatus) -> Seq<char> {
    match s {
        TaskStatus::Working => "working"@,
        TaskStatus::InputRequired => "input_required"@,
        TaskStatus::Completed => "completed"@,
        TaskStatus::Failed => "failed"@,
        TaskStatus::Cancelled => "cancelled"@,
    }
}

fn task_status_text(s: TaskStatus) -> (r: String)
    ensures
        r@ == task_status_name(s),
{
    match s {
        TaskStatus::Working => String::from_str("working"),
        TaskStatus::InputRequired => String::from_str("input_required"),
        TaskStatus::Completed => String::from_str("completed"),
        TaskStatus::Failed => String::from_str("failed"),
        TaskStatus::Cancelled => String::from_str("cancelled"),
    }
}

/// `v` is the JSON number `x`: an integer when it fits in 64 signed bits,
/// else its decimal text.
pub open spec fn is_u64_json(v: JsonValue, x: u64) -> bool {
    if x <= i64::MAX {
        v == JsonValue::Int(x as i64)
    } else {
        v matches JsonValue::Decimal(t) && t@ == decimal_text(x as int)
    }
}

fn u64_json(x: u64) -> (v: JsonValue)
    ensures
        is_u64_json(v, x),
{
    if x <= 9223372036854775807u64 {
        JsonValue::Int(x as i64)
    } else {
        JsonValue::Decimal(u64_text(x))
    }
}

/// `key` holds the number `x` when there is one and is absent otherwise.
pub open spec fn u64_member(v: JsonValue, key: Seq<char>, x: Option<u64>) -> bool {
    match x {
        Some(n) => json_get(v, key) matches Some(y) && is_u64_json(y, n),
        None => json_get(v, key) is None,
    }
}

fn push_u64(es: &mut Vec<(String, JsonValue)>, key: &str, x: Option<u64>)
    requires
        entries_lookup(old(es)@, key@) is None,
    ensures
        forall|k: Seq<char>| k != key@ ==> #[trigger] entries_lookup(final(es)@, k) == entries_lookup(old(es)@, k),
        u64_member(JsonValue::Object(*final(es)), key@, x),
{
    match x {
        Some(n) => push_member(es, key, u64_json(n)),
        None => {},
    }
}

/// A copy of a registry's entries, in order.
fn registry_entries(reg: &Registry<JsonValue>) -> (r: Vec<(String, JsonValue)>)
    ensures
        entries_copied(r@, reg.entries()),
{
    let values = reg.values();
    let n = reg.len();
    let mut out: Vec<(String, JsonValue)> = Vec::new();
    let mut i: usize = 0;
    while i < n
        invariant
            n == reg.count(),
            values@.len() == n,
            forall|j: int| 0 <= j < n ==> *values@[j] == reg.entries()[j].1,
            i <= n,
            out@.len() == i,
            forall|j: int| 0 <= j < i ==> (#[trigger] out@[j]).0@ == reg.entries()[j].0@
                && json_same(out@[j].1, reg.entries()[j].1),
        decreases n - i,
    {
        let k = reg.key_at(i).clone();
        let v = json_clone(values[i]);
        out.push((k, v));
        i = i + 1;
    }
    out
}

/// `v` describes the task `t`: `taskId`, `status`, `statusMessage`,
/// `createdAt`, `lastUpdatedAt`, `ttl`, `pollInterval`, the open
/// `inputRequests`, and `result` or `error` when there is one.
pub open spec fn carries_task(v: JsonValue, t: Task) -> bool {
    &&& json_get(v, "taskId"@) == Some(JsonValue::Str(t.task_id))
    &&& json_get_str(v, "status"@) == Some(task_status_name(t.status))
    &&& text_member(v, "statusMessage"@, t.status_message)
    &&& json_get(v, "createdAt"@) == Some(JsonValue::Str(t.created_at))
    &&& json_get(v, "lastUpdatedAt"@) == Some(JsonValue::Str(t.last_updated_at))
    &&& u64_member(v, "ttl"@, t.ttl_ms)
    &&& u64_member(v, "pollInterval"@, t.poll_interval_ms)
    &&& json_get(v, "inputRequests"@) matches Some(JsonValue::Object(es)) && entries_copied(es@, t.input_requests.entries())
    &&& json_member(v, "result"@, t.result)
    &&& json_member(v, "error"@, t.error)
    &&& only_members(v, |k: Seq<char>| k == "taskId"@ || k == "status"@ || k == "statusMessage"@ || k == "createdAt"@
        || k == "lastUpdatedAt"@ || k == "ttl"@ || k == "pollInterval"@ || k == "inputRequests"@ || k == "result"@
        || k == "error"@)
}

/// The description of a task.
pub fn task_json(t: &Task) -> (v: JsonValue)
    ensures
        carries_task(v, *t),
{
    proof {
        reveal_strlit("taskId");
        reveal_strlit("status");
        reveal_strlit("statusMessage");
        reveal_strlit("createdAt");
        reveal_strlit("lastUpdatedAt");
        reveal_strlit("ttl");
        reveal_strlit("pollInterval");
        reveal_strlit("inputRequests");
        reveal_strlit("result");
        reveal_strlit("error");
        assert("taskId"@[0] != "status"@[0]);
        assert("taskId"@[0] != "statusMessage"@[0]);
        assert("taskId"@[0] != "createdAt"@[0]);
        assert("taskId"@[0] != "lastUpdatedAt"@[0]);
        assert("taskId"@[1] != "ttl"@[1]);
        assert("taskId"@[0] != "pollInterval"@[0]);
        assert("taskId"@[0] != "inputRequests"@[0]);
        assert("taskId"@[0] != "result"@[0]);
        assert("taskId"@[0] != "error"@[0]);
        assert("status"@.len() != "statusMessage"@.len());
        assert("status"@[0] != "createdAt"@[0]);
        assert("status"@[0] != "lastUpdatedAt"@[0]);
        assert("status"@[0] != "ttl"@[0]);
        assert("status"@[0] != "pollInterval"@[0]);
        assert("status"@[0] != "inputRequests"@[0]);
        assert("status"@[0] != "result"@[0]);
        assert("status"@[0] != "error"@[0]);
        assert("statusMessage"@[0] != "createdAt"@[0]);
        assert("statusMessage"@[0] != "lastUpdatedAt"@[0]);
        assert("statusMessage"@[0] != "ttl"@[0]);
        assert("statusMessage"@[0] != "pollInterval"@[0]);
        assert("statusMessage"@[0] != "inputRequests"@[0]);
        assert("statusMessage"@[0] != "result"@[0]);
        assert("statusMessage"@[0] != "error"@[0]);
        assert("createdAt"@[0] != "lastUpdatedAt"@[0]);
        assert("createdAt"@[0] != "ttl"@[0]);
        assert("createdAt"@[0] != "pollInterval"@[0]);
        assert("createdAt"@[0] != "inputRequests"@[0]);
        assert("createdAt"@[0] != "result"@[0]);
        assert("createdAt"@[0] != "error"@[0]);
        assert("lastUpdatedAt"@[0] != "ttl"@[0]);
        assert("lastUpdatedAt"@[0] != "pollInterval"@[0]);
        assert("lastUpdatedAt"@[0] != "inputRequests"@[0]);
        assert("lastUpdatedAt"@[0] != "result"@[0]);
        assert("lastUpdatedAt"@[0] != "error"@[0]);
        assert("ttl"@[0] != "pollInterval"@[0]);
        assert("ttl"@[0] != "inputRequests"@[0]);
        assert("ttl"@[0] != "result"@[0]);
        assert("ttl"@[0] != "error"@[0]);
        assert("pollInterval"@[0] != "inputRequests"@[0]);
        assert("pollInterval"@[0] != "result"@[0]);
        assert("pollInterval"@[0] != "error"@[0]);
        assert("inputRequests"@[0] != "result"@[0]);
        assert("inputRequests"@[0] != "error"@[0]);
        assert("result"@[0] != "error"@[0]);
    }
    let mut es: Vec<(String, JsonValue)> = Vec::new();
    push_member(&mut es, "taskId", JsonValue::Str(t.task_id.clone()));
    push_member(&mut es, "status", JsonValue::Str(task_status_text(t.status)));
    push_text(&mut es, "statusMessage", &t.status_message);
    push_member(&mut es, "createdAt", JsonValue::Str(t.created_at.clone()));
    push_member(&mut es, "lastUpdatedAt", JsonValue::Str(t.last_updated_at.clone()));
    push_u64(&mut es, "ttl", t.ttl_ms);
    push_u64(&mut es, "pollInterval", t.poll_interval_ms);
    push_member(&mut es, "inputRequests", JsonValue::Object(registry_entries(&t.input_requests)));
    push_json(&mut es, "result", &t.result);
    push_json(&mut es, "error", &t.error);
    JsonValue::Object(es)
}

/// The notification that publishes a task's status: `notifications/tasks/status`
/// with the task as params.
pub fn task_status_notification(t: &Task) -> (n: JsonRpcNotification)
    ensures
        n.jsonrpc@ == JSONRPC_VERSION@,
        n.method@ == TASKS_STATUS@,
        n.params matches Some(p) && carries_task(p, *t),
{
    JsonRpcNotification::new(String::from_str(TASKS_STATUS), Some(task_json(t)))
}

} // verus!
