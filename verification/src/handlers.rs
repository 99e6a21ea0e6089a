//! Request handlers of the server: each checks and decodes the parameters of
//! one protocol operation and decides the answer, or the registered item
//! whose handler the host then runs.
use vstd::prelude::*;
use vstd::string::StringExecFns;
use crate::error::McpError;
use crate::json::{JsonValue, json_get, json_get_str, json_as_str, get_str, json_clone, json_same,
    entries_copied, clone_entries};
use crate::protocol::{ServerCapabilities, Implementation, LATEST_PROTOCOL_VERSION};
use crate::registry::Registry;
use crate::server::{Tool, ToolInfo, Resource, ResourceInfo, Prompt, PromptInfo, PromptArgument};
use crate::text::{concat, text_eq};

verus! {

// ---------------------------------------------------------------------------
// initialize
// ---------------------------------------------------------------------------

/// Answers `initialize`.
pub struct InitializeHandler;

/// The answer to `initialize`.
pub struct InitializeResult {
    pub protocol_version: String,
    pub capabilities: ServerCapabilities,
    pub server_info: Implementation,
}

/// What an `initialize` request states: the protocol version, the client's
/// name and version. `None` when the parameters lack one of them or the
/// `capabilities` object.
pub open spec fn initialize_params(p: JsonValue) -> Option<(Seq<char>, Seq<char>, Seq<char>)> {
    match (json_get_str(p, "protocolVersion"@), json_get(p, "clientInfo"@), json_get(p, "capabilities"@)) {
        (Some(v), Some(ci), Some(JsonValue::Object(_))) => match (json_get_str(ci, "name"@), json_get_str(ci, "version"@)) {
            (Some(n), Some(ver)) => Some((v, n, ver)),
            _ => None,
        },
        _ => None,
    }
}

/// `a` is a copy of `b`.
pub open spec fn capabilities_copied(a: ServerCapabilities, b: ServerCapabilities) -> bool {
    &&& a.prompts == b.prompts
    &&& a.resources == b.resources
    &&& a.tools == b.tools
    &&& a.sampling == b.sampling
    &&& a.logging == b.logging
    &&& a.completions == b.completions
    &&& entries_option_copied(a.experimental, b.experimental)
    &&& entries_option_copied(a.extensions, b.extensions)
}

/// Both absent, or both present and copies.
pub open spec fn entries_option_copied(a: Option<Vec<(String, JsonValue)>>, b: Option<Vec<(String, JsonValue)>>) -> bool {
    match (a, b) {
        (Some(x), Some(y)) => entries_copied(x@, y@),
        (None, None) => true,
        _ => false,
    }
}

fn clone_entries_option(v: &Option<Vec<(String, JsonValue)>>) -> (r: Option<Vec<(String, JsonValue)>>)
    ensures
        entries_option_copied(r, *v),
{
    match v {
        Some(es) => Some(clone_entries(es)),
        None => None,
    }
}

/// A copy of a capability declaration.
pub fn copy_capabilities(c: &ServerCapabilities) -> (r: ServerCapabilities)
    ensures
        capabilities_copied(r, *c),
{
    let prompts = match &c.prompts {
        Some(p) => Some(crate::protocol::PromptsCapability { list_changed: p.list_changed }),
        None => None,
    };
    let resources = match &c.resources {
        Some(p) => Some(crate::protocol::ResourcesCapability { subscribe: p.subscribe, list_changed: p.list_changed }),
        None => None,
    };
    let tools = match &c.tools {
        Some(p) => Some(crate::protocol::ToolsCapability { list_changed: p.list_changed }),
        None => None,
    };
    let sampling = match &c.sampling {
        Some(_) => Some(crate::protocol::SamplingCapability {}),
        None => None,
    };
    let logging = match &c.logging {
        Some(_) => Some(crate::protocol::LoggingCapability {}),
        None => None,
    };
    let completions = match &c.completions {
        Some(_) => Some(crate::protocol::CompletionsCapability {}),
        None => None,
    };
    let r = ServerCapabilities {
        prompts,
        resources,
        tools,
        sampling,
        logging,
        completions,
        experimental: clone_entries_option(&c.experimental),
        extensions: clone_entries_option(&c.extensions),
    };
    assert(r.prompts == c.prompts);
    assert(r.resources == c.resources);
    assert(r.tools == c.tools);
    assert(r.sampling == c.sampling);
    assert(r.logging == c.logging);
    assert(r.completions == c.completions);
    r
}

impl InitializeHandler {
    /// Answers `initialize`: the parameters must be present and well formed,
    /// name the latest protocol version, and give a non-empty client name
    /// and version; the answer is that version with the server's
    /// capabilities and identity.
    pub fn handle(server_info: &Implementation, capabilities: &ServerCapabilities, params: Option<JsonValue>) -> (r: Result<InitializeResult, McpError>)
        ensures
            match params {
                None => r matches Err(McpError::Validation(m)) && m@ == "Missing initialize parameters"@,
                Some(p) => match initialize_params(p) {
                    None => r matches Err(McpError::Validation(m)) && m@ == "Invalid initialize params: expected protocolVersion, capabilities and clientInfo"@,
                    Some((v, n, ver)) => if v != LATEST_PROTOCOL_VERSION@ {
                        r matches Err(McpError::Protocol(m))
                            && m@ == "Unsupported protocol version: "@ + v + ". Expected: "@ + LATEST_PROTOCOL_VERSION@
                    } else if n.len() == 0 {
                        r matches Err(McpError::Validation(m)) && m@ == "Client name cannot be empty"@
                    } else if ver.len() == 0 {
                        r matches Err(McpError::Validation(m)) && m@ == "Client version cannot be empty"@
                    } else {
                        r matches Ok(res) && {
                            &&& res.protocol_version@ == LATEST_PROTOCOL_VERSION@
                            &&& capabilities_copied(res.capabilities, *capabilities)
                            &&& res.server_info == *server_info
                        }
                    },
                },
            },
    {
        let p = match params {
            None => return Err(McpError::Validation(String::from_str("Missing initialize parameters"))),
            Some(p) => p,
        };
        let version = get_str(&p, "protocolVersion");
        let client = p.get("clientInfo");
        let caps_ok = match p.get("capabilities") {
            Some(JsonValue::Object(_)) => true,
            _ => false,
        };
        let (v, n, ver) = match (version, client) {
            (Some(v), Some(ci)) => match (get_str(ci, "name"), get_str(ci, "version")) {
                (Some(n), Some(ver)) => if caps_ok {
                    (v, n, ver)
                } else {
                    return Err(McpError::Validation(String::from_str(
                        "Invalid initialize params: expected protocolVersion, capabilities and clientInfo")));
                },
                _ => return Err(McpError::Validation(String::from_str(
                    "Invalid initialize params: expected protocolVersion, capabilities and clientInfo"))),
            },
            _ => return Err(McpError::Validation(String::from_str(
                "Invalid initialize params: expected protocolVersion, capabilities and clientInfo"))),
        };
        if !text_eq(v.as_str(), LATEST_PROTOCOL_VERSION) {
            let a = concat("Unsupported protocol version: ", v.as_str());
            let b = concat(a.as_str(), ". Expected: ");
            return Err(McpError::Protocol(concat(b.as_str(), LATEST_PROTOCOL_VERSION)));
        }
        if n.as_str().is_empty() {
            return Err(McpError::Validation(String::from_str("Client name cannot be empty")));
        }
        if ver.as_str().is_empty() {
            return Err(McpError::Validation(String::from_str("Client version cannot be empty")));
        }
        Ok(InitializeResult {
            protocol_version: String::from_str(LATEST_PROTOCOL_VERSION),
            capabilities: copy_capabilities(capabilities),
            server_info: Implementation { name: server_info.name.clone(), version: server_info.version.clone() },
        })
    }
}

// ---------------------------------------------------------------------------
// sampling, logging, ping
// ---------------------------------------------------------------------------

/// Answers `sampling/createMessage`, which a server does not serve.
pub struct SamplingHandler;

impl SamplingHandler {
    /// Always refuses: sampling is the client's part.
    pub fn handle_create_message(params: Option<JsonValue>) -> (r: Result<(), McpError>)
        ensures
            r matches Err(McpError::Protocol(m)) && m@ == "Sampling not implemented on server side"@,
    {
        Err(McpError::Protocol(String::from_str("Sampling not implemented on server side")))
    }
}

/// The logging levels, from least to most severe.
pub open spec fn is_logging_level(s: Seq<char>) -> bool {
    s == "debug"@ || s == "info"@ || s == "notice"@ || s == "warning"@ || s == "error"@
        || s == "critical"@ || s == "alert"@ || s == "emergency"@
}

/// Whether `s` names a logging level.
pub fn logging_level_known(s: &str) -> (r: bool)
    ensures
        r == is_logging_level(s@),
{
    text_eq(s, "debug") || text_eq(s, "info") || text_eq(s, "notice") || text_eq(s, "warning")
        || text_eq(s, "error") || text_eq(s, "critical") || text_eq(s, "alert") || text_eq(s, "emergency")
}

/// Answers `logging/setLevel`.
pub struct LoggingHandler;

impl LoggingHandler {
    /// Accepts a request whose `level` names a logging level.
    pub fn handle_set_level(params: Option<JsonValue>) -> (r: Result<(), McpError>)
        ensures
            match params {
                None => r matches Err(McpError::Validation(m)) && m@ == "Missing logging level parameters"@,
                Some(p) => match json_get_str(p, "level"@) {
                    Some(l) => if is_logging_level(l) {
                        r is Ok
                    } else {
                        r matches Err(McpError::Validation(m)) && m@ == "Invalid set logging level params: unknown level"@
                    },
                    None => r matches Err(McpError::Validation(m)) && m@ == "Invalid set logging level params: expected level"@,
                },
            },
    {
        match params {
            None => Err(McpError::Validation(String::from_str("Missing logging level parameters"))),
            Some(p) => match get_str(&p, "level") {
                Some(l) => if logging_level_known(l.as_str()) {
                    Ok(())
                } else {
                    Err(McpError::Validation(String::from_str("Invalid set logging level params: unknown level")))
                },
                None => Err(McpError::Validation(String::from_str("Invalid set logging level params: expected level"))),
            },
        }
    }
}

/// Answers `ping`.
pub struct PingHandler;

impl PingHandler {
    /// A ping is always answered.
    pub fn handle(params: Option<JsonValue>) -> (r: Result<(), McpError>)
        ensures
            r is Ok,
    {
        Ok(())
    }
}


// ---------------------------------------------------------------------------
// listing
// ---------------------------------------------------------------------------

/// Acceptable parameters of a list request: none, or an object whose
/// `cursor`, if any, is a string or null.
pub open spec fn list_params_ok(params: Option<JsonValue>) -> bool {
    match params {
        None => true,
        Some(p) => p is Object && match json_get(p, "cursor"@) {
            None => true,
            Some(JsonValue::Null) => true,
            Some(JsonValue::Str(_)) => true,
            _ => false,
        },
    }
}

/// The message refusing a list request of `what`.
pub open spec fn list_params_message(what: Seq<char>) -> Seq<char> {
    "Invalid list "@ + what + " params: expected an object with an optional cursor"@
}

fn check_list_params(params: &Option<JsonValue>, what: &str) -> (r: Result<(), McpError>)
    ensures
        r is Ok <==> list_params_ok(*params),
        r matches Err(e) ==> (e matches McpError::Validation(m) && m@ == list_params_message(what@)),
{
    let ok = match params {
        None => true,
        Some(p) => match p {
            JsonValue::Object(_) => match p.get("cursor") {
                None => true,
                Some(JsonValue::Null) => true,
                Some(JsonValue::Str(_)) => true,
                _ => false,
            },
            _ => false,
        },
    };
    if ok {
        Ok(())
    } else {
        let a = concat("Invalid list ", what);
        Err(McpError::Validation(concat(a.as_str(), " params: expected an object with an optional cursor")))
    }
}

fn clone_text_option(v: &Option<String>) -> (r: Option<String>)
    ensures
        r == *v,
{
    match v {
        Some(s) => Some(s.clone()),
        None => None,
    }
}

fn clone_json_option(v: &Option<JsonValue>) -> (r: Option<JsonValue>)
    ensures
        json_option_same(r, *v),
{
    match v {
        Some(x) => Some(json_clone(x)),
        None => None,
    }
}

/// Both absent, or both present and structurally equal.
pub open spec fn json_option_same(a: Option<JsonValue>, b: Option<JsonValue>) -> bool {
    match (a, b) {
        (Some(x), Some(y)) => json_same(x, y),
        (None, None) => true,
        _ => false,
    }
}

/// Answers `tools/list`.
pub struct ToolHandler;

/// The answer to `tools/list`.
pub struct ListToolsResult {
    pub tools: Vec<ToolInfo>,
    pub next_cursor: Option<String>,
}

/// The enabled tools among registry entries, in registration order.
pub open spec fn enabled_tools(es: Seq<(String, Tool)>) -> Seq<Tool>
    decreases es.len(),
{
    if es.len() == 0 {
        Seq::empty()
    } else {
        let prev = enabled_tools(es.drop_last());
        if es.last().1.enabled { prev.push(es.last().1) } else { prev }
    }
}

/// `a` describes the same tool as `b`.
pub open spec fn tool_info_copied(a: ToolInfo, b: ToolInfo) -> bool {
    &&& a.name == b.name
    &&& a.description == b.description
    &&& json_same(a.input_schema, b.input_schema)
    &&& json_option_same(a.output_schema, b.output_schema)
}

fn copy_tool_info(t: &ToolInfo) -> (r: ToolInfo)
    ensures
        tool_info_copied(r, *t),
{
    ToolInfo {
        name: t.name.clone(),
        description: clone_text_option(&t.description),
        input_schema: json_clone(&t.input_schema),
        output_schema: clone_json_option(&t.output_schema),
    }
}

/// What a `tools/call` request names: the tool and the entries of its
/// arguments (none when absent or null). `None` when the name is missing
/// or the arguments are not an object.
pub open spec fn call_params(p: JsonValue) -> Option<(Seq<char>, Seq<(String, JsonValue)>)> {
    match json_get_str(p, "name"@) {
        None => None,
        Some(n) => match json_get(p, "arguments"@) {
            None => Some((n, Seq::empty())),
            Some(JsonValue::Null) => Some((n, Seq::empty())),
            Some(JsonValue::Object(es)) => Some((n, es@)),
            _ => None,
        },
    }
}

/// A tool call to hand to the tool's handler.
pub struct ToolCall {
    pub name: String,
    pub arguments: Vec<(String, JsonValue)>,
}

/// The entries of an optional arguments object: `None` when it is neither
/// absent, null nor an object.
fn argument_entries(v: Option<&JsonValue>) -> (r: Option<Vec<(String, JsonValue)>>)
    ensures
        match v {
            None => r matches Some(es) && es@.len() == 0,
            Some(JsonValue::Null) => r matches Some(es) && es@.len() == 0,
            Some(JsonValue::Object(src)) => r matches Some(es) && entries_copied(es@, src@),
            _ => r is None,
        },
{
    match v {
        None => Some(Vec::new()),
        Some(JsonValue::Null) => Some(Vec::new()),
        Some(JsonValue::Object(es)) => Some(clone_entries(es)),
        _ => None,
    }
}

impl ToolHandler {
    /// The enabled tools' descriptions, in registration order; the
    /// parameters may only carry a cursor, which is not used.
    pub fn handle_list(tools: &Registry<Tool>, params: Option<JsonValue>) -> (r: Result<ListToolsResult, McpError>)
        ensures
            r is Ok <==> list_params_ok(params),
            r matches Err(e) ==> (e matches McpError::Validation(m) && m@ == list_params_message("tools"@)),
            r matches Ok(res) ==> {
                &&& res.next_cursor is None
                &&& res.tools@.len() == enabled_tools(tools.entries()).len()
                &&& forall|i: int| 0 <= i < res.tools@.len() ==>
                    tool_info_copied(#[trigger] res.tools@[i], enabled_tools(tools.entries())[i].info)
            },
    {
        match check_list_params(&params, "tools") {
            Err(e) => return Err(e),
            Ok(()) => {},
        }
        let all = tools.values();
        let ghost es = tools.entries();
        let n = all.len();
        let mut out: Vec<ToolInfo> = Vec::new();
        let mut i: usize = 0;
        while i < n
            invariant
                n == all@.len(),
                all@.len() == es.len(),
                es == tools.entries(),
                forall|j: int| 0 <= j < all@.len() ==> *all@[j] == es[j].1,
                i <= n,
                out@.len() == enabled_tools(es.take(i as int)).len(),
                forall|j: int| 0 <= j < out@.len() ==>
                    tool_info_copied(#[trigger] out@[j], enabled_tools(es.take(i as int))[j].info),
            decreases n - i,
        {
            assert(es.take(i + 1).drop_last() =~= es.take(i as int));
            assert(es.take(i + 1).last() == es[i as int]);
            if all[i].enabled {
                out.push(copy_tool_info(&all[i].info));
            }
            i = i + 1;
        }
        assert(es.take(n as int) =~= es);
        Ok(ListToolsResult { tools: out, next_cursor: None })
    }

    /// Checks a `tools/call` request and names the call to make: the tool
    /// must be given, registered and enabled.
    pub fn handle_call(tools: &Registry<Tool>, params: Option<JsonValue>) -> (r: Result<ToolCall, McpError>)
        ensures
            match params {
                None => r matches Err(McpError::Validation(m)) && m@ == "Missing tool call parameters"@,
                Some(p) => match call_params(p) {
                    None => r matches Err(McpError::Validation(m))
                        && m@ == "Invalid call tool params: expected a name and an arguments object"@,
                    Some((n, args)) => if n.len() == 0 {
                        r matches Err(McpError::Validation(m)) && m@ == "Tool name cannot be empty"@
                    } else {
                        match tools.lookup(n) {
                            None => r matches Err(McpError::ToolNotFound(m)) && m@ == n,
                            Some(t) => if !t.enabled {
                                r matches Err(McpError::ToolNotFound(m)) && m@ == "Tool '"@ + n + "' is disabled"@
                            } else {
                                r matches Ok(call) && call.name@ == n && entries_copied(call.arguments@, args)
                            },
                        }
                    },
                },
            },
    {
        let p = match params {
            None => return Err(McpError::Validation(String::from_str("Missing tool call parameters"))),
            Some(p) => p,
        };
        let decoded = match get_str(&p, "name") {
            None => None,
            Some(n) => match argument_entries(p.get("arguments")) {
                None => None,
                Some(args) => Some((n, args)),
            },
        };
        let (name, arguments) = match decoded {
            None => return Err(McpError::Validation(String::from_str(
                "Invalid call tool params: expected a name and an arguments object"))),
            Some(d) => d,
        };
        if name.as_str().is_empty() {
            return Err(McpError::Validation(String::from_str("Tool name cannot be empty")));
        }
        match tools.get(name.as_str()) {
            None => Err(McpError::ToolNotFound(name.clone())),
            Some(t) => if !t.enabled {
                let a = concat("Tool '", name.as_str());
                Err(McpError::ToolNotFound(concat(a.as_str(), "' is disabled")))
            } else {
                Ok(ToolCall { name: name.clone(), arguments })
            },
        }
    }
}


// ---------------------------------------------------------------------------
// resources
// ---------------------------------------------------------------------------

/// Answers the `resources/*` requests.
pub struct ResourceHandler;

/// The answer to a request about the resource at a URI: refused when the
/// parameters are missing (`missing`), carry no `uri` string (`invalid`),
/// give an empty URI or one that is not registered; else that URI.
pub open spec fn uri_answer(resources: Registry<Resource>, params: Option<JsonValue>, missing: Seq<char>, invalid: Seq<char>, r: Result<String, McpError>) -> bool {
    match params {
        None => r matches Err(McpError::Validation(m)) && m@ == missing,
        Some(p) => match json_get_str(p, "uri"@) {
            None => r matches Err(McpError::Validation(m)) && m@ == invalid,
            Some(u) => if u.len() == 0 {
                r matches Err(McpError::Validation(m)) && m@ == "Resource URI cannot be empty"@
            } else if resources.lookup(u) is None {
                r matches Err(McpError::ResourceNotFound(m)) && m@ == u
            } else {
                r matches Ok(s) && s@ == u
            },
        },
    }
}

fn resource_target(resources: &Registry<Resource>, params: Option<JsonValue>, missing: &str, invalid: &str) -> (r: Result<String, McpError>)
    ensures
        uri_answer(*resources, params, missing@, invalid@, r),
{
    let p = match params {
        None => return Err(McpError::Validation(String::from_str(missing))),
        Some(p) => p,
    };
    let uri = match get_str(&p, "uri") {
        None => return Err(McpError::Validation(String::from_str(invalid))),
        Some(u) => u,
    };
    if uri.as_str().is_empty() {
        return Err(McpError::Validation(String::from_str("Resource URI cannot be empty")));
    }
    if !resources.contains(uri.as_str()) {
        return Err(McpError::ResourceNotFound(uri.clone()));
    }
    Ok(uri.clone())
}

/// The answer to `resources/list`.
pub struct ListResourcesResult {
    pub resources: Vec<ResourceInfo>,
    pub next_cursor: Option<String>,
}

fn copy_resource_info(info: &ResourceInfo) -> (r: ResourceInfo)
    ensures
        r == *info,
{
    ResourceInfo {
        uri: info.uri.clone(),
        name: info.name.clone(),
        description: clone_text_option(&info.description),
        mime_type: clone_text_option(&info.mime_type),
    }
}

impl ResourceHandler {
    /// Every registered resource's description, in registration order.
    pub fn handle_list(resources: &Registry<Resource>, params: Option<JsonValue>) -> (r: Result<ListResourcesResult, McpError>)
        ensures
            r is Ok <==> list_params_ok(params),
            r matches Err(e) ==> (e matches McpError::Validation(m) && m@ == list_params_message("resources"@)),
            r matches Ok(res) ==> {
                &&& res.next_cursor is None
                &&& res.resources@.len() == resources.count()
                &&& forall|i: int| 0 <= i < res.resources@.len() ==> #[trigger] res.resources@[i] == resources.entries()[i].1.info
            },
    {
        match check_list_params(&params, "resources") {
            Err(e) => return Err(e),
            Ok(()) => {},
        }
        let all = resources.values();
        let n = all.len();
        let mut out: Vec<ResourceInfo> = Vec::new();
        let mut i: usize = 0;
        while i < n
            invariant
                n == all@.len(),
                all@.len() == resources.count(),
                forall|j: int| 0 <= j < all@.len() ==> *all@[j] == resources.entries()[j].1,
                i <= n,
                out@.len() == i,
                forall|j: int| 0 <= j < i ==> #[trigger] out@[j] == resources.entries()[j].1.info,
            decreases n - i,
        {
            out.push(copy_resource_info(&all[i].info));
            i = i + 1;
        }
        Ok(ListResourcesResult { resources: out, next_cursor: None })
    }

    /// Checks a `resources/read` request and names the URI to read.
    pub fn handle_read(resources: &Registry<Resource>, params: Option<JsonValue>) -> (r: Result<String, McpError>)
        ensures
            uri_answer(*resources, params, "Missing resource read parameters"@,
                "Invalid read resource params: expected a uri"@, r),
    {
        resource_target(resources, params, "Missing resource read parameters", "Invalid read resource params: expected a uri")
    }

    /// Checks a `resources/subscribe` request and names the URI to watch.
    pub fn handle_subscribe(resources: &Registry<Resource>, params: Option<JsonValue>) -> (r: Result<String, McpError>)
        ensures
            uri_answer(*resources, params, "Missing resource subscribe parameters"@,
                "Invalid subscribe resource params: expected a uri"@, r),
    {
        resource_target(resources, params, "Missing resource subscribe parameters",
            "Invalid subscribe resource params: expected a uri")
    }

    /// Checks a `resources/unsubscribe` request and names the URI to forget.
    pub fn handle_unsubscribe(resources: &Registry<Resource>, params: Option<JsonValue>) -> (r: Result<String, McpError>)
        ensures
            uri_answer(*resources, params, "Missing resource unsubscribe parameters"@,
                "Invalid unsubscribe resource params: expected a uri"@, r),
    {
        resource_target(resources, params, "Missing resource unsubscribe parameters",
            "Invalid unsubscribe resource params: expected a uri")
    }
}

// ---------------------------------------------------------------------------
// prompts
// ---------------------------------------------------------------------------

/// Answers the `prompts/*` requests.
pub struct PromptHandler;

/// The answer to `prompts/list`.
pub struct ListPromptsResult {
    pub prompts: Vec<PromptInfo>,
    pub next_cursor: Option<String>,
}

/// `a` describes the same prompt as `b`.
pub open spec fn prompt_info_copied(a: PromptInfo, b: PromptInfo) -> bool {
    &&& a.name == b.name
    &&& a.description == b.description
    &&& match (a.arguments, b.arguments) {
        (Some(x), Some(y)) => x@ == y@,
        (None, None) => true,
        _ => false,
    }
}

fn copy_prompt_arguments(args: &Vec<PromptArgument>) -> (r: Vec<PromptArgument>)
    ensures
        r@ == args@,
{
    let n = args.len();
    let mut out: Vec<PromptArgument> = Vec::new();
    let mut i: usize = 0;
    while i < n
        invariant
            n == args@.len(),
            i <= n,
            out@ == args@.take(i as int),
        decreases n - i,
    {
        let a = &args[i];
        out.push(PromptArgument { name: a.name.clone(), description: clone_text_option(&a.description), required: a.required });
        assert(args@.take(i + 1) =~= args@.take(i as int).push(args@[i as int]));
        i = i + 1;
    }
    assert(args@.take(n as int) =~= args@);
    out
}

fn copy_prompt_info(info: &PromptInfo) -> (r: PromptInfo)
    ensures
        prompt_info_copied(r, *info),
{
    let arguments = match &info.arguments {
        Some(args) => Some(copy_prompt_arguments(args)),
        None => None,
    };
    PromptInfo { name: info.name.clone(), description: clone_text_option(&info.description), arguments }
}

/// What a `prompts/get` request names: the prompt and its arguments (none
/// when absent or null). `None` when the name is missing, or the arguments
/// are not an object of strings.
pub open spec fn prompt_params(p: JsonValue) -> Option<(Seq<char>, Seq<(String, JsonValue)>)> {
    match json_get_str(p, "name"@) {
        None => None,
        Some(n) => match json_get(p, "arguments"@) {
            None => Some((n, Seq::empty())),
            Some(JsonValue::Null) => Some((n, Seq::empty())),
            Some(JsonValue::Object(es)) => if all_strings(es@) { Some((n, es@)) } else { None },
            _ => None,
        },
    }
}

/// Every value among the entries is a string.
pub open spec fn all_strings(es: Seq<(String, JsonValue)>) -> bool {
    forall|i: int| 0 <= i < es.len() ==> (#[trigger] es[i]).1 is Str
}

/// `a` holds the entries `b` with their string values.
pub open spec fn string_entries_of(a: Seq<(String, String)>, b: Seq<(String, JsonValue)>) -> bool {
    a.len() == b.len() && forall|i: int| 0 <= i < a.len() ==>
        (#[trigger] a[i]).0 == b[i].0 && json_as_str(b[i].1) == Some(a[i].1@)
}

/// A prompt request to hand to the prompt's handler.
pub struct PromptCall {
    pub name: String,
    pub arguments: Vec<(String, String)>,
}

fn string_arguments(es: &Vec<(String, JsonValue)>) -> (r: Option<Vec<(String, String)>>)
    ensures
        r is Some <==> all_strings(es@),
        r matches Some(out) ==> string_entries_of(out@, es@),
{
    let n = es.len();
    let mut out: Vec<(String, String)> = Vec::new();
    let mut i: usize = 0;
    while i < n
        invariant
            n == es@.len(),
            i <= n,
            out@.len() == i,
            forall|j: int| 0 <= j < i ==> (#[trigger] es@[j]).1 is Str,
            forall|j: int| 0 <= j < i ==> (#[trigger] out@[j]).0 == es@[j].0 && json_as_str(es@[j].1) == Some(out@[j].1@),
        decreases n - i,
    {
        match &es[i].1 {
            JsonValue::Str(v) => {
                out.push((es[i].0.clone(), v.clone()));
            },
            _ => {
                return None;
            },
        }
        i = i + 1;
    }
    Some(out)
}

impl PromptHandler {
    /// Every registered prompt's description, in registration order.
    pub fn handle_list(prompts: &Registry<Prompt>, params: Option<JsonValue>) -> (r: Result<ListPromptsResult, McpError>)
        ensures
            r is Ok <==> list_params_ok(params),
            r matches Err(e) ==> (e matches McpError::Validation(m) && m@ == list_params_message("prompts"@)),
            r matches Ok(res) ==> {
                &&& res.next_cursor is None
                &&& res.prompts@.len() == prompts.count()
                &&& forall|i: int| 0 <= i < res.prompts@.len() ==>
                    prompt_info_copied(#[trigger] res.prompts@[i], prompts.entries()[i].1.info)
            },
    {
        match check_list_params(&params, "prompts") {
            Err(e) => return Err(e),
            Ok(()) => {},
        }
        let all = prompts.values();
        let n = all.len();
        let mut out: Vec<PromptInfo> = Vec::new();
        let mut i: usize = 0;
        while i < n
            invariant
                n == all@.len(),
                all@.len() == prompts.count(),
                forall|j: int| 0 <= j < all@.len() ==> *all@[j] == prompts.entries()[j].1,
                i <= n,
                out@.len() == i,
                forall|j: int| 0 <= j < i ==> prompt_info_copied(#[trigger] out@[j], prompts.entries()[j].1.info),
            decreases n - i,
        {
            out.push(copy_prompt_info(&all[i].info));
            i = i + 1;
        }
        Ok(ListPromptsResult { prompts: out, next_cursor: None })
    }

    /// Checks a `prompts/get` request and names the prompt and arguments to
    /// hand to its handler.
    pub fn handle_get(prompts: &Registry<Prompt>, params: Option<JsonValue>) -> (r: Result<PromptCall, McpError>)
        ensures
            match params {
                None => r matches Err(McpError::Validation(m)) && m@ == "Missing prompt get parameters"@,
                Some(p) => match prompt_params(p) {
                    None => r matches Err(McpError::Validation(m))
                        && m@ == "Invalid get prompt params: expected a name and string arguments"@,
                    Some((n, args)) => if n.len() == 0 {
                        r matches Err(McpError::Validation(m)) && m@ == "Prompt name cannot be empty"@
                    } else if prompts.lookup(n) is None {
                        r matches Err(McpError::PromptNotFound(m)) && m@ == n
                    } else {
                        r matches Ok(call) && call.name@ == n && string_entries_of(call.arguments@, args)
                    },
                },
            },
    {
        let p = match params {
            None => return Err(McpError::Validation(String::from_str("Missing prompt get parameters"))),
            Some(p) => p,
        };
        let decoded = match get_str(&p, "name") {
            None => None,
            Some(n) => match p.get("arguments") {
                None => Some((n, Vec::new())),
                Some(JsonValue::Null) => Some((n, Vec::new())),
                Some(JsonValue::Object(es)) => match string_arguments(es) {
                    Some(args) => Some((n, args)),
                    None => None,
                },
                _ => None,
            },
        };
        let (name, arguments) = match decoded {
            None => return Err(McpError::Validation(String::from_str(
                "Invalid get prompt params: expected a name and string arguments"))),
            Some(d) => d,
        };
        if name.as_str().is_empty() {
            return Err(McpError::Validation(String::from_str("Prompt name cannot be empty")));
        }
        if !prompts.contains(name.as_str()) {
            return Err(McpError::PromptNotFound(name.clone()));
        }
        Ok(PromptCall { name: name.clone(), arguments })
    }
}

} // verus!
