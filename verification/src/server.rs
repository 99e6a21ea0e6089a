//! The MCP server core: configuration, registered tools/resources/prompts,
//! lifecycle state, request routing and the reply a routed result becomes.
use vstd::prelude::*;
use vstd::string::StringExecFns;
use crate::json::{JsonValue, json_get, json_get_str, object_set, entries_lookup};
use crate::text::{text_eq, concat};
use crate::error::{McpError, spec_error_code, error_code, rpc_error_text};
use crate::protocol::{
    ServerCapabilities, Implementation, PromptsCapability, ResourcesCapability, ToolsCapability,
    SamplingCapability, LoggingCapability, CompletionsCapability, JsonRpcRequest, JsonRpcResponse,
    JSONRPC_VERSION, INITIALIZE, PING, TOOLS_LIST, TOOLS_CALL, RESOURCES_LIST, RESOURCES_READ,
    RESOURCES_SUBSCRIBE, RESOURCES_UNSUBSCRIBE, PROMPTS_LIST, PROMPTS_GET, RESOURCES_TEMPLATES_LIST,
    COMPLETION_COMPLETE, LOGGING_SET_LEVEL, RPC_DISCOVER, JsonRpcMessage, JsonRpcNotification, ROOTS_LIST_CHANGED,
    SAMPLING_CREATE_MESSAGE, ROOTS_LIST, ELICITATION_CREATE,
};
use crate::completion::{CompletionReference, ref_type, spec_ref_type};
use crate::registry::Registry;
use crate::schema::{normalized_schema, normalize_tool_schema, is_schema_key};
use crate::json::json_same;

verus! {

/// Server limits and switches.
pub struct ServerConfig {
    pub max_concurrent_requests: usize,
    pub request_timeout_ms: u64,
    pub validate_requests: bool,
    pub enable_logging: bool,
}

impl Default for ServerConfig {
    fn default() -> (r: ServerConfig)
        ensures
            r.max_concurrent_requests == 100,
            r.request_timeout_ms == 30000,
            r.validate_requests,
            r.enable_logging,
    {
        ServerConfig {
            max_concurrent_requests: 100,
            request_timeout_ms: 30000,
            validate_requests: true,
            enable_logging: true,
        }
    }
}

/// Lifecycle of a server.
#[derive(PartialEq, Eq, Structural, Clone, Copy, Debug)]
pub enum ServerState {
    Uninitialized,
    Initializing,
    Running,
    Stopping,
    Stopped,
}

/// Description of a tool.
pub struct ToolInfo {
    pub name: String,
    pub description: Option<String>,
    pub input_schema: JsonValue,
    pub output_schema: Option<JsonValue>,
}

/// A registered tool (its handler is held by the host).
pub struct Tool {
    pub info: ToolInfo,
    pub enabled: bool,
}

impl Tool {
    /// An enabled tool.
    pub fn new(name: String, description: Option<String>, input_schema: JsonValue) -> (r: Tool)
        ensures
            r.info.name == name,
            r.info.description == description,
            r.info.input_schema == input_schema,
            r.info.output_schema is None,
            r.enabled,
    {
        Tool { info: ToolInfo { name, description, input_schema, output_schema: None }, enabled: true }
    }
}

/// Description of a resource.
pub struct ResourceInfo {
    pub uri: String,
    pub name: String,
    pub description: Option<String>,
    pub mime_type: Option<String>,
}

/// A registered resource.
pub struct Resource {
    pub info: ResourceInfo,
}

/// One argument of a prompt.
pub struct PromptArgument {
    pub name: String,
    pub description: Option<String>,
    pub required: Option<bool>,
}

/// Description of a prompt.
pub struct PromptInfo {
    pub name: String,
    pub description: Option<String>,
    pub arguments: Option<Vec<PromptArgument>>,
}

/// A registered prompt.
pub struct Prompt {
    pub info: PromptInfo,
}

/// A parameterised family of resources.
pub struct ResourceTemplate {
    pub uri_template: String,
    pub name: String,
    pub description: Option<String>,
    pub mime_type: Option<String>,
}

/// Why a server could not be built.
#[derive(PartialEq, Eq, Structural, Clone, Copy, Debug)]
pub enum ServerBuilderError {
    MissingName,
    MissingVersion,
}

impl ServerBuilderError {
    /// The message of the error.
    pub fn message(&self) -> (r: String)
        ensures
            *self == ServerBuilderError::MissingName ==> r@ == "Server name is required"@,
            *self == ServerBuilderError::MissingVersion ==> r@ == "Server version is required"@,
    {
        match self {
            ServerBuilderError::MissingName => String::from_str("Server name is required"),
            ServerBuilderError::MissingVersion => String::from_str("Server version is required"),
        }
    }
}

/// The capabilities a new server declares: prompts, resources (with
/// subscriptions) and tools with list-change notices, and completions.
pub open spec fn has_default_capabilities(c: ServerCapabilities) -> bool {
    &&& c.prompts matches Some(p) && p.list_changed == Some(true)
    &&& c.resources matches Some(r) && r.subscribe == Some(true) && r.list_changed == Some(true)
    &&& c.tools matches Some(t) && t.list_changed == Some(true)
    &&& c.sampling is None
    &&& c.logging is None
    &&& c.completions is Some
    &&& c.experimental is None
    &&& c.extensions is None
}

/// An MCP server's state: identity, capabilities, configuration, registries
/// and lifecycle. Handlers live with the host; this holds what the protocol
/// logic reads.
pub struct McpServer {
    info: Implementation,
    capabilities: ServerCapabilities,
    config: ServerConfig,
    resources: Registry<Resource>,
    tools: Registry<Tool>,
    prompts: Registry<Prompt>,
    resource_templates: Registry<ResourceTemplate>,
    completion_handlers: Registry<()>,
    request_counter: u64,
    state: ServerState,
}

impl McpServer {
    pub closed spec fn spec_info(self) -> Implementation { self.info }
    pub closed spec fn spec_capabilities(self) -> ServerCapabilities { self.capabilities }
    pub closed spec fn spec_config(self) -> ServerConfig { self.config }
    pub closed spec fn spec_state(self) -> ServerState { self.state }
    pub closed spec fn spec_tools(self) -> Registry<Tool> { self.tools }
    pub closed spec fn spec_resources(self) -> Registry<Resource> { self.resources }
    pub closed spec fn spec_prompts(self) -> Registry<Prompt> { self.prompts }
    pub closed spec fn spec_templates(self) -> Registry<ResourceTemplate> { self.resource_templates }
    pub closed spec fn spec_completion_types(self) -> Registry<()> { self.completion_handlers }
    pub closed spec fn spec_request_counter(self) -> u64 { self.request_counter }

    /// A new, uninitialized server with the default capabilities and configuration.
    pub fn new(name: String, version: String) -> (r: McpServer)
        ensures
            r.spec_info().name == name,
            r.spec_info().version == version,
            has_default_capabilities(r.spec_capabilities()),
            r.spec_config() == (ServerConfig { max_concurrent_requests: 100, request_timeout_ms: 30000, validate_requests: true, enable_logging: true }),
            r.spec_state() == ServerState::Uninitialized,
            r.spec_tools().count() == 0,
            r.spec_resources().count() == 0,
            r.spec_prompts().count() == 0,
            r.spec_templates().count() == 0,
            forall|k: Seq<char>| #[trigger] r.spec_completion_types().lookup(k) is None,
            r.spec_request_counter() == 0,
    {
        McpServer {
            info: Implementation::new(name, version),
            capabilities: ServerCapabilities {
                prompts: Some(PromptsCapability { list_changed: Some(true) }),
                resources: Some(ResourcesCapability { subscribe: Some(true), list_changed: Some(true) }),
                tools: Some(ToolsCapability { list_changed: Some(true) }),
                sampling: None,
                logging: None,
                completions: Some(CompletionsCapability {}),
                experimental: None,
                extensions: None,
            },
            config: ServerConfig::default(),
            resources: Registry::new(),
            tools: Registry::new(),
            prompts: Registry::new(),
            resource_templates: Registry::new(),
            completion_handlers: Registry::new(),
            request_counter: 0,
            state: ServerState::Uninitialized,
        }
    }

    /// A new server with the given configuration.
    pub fn with_config(name: String, version: String, config: ServerConfig) -> (r: McpServer)
        ensures
            r.spec_info().name == name,
            r.spec_info().version == version,
            has_default_capabilities(r.spec_capabilities()),
            r.spec_config() == config,
            r.spec_state() == ServerState::Uninitialized,
            r.spec_tools().count() == 0,
    {
        let mut server = McpServer::new(name, version);
        server.config = config;
        server
    }

    /// Replaces the declared capabilities.
    pub fn set_capabilities(&mut self, capabilities: ServerCapabilities)
        ensures
            final(self).spec_capabilities() == capabilities,
            final(self).spec_info() == old(self).spec_info(),
            final(self).spec_config() == old(self).spec_config(),
            final(self).spec_state() == old(self).spec_state(),
    {
        self.capabilities = capabilities;
    }

    /// Replaces the configuration.
    pub fn set_config(&mut self, config: ServerConfig)
        ensures
            final(self).spec_config() == config,
            final(self).spec_capabilities() == old(self).spec_capabilities(),
            final(self).spec_info() == old(self).spec_info(),
            final(self).spec_state() == old(self).spec_state(),
    {
        self.config = config;
    }

    /// Identity of the server.
    pub fn info(&self) -> (r: &Implementation)
        ensures
            *r == self.spec_info(),
    {
        &self.info
    }

    /// Name of the server.
    pub fn name(&self) -> (r: &str)
        ensures
            r@ == self.spec_info().name@,
    {
        self.info.name.as_str()
    }

    /// Version of the server.
    pub fn version(&self) -> (r: &str)
        ensures
            r@ == self.spec_info().version@,
    {
        self.info.version.as_str()
    }

    /// Declared capabilities.
    pub fn capabilities(&self) -> (r: &ServerCapabilities)
        ensures
            *r == self.spec_capabilities(),
    {
        &self.capabilities
    }

    /// Configuration.
    pub fn config(&self) -> (r: &ServerConfig)
        ensures
            *r == self.spec_config(),
    {
        &self.config
    }

    /// The registered tools.
    pub fn tools(&self) -> (r: &Registry<Tool>)
        ensures
            *r == self.spec_tools(),
    {
        &self.tools
    }

    /// The registered resources.
    pub fn resources(&self) -> (r: &Registry<Resource>)
        ensures
            *r == self.spec_resources(),
    {
        &self.resources
    }

    /// The registered prompts.
    pub fn prompts(&self) -> (r: &Registry<Prompt>)
        ensures
            *r == self.spec_prompts(),
    {
        &self.prompts
    }

    /// Installs the tools a builder collected.
    pub fn set_initial_tools(&mut self, tools: Registry<Tool>)
        ensures
            final(self).spec_tools() == tools,
            final(self).spec_state() == old(self).spec_state(),
    {
        self.tools = tools;
    }

    /// Installs the resources a builder collected.
    pub fn set_initial_resources(&mut self, resources: Registry<Resource>)
        ensures
            final(self).spec_resources() == resources,
            final(self).spec_state() == old(self).spec_state(),
    {
        self.resources = resources;
    }

    /// Installs the prompts a builder collected.
    pub fn set_initial_prompts(&mut self, prompts: Registry<Prompt>)
        ensures
            final(self).spec_prompts() == prompts,
            final(self).spec_state() == old(self).spec_state(),
    {
        self.prompts = prompts;
    }

    /// Installs the resource templates a builder collected.
    pub fn set_initial_resource_templates(&mut self, templates: Registry<ResourceTemplate>)
        ensures
            final(self).spec_templates() == templates,
            final(self).spec_state() == old(self).spec_state(),
    {
        self.resource_templates = templates;
    }
}

/// Rebuilding a schema that accepts any object gives one that accepts any
/// object.
proof fn lemma_normalized_any_object(given: JsonValue, v: JsonValue)
    requires
        is_any_object_schema(given),
        normalized_schema(given, v),
    ensures
        is_any_object_schema(v),
{
    reveal_strlit("additionalProperties");
    reveal_strlit("type");
    reveal_strlit("properties");
    reveal_strlit("required");
    assert("additionalProperties"@.len() != "type"@.len());
    assert("additionalProperties"@.len() != "properties"@.len());
    assert("additionalProperties"@.len() != "required"@.len());
    assert(!is_schema_key("additionalProperties"@));
    let b = json_get(v, "additionalProperties"@)->Some_0;
    assert(json_same(b, JsonValue::Bool(true)));
}

/// The schema of a tool that accepts any object.
pub open spec fn is_any_object_schema(v: JsonValue) -> bool {
    &&& json_get_str(v, "type"@) == Some("object"@)
    &&& json_get(v, "properties"@) matches Some(JsonValue::Object(ps)) && ps@.len() == 0
    &&& json_get(v, "additionalProperties"@) == Some(JsonValue::Bool(true))
}

fn any_object_schema() -> (r: JsonValue)
    ensures
        is_any_object_schema(r),
{
    proof {
        reveal_strlit("type");
        reveal_strlit("properties");
        reveal_strlit("additionalProperties");
    }
    let mut r = JsonValue::Object(Vec::new());
    object_set(&mut r, "type", JsonValue::Str(String::from_str("object")));
    object_set(&mut r, "properties", JsonValue::Object(Vec::new()));
    object_set(&mut r, "additionalProperties", JsonValue::Bool(true));
    assert("type"@.len() != "properties"@.len());
    assert("type"@.len() != "additionalProperties"@.len());
    assert("properties"@.len() != "additionalProperties"@.len());
    r
}

/// Where a request is dispatched.
#[derive(PartialEq, Eq, Structural, Clone, Copy, Debug)]
pub enum RequestRoute {
    Initialize,
    Ping,
    ToolsList,
    ToolsCall,
    ResourcesList,
    ResourcesRead,
    ResourcesSubscribe,
    ResourcesUnsubscribe,
    PromptsList,
    PromptsGet,
    ResourceTemplatesList,
    CompletionComplete,
    LoggingSetLevel,
    RpcDiscover,
    Unknown,
}

/// The handler a method name is dispatched to.
pub open spec fn spec_route(method: Seq<char>) -> RequestRoute {
    if method == crate::protocol::INITIALIZE@ { RequestRoute::Initialize }
    else if method == crate::protocol::PING@ { RequestRoute::Ping }
    else if method == crate::protocol::TOOLS_LIST@ { RequestRoute::ToolsList }
    else if method == crate::protocol::TOOLS_CALL@ { RequestRoute::ToolsCall }
    else if method == crate::protocol::RESOURCES_LIST@ { RequestRoute::ResourcesList }
    else if method == crate::protocol::RESOURCES_READ@ { RequestRoute::ResourcesRead }
    else if method == crate::protocol::RESOURCES_SUBSCRIBE@ { RequestRoute::ResourcesSubscribe }
    else if method == crate::protocol::RESOURCES_UNSUBSCRIBE@ { RequestRoute::ResourcesUnsubscribe }
    else if method == crate::protocol::PROMPTS_LIST@ { RequestRoute::PromptsList }
    else if method == crate::protocol::PROMPTS_GET@ { RequestRoute::PromptsGet }
    else if method == crate::protocol::RESOURCES_TEMPLATES_LIST@ { RequestRoute::ResourceTemplatesList }
    else if method == crate::protocol::COMPLETION_COMPLETE@ { RequestRoute::CompletionComplete }
    else if method == crate::protocol::LOGGING_SET_LEVEL@ { RequestRoute::LoggingSetLevel }
    else if method == crate::protocol::RPC_DISCOVER@ { RequestRoute::RpcDiscover }
    else { RequestRoute::Unknown }
}

/// The handler a method name is dispatched to.
pub fn route_request(method: &str) -> (r: RequestRoute)
    ensures
        r == spec_route(method@),
{
    if text_eq(method, INITIALIZE) { RequestRoute::Initialize }
    else if text_eq(method, PING) { RequestRoute::Ping }
    else if text_eq(method, TOOLS_LIST) { RequestRoute::ToolsList }
    else if text_eq(method, TOOLS_CALL) { RequestRoute::ToolsCall }
    else if text_eq(method, RESOURCES_LIST) { RequestRoute::ResourcesList }
    else if text_eq(method, RESOURCES_READ) { RequestRoute::ResourcesRead }
    else if text_eq(method, RESOURCES_SUBSCRIBE) { RequestRoute::ResourcesSubscribe }
    else if text_eq(method, RESOURCES_UNSUBSCRIBE) { RequestRoute::ResourcesUnsubscribe }
    else if text_eq(method, PROMPTS_LIST) { RequestRoute::PromptsList }
    else if text_eq(method, PROMPTS_GET) { RequestRoute::PromptsGet }
    else if text_eq(method, RESOURCES_TEMPLATES_LIST) { RequestRoute::ResourceTemplatesList }
    else if text_eq(method, COMPLETION_COMPLETE) { RequestRoute::CompletionComplete }
    else if text_eq(method, LOGGING_SET_LEVEL) { RequestRoute::LoggingSetLevel }
    else if text_eq(method, RPC_DISCOVER) { RequestRoute::RpcDiscover }
    else { RequestRoute::Unknown }
}

/// The code a failed handler's error is reported with.
pub open spec fn spec_handler_error_code(e: McpError) -> i64 {
    match e {
        McpError::ToolNotFound(_) => crate::error::TOOL_NOT_FOUND,
        McpError::ResourceNotFound(_) => crate::error::RESOURCE_NOT_FOUND,
        McpError::PromptNotFound(_) => crate::error::PROMPT_NOT_FOUND,
        McpError::Validation(_) => crate::error::INVALID_PARAMS,
        _ => crate::error::INTERNAL_ERROR,
    }
}

/// Turns a handler outcome for request `id` into the server's reply: the
/// result on success, otherwise a protocol error naming the JSON-RPC code.
pub fn reply_for(id: JsonValue, result: Result<JsonValue, McpError>) -> (r: Result<JsonRpcResponse, McpError>)
    ensures
        result matches Ok(v) ==> (r matches Ok(resp) && resp.id == id && resp.result == Some(v)
            && resp.jsonrpc@ == JSONRPC_VERSION@),
        result matches Err(e) ==> (r matches Err(McpError::Protocol(m))
            && m@ == rpc_error_text(spec_handler_error_code(e), crate::error::spec_error_text(e))),
{
    match result {
        Ok(v) => Ok(JsonRpcResponse::success(id, v)),
        Err(e) => {
            let code = match &e {
                McpError::ToolNotFound(_) => crate::error::TOOL_NOT_FOUND,
                McpError::ResourceNotFound(_) => crate::error::RESOURCE_NOT_FOUND,
                McpError::PromptNotFound(_) => crate::error::PROMPT_NOT_FOUND,
                McpError::Validation(_) => crate::error::INVALID_PARAMS,
                _ => crate::error::INTERNAL_ERROR,
            };
            let text = e.text();
            Err(McpError::Protocol(crate::error::rpc_error_message(code, text.as_str())))
        },
    }
}

/// The shape checks applied to an incoming request when validation is on.
pub open spec fn spec_request_well_formed(req: JsonRpcRequest) -> bool {
    req.jsonrpc@ == JSONRPC_VERSION@ && req.method@.len() > 0
}

impl McpServer {
    /// Decides where a request goes: validation failures (when the server
    /// validates requests) are errors as they are; an unknown method is
    /// answered as a failed handler is, `JSON-RPC error -32603: Unknown
    /// method: {method}`.
    pub fn check_request(&self, request: &JsonRpcRequest) -> (r: Result<RequestRoute, McpError>)
        ensures
            self.spec_config().validate_requests && !spec_request_well_formed(*request)
                ==> r matches Err(McpError::Validation(_)),
            !(self.spec_config().validate_requests && !spec_request_well_formed(*request)) ==> (
                if spec_route(request.method@) == RequestRoute::Unknown {
                    r matches Err(McpError::Protocol(m))
                        && m@ == rpc_error_text(crate::error::INTERNAL_ERROR, "Unknown method: "@ + request.method@)
                } else {
                    r == Ok::<RequestRoute, McpError>(spec_route(request.method@))
                }),
    {
        if self.config.validate_requests {
            if !text_eq(request.jsonrpc.as_str(), JSONRPC_VERSION) {
                return Err(McpError::Validation(String::from_str("Invalid JSON-RPC version")));
            }
            if request.method.as_str().is_empty() {
                return Err(McpError::Validation(String::from_str("Method name cannot be empty")));
            }
        }
        let route = route_request(request.method.as_str());
        if route == RequestRoute::Unknown {
            // The handler's error is answered as every failed handler is.
            let unknown = concat("Unknown method: ", request.method.as_str());
            Err(McpError::Protocol(crate::error::rpc_error_message(crate::error::INTERNAL_ERROR, unknown.as_str())))
        } else {
            Ok(route)
        }
    }

    // ----------------------------------------------------------------------
    // Lifecycle
    // ----------------------------------------------------------------------

    /// First half of `start`: only an uninitialized server may start.
    pub fn begin_start(&mut self) -> (r: Result<(), McpError>)
        ensures
            old(self).spec_state() == ServerState::Uninitialized ==> (r is Ok && final(self).spec_state() == ServerState::Initializing),
            old(self).spec_state() != ServerState::Uninitialized ==> (r matches Err(McpError::Protocol(m))
                && m@ == "Server is already started"@ && final(self).spec_state() == old(self).spec_state()),
    {
        match self.state {
            ServerState::Uninitialized => {
                self.state = ServerState::Initializing;
                Ok(())
            },
            _ => Err(McpError::Protocol(String::from_str("Server is already started"))),
        }
    }

    /// Second half of `start`, given what starting the transport gave: once
    /// the transport runs the server is running; a transport that failed to
    /// start leaves the state as it was and its error is the answer.
    pub fn finish_start(&mut self, transport_started: Result<(), McpError>) -> (r: Result<(), McpError>)
        ensures
            r == transport_started,
            transport_started is Ok ==> final(self).spec_state() == ServerState::Running,
            transport_started is Err ==> final(self).spec_state() == old(self).spec_state(),
    {
        if transport_started.is_ok() {
            self.state = ServerState::Running;
        }
        transport_started
    }

    /// First half of `stop`: a running server begins stopping (`Ok(true)`),
    /// a stopped one has nothing to do (`Ok(false)`), any other state is an error.
    pub fn begin_stop(&mut self) -> (r: Result<bool, McpError>)
        ensures
            old(self).spec_state() == ServerState::Running ==> (r == Ok::<bool, McpError>(true)
                && final(self).spec_state() == ServerState::Stopping),
            old(self).spec_state() == ServerState::Stopped ==> (r == Ok::<bool, McpError>(false)
                && final(self).spec_state() == ServerState::Stopped),
            old(self).spec_state() != ServerState::Running && old(self).spec_state() != ServerState::Stopped ==> (
                r matches Err(McpError::Protocol(m)) && m@ == "Server is not running"@
                && final(self).spec_state() == old(self).spec_state()),
    {
        match self.state {
            ServerState::Running => {
                self.state = ServerState::Stopping;
                Ok(true)
            },
            ServerState::Stopped => Ok(false),
            _ => Err(McpError::Protocol(String::from_str("Server is not running"))),
        }
    }

    /// Second half of `stop`, once the transport stopped.
    pub fn finish_stop(&mut self)
        ensures
            final(self).spec_state() == ServerState::Stopped,
    {
        self.state = ServerState::Stopped;
    }

    /// Marks the server as running.
    pub fn initialize(&mut self) -> (r: Result<(), McpError>)
        ensures
            r is Ok,
            final(self).spec_state() == ServerState::Running,
    {
        self.state = ServerState::Running;
        Ok(())
    }

    /// Current lifecycle state.
    pub fn state(&self) -> (r: ServerState)
        ensures
            r == self.spec_state(),
    {
        self.state
    }

    /// Current lifecycle state.
    pub fn get_state(&self) -> (r: ServerState)
        ensures
            r == self.spec_state(),
    {
        self.state
    }

    /// Whether the server is running.
    pub fn is_running(&self) -> (r: bool)
        ensures
            r == (self.spec_state() == ServerState::Running),
    {
        self.state == ServerState::Running
    }

    /// Whether the server has been initialized (is running).
    pub fn is_initialized(&self) -> (r: bool)
        ensures
            r == (self.spec_state() == ServerState::Running),
    {
        self.state == ServerState::Running
    }

    /// Whether the server is stopping or stopped.
    pub fn is_stopped(&self) -> (r: bool)
        ensures
            r == (self.spec_state() == ServerState::Stopping || self.spec_state() == ServerState::Stopped),
    {
        self.state == ServerState::Stopping || self.state == ServerState::Stopped
    }

    // ----------------------------------------------------------------------
    // Tools
    // ----------------------------------------------------------------------

    /// Registers a tool that accepts any object: its input schema is
    /// `{"type": "object", "properties": {}, "additionalProperties": true}`.
    /// An empty name, or the name of a registered tool, is refused.
    pub fn add_simple_tool(&mut self, name: &str, description: &str) -> (r: Result<(), McpError>)
        ensures
            r is Ok <==> (name@.len() > 0 && old(self).spec_tools().lookup(name@) is None),
            name@.len() == 0 ==> (r matches Err(McpError::Validation(m)) && m@ == "Tool name cannot be empty"@),
            name@.len() > 0 && old(self).spec_tools().lookup(name@) is Some ==> (r matches Err(McpError::Validation(m))
                && m@ == "Tool already registered: "@ + name@),
            r is Err ==> final(self).spec_tools() == old(self).spec_tools(),
            r is Ok ==> (final(self).spec_tools().lookup(name@) matches Some(t) && {
                &&& t.enabled
                &&& t.info.name@ == name@
                &&& t.info.description matches Some(d) && d@ == description@
                &&& is_any_object_schema(t.info.input_schema)
            }),
            r is Ok ==> forall|k: Seq<char>| k != name@ ==> #[trigger] final(self).spec_tools().lookup(k) == old(self).spec_tools().lookup(k),
            r is Ok ==> final(self).spec_tools().count() == old(self).spec_tools().count() + 1,
            final(self).spec_state() == old(self).spec_state(),
    {
        let schema = any_object_schema();
        let ghost given = schema;
        let r = self.add_tool(String::from_str(name), Some(String::from_str(description)), schema);
        proof {
            if r is Ok {
                let t = final(self).spec_tools().lookup(name@)->Some_0;
                lemma_normalized_any_object(given, t.info.input_schema);
            }
        }
        r
    }

    /// Registers a tool built from a name, description and input schema,
    /// the schema rebuilt as an object schema. An empty name, or the name of
    /// a registered tool, is refused.
    pub fn add_tool(&mut self, name: String, description: Option<String>, schema: JsonValue) -> (r: Result<(), McpError>)
        ensures
            r is Ok <==> (name@.len() > 0 && old(self).spec_tools().lookup(name@) is None),
            name@.len() == 0 ==> (r matches Err(McpError::Validation(m)) && m@ == "Tool name cannot be empty"@),
            name@.len() > 0 && old(self).spec_tools().lookup(name@) is Some ==> (r matches Err(McpError::Validation(m))
                && m@ == "Tool already registered: "@ + name@),
            r is Err ==> final(self).spec_tools() == old(self).spec_tools(),
            r is Ok ==> (final(self).spec_tools().lookup(name@) matches Some(t) && t.enabled
                && t.info.name@ == name@ && t.info.description == description
                && normalized_schema(schema, t.info.input_schema) && t.info.output_schema is None),
            r is Ok ==> forall|k: Seq<char>| k != name@ ==> #[trigger] final(self).spec_tools().lookup(k) == old(self).spec_tools().lookup(k),
            r is Ok ==> final(self).spec_tools().count() == old(self).spec_tools().count() + 1,
            final(self).spec_state() == old(self).spec_state(),
    {
        let tool = Tool::new(name, description, normalize_tool_schema(&schema));
        self.add_tool_detailed(tool)
    }

    /// Registers a tool. An empty name, or the name of a registered tool, is
    /// refused, and the registry is left as it was.
    pub fn add_tool_detailed(&mut self, tool: Tool) -> (r: Result<(), McpError>)
        ensures
            r is Ok <==> (tool.info.name@.len() > 0 && old(self).spec_tools().lookup(tool.info.name@) is None),
            tool.info.name@.len() == 0 ==> (r matches Err(McpError::Validation(m)) && m@ == "Tool name cannot be empty"@),
            tool.info.name@.len() > 0 && old(self).spec_tools().lookup(tool.info.name@) is Some ==> (
                r matches Err(McpError::Validation(m)) && m@ == "Tool already registered: "@ + tool.info.name@),
            r is Err ==> final(self).spec_tools() == old(self).spec_tools(),
            r is Ok ==> final(self).spec_tools().lookup(tool.info.name@) == Some(tool),
            r is Ok ==> forall|k: Seq<char>| k != tool.info.name@ ==> #[trigger] final(self).spec_tools().lookup(k) == old(self).spec_tools().lookup(k),
            r is Ok ==> final(self).spec_tools().count() == old(self).spec_tools().count() + 1,
            final(self).spec_state() == old(self).spec_state(),
    {
        if tool.info.name.as_str().is_empty() {
            return Err(McpError::Validation(String::from_str("Tool name cannot be empty")));
        }
        if self.tools.contains(tool.info.name.as_str()) {
            return Err(McpError::Validation(concat("Tool already registered: ", tool.info.name.as_str())));
        }
        let key = tool.info.name.clone();
        self.tools.insert(key, tool);
        Ok(())
    }

    /// Unregisters a tool; returns whether it was registered.
    pub fn remove_tool(&mut self, name: &str) -> (r: bool)
        ensures
            r == old(self).spec_tools().lookup(name@) is Some,
            final(self).spec_tools().lookup(name@) is None,
            forall|k: Seq<char>| k != name@ ==> #[trigger] final(self).spec_tools().lookup(k) == old(self).spec_tools().lookup(k),
    {
        self.tools.remove(name)
    }

    /// Descriptions of all registered tools, in registration order.
    pub fn list_tools(&self) -> (r: Vec<&ToolInfo>)
        ensures
            r@.len() == self.spec_tools().count(),
            forall|i: int| 0 <= i < r@.len() ==> *r@[i] == self.spec_tools().entries()[i].1.info,
    {
        let tools = self.tools.values();
        let mut out: Vec<&ToolInfo> = Vec::new();
        let n = tools.len();
        let mut i: usize = 0;
        while i < n
            invariant
                n == tools@.len(),
                tools@.len() == self.spec_tools().count(),
                forall|j: int| 0 <= j < tools@.len() ==> *tools@[j] == self.spec_tools().entries()[j].1,
                i <= n,
                out@.len() == i,
                forall|j: int| 0 <= j < i ==> *out@[j] == self.spec_tools().entries()[j].1.info,
            decreases n - i,
        {
            out.push(&tools[i].info);
            i = i + 1;
        }
        out
    }

    /// Whether `name` may be called: unknown tools and disabled tools are
    /// reported as not found.
    pub fn check_tool_call(&self, name: &str) -> (r: Result<(), McpError>)
        ensures
            r is Ok <==> (self.spec_tools().lookup(name@) matches Some(t) && t.enabled),
            self.spec_tools().lookup(name@) is None ==> (r matches Err(McpError::ToolNotFound(m)) && m@ == name@),
            (self.spec_tools().lookup(name@) matches Some(t) && !t.enabled) ==> (r matches Err(McpError::ToolNotFound(m))
                && m@ == "Tool '"@ + name@ + "' is disabled"@),
    {
        match self.tools.get(name) {
            Some(t) => {
                if t.enabled {
                    Ok(())
                } else {
                    let a = concat("Tool '", name);
                    Err(McpError::ToolNotFound(concat(a.as_str(), "' is disabled")))
                }
            },
            None => Err(McpError::ToolNotFound(String::from_str(name))),
        }
    }

    /// Whether any tool is registered.
    pub fn has_tools(&self) -> (r: bool)
        ensures
            r == (self.spec_tools().count() > 0),
    {
        !self.tools.is_empty()
    }

    /// Number of registered tools.
    pub fn tool_count(&self) -> (r: usize)
        ensures
            r == self.spec_tools().count(),
    {
        self.tools.len()
    }

    /// Whether a tool of this name is registered.
    pub fn has_tool(&self, name: &str) -> (r: bool)
        ensures
            r == self.spec_tools().lookup(name@) is Some,
    {
        self.tools.contains(name)
    }

    // ----------------------------------------------------------------------
    // Resources
    // ----------------------------------------------------------------------

    /// Registers a resource (keyed by its URI), replacing any at that URI.
    pub fn add_resource_detailed(&mut self, info: ResourceInfo) -> (r: Result<(), McpError>)
        ensures
            r is Ok <==> (info.uri@.len() > 0 && info.name@.len() > 0),
            r is Err ==> (r matches Err(McpError::Validation(_)) && final(self).spec_resources() == old(self).spec_resources()),
            r is Ok ==> final(self).spec_resources().lookup(info.uri@) == Some(Resource { info }),
            r is Ok ==> forall|k: Seq<char>| k != info.uri@ ==> #[trigger] final(self).spec_resources().lookup(k) == old(self).spec_resources().lookup(k),
    {
        if info.uri.as_str().is_empty() {
            return Err(McpError::Validation(String::from_str("Resource URI cannot be empty")));
        }
        if info.name.as_str().is_empty() {
            return Err(McpError::Validation(String::from_str("Resource name cannot be empty")));
        }
        let key = info.uri.clone();
        self.resources.insert(key, Resource { info });
        Ok(())
    }

    /// Registers a resource from a name and URI.
    pub fn add_resource(&mut self, name: String, uri: String) -> (r: Result<(), McpError>)
        ensures
            r is Ok <==> (uri@.len() > 0 && name@.len() > 0),
            r is Ok ==> (final(self).spec_resources().lookup(uri@) matches Some(res)
                && res.info.uri@ == uri@ && res.info.name@ == name@ && res.info.description is None && res.info.mime_type is None),
            r is Ok ==> forall|k: Seq<char>| k != uri@ ==> #[trigger] final(self).spec_resources().lookup(k) == old(self).spec_resources().lookup(k),
            r is Err ==> final(self).spec_resources() == old(self).spec_resources(),
    {
        self.add_resource_detailed(ResourceInfo { uri, name, description: None, mime_type: None })
    }

    /// Unregisters a resource; returns whether it was registered.
    pub fn remove_resource(&mut self, uri: &str) -> (r: bool)
        ensures
            r == old(self).spec_resources().lookup(uri@) is Some,
            final(self).spec_resources().lookup(uri@) is None,
            forall|k: Seq<char>| k != uri@ ==> #[trigger] final(self).spec_resources().lookup(k) == old(self).spec_resources().lookup(k),
    {
        self.resources.remove(uri)
    }

    /// Descriptions of all registered resources.
    pub fn list_resources(&self) -> (r: Vec<&ResourceInfo>)
        ensures
            r@.len() == self.spec_resources().count(),
            forall|i: int| 0 <= i < r@.len() ==> *r@[i] == self.spec_resources().entries()[i].1.info,
    {
        let items = self.resources.values();
        let mut out: Vec<&ResourceInfo> = Vec::new();
        let n = items.len();
        let mut i: usize = 0;
        while i < n
            invariant
                n == items@.len(),
                items@.len() == self.spec_resources().count(),
                forall|j: int| 0 <= j < items@.len() ==> *items@[j] == self.spec_resources().entries()[j].1,
                i <= n,
                out@.len() == i,
                forall|j: int| 0 <= j < i ==> *out@[j] == self.spec_resources().entries()[j].1.info,
            decreases n - i,
        {
            out.push(&items[i].info);
            i = i + 1;
        }
        out
    }

    /// Whether `uri` may be read: unknown resources are not found.
    pub fn check_resource_read(&self, uri: &str) -> (r: Result<(), McpError>)
        ensures
            r is Ok <==> self.spec_resources().lookup(uri@) is Some,
            r matches Err(e) ==> (e matches McpError::ResourceNotFound(m) && m@ == uri@),
    {
        if self.resources.contains(uri) {
            Ok(())
        } else {
            Err(McpError::ResourceNotFound(String::from_str(uri)))
        }
    }

    /// Whether any resource is registered.
    pub fn has_resources(&self) -> (r: bool)
        ensures
            r == (self.spec_resources().count() > 0),
    {
        !self.resources.is_empty()
    }

    /// Number of registered resources.
    pub fn resource_count(&self) -> (r: usize)
        ensures
            r == self.spec_resources().count(),
    {
        self.resources.len()
    }

    /// Whether a resource with this URI is registered.
    pub fn has_resource(&self, uri: &str) -> (r: bool)
        ensures
            r == self.spec_resources().lookup(uri@) is Some,
    {
        self.resources.contains(uri)
    }

    // ----------------------------------------------------------------------
    // Prompts
    // ----------------------------------------------------------------------

    /// Registers a prompt, replacing any prompt of that name.
    pub fn add_prompt(&mut self, info: PromptInfo) -> (r: Result<(), McpError>)
        ensures
            r is Ok <==> info.name@.len() > 0,
            r is Err ==> (r matches Err(McpError::Validation(_)) && final(self).spec_prompts() == old(self).spec_prompts()),
            r is Ok ==> final(self).spec_prompts().lookup(info.name@) == Some(Prompt { info }),
            r is Ok ==> forall|k: Seq<char>| k != info.name@ ==> #[trigger] final(self).spec_prompts().lookup(k) == old(self).spec_prompts().lookup(k),
    {
        if info.name.as_str().is_empty() {
            return Err(McpError::Validation(String::from_str("Prompt name cannot be empty")));
        }
        let key = info.name.clone();
        self.prompts.insert(key, Prompt { info });
        Ok(())
    }

    /// Unregisters a prompt; returns whether it was registered.
    pub fn remove_prompt(&mut self, name: &str) -> (r: bool)
        ensures
            r == old(self).spec_prompts().lookup(name@) is Some,
            final(self).spec_prompts().lookup(name@) is None,
            forall|k: Seq<char>| k != name@ ==> #[trigger] final(self).spec_prompts().lookup(k) == old(self).spec_prompts().lookup(k),
    {
        self.prompts.remove(name)
    }

    /// Descriptions of all registered prompts.
    pub fn list_prompts(&self) -> (r: Vec<&PromptInfo>)
        ensures
            r@.len() == self.spec_prompts().count(),
            forall|i: int| 0 <= i < r@.len() ==> *r@[i] == self.spec_prompts().entries()[i].1.info,
    {
        let items = self.prompts.values();
        let mut out: Vec<&PromptInfo> = Vec::new();
        let n = items.len();
        let mut i: usize = 0;
        while i < n
            invariant
                n == items@.len(),
                items@.len() == self.spec_prompts().count(),
                forall|j: int| 0 <= j < items@.len() ==> *items@[j] == self.spec_prompts().entries()[j].1,
                i <= n,
                out@.len() == i,
                forall|j: int| 0 <= j < i ==> *out@[j] == self.spec_prompts().entries()[j].1.info,
            decreases n - i,
        {
            out.push(&items[i].info);
            i = i + 1;
        }
        out
    }

    /// Whether a prompt may be fetched: unknown prompts are not found.
    pub fn check_prompt_get(&self, name: &str) -> (r: Result<(), McpError>)
        ensures
            r is Ok <==> self.spec_prompts().lookup(name@) is Some,
            r matches Err(e) ==> (e matches McpError::PromptNotFound(m) && m@ == name@),
    {
        if self.prompts.contains(name) {
            Ok(())
        } else {
            Err(McpError::PromptNotFound(String::from_str(name)))
        }
    }

    /// Whether any prompt is registered.
    pub fn has_prompts(&self) -> (r: bool)
        ensures
            r == (self.spec_prompts().count() > 0),
    {
        !self.prompts.is_empty()
    }

    /// Number of registered prompts.
    pub fn prompt_count(&self) -> (r: usize)
        ensures
            r == self.spec_prompts().count(),
    {
        self.prompts.len()
    }

    /// Whether a prompt of this name is registered.
    pub fn has_prompt(&self, name: &str) -> (r: bool)
        ensures
            r == self.spec_prompts().lookup(name@) is Some,
    {
        self.prompts.contains(name)
    }

    // ----------------------------------------------------------------------
    // Resource templates
    // ----------------------------------------------------------------------

    /// Registers a resource template under its name.
    pub fn add_resource_template(&mut self, template: ResourceTemplate) -> (r: Result<(), McpError>)
        ensures
            r is Ok,
            final(self).spec_templates().lookup(template.name@) == Some(template),
            forall|k: Seq<char>| k != template.name@ ==> #[trigger] final(self).spec_templates().lookup(k) == old(self).spec_templates().lookup(k),
    {
        let key = template.name.clone();
        self.resource_templates.insert(key, template);
        Ok(())
    }

    /// Unregisters a resource template; returns whether it was registered.
    pub fn remove_resource_template(&mut self, name: &str) -> (r: bool)
        ensures
            r == old(self).spec_templates().lookup(name@) is Some,
            final(self).spec_templates().lookup(name@) is None,
            forall|k: Seq<char>| k != name@ ==> #[trigger] final(self).spec_templates().lookup(k) == old(self).spec_templates().lookup(k),
    {
        self.resource_templates.remove(name)
    }

    /// All registered resource templates.
    pub fn list_resource_templates(&self) -> (r: Vec<&ResourceTemplate>)
        ensures
            r@.len() == self.spec_templates().count(),
            forall|i: int| 0 <= i < r@.len() ==> *r@[i] == self.spec_templates().entries()[i].1,
    {
        self.resource_templates.values()
    }
}

/// Fluent construction of a server.
pub struct ServerBuilder {
    name: Option<String>,
    version: Option<String>,
    capabilities: ServerCapabilities,
    config: ServerConfig,
    resources: Registry<Resource>,
    tools: Registry<Tool>,
    prompts: Registry<Prompt>,
    resource_templates: Registry<ResourceTemplate>,
}

impl ServerBuilder {
    pub closed spec fn spec_name(self) -> Option<String> { self.name }
    pub closed spec fn spec_version(self) -> Option<String> { self.version }
    pub closed spec fn spec_capabilities(self) -> ServerCapabilities { self.capabilities }
    pub closed spec fn spec_config(self) -> ServerConfig { self.config }
    pub closed spec fn spec_tools(self) -> Registry<Tool> { self.tools }
    pub closed spec fn spec_resources(self) -> Registry<Resource> { self.resources }
    pub closed spec fn spec_prompts(self) -> Registry<Prompt> { self.prompts }
    pub closed spec fn spec_templates(self) -> Registry<ResourceTemplate> { self.resource_templates }

    /// Everything but `f` is carried over from `old` to `new`.
    pub open spec fn same_but_capabilities(old: ServerBuilder, new: ServerBuilder) -> bool {
        &&& new.spec_name() == old.spec_name()
        &&& new.spec_version() == old.spec_version()
        &&& new.spec_config() == old.spec_config()
        &&& new.spec_tools() == old.spec_tools()
        &&& new.spec_resources() == old.spec_resources()
        &&& new.spec_prompts() == old.spec_prompts()
        &&& new.spec_templates() == old.spec_templates()
    }

    /// A builder with no name, no version, no capabilities and the default configuration.
    pub fn new() -> (r: ServerBuilder)
        ensures
            r.spec_name() is None,
            r.spec_version() is None,
            r.spec_capabilities() == (ServerCapabilities { prompts: None, resources: None, tools: None, sampling: None,
                logging: None, completions: None, experimental: None, extensions: None }),
            r.spec_config() == (ServerConfig { max_concurrent_requests: 100, request_timeout_ms: 30000, validate_requests: true, enable_logging: true }),
            r.spec_tools().count() == 0,
            r.spec_resources().count() == 0,
            r.spec_prompts().count() == 0,
            r.spec_templates().count() == 0,
    {
        ServerBuilder {
            name: None,
            version: None,
            capabilities: ServerCapabilities::empty(),
            config: ServerConfig::default(),
            resources: Registry::new(),
            tools: Registry::new(),
            prompts: Registry::new(),
            resource_templates: Registry::new(),
        }
    }

    /// Sets the server name.
    pub fn name(self, name: String) -> (r: ServerBuilder)
        ensures
            r.spec_name() == Some(name),
            r.spec_version() == self.spec_version(),
            r.spec_capabilities() == self.spec_capabilities(),
            r.spec_config() == self.spec_config(),
            r.spec_tools() == self.spec_tools(),
            r.spec_resources() == self.spec_resources(),
            r.spec_prompts() == self.spec_prompts(),
            r.spec_templates() == self.spec_templates(),
    {
        ServerBuilder { name: Some(name), ..self }
    }

    /// Sets the server version.
    pub fn version(self, version: String) -> (r: ServerBuilder)
        ensures
            r.spec_version() == Some(version),
            r.spec_name() == self.spec_name(),
            r.spec_capabilities() == self.spec_capabilities(),
            r.spec_config() == self.spec_config(),
            r.spec_tools() == self.spec_tools(),
            r.spec_resources() == self.spec_resources(),
            r.spec_prompts() == self.spec_prompts(),
            r.spec_templates() == self.spec_templates(),
    {
        ServerBuilder { version: Some(version), ..self }
    }

    /// Replaces all capabilities.
    pub fn capabilities(self, capabilities: ServerCapabilities) -> (r: ServerBuilder)
        ensures
            r.spec_capabilities() == capabilities,
            Self::same_but_capabilities(self, r),
    {
        ServerBuilder { capabilities, ..self }
    }

    /// Declares prompts with list-change notices.
    pub fn with_prompts(self) -> (r: ServerBuilder)
        ensures
            r.spec_capabilities() == (ServerCapabilities { prompts: Some(PromptsCapability { list_changed: Some(true) }), ..self.spec_capabilities() }),
            Self::same_but_capabilities(self, r),
    {
        let mut b = self;
        b.capabilities.prompts = Some(PromptsCapability { list_changed: Some(true) });
        b
    }

    /// Declares resources with subscriptions and list-change notices.
    pub fn with_resources(self) -> (r: ServerBuilder)
        ensures
            r.spec_capabilities() == (ServerCapabilities { resources: Some(ResourcesCapability { subscribe: Some(true), list_changed: Some(true) }), ..self.spec_capabilities() }),
            Self::same_but_capabilities(self, r),
    {
        let mut b = self;
        b.capabilities.resources = Some(ResourcesCapability { subscribe: Some(true), list_changed: Some(true) });
        b
    }

    /// Declares tools with list-change notices.
    pub fn with_tools(self) -> (r: ServerBuilder)
        ensures
            r.spec_capabilities() == (ServerCapabilities { tools: Some(ToolsCapability { list_changed: Some(true) }), ..self.spec_capabilities() }),
            Self::same_but_capabilities(self, r),
    {
        let mut b = self;
        b.capabilities.tools = Some(ToolsCapability { list_changed: Some(true) });
        b
    }

    /// Declares sampling.
    pub fn with_sampling(self) -> (r: ServerBuilder)
        ensures
            r.spec_capabilities() == (ServerCapabilities { sampling: Some(SamplingCapability {}), ..self.spec_capabilities() }),
            Self::same_but_capabilities(self, r),
    {
        let mut b = self;
        b.capabilities.sampling = Some(SamplingCapability {});
        b
    }

    /// Declares logging.
    pub fn with_logging(self) -> (r: ServerBuilder)
        ensures
            r.spec_capabilities() == (ServerCapabilities { logging: Some(LoggingCapability {}), ..self.spec_capabilities() }),
            Self::same_but_capabilities(self, r),
    {
        let mut b = self;
        b.capabilities.logging = Some(LoggingCapability {});
        b
    }

    /// Declares completions.
    pub fn with_completions(self) -> (r: ServerBuilder)
        ensures
            r.spec_capabilities() == (ServerCapabilities { completions: Some(CompletionsCapability {}), ..self.spec_capabilities() }),
            Self::same_but_capabilities(self, r),
    {
        let mut b = self;
        b.capabilities.completions = Some(CompletionsCapability {});
        b
    }

    /// Roots are a client capability: the builder is returned unchanged.
    pub fn with_roots(self) -> (r: ServerBuilder)
        ensures
            r == self,
    {
        self
    }

    /// Declares an experimental capability `key` with `value`, replacing any
    /// earlier value of that key.
    pub fn with_experimental(self, key: String, value: JsonValue) -> (r: ServerBuilder)
        ensures
            r.spec_capabilities().experimental matches Some(es) && {
                &&& entries_lookup(es@, key@) == Some(value)
                &&& forall|k: Seq<char>| k != key@ ==> #[trigger] entries_lookup(es@, k) == match self.spec_capabilities().experimental {
                    Some(o) => entries_lookup(o@, k),
                    None => None,
                }
            },
            r.spec_capabilities().prompts == self.spec_capabilities().prompts,
            r.spec_capabilities().resources == self.spec_capabilities().resources,
            r.spec_capabilities().tools == self.spec_capabilities().tools,
            r.spec_capabilities().sampling == self.spec_capabilities().sampling,
            r.spec_capabilities().logging == self.spec_capabilities().logging,
            r.spec_capabilities().completions == self.spec_capabilities().completions,
            r.spec_capabilities().extensions == self.spec_capabilities().extensions,
            r.spec_name() == self.spec_name(),
            r.spec_version() == self.spec_version(),
            r.spec_config() == self.spec_config(),
            r.spec_tools() == self.spec_tools(),
            r.spec_resources() == self.spec_resources(),
            r.spec_prompts() == self.spec_prompts(),
            r.spec_templates() == self.spec_templates(),
    {
        let ServerBuilder { name, version, capabilities, config, resources, tools, prompts, resource_templates } = self;
        let ServerCapabilities { prompts: cp, resources: cr, tools: ct, sampling, logging, completions, experimental, extensions } = capabilities;
        let ghost before = experimental;
        let entries = match experimental {
            Some(es) => es,
            None => Vec::new(),
        };
        assert(forall|k: Seq<char>| #[trigger] entries_lookup(entries@, k) == match before {
            Some(o) => entries_lookup(o@, k),
            None => None,
        });
        let mut obj = JsonValue::Object(entries);
        let ghost obj_before = obj;
        object_set(&mut obj, key.as_str(), value);
        let ghost obj_after = obj;
        let entries = match obj {
            JsonValue::Object(es) => es,
            _ => Vec::new(),
        };
        assert(entries_lookup(entries@, key@) == json_get(obj_after, key@));
        assert forall|k: Seq<char>| k != key@ implies #[trigger] entries_lookup(entries@, k) == match before {
            Some(o) => entries_lookup(o@, k),
            None => None,
        } by {
            assert(json_get(obj_after, k) == json_get(obj_before, k));
        }
        ServerBuilder {
            name,
            version,
            capabilities: ServerCapabilities {
                prompts: cp,
                resources: cr,
                tools: ct,
                sampling,
                logging,
                completions,
                experimental: Some(entries),
                extensions,
            },
            config,
            resources,
            tools,
            prompts,
            resource_templates,
        }
    }

    /// Replaces the configuration.
    pub fn config(self, config: ServerConfig) -> (r: ServerBuilder)
        ensures
            r.spec_config() == config,
            r.spec_capabilities() == self.spec_capabilities(),
            r.spec_name() == self.spec_name(),
            r.spec_version() == self.spec_version(),
            r.spec_tools() == self.spec_tools(),
            r.spec_resources() == self.spec_resources(),
            r.spec_prompts() == self.spec_prompts(),
            r.spec_templates() == self.spec_templates(),
    {
        ServerBuilder { config, ..self }
    }

    /// Sets the concurrency limit.
    pub fn max_concurrent_requests(self, max: usize) -> (r: ServerBuilder)
        ensures
            r.spec_config() == (ServerConfig { max_concurrent_requests: max, ..self.spec_config() }),
            r.spec_capabilities() == self.spec_capabilities(),
            r.spec_name() == self.spec_name(),
            r.spec_version() == self.spec_version(),
            r.spec_tools() == self.spec_tools(),
            r.spec_resources() == self.spec_resources(),
            r.spec_prompts() == self.spec_prompts(),
            r.spec_templates() == self.spec_templates(),
    {
        let mut b = self;
        b.config.max_concurrent_requests = max;
        b
    }

    /// Sets the request timeout in milliseconds.
    pub fn request_timeout_ms(self, timeout: u64) -> (r: ServerBuilder)
        ensures
            r.spec_config() == (ServerConfig { request_timeout_ms: timeout, ..self.spec_config() }),
            r.spec_capabilities() == self.spec_capabilities(),
            r.spec_name() == self.spec_name(),
            r.spec_version() == self.spec_version(),
            r.spec_tools() == self.spec_tools(),
            r.spec_resources() == self.spec_resources(),
            r.spec_prompts() == self.spec_prompts(),
            r.spec_templates() == self.spec_templates(),
    {
        let mut b = self;
        b.config.request_timeout_ms = timeout;
        b
    }

    /// Turns request validation on or off.
    pub fn validate_requests(self, validate: bool) -> (r: ServerBuilder)
        ensures
            r.spec_config() == (ServerConfig { validate_requests: validate, ..self.spec_config() }),
            r.spec_capabilities() == self.spec_capabilities(),
            r.spec_name() == self.spec_name(),
            r.spec_version() == self.spec_version(),
            r.spec_tools() == self.spec_tools(),
            r.spec_resources() == self.spec_resources(),
            r.spec_prompts() == self.spec_prompts(),
            r.spec_templates() == self.spec_templates(),
    {
        let mut b = self;
        b.config.validate_requests = validate;
        b
    }

    /// Turns logging on or off.
    pub fn enable_logging(self, enable: bool) -> (r: ServerBuilder)
        ensures
            r.spec_config() == (ServerConfig { enable_logging: enable, ..self.spec_config() }),
            r.spec_capabilities() == self.spec_capabilities(),
            r.spec_name() == self.spec_name(),
            r.spec_version() == self.spec_version(),
            r.spec_tools() == self.spec_tools(),
            r.spec_resources() == self.spec_resources(),
            r.spec_prompts() == self.spec_prompts(),
            r.spec_templates() == self.spec_templates(),
    {
        let mut b = self;
        b.config.enable_logging = enable;
        b
    }

    /// Adds a resource, keyed by its URI.
    pub fn add_resource(self, resource: Resource) -> (r: ServerBuilder)
        ensures
            r.spec_resources().lookup(resource.info.uri@) == Some(resource),
            r.spec_resources().count() == (if self.spec_resources().lookup(resource.info.uri@) is Some { self.spec_resources().count() } else { self.spec_resources().count() + 1 }),
            forall|k: Seq<char>| k != resource.info.uri@ ==> #[trigger] r.spec_resources().lookup(k) == self.spec_resources().lookup(k),
            r.spec_tools() == self.spec_tools(),
            r.spec_capabilities() == self.spec_capabilities(),
            r.spec_name() == self.spec_name(),
            r.spec_version() == self.spec_version(),
            r.spec_config() == self.spec_config(),
            r.spec_prompts() == self.spec_prompts(),
            r.spec_templates() == self.spec_templates(),
    {
        let mut b = self;
        let key = resource.info.uri.clone();
        b.resources.insert(key, resource);
        b
    }

    /// Adds a tool, keyed by its name.
    pub fn add_tool(self, tool: Tool) -> (r: ServerBuilder)
        ensures
            r.spec_tools().lookup(tool.info.name@) == Some(tool),
            r.spec_tools().count() == (if self.spec_tools().lookup(tool.info.name@) is Some { self.spec_tools().count() } else { self.spec_tools().count() + 1 }),
            forall|k: Seq<char>| k != tool.info.name@ ==> #[trigger] r.spec_tools().lookup(k) == self.spec_tools().lookup(k),
            r.spec_resources() == self.spec_resources(),
            r.spec_capabilities() == self.spec_capabilities(),
            r.spec_name() == self.spec_name(),
            r.spec_version() == self.spec_version(),
            r.spec_config() == self.spec_config(),
            r.spec_prompts() == self.spec_prompts(),
            r.spec_templates() == self.spec_templates(),
    {
        let mut b = self;
        let key = tool.info.name.clone();
        b.tools.insert(key, tool);
        b
    }

    /// Adds a prompt, keyed by its name.
    pub fn add_prompt(self, prompt: Prompt) -> (r: ServerBuilder)
        ensures
            r.spec_prompts().lookup(prompt.info.name@) == Some(prompt),
            r.spec_prompts().count() == (if self.spec_prompts().lookup(prompt.info.name@) is Some { self.spec_prompts().count() } else { self.spec_prompts().count() + 1 }),
            forall|k: Seq<char>| k != prompt.info.name@ ==> #[trigger] r.spec_prompts().lookup(k) == self.spec_prompts().lookup(k),
            r.spec_tools() == self.spec_tools(),
            r.spec_capabilities() == self.spec_capabilities(),
            r.spec_name() == self.spec_name(),
            r.spec_version() == self.spec_version(),
            r.spec_config() == self.spec_config(),
            r.spec_resources() == self.spec_resources(),
            r.spec_templates() == self.spec_templates(),
    {
        let mut b = self;
        let key = prompt.info.name.clone();
        b.prompts.insert(key, prompt);
        b
    }

    /// Adds a resource template, keyed by its URI template.
    pub fn add_resource_template(self, template: ResourceTemplate) -> (r: ServerBuilder)
        ensures
            r.spec_templates().lookup(template.uri_template@) == Some(template),
            r.spec_templates().count() == (if self.spec_templates().lookup(template.uri_template@) is Some { self.spec_templates().count() } else { self.spec_templates().count() + 1 }),
            forall|k: Seq<char>| k != template.uri_template@ ==> #[trigger] r.spec_templates().lookup(k) == self.spec_templates().lookup(k),
            r.spec_tools() == self.spec_tools(),
            r.spec_capabilities() == self.spec_capabilities(),
            r.spec_name() == self.spec_name(),
            r.spec_version() == self.spec_version(),
            r.spec_config() == self.spec_config(),
            r.spec_resources() == self.spec_resources(),
            r.spec_prompts() == self.spec_prompts(),
    {
        let mut b = self;
        let key = template.uri_template.clone();
        b.resource_templates.insert(key, template);
        b
    }

    /// The server this builder describes; name and version must be set.
    pub fn build(self) -> (r: McpServer)
        requires
            self.spec_name() is Some,
            self.spec_version() is Some,
        ensures
            Some(r.spec_info().name) == self.spec_name(),
            Some(r.spec_info().version) == self.spec_version(),
            r.spec_capabilities() == self.spec_capabilities(),
            r.spec_config() == self.spec_config(),
            r.spec_tools() == self.spec_tools(),
            r.spec_resources() == self.spec_resources(),
            r.spec_prompts() == self.spec_prompts(),
            r.spec_templates() == self.spec_templates(),
            r.spec_state() == ServerState::Uninitialized,
    {
        match self.try_build() {
            Ok(server) => server,
            Err(_) => {
                proof { assert(false); }
                McpServer::new(String::new(), String::new())
            },
        }
    }

    /// The server this builder describes, or which required field is missing
    /// (the name is checked first).
    pub fn try_build(self) -> (r: Result<McpServer, ServerBuilderError>)
        ensures
            self.spec_name() is None ==> r == Err::<McpServer, ServerBuilderError>(ServerBuilderError::MissingName),
            self.spec_name() is Some && self.spec_version() is None
                ==> r == Err::<McpServer, ServerBuilderError>(ServerBuilderError::MissingVersion),
            self.spec_name() is Some && self.spec_version() is Some ==> (r matches Ok(s) && (
                Some(s.spec_info().name) == self.spec_name()
                && Some(s.spec_info().version) == self.spec_version()
                && s.spec_capabilities() == self.spec_capabilities()
                && s.spec_config() == self.spec_config()
                && s.spec_tools() == self.spec_tools()
                && s.spec_resources() == self.spec_resources()
                && s.spec_prompts() == self.spec_prompts()
                && s.spec_templates() == self.spec_templates()
                && s.spec_state() == ServerState::Uninitialized)),
    {
        let ServerBuilder { name, version, capabilities, config, resources, tools, prompts, resource_templates } = self;
        let name = match name {
            Some(n) => n,
            None => return Err(ServerBuilderError::MissingName),
        };
        let version = match version {
            Some(v) => v,
            None => return Err(ServerBuilderError::MissingVersion),
        };
        Ok(McpServer {
            info: Implementation::new(name, version),
            capabilities,
            config,
            resources,
            tools,
            prompts,
            resource_templates,
            completion_handlers: Registry::new(),
            request_counter: 0,
            state: ServerState::Uninitialized,
        })
    }
}

/// One lifecycle step as the server's operations make it: the state stays
/// as it was, or it moves to a state other than `Uninitialized`
/// (`begin_start`, `finish_start`, `begin_stop`, `finish_stop` and
/// `initialize` each do one of these, and every other operation keeps the
/// state).
pub open spec fn lifecycle_step(s: ServerState, t: ServerState) -> bool {
    t == s || t != ServerState::Uninitialized
}

/// A server starts at most once: once a start has begun (the state went
/// from `Uninitialized` to `Initializing`), the server is never
/// `Uninitialized` again, whatever lifecycle steps follow, so every later
/// `begin_start` is refused with "Server is already started".
pub proof fn servers_start_once(states: Seq<ServerState>, i: int, j: int)
    requires
        forall|k: int| 0 <= k < states.len() - 1 ==> lifecycle_step(#[trigger] states[k], states[k + 1]),
        0 <= i < j < states.len(),
        states[i] == ServerState::Uninitialized,
        states[i + 1] == ServerState::Initializing,
    ensures
        states[j] != ServerState::Uninitialized,
    decreases j - i,
{
    if j > i + 1 {
        servers_start_once(states, i, j - 1);
        assert(lifecycle_step(states[j - 1], states[j]));
    }
}

/// The protocol's name for the server request a handler serves (the empty
/// name for `Unknown`, which serves none).
pub open spec fn handled_method(r: RequestRoute) -> Seq<char> {
    match r {
        RequestRoute::Initialize => "initialize"@,
        RequestRoute::Ping => "ping"@,
        RequestRoute::ToolsList => "tools/list"@,
        RequestRoute::ToolsCall => "tools/call"@,
        RequestRoute::ResourcesList => "resources/list"@,
        RequestRoute::ResourcesRead => "resources/read"@,
        RequestRoute::ResourcesSubscribe => "resources/subscribe"@,
        RequestRoute::ResourcesUnsubscribe => "resources/unsubscribe"@,
        RequestRoute::PromptsList => "prompts/list"@,
        RequestRoute::PromptsGet => "prompts/get"@,
        RequestRoute::ResourceTemplatesList => "resources/templates/list"@,
        RequestRoute::CompletionComplete => "completion/complete"@,
        RequestRoute::LoggingSetLevel => "logging/setLevel"@,
        RequestRoute::RpcDiscover => "rpc.discover"@,
        RequestRoute::Unknown => Seq::empty(),
    }
}

/// Every server request of the protocol reaches its own handler, and only
/// those do: the name a handler serves is routed to that handler (never to
/// `Unknown`), and a name routed to a handler is the name that handler
/// serves.
pub proof fn requests_reach_their_handlers(route: RequestRoute, method: Seq<char>)
    ensures
        route != RequestRoute::Unknown ==> spec_route(handled_method(route)) == route,
        spec_route(method) != RequestRoute::Unknown ==> handled_method(spec_route(method)) == method,
{
    reveal_strlit("initialize");
    reveal_strlit("ping");
    reveal_strlit("tools/list");
    reveal_strlit("tools/call");
    reveal_strlit("resources/list");
    reveal_strlit("resources/read");
    reveal_strlit("resources/subscribe");
    reveal_strlit("resources/unsubscribe");
    reveal_strlit("prompts/list");
    reveal_strlit("prompts/get");
    reveal_strlit("resources/templates/list");
    reveal_strlit("completion/complete");
    reveal_strlit("logging/setLevel");
    reveal_strlit("rpc.discover");
    let n = handled_method(route);
    match route {
        RequestRoute::Initialize => {
            assert(n == crate::protocol::INITIALIZE@);

        },
        RequestRoute::Ping => {
            assert(n == crate::protocol::PING@);
            assert(n.len() != crate::protocol::INITIALIZE@.len());
        },
        RequestRoute::ToolsList => {
            assert(n == crate::protocol::TOOLS_LIST@);
            assert(n[0] != crate::protocol::INITIALIZE@[0]);
            assert(n.len() != crate::protocol::PING@.len());
        },
        RequestRoute::ToolsCall => {
            assert(n == crate::protocol::TOOLS_CALL@);
            assert(n[0] != crate::protocol::INITIALIZE@[0]);
            assert(n.len() != crate::protocol::PING@.len());
            assert(n[6] != crate::protocol::TOOLS_LIST@[6]);
        },
        RequestRoute::ResourcesList => {
            assert(n == crate::protocol::RESOURCES_LIST@);
            assert(n.len() != crate::protocol::INITIALIZE@.len());
            assert(n.len() != crate::protocol::PING@.len());
            assert(n.len() != crate::protocol::TOOLS_LIST@.len());
            assert(n.len() != crate::protocol::TOOLS_CALL@.len());
        },
        RequestRoute::ResourcesRead => {
            assert(n == crate::protocol::RESOURCES_READ@);
            assert(n.len() != crate::protocol::INITIALIZE@.len());
            assert(n.len() != crate::protocol::PING@.len());
            assert(n.len() != crate::protocol::TOOLS_LIST@.len());
            assert(n.len() != crate::protocol::TOOLS_CALL@.len());
            assert(n[10] != crate::protocol::RESOURCES_LIST@[10]);
        },
        RequestRoute::ResourcesSubscribe => {
            assert(n == crate::protocol::RESOURCES_SUBSCRIBE@);
            assert(n.len() != crate::protocol::INITIALIZE@.len());
            assert(n.len() != crate::protocol::PING@.len());
            assert(n.len() != crate::protocol::TOOLS_LIST@.len());
            assert(n.len() != crate::protocol::TOOLS_CALL@.len());
            assert(n.len() != crate::protocol::RESOURCES_LIST@.len());
            assert(n.len() != crate::protocol::RESOURCES_READ@.len());
        },
        RequestRoute::ResourcesUnsubscribe => {
            assert(n == crate::protocol::RESOURCES_UNSUBSCRIBE@);
            assert(n.len() != crate::protocol::INITIALIZE@.len());
            assert(n.len() != crate::protocol::PING@.len());
            assert(n.len() != crate::protocol::TOOLS_LIST@.len());
            assert(n.len() != crate::protocol::TOOLS_CALL@.len());
            assert(n.len() != crate::protocol::RESOURCES_LIST@.len());
            assert(n.len() != crate::protocol::RESOURCES_READ@.len());
            assert(n.len() != crate::protocol::RESOURCES_SUBSCRIBE@.len());
        },
        RequestRoute::PromptsList => {
            assert(n == crate::protocol::PROMPTS_LIST@);
            assert(n.len() != crate::protocol::INITIALIZE@.len());
            assert(n.len() != crate::protocol::PING@.len());
            assert(n.len() != crate::protocol::TOOLS_LIST@.len());
            assert(n.len() != crate::protocol::TOOLS_CALL@.len());
            assert(n.len() != crate::protocol::RESOURCES_LIST@.len());
            assert(n.len() != crate::protocol::RESOURCES_READ@.len());
            assert(n.len() != crate::protocol::RESOURCES_SUBSCRIBE@.len());
            assert(n.len() != crate::protocol::RESOURCES_UNSUBSCRIBE@.len());
        },
        RequestRoute::PromptsGet => {
            assert(n == crate::protocol::PROMPTS_GET@);
            assert(n.len() != crate::protocol::INITIALIZE@.len());
            assert(n.len() != crate::protocol::PING@.len());
            assert(n.len() != crate::protocol::TOOLS_LIST@.len());
            assert(n.len() != crate::protocol::TOOLS_CALL@.len());
            assert(n.len() != crate::protocol::RESOURCES_LIST@.len());
            assert(n.len() != crate::protocol::RESOURCES_READ@.len());
            assert(n.len() != crate::protocol::RESOURCES_SUBSCRIBE@.len());
            assert(n.len() != crate::protocol::RESOURCES_UNSUBSCRIBE@.len());
            assert(n.len() != crate::protocol::PROMPTS_LIST@.len());
        },
        RequestRoute::ResourceTemplatesList => {
            assert(n == crate::protocol::RESOURCES_TEMPLATES_LIST@);
            assert(n.len() != crate::protocol::INITIALIZE@.len());
            assert(n.len() != crate::protocol::PING@.len());
            assert(n.len() != crate::protocol::TOOLS_LIST@.len());
            assert(n.len() != crate::protocol::TOOLS_CALL@.len());
            assert(n.len() != crate::protocol::RESOURCES_LIST@.len());
            assert(n.len() != crate::protocol::RESOURCES_READ@.len());
            assert(n.len() != crate::protocol::RESOURCES_SUBSCRIBE@.len());
            assert(n.len() != crate::protocol::RESOURCES_UNSUBSCRIBE@.len());
            assert(n.len() != crate::protocol::PROMPTS_LIST@.len());
            assert(n.len() != crate::protocol::PROMPTS_GET@.len());
        },
        RequestRoute::CompletionComplete => {
            assert(n == crate::protocol::COMPLETION_COMPLETE@);
            assert(n.len() != crate::protocol::INITIALIZE@.len());
            assert(n.len() != crate::protocol::PING@.len());
            assert(n.len() != crate::protocol::TOOLS_LIST@.len());
            assert(n.len() != crate::protocol::TOOLS_CALL@.len());
            assert(n.len() != crate::protocol::RESOURCES_LIST@.len());
            assert(n.len() != crate::protocol::RESOURCES_READ@.len());
            assert(n[0] != crate::protocol::RESOURCES_SUBSCRIBE@[0]);
            assert(n.len() != crate::protocol::RESOURCES_UNSUBSCRIBE@.len());
            assert(n.len() != crate::protocol::PROMPTS_LIST@.len());
            assert(n.len() != crate::protocol::PROMPTS_GET@.len());
            assert(n.len() != crate::protocol::RESOURCES_TEMPLATES_LIST@.len());
        },
        RequestRoute::LoggingSetLevel => {
            assert(n == crate::protocol::LOGGING_SET_LEVEL@);
            assert(n.len() != crate::protocol::INITIALIZE@.len());
            assert(n.len() != crate::protocol::PING@.len());
            assert(n.len() != crate::protocol::TOOLS_LIST@.len());
            assert(n.len() != crate::protocol::TOOLS_CALL@.len());
            assert(n.len() != crate::protocol::RESOURCES_LIST@.len());
            assert(n.len() != crate::protocol::RESOURCES_READ@.len());
            assert(n.len() != crate::protocol::RESOURCES_SUBSCRIBE@.len());
            assert(n.len() != crate::protocol::RESOURCES_UNSUBSCRIBE@.len());
            assert(n.len() != crate::protocol::PROMPTS_LIST@.len());
            assert(n.len() != crate::protocol::PROMPTS_GET@.len());
            assert(n.len() != crate::protocol::RESOURCES_TEMPLATES_LIST@.len());
            assert(n.len() != crate::protocol::COMPLETION_COMPLETE@.len());
        },
        RequestRoute::RpcDiscover => {
            assert(n == crate::protocol::RPC_DISCOVER@);
            assert(n.len() != crate::protocol::INITIALIZE@.len());
            assert(n.len() != crate::protocol::PING@.len());
            assert(n.len() != crate::protocol::TOOLS_LIST@.len());
            assert(n.len() != crate::protocol::TOOLS_CALL@.len());
            assert(n.len() != crate::protocol::RESOURCES_LIST@.len());
            assert(n.len() != crate::protocol::RESOURCES_READ@.len());
            assert(n.len() != crate::protocol::RESOURCES_SUBSCRIBE@.len());
            assert(n.len() != crate::protocol::RESOURCES_UNSUBSCRIBE@.len());
            assert(n[0] != crate::protocol::PROMPTS_LIST@[0]);
            assert(n.len() != crate::protocol::PROMPTS_GET@.len());
            assert(n.len() != crate::protocol::RESOURCES_TEMPLATES_LIST@.len());
            assert(n.len() != crate::protocol::COMPLETION_COMPLETE@.len());
            assert(n.len() != crate::protocol::LOGGING_SET_LEVEL@.len());
        },
        RequestRoute::Unknown => {},
    }
}

/// What an incoming message calls for.
pub enum MessageStep {
    /// Handle the request and answer with the response.
    Handle(JsonRpcRequest),
    /// Answer with this message.
    Answer(JsonRpcMessage),
}

/// What sending a request to the client gives: without a transport there is
/// no connection, and a transport cannot carry server-initiated requests yet.
pub fn client_request_error(connected: bool) -> (e: McpError)
    ensures
        connected ==> (e matches McpError::MethodNotFound(m) && m@ == "Bidirectional communication not yet fully implemented"@),
        !connected ==> (e matches McpError::Transport(m) && m@ == "Not connected"@),
{
    if connected {
        McpError::MethodNotFound(String::from_str("Bidirectional communication not yet fully implemented"))
    } else {
        McpError::Transport(String::from_str("Not connected"))
    }
}

/// The result a client's reply carries; a reply without one is a protocol
/// error.
pub fn client_reply_result(response: JsonRpcResponse) -> (r: Result<JsonValue, McpError>)
    ensures
        match response.result {
            Some(v) => r == Ok::<JsonValue, McpError>(v),
            None => r matches Err(McpError::Protocol(m)) && m@ == "No result in response"@,
        },
{
    match response.result {
        Some(v) => Ok(v),
        None => Err(McpError::Protocol(String::from_str("No result in response"))),
    }
}

/// The notification that the roots the server needs have changed, to be
/// sent when a transport is connected; without one there is nothing to
/// send it on.
pub fn notify_roots_list_changed(connected: bool) -> (r: Result<JsonRpcNotification, McpError>)
    ensures
        connected ==> (r matches Ok(n) && n.jsonrpc@ == JSONRPC_VERSION@ && n.method@ == ROOTS_LIST_CHANGED@ && n.params is None),
        !connected ==> (r matches Err(McpError::Connection(m)) && m@ == "No transport available"@),
{
    if connected {
        Ok(JsonRpcNotification::new(String::from_str(ROOTS_LIST_CHANGED), None))
    } else {
        Err(McpError::Connection(String::from_str("No transport available")))
    }
}

impl McpServer {
    /// Notifications are accepted whatever their method; none is answered.
    pub fn handle_notification(&self, notification: &JsonRpcNotification) -> (r: Result<(), McpError>)
        ensures
            r is Ok,
    {
        Ok(())
    }

    /// What a message calls for: a request is handled; a notification is
    /// accepted and answered with an empty response; responses and error
    /// replies are passed back as they came.
    pub fn process_message(&self, msg: JsonRpcMessage) -> (r: MessageStep)
        ensures
            match msg {
                JsonRpcMessage::Request(q) => r == MessageStep::Handle(q),
                JsonRpcMessage::Notification(_) => r matches MessageStep::Answer(JsonRpcMessage::Response(resp))
                    && resp.id == JsonValue::Null && resp.result == Some(JsonValue::Null)
                    && resp.jsonrpc@ == JSONRPC_VERSION@,
                other => r == MessageStep::Answer(other),
            },
    {
        match msg {
            JsonRpcMessage::Request(q) => MessageStep::Handle(q),
            JsonRpcMessage::Notification(n) => {
                let _ = self.handle_notification(&n);
                MessageStep::Answer(JsonRpcMessage::Response(JsonRpcResponse::success(JsonValue::Null, JsonValue::Null)))
            },
            other => MessageStep::Answer(other),
        }
    }

    /// The id of the last request the server sent (0 before the first).
    pub fn last_request_id(&self) -> (r: u64)
        ensures
            r == self.spec_request_counter(),
    {
        self.request_counter
    }

    /// The id for the next request the server sends: one more than the last.
    pub fn next_request_id(&mut self) -> (r: u64)
        requires
            old(self).spec_request_counter() < i64::MAX,
        ensures
            r == old(self).spec_request_counter() + 1,
            final(self).spec_request_counter() == r,
            final(self).spec_state() == old(self).spec_state(),
            final(self).spec_info() == old(self).spec_info(),
            final(self).spec_capabilities() == old(self).spec_capabilities(),
            final(self).spec_config() == old(self).spec_config(),
            final(self).spec_completion_types() == old(self).spec_completion_types(),
    {
        self.request_counter = self.request_counter + 1;
        self.request_counter
    }

    /// A request to the client with the next id.
    fn client_request(&mut self, method: &str, params: Option<JsonValue>) -> (r: JsonRpcRequest)
        requires
            old(self).spec_request_counter() < i64::MAX,
        ensures
            final(self).spec_request_counter() == old(self).spec_request_counter() + 1,
            r.id == JsonValue::Int(final(self).spec_request_counter() as i64),
            r.jsonrpc@ == JSONRPC_VERSION@,
            r.method@ == method@,
            r.params == params,
            final(self).spec_state() == old(self).spec_state(),
            final(self).spec_completion_types() == old(self).spec_completion_types(),
    {
        let id = self.next_request_id();
        JsonRpcRequest {
            jsonrpc: String::from_str(JSONRPC_VERSION),
            id: JsonValue::Int(id as i64),
            method: String::from_str(method),
            params,
        }
    }

    /// The request asking the client to sample its model with `params`.
    pub fn sampling_request(&mut self, params: JsonValue) -> (r: JsonRpcRequest)
        requires
            old(self).spec_request_counter() < i64::MAX,
        ensures
            final(self).spec_request_counter() == old(self).spec_request_counter() + 1,
            r.id == JsonValue::Int(final(self).spec_request_counter() as i64),
            r.jsonrpc@ == JSONRPC_VERSION@,
            r.method@ == SAMPLING_CREATE_MESSAGE@,
            r.params == Some(params),
            final(self).spec_state() == old(self).spec_state(),
    {
        self.client_request(SAMPLING_CREATE_MESSAGE, Some(params))
    }

    /// The request asking the client for its roots, with empty params.
    pub fn roots_request(&mut self) -> (r: JsonRpcRequest)
        requires
            old(self).spec_request_counter() < i64::MAX,
        ensures
            final(self).spec_request_counter() == old(self).spec_request_counter() + 1,
            r.id == JsonValue::Int(final(self).spec_request_counter() as i64),
            r.jsonrpc@ == JSONRPC_VERSION@,
            r.method@ == ROOTS_LIST@,
            r.params matches Some(JsonValue::Object(es)) && es@.len() == 0,
            final(self).spec_state() == old(self).spec_state(),
    {
        self.client_request(ROOTS_LIST, Some(JsonValue::Object(Vec::new())))
    }

    /// The request asking the client for its roots, without params.
    pub fn list_roots_request(&mut self) -> (r: JsonRpcRequest)
        requires
            old(self).spec_request_counter() < i64::MAX,
        ensures
            final(self).spec_request_counter() == old(self).spec_request_counter() + 1,
            r.id == JsonValue::Int(final(self).spec_request_counter() as i64),
            r.jsonrpc@ == JSONRPC_VERSION@,
            r.method@ == ROOTS_LIST@,
            r.params is None,
            final(self).spec_state() == old(self).spec_state(),
    {
        self.client_request(ROOTS_LIST, None)
    }

    /// The request asking the client to elicit input from its user.
    pub fn elicitation_request(&mut self, params: JsonValue) -> (r: JsonRpcRequest)
        requires
            old(self).spec_request_counter() < i64::MAX,
        ensures
            final(self).spec_request_counter() == old(self).spec_request_counter() + 1,
            r.id == JsonValue::Int(final(self).spec_request_counter() as i64),
            r.jsonrpc@ == JSONRPC_VERSION@,
            r.method@ == ELICITATION_CREATE@,
            r.params == Some(params),
            final(self).spec_state() == old(self).spec_state(),
    {
        self.client_request(ELICITATION_CREATE, Some(params))
    }

    /// Records that a completion handler answers references of `ref_type`.
    pub fn add_completion_handler(&mut self, ref_type: String) -> (r: Result<(), McpError>)
        ensures
            r is Ok,
            final(self).spec_completion_types().lookup(ref_type@) is Some,
            forall|k: Seq<char>| k != ref_type@ ==> #[trigger] final(self).spec_completion_types().lookup(k)
                == old(self).spec_completion_types().lookup(k),
            final(self).spec_state() == old(self).spec_state(),
            final(self).spec_request_counter() == old(self).spec_request_counter(),
    {
        self.completion_handlers.insert(ref_type, ());
        Ok(())
    }

    /// Forgets the completion handler for `ref_type`; says whether there
    /// was one.
    pub fn remove_completion_handler(&mut self, ref_type: &str) -> (r: Result<bool, McpError>)
        ensures
            r == Ok::<bool, McpError>(old(self).spec_completion_types().lookup(ref_type@) is Some),
            final(self).spec_completion_types().lookup(ref_type@) is None,
            forall|k: Seq<char>| k != ref_type@ ==> #[trigger] final(self).spec_completion_types().lookup(k)
                == old(self).spec_completion_types().lookup(k),
            final(self).spec_state() == old(self).spec_state(),
            final(self).spec_request_counter() == old(self).spec_request_counter(),
    {
        Ok(self.completion_handlers.remove(ref_type))
    }

    /// The kind of handler that completes `reference`, when one is
    /// registered; with none, the completion offers nothing.
    pub fn completion_handler_for(&self, reference: &CompletionReference) -> (r: Option<&'static str>)
        ensures
            r is Some <==> self.spec_completion_types().lookup(spec_ref_type(*reference)) is Some,
            r matches Some(t) ==> t@ == spec_ref_type(*reference),
    {
        let t = ref_type(reference);
        if self.completion_handlers.contains(t) {
            Some(t)
        } else {
            None
        }
    }
}

} // verus!
