use prism_mcp_rs::analysis::{ContentAnalyzer, ContentType, StreamingStrategy};
use prism_mcp_rs::buffers::StreamingBuffer;
use prism_mcp_rs::discovery::{DiscoveryHandler, MethodDirection, MethodInfo, MethodRegistry, MethodType};
use prism_mcp_rs::json::JsonValue;
use prism_mcp_rs::protocol::{Implementation, JsonRpcRequest, ServerCapabilities};
use prism_mcp_rs::registry::Registry;
use prism_mcp_rs::server::{McpServer, ResourceInfo, ResourceTemplate, ServerConfig, Tool};
use prism_mcp_rs::streaming::{CompressionType, StreamingConfig};
use prism_mcp_rs::streams::{Http2StreamManager, PushPromise};
use prism_mcp_rs::subscriptions::{listen_decision, ListenDecision, SubscriptionFilter};
use prism_mcp_rs::transport_types::TransportStats;

fn request(params: JsonValue) -> JsonRpcRequest {
    JsonRpcRequest { jsonrpc: "2.0".to_string(), id: JsonValue::Int(1), method: "tools/call".to_string(), params: Some(params) }
}

#[test]
fn analyzer_counts_what_it_sees() {
    let mut a = ContentAnalyzer::new();
    let plain = request(JsonValue::Object(vec![("name".to_string(), JsonValue::Str("x".to_string()))]));
    let r = a.analyze_request(&plain, 100);
    assert!(!r.should_stream);
    assert_eq!(r.content_type, ContentType::Standard);
    assert_eq!(r.recommended_strategy, StreamingStrategy::Traditional);
    assert_eq!(r.estimated_chunks, 1);
    let binary = request(JsonValue::Object(vec![("image_data".to_string(), JsonValue::Str("AAAA".to_string()))]));
    let r = a.analyze_request(&binary, 20_000);
    assert_eq!(r.recommended_strategy, StreamingStrategy::CompressedStreaming);
    let stats = a.get_stats();
    assert_eq!(stats.total_requests, 2);
    assert_eq!(stats.large_requests, 1);
    assert_eq!(stats.binary_requests, 1);
    assert_eq!(stats.total_size, 20_100);
}

#[test]
fn preset_streaming_configs() {
    let m = StreamingConfig::memory_improved();
    assert_eq!(m.chunk_size, 8192);
    assert_eq!(m.max_concurrent_chunks, 5);
    let p = StreamingConfig::performance_improved();
    assert_eq!(p.compression_type, CompressionType::Brotli);
    assert_eq!(p.http2_config.max_concurrent_streams, 200);
    assert!(p.enable_http2_server_push);
}

#[test]
fn link_measurements_set_the_network_flags() {
    let mut b = StreamingBuffer::new(4, 64);
    b.update_network_metrics(10, 20_000_000);
    assert!(b.add_data(&[1, 2, 3, 4, 5]).is_ok());
    assert_eq!(b.flush(), Some(vec![5]));
    assert_eq!(b.flush(), None);
}

#[test]
fn push_promises_reserve_their_stream() {
    let mut m = Http2StreamManager::new(4);
    m.add_stream(1, "GET".to_string(), "/a".to_string());
    m.add_push_promise(
        1,
        PushPromise { method: "GET".to_string(), path: "/b".to_string(), headers: vec![], stream_id: 1, promised_stream_id: 2 },
    );
    assert_eq!(m.stream_count(), 1);
    m.close_stream(1);
    assert_eq!(m.stream_count(), 0);
}

#[test]
fn registries_and_handlers_over_custom_registries() {
    let mut reg = MethodRegistry::new();
    reg.register(MethodInfo {
        name: "custom/op".to_string(),
        description: None,
        direction: MethodDirection::ClientToServer,
        method_type: MethodType::Request,
        tags: Some(vec!["custom".to_string()]),
        params_schema: None,
        result_schema: None,
    });
    assert_eq!(reg.get_methods().len(), 1);
    let handler = DiscoveryHandler::with_registry(reg);
    let info = Implementation::new("s".to_string(), "1".to_string());
    match handler.handle(&info, &ServerCapabilities::empty(), None) {
        Ok(r) => {
            assert_eq!(r.methods.len(), 1);
            assert_eq!(r.methods[0].0, "custom");
        }
        Err(e) => panic!("{:?}", e),
    }

    let mut names: Registry<u8> = Registry::new();
    names.insert("x".to_string(), 1);
    names.insert("y".to_string(), 2);
    assert_eq!(names.key_at(1), "y");
}

#[test]
fn server_registries_can_be_installed_and_pruned() {
    let mut server = McpServer::new("srv".to_string(), "1".to_string());
    let mut tools = Registry::new();
    tools.insert("t".to_string(), Tool::new("t".to_string(), None, JsonValue::Null));
    server.set_initial_tools(tools);
    assert!(server.has_tool("t"));
    let mut resources = Registry::new();
    resources.insert(
        "file:///r".to_string(),
        prism_mcp_rs::server::Resource {
            info: ResourceInfo { uri: "file:///r".to_string(), name: "r".to_string(), description: None, mime_type: None },
        },
    );
    server.set_initial_resources(resources);
    assert_eq!(server.resource_count(), 1);
    assert!(server.has_resources());
    assert_eq!(server.list_resources()[0].uri, "file:///r");
    assert!(server.remove_resource("file:///r"));
    assert!(!server.has_resources());
    assert!(server.add_resource_template(ResourceTemplate {
        uri_template: "file:///{name}".to_string(),
        name: "files".to_string(),
        description: None,
        mime_type: None,
    })
    .is_ok());
    assert_eq!(server.list_resource_templates().len(), 1);
    assert!(server.remove_resource_template("files"));
    assert!(!server.has_prompts());
    assert!(server.check_prompt_get("p").is_err());
    server.set_config(ServerConfig { max_concurrent_requests: 1, request_timeout_ms: 5, validate_requests: false, enable_logging: false });
    assert_eq!(server.config().request_timeout_ms, 5);
    assert!(!server.is_initialized());
}

#[test]
fn stats_saturate() {
    let mut s = TransportStats::default();
    s.record_request(10);
    s.record_request(u64::MAX);
    assert_eq!(s.requests_sent, 2);
    assert_eq!(s.bytes_sent, u64::MAX);
}

#[test]
fn task_filters() {
    let f = SubscriptionFilter {
        tools_list_changed: None,
        prompts_list_changed: None,
        resources_list_changed: None,
        resource_subscriptions: vec![],
        task_ids: vec!["t1".to_string()],
    };
    assert!(f.requests_tasks());
    let p = JsonValue::Object(vec![("taskId".to_string(), JsonValue::Str("t1".to_string()))]);
    assert!(f.matches("notifications/tasks/status", Some(&p)));
}

#[test]
fn push_promises_are_kept_under_the_stream_they_name() {
    let mut m = Http2StreamManager::new(4);
    m.add_stream(1, "GET".to_string(), "/a".to_string());
    m.add_stream(3, "GET".to_string(), "/c".to_string());
    // The promise's own stream field disagrees with the stream it is made on.
    m.add_push_promise(
        1,
        PushPromise { method: "GET".to_string(), path: "/b".to_string(), headers: vec![], stream_id: 9, promised_stream_id: 2 },
    );
    m.add_push_promise(
        3,
        PushPromise { method: "GET".to_string(), path: "/d".to_string(), headers: vec![], stream_id: 3, promised_stream_id: 4 },
    );
    assert_eq!(m.connection_window_size(), 65535);
    m.close_stream(1);
    assert_eq!(m.stream_count(), 1);
    assert_eq!(m.connection_window_size(), 65535);
}

#[test]
fn memory_settings_keep_the_default_http2_configuration() {
    let c = StreamingConfig::memory_improved();
    assert_eq!(c.chunk_size, 8192);
    assert_eq!(c.http2_config.max_concurrent_streams, 100);
    assert_eq!(c.http2_config.initial_window_size, 65535);
    assert!(c.http2_config.enable_server_push);
}

fn listen_request(meta: Vec<(&str, JsonValue)>, notifications: JsonValue) -> JsonRpcRequest {
    let meta = JsonValue::Object(meta.into_iter().map(|(k, v)| (k.to_string(), v)).collect());
    JsonRpcRequest {
        jsonrpc: "2.0".to_string(),
        id: JsonValue::Int(8),
        method: "subscriptions/listen".to_string(),
        params: Some(JsonValue::Object(vec![("_meta".to_string(), meta), ("notifications".to_string(), notifications)])),
    }
}

#[test]
fn listen_requests_are_decided() {
    let version = ("io.modelcontextprotocol/protocolVersion", JsonValue::Str("2026-07-28".to_string()));
    let tasks = JsonValue::Object(vec![(
        "taskIds".to_string(),
        JsonValue::Array(vec![JsonValue::Str("t".to_string())]),
    )]);
    let caps = ServerCapabilities::empty();
    match listen_decision(listen_request(vec![version.clone()], tasks.clone()), &caps) {
        ListenDecision::Refuse(e) => {
            assert_eq!(e.id, JsonValue::Int(8));
            assert_eq!(e.error.code, -32022);
        }
        _ => panic!("a tasks filter from a client without the extension is refused"),
    }
    let ext = JsonValue::Object(vec![(
        "extensions".to_string(),
        JsonValue::Object(vec![("io.modelcontextprotocol/tasks".to_string(), JsonValue::Object(vec![]))]),
    )]);
    match listen_decision(listen_request(vec![version.clone(), ("io.modelcontextprotocol/clientCapabilities", ext)], tasks.clone()), &caps) {
        // The server does not offer tasks, so the accepted filter names none.
        ListenDecision::Accept(f) => assert!(f.task_ids.is_empty()),
        _ => panic!("expected acceptance"),
    }
    assert!(matches!(listen_decision(listen_request(vec![], tasks), &caps), ListenDecision::BadRequest));
    assert!(matches!(
        listen_decision(listen_request(vec![version], JsonValue::Str("x".to_string())), &caps),
        ListenDecision::BadRequest
    ));
}
