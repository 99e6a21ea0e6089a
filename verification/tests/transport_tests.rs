use prism_mcp_rs::auth::{authorization_url_problem, is_authenticated, retry_with_fresh_token, AuthorizedHttpTransportBuilder};
use prism_mcp_rs::convenience::{get_endpoints, retry_allowed, set_header, ConnectionStats, ErrorMetrics, HttpClientTransportBuilder, HttpEndpoints};
use prism_mcp_rs::error::McpError;
use prism_mcp_rs::telemetry::OtlpTracingConfig;
use prism_mcp_rs::tls::{check_certificate_chain, check_client_ca, MtlsClientConfig, MtlsServerConfig};
use prism_mcp_rs::transport_types::{ConnectionState, TransportConfig, TransportStats};

#[test]
fn test_transport_config_default() {
    let config = TransportConfig::default();
    assert_eq!(config.connect_timeout_ms, Some(30_000));
    assert_eq!(config.read_timeout_ms, Some(60_000));
    assert_eq!(config.max_message_size, Some(16 * 1024 * 1024));
    assert!(!config.compression);
}

#[test]
fn test_connection_state_equality() {
    assert_eq!(ConnectionState::Connected, ConnectionState::Connected);
    assert_eq!(ConnectionState::Disconnected, ConnectionState::Disconnected);
    assert_ne!(ConnectionState::Connected, ConnectionState::Disconnected);

    let error1 = ConnectionState::Error("test".to_string());
    let error2 = ConnectionState::Error("test".to_string());
    let error3 = ConnectionState::Error("other".to_string());
    assert_eq!(error1, error2);
    assert_ne!(error1, error3);
}

#[test]
fn test_transport_stats_default() {
    let stats = TransportStats::default();
    assert_eq!(stats.requests_sent, 0);
    assert_eq!(stats.responses_received, 0);
    assert_eq!(stats.bytes_sent, 0);
    assert_eq!(stats.bytes_received, 0);
}

#[test]
fn test_http_endpoints() {
    let base_url = "http://localhost:3000";
    let endpoints = HttpEndpoints {
        mcp: format!("{}/mcp", base_url),
        notify: format!("{}/mcp/notify", base_url),
        events: Some("http://localhost:3000/events".to_string()),
        health: format!("{}/health", base_url),
    };
    assert_eq!(endpoints.mcp, "http://localhost:3000/mcp");
    assert_eq!(endpoints.notify, "http://localhost:3000/mcp/notify");
    assert_eq!(endpoints.health, "http://localhost:3000/health");
}

#[test]
fn test_connection_stats_default() {
    let stats = ConnectionStats::default();
    assert_eq!(stats.requests_sent, 0);
    assert_eq!(stats.responses_received, 0);
    assert_eq!(stats.uptime_ms, 0);
}

#[test]
fn endpoints_follow_the_base_url() {
    let e = get_endpoints("http://h:1", &Some("http://h:1/events".to_string()));
    assert_eq!(e.mcp, "http://h:1/mcp");
    assert_eq!(e.notify, "http://h:1/mcp/notify");
    assert_eq!(e.health, "http://h:1/health");
    assert_eq!(e.events.as_deref(), Some("http://h:1/events"));
    assert!(get_endpoints("x", &None).events.is_none());
}

#[test]
fn error_metrics_start_empty() {
    let m = ErrorMetrics::default();
    assert_eq!(m.total_errors, 0);
    assert!(m.http_errors.is_empty());
}

#[test]
fn retries_follow_the_error_kind() {
    assert!(retry_allowed(&McpError::Timeout("t".to_string()), true, false));
    assert!(!retry_allowed(&McpError::Timeout("t".to_string()), false, true));
    assert!(retry_allowed(&McpError::Http("500".to_string()), false, true));
    assert!(!retry_allowed(&McpError::Validation("v".to_string()), true, true));
}

#[test]
fn headers_are_set_once_per_name() {
    let mut h = vec![("a".to_string(), "1".to_string())];
    set_header(&mut h, "b".to_string(), "2".to_string());
    set_header(&mut h, "a".to_string(), "3".to_string());
    assert_eq!(h, vec![("a".to_string(), "3".to_string()), ("b".to_string(), "2".to_string())]);
}

#[test]
fn client_builder_needs_a_base_url() {
    assert!(HttpClientTransportBuilder::new().finish().is_err());
    let built = HttpClientTransportBuilder::new()
        .base_url("http://localhost:3000".to_string())
        .sse_url("http://localhost:3000/events".to_string())
        .timeout(5000)
        .header("X-Test".to_string(), "1".to_string())
        .compression(true)
        .finish();
    match built {
        Ok((base, sse, config)) => {
            assert_eq!(base, "http://localhost:3000");
            assert_eq!(sse.as_deref(), Some("http://localhost:3000/events"));
            assert!(config.compression);
            assert_eq!(config.headers, vec![("X-Test".to_string(), "1".to_string())]);
        }
        Err(e) => panic!("{:?}", e),
    }
}

#[test]
fn authorized_builder_settings() {
    let b = AuthorizedHttpTransportBuilder::new("https://mcp.example.com".to_string())
        .with_sse("https://mcp.example.com/events".to_string())
        .with_auth(false)
        .with_client_credentials("id".to_string(), Some("secret".to_string()))
        .with_redirect_uri("http://localhost/cb".to_string())
        .with_scopes(vec!["read".to_string()])
        .with_dynamic_registration(true);
    assert_eq!(b.base_url, "https://mcp.example.com");
    assert_eq!(b.sse_url.as_deref(), Some("https://mcp.example.com/events"));
    assert!(!b.auth_config.enabled);
    assert_eq!(b.auth_config.client_id.as_deref(), Some("id"));
    assert_eq!(b.auth_config.client_secret.as_deref(), Some("secret"));
    assert_eq!(b.auth_config.redirect_uri, "http://localhost/cb");
    assert_eq!(b.auth_config.scopes, vec!["read".to_string()]);
    assert!(b.auth_config.enable_dynamic_registration);
}

#[test]
fn authorization_decisions() {
    assert!(is_authenticated(false, false));
    assert!(!is_authenticated(true, false));
    assert!(retry_with_fresh_token(true, &McpError::Http("HTTP 401 Unauthorized".to_string())));
    assert!(!retry_with_fresh_token(false, &McpError::Http("HTTP 401".to_string())));
    assert!(!retry_with_fresh_token(true, &McpError::Http("HTTP 500".to_string())));
    match authorization_url_problem(false, true) {
        Some(McpError::Authentication(m)) => assert_eq!(m, "Authorization is not enabled"),
        other => panic!("unexpected {:?}", other),
    }
    match authorization_url_problem(true, false) {
        Some(McpError::Authentication(m)) => assert_eq!(m, "Authorization server not discovered yet"),
        other => panic!("unexpected {:?}", other),
    }
    assert!(authorization_url_problem(true, true).is_none());
}

#[test]
fn telemetry_settings() {
    let c = OtlpTracingConfig::new("svc".to_string(), "http://collector:4317".to_string());
    assert_eq!(c.filter, "info");
    let c = c.with_filter("debug".to_string());
    assert_eq!(c.filter, "debug");
    assert_eq!(c.service_name, "svc");
}

#[test]
fn tls_checks() {
    let c = MtlsClientConfig::new(b"id".to_vec(), b"ca".to_vec());
    assert_eq!(c.identity_pem, b"id".to_vec());
    let s = MtlsServerConfig::new(b"chain".to_vec(), b"key".to_vec(), b"ca".to_vec());
    assert_eq!(s.private_key_pem, b"key".to_vec());
    assert!(check_certificate_chain(2).is_ok());
    match check_certificate_chain(0) {
        Err(McpError::Authentication(m)) => assert_eq!(m, "mTLS server certificate chain is empty"),
        other => panic!("unexpected {:?}", other),
    }
    assert!(check_client_ca(1, 0).is_ok());
    match check_client_ca(2, 1) {
        Err(McpError::Authentication(m)) => assert_eq!(m, "client CA contained 2 accepted and 1 rejected certificates"),
        other => panic!("unexpected {:?}", other),
    }
}
