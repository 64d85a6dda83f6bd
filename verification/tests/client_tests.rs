use popsigner::celestia::ClientBuilder;
use popsigner::celestia::Namespace;
use popsigner::client::resolve_config;
use popsigner::client::ClientConfig;
use popsigner::error::ClientError;

#[test]
fn test_builder_requires_popsigner() {
    let builder = ClientBuilder::new().rpc_url("ws://localhost:26658");
    assert!(builder.popsigner_api_key.is_none());
}

#[test]
fn test_builder_with_popsigner() {
    let builder = ClientBuilder::new().popsigner("psk_live_xxx", "my-key");
    assert_eq!(builder.popsigner_api_key, Some("psk_live_xxx".to_string()));
    assert_eq!(builder.popsigner_key, Some("my-key".to_string()));
}

#[test]
fn test_namespace_v0() {
    let ns = Namespace::new_v0(b"test").unwrap();
    assert_eq!(ns.version, 0);
}

#[test]
fn test_namespace_v0_rejects_long_id() {
    let r = Namespace::new_v0(&[0u8; 11]);
    assert!(matches!(
        r,
        Err(ClientError::InvalidInput(m)) if m == "namespace ID too long"
    ));
}

#[test]
fn test_default_config() {
    let config = ClientConfig::default();
    assert!(config.base_url.is_none());
    assert!(config.timeout.is_none());
    assert!(config.user_agent.is_none());
}

#[test]
fn test_resolve_config_defaults() {
    let resolved = resolve_config(ClientConfig::default());
    assert_eq!(resolved.base_url, "https://api.banhbaoring.io");
    assert_eq!(resolved.timeout, 30);
    assert_eq!(resolved.user_agent, "banhbaoring-rust/0.1.0");
}

#[test]
fn test_resolve_config_overrides() {
    let resolved = resolve_config(ClientConfig {
        base_url: Some("https://custom.api.com".to_string()),
        timeout: Some(60),
        user_agent: Some("test-agent/1.0".to_string()),
    });
    assert_eq!(resolved.base_url, "https://custom.api.com");
    assert_eq!(resolved.timeout, 60);
    assert_eq!(resolved.user_agent, "test-agent/1.0");
}

#[test]
fn test_build_plan_requires_api_key() {
    let r = ClientBuilder::new().rpc_url("ws://localhost:26658").build_plan();
    assert!(matches!(
        r,
        Err(ClientError::Config(m)) if m == "POPSigner API key required. Use .popsigner()"
    ));
}

#[test]
fn test_build_plan_requires_key_reference() {
    let mut builder = ClientBuilder::new();
    builder.popsigner_api_key = Some("psk_live_xxx".to_string());
    let r = builder.build_plan();
    assert!(matches!(
        r,
        Err(ClientError::Config(m)) if m == "POPSigner key required. Use .popsigner()"
    ));
}

#[test]
fn test_build_plan_passes_settings_through() {
    let plan = ClientBuilder::new()
        .rpc_url("ws://localhost:26658")
        .grpc_url("http://localhost:9090")
        .popsigner("psk_live_xxx", "my-key")
        .build_plan()
        .unwrap();
    assert_eq!(plan.api_key, "psk_live_xxx");
    assert_eq!(plan.key, "my-key");
    assert_eq!(plan.rpc_url, Some("ws://localhost:26658".to_string()));
    assert_eq!(plan.grpc_url, Some("http://localhost:9090".to_string()));
}

#[test]
fn test_list_audit_logs_query_default() {
    let query = popsigner::types::ListAuditLogsQuery::default();
    assert!(query.event.is_none());
    assert!(query.resource_type.is_none());
    assert!(query.limit.is_none());
}
