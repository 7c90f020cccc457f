use iroh_raft::management::config::ManagementConfig;

#[test]
fn test_default_config() {
    let config = ManagementConfig::default();
    assert!(config.enable_swagger_ui);
    assert!(config.enable_cors);
    assert!(!config.rate_limit.enabled);
    assert!(!config.security.require_auth);
    assert!(config.websocket.enabled);
}

#[test]
fn test_builder() {
    let config = ManagementConfig::builder()
        .bind_address("0.0.0.0:9090".to_string())
        .enable_swagger_ui(false)
        .enable_cors(false)
        .api_key("test-key".to_string())
        .enable_rate_limiting()
        .build();

    assert!(config.bind_address.ends_with(":9090"));
    assert!(!config.enable_swagger_ui);
    assert!(!config.enable_cors);
    assert!(config.security.require_auth);
    assert_eq!(config.security.api_key, Some("test-key".to_string()));
    assert!(config.rate_limit.enabled);
}

#[test]
fn test_validation() {
    let config = ManagementConfig::default();
    assert!(config.validate().is_ok());

    let mut config = ManagementConfig::default();
    config.security.enable_tls = true;
    assert!(config.validate().is_err());

    let mut config = ManagementConfig::default();
    config.rate_limit.enabled = true;
    config.rate_limit.requests_per_minute = 0;
    assert!(config.validate().is_err());
}

#[test]
fn tls_with_paths_is_valid() {
    let config = ManagementConfig::builder()
        .enable_tls("cert.pem".to_string(), "key.pem".to_string())
        .build();
    assert!(config.security.enable_tls);
    assert!(config.validate().is_ok());
}
