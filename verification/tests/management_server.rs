use iroh_raft::management::config::ManagementConfig;
use iroh_raft::management::server::{auth_allows, server_config_summary};

#[test]
fn summary_reports_fixed_settings() {
    let s = server_config_summary();
    assert_eq!(s.bind_address, "unknown");
    assert!(s.swagger_ui_enabled && s.cors_enabled && s.websocket_enabled);
    assert!(!s.auth_required);
}

#[test]
fn authentication_check() {
    let open = ManagementConfig::default();
    assert!(auth_allows(&open, "/v1/cluster/status", None));

    let locked = ManagementConfig::builder().api_key("secret".to_string()).build();
    assert!(auth_allows(&locked, "/v1/health", None));
    assert!(auth_allows(&locked, "/v1/ready", None));
    assert!(!auth_allows(&locked, "/v1/cluster/status", None));
    assert!(auth_allows(&locked, "/v1/cluster/status", Some("Bearer secret")));
    assert!(!auth_allows(&locked, "/v1/cluster/status", Some("Bearer secret2")));
    assert!(!auth_allows(&locked, "/v1/cluster/status", Some("secret")));
}
