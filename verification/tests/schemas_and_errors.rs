use iroh_raft::error::{ErrorCategory, RaftError};
use iroh_raft::management::schemas::{
    default_leadership_timeout, default_voter_role, ErrorResponse, HealthCheck, HealthResponse, HealthStatus, NodeRole,
};

fn check(name: &str, status: HealthStatus) -> HealthCheck {
    HealthCheck { name: name.to_string(), status, message: None, duration_ms: 1 }
}

#[test]
fn schema_defaults() {
    assert_eq!(default_voter_role(), NodeRole::Voter);
    assert_eq!(default_leadership_timeout(), 10_000);
}

#[test]
fn health_response_takes_the_worst_check() {
    let h = HealthResponse::healthy_at(500, 1_000);
    assert_eq!(h.status, HealthStatus::Healthy);
    assert_eq!(h.uptime_ms, 500);
    assert_eq!(h.timestamp_ms, 1_000);
    let h = h.with_check(check("a", HealthStatus::Healthy));
    assert_eq!(h.status, HealthStatus::Healthy);
    let h = h.with_check(check("b", HealthStatus::Degraded));
    assert_eq!(h.status, HealthStatus::Degraded);
    let h = h.with_check(check("c", HealthStatus::Unhealthy));
    assert_eq!(h.status, HealthStatus::Unhealthy);
    let h = h.with_check(check("d", HealthStatus::Healthy));
    assert_eq!(h.status, HealthStatus::Unhealthy);
    assert_eq!(h.checks.len(), 4);
    let now = HealthResponse::healthy(7);
    assert!(now.checks.is_empty());
    assert_eq!(now.uptime_ms, 7);
}

#[test]
fn error_bodies() {
    let e = ErrorResponse::at("not_found", "no such node", None, 42);
    assert_eq!(e.error, "not_found");
    assert_eq!(e.message, "no such node");
    assert!(e.details.is_none());
    assert!(e.request_id.is_none());
    assert_eq!(e.timestamp_ms, 42);
    let d = ErrorResponse::with_details("bad", "input", serde_json::Value::String("field x".to_string()));
    assert_eq!(d.details, Some(serde_json::Value::String("field x".to_string())));
}

#[test]
fn error_constructors_and_categories() {
    let c = RaftError::consensus_error("append", "term mismatch".to_string());
    assert_eq!(c.error_category(), ErrorCategory::Raft);
    match &c {
        RaftError::Consensus { operation, details } => {
            assert_eq!(operation, "append");
            assert_eq!(details, "term mismatch");
        }
        other => panic!("unexpected {:?}", other),
    }
    let d = RaftError::database_error("write", "disk full".to_string());
    assert_eq!(d.error_category(), ErrorCategory::Storage);
    assert_eq!(d.category(), "storage");
    let i = RaftError::Internal { message: "x".to_string() };
    assert_eq!(i.error_category(), ErrorCategory::Internal);
    assert_eq!(i.category(), "internal");
}
