//! Error type of the library and its classification for retry, leadership
//! and monitoring decisions.

use vstd::prelude::*;
use vstd::string::StringExecFns;
use crate::text::{cat2, cat3, cat4, cat5, cat6, decimal, duration_text, format_duration_ms, u64_to_string};

verus! {

/// Errors of the consensus library.  Each variant carries, as plain values,
/// the context that identifies the failure; durations are in milliseconds.
#[derive(Debug)]
pub enum RaftError {
    /// Node is not the current leader for write operations
    NotLeader { operation: String, current_leader: Option<u64> },
    /// Node not found in the cluster configuration
    NodeNotFound { node_id: u64 },
    /// Error of the underlying consensus library
    Consensus { operation: String, details: String },
    /// Database operation failed
    Database { operation: String, details: String },
    /// Storage operation failed
    Storage { operation: String, details: String },
    /// P2P transport error
    Transport { details: String },
    /// Node is not ready for an operation
    NotReady { node_id: u64, operation: String, reason: String },
    /// Proposal rejected by the state machine
    ProposalRejected { operation: String, reason: String },
    /// Configuration change failed
    ConfigurationChange { operation: String, reason: String },
    /// Snapshot operation failed
    Snapshot { operation: String, details: String },
    /// Operation timed out
    Timeout { operation: String, duration_ms: u64 },
    /// Circuit breaker is open
    CircuitBreakerOpen { message: String },
    /// Backpressure applied
    Backpressure { operation: String, reason: String },
    /// Resource exhausted
    ResourceExhausted { resource: String, details: String },
    /// Transaction failed
    Transaction { operation: String, reason: String },
    /// Storage corruption detected
    StorageCorruption { component: String, details: String },
    /// Not enough storage space
    InsufficientSpace { operation: String, needed: u64, available: u64 },
    /// Connection to a peer failed
    ConnectionFailed { peer_id: String, reason: String },
    /// Network partition detected
    NetworkPartition { details: String },
    /// Serialization failed
    Serialization { message_type: String, details: String },
    /// Protocol version mismatch with a peer
    ProtocolMismatch { peer_id: String, local_version: String, remote_version: String },
    /// Network operation with a peer timed out
    NetworkTimeout { operation: String, peer_id: String, duration_ms: u64 },
    /// Invalid configuration
    InvalidConfiguration { component: String, message: String },
    /// Missing configuration
    MissingConfiguration { parameter: String, component: String },
    /// Configuration validation failed
    ConfigurationValidation { component: String, details: String },
    /// Service unavailable
    ServiceUnavailable { service: String, reason: String },
    /// Authentication failed
    AuthenticationFailed { peer_id: String, reason: String },
    /// Authorization denied
    AuthorizationDenied { operation: String, peer_id: String },
    /// Cryptographic failure
    Cryptographic { operation: String, details: String },
    /// Internal invariant violated
    InvariantViolation { details: String },
    /// Feature not implemented
    NotImplemented { feature: String },
    /// Invalid state transition
    InvalidState { from_state: String, to_state: String, component: String },
    /// Lock poisoned
    LockPoisoned { operation: String, details: String },
    /// Invalid input
    InvalidInput { parameter: String, message: String },
    /// Validation failed
    Validation { field: String, reason: String },
    /// Constraint violated
    ConstraintViolation { operation: String, constraint: String, details: String },
    /// I/O error
    Io { operation: String, details: String },
    /// System error
    System { operation: String, details: String },
    /// Internal error
    Internal { message: String },
    /// Cluster error
    ClusterError { message: String },
    /// Several errors at once
    Multiple { context: String, errors: Vec<RaftError> },
}

/// Result type of the library.
pub type Result<T> = core::result::Result<T, RaftError>;

/// Error categories used for metrics and monitoring.
#[derive(Debug, Clone, Copy, PartialEq, Eq, Structural)]
pub enum ErrorCategory {
    /// Consensus protocol errors
    Raft,
    /// Storage errors
    Storage,
    /// Transport errors
    Transport,
    /// Configuration errors
    Configuration,
    /// Security errors
    Security,
    /// Internal errors
    Internal,
    /// Input validation errors
    Validation,
    /// System and resource errors
    System,
    /// Cluster errors
    Cluster,
    /// Several errors
    Multiple,
    /// Circuit breaker rejections
    CircuitBreaker,
    /// Backpressure rejections
    Backpressure,
}

/// An error is transient when retrying may succeed: network timeouts, failed
/// connections, transport errors, unavailable services, exhausted resources and
/// nodes that are not ready; a group of errors is transient when all of its
/// members are.
pub open spec fn spec_is_transient(e: RaftError) -> bool
    decreases e, 0int,
{
    match e {
        RaftError::NetworkTimeout { .. }
        | RaftError::ConnectionFailed { .. }
        | RaftError::Transport { .. }
        | RaftError::ServiceUnavailable { .. }
        | RaftError::ResourceExhausted { .. }
        | RaftError::NotReady { .. } => true,
        RaftError::Multiple { errors, .. } => all_transient(errors@),
        _ => false,
    }
}

/// Every error of the sequence is transient.
pub open spec fn all_transient(s: Seq<RaftError>) -> bool
    decreases s, 1int,
{
    if s.len() == 0 {
        true
    } else {
        spec_is_transient(s[s.len() - 1]) && all_transient(s.subrange(0, s.len() - 1))
    }
}

/// An error asks a leader to step down when it reports a network partition,
/// storage corruption or insufficient space; a group of errors does when any
/// of its members does.
pub open spec fn spec_should_step_down(e: RaftError) -> bool
    decreases e, 0int,
{
    match e {
        RaftError::NetworkPartition { .. }
        | RaftError::StorageCorruption { .. }
        | RaftError::InsufficientSpace { .. } => true,
        RaftError::Multiple { errors, .. } => any_step_down(errors@),
        _ => false,
    }
}

/// Some error of the sequence asks for stepping down.
pub open spec fn any_step_down(s: Seq<RaftError>) -> bool
    decreases s, 1int,
{
    if s.len() == 0 {
        false
    } else {
        spec_should_step_down(s[s.len() - 1]) || any_step_down(s.subrange(0, s.len() - 1))
    }
}

/// `all_transient` holds exactly when every member is transient.
pub proof fn lemma_all_transient(s: Seq<RaftError>)
    ensures
        all_transient(s) <==> forall|i: int| 0 <= i < s.len() ==> #[trigger] spec_is_transient(s[i]),
    decreases s.len(),
{
    if s.len() > 0 {
        let p = s.subrange(0, s.len() - 1);
        lemma_all_transient(p);
        assert forall|i: int| 0 <= i < s.len() - 1 implies p[i] == s[i] by {}
        if all_transient(s) {
            assert forall|i: int| 0 <= i < s.len() implies #[trigger] spec_is_transient(s[i]) by {
                if i < s.len() - 1 {
                    assert(p[i] == s[i]);
                    assert(spec_is_transient(p[i]));
                }
            }
        }
        if forall|i: int| 0 <= i < s.len() ==> #[trigger] spec_is_transient(s[i]) {
            assert forall|i: int| 0 <= i < p.len() implies #[trigger] spec_is_transient(p[i]) by {
                assert(p[i] == s[i]);
                assert(spec_is_transient(s[i]));
            }
            assert(spec_is_transient(s[s.len() - 1]));
        }
    }
}

/// `any_step_down` holds exactly when some member asks for stepping down.
pub proof fn lemma_any_step_down(s: Seq<RaftError>)
    ensures
        any_step_down(s) <==> exists|i: int| 0 <= i < s.len() && #[trigger] spec_should_step_down(s[i]),
    decreases s.len(),
{
    if s.len() > 0 {
        let p = s.subrange(0, s.len() - 1);
        lemma_any_step_down(p);
        assert forall|i: int| 0 <= i < s.len() - 1 implies p[i] == s[i] by {}
        if any_step_down(s) {
            if spec_should_step_down(s[s.len() - 1]) {
                assert(spec_should_step_down(s[s.len() - 1]));
            } else {
                let k = choose|k: int| 0 <= k < p.len() && #[trigger] spec_should_step_down(p[k]);
                assert(p[k] == s[k]);
                assert(spec_should_step_down(s[k]));
            }
        }
        if exists|i: int| 0 <= i < s.len() && #[trigger] spec_should_step_down(s[i]) {
            let k = choose|k: int| 0 <= k < s.len() && #[trigger] spec_should_step_down(s[k]);
            if k < s.len() - 1 {
                assert(p[k] == s[k]);
                assert(spec_should_step_down(p[k]));
            }
        }
    }
}

/// The category of an error.
pub open spec fn spec_category(e: RaftError) -> ErrorCategory {
    match e {
        RaftError::NotLeader { .. }
        | RaftError::Consensus { .. }
        | RaftError::NotReady { .. }
        | RaftError::NodeNotFound { .. }
        | RaftError::ProposalRejected { .. }
        | RaftError::ConfigurationChange { .. }
        | RaftError::Snapshot { .. } => ErrorCategory::Raft,
        RaftError::Storage { .. }
        | RaftError::Database { .. }
        | RaftError::Transaction { .. }
        | RaftError::StorageCorruption { .. }
        | RaftError::InsufficientSpace { .. } => ErrorCategory::Storage,
        RaftError::Transport { .. }
        | RaftError::ConnectionFailed { .. }
        | RaftError::NetworkPartition { .. }
        | RaftError::Serialization { .. }
        | RaftError::ProtocolMismatch { .. }
        | RaftError::NetworkTimeout { .. } => ErrorCategory::Transport,
        RaftError::InvalidConfiguration { .. }
        | RaftError::MissingConfiguration { .. }
        | RaftError::ConfigurationValidation { .. } => ErrorCategory::Configuration,
        RaftError::AuthenticationFailed { .. }
        | RaftError::AuthorizationDenied { .. }
        | RaftError::Cryptographic { .. } => ErrorCategory::Security,
        RaftError::InvariantViolation { .. }
        | RaftError::NotImplemented { .. }
        | RaftError::InvalidState { .. }
        | RaftError::LockPoisoned { .. }
        | RaftError::Internal { .. } => ErrorCategory::Internal,
        RaftError::InvalidInput { .. }
        | RaftError::Validation { .. }
        | RaftError::ConstraintViolation { .. } => ErrorCategory::Validation,
        RaftError::ResourceExhausted { .. }
        | RaftError::Timeout { .. }
        | RaftError::ServiceUnavailable { .. }
        | RaftError::Io { .. }
        | RaftError::System { .. } => ErrorCategory::System,
        RaftError::ClusterError { .. } => ErrorCategory::Cluster,
        RaftError::Multiple { .. } => ErrorCategory::Multiple,
        RaftError::CircuitBreakerOpen { .. } => ErrorCategory::CircuitBreaker,
        RaftError::Backpressure { .. } => ErrorCategory::Backpressure,
    }
}

/// The name of a category as reported to metrics.
pub open spec fn category_name(c: ErrorCategory) -> Seq<char> {
    match c {
        ErrorCategory::Raft => "raft"@,
        ErrorCategory::Storage => "storage"@,
        ErrorCategory::Transport => "transport"@,
        ErrorCategory::Configuration => "configuration"@,
        ErrorCategory::Security => "security"@,
        ErrorCategory::Internal => "internal"@,
        ErrorCategory::Validation => "validation"@,
        ErrorCategory::System => "system"@,
        ErrorCategory::Cluster => "cluster"@,
        ErrorCategory::Multiple => "multiple"@,
        ErrorCategory::CircuitBreaker => "circuit_breaker"@,
        ErrorCategory::Backpressure => "backpressure"@,
    }
}

impl ErrorCategory {
    /// The name of the category, as used for metrics.
    pub fn as_str(&self) -> (r: &'static str)
        ensures
            r@ == category_name(*self),
    {
        match self {
            ErrorCategory::Raft => "raft",
            ErrorCategory::Storage => "storage",
            ErrorCategory::Transport => "transport",
            ErrorCategory::Configuration => "configuration",
            ErrorCategory::Security => "security",
            ErrorCategory::Internal => "internal",
            ErrorCategory::Validation => "validation",
            ErrorCategory::System => "system",
            ErrorCategory::Cluster => "cluster",
            ErrorCategory::Multiple => "multiple",
            ErrorCategory::CircuitBreaker => "circuit_breaker",
            ErrorCategory::Backpressure => "backpressure",
        }
    }
}

impl RaftError {
    /// Check if this error is transient and might succeed on retry.
    pub fn is_transient(&self) -> (r: bool)
        ensures
            r == spec_is_transient(*self),
        decreases *self,
    {
        match self {
            RaftError::NetworkTimeout { .. }
            | RaftError::ConnectionFailed { .. }
            | RaftError::Transport { .. }
            | RaftError::ServiceUnavailable { .. }
            | RaftError::ResourceExhausted { .. }
            | RaftError::NotReady { .. } => true,
            RaftError::Multiple { errors, .. } => {
                let mut i: usize = 0;
                while i < errors.len()
                    invariant
                        i <= errors.len(),
                        *self is Multiple,
                        self->Multiple_errors == *errors,
                        forall|j: int| 0 <= j < i ==> #[trigger] spec_is_transient(errors@[j]),
                    decreases errors.len() - i,
                {
                    proof {
                        let ghost e = *self;
                        assert(decreases_to!(e => e->Multiple_errors));
                        assert(decreases_to!(e->Multiple_errors => e->Multiple_errors@));
                        assert(decreases_to!(e->Multiple_errors@ => e->Multiple_errors@[i as int]));
                    }
                    if !errors[i].is_transient() {
                        proof { lemma_all_transient(errors@); }
                        return false;
                    }
                    i = i + 1;
                }
                proof { lemma_all_transient(errors@); }
                true
            },
            _ => false,
        }
    }

    /// Check if this error indicates the node should step down from leadership.
    pub fn should_step_down(&self) -> (r: bool)
        ensures
            r == spec_should_step_down(*self),
        decreases *self,
    {
        match self {
            RaftError::NetworkPartition { .. }
            | RaftError::StorageCorruption { .. }
            | RaftError::InsufficientSpace { .. } => true,
            RaftError::Multiple { errors, .. } => {
                let mut i: usize = 0;
                while i < errors.len()
                    invariant
                        i <= errors.len(),
                        *self is Multiple,
                        self->Multiple_errors == *errors,
                        forall|j: int| 0 <= j < i ==> !#[trigger] spec_should_step_down(errors@[j]),
                    decreases errors.len() - i,
                {
                    proof {
                        let ghost e = *self;
                        assert(decreases_to!(e => e->Multiple_errors));
                        assert(decreases_to!(e->Multiple_errors => e->Multiple_errors@));
                        assert(decreases_to!(e->Multiple_errors@ => e->Multiple_errors@[i as int]));
                    }
                    if errors[i].should_step_down() {
                        proof { lemma_any_step_down(errors@); }
                        return true;
                    }
                    i = i + 1;
                }
                proof { lemma_any_step_down(errors@); }
                false
            },
            _ => false,
        }
    }

    /// The category of this error for metrics and monitoring.
    pub fn error_category(&self) -> (r: ErrorCategory)
        ensures
            r == spec_category(*self),
    {
        match self {
            RaftError::NotLeader { .. }
            | RaftError::Consensus { .. }
            | RaftError::NotReady { .. }
            | RaftError::NodeNotFound { .. }
            | RaftError::ProposalRejected { .. }
            | RaftError::ConfigurationChange { .. }
            | RaftError::Snapshot { .. } => ErrorCategory::Raft,
            RaftError::Storage { .. }
            | RaftError::Database { .. }
            | RaftError::Transaction { .. }
            | RaftError::StorageCorruption { .. }
            | RaftError::InsufficientSpace { .. } => ErrorCategory::Storage,
            RaftError::Transport { .. }
            | RaftError::ConnectionFailed { .. }
            | RaftError::NetworkPartition { .. }
            | RaftError::Serialization { .. }
            | RaftError::ProtocolMismatch { .. }
            | RaftError::NetworkTimeout { .. } => ErrorCategory::Transport,
            RaftError::InvalidConfiguration { .. }
            | RaftError::MissingConfiguration { .. }
            | RaftError::ConfigurationValidation { .. } => ErrorCategory::Configuration,
            RaftError::AuthenticationFailed { .. }
            | RaftError::AuthorizationDenied { .. }
            | RaftError::Cryptographic { .. } => ErrorCategory::Security,
            RaftError::InvariantViolation { .. }
            | RaftError::NotImplemented { .. }
            | RaftError::InvalidState { .. }
            | RaftError::LockPoisoned { .. }
            | RaftError::Internal { .. } => ErrorCategory::Internal,
            RaftError::InvalidInput { .. }
            | RaftError::Validation { .. }
            | RaftError::ConstraintViolation { .. } => ErrorCategory::Validation,
            RaftError::ResourceExhausted { .. }
            | RaftError::Timeout { .. }
            | RaftError::ServiceUnavailable { .. }
            | RaftError::Io { .. }
            | RaftError::System { .. } => ErrorCategory::System,
            RaftError::ClusterError { .. } => ErrorCategory::Cluster,
            RaftError::Multiple { .. } => ErrorCategory::Multiple,
            RaftError::CircuitBreakerOpen { .. } => ErrorCategory::CircuitBreaker,
            RaftError::Backpressure { .. } => ErrorCategory::Backpressure,
        }
    }

    /// The category name of this error for metrics and monitoring.
    pub fn category(&self) -> (r: &'static str)
        ensures
            r@ == category_name(spec_category(*self)),
    {
        let c = self.error_category();
        c.as_str()
    }

    /// Create a storage error with context.
    pub fn storage_error(operation: &str, details: String) -> (r: Self)
        ensures
            r matches RaftError::Storage { operation: o, details: d } && o@ == operation@ && d == details,
    {
        RaftError::Storage { operation: operation.to_owned(), details }
    }

    /// Create a transport error with context.
    pub fn transport_error(details: &str) -> (r: Self)
        ensures
            r matches RaftError::Transport { details: d } && d@ == details@,
    {
        RaftError::Transport { details: details.to_owned() }
    }

    /// Create a consensus error with context.
    pub fn consensus_error(operation: &str, details: String) -> (r: Self)
        ensures
            r matches RaftError::Consensus { operation: o, details: d } && o@ == operation@ && d == details,
    {
        RaftError::Consensus { operation: operation.to_owned(), details }
    }

    /// Create a database error with context.
    pub fn database_error(operation: &str, details: String) -> (r: Self)
        ensures
            r matches RaftError::Database { operation: o, details: d } && o@ == operation@ && d == details,
    {
        RaftError::Database { operation: operation.to_owned(), details }
    }
}

/// The text of a known leader, as its debug form shows it.
pub open spec fn leader_text(l: Option<u64>) -> Seq<char> {
    match l {
        Some(n) => "Some("@ + decimal(n as nat) + ")"@,
        None => "None"@,
    }
}

/// The text of an error, as its display shows it.
pub open spec fn error_text(e: RaftError) -> Seq<char> {
    match e {
        RaftError::NotLeader { operation, current_leader } => "Not leader for operation '"@ + operation@ + "', current leader: "@ + leader_text(current_leader),
        RaftError::NodeNotFound { node_id } => "Node "@ + decimal(node_id as nat) + " not found in cluster configuration"@,
        RaftError::Consensus { operation, details } => "Raft consensus error in '"@ + operation@ + "': "@ + details@,
        RaftError::Database { operation, details } => "Database error in '"@ + operation@ + "': "@ + details@,
        RaftError::Storage { operation, .. } => "Storage operation '"@ + operation@ + "' failed"@,
        RaftError::Transport { details } => "P2P transport error: "@ + details@,
        RaftError::NotReady { node_id, operation, reason } => "Node "@ + decimal(node_id as nat) + " not ready for operation '"@ + operation@ + "': "@ + reason@,
        RaftError::ProposalRejected { operation, reason } => "Proposal rejected for operation '"@ + operation@ + "': "@ + reason@,
        RaftError::ConfigurationChange { operation, reason } => "Configuration change failed: "@ + operation@ + " - "@ + reason@,
        RaftError::Snapshot { operation, details } => "Snapshot "@ + operation@ + " failed: "@ + details@,
        RaftError::Timeout { operation, duration_ms } => "Operation '"@ + operation@ + "' timed out after "@ + duration_text(duration_ms as nat),
        RaftError::CircuitBreakerOpen { message } => "Circuit breaker open: "@ + message@,
        RaftError::Backpressure { operation, reason } => "Backpressure applied: "@ + operation@ + " - "@ + reason@,
        RaftError::ResourceExhausted { resource, details } => "Resource exhausted: "@ + resource@ + " - "@ + details@,
        RaftError::Transaction { operation, reason } => "Transaction '"@ + operation@ + "' failed: "@ + reason@,
        RaftError::StorageCorruption { component, details } => "Storage corruption detected in "@ + component@ + ": "@ + details@,
        RaftError::InsufficientSpace { operation, needed, available } => "Insufficient storage space for operation '"@ + operation@ + "': need "@ + decimal(needed as nat) + " bytes, available "@ + decimal(available as nat) + " bytes"@,
        RaftError::ConnectionFailed { peer_id, reason } => "Connection failed to peer "@ + peer_id@ + ": "@ + reason@,
        RaftError::NetworkPartition { details } => "Network partition detected: "@ + details@,
        RaftError::Serialization { message_type, details } => "Serialization error for "@ + message_type@ + ": "@ + details@,
        RaftError::ProtocolMismatch { peer_id, local_version, remote_version } => "Protocol version mismatch with peer "@ + peer_id@ + ": local="@ + local_version@ + ", remote="@ + remote_version@,
        RaftError::NetworkTimeout { operation, peer_id, duration_ms } => "Network timeout for operation '"@ + operation@ + "' with peer "@ + peer_id@ + " after "@ + duration_text(duration_ms as nat),
        RaftError::InvalidConfiguration { component, message } => "Invalid configuration for "@ + component@ + ": "@ + message@,
        RaftError::MissingConfiguration { parameter, component } => "Missing required configuration: "@ + parameter@ + " in "@ + component@,
        RaftError::ConfigurationValidation { component, details } => "Configuration validation failed for "@ + component@ + ": "@ + details@,
        RaftError::ServiceUnavailable { service, reason } => "Service unavailable: "@ + service@ + " - "@ + reason@,
        RaftError::AuthenticationFailed { peer_id, reason } => "Authentication failed for peer "@ + peer_id@ + ": "@ + reason@,
        RaftError::AuthorizationDenied { operation, peer_id } => "Authorization denied for operation '"@ + operation@ + "' by peer "@ + peer_id@,
        RaftError::Cryptographic { operation, details } => "Cryptographic error in "@ + operation@ + ": "@ + details@,
        RaftError::InvariantViolation { details } => "Internal invariant violated: "@ + details@,
        RaftError::NotImplemented { feature } => "Feature not implemented: "@ + feature@,
        RaftError::InvalidState { from_state, to_state, component } => "Invalid state transition: from "@ + from_state@ + " to "@ + to_state@ + " in "@ + component@,
        RaftError::LockPoisoned { operation, details } => "Lock poisoned during operation '"@ + operation@ + "': "@ + details@,
        RaftError::InvalidInput { parameter, message } => "Invalid input for "@ + parameter@ + ": "@ + message@,
        RaftError::Validation { field, reason } => "Validation failed for "@ + field@ + ": "@ + reason@,
        RaftError::ConstraintViolation { operation, constraint, details } => "Constraint violation in "@ + operation@ + ": "@ + constraint@ + " - "@ + details@,
        RaftError::Io { operation, details } => "I/O error during "@ + operation@ + ": "@ + details@,
        RaftError::System { operation, details } => "System error during "@ + operation@ + ": "@ + details@,
        RaftError::Internal { message } => "Internal error: "@ + message@,
        RaftError::ClusterError { message } => "Cluster error: "@ + message@,
        RaftError::Multiple { context, .. } => "Multiple errors in "@ + context@,
    }
}

fn decimal_text(n: u64) -> (r: String)
    ensures
        r@ == decimal(n as nat),
{
    u64_to_string(n)
}

fn format_leader(l: Option<u64>) -> (r: String)
    ensures
        r@ == leader_text(l),
{
    match l {
        Some(n) => cat3("Some(", &decimal_text(n), ")"),
        None => String::from_str("None"),
    }
}

impl RaftError {
    /// The text of this error, as its display shows it.
    pub fn message(&self) -> (r: String)
        ensures
            r@ == error_text(*self),
    {
        match self {
            RaftError::NotLeader { operation, current_leader } => cat4("Not leader for operation '", operation.as_str(), "', current leader: ", &format_leader(*current_leader)),
            RaftError::NodeNotFound { node_id } => cat3("Node ", &decimal_text(*node_id), " not found in cluster configuration"),
            RaftError::Consensus { operation, details } => cat4("Raft consensus error in '", operation.as_str(), "': ", details.as_str()),
            RaftError::Database { operation, details } => cat4("Database error in '", operation.as_str(), "': ", details.as_str()),
            RaftError::Storage { operation, .. } => cat3("Storage operation '", operation.as_str(), "' failed"),
            RaftError::Transport { details } => cat2("P2P transport error: ", details.as_str()),
            RaftError::NotReady { node_id, operation, reason } => cat6("Node ", &decimal_text(*node_id), " not ready for operation '", operation.as_str(), "': ", reason.as_str()),
            RaftError::ProposalRejected { operation, reason } => cat4("Proposal rejected for operation '", operation.as_str(), "': ", reason.as_str()),
            RaftError::ConfigurationChange { operation, reason } => cat4("Configuration change failed: ", operation.as_str(), " - ", reason.as_str()),
            RaftError::Snapshot { operation, details } => cat4("Snapshot ", operation.as_str(), " failed: ", details.as_str()),
            RaftError::Timeout { operation, duration_ms } => cat4("Operation '", operation.as_str(), "' timed out after ", &format_duration_ms(*duration_ms)),
            RaftError::CircuitBreakerOpen { message } => cat2("Circuit breaker open: ", message.as_str()),
            RaftError::Backpressure { operation, reason } => cat4("Backpressure applied: ", operation.as_str(), " - ", reason.as_str()),
            RaftError::ResourceExhausted { resource, details } => cat4("Resource exhausted: ", resource.as_str(), " - ", details.as_str()),
            RaftError::Transaction { operation, reason } => cat4("Transaction '", operation.as_str(), "' failed: ", reason.as_str()),
            RaftError::StorageCorruption { component, details } => cat4("Storage corruption detected in ", component.as_str(), ": ", details.as_str()),
            RaftError::InsufficientSpace { operation, needed, available } => {
                let head = cat4("Insufficient storage space for operation '", operation.as_str(), "': need ", &decimal_text(*needed));
                cat4(&head, " bytes, available ", &decimal_text(*available), " bytes")
            },
            RaftError::ConnectionFailed { peer_id, reason } => cat4("Connection failed to peer ", peer_id.as_str(), ": ", reason.as_str()),
            RaftError::NetworkPartition { details } => cat2("Network partition detected: ", details.as_str()),
            RaftError::Serialization { message_type, details } => cat4("Serialization error for ", message_type.as_str(), ": ", details.as_str()),
            RaftError::ProtocolMismatch { peer_id, local_version, remote_version } => cat6("Protocol version mismatch with peer ", peer_id.as_str(), ": local=", local_version.as_str(), ", remote=", remote_version.as_str()),
            RaftError::NetworkTimeout { operation, peer_id, duration_ms } => cat6("Network timeout for operation '", operation.as_str(), "' with peer ", peer_id.as_str(), " after ", &format_duration_ms(*duration_ms)),
            RaftError::InvalidConfiguration { component, message } => cat4("Invalid configuration for ", component.as_str(), ": ", message.as_str()),
            RaftError::MissingConfiguration { parameter, component } => cat4("Missing required configuration: ", parameter.as_str(), " in ", component.as_str()),
            RaftError::ConfigurationValidation { component, details } => cat4("Configuration validation failed for ", component.as_str(), ": ", details.as_str()),
            RaftError::ServiceUnavailable { service, reason } => cat4("Service unavailable: ", service.as_str(), " - ", reason.as_str()),
            RaftError::AuthenticationFailed { peer_id, reason } => cat4("Authentication failed for peer ", peer_id.as_str(), ": ", reason.as_str()),
            RaftError::AuthorizationDenied { operation, peer_id } => cat4("Authorization denied for operation '", operation.as_str(), "' by peer ", peer_id.as_str()),
            RaftError::Cryptographic { operation, details } => cat4("Cryptographic error in ", operation.as_str(), ": ", details.as_str()),
            RaftError::InvariantViolation { details } => cat2("Internal invariant violated: ", details.as_str()),
            RaftError::NotImplemented { feature } => cat2("Feature not implemented: ", feature.as_str()),
            RaftError::InvalidState { from_state, to_state, component } => cat6("Invalid state transition: from ", from_state.as_str(), " to ", to_state.as_str(), " in ", component.as_str()),
            RaftError::LockPoisoned { operation, details } => cat4("Lock poisoned during operation '", operation.as_str(), "': ", details.as_str()),
            RaftError::InvalidInput { parameter, message } => cat4("Invalid input for ", parameter.as_str(), ": ", message.as_str()),
            RaftError::Validation { field, reason } => cat4("Validation failed for ", field.as_str(), ": ", reason.as_str()),
            RaftError::ConstraintViolation { operation, constraint, details } => cat6("Constraint violation in ", operation.as_str(), ": ", constraint.as_str(), " - ", details.as_str()),
            RaftError::Io { operation, details } => cat4("I/O error during ", operation.as_str(), ": ", details.as_str()),
            RaftError::System { operation, details } => cat4("System error during ", operation.as_str(), ": ", details.as_str()),
            RaftError::Internal { message } => cat2("Internal error: ", message.as_str()),
            RaftError::ClusterError { message } => cat2("Cluster error: ", message.as_str()),
            RaftError::Multiple { context, .. } => cat2("Multiple errors in ", context.as_str()),
        }
    }
}

/// One entry of a numbered error list: its position from one, a point and
/// the error's text.
pub open spec fn numbered_error(i: nat, e: RaftError) -> Seq<char> {
    decimal(i + 1) + ". "@ + error_text(e)
}

/// The numbered entries of a list of errors, separated by `; `.
pub open spec fn error_list_text(s: Seq<RaftError>) -> Seq<char>
    decreases s.len(),
{
    if s.len() == 0 {
        Seq::empty()
    } else if s.len() == 1 {
        numbered_error(0, s[0])
    } else {
        error_list_text(s.drop_last()) + "; "@ + numbered_error((s.len() - 1) as nat, s.last())
    }
}

/// The detailed text of an error: for a group, its context followed by the
/// numbered list of its members; for any other error, its display text.
pub open spec fn detailed_text(e: RaftError) -> Seq<char> {
    match e {
        RaftError::Multiple { context, errors } => "Multiple errors in "@ + context@ + ": "@
            + error_list_text(errors@),
        _ => error_text(e),
    }
}

fn format_error_list(errors: &Vec<RaftError>) -> (r: String)
    ensures
        r@ == error_list_text(errors@),
{
    let mut text = String::new();
    let mut i: usize = 0;
    while i < errors.len()
        invariant
            i <= errors.len(),
            text@ == error_list_text(errors@.take(i as int)),
        decreases errors.len() - i,
    {
        let ghost before = text@;
        let n = decimal_text((i as u64) + 1);
        let m = errors[i].message();
        let entry = cat3(n.as_str(), ". ", m.as_str());
        if i > 0 {
            text.append("; ");
        }
        text.append(entry.as_str());
        proof {
            let t = errors@.take(i as int + 1);
            assert(t.drop_last() =~= errors@.take(i as int));
            assert(t.last() == errors@[i as int]);
            if i == 0 {
                assert(before =~= Seq::<char>::empty());
                assert(text@ =~= numbered_error(0, t[0]));
            }
        }
        i = i + 1;
    }
    assert(errors@.take(errors.len() as int) =~= errors@);
    text
}

impl RaftError {
    /// The detailed text of this error, listing every member of a group.
    pub fn detailed_message(&self) -> (r: String)
        ensures
            r@ == detailed_text(*self),
    {
        match self {
            RaftError::Multiple { context, errors } => {
                let list = format_error_list(errors);
                cat4("Multiple errors in ", context.as_str(), ": ", list.as_str())
            },
            _ => self.message(),
        }
    }
}

impl RaftError {
    /// The error a configuration error becomes: an invalid configuration of
    /// the component `config`, carrying the configuration error's text.
    pub fn from_config_error(e: &crate::config::ConfigError) -> (r: Self)
        ensures
            r matches RaftError::InvalidConfiguration { component, message }
                && component@ == "config"@ && message@ == crate::config::config_error_text(*e),
    {
        RaftError::InvalidConfiguration { component: String::from_str("config"), message: e.message() }
    }
}

} // verus!
