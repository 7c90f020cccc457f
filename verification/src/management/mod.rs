//! Management protocol types: operations, roles, responses and the
//! classification of operations used for access control.

use vstd::prelude::*;
use vstd::string::StringExecFns;

pub mod auth;
pub mod client;
pub mod config;
pub mod discovery;
pub mod events;
pub mod handlers;
pub mod protocol;
pub mod schemas;
pub mod server;

verus! {

/// Management message types following Raft protocol patterns.
#[derive(Debug, Clone, Copy, PartialEq, Eq, Structural)]
pub enum ManagementMessageType {
    /// Management RPC request
    Request,
    /// Management RPC response
    Response,
    /// Event notification (fire-and-forget)
    Event,
    /// Health check ping
    HealthCheck,
    /// Error response
    Error,
}

/// Member roles in the cluster.
#[derive(Debug, Clone, Copy, PartialEq, Eq, Structural)]
pub enum MemberRole {
    /// Voting member that participates in consensus
    Voter,
    /// Learner that receives log entries but doesn't vote
    Learner,
    /// Observer that only receives health and status updates
    Observer,
}

/// Health status of a cluster member.
#[derive(Debug, Clone, Copy, PartialEq, Eq, Structural)]
pub enum HealthStatus {
    /// Member is healthy
    Healthy,
    /// Member is degraded
    Degraded,
    /// Member is unhealthy
    Unhealthy,
    /// Member health is unknown
    Unknown,
}

/// Cluster member information.
#[derive(Debug, Clone)]
pub struct ClusterMember {
    /// Raft node id
    pub node_id: u64,
    /// Network address
    pub address: String,
    /// Role of the member
    pub role: MemberRole,
    /// Last known health
    pub health: HealthStatus,
    /// Last time the member was seen, milliseconds since the Unix epoch
    pub last_seen_ms: u64,
    /// Software version
    pub version: String,
}

/// Raft state information.
#[derive(Debug, Clone, Copy, PartialEq, Eq, Structural)]
pub struct RaftState {
    /// Current term
    pub term: u64,
    /// Vote cast in the current term
    pub vote: Option<u64>,
    /// Known leader
    pub leader: Option<u64>,
    /// Commit index
    pub commit_index: u64,
    /// Last applied index
    pub last_applied: u64,
    /// Length of the log
    pub log_length: u64,
}

/// Overall cluster health status.
#[derive(Debug, Clone, Copy, PartialEq, Eq, Structural)]
pub struct ClusterHealthStatus {
    /// Aggregated status
    pub status: HealthStatus,
    /// Number of healthy members
    pub healthy_members: u32,
    /// Number of members
    pub total_members: u32,
    /// Whether a quorum is reachable
    pub quorum_available: bool,
    /// Whether a leader is known
    pub leader_available: bool,
}

/// Cluster configuration.
#[derive(Debug, Clone)]
pub struct ClusterConfig {
    /// Cluster identifier
    pub cluster_id: String,
    /// Heartbeat interval in milliseconds
    pub heartbeat_interval_ms: u64,
    /// Election timeout in milliseconds
    pub election_timeout_ms: u64,
    /// Maximum number of log entries
    pub max_log_entries: u64,
    /// Snapshot threshold
    pub snapshot_threshold: u64,
    /// Compaction threshold
    pub compaction_threshold: u64,
}

/// Metric categories for monitoring.
#[derive(Debug, Clone, Copy, PartialEq, Eq, Structural)]
pub enum MetricCategory {
    /// Raft metrics
    Raft,
    /// Transport metrics
    Transport,
    /// Storage metrics
    Storage,
    /// Performance metrics
    Performance,
    /// System metrics
    System,
}

/// Backup metadata.
#[derive(Debug, Clone)]
pub struct BackupMetadata {
    /// Backup identifier
    pub backup_id: String,
    /// Description
    pub description: String,
    /// Creation time, milliseconds since the Unix epoch
    pub created_at_ms: u64,
    /// Raft state captured by the backup
    pub cluster_state: RaftState,
}

/// Management operations that can be performed on the cluster.
#[derive(Debug, Clone)]
pub enum ManagementOperation {
    /// Read the cluster status
    GetClusterStatus,
    /// Add a member
    AddMember { node_id: u64, address: String, role: MemberRole },
    /// Remove a member
    RemoveMember { node_id: u64 },
    /// Change the role of a member
    UpdateMemberRole { node_id: u64, role: MemberRole },
    /// Transfer leadership, optionally to a given node
    TransferLeadership { target_node: Option<u64> },
    /// Ask the leader to step down
    StepDown,
    /// Read the configuration
    GetConfiguration,
    /// Replace the configuration
    UpdateConfiguration { config: ClusterConfig },
    /// Read metrics of the given categories
    GetMetrics { categories: Vec<MetricCategory> },
    /// Read the health status
    GetHealthStatus,
    /// Read information about the log
    GetLogInfo,
    /// Compact the log up to an index
    CompactLog { index: u64 },
    /// Read a range of log entries
    GetLogEntries { start: u64, end: u64 },
    /// Trigger a snapshot
    TriggerSnapshot,
    /// Read snapshot information
    GetSnapshotInfo,
    /// Create a backup
    CreateBackup { metadata: BackupMetadata },
    /// Restore a backup
    RestoreBackup { backup_id: String },
    /// List the backups
    ListBackups,
}

/// Cluster status response.
#[derive(Debug, Clone)]
pub struct ClusterStatusResponse {
    /// Cluster identifier
    pub cluster_id: String,
    /// Known leader
    pub leader: Option<u64>,
    /// Current term
    pub term: u64,
    /// Members of the cluster
    pub members: Vec<ClusterMember>,
    /// Cluster health
    pub health: ClusterHealthStatus,
    /// Raft state
    pub raft_state: RaftState,
}

/// Member operation response.
#[derive(Debug, Clone)]
pub struct MemberOperationResponse {
    /// Whether the operation succeeded
    pub success: bool,
    /// Affected member
    pub member_id: Option<u64>,
    /// Error message
    pub error: Option<String>,
}

/// Leadership operation response.
#[derive(Debug, Clone)]
pub struct LeadershipResponse {
    /// Whether the operation succeeded
    pub success: bool,
    /// New leader
    pub new_leader: Option<u64>,
    /// Duration of the transfer in milliseconds
    pub transfer_duration_ms: Option<u64>,
    /// Error message
    pub error: Option<String>,
}

/// Configuration response.
#[derive(Debug, Clone)]
pub struct ConfigurationResponse {
    /// Current configuration
    pub config: ClusterConfig,
    /// Configuration version
    pub version: u64,
}

/// Metrics response.
#[derive(Debug, Clone)]
pub struct MetricsResponse {
    /// Metric values by name, each the bit pattern of a double
    pub metrics: Vec<(String, u64)>,
    /// When the metrics were taken, in milliseconds since the Unix epoch
    pub timestamp_ms: u64,
}

/// Health status response.
#[derive(Debug, Clone)]
pub struct HealthResponse {
    /// Overall health
    pub overall_health: HealthStatus,
    /// Cluster health
    pub cluster_health: ClusterHealthStatus,
    /// Health of each node, as (node id, status) pairs
    pub node_health: Vec<(u64, HealthStatus)>,
}

/// Log information response.
#[derive(Debug, Clone, Copy)]
pub struct LogInfoResponse {
    /// First index in the log
    pub first_index: u64,
    /// Last index in the log
    pub last_index: u64,
    /// Committed index
    pub committed_index: u64,
    /// Number of entries
    pub total_entries: u64,
    /// Total size in bytes
    pub total_size_bytes: u64,
}

/// Log entry information.
#[derive(Debug, Clone)]
pub struct LogEntry {
    /// Entry index
    pub index: u64,
    /// Entry term
    pub term: u64,
    /// Entry type
    pub entry_type: String,
    /// Size of the entry data
    pub data_size: usize,
    /// Entry time, milliseconds since the Unix epoch
    pub timestamp_ms: u64,
}

/// Log entries response.
#[derive(Debug, Clone)]
pub struct LogEntriesResponse {
    /// Entries returned
    pub entries: Vec<LogEntry>,
    /// First index requested
    pub start_index: u64,
    /// Last index requested
    pub end_index: u64,
}

/// Snapshot information response.
#[derive(Debug, Clone, Copy)]
pub struct SnapshotInfoResponse {
    /// Last index included in the snapshot
    pub last_included_index: u64,
    /// Term of that index
    pub last_included_term: u64,
    /// Snapshot size
    pub size_bytes: u64,
    /// Creation time, milliseconds since the Unix epoch
    pub created_at_ms: u64,
}

/// Backup operation response.
#[derive(Debug, Clone)]
pub struct BackupOperationResponse {
    /// Whether the operation succeeded
    pub success: bool,
    /// Backup identifier
    pub backup_id: Option<String>,
    /// Backup size
    pub size_bytes: Option<u64>,
    /// Error message
    pub error: Option<String>,
}

/// Backup information.
#[derive(Debug, Clone)]
pub struct BackupInfo {
    /// Backup identifier
    pub backup_id: String,
    /// Description
    pub description: String,
    /// Creation time, milliseconds since the Unix epoch
    pub created_at_ms: u64,
    /// Backup size
    pub size_bytes: u64,
    /// Raft state captured by the backup
    pub cluster_state: RaftState,
}

/// Backup list response.
#[derive(Debug, Clone)]
pub struct BackupListResponse {
    /// Known backups
    pub backups: Vec<BackupInfo>,
}

/// Answer to a management operation.
#[derive(Debug)]
pub enum ManagementResponse {
    /// Cluster status
    ClusterStatus(ClusterStatusResponse),
    /// Result of a membership change
    MemberOperation(MemberOperationResponse),
    /// Result of a leadership operation
    Leadership(LeadershipResponse),
    /// Configuration
    Configuration(ConfigurationResponse),
    /// Metrics
    Metrics(MetricsResponse),
    /// Health
    Health(HealthResponse),
    /// Log information
    LogInfo(LogInfoResponse),
    /// Log entries
    LogEntries(LogEntriesResponse),
    /// Snapshot information
    SnapshotInfo(SnapshotInfoResponse),
    /// Result of a backup operation
    BackupOperation(BackupOperationResponse),
    /// List of backups
    BackupList(BackupListResponse),
    /// The operation succeeded
    Success,
    /// The operation failed
    Error { message: String },
}

/// Management request wrapper.
#[derive(Debug, Clone)]
pub struct ManagementRequest {
    /// Requested operation
    pub operation: ManagementOperation,
    /// Timeout in milliseconds
    pub timeout_ms: Option<u64>,
    /// Authorization token
    pub authorization: Option<String>,
}

/// Management role for access control.
#[derive(Debug, Clone, Copy, PartialEq, Eq, Structural)]
pub enum ManagementRole {
    /// Full cluster administration
    Admin,
    /// Read-only monitoring access
    Observer,
    /// Member management only
    MemberManager,
    /// Metrics and health monitoring
    Monitor,
}

/// Permissions for management operations.
#[derive(Debug, Clone)]
pub struct ManagementPermissions {
    /// Node the permissions belong to
    pub node_id: u64,
    /// Role of the node
    pub role: ManagementRole,
    /// Explicitly allowed operations
    pub allowed_operations: Vec<ManagementOperation>,
}

/// Operations that need administrator privileges.
pub open spec fn spec_requires_admin(op: ManagementOperation) -> bool {
    match op {
        ManagementOperation::AddMember { .. }
        | ManagementOperation::RemoveMember { .. }
        | ManagementOperation::UpdateMemberRole { .. }
        | ManagementOperation::TransferLeadership { .. }
        | ManagementOperation::StepDown
        | ManagementOperation::UpdateConfiguration { .. }
        | ManagementOperation::CompactLog { .. }
        | ManagementOperation::TriggerSnapshot
        | ManagementOperation::CreateBackup { .. }
        | ManagementOperation::RestoreBackup { .. } => true,
        _ => false,
    }
}

/// Operations that only read cluster state.
pub open spec fn spec_is_read_only(op: ManagementOperation) -> bool {
    match op {
        ManagementOperation::GetClusterStatus
        | ManagementOperation::GetConfiguration
        | ManagementOperation::GetMetrics { .. }
        | ManagementOperation::GetHealthStatus
        | ManagementOperation::GetLogInfo
        | ManagementOperation::GetLogEntries { .. }
        | ManagementOperation::GetSnapshotInfo
        | ManagementOperation::ListBackups => true,
        _ => false,
    }
}

/// The name under which an operation appears in permission lists.
pub open spec fn operation_name(op: ManagementOperation) -> Seq<char> {
    match op {
        ManagementOperation::GetClusterStatus => "get_cluster_status"@,
        ManagementOperation::AddMember { .. } => "add_member"@,
        ManagementOperation::RemoveMember { .. } => "remove_member"@,
        ManagementOperation::UpdateMemberRole { .. } => "update_member_role"@,
        ManagementOperation::TransferLeadership { .. } => "transfer_leadership"@,
        ManagementOperation::StepDown => "step_down"@,
        ManagementOperation::GetConfiguration => "get_configuration"@,
        ManagementOperation::UpdateConfiguration { .. } => "update_configuration"@,
        ManagementOperation::GetMetrics { .. } => "get_metrics"@,
        ManagementOperation::GetHealthStatus => "get_health_status"@,
        ManagementOperation::GetLogInfo => "get_log_info"@,
        ManagementOperation::CompactLog { .. } => "compact_log"@,
        ManagementOperation::GetLogEntries { .. } => "get_log_entries"@,
        ManagementOperation::TriggerSnapshot => "trigger_snapshot"@,
        ManagementOperation::GetSnapshotInfo => "get_snapshot_info"@,
        ManagementOperation::CreateBackup { .. } => "create_backup"@,
        ManagementOperation::RestoreBackup { .. } => "restore_backup"@,
        ManagementOperation::ListBackups => "list_backups"@,
    }
}

/// The node an operation targets, where it targets one.
pub open spec fn spec_target_node(op: ManagementOperation) -> Option<u64> {
    match op {
        ManagementOperation::AddMember { node_id, .. } => Some(node_id),
        ManagementOperation::RemoveMember { node_id } => Some(node_id),
        ManagementOperation::UpdateMemberRole { node_id, .. } => Some(node_id),
        ManagementOperation::TransferLeadership { target_node } => target_node,
        _ => None,
    }
}

impl ClusterConfig {
    /// A copy of the configuration.
    pub fn duplicate(&self) -> (r: Self)
        ensures
            r == *self,
    {
        ClusterConfig {
            cluster_id: self.cluster_id.clone(),
            heartbeat_interval_ms: self.heartbeat_interval_ms,
            election_timeout_ms: self.election_timeout_ms,
            max_log_entries: self.max_log_entries,
            snapshot_threshold: self.snapshot_threshold,
            compaction_threshold: self.compaction_threshold,
        }
    }
}

impl BackupMetadata {
    /// A copy of the metadata.
    pub fn duplicate(&self) -> (r: Self)
        ensures
            r == *self,
    {
        BackupMetadata {
            backup_id: self.backup_id.clone(),
            description: self.description.clone(),
            created_at_ms: self.created_at_ms,
            cluster_state: self.cluster_state,
        }
    }
}

fn copy_categories(v: &Vec<MetricCategory>) -> (r: Vec<MetricCategory>)
    ensures
        r@ == v@,
{
    let mut out: Vec<MetricCategory> = Vec::new();
    let mut i: usize = 0;
    while i < v.len()
        invariant
            i <= v@.len(),
            out@ == v@.take(i as int),
        decreases v@.len() - i,
    {
        out.push(v[i]);
        assert(out@ =~= v@.take(i as int + 1));
        i = i + 1;
    }
    assert(v@.take(v@.len() as int) =~= v@);
    out
}

/// Two operations are the same: equal, with the same categories for
/// metrics requests.
pub open spec fn same_operation(a: ManagementOperation, b: ManagementOperation) -> bool {
    match a {
        ManagementOperation::GetMetrics { categories } =>
            b matches ManagementOperation::GetMetrics { categories: c } && c@ == categories@,
        _ => a == b,
    }
}

impl ManagementOperation {
    /// A copy of the operation.
    pub fn duplicate(&self) -> (r: Self)
        ensures
            same_operation(*self, r),
    {
        match self {
            ManagementOperation::GetClusterStatus => ManagementOperation::GetClusterStatus,
            ManagementOperation::AddMember { node_id, address, role } =>
                ManagementOperation::AddMember { node_id: *node_id, address: address.clone(), role: *role },
            ManagementOperation::RemoveMember { node_id } => ManagementOperation::RemoveMember { node_id: *node_id },
            ManagementOperation::UpdateMemberRole { node_id, role } =>
                ManagementOperation::UpdateMemberRole { node_id: *node_id, role: *role },
            ManagementOperation::TransferLeadership { target_node } =>
                ManagementOperation::TransferLeadership { target_node: *target_node },
            ManagementOperation::StepDown => ManagementOperation::StepDown,
            ManagementOperation::GetConfiguration => ManagementOperation::GetConfiguration,
            ManagementOperation::UpdateConfiguration { config } =>
                ManagementOperation::UpdateConfiguration { config: config.duplicate() },
            ManagementOperation::GetMetrics { categories } =>
                ManagementOperation::GetMetrics { categories: copy_categories(categories) },
            ManagementOperation::GetHealthStatus => ManagementOperation::GetHealthStatus,
            ManagementOperation::GetLogInfo => ManagementOperation::GetLogInfo,
            ManagementOperation::CompactLog { index } => ManagementOperation::CompactLog { index: *index },
            ManagementOperation::GetLogEntries { start, end } => ManagementOperation::GetLogEntries { start: *start, end: *end },
            ManagementOperation::TriggerSnapshot => ManagementOperation::TriggerSnapshot,
            ManagementOperation::GetSnapshotInfo => ManagementOperation::GetSnapshotInfo,
            ManagementOperation::CreateBackup { metadata } =>
                ManagementOperation::CreateBackup { metadata: metadata.duplicate() },
            ManagementOperation::RestoreBackup { backup_id } =>
                ManagementOperation::RestoreBackup { backup_id: backup_id.clone() },
            ManagementOperation::ListBackups => ManagementOperation::ListBackups,
        }
    }

    /// Check if this operation requires admin privileges.
    pub fn requires_admin(&self) -> (r: bool)
        ensures
            r == spec_requires_admin(*self),
    {
        match self {
            ManagementOperation::AddMember { .. }
            | ManagementOperation::RemoveMember { .. }
            | ManagementOperation::UpdateMemberRole { .. }
            | ManagementOperation::TransferLeadership { .. }
            | ManagementOperation::StepDown
            | ManagementOperation::UpdateConfiguration { .. }
            | ManagementOperation::CompactLog { .. }
            | ManagementOperation::TriggerSnapshot
            | ManagementOperation::CreateBackup { .. }
            | ManagementOperation::RestoreBackup { .. } => true,
            _ => false,
        }
    }

    /// Check if this operation is read-only.
    pub fn is_read_only(&self) -> (r: bool)
        ensures
            r == spec_is_read_only(*self),
    {
        match self {
            ManagementOperation::GetClusterStatus
            | ManagementOperation::GetConfiguration
            | ManagementOperation::GetMetrics { .. }
            | ManagementOperation::GetHealthStatus
            | ManagementOperation::GetLogInfo
            | ManagementOperation::GetLogEntries { .. }
            | ManagementOperation::GetSnapshotInfo
            | ManagementOperation::ListBackups => true,
            _ => false,
        }
    }
}

/// Every operation is either read-only or needs administrator privileges,
/// never both.
pub proof fn lemma_read_only_xor_admin(op: ManagementOperation)
    ensures
        spec_is_read_only(op) != spec_requires_admin(op),
{
}

/// Convert a management operation to the name used in permission lists.
pub fn operation_to_string(operation: &ManagementOperation) -> (r: String)
    ensures
        r@ == operation_name(*operation),
{
    match operation {
        ManagementOperation::GetClusterStatus => String::from_str("get_cluster_status"),
        ManagementOperation::AddMember { .. } => String::from_str("add_member"),
        ManagementOperation::RemoveMember { .. } => String::from_str("remove_member"),
        ManagementOperation::UpdateMemberRole { .. } => String::from_str("update_member_role"),
        ManagementOperation::TransferLeadership { .. } => String::from_str("transfer_leadership"),
        ManagementOperation::StepDown => String::from_str("step_down"),
        ManagementOperation::GetConfiguration => String::from_str("get_configuration"),
        ManagementOperation::UpdateConfiguration { .. } => String::from_str("update_configuration"),
        ManagementOperation::GetMetrics { .. } => String::from_str("get_metrics"),
        ManagementOperation::GetHealthStatus => String::from_str("get_health_status"),
        ManagementOperation::GetLogInfo => String::from_str("get_log_info"),
        ManagementOperation::CompactLog { .. } => String::from_str("compact_log"),
        ManagementOperation::GetLogEntries { .. } => String::from_str("get_log_entries"),
        ManagementOperation::TriggerSnapshot => String::from_str("trigger_snapshot"),
        ManagementOperation::GetSnapshotInfo => String::from_str("get_snapshot_info"),
        ManagementOperation::CreateBackup { .. } => String::from_str("create_backup"),
        ManagementOperation::RestoreBackup { .. } => String::from_str("restore_backup"),
        ManagementOperation::ListBackups => String::from_str("list_backups"),
    }
}

/// Extract the target node id from an operation, if it has one.
pub fn operation_target_node(operation: &ManagementOperation) -> (r: Option<u64>)
    ensures
        r == spec_target_node(*operation),
{
    match operation {
        ManagementOperation::AddMember { node_id, .. } => Some(*node_id),
        ManagementOperation::RemoveMember { node_id } => Some(*node_id),
        ManagementOperation::UpdateMemberRole { node_id, .. } => Some(*node_id),
        ManagementOperation::TransferLeadership { target_node } => *target_node,
        _ => None,
    }
}

impl Default for MemberRole {
    fn default() -> (r: Self)
        ensures
            r == MemberRole::Voter,
    {
        MemberRole::Voter
    }
}

impl Default for HealthStatus {
    fn default() -> (r: Self)
        ensures
            r == HealthStatus::Unknown,
    {
        HealthStatus::Unknown
    }
}

impl Default for ManagementRole {
    fn default() -> (r: Self)
        ensures
            r == ManagementRole::Observer,
    {
        ManagementRole::Observer
    }
}

} // verus!
