//! Node configuration: defaults, a fluent builder, overrides taken from the
//! environment, and validation.
//!
//! Durations are held in milliseconds.  Socket addresses are held in their
//! canonical text form (as produced when an address is parsed); the tracing
//! sample rate is held as the bit pattern of its IEEE 754 double.

use vstd::prelude::*;
use vstd::string::StringExecFns;
use vstd::string::StrSliceExecFns;
use crate::parse::{parse_u64, parse_u64_spec, parse_bool, parse_bool_spec, int_error_message, int_error_text, IntErrorKind};

verus! {

/// Configuration error types.
#[derive(Debug)]
pub enum ConfigError {
    /// Invalid configuration field value
    Invalid { field: String, message: String },
    /// Required configuration field is missing
    Missing { field: String },
    /// I/O error while reading or writing configuration
    Io(String),
    /// Configuration serialization or deserialization error
    Serialization(String),
    /// Environment variable processing error
    Environment(String),
    /// Network address parsing error
    AddressParse(String),
}

/// Result type for configuration operations.
pub type ConfigResult<T> = Result<T, ConfigError>;

/// Node metadata for identification and discovery.
#[derive(Debug, Clone)]
pub struct NodeMetadata {
    /// Human-readable node name
    pub name: Option<String>,
    /// Node region/zone
    pub zone: Option<String>,
    /// Custom tags for the node, as (key, value) pairs with distinct keys
    pub tags: Vec<(String, String)>,
}

/// Node-specific configuration.
#[derive(Debug, Clone)]
pub struct NodeConfig {
    /// Unique node identifier (required)
    pub id: Option<u64>,
    /// Data directory for persistent storage
    pub data_dir: String,
    /// Enable debug mode
    pub debug: bool,
    /// Node metadata
    pub metadata: NodeMetadata,
}

/// Read-only operation mode.
#[derive(Debug, Clone, Copy, PartialEq, Eq, Structural)]
pub enum ReadOnlyOption {
    /// No read-only operations (always go through Raft)
    Disabled,
    /// Read from the leader without quorum check
    LeaderLease,
    /// Require quorum confirmation for all reads
    ReadIndex,
}

/// Log compaction configuration.
#[derive(Debug, Clone, Copy)]
pub struct CompactionConfig {
    /// Enable automatic log compaction
    pub enabled: bool,
    /// Number of applied entries after which to compact
    pub threshold_entries: u64,
    /// Size in bytes after which to compact
    pub threshold_bytes: u64,
    /// Interval between compaction checks in milliseconds
    pub check_interval_ms: u64,
    /// Number of entries to keep after compaction
    pub retain_entries: u64,
}

/// Snapshot configuration.
#[derive(Debug, Clone, Copy)]
pub struct SnapshotConfig {
    /// Enable automatic snapshot creation
    pub enabled: bool,
    /// Number of applied entries after which to create a snapshot
    pub threshold_entries: u64,
    /// Size in bytes after which to create a snapshot
    pub threshold_bytes: u64,
    /// Compression level (0-9, 0 = disabled)
    pub compression_level: u32,
    /// Maximum time to wait for snapshot creation, in milliseconds
    pub creation_timeout_ms: u64,
}

/// Raft consensus configuration.
#[derive(Debug, Clone, Copy)]
pub struct RaftConfig {
    /// Lower bound of the randomized election timeout, in milliseconds
    pub election_timeout_min_ms: u64,
    /// Upper bound of the randomized election timeout, in milliseconds
    pub election_timeout_max_ms: u64,
    /// Heartbeat interval in milliseconds
    pub heartbeat_interval_ms: u64,
    /// Maximum number of uncommitted log entries
    pub max_uncommitted_entries: u64,
    /// Maximum number of inflight append messages
    pub max_inflight_msgs: usize,
    /// Log compaction configuration
    pub compaction: CompactionConfig,
    /// Snapshot configuration
    pub snapshot: SnapshotConfig,
    /// Configuration change timeout in milliseconds
    pub config_change_timeout_ms: u64,
    /// Whether to enable pre-vote
    pub pre_vote: bool,
    /// Read-only operation mode
    pub read_only_option: ReadOnlyOption,
}

/// Connection configuration of the transport layer.
#[derive(Debug, Clone, Copy)]
pub struct ConnectionConfig {
    /// Timeout for establishing connections, in milliseconds
    pub connect_timeout_ms: u64,
    /// Keep-alive interval, in milliseconds
    pub keep_alive_interval_ms: u64,
    /// Maximum concurrent connections per peer
    pub max_connections_per_peer: usize,
    /// Idle timeout, in milliseconds
    pub idle_timeout_ms: u64,
    /// Maximum incoming message size in bytes
    pub max_message_size: usize,
    /// Enable connection pooling
    pub enable_pooling: bool,
}

/// Node discovery configuration.
#[derive(Debug, Clone)]
pub struct DiscoveryConfig {
    /// Enable mDNS discovery
    pub enable_mdns: bool,
    /// Enable DHT-based discovery
    pub enable_dht: bool,
    /// Bootstrap nodes for DHT
    pub bootstrap_nodes: Vec<String>,
    /// Discovery interval in milliseconds
    pub discovery_interval_ms: u64,
}

/// Port mapping configuration.
#[derive(Debug, Clone, Copy)]
pub struct PortMappingConfig {
    /// Enable UPnP port mapping
    pub enable_upnp: bool,
    /// Enable PCP
    pub enable_pcp: bool,
    /// Timeout for port mapping attempts, in milliseconds
    pub mapping_timeout_ms: u64,
}

/// Iroh-specific configuration.
#[derive(Debug, Clone)]
pub struct IrohConfig {
    /// Relay server URL for NAT traversal
    pub relay_url: Option<String>,
    /// STUN servers
    pub stun_servers: Vec<String>,
    /// Discovery configuration
    pub discovery: DiscoveryConfig,
    /// Custom ALPN protocols
    pub alpn_protocols: Vec<String>,
    /// Enable IPv6
    pub enable_ipv6: bool,
    /// Port mapping configuration
    pub port_mapping: PortMappingConfig,
}

/// Transport layer configuration.
#[derive(Debug, Clone)]
pub struct TransportConfig {
    /// Address to bind, in canonical text form
    pub bind_address: String,
    /// Initial peer addresses, in canonical text form
    pub peers: Vec<String>,
    /// Connection settings
    pub connection: ConnectionConfig,
    /// Iroh-specific settings
    pub iroh: IrohConfig,
}

/// Storage backend options.
#[derive(Debug, Clone)]
pub enum StorageBackend {
    /// Embedded redb database (default)
    Redb,
    /// In-memory storage
    Memory,
    /// Custom backend with a connection string
    Custom { connection_string: String },
}

/// Sync strategy for durability vs performance tradeoff.
#[derive(Debug, Clone, Copy, PartialEq, Eq, Structural)]
pub enum SyncStrategy {
    /// No explicit sync (`none`)
    NoSync,
    /// Sync on every write
    Always,
    /// Periodic sync (default)
    Periodic,
    /// Sync on Raft commit only
    OnCommit,
}

/// Storage configuration.
#[derive(Debug, Clone)]
pub struct StorageConfig {
    /// Storage backend type
    pub backend: StorageBackend,
    /// Sync strategy
    pub sync_strategy: SyncStrategy,
    /// Maximum cache size in MB
    pub cache_size_mb: u64,
    /// Enable write-ahead logging
    pub enable_wal: bool,
    /// WAL sync interval in milliseconds
    pub wal_sync_interval_ms: u64,
    /// Database file permissions (octal)
    pub file_permissions: u32,
}

/// Logging configuration.
#[derive(Debug, Clone)]
pub struct LoggingConfig {
    /// Log level (trace, debug, info, warn, error)
    pub level: String,
    /// Log format
    pub format: String,
    /// Enable structured logging
    pub structured: bool,
    /// Log output file (None for stdout)
    pub file: Option<String>,
    /// Maximum log file size in MB
    pub max_file_size_mb: u64,
    /// Number of log files to keep
    pub max_files: u32,
}

/// Metrics configuration.
#[derive(Debug, Clone)]
pub struct MetricsConfig {
    /// Enable metrics collection
    pub enabled: bool,
    /// Metrics server bind address, in canonical text form
    pub bind_address: Option<String>,
    /// Collection interval in milliseconds
    pub collection_interval_ms: u64,
    /// Enable Prometheus format
    pub prometheus: bool,
    /// Metrics prefix
    pub prefix: String,
}

/// Distributed tracing configuration.
#[derive(Debug, Clone)]
pub struct TracingConfig {
    /// Enable distributed tracing
    pub enabled: bool,
    /// OTLP endpoint for trace export
    pub otlp_endpoint: Option<String>,
    /// Bit pattern of the IEEE 754 double sample rate
    pub sample_rate_bits: u64,
    /// Maximum number of spans per trace
    pub max_spans_per_trace: u32,
}

/// Observability configuration.
#[derive(Debug, Clone)]
pub struct ObservabilityConfig {
    /// Logging configuration
    pub logging: LoggingConfig,
    /// Metrics configuration
    pub metrics: MetricsConfig,
    /// Tracing configuration
    pub tracing: TracingConfig,
}

/// Complete configuration of a node.
#[derive(Debug, Clone)]
pub struct Config {
    /// Node-specific configuration
    pub node: NodeConfig,
    /// Raft settings
    pub raft: RaftConfig,
    /// Transport settings
    pub transport: TransportConfig,
    /// Storage settings
    pub storage: StorageConfig,
    /// Logging and observability
    pub observability: ObservabilityConfig,
}

/// Bit pattern of the double 0.1.
pub const DEFAULT_SAMPLE_RATE_BITS: u64 = 0x3FB999999999999A;

/// Bit pattern of the double 1.0.
pub const ONE_BITS: u64 = 0x3FF0000000000000;

/// Bit pattern of the double -0.0.
pub const NEGATIVE_ZERO_BITS: u64 = 0x8000000000000000;

/// A double, given by its bits, lies in the closed range [0.0, 1.0]: the
/// non-negative doubles up to 1.0 and negative zero (NaN lies in no range).
pub open spec fn unit_interval_bits(bits: u64) -> bool {
    bits <= ONE_BITS || bits == NEGATIVE_ZERO_BITS
}

/// The accepted log levels.
pub open spec fn valid_log_level(level: Seq<char>) -> bool {
    level == "trace"@ || level == "debug"@ || level == "info"@ || level == "warn"@ || level == "error"@
}

/// The peer at position `j` repeats an earlier peer.
pub open spec fn repeats(peers: Seq<Seq<char>>, j: int) -> bool {
    exists|i: int| 0 <= i < j && peers[i] == peers[j]
}

/// The position of the first peer that repeats an earlier one, if any.
#[verifier::opaque]
pub open spec fn first_duplicate(peers: Seq<Seq<char>>) -> Option<int> {
    if exists|j: int| 0 <= j < peers.len() && #[trigger] repeats(peers, j) {
        Some(choose|j: int| 0 <= j < peers.len() && #[trigger] repeats(peers, j)
            && forall|k: int| 0 <= k < j ==> !#[trigger] repeats(peers, k))
    } else {
        None
    }
}

/// A configuration problem, as (field, message) for invalid values or a
/// missing field.
pub enum ConfigIssue {
    /// A required field is missing
    Missing(Seq<char>),
    /// A field holds an invalid value
    Invalid(Seq<char>, Seq<char>),
}

/// The text views of a list of strings.
pub open spec fn texts(v: Seq<String>) -> Seq<Seq<char>> {
    v.map_values(|s: String| s@)
}

/// The first problem validation finds in a configuration, if any.
pub open spec fn validation_issue(c: Config) -> Option<ConfigIssue> {
    let peers = texts(c.transport.peers@);
    if c.node.id is None {
        Some(ConfigIssue::Missing("node.id"@))
    } else if c.node.data_dir@.len() == 0 {
        Some(ConfigIssue::Invalid("node.data_dir"@, "Data directory cannot be empty"@))
    } else if c.raft.heartbeat_interval_ms >= c.raft.election_timeout_min_ms {
        Some(ConfigIssue::Invalid("raft.heartbeat_interval"@, "Heartbeat interval must be less than election timeout"@))
    } else if c.raft.election_timeout_min_ms >= c.raft.election_timeout_max_ms {
        Some(ConfigIssue::Invalid("raft.election_timeout"@, "Election timeout min must be less than max"@))
    } else if first_duplicate(peers) is Some {
        Some(ConfigIssue::Invalid("transport.peers"@, "Duplicate peer address: "@ + peers[first_duplicate(peers)->0]))
    } else if !valid_log_level(c.observability.logging.level@) {
        Some(ConfigIssue::Invalid("observability.logging.level"@, "Invalid log level: "@ + c.observability.logging.level@))
    } else if !unit_interval_bits(c.observability.tracing.sample_rate_bits) {
        Some(ConfigIssue::Invalid("observability.tracing.sample_rate"@, "Sample rate must be between 0.0 and 1.0"@))
    } else {
        None
    }
}

/// The first position, from `j` on, whose peer repeats an earlier one.
proof fn lemma_first_repeat_from(peers: Seq<Seq<char>>, j: int, bound: int) -> (k: int)
    requires
        0 <= j <= bound < peers.len(),
        repeats(peers, bound),
        forall|m: int| 0 <= m < j ==> !#[trigger] repeats(peers, m),
    ensures
        0 <= k <= bound,
        repeats(peers, k),
        forall|m: int| 0 <= m < k ==> !#[trigger] repeats(peers, m),
    decreases bound - j,
{
    if repeats(peers, j) {
        j
    } else {
        lemma_first_repeat_from(peers, j + 1, bound)
    }
}

/// A configuration that lists the same peer address twice never
/// validates; when nothing checked before the peers is wrong, the issue is
/// reported on `transport.peers` and names an address that occurs twice.
pub proof fn lemma_duplicate_peers_rejected(c: Config, i: int, j: int)
    requires
        0 <= i < j < c.transport.peers@.len(),
        c.transport.peers@[i]@ == c.transport.peers@[j]@,
    ensures
        validation_issue(c) is Some,
        (c.node.id is Some && c.node.data_dir@.len() > 0
            && c.raft.heartbeat_interval_ms < c.raft.election_timeout_min_ms
            && c.raft.election_timeout_min_ms < c.raft.election_timeout_max_ms) ==> (
            validation_issue(c) matches Some(ConfigIssue::Invalid(f, m)) && f == "transport.peers"@
            && exists|a: int, b: int| 0 <= a < b < c.transport.peers@.len()
                && #[trigger] c.transport.peers@[a]@ == #[trigger] c.transport.peers@[b]@
                && m == "Duplicate peer address: "@ + c.transport.peers@[b]@),
{
    reveal(first_duplicate);
    let peers = texts(c.transport.peers@);
    assert(peers[i] == peers[j]);
    assert(repeats(peers, j));
    let k = lemma_first_repeat_from(peers, 0, j);
    assert(first_duplicate(peers) is Some);
    let d = first_duplicate(peers)->0;
    assert(0 <= d < peers.len() && repeats(peers, d));
    let a = choose|a: int| 0 <= a < d && peers[a] == peers[d];
    assert(c.transport.peers@[a]@ == c.transport.peers@[d]@);
}

/// A configuration validates exactly when it has a node id, a non-empty
/// data directory, a heartbeat shorter than the shortest election timeout,
/// a shortest election timeout below the longest, no peer address twice, a
/// log level among trace, debug, info, warn and error, and a sampling rate
/// in [0.0, 1.0].
pub proof fn lemma_validation_accepts(c: Config)
    ensures
        validation_issue(c) is None <==> (
            c.node.id is Some
            && c.node.data_dir@.len() > 0
            && c.raft.heartbeat_interval_ms < c.raft.election_timeout_min_ms
            && c.raft.election_timeout_min_ms < c.raft.election_timeout_max_ms
            && (forall|a: int, b: int| 0 <= a < b < c.transport.peers@.len()
                ==> #[trigger] c.transport.peers@[a]@ != #[trigger] c.transport.peers@[b]@)
            && (c.observability.logging.level@ == "trace"@ || c.observability.logging.level@ == "debug"@
                || c.observability.logging.level@ == "info"@ || c.observability.logging.level@ == "warn"@
                || c.observability.logging.level@ == "error"@)
            && (c.observability.tracing.sample_rate_bits <= ONE_BITS
                || c.observability.tracing.sample_rate_bits == NEGATIVE_ZERO_BITS)),
        c.node.id is None ==> validation_issue(c) == Some(ConfigIssue::Missing("node.id"@)),
{
    reveal(first_duplicate);
    let peers = texts(c.transport.peers@);
    if exists|a: int, b: int| 0 <= a < b < c.transport.peers@.len()
        && #[trigger] c.transport.peers@[a]@ == #[trigger] c.transport.peers@[b]@ {
        let (a, b) = choose|a: int, b: int| 0 <= a < b < c.transport.peers@.len()
            && #[trigger] c.transport.peers@[a]@ == #[trigger] c.transport.peers@[b]@;
        lemma_duplicate_peers_rejected(c, a, b);
    } else {
        assert forall|j: int| 0 <= j < peers.len() implies !#[trigger] repeats(peers, j) by {
            if repeats(peers, j) {
                let a = choose|a: int| 0 <= a < j && peers[a] == peers[j];
                assert(c.transport.peers@[a]@ == c.transport.peers@[j]@);
            }
        }
        assert(first_duplicate(peers) is None);
    }
}

/// A configuration error reports the given issue.
pub open spec fn error_reports(e: ConfigError, issue: ConfigIssue) -> bool {
    match issue {
        ConfigIssue::Missing(f) => e matches ConfigError::Missing { field } && field@ == f,
        ConfigIssue::Invalid(f, m) => e matches ConfigError::Invalid { field, message } && field@ == f && message@ == m,
    }
}

/// A result reports the outcome of validation: `Ok` exactly when there is no
/// issue, and the first issue otherwise.
pub open spec fn reports_issue<T>(r: Result<T, ConfigError>, issue: Option<ConfigIssue>) -> bool {
    match issue {
        None => r is Ok,
        Some(i) => r matches Err(e) && error_reports(e, i),
    }
}

fn invalid(field: &str, message: String) -> (r: ConfigError)
    ensures
        r matches ConfigError::Invalid { field: f, message: m } && f@ == field@ && m == message,
{
    ConfigError::Invalid { field: String::from_str(field), message }
}

fn invalid_lit(field: &str, message: &str) -> (r: ConfigError)
    ensures
        r matches ConfigError::Invalid { field: f, message: m } && f@ == field@ && m@ == message@,
{
    ConfigError::Invalid { field: String::from_str(field), message: String::from_str(message) }
}

/// Find the first peer that repeats an earlier one.
fn find_duplicate_peer(peers: &Vec<String>) -> (r: Option<usize>)
    ensures
        match r {
            Some(j) => j < peers@.len() && first_duplicate(texts(peers@)) == Some(j as int),
            None => first_duplicate(texts(peers@)) is None,
        },
{
    let ghost p = texts(peers@);
    reveal(first_duplicate);
    let mut j: usize = 0;
    while j < peers.len()
        invariant
            j <= peers@.len(),
            p == texts(peers@),
            forall|k: int| 0 <= k < j ==> !#[trigger] repeats(p, k),
        decreases peers@.len() - j,
    {
        let mut i: usize = 0;
        while i < j
            invariant
                i <= j < peers@.len(),
                p == texts(peers@),
                forall|k: int| 0 <= k < i ==> p[k] != p[j as int],
                forall|k: int| 0 <= k < j ==> !#[trigger] repeats(p, k),
            decreases j - i,
        {
            let same = peers[i] == peers[j];
            assert(p[i as int] == peers@[i as int]@);
            assert(p[j as int] == peers@[j as int]@);
            if same {
                proof {
                    reveal(first_duplicate);
                    assert(p[i as int] == p[j as int]);
                    assert(repeats(p, j as int));
                    assert(0 <= j < p.len() && repeats(p, j as int)
                        && forall|k: int| 0 <= k < j ==> !#[trigger] repeats(p, k));
                    let w = choose|w: int| 0 <= w < p.len() && #[trigger] repeats(p, w)
                        && forall|k: int| 0 <= k < w ==> !#[trigger] repeats(p, k);
                    if w > j as int {
                        assert(!repeats(p, j as int));
                    } else if w < j as int {
                        assert(!repeats(p, w));
                    }
                }
                return Some(j);
            }
            i = i + 1;
        }
        assert(!repeats(p, j as int));
        j = j + 1;
    }
    None
}

/// Whether a log level is one of the accepted ones.
fn is_valid_log_level(level: &String) -> (r: bool)
    ensures
        r == valid_log_level(level@),
{
    let s = level.as_str();
    crate::text::str_eq(s, "trace") || crate::text::str_eq(s, "debug") || crate::text::str_eq(s, "info")
        || crate::text::str_eq(s, "warn") || crate::text::str_eq(s, "error")
}

impl Config {
    /// Validate the configuration, reporting the first problem found.
    pub fn validate(&self) -> (r: ConfigResult<()>)
        ensures
            reports_issue(r, validation_issue(*self)),
    {
        if self.node.id.is_none() {
            return Err(ConfigError::Missing { field: String::from_str("node.id") });
        }
        if self.node.data_dir.as_str().unicode_len() == 0 {
            return Err(invalid_lit("node.data_dir", "Data directory cannot be empty"));
        }
        if self.raft.heartbeat_interval_ms >= self.raft.election_timeout_min_ms {
            return Err(invalid_lit("raft.heartbeat_interval", "Heartbeat interval must be less than election timeout"));
        }
        if self.raft.election_timeout_min_ms >= self.raft.election_timeout_max_ms {
            return Err(invalid_lit("raft.election_timeout", "Election timeout min must be less than max"));
        }
        match find_duplicate_peer(&self.transport.peers) {
            Some(j) => {
                let mut msg = String::from_str("Duplicate peer address: ");
                msg.append(self.transport.peers[j].as_str());
                return Err(invalid("transport.peers", msg));
            },
            None => {},
        }
        if !is_valid_log_level(&self.observability.logging.level) {
            let mut msg = String::from_str("Invalid log level: ");
            msg.append(self.observability.logging.level.as_str());
            return Err(invalid("observability.logging.level", msg));
        }
        let bits = self.observability.tracing.sample_rate_bits;
        if !(bits <= ONE_BITS || bits == NEGATIVE_ZERO_BITS) {
            return Err(invalid_lit("observability.tracing.sample_rate", "Sample rate must be between 0.0 and 1.0"));
        }
        Ok(())
    }
}

impl Default for NodeMetadata {
    fn default() -> (r: Self)
        ensures
            r.name is None,
            r.zone is None,
            r.tags@.len() == 0,
    {
        NodeMetadata { name: None, zone: None, tags: Vec::new() }
    }
}

impl Default for NodeConfig {
    fn default() -> (r: Self)
        ensures
            r.id is None,
            r.data_dir@ == "./data"@,
            !r.debug,
            r.metadata.name is None,
            r.metadata.zone is None,
            r.metadata.tags@.len() == 0,
    {
        NodeConfig {
            id: None,
            data_dir: String::from_str("./data"),
            debug: false,
            metadata: NodeMetadata::default(),
        }
    }
}

impl Default for ReadOnlyOption {
    fn default() -> (r: Self)
        ensures
            r == ReadOnlyOption::Disabled,
    {
        ReadOnlyOption::Disabled
    }
}

impl Default for CompactionConfig {
    fn default() -> (r: Self)
        ensures
            r.enabled,
            r.threshold_entries == 10000,
            r.threshold_bytes == 100 * 1024 * 1024,
            r.check_interval_ms == 300_000,
            r.retain_entries == 1000,
    {
        CompactionConfig {
            enabled: true,
            threshold_entries: 10000,
            threshold_bytes: 100 * 1024 * 1024,
            check_interval_ms: 300_000,
            retain_entries: 1000,
        }
    }
}

impl Default for SnapshotConfig {
    fn default() -> (r: Self)
        ensures
            r.enabled,
            r.threshold_entries == 50000,
            r.threshold_bytes == 500 * 1024 * 1024,
            r.compression_level == 3,
            r.creation_timeout_ms == 300_000,
    {
        SnapshotConfig {
            enabled: true,
            threshold_entries: 50000,
            threshold_bytes: 500 * 1024 * 1024,
            compression_level: 3,
            creation_timeout_ms: 300_000,
        }
    }
}

impl Default for RaftConfig {
    fn default() -> (r: Self)
        ensures
            r.election_timeout_min_ms == 3000,
            r.election_timeout_max_ms == 5000,
            r.heartbeat_interval_ms == 1000,
            r.max_uncommitted_entries == 10000,
            r.max_inflight_msgs == 256,
            r.compaction == CompactionConfig::default_spec(),
            r.snapshot == SnapshotConfig::default_spec(),
            r.config_change_timeout_ms == 30_000,
            r.pre_vote,
            r.read_only_option == ReadOnlyOption::Disabled,
    {
        RaftConfig {
            election_timeout_min_ms: 3000,
            election_timeout_max_ms: 5000,
            heartbeat_interval_ms: 1000,
            max_uncommitted_entries: 10000,
            max_inflight_msgs: 256,
            compaction: CompactionConfig::default(),
            snapshot: SnapshotConfig::default(),
            config_change_timeout_ms: 30_000,
            pre_vote: true,
            read_only_option: ReadOnlyOption::default(),
        }
    }
}

impl CompactionConfig {
    /// The default compaction settings.
    pub open spec fn default_spec() -> CompactionConfig {
        CompactionConfig {
            enabled: true,
            threshold_entries: 10000,
            threshold_bytes: 104_857_600,
            check_interval_ms: 300_000,
            retain_entries: 1000,
        }
    }
}

impl SnapshotConfig {
    /// The default snapshot settings.
    pub open spec fn default_spec() -> SnapshotConfig {
        SnapshotConfig {
            enabled: true,
            threshold_entries: 50000,
            threshold_bytes: 524_288_000,
            compression_level: 3,
            creation_timeout_ms: 300_000,
        }
    }
}

impl ConnectionConfig {
    /// The default connection settings.
    pub open spec fn default_spec() -> ConnectionConfig {
        ConnectionConfig {
            connect_timeout_ms: 10_000,
            keep_alive_interval_ms: 30_000,
            max_connections_per_peer: 10,
            idle_timeout_ms: 300_000,
            max_message_size: 16_777_216,
            enable_pooling: true,
        }
    }
}

impl PortMappingConfig {
    /// The default port-mapping settings.
    pub open spec fn default_spec() -> PortMappingConfig {
        PortMappingConfig { enable_upnp: true, enable_pcp: false, mapping_timeout_ms: 30_000 }
    }
}

impl Default for ConnectionConfig {
    fn default() -> (r: Self)
        ensures
            r == ConnectionConfig::default_spec(),
    {
        ConnectionConfig {
            connect_timeout_ms: 10_000,
            keep_alive_interval_ms: 30_000,
            max_connections_per_peer: 10,
            idle_timeout_ms: 300_000,
            max_message_size: 16 * 1024 * 1024,
            enable_pooling: true,
        }
    }
}

impl Default for DiscoveryConfig {
    fn default() -> (r: Self)
        ensures
            r.enable_mdns,
            !r.enable_dht,
            r.bootstrap_nodes@.len() == 0,
            r.discovery_interval_ms == 30_000,
    {
        DiscoveryConfig {
            enable_mdns: true,
            enable_dht: false,
            bootstrap_nodes: Vec::new(),
            discovery_interval_ms: 30_000,
        }
    }
}

impl Default for PortMappingConfig {
    fn default() -> (r: Self)
        ensures
            r == PortMappingConfig::default_spec(),
    {
        PortMappingConfig { enable_upnp: true, enable_pcp: false, mapping_timeout_ms: 30_000 }
    }
}

impl Default for IrohConfig {
    fn default() -> (r: Self)
        ensures
            r.relay_url matches Some(u) && u@ == "https://relay.iroh.network"@,
            texts(r.stun_servers@) == seq!["stun.l.google.com:19302"@, "stun1.l.google.com:19302"@],
            texts(r.alpn_protocols@) == seq!["iroh-raft/1.0"@],
            r.enable_ipv6,
            r.discovery.enable_mdns,
            !r.discovery.enable_dht,
            r.discovery.bootstrap_nodes@.len() == 0,
            r.discovery.discovery_interval_ms == 30_000,
            r.port_mapping == PortMappingConfig::default_spec(),
    {
        let mut stun: Vec<String> = Vec::new();
        stun.push(String::from_str("stun.l.google.com:19302"));
        stun.push(String::from_str("stun1.l.google.com:19302"));
        let mut alpn: Vec<String> = Vec::new();
        alpn.push(String::from_str("iroh-raft/1.0"));
        let r = IrohConfig {
            relay_url: Some(String::from_str("https://relay.iroh.network")),
            stun_servers: stun,
            discovery: DiscoveryConfig::default(),
            alpn_protocols: alpn,
            enable_ipv6: true,
            port_mapping: PortMappingConfig::default(),
        };
        assert(texts(r.stun_servers@) =~= seq!["stun.l.google.com:19302"@, "stun1.l.google.com:19302"@]);
        assert(texts(r.alpn_protocols@) =~= seq!["iroh-raft/1.0"@]);
        r
    }
}

impl Default for TransportConfig {
    fn default() -> (r: Self)
        ensures
            r.bind_address@ == "127.0.0.1:0"@,
            r.peers@.len() == 0,
            r.connection == ConnectionConfig::default_spec(),
            r.iroh.relay_url matches Some(u) && u@ == "https://relay.iroh.network"@,
            texts(r.iroh.stun_servers@) == seq!["stun.l.google.com:19302"@, "stun1.l.google.com:19302"@],
            texts(r.iroh.alpn_protocols@) == seq!["iroh-raft/1.0"@],
            r.iroh.enable_ipv6,
            r.iroh.discovery.enable_mdns,
            !r.iroh.discovery.enable_dht,
            r.iroh.discovery.bootstrap_nodes@.len() == 0,
            r.iroh.discovery.discovery_interval_ms == 30_000,
            r.iroh.port_mapping == PortMappingConfig::default_spec(),
    {
        TransportConfig {
            bind_address: String::from_str("127.0.0.1:0"),
            peers: Vec::new(),
            connection: ConnectionConfig::default(),
            iroh: IrohConfig::default(),
        }
    }
}

impl Default for StorageBackend {
    fn default() -> (r: Self)
        ensures
            r is Redb,
    {
        StorageBackend::Redb
    }
}

impl Default for SyncStrategy {
    fn default() -> (r: Self)
        ensures
            r == SyncStrategy::Periodic,
    {
        SyncStrategy::Periodic
    }
}

impl Default for StorageConfig {
    fn default() -> (r: Self)
        ensures
            r.backend is Redb,
            r.sync_strategy == SyncStrategy::Periodic,
            r.cache_size_mb == 128,
            r.enable_wal,
            r.wal_sync_interval_ms == 1000,
            r.file_permissions == 0o600,
    {
        StorageConfig {
            backend: StorageBackend::default(),
            sync_strategy: SyncStrategy::default(),
            cache_size_mb: 128,
            enable_wal: true,
            wal_sync_interval_ms: 1000,
            file_permissions: 0o600,
        }
    }
}

impl Default for LoggingConfig {
    fn default() -> (r: Self)
        ensures
            r.level@ == "info"@,
            r.format@ == "pretty"@,
            !r.structured,
            r.file is None,
            r.max_file_size_mb == 100,
            r.max_files == 10,
    {
        LoggingConfig {
            level: String::from_str("info"),
            format: String::from_str("pretty"),
            structured: false,
            file: None,
            max_file_size_mb: 100,
            max_files: 10,
        }
    }
}

impl Default for MetricsConfig {
    fn default() -> (r: Self)
        ensures
            r.enabled,
            r.bind_address is None,
            r.collection_interval_ms == 15_000,
            r.prometheus,
            r.prefix@ == "iroh_raft"@,
    {
        MetricsConfig {
            enabled: true,
            bind_address: None,
            collection_interval_ms: 15_000,
            prometheus: true,
            prefix: String::from_str("iroh_raft"),
        }
    }
}

impl Default for TracingConfig {
    fn default() -> (r: Self)
        ensures
            !r.enabled,
            r.otlp_endpoint is None,
            r.sample_rate_bits == DEFAULT_SAMPLE_RATE_BITS,
            r.max_spans_per_trace == 1000,
    {
        TracingConfig {
            enabled: false,
            otlp_endpoint: None,
            sample_rate_bits: DEFAULT_SAMPLE_RATE_BITS,
            max_spans_per_trace: 1000,
        }
    }
}

impl Default for ObservabilityConfig {
    fn default() -> (r: Self)
        ensures
            is_default_observability(r),
    {
        ObservabilityConfig {
            logging: LoggingConfig::default(),
            metrics: MetricsConfig::default(),
            tracing: TracingConfig::default(),
        }
    }
}

/// The observability settings are the defaults.
pub open spec fn is_default_observability(r: ObservabilityConfig) -> bool {
    &&& r.logging.level@ == "info"@
    &&& r.logging.format@ == "pretty"@
    &&& !r.logging.structured
    &&& r.logging.file is None
    &&& r.logging.max_file_size_mb == 100
    &&& r.logging.max_files == 10
    &&& r.metrics.enabled
    &&& r.metrics.bind_address is None
    &&& r.metrics.collection_interval_ms == 15_000
    &&& r.metrics.prometheus
    &&& r.metrics.prefix@ == "iroh_raft"@
    &&& !r.tracing.enabled
    &&& r.tracing.otlp_endpoint is None
    &&& r.tracing.sample_rate_bits == DEFAULT_SAMPLE_RATE_BITS
    &&& r.tracing.max_spans_per_trace == 1000
}

/// The configuration is the default one.
pub open spec fn is_default_config(r: Config) -> bool {
    &&& r.node.id is None
    &&& r.node.data_dir@ == "./data"@
    &&& !r.node.debug
    &&& r.node.metadata.name is None
    &&& r.node.metadata.zone is None
    &&& r.node.metadata.tags@.len() == 0
    &&& r.raft.election_timeout_min_ms == 3000
    &&& r.raft.election_timeout_max_ms == 5000
    &&& r.raft.heartbeat_interval_ms == 1000
    &&& r.raft.max_uncommitted_entries == 10000
    &&& r.raft.max_inflight_msgs == 256
    &&& r.raft.compaction == CompactionConfig::default_spec()
    &&& r.raft.snapshot == SnapshotConfig::default_spec()
    &&& r.raft.config_change_timeout_ms == 30_000
    &&& r.raft.pre_vote
    &&& r.raft.read_only_option == ReadOnlyOption::Disabled
    &&& r.transport.bind_address@ == "127.0.0.1:0"@
    &&& r.transport.peers@.len() == 0
    &&& r.transport.connection == ConnectionConfig::default_spec()
    &&& r.transport.iroh.relay_url matches Some(u) && u@ == "https://relay.iroh.network"@
    &&& texts(r.transport.iroh.stun_servers@) == seq!["stun.l.google.com:19302"@, "stun1.l.google.com:19302"@]
    &&& texts(r.transport.iroh.alpn_protocols@) == seq!["iroh-raft/1.0"@]
    &&& r.transport.iroh.enable_ipv6
    &&& r.transport.iroh.discovery.enable_mdns
    &&& !r.transport.iroh.discovery.enable_dht
    &&& r.transport.iroh.discovery.bootstrap_nodes@.len() == 0
    &&& r.transport.iroh.discovery.discovery_interval_ms == 30_000
    &&& r.transport.iroh.port_mapping == PortMappingConfig::default_spec()
    &&& r.storage.backend is Redb
    &&& r.storage.sync_strategy == SyncStrategy::Periodic
    &&& r.storage.cache_size_mb == 128
    &&& r.storage.enable_wal
    &&& r.storage.wal_sync_interval_ms == 1000
    &&& r.storage.file_permissions == 0o600
    &&& is_default_observability(r.observability)
}

impl Default for Config {
    fn default() -> (r: Self)
        ensures
            is_default_config(r),
    {
        Config {
            node: NodeConfig::default(),
            raft: RaftConfig::default(),
            transport: TransportConfig::default(),
            storage: StorageConfig::default(),
            observability: ObservabilityConfig::default(),
        }
    }
}

/// The tag keys and values as text.
pub open spec fn tag_texts(tags: Seq<(String, String)>) -> Seq<(Seq<char>, Seq<char>)> {
    tags.map_values(|t: (String, String)| (t.0@, t.1@))
}

/// The position of the first tag with the given key, if any.
pub open spec fn tag_position(tags: Seq<(Seq<char>, Seq<char>)>, key: Seq<char>) -> Option<int> {
    if exists|i: int| 0 <= i < tags.len() && #[trigger] tags[i].0 == key {
        Some(choose|i: int| 0 <= i < tags.len() && #[trigger] tags[i].0 == key
            && forall|k: int| 0 <= k < i ==> #[trigger] tags[k].0 != key)
    } else {
        None
    }
}

/// The tags after setting `key` to `value`: the value of the first entry
/// with that key is replaced, or a new entry is appended.
pub open spec fn tags_with(tags: Seq<(Seq<char>, Seq<char>)>, key: Seq<char>, value: Seq<char>) -> Seq<(Seq<char>, Seq<char>)> {
    match tag_position(tags, key) {
        Some(i) => tags.update(i, (key, value)),
        None => tags.push((key, value)),
    }
}

/// The addresses that parsed, in order.
pub open spec fn parsed_addresses(addrs: Seq<Option<String>>) -> Seq<Seq<char>>
    decreases addrs.len(),
{
    if addrs.len() == 0 {
        Seq::empty()
    } else {
        let rest = parsed_addresses(addrs.drop_last());
        match addrs.last() {
            Some(a) => rest.push(a@),
            None => rest,
        }
    }
}

/// Set `key` to `value` in a list of tags.
fn set_tag(tags: &mut Vec<(String, String)>, key: String, value: String)
    ensures
        tag_texts(final(tags)@) == tags_with(tag_texts(old(tags)@), key@, value@),
{
    let ghost t = tag_texts(tags@);
    let mut i: usize = 0;
    while i < tags.len()
        invariant
            i <= tags@.len(),
            t == tag_texts(tags@),
            tags@ == old(tags)@,
            forall|k: int| 0 <= k < i ==> #[trigger] t[k].0 != key@,
        decreases tags@.len() - i,
    {
        let same = tags[i].0 == key;
        assert(t[i as int].0 == tags@[i as int].0@);
        if same {
            proof {
                assert(t[i as int].0 == key@);
                let w = choose|w: int| 0 <= w < t.len() && #[trigger] t[w].0 == key@
                    && forall|k: int| 0 <= k < w ==> #[trigger] t[k].0 != key@;
                if w < i as int {
                    assert(t[w].0 != key@);
                } else if w > i as int {
                    assert(t[i as int].0 != key@);
                }
                assert(tag_position(t, key@) == Some(i as int));
            }
            let ghost kv = key@;
            let ghost vv = value@;
            tags.set(i, (key, value));
            assert(tag_texts(tags@) =~= t.update(i as int, (kv, vv)));
            return;
        }
        i = i + 1;
    }
    assert(tag_position(t, key@) is None);
    let ghost kv = key@;
    let ghost vv = value@;
    tags.push((key, value));
    assert(tag_texts(tags@) =~= t.push((kv, vv)));
}

/// Configuration builder for fluent construction.
pub struct ConfigBuilder {
    config: Config,
}

impl ConfigBuilder {
    /// The configuration built so far.
    pub closed spec fn current(self) -> Config {
        self.config
    }

    /// Create a new configuration builder with default values.
    pub fn new() -> (r: Self)
        ensures
            is_default_config(r.current()),
    {
        ConfigBuilder { config: Config::default() }
    }

    /// Set the node ID (required).
    pub fn node_id(self, id: u64) -> (r: Self)
        ensures
            r.current() == (Config { node: NodeConfig { id: Some(id), ..self.current().node }, ..self.current() }),
    {
        let mut b = self;
        b.config.node.id = Some(id);
        b
    }

    /// Set the data directory.
    pub fn data_dir(self, dir: &str) -> (r: Self)
        ensures
            r.current().node.data_dir@ == dir@,
            r.current() == (Config { node: NodeConfig { data_dir: r.current().node.data_dir, ..self.current().node }, ..self.current() }),
    {
        let mut b = self;
        b.config.node.data_dir = String::from_str(dir);
        b
    }

    /// Enable debug mode.
    pub fn debug(self, debug: bool) -> (r: Self)
        ensures
            r.current() == (Config { node: NodeConfig { debug, ..self.current().node }, ..self.current() }),
    {
        let mut b = self;
        b.config.node.debug = debug;
        b
    }

    /// Set the node name.
    pub fn node_name(self, name: &str) -> (r: Self)
        ensures
            r.current().node.metadata.name matches Some(n) && n@ == name@,
            r.current() == (Config { node: NodeConfig { metadata: NodeMetadata { name: r.current().node.metadata.name, ..self.current().node.metadata }, ..self.current().node }, ..self.current() }),
    {
        let mut b = self;
        b.config.node.metadata.name = Some(String::from_str(name));
        b
    }

    /// Set the node zone.
    pub fn node_zone(self, zone: &str) -> (r: Self)
        ensures
            r.current().node.metadata.zone matches Some(z) && z@ == zone@,
            r.current() == (Config { node: NodeConfig { metadata: NodeMetadata { zone: r.current().node.metadata.zone, ..self.current().node.metadata }, ..self.current().node }, ..self.current() }),
    {
        let mut b = self;
        b.config.node.metadata.zone = Some(String::from_str(zone));
        b
    }

    /// Add a node tag, replacing the value of an existing tag with that key.
    pub fn add_node_tag(self, key: &str, value: &str) -> (r: Self)
        ensures
            tag_texts(r.current().node.metadata.tags@) == tags_with(tag_texts(self.current().node.metadata.tags@), key@, value@),
            r.current() == (Config { node: NodeConfig { metadata: NodeMetadata { tags: r.current().node.metadata.tags, ..self.current().node.metadata }, ..self.current().node }, ..self.current() }),
    {
        let mut b = self;
        set_tag(&mut b.config.node.metadata.tags, String::from_str(key), String::from_str(value));
        b
    }

    /// Set the bind address, given as the parsed address (`None` when the
    /// text did not parse, in which case `127.0.0.1:0` is used).
    pub fn bind_address(self, addr: Option<String>) -> (r: Self)
        ensures
            r.current().transport.bind_address@ == (match addr { Some(a) => a@, None => "127.0.0.1:0"@ }),
            r.current() == (Config { transport: TransportConfig { bind_address: r.current().transport.bind_address, ..self.current().transport }, ..self.current() }),
    {
        let mut b = self;
        b.config.transport.bind_address = match addr {
            Some(a) => a,
            None => String::from_str("127.0.0.1:0"),
        };
        b
    }

    /// Add a peer address, given as the parsed address (`None` when the text
    /// did not parse, in which case nothing is added).
    pub fn add_peer(self, addr: Option<String>) -> (r: Self)
        ensures
            texts(r.current().transport.peers@) == (match addr { Some(a) => texts(self.current().transport.peers@).push(a@), None => texts(self.current().transport.peers@) }),
            r.current() == (Config { transport: TransportConfig { peers: r.current().transport.peers, ..self.current().transport }, ..self.current() }),
    {
        let mut b = self;
        let ghost old_peers = b.config.transport.peers@;
        match addr {
            Some(a) => {
                let ghost av = a@;
                b.config.transport.peers.push(a);
                assert(texts(b.config.transport.peers@) =~= texts(old_peers).push(av));
            },
            None => {},
        }
        b
    }

    /// Set the peer addresses, given as the parsed addresses; those that did
    /// not parse are left out.
    pub fn peers(self, peers: Vec<Option<String>>) -> (r: Self)
        ensures
            texts(r.current().transport.peers@) == parsed_addresses(peers@),
            r.current() == (Config { transport: TransportConfig { peers: r.current().transport.peers, ..self.current().transport }, ..self.current() }),
    {
        let mut b = self;
        let mut out: Vec<String> = Vec::new();
        let ghost all = peers@;
        let mut i: usize = 0;
        while i < peers.len()
            invariant
                all == peers@,
                i <= all.len(),
                texts(out@) == parsed_addresses(all.take(i as int)),
            decreases all.len() - i,
        {
            assert(all.take(i as int + 1).drop_last() =~= all.take(i as int));
            match &peers[i] {
                Some(a) => {
                    let ghost before = out@;
                    out.push(a.clone());
                    assert(texts(out@) =~= texts(before).push(a@));
                },
                None => {},
            }
            i = i + 1;
        }
        assert(all.take(all.len() as int) =~= all);
        b.config.transport.peers = out;
        b
    }

    /// Set the lower election timeout; the upper one is 2000 ms above it.
    pub fn election_timeout(self, min_ms: u64) -> (r: Self)
        requires
            min_ms + 2000 <= u64::MAX,
        ensures
            r.current() == (Config { raft: RaftConfig { election_timeout_min_ms: min_ms, election_timeout_max_ms: (min_ms + 2000) as u64, ..self.current().raft }, ..self.current() }),
    {
        let mut b = self;
        b.config.raft.election_timeout_min_ms = min_ms;
        b.config.raft.election_timeout_max_ms = min_ms + 2000;
        b
    }

    /// Set the heartbeat interval.
    pub fn heartbeat_interval(self, interval_ms: u64) -> (r: Self)
        ensures
            r.current() == (Config { raft: RaftConfig { heartbeat_interval_ms: interval_ms, ..self.current().raft }, ..self.current() }),
    {
        let mut b = self;
        b.config.raft.heartbeat_interval_ms = interval_ms;
        b
    }

    /// Enable or disable pre-vote.
    pub fn pre_vote(self, enabled: bool) -> (r: Self)
        ensures
            r.current() == (Config { raft: RaftConfig { pre_vote: enabled, ..self.current().raft }, ..self.current() }),
    {
        let mut b = self;
        b.config.raft.pre_vote = enabled;
        b
    }

    /// Set the read-only option.
    pub fn read_only_option(self, option: ReadOnlyOption) -> (r: Self)
        ensures
            r.current() == (Config { raft: RaftConfig { read_only_option: option, ..self.current().raft }, ..self.current() }),
    {
        let mut b = self;
        b.config.raft.read_only_option = option;
        b
    }

    /// Configure log compaction.
    pub fn log_compaction(self, enabled: bool, threshold_entries: u64) -> (r: Self)
        ensures
            r.current() == (Config { raft: RaftConfig { compaction: CompactionConfig { enabled, threshold_entries, ..self.current().raft.compaction }, ..self.current().raft }, ..self.current() }),
    {
        let mut b = self;
        b.config.raft.compaction.enabled = enabled;
        b.config.raft.compaction.threshold_entries = threshold_entries;
        b
    }

    /// Configure snapshots.
    pub fn snapshots(self, enabled: bool, threshold_entries: u64, compression_level: u32) -> (r: Self)
        ensures
            r.current() == (Config { raft: RaftConfig { snapshot: SnapshotConfig { enabled, threshold_entries, compression_level, ..self.current().raft.snapshot }, ..self.current().raft }, ..self.current() }),
    {
        let mut b = self;
        b.config.raft.snapshot.enabled = enabled;
        b.config.raft.snapshot.threshold_entries = threshold_entries;
        b.config.raft.snapshot.compression_level = compression_level;
        b
    }

    /// Set the storage backend.
    pub fn storage_backend(self, backend: StorageBackend) -> (r: Self)
        ensures
            r.current() == (Config { storage: StorageConfig { backend, ..self.current().storage }, ..self.current() }),
    {
        let mut b = self;
        b.config.storage.backend = backend;
        b
    }

    /// Set the storage sync strategy.
    pub fn sync_strategy(self, strategy: SyncStrategy) -> (r: Self)
        ensures
            r.current() == (Config { storage: StorageConfig { sync_strategy: strategy, ..self.current().storage }, ..self.current() }),
    {
        let mut b = self;
        b.config.storage.sync_strategy = strategy;
        b
    }

    /// Set the cache size in MB.
    pub fn cache_size_mb(self, size_mb: u64) -> (r: Self)
        ensures
            r.current() == (Config { storage: StorageConfig { cache_size_mb: size_mb, ..self.current().storage }, ..self.current() }),
    {
        let mut b = self;
        b.config.storage.cache_size_mb = size_mb;
        b
    }

    /// Set the log level.
    pub fn log_level(self, level: &str) -> (r: Self)
        ensures
            r.current().observability.logging.level@ == level@,
            r.current() == (Config { observability: ObservabilityConfig { logging: LoggingConfig { level: r.current().observability.logging.level, ..self.current().observability.logging }, ..self.current().observability }, ..self.current() }),
    {
        let mut b = self;
        b.config.observability.logging.level = String::from_str(level);
        b
    }

    /// Enable or disable metrics.
    pub fn metrics(self, enabled: bool) -> (r: Self)
        ensures
            r.current() == (Config { observability: ObservabilityConfig { metrics: MetricsConfig { enabled, ..self.current().observability.metrics }, ..self.current().observability }, ..self.current() }),
    {
        let mut b = self;
        b.config.observability.metrics.enabled = enabled;
        b
    }

    /// Set the metrics bind address, given as the parsed address (`None`
    /// when the text did not parse, in which case nothing changes).
    pub fn metrics_address(self, addr: Option<String>) -> (r: Self)
        ensures
            addr is None ==> r.current() == self.current(),
            addr matches Some(a) ==> r.current().observability.metrics.bind_address matches Some(x) && x@ == a@,
            r.current() == (Config { observability: ObservabilityConfig { metrics: MetricsConfig { bind_address: r.current().observability.metrics.bind_address, ..self.current().observability.metrics }, ..self.current().observability }, ..self.current() }),
    {
        let mut b = self;
        match addr {
            Some(a) => {
                b.config.observability.metrics.bind_address = Some(a);
            },
            None => {},
        }
        b
    }

    /// Enable distributed tracing with an OTLP endpoint.
    pub fn tracing(self, otlp_endpoint: &str) -> (r: Self)
        ensures
            r.current().observability.tracing.enabled,
            r.current().observability.tracing.otlp_endpoint matches Some(e) && e@ == otlp_endpoint@,
            r.current() == (Config { observability: ObservabilityConfig { tracing: TracingConfig { enabled: true, otlp_endpoint: r.current().observability.tracing.otlp_endpoint, ..self.current().observability.tracing }, ..self.current().observability }, ..self.current() }),
    {
        let mut b = self;
        b.config.observability.tracing.enabled = true;
        b.config.observability.tracing.otlp_endpoint = Some(String::from_str(otlp_endpoint));
        b
    }

    /// Set the tracing sample rate, given as the bits of the double.
    pub fn tracing_sample_rate(self, rate_bits: u64) -> (r: Self)
        ensures
            r.current() == (Config { observability: ObservabilityConfig { tracing: TracingConfig { sample_rate_bits: rate_bits, ..self.current().observability.tracing }, ..self.current().observability }, ..self.current() }),
    {
        let mut b = self;
        b.config.observability.tracing.sample_rate_bits = rate_bits;
        b
    }

    /// Set the relay server used for NAT traversal.
    pub fn relay_server(self, url: &str) -> (r: Self)
        ensures
            r.current().transport.iroh.relay_url matches Some(u) && u@ == url@,
            r.current() == (Config { transport: TransportConfig { iroh: IrohConfig { relay_url: r.current().transport.iroh.relay_url, ..self.current().transport.iroh }, ..self.current().transport }, ..self.current() }),
    {
        let mut b = self;
        b.config.transport.iroh.relay_url = Some(String::from_str(url));
        b
    }

    /// Enable or disable mDNS discovery.
    pub fn enable_mdns_discovery(self, enabled: bool) -> (r: Self)
        ensures
            r.current() == (Config { transport: TransportConfig { iroh: IrohConfig { discovery: DiscoveryConfig { enable_mdns: enabled, ..self.current().transport.iroh.discovery }, ..self.current().transport.iroh }, ..self.current().transport }, ..self.current() }),
    {
        let mut b = self;
        b.config.transport.iroh.discovery.enable_mdns = enabled;
        b
    }

    /// Validate and return the configuration.
    pub fn build(self) -> (r: ConfigResult<Config>)
        ensures
            reports_issue(r, validation_issue(self.current())),
            r matches Ok(c) ==> c == self.current(),
    {
        match self.config.validate() {
            Ok(()) => Ok(self.config),
            Err(e) => Err(e),
        }
    }

    /// Return the configuration without validating it.
    pub fn build_unchecked(self) -> (r: Config)
        ensures
            r == self.current(),
    {
        self.config
    }
}

impl Default for ConfigBuilder {
    fn default() -> (r: Self)
        ensures
            is_default_config(r.current()),
    {
        ConfigBuilder::new()
    }
}

/// The lower-case form of a text, as `str::to_lowercase` gives it.
pub uninterp spec fn lowercase(s: Seq<char>) -> Seq<char>;

/// `str::to_lowercase`: the result is the lower-case form of the text.
#[verifier::external_body]
fn to_lowercase(s: &str) -> (r: String)
    ensures
        r@ == lowercase(s@),
{
    s.to_lowercase()
}

/// The read-only option named by a lower-cased text, or the error for the
/// given text.
pub open spec fn read_only_parsed(r: Result<ReadOnlyOption, ConfigError>, lower: Seq<char>, given: Seq<char>) -> bool {
    if lower == "disabled"@ {
        r == Ok::<ReadOnlyOption, ConfigError>(ReadOnlyOption::Disabled)
    } else if lower == "leader_lease"@ {
        r == Ok::<ReadOnlyOption, ConfigError>(ReadOnlyOption::LeaderLease)
    } else if lower == "read_index"@ {
        r == Ok::<ReadOnlyOption, ConfigError>(ReadOnlyOption::ReadIndex)
    } else {
        r matches Err(ConfigError::Invalid { field, message }) && field@ == "read_only_option"@
            && message@ == "Invalid read-only option: "@ + given
    }
}

/// The storage backend named by a lower-cased text; any other text names a
/// custom backend with the text as given as its connection string.
pub open spec fn backend_parsed(r: StorageBackend, lower: Seq<char>, given: Seq<char>) -> bool {
    if lower == "redb"@ {
        r is Redb
    } else if lower == "memory"@ {
        r is Memory
    } else {
        r matches StorageBackend::Custom { connection_string } && connection_string@ == given
    }
}

/// The sync strategy named by a lower-cased text, or the error for the
/// given text.
pub open spec fn sync_parsed(r: Result<SyncStrategy, ConfigError>, lower: Seq<char>, given: Seq<char>) -> bool {
    if lower == "none"@ {
        r == Ok::<SyncStrategy, ConfigError>(SyncStrategy::NoSync)
    } else if lower == "always"@ {
        r == Ok::<SyncStrategy, ConfigError>(SyncStrategy::Always)
    } else if lower == "periodic"@ {
        r == Ok::<SyncStrategy, ConfigError>(SyncStrategy::Periodic)
    } else if lower == "on_commit"@ {
        r == Ok::<SyncStrategy, ConfigError>(SyncStrategy::OnCommit)
    } else {
        r matches Err(ConfigError::Invalid { field, message }) && field@ == "sync_strategy"@
            && message@ == "Invalid sync strategy: "@ + given
    }
}

fn with_prefix(prefix: &str, rest: &str) -> (r: String)
    ensures
        r@ == prefix@ + rest@,
{
    let mut m = String::from_str(prefix);
    m.append(rest);
    m
}

impl ReadOnlyOption {
    /// The option named by `lower`, the lower-cased form of `given`.
    pub fn from_lowercase(lower: &str, given: &str) -> (r: Result<Self, ConfigError>)
        ensures
            read_only_parsed(r, lower@, given@),
    {
        if crate::text::str_eq(lower, "disabled") {
            Ok(ReadOnlyOption::Disabled)
        } else if crate::text::str_eq(lower, "leader_lease") {
            Ok(ReadOnlyOption::LeaderLease)
        } else if crate::text::str_eq(lower, "read_index") {
            Ok(ReadOnlyOption::ReadIndex)
        } else {
            Err(invalid("read_only_option", with_prefix("Invalid read-only option: ", given)))
        }
    }

    /// Parse a read-only option, ignoring case.
    pub fn from_str(s: &str) -> (r: Result<Self, ConfigError>)
        ensures
            read_only_parsed(r, lowercase(s@), s@),
    {
        let lower = to_lowercase(s);
        ReadOnlyOption::from_lowercase(lower.as_str(), s)
    }
}

impl StorageBackend {
    /// The backend named by `lower`, the lower-cased form of `given`.
    pub fn from_lowercase(lower: &str, given: &str) -> (r: Self)
        ensures
            backend_parsed(r, lower@, given@),
    {
        if crate::text::str_eq(lower, "redb") {
            StorageBackend::Redb
        } else if crate::text::str_eq(lower, "memory") {
            StorageBackend::Memory
        } else {
            StorageBackend::Custom { connection_string: String::from_str(given) }
        }
    }

    /// Parse a storage backend, ignoring case; this never fails.
    pub fn from_str(s: &str) -> (r: Result<Self, ConfigError>)
        ensures
            r matches Ok(b) && backend_parsed(b, lowercase(s@), s@),
    {
        let lower = to_lowercase(s);
        Ok(StorageBackend::from_lowercase(lower.as_str(), s))
    }
}

impl SyncStrategy {
    /// The strategy named by `lower`, the lower-cased form of `given`.
    pub fn from_lowercase(lower: &str, given: &str) -> (r: Result<Self, ConfigError>)
        ensures
            sync_parsed(r, lower@, given@),
    {
        if crate::text::str_eq(lower, "none") {
            Ok(SyncStrategy::NoSync)
        } else if crate::text::str_eq(lower, "always") {
            Ok(SyncStrategy::Always)
        } else if crate::text::str_eq(lower, "periodic") {
            Ok(SyncStrategy::Periodic)
        } else if crate::text::str_eq(lower, "on_commit") {
            Ok(SyncStrategy::OnCommit)
        } else {
            Err(invalid("sync_strategy", with_prefix("Invalid sync strategy: ", given)))
        }
    }

    /// Parse a sync strategy, ignoring case.
    pub fn from_str(s: &str) -> (r: Result<Self, ConfigError>)
        ensures
            sync_parsed(r, lowercase(s@), s@),
    {
        let lower = to_lowercase(s);
        SyncStrategy::from_lowercase(lower.as_str(), s)
    }
}

/// Values taken from the environment, one per variable that overrides a
/// setting.  Addresses come parsed: `Ok` with the canonical address text, or
/// `Err` with the parser's message.
pub struct EnvOverrides {
    /// `IROH_RAFT_NODE_ID`
    pub node_id: Option<String>,
    /// `IROH_RAFT_DATA_DIR`
    pub data_dir: Option<String>,
    /// `IROH_RAFT_DEBUG`
    pub debug: Option<String>,
    /// `IROH_RAFT_BIND_ADDRESS`, parsed
    pub bind_address: Option<Result<String, String>>,
    /// `IROH_RAFT_PEERS`, each comma-separated entry trimmed and parsed
    pub peers: Option<Vec<Result<String, String>>>,
    /// `IROH_RAFT_ELECTION_TIMEOUT_MS`
    pub election_timeout_ms: Option<String>,
    /// `IROH_RAFT_HEARTBEAT_INTERVAL_MS`
    pub heartbeat_interval_ms: Option<String>,
    /// `IROH_RAFT_LOG_LEVEL`
    pub log_level: Option<String>,
    /// `IROH_RAFT_METRICS_ENABLED`
    pub metrics_enabled: Option<String>,
    /// `OTEL_EXPORTER_OTLP_ENDPOINT`
    pub otlp_endpoint: Option<String>,
}

/// The message of the first entry of a list that did not parse, if any.
pub open spec fn first_error(v: Seq<Result<String, String>>) -> Option<Seq<char>>
    decreases v.len(),
{
    if v.len() == 0 {
        None
    } else {
        match first_error(v.drop_last()) {
            Some(m) => Some(m),
            None => match v.last() {
                Err(m) => Some(m@),
                Ok(_) => None,
            },
        }
    }
}

/// The parsed entries of a list, in order.
pub open spec fn ok_values(v: Seq<Result<String, String>>) -> Seq<Seq<char>>
    decreases v.len(),
{
    if v.len() == 0 {
        Seq::empty()
    } else {
        match v.last() {
            Ok(a) => ok_values(v.drop_last()).push(a@),
            Err(_) => ok_values(v.drop_last()),
        }
    }
}

/// Some entry of an optional list of parsed addresses did not parse.
pub open spec fn peers_fail(peers: Option<Vec<Result<String, String>>>) -> bool {
    peers matches Some(p) && first_error(p@) is Some
}

/// An optional number text fails to parse.
pub open spec fn number_fails(t: Option<String>) -> bool {
    t matches Some(x) && parse_u64_spec(x@) is Err
}

/// The value of a number text that parses.
pub open spec fn number_value(t: Option<String>) -> u64 {
    match t {
        Some(x) => match parse_u64_spec(x@) {
            Ok(v) => v,
            Err(_) => 0,
        },
        None => 0,
    }
}

/// The step at which applying the overrides stops with an error: 1 for the
/// node id, 2 for the bind address, 3 for the peers, 4 for the election
/// timeout, 5 for the heartbeat interval; 6 when every step succeeds.
pub open spec fn env_failure_stage(e: EnvOverrides) -> int {
    if number_fails(e.node_id) {
        1
    } else if e.bind_address matches Some(Err(_)) {
        2
    } else if peers_fail(e.peers) {
        3
    } else if number_fails(e.election_timeout_ms) {
        4
    } else if number_fails(e.heartbeat_interval_ms) {
        5
    } else {
        6
    }
}

fn number_text_fails(t: &Option<String>) -> (r: bool)
    ensures
        r == number_fails(*t),
{
    match t {
        Some(x) => crate::parse::parse_u64(x.as_str()).is_err(),
        None => false,
    }
}

/// The step at which applying the overrides stops with an error (6 when
/// none fails), so that a caller can tell whether the election timeout
/// override is reached.
pub fn env_failure_step(env: &EnvOverrides) -> (r: u8)
    ensures
        r == env_failure_stage(*env),
{
    if number_text_fails(&env.node_id) {
        1
    } else if env.bind_address matches Some(Err(_)) {
        2
    } else if match &env.peers { Some(p) => collect_peers(p).is_err(), None => false } {
        3
    } else if number_text_fails(&env.election_timeout_ms) {
        4
    } else if number_text_fails(&env.heartbeat_interval_ms) {
        5
    } else {
        6
    }
}

/// The error applying the overrides stops with, at the given step.
pub open spec fn env_error(err: ConfigError, e: EnvOverrides, stage: int) -> bool {
    let kind = |t: Option<String>| match t {
        Some(x) => match parse_u64_spec(x@) {
            Err(k) => k,
            Ok(_) => IntErrorKind::Empty,
        },
        None => IntErrorKind::Empty,
    };
    if stage == 1 {
        err matches ConfigError::Environment(m) && m@ == "Invalid node ID: "@ + int_error_message(kind(e.node_id))
    } else if stage == 2 {
        err matches ConfigError::AddressParse(m) && e.bind_address matches Some(Err(x)) && m@ == x@
    } else if stage == 3 {
        err matches ConfigError::AddressParse(m) && e.peers matches Some(p) && first_error(p@) == Some(m@)
    } else if stage == 4 {
        err matches ConfigError::Environment(m) && m@ == "Invalid election timeout: "@ + int_error_message(kind(e.election_timeout_ms))
    } else {
        err matches ConfigError::Environment(m) && m@ == "Invalid heartbeat interval: "@ + int_error_message(kind(e.heartbeat_interval_ms))
    }
}

/// The configuration `new` is `old` with the overrides applied up to the step
/// at which they stop.
pub open spec fn env_applied(old: Config, new: Config, e: EnvOverrides) -> bool {
    let stage = env_failure_stage(e);
    &&& new.node.id == (if stage > 1 && e.node_id is Some { Some(number_value(e.node_id)) } else { old.node.id })
    &&& new.node.data_dir@ == (if stage > 1 && e.data_dir is Some { e.data_dir->0@ } else { old.node.data_dir@ })
    &&& new.node.debug == (if stage > 1 && e.debug is Some {
            match parse_bool_spec(e.debug->0@) { Some(b) => b, None => false }
        } else { old.node.debug })
    &&& new.transport.bind_address@ == (if stage > 2 && e.bind_address matches Some(Ok(a)) { e.bind_address->0->Ok_0@ } else { old.transport.bind_address@ })
    &&& texts(new.transport.peers@) == (if stage > 3 && e.peers is Some { ok_values(e.peers->0@) } else { texts(old.transport.peers@) })
    &&& new.raft.election_timeout_min_ms == (if stage > 4 && e.election_timeout_ms is Some { number_value(e.election_timeout_ms) } else { old.raft.election_timeout_min_ms })
    &&& new.raft.election_timeout_max_ms == (if stage > 4 && e.election_timeout_ms is Some { (number_value(e.election_timeout_ms) + 2000) as u64 } else { old.raft.election_timeout_max_ms })
    &&& new.raft.heartbeat_interval_ms == (if stage > 5 && e.heartbeat_interval_ms is Some { number_value(e.heartbeat_interval_ms) } else { old.raft.heartbeat_interval_ms })
    &&& new.observability.logging.level@ == (if stage == 6 && e.log_level is Some { e.log_level->0@ } else { old.observability.logging.level@ })
    &&& new.observability.metrics.enabled == (if stage == 6 && e.metrics_enabled is Some {
            match parse_bool_spec(e.metrics_enabled->0@) { Some(b) => b, None => true }
        } else { old.observability.metrics.enabled })
    &&& new.observability.tracing.enabled == (if stage == 6 && e.otlp_endpoint is Some { true } else { old.observability.tracing.enabled })
    &&& (if stage == 6 && e.otlp_endpoint is Some {
            new.observability.tracing.otlp_endpoint matches Some(x) && x@ == e.otlp_endpoint->0@
        } else { new.observability.tracing.otlp_endpoint == old.observability.tracing.otlp_endpoint })
    &&& new == (Config {
            node: NodeConfig { id: new.node.id, data_dir: new.node.data_dir, debug: new.node.debug, ..old.node },
            raft: RaftConfig {
                election_timeout_min_ms: new.raft.election_timeout_min_ms,
                election_timeout_max_ms: new.raft.election_timeout_max_ms,
                heartbeat_interval_ms: new.raft.heartbeat_interval_ms,
                ..old.raft
            },
            transport: TransportConfig { bind_address: new.transport.bind_address, peers: new.transport.peers, ..old.transport },
            storage: old.storage,
            observability: ObservabilityConfig {
                logging: LoggingConfig { level: new.observability.logging.level, ..old.observability.logging },
                metrics: MetricsConfig { enabled: new.observability.metrics.enabled, ..old.observability.metrics },
                tracing: TracingConfig {
                    enabled: new.observability.tracing.enabled,
                    otlp_endpoint: new.observability.tracing.otlp_endpoint,
                    ..old.observability.tracing
                },
            },
        })
}

/// The overrides can be applied without an arithmetic overflow: an election
/// timeout that is reached leaves room for the 2000 ms added to it.
pub open spec fn env_in_range(e: EnvOverrides) -> bool {
    env_failure_stage(e) > 4 && e.election_timeout_ms is Some ==> number_value(e.election_timeout_ms) + 2000 <= u64::MAX
}

/// Collect parsed peer addresses, stopping at the first that did not parse.
fn collect_peers(v: &Vec<Result<String, String>>) -> (r: Result<Vec<String>, ConfigError>)
    ensures
        match first_error(v@) {
            Some(m) => r matches Err(ConfigError::AddressParse(x)) && x@ == m,
            None => r matches Ok(p) && texts(p@) == ok_values(v@),
        },
{
    let mut out: Vec<String> = Vec::new();
    let mut i: usize = 0;
    while i < v.len()
        invariant
            i <= v@.len(),
            first_error(v@.take(i as int)) is None,
            texts(out@) == ok_values(v@.take(i as int)),
        decreases v@.len() - i,
    {
        assert(v@.take(i as int + 1).drop_last() =~= v@.take(i as int));
        match &v[i] {
            Ok(a) => {
                let ghost before = out@;
                out.push(a.clone());
                assert(texts(out@) =~= texts(before).push(a@));
            },
            Err(m) => {
                proof { lemma_first_error_prefix(v@, i as int + 1); }
                return Err(ConfigError::AddressParse(m.clone()));
            },
        }
        i = i + 1;
    }
    assert(v@.take(v@.len() as int) =~= v@);
    Ok(out)
}

proof fn lemma_first_error_prefix(v: Seq<Result<String, String>>, n: int)
    requires
        0 <= n <= v.len(),
        first_error(v.take(n)) is Some,
    ensures
        first_error(v) == first_error(v.take(n)),
    decreases v.len() - n,
{
    if n < v.len() {
        assert(v.take(n + 1).drop_last() =~= v.take(n));
        lemma_first_error_prefix(v, n + 1);
    } else {
        assert(v.take(n) =~= v);
    }
}

fn parse_number(t: &String, prefix: &str) -> (r: Result<u64, ConfigError>)
    ensures
        match parse_u64_spec(t@) {
            Ok(v) => r == Ok::<u64, ConfigError>(v),
            Err(k) => r matches Err(ConfigError::Environment(m)) && m@ == prefix@ + int_error_message(k),
        },
{
    match parse_u64(t.as_str()) {
        Ok(v) => Ok(v),
        Err(k) => {
            let msg = int_error_text(k);
            Err(ConfigError::Environment(with_prefix(prefix, msg.as_str())))
        },
    }
}

fn parse_flag(t: &String, default: bool) -> (r: bool)
    ensures
        r == (match parse_bool_spec(t@) { Some(b) => b, None => default }),
{
    match parse_bool(t.as_str()) {
        Some(b) => b,
        None => default,
    }
}

/// Apply the node overrides (step 1).
fn apply_node_overrides(c: &mut Config, node_id: &Option<String>, data_dir: Option<String>, debug: &Option<String>) -> (r: ConfigResult<()>)
    ensures
        number_fails(*node_id) ==> *final(c) == *old(c),
        number_fails(*node_id) ==> (r matches Err(ConfigError::Environment(m)) && node_id matches Some(t)
            && parse_u64_spec(t@) matches Err(k) && m@ == "Invalid node ID: "@ + int_error_message(k)),
        !number_fails(*node_id) ==> r is Ok,
        !number_fails(*node_id) ==> final(c).node.id == (if node_id is Some { Some(number_value(*node_id)) } else { old(c).node.id }),
        !number_fails(*node_id) ==> final(c).node.data_dir@ == (if data_dir is Some { data_dir->0@ } else { old(c).node.data_dir@ }),
        !number_fails(*node_id) ==> final(c).node.debug == (if debug is Some {
            match parse_bool_spec(debug->0@) { Some(b) => b, None => false } } else { old(c).node.debug }),
        *final(c) == (Config { node: NodeConfig { id: final(c).node.id, data_dir: final(c).node.data_dir, debug: final(c).node.debug, ..old(c).node }, ..*old(c) }),
{
    match node_id {
        Some(t) => {
            match parse_number(t, "Invalid node ID: ") {
                Ok(v) => { c.node.id = Some(v); },
                Err(err) => { return Err(err); },
            }
        },
        None => {},
    }
    match data_dir {
        Some(d) => { c.node.data_dir = d; },
        None => {},
    }
    match debug {
        Some(d) => { c.node.debug = parse_flag(d, false); },
        None => {},
    }
    Ok(())
}

/// Apply the transport overrides (steps 2 and 3).
fn apply_transport_overrides(c: &mut Config, bind_address: Option<Result<String, String>>, peers: &Option<Vec<Result<String, String>>>) -> (r: ConfigResult<()>)
    ensures
        bind_address matches Some(Err(x)) ==> (r matches Err(ConfigError::AddressParse(m)) && m@ == x@ && *final(c) == *old(c)),
        !(bind_address matches Some(Err(_))) && peers_fail(*peers) ==>
            (r matches Err(ConfigError::AddressParse(m)) && first_error(peers->0@) == Some(m@)),
        !(bind_address matches Some(Err(_))) && !peers_fail(*peers) ==> r is Ok,
        final(c).transport.bind_address@ == (if bind_address matches Some(Ok(a)) { bind_address->0->Ok_0@ } else { old(c).transport.bind_address@ }),
        texts(final(c).transport.peers@) == (if r is Ok && peers is Some { ok_values(peers->0@) } else { texts(old(c).transport.peers@) }),
        *final(c) == (Config { transport: TransportConfig { bind_address: final(c).transport.bind_address, peers: final(c).transport.peers, ..old(c).transport }, ..*old(c) }),
{
    match bind_address {
        Some(Ok(a)) => { c.transport.bind_address = a; },
        Some(Err(m)) => { return Err(ConfigError::AddressParse(m)); },
        None => {},
    }
    match peers {
        Some(p) => {
            match collect_peers(p) {
                Ok(list) => { c.transport.peers = list; },
                Err(err) => { return Err(err); },
            }
        },
        None => {},
    }
    Ok(())
}

/// Apply the timing overrides (steps 4 and 5).
fn apply_timing_overrides(c: &mut Config, election_timeout_ms: &Option<String>, heartbeat_interval_ms: &Option<String>) -> (r: ConfigResult<()>)
    requires
        !number_fails(*election_timeout_ms) && election_timeout_ms is Some ==> number_value(*election_timeout_ms) + 2000 <= u64::MAX,
    ensures
        number_fails(*election_timeout_ms) ==> (r matches Err(ConfigError::Environment(m)) && election_timeout_ms matches Some(t)
            && parse_u64_spec(t@) matches Err(k) && m@ == "Invalid election timeout: "@ + int_error_message(k)),
        !number_fails(*election_timeout_ms) && number_fails(*heartbeat_interval_ms) ==> (r matches Err(ConfigError::Environment(m))
            && heartbeat_interval_ms matches Some(t)
            && parse_u64_spec(t@) matches Err(k) && m@ == "Invalid heartbeat interval: "@ + int_error_message(k)),
        !number_fails(*election_timeout_ms) && !number_fails(*heartbeat_interval_ms) ==> r is Ok,
        final(c).raft.election_timeout_min_ms == (if !number_fails(*election_timeout_ms) && election_timeout_ms is Some { number_value(*election_timeout_ms) } else { old(c).raft.election_timeout_min_ms }),
        final(c).raft.election_timeout_max_ms == (if !number_fails(*election_timeout_ms) && election_timeout_ms is Some { (number_value(*election_timeout_ms) + 2000) as u64 } else { old(c).raft.election_timeout_max_ms }),
        final(c).raft.heartbeat_interval_ms == (if r is Ok && heartbeat_interval_ms is Some { number_value(*heartbeat_interval_ms) } else { old(c).raft.heartbeat_interval_ms }),
        *final(c) == (Config { raft: RaftConfig {
            election_timeout_min_ms: final(c).raft.election_timeout_min_ms,
            election_timeout_max_ms: final(c).raft.election_timeout_max_ms,
            heartbeat_interval_ms: final(c).raft.heartbeat_interval_ms,
            ..old(c).raft }, ..*old(c) }),
{
    match election_timeout_ms {
        Some(t) => {
            match parse_number(t, "Invalid election timeout: ") {
                Ok(v) => {
                    c.raft.election_timeout_min_ms = v;
                    c.raft.election_timeout_max_ms = v + 2000;
                },
                Err(err) => { return Err(err); },
            }
        },
        None => {},
    }
    match heartbeat_interval_ms {
        Some(t) => {
            match parse_number(t, "Invalid heartbeat interval: ") {
                Ok(v) => { c.raft.heartbeat_interval_ms = v; },
                Err(err) => { return Err(err); },
            }
        },
        None => {},
    }
    Ok(())
}

/// Apply the observability overrides (the last step, which cannot fail).
fn apply_observability_overrides(c: &mut Config, log_level: Option<String>, metrics_enabled: &Option<String>, otlp_endpoint: Option<String>)
    ensures
        final(c).observability.logging.level@ == (if log_level is Some { log_level->0@ } else { old(c).observability.logging.level@ }),
        final(c).observability.metrics.enabled == (if metrics_enabled is Some {
            match parse_bool_spec(metrics_enabled->0@) { Some(b) => b, None => true } } else { old(c).observability.metrics.enabled }),
        final(c).observability.tracing.enabled == (if otlp_endpoint is Some { true } else { old(c).observability.tracing.enabled }),
        (if otlp_endpoint is Some {
            final(c).observability.tracing.otlp_endpoint matches Some(x) && x@ == otlp_endpoint->0@
        } else { final(c).observability.tracing.otlp_endpoint == old(c).observability.tracing.otlp_endpoint }),
        *final(c) == (Config { observability: ObservabilityConfig {
            logging: LoggingConfig { level: final(c).observability.logging.level, ..old(c).observability.logging },
            metrics: MetricsConfig { enabled: final(c).observability.metrics.enabled, ..old(c).observability.metrics },
            tracing: TracingConfig {
                enabled: final(c).observability.tracing.enabled,
                otlp_endpoint: final(c).observability.tracing.otlp_endpoint,
                ..old(c).observability.tracing
            },
        }, ..*old(c) }),
{
    match log_level {
        Some(l) => { c.observability.logging.level = l; },
        None => {},
    }
    match metrics_enabled {
        Some(m) => { c.observability.metrics.enabled = parse_flag(m, true); },
        None => {},
    }
    match otlp_endpoint {
        Some(o) => {
            c.observability.tracing.enabled = true;
            c.observability.tracing.otlp_endpoint = Some(o);
        },
        None => {},
    }
}

impl Config {
    /// Apply overrides taken from the environment.  The steps run in order
    /// and the first that fails stops the others, leaving the earlier ones
    /// applied.
    #[verifier::rlimit(50)]
    pub fn apply_env_overrides(&mut self, env: EnvOverrides) -> (r: ConfigResult<()>)
        requires
            env_in_range(env),
        ensures
            env_applied(*old(self), *final(self), env),
            r is Ok <==> env_failure_stage(env) == 6,
            r matches Err(e) ==> env_error(e, env, env_failure_stage(env)),
    {
        let ghost e = env;
        let EnvOverrides {
            node_id, data_dir, debug, bind_address, peers, election_timeout_ms,
            heartbeat_interval_ms, log_level, metrics_enabled, otlp_endpoint,
        } = env;
        let r1 = apply_node_overrides(self, &node_id, data_dir, &debug);
        if r1.is_err() {
            return r1;
        }
        let r2 = apply_transport_overrides(self, bind_address, &peers);
        if r2.is_err() {
            return r2;
        }
        let r3 = apply_timing_overrides(self, &election_timeout_ms, &heartbeat_interval_ms);
        if r3.is_err() {
            return r3;
        }
        apply_observability_overrides(self, log_level, &metrics_enabled, otlp_endpoint);
        Ok(())
    }

    /// Build a configuration from the defaults and the environment's
    /// overrides, and validate it.
    pub fn from_env(env: EnvOverrides) -> (r: ConfigResult<Config>)
        requires
            env_in_range(env),
        ensures
            env_failure_stage(env) < 6 ==> (r matches Err(err) && env_error(err, env, env_failure_stage(env))),
            env_failure_stage(env) == 6 ==> exists|d: Config, c: Config|
                is_default_config(d) && #[trigger] env_applied(d, c, env)
                && reports_issue(r, validation_issue(c)) && (r matches Ok(x) ==> x == c),
    {
        let mut config = Config::default();
        let ghost d = config;
        match config.apply_env_overrides(env) {
            Ok(()) => {},
            Err(err) => { return Err(err); },
        }
        let ghost c = config;
        assert(env_applied(d, c, env));
        match config.validate() {
            Ok(()) => Ok(config),
            Err(err) => Err(err),
        }
    }
}

/// The text of a configuration error, as its display shows it.
pub open spec fn config_error_text(e: ConfigError) -> Seq<char> {
    match e {
        ConfigError::Invalid { field, message } => "Invalid configuration: "@ + field@ + ": "@ + message@,
        ConfigError::Missing { field } => "Missing required field: "@ + field@,
        ConfigError::Io(m) => "IO error: "@ + m@,
        ConfigError::Serialization(m) => "Serialization error: "@ + m@,
        ConfigError::Environment(m) => "Environment variable error: "@ + m@,
        ConfigError::AddressParse(m) => "Address parse error: "@ + m@,
    }
}

impl ConfigError {
    /// The text of the error, as its display shows it.
    pub fn message(&self) -> (r: String)
        ensures
            r@ == config_error_text(*self),
    {
        match self {
            ConfigError::Invalid { field, message } => {
                let mut m = String::from_str("Invalid configuration: ");
                m.append(field.as_str());
                m.append(": ");
                m.append(message.as_str());
                m
            },
            ConfigError::Missing { field } => with_prefix("Missing required field: ", field.as_str()),
            ConfigError::Io(x) => with_prefix("IO error: ", x.as_str()),
            ConfigError::Serialization(x) => with_prefix("Serialization error: ", x.as_str()),
            ConfigError::Environment(x) => with_prefix("Environment variable error: ", x.as_str()),
            ConfigError::AddressParse(x) => with_prefix("Address parse error: ", x.as_str()),
        }
    }
}

} // verus!
