//! Cluster discovery: a cache of what is known of each cluster and its
//! members, kept up to date by discovery messages.
//!
//! Sending and receiving the messages happens outside; each incoming
//! message is handed to [`ClusterDiscovery::process_discovery_message_at`],
//! which updates the cache and says what to answer.  Times are milliseconds
//! since the Unix epoch.

use vstd::prelude::*;
use vstd::string::StringExecFns;
use crate::error::RaftError;
use super::{ClusterMember, MemberRole, HealthStatus, RaftState};

verus! {

/// Protocol version this node announces.
pub open spec fn local_version() -> Seq<char> {
    "0.1.0"@
}

/// Cluster information discovered through the network.
#[derive(Debug, Clone)]
pub struct ClusterInfo {
    /// Cluster identifier
    pub cluster_id: String,
    /// Known members
    pub members: Vec<ClusterMember>,
    /// Known leader
    pub leader: Option<u64>,
    /// Protocol version
    pub version: String,
    /// When the information was obtained
    pub discovered_at_ms: u64,
}

/// Discovery messages.
#[derive(Debug, Clone)]
pub enum DiscoveryMessage {
    /// Announce presence to the network
    Announce {
        node_id: u64,
        cluster_id: String,
        role: MemberRole,
        version: String,
        endpoints: Vec<String>,
        health: HealthStatus,
        raft_state: Option<RaftState>,
    },
    /// Query for cluster members
    QueryCluster { cluster_id: String, requesting_node: u64 },
    /// Cluster member information
    ClusterInfo { cluster_id: String, members: Vec<ClusterMember>, leader: Option<u64>, responding_node: u64 },
    /// Bootstrap request from a new node
    BootstrapRequest { node_id: u64, cluster_id: String, endpoints: Vec<String>, version: String },
    /// Bootstrap response with the initial configuration
    BootstrapResponse { success: bool, initial_members: Option<Vec<ClusterMember>>, leader: Option<u64>, error: Option<String> },
    /// Heartbeat maintaining cluster membership
    Heartbeat { node_id: u64, cluster_id: String, health: HealthStatus, timestamp_ms: u64 },
    /// Member departure notification
    Departure { node_id: u64, cluster_id: String, reason: String },
}

/// Bootstrap response from cluster discovery.
#[derive(Debug, Clone)]
pub struct BootstrapResponse {
    /// Whether the bootstrap succeeded
    pub success: bool,
    /// Initial members, when known
    pub initial_members: Option<Vec<ClusterMember>>,
    /// Known leader
    pub leader: Option<u64>,
    /// Error message, if any
    pub error: Option<String>,
}

/// Auto-discovery configuration.
#[derive(Debug, Clone)]
pub struct DiscoveryConfig {
    /// Enable automatic cluster discovery
    pub enabled: bool,
    /// Timeout of discovery operations, in milliseconds
    pub discovery_timeout_ms: u64,
    /// Interval of presence announcements, in milliseconds
    pub heartbeat_interval_ms: u64,
    /// Bootstrap nodes for initial discovery
    pub bootstrap_nodes: Vec<String>,
    /// Maximum age of cached member information, in milliseconds
    pub member_cache_ttl_ms: u64,
}

impl Default for DiscoveryConfig {
    fn default() -> (r: Self)
        ensures
            r.enabled,
            r.discovery_timeout_ms == 30_000,
            r.heartbeat_interval_ms == 10_000,
            r.bootstrap_nodes@.len() == 0,
            r.member_cache_ttl_ms == 300_000,
    {
        DiscoveryConfig {
            enabled: true,
            discovery_timeout_ms: 30_000,
            heartbeat_interval_ms: 10_000,
            bootstrap_nodes: Vec::new(),
            member_cache_ttl_ms: 300_000,
        }
    }
}

/// A member as plain values.
pub struct MemberView {
    /// Node id
    pub node_id: u64,
    /// Network address
    pub address: Seq<char>,
    /// Role
    pub role: MemberRole,
    /// Health
    pub health: HealthStatus,
    /// Last time seen
    pub last_seen_ms: u64,
    /// Software version
    pub version: Seq<char>,
}

/// The plain values of a member.
pub open spec fn member_view(m: ClusterMember) -> MemberView {
    MemberView { node_id: m.node_id, address: m.address@, role: m.role, health: m.health, last_seen_ms: m.last_seen_ms, version: m.version@ }
}

/// The plain values of a list of members.
pub open spec fn member_views(ms: Seq<ClusterMember>) -> Seq<MemberView> {
    ms.map_values(|m: ClusterMember| member_view(m))
}

/// What the cache holds of a cluster.
pub struct ClusterView {
    /// Cluster identifier
    pub cluster_id: Seq<char>,
    /// Known members
    pub members: Seq<MemberView>,
    /// Known leader
    pub leader: Option<u64>,
    /// Protocol version
    pub version: Seq<char>,
    /// When the information was obtained
    pub discovered_at_ms: u64,
}

/// The plain values of a cluster's information.
pub open spec fn cluster_view(c: ClusterInfo) -> ClusterView {
    ClusterView {
        cluster_id: c.cluster_id@,
        members: member_views(c.members@),
        leader: c.leader,
        version: c.version@,
        discovered_at_ms: c.discovered_at_ms,
    }
}

/// The position of a cluster in the cache, if present.
pub open spec fn cluster_position(t: Seq<ClusterView>, id: Seq<char>) -> Option<int> {
    if exists|i: int| 0 <= i < t.len() && #[trigger] t[i].cluster_id == id {
        Some(choose|i: int| 0 <= i < t.len() && #[trigger] t[i].cluster_id == id)
    } else {
        None
    }
}

/// The cache after storing information about a cluster: it replaces what
/// was known of that cluster, or is added.
pub open spec fn upsert(t: Seq<ClusterView>, v: ClusterView) -> Seq<ClusterView> {
    match cluster_position(t, v.cluster_id) {
        Some(i) => t.update(i, v),
        None => t.push(v),
    }
}

/// The position of the first member with a node id, if any.
pub open spec fn first_member(ms: Seq<MemberView>, node_id: u64) -> Option<int> {
    if exists|j: int| 0 <= j < ms.len() && #[trigger] ms[j].node_id == node_id {
        Some(choose|j: int| 0 <= j < ms.len() && #[trigger] ms[j].node_id == node_id
            && forall|k: int| 0 <= k < j ==> #[trigger] ms[k].node_id != node_id)
    } else {
        None
    }
}

/// The members after an announcement: the first member with the node id
/// gets the first endpoint as address (keeping its address when there is
/// none), the role, the health and the time; an unknown node is added with
/// the first endpoint or "unknown" as address.
pub open spec fn announced(ms: Seq<MemberView>, node_id: u64, endpoint: Option<Seq<char>>, role: MemberRole, health: HealthStatus, now_ms: u64) -> Seq<MemberView> {
    match first_member(ms, node_id) {
        Some(j) => ms.update(j, MemberView {
            address: match endpoint { Some(a) => a, None => ms[j].address },
            role,
            health,
            last_seen_ms: now_ms,
            ..ms[j]
        }),
        None => ms.push(MemberView {
            node_id,
            address: match endpoint { Some(a) => a, None => "unknown"@ },
            role,
            health,
            last_seen_ms: now_ms,
            version: local_version(),
        }),
    }
}

/// The members after a heartbeat: the first member with the node id gets
/// the health and the time.
pub open spec fn heartbeat_seen(ms: Seq<MemberView>, node_id: u64, health: HealthStatus, now_ms: u64) -> Seq<MemberView> {
    match first_member(ms, node_id) {
        Some(j) => ms.update(j, MemberView { health, last_seen_ms: now_ms, ..ms[j] }),
        None => ms,
    }
}

/// The members without those of a node.
pub open spec fn departed(ms: Seq<MemberView>, node_id: u64) -> Seq<MemberView> {
    ms.filter(|m: MemberView| m.node_id != node_id)
}

/// The members whose last sighting is younger than `max_age_ms` at
/// `now_ms` (a sighting in the future counts as age zero).
pub open spec fn fresh_members(ms: Seq<MemberView>, max_age_ms: u64, now_ms: u64) -> Seq<MemberView> {
    ms.filter(|m: MemberView| (if now_ms >= m.last_seen_ms { now_ms - m.last_seen_ms } else { 0 }) < max_age_ms)
}

/// The first endpoint of a list, as text.
pub open spec fn first_endpoint(endpoints: Seq<String>) -> Option<Seq<char>> {
    if endpoints.len() > 0 { Some(endpoints[0]@) } else { None }
}

/// The fixed members active discovery reports: nodes 1, 2 and 3 on
/// ports 8080 to 8082 of the local host, healthy voters seen now.
pub open spec fn fixed_members(now_ms: u64) -> Seq<MemberView> {
    seq![
        MemberView { node_id: 1, address: "127.0.0.1:8080"@, role: MemberRole::Voter, health: HealthStatus::Healthy, last_seen_ms: now_ms, version: local_version() },
        MemberView { node_id: 2, address: "127.0.0.1:8081"@, role: MemberRole::Voter, health: HealthStatus::Healthy, last_seen_ms: now_ms, version: local_version() },
        MemberView { node_id: 3, address: "127.0.0.1:8082"@, role: MemberRole::Voter, health: HealthStatus::Healthy, last_seen_ms: now_ms, version: local_version() },
    ]
}

/// The cache `t1` and answer `r` of a lookup of cluster `id` at `now_ms` in
/// the cache `t0`: recent cached information is answered as it is;
/// otherwise the result of active discovery is cached and answered.
pub open spec fn lookup_or_discover(t0: Seq<ClusterView>, id: Seq<char>, now_ms: u64, t1: Seq<ClusterView>, r: Result<ClusterInfo, RaftError>) -> bool {
    match cluster_position(t0, id) {
        Some(i) if is_recent(t0[i].discovered_at_ms, now_ms) =>
            t1 == t0 && (r matches Ok(c) && cluster_view(c) == t0[i]),
        _ => t1 == upsert(t0, discovered(id, now_ms)) && (r matches Ok(c) && cluster_view(c) == discovered(id, now_ms)),
    }
}

/// Cached cluster information younger than a minute is reused.
pub open spec fn is_recent(discovered_at_ms: u64, now_ms: u64) -> bool {
    discovered_at_ms <= now_ms && now_ms - discovered_at_ms < 60_000
}

fn copy_members(v: &Vec<ClusterMember>) -> (r: Vec<ClusterMember>)
    ensures
        r@ == v@,
{
    let mut out: Vec<ClusterMember> = Vec::new();
    let mut i: usize = 0;
    while i < v.len()
        invariant
            i <= v@.len(),
            out@ == v@.take(i as int),
        decreases v@.len() - i,
    {
        let m = &v[i];
        out.push(ClusterMember {
            node_id: m.node_id,
            address: m.address.clone(),
            role: m.role,
            health: m.health,
            last_seen_ms: m.last_seen_ms,
            version: m.version.clone(),
        });
        assert(out@ =~= v@.take(i as int + 1));
        i = i + 1;
    }
    assert(v@.take(v@.len() as int) =~= v@);
    out
}

fn copy_info(c: &ClusterInfo) -> (r: ClusterInfo)
    ensures
        cluster_view(r) == cluster_view(*c),
{
    ClusterInfo {
        cluster_id: c.cluster_id.clone(),
        members: copy_members(&c.members),
        leader: c.leader,
        version: c.version.clone(),
        discovered_at_ms: c.discovered_at_ms,
    }
}

fn member_at(node_id: u64, address: &str, now_ms: u64) -> (r: ClusterMember)
    ensures
        member_view(r) == (MemberView { node_id, address: address@, role: MemberRole::Voter, health: HealthStatus::Healthy, last_seen_ms: now_ms, version: local_version() }),
{
    ClusterMember {
        node_id,
        address: String::from_str(address),
        role: MemberRole::Voter,
        health: HealthStatus::Healthy,
        last_seen_ms: now_ms,
        version: String::from_str("0.1.0"),
    }
}

fn find_first_member(ms: &Vec<ClusterMember>, node_id: u64) -> (r: Option<usize>)
    ensures
        match r {
            Some(j) => j < ms@.len() && first_member(member_views(ms@), node_id) == Some(j as int),
            None => first_member(member_views(ms@), node_id) is None,
        },
{
    let ghost v = member_views(ms@);
    let mut j: usize = 0;
    while j < ms.len()
        invariant
            j <= ms@.len(),
            v == member_views(ms@),
            forall|k: int| 0 <= k < j ==> #[trigger] v[k].node_id != node_id,
        decreases ms@.len() - j,
    {
        if ms[j].node_id == node_id {
            proof {
                assert(v[j as int].node_id == node_id);
                let w = choose|w: int| 0 <= w < v.len() && #[trigger] v[w].node_id == node_id
                    && forall|k: int| 0 <= k < w ==> #[trigger] v[k].node_id != node_id;
                if w < j as int {
                    assert(v[w].node_id != node_id);
                } else if w > j as int {
                    assert(v[j as int].node_id != node_id);
                }
            }
            return Some(j);
        }
        j = j + 1;
    }
    None
}

/// Service discovery coordinator.
#[derive(Debug)]
pub struct ClusterDiscovery {
    clusters: Vec<ClusterInfo>,
    discovery_timeout_ms: u64,
    heartbeat_interval_ms: u64,
    local_node_id: Option<u64>,
    local_cluster_id: Option<String>,
}

impl ClusterDiscovery {
    /// What the cache holds, one entry per cluster.
    pub closed spec fn table(&self) -> Seq<ClusterView> {
        self.clusters@.map_values(|c: ClusterInfo| cluster_view(c))
    }

    /// This node's id and cluster, when set.
    pub closed spec fn local(&self) -> (Option<u64>, Option<Seq<char>>) {
        (self.local_node_id, match self.local_cluster_id { Some(c) => Some(c@), None => None })
    }

    /// The (discovery timeout, heartbeat interval) in milliseconds.
    pub closed spec fn timeouts(&self) -> (u64, u64) {
        (self.discovery_timeout_ms, self.heartbeat_interval_ms)
    }

    /// Well-formed: one cache entry per cluster.
    pub open spec fn wf(&self) -> bool {
        forall|i: int, j: int| 0 <= i < j < self.table().len() ==> self.table()[i].cluster_id != self.table()[j].cluster_id
    }

    /// A coordinator with an empty cache, a 30 s discovery timeout and a
    /// 10 s heartbeat interval, for no node in particular.
    pub fn new() -> (r: Result<Self, RaftError>)
        ensures
            r matches Ok(d) && d.wf() && d.table().len() == 0 && d.local() == (None::<u64>, None::<Seq<char>>)
                && d.timeouts() == (30_000u64, 10_000u64),
    {
        let d = ClusterDiscovery {
            clusters: Vec::new(),
            discovery_timeout_ms: 30_000,
            heartbeat_interval_ms: 10_000,
            local_node_id: None,
            local_cluster_id: None,
        };
        assert(d.table() =~= Seq::<ClusterView>::empty());
        Ok(d)
    }

    /// A coordinator for a node of a cluster.
    pub fn new_for_node(node_id: u64, cluster_id: String) -> (r: Result<Self, RaftError>)
        ensures
            r matches Ok(d) && d.wf() && d.table().len() == 0 && d.local() == (Some(node_id), Some(cluster_id@))
                && d.timeouts() == (30_000u64, 10_000u64),
    {
        let d = ClusterDiscovery {
            clusters: Vec::new(),
            discovery_timeout_ms: 30_000,
            heartbeat_interval_ms: 10_000,
            local_node_id: Some(node_id),
            local_cluster_id: Some(cluster_id),
        };
        assert(d.table() =~= Seq::<ClusterView>::empty());
        Ok(d)
    }

    /// Set the discovery timeout and heartbeat interval.
    pub fn with_timeouts(self, discovery_timeout_ms: u64, heartbeat_interval_ms: u64) -> (r: Self)
        ensures
            r.table() == self.table(),
            r.local() == self.local(),
            r.timeouts() == (discovery_timeout_ms, heartbeat_interval_ms),
    {
        let mut d = self;
        d.discovery_timeout_ms = discovery_timeout_ms;
        d.heartbeat_interval_ms = heartbeat_interval_ms;
        d
    }

    fn find_cluster(&self, cluster_id: &String) -> (r: Option<usize>)
        requires
            self.wf(),
        ensures
            match r {
                Some(i) => i < self.table().len() && cluster_position(self.table(), cluster_id@) == Some(i as int),
                None => cluster_position(self.table(), cluster_id@) is None,
            },
    {
        let mut i: usize = 0;
        while i < self.clusters.len()
            invariant
                i <= self.table().len(),
                self.wf(),
                forall|k: int| 0 <= k < i ==> #[trigger] self.table()[k].cluster_id != cluster_id@,
            decreases self.table().len() - i,
        {
            assert(self.table()[i as int].cluster_id == self.clusters@[i as int].cluster_id@);
            if crate::text::str_eq(self.clusters[i].cluster_id.as_str(), cluster_id.as_str()) {
                proof {
                    let w = choose|w: int| 0 <= w < self.table().len() && #[trigger] self.table()[w].cluster_id == cluster_id@;
                    if w != i as int {
                        if w < i as int { assert(self.table()[w].cluster_id != cluster_id@); }
                        else { assert(self.table()[i as int].cluster_id != self.table()[w].cluster_id); }
                    }
                }
                return Some(i);
            }
            i = i + 1;
        }
        None
    }

    fn store(&mut self, info: ClusterInfo)
        requires
            old(self).wf(),
        ensures
            final(self).wf(),
            final(self).local() == old(self).local(),
            final(self).timeouts() == old(self).timeouts(),
            final(self).table() == upsert(old(self).table(), cluster_view(info)),
    {
        let ghost before = self.table();
        let ghost v = cluster_view(info);
        match self.find_cluster(&info.cluster_id) {
            Some(i) => {
                self.clusters.set(i, info);
                proof {
                    assert(self.table() =~= before.update(i as int, v));
                    assert forall|a: int, b: int| 0 <= a < b < self.table().len() implies self.table()[a].cluster_id != self.table()[b].cluster_id by {
                        assert(before[a].cluster_id != before[b].cluster_id);
                    }
                }
            },
            None => {
                self.clusters.push(info);
                proof {
                    assert(self.table() =~= before.push(v));
                    assert forall|a: int, b: int| 0 <= a < b < self.table().len() implies self.table()[a].cluster_id != self.table()[b].cluster_id by {
                        if b == before.len() {
                            assert(before[a].cluster_id != v.cluster_id);
                        }
                    }
                }
            },
        }
    }

    fn replace_members(&mut self, i: usize, members: Vec<ClusterMember>)
        requires
            old(self).wf(),
            i < old(self).table().len(),
        ensures
            final(self).wf(),
            final(self).local() == old(self).local(),
            final(self).timeouts() == old(self).timeouts(),
            final(self).table() == old(self).table().update(i as int, ClusterView { members: member_views(members@), ..old(self).table()[i as int] }),
    {
        let ghost before = self.table();
        let mut info = self.clusters.remove(i);
        info.members = members;
        self.clusters.insert(i, info);
        proof {
            assert(self.table() =~= before.update(i as int, ClusterView { members: member_views(members@), ..before[i as int] }));
            assert forall|a: int, b: int| 0 <= a < b < self.table().len() implies self.table()[a].cluster_id != self.table()[b].cluster_id by {
                assert(before[a].cluster_id != before[b].cluster_id);
            }
        }
    }

    /// A cached cluster, or, when there is none or it is a minute old, the
    /// result of active discovery at `now_ms`.
    pub fn discover_cluster_at(&mut self, cluster_id: &str, now_ms: u64) -> (r: Result<ClusterInfo, RaftError>)
        requires
            old(self).wf(),
        ensures
            final(self).wf(),
            final(self).local() == old(self).local(),
            final(self).timeouts() == old(self).timeouts(),
            lookup_or_discover(old(self).table(), cluster_id@, now_ms, final(self).table(), r),
    {
        let id = String::from_str(cluster_id);
        match self.find_cluster(&id) {
            Some(i) => {
                let at = self.clusters[i].discovered_at_ms;
                if at <= now_ms && now_ms - at < 60_000 {
                    return Ok(copy_info(&self.clusters[i]));
                }
            },
            None => {},
        }
        self.perform_cluster_discovery(cluster_id, now_ms)
    }

    /// A cached cluster, or the result of active discovery, by the system
    /// clock.
    pub fn discover_cluster(&mut self, cluster_id: &str) -> (r: Result<ClusterInfo, RaftError>)
        requires
            old(self).wf(),
        ensures
            final(self).wf(),
            final(self).local() == old(self).local(),
            final(self).timeouts() == old(self).timeouts(),
            exists|now_ms: u64| #[trigger] lookup_or_discover(old(self).table(), cluster_id@, now_ms, final(self).table(), r),
    {
        let now = crate::clock::system_now_ms();
        self.discover_cluster_at(cluster_id, now)
    }

    /// Active discovery of a cluster at `now_ms`; its result is cached.
    pub fn perform_cluster_discovery(&mut self, cluster_id: &str, now_ms: u64) -> (r: Result<ClusterInfo, RaftError>)
        requires
            old(self).wf(),
        ensures
            final(self).wf(),
            final(self).local() == old(self).local(),
            final(self).timeouts() == old(self).timeouts(),
            final(self).table() == upsert(old(self).table(), discovered(cluster_id@, now_ms)),
            r matches Ok(c) && cluster_view(c) == discovered(cluster_id@, now_ms),
    {
        let mut members: Vec<ClusterMember> = Vec::new();
        members.push(member_at(1, "127.0.0.1:8080", now_ms));
        members.push(member_at(2, "127.0.0.1:8081", now_ms));
        members.push(member_at(3, "127.0.0.1:8082", now_ms));
        let info = ClusterInfo {
            cluster_id: String::from_str(cluster_id),
            members,
            leader: Some(1),
            version: String::from_str("0.1.0"),
            discovered_at_ms: now_ms,
        };
        assert(cluster_view(info).members =~= fixed_members(now_ms));
        let cached = copy_info(&info);
        self.store(cached);
        Ok(info)
    }

    /// The announcement this node would broadcast; nothing is sent yet.
    pub fn announce_presence(&self, node_id: u64, cluster_id: String, role: MemberRole, endpoints: Vec<String>, health: HealthStatus, raft_state: Option<RaftState>) -> (r: Result<DiscoveryMessage, RaftError>)
        ensures
            r matches Ok(DiscoveryMessage::Announce { node_id: n, cluster_id: c, role: ro, version, endpoints: e, health: h, raft_state: rs })
                && n == node_id && c == cluster_id && ro == role && version@ == local_version()
                && e == endpoints && h == health && rs == raft_state,
    {
        Ok(DiscoveryMessage::Announce {
            node_id,
            cluster_id,
            role,
            version: String::from_str("0.1.0"),
            endpoints,
            health,
            raft_state,
        })
    }

    /// Ask to join a cluster; the answer is a success with nothing else
    /// known yet.
    pub fn request_bootstrap(&self, node_id: u64, cluster_id: String, endpoints: Vec<String>) -> (r: Result<BootstrapResponse, RaftError>)
        ensures
            r matches Ok(b) && b.success && b.initial_members is None && b.leader is None && b.error is None,
    {
        Ok(BootstrapResponse { success: true, initial_members: None, leader: None, error: None })
    }

    /// The heartbeat this node sends at `now_ms`, when it belongs to a
    /// cluster.
    pub fn heartbeat_message(&self, now_ms: u64) -> (r: Option<DiscoveryMessage>)
        ensures
            match self.local() {
                (Some(n), Some(c)) => r matches Some(DiscoveryMessage::Heartbeat { node_id, cluster_id, health, timestamp_ms })
                    && node_id == n && cluster_id@ == c && health == HealthStatus::Healthy && timestamp_ms == now_ms,
                _ => r is None,
            },
    {
        match (self.local_node_id, &self.local_cluster_id) {
            (Some(node_id), Some(cluster_id)) => Some(DiscoveryMessage::Heartbeat {
                node_id,
                cluster_id: cluster_id.clone(),
                health: HealthStatus::Healthy,
                timestamp_ms: now_ms,
            }),
            _ => None,
        }
    }

    #[verifier::spinoff_prover]
    #[verifier::rlimit(40)]
    fn update_member_info(&mut self, cluster_id: String, node_id: u64, endpoints: &Vec<String>, role: MemberRole, health: HealthStatus, now_ms: u64)
        requires
            old(self).wf(),
        ensures
            final(self).wf(),
            final(self).local() == old(self).local(),
            final(self).timeouts() == old(self).timeouts(),
            final(self).table() == announced_table(old(self).table(), cluster_id@, node_id, first_endpoint(endpoints@), role, health, now_ms),
    {
        let ghost t0 = self.table();
        if self.find_cluster(&cluster_id).is_none() {
            let fresh = ClusterInfo {
                cluster_id: cluster_id.clone(),
                members: Vec::new(),
                leader: None,
                version: String::from_str("0.1.0"),
                discovered_at_ms: now_ms,
            };
            assert(cluster_view(fresh).members =~= Seq::<MemberView>::empty());
            self.store(fresh);
        }
        let ghost t1 = self.table();
        let i = match self.find_cluster(&cluster_id) {
            Some(i) => i,
            None => {
                proof {
                    assert(t1[t1.len() - 1].cluster_id == cluster_id@);
                }
                0
            },
        };
        let mut members = copy_members(&self.clusters[i].members);
        let ghost ms = member_views(members@);
        let endpoint: Option<&String> = if endpoints.len() > 0 { Some(&endpoints[0]) } else { None };
        match find_first_member(&members, node_id) {
            Some(j) => {
                let mut m = members.remove(j);
                match endpoint {
                    Some(a) => { m.address = a.clone(); },
                    None => {},
                }
                m.role = role;
                m.health = health;
                m.last_seen_ms = now_ms;
                members.insert(j, m);
            },
            None => {
                let address = match endpoint {
                    Some(a) => a.clone(),
                    None => String::from_str("unknown"),
                };
                members.push(ClusterMember {
                    node_id,
                    address,
                    role,
                    health,
                    last_seen_ms: now_ms,
                    version: String::from_str("0.1.0"),
                });
            },
        }
        assert(member_views(members@) =~= announced(ms, node_id, first_endpoint(endpoints@), role, health, now_ms));
        self.replace_members(i, members);
    }

    fn update_member_health(&mut self, cluster_id: &String, node_id: u64, health: HealthStatus, now_ms: u64)
        requires
            old(self).wf(),
        ensures
            final(self).wf(),
            final(self).local() == old(self).local(),
            final(self).timeouts() == old(self).timeouts(),
            final(self).table() == (match cluster_position(old(self).table(), cluster_id@) {
                Some(i) => old(self).table().update(i, ClusterView { members: heartbeat_seen(old(self).table()[i].members, node_id, health, now_ms), ..old(self).table()[i] }),
                None => old(self).table(),
            }),
    {
        match self.find_cluster(cluster_id) {
            Some(i) => {
                let mut members = copy_members(&self.clusters[i].members);
                let ghost ms = member_views(members@);
                match find_first_member(&members, node_id) {
                    Some(j) => {
                        let mut m = members.remove(j);
                        m.health = health;
                        m.last_seen_ms = now_ms;
                        members.insert(j, m);
                    },
                    None => {},
                }
                assert(member_views(members@) =~= heartbeat_seen(ms, node_id, health, now_ms));
                self.replace_members(i, members);
            },
            None => {},
        }
    }

    fn remove_member(&mut self, cluster_id: &String, node_id: u64)
        requires
            old(self).wf(),
        ensures
            final(self).wf(),
            final(self).local() == old(self).local(),
            final(self).timeouts() == old(self).timeouts(),
            final(self).table() == (match cluster_position(old(self).table(), cluster_id@) {
                Some(i) => old(self).table().update(i, ClusterView { members: departed(old(self).table()[i].members, node_id), ..old(self).table()[i] }),
                None => old(self).table(),
            }),
    {
        match self.find_cluster(cluster_id) {
            Some(i) => {
                let kept = keep_members(&self.clusters[i].members, KeepRule::NotNode(node_id));
                proof {
                    let p1 = |m: MemberView| m.node_id != node_id;
                    let p2 = |m: MemberView| keeps(KeepRule::NotNode(node_id), m);
                    assert(p1 =~= p2);
                    assert(self.table()[i as int].members == member_views(self.clusters@[i as int].members@));
                }
                self.replace_members(i, kept);
            },
            None => {},
        }
    }

    /// Handle an incoming discovery message at `now_ms`: update the cache,
    /// and say what to answer, if anything.
    pub fn process_discovery_message_at(&mut self, message: DiscoveryMessage, now_ms: u64) -> (r: Result<Option<DiscoveryMessage>, RaftError>)
        requires
            old(self).wf(),
        ensures
            final(self).wf(),
            final(self).local() == old(self).local(),
            final(self).timeouts() == old(self).timeouts(),
            discovery_step(old(self).table(), old(self).local(), message, now_ms, final(self).table(), r),
    {
        match message {
            DiscoveryMessage::QueryCluster { cluster_id, requesting_node } => {
                match self.find_cluster(&cluster_id) {
                    Some(i) => {
                        let members = copy_members(&self.clusters[i].members);
                        let responding = match self.local_node_id { Some(n) => n, None => 0 };
                        Ok(Some(DiscoveryMessage::ClusterInfo {
                            cluster_id,
                            members,
                            leader: self.clusters[i].leader,
                            responding_node: responding,
                        }))
                    },
                    None => Ok(None),
                }
            },
            DiscoveryMessage::ClusterInfo { cluster_id, members, leader, responding_node } => {
                let info = ClusterInfo {
                    cluster_id,
                    members,
                    leader,
                    version: String::from_str("0.1.0"),
                    discovered_at_ms: now_ms,
                };
                self.store(info);
                Ok(None)
            },
            DiscoveryMessage::Announce { node_id, cluster_id, role, version, endpoints, health, raft_state } => {
                self.update_member_info(cluster_id, node_id, &endpoints, role, health, now_ms);
                Ok(None)
            },
            DiscoveryMessage::BootstrapRequest { node_id, cluster_id, endpoints, version } => {
                let local_match = match &self.local_cluster_id {
                    Some(l) => crate::text::str_eq(l.as_str(), cluster_id.as_str()),
                    None => false,
                };
                if local_match {
                    match self.find_cluster(&cluster_id) {
                        Some(i) => Ok(Some(DiscoveryMessage::BootstrapResponse {
                            success: true,
                            initial_members: Some(copy_members(&self.clusters[i].members)),
                            leader: self.clusters[i].leader,
                            error: None,
                        })),
                        None => Ok(None),
                    }
                } else {
                    Ok(None)
                }
            },
            DiscoveryMessage::Heartbeat { node_id, cluster_id, health, timestamp_ms } => {
                self.update_member_health(&cluster_id, node_id, health, now_ms);
                Ok(None)
            },
            DiscoveryMessage::Departure { node_id, cluster_id, reason } => {
                self.remove_member(&cluster_id, node_id);
                Ok(None)
            },
            DiscoveryMessage::BootstrapResponse { .. } => Ok(None),
        }
    }

    /// Handle an incoming discovery message now.
    pub fn process_discovery_message(&mut self, message: DiscoveryMessage) -> (r: Result<Option<DiscoveryMessage>, RaftError>)
        requires
            old(self).wf(),
        ensures
            final(self).wf(),
            final(self).local() == old(self).local(),
            final(self).timeouts() == old(self).timeouts(),
            exists|now_ms: u64| discovery_step(old(self).table(), old(self).local(), message, now_ms, final(self).table(), r),
    {
        let now = crate::clock::system_now_ms();
        self.process_discovery_message_at(message, now)
    }

    /// The cached information, one entry per cluster.
    pub fn get_known_clusters(&self) -> (r: Vec<ClusterInfo>)
        ensures
            r@.map_values(|c: ClusterInfo| cluster_view(c)) == self.table(),
    {
        let mut out: Vec<ClusterInfo> = Vec::new();
        let mut i: usize = 0;
        while i < self.clusters.len()
            invariant
                i <= self.clusters@.len(),
                out@.map_values(|c: ClusterInfo| cluster_view(c)) == self.table().take(i as int),
            decreases self.clusters@.len() - i,
        {
            let c = copy_info(&self.clusters[i]);
            let ghost before = out@;
            let ghost cv = cluster_view(c);
            out.push(c);
            assert(cv == self.table()[i as int]);
            assert(out@ == before.push(c));
            assert(out@.map_values(|c: ClusterInfo| cluster_view(c)) =~= before.map_values(|c: ClusterInfo| cluster_view(c)).push(cv));
            assert(self.table().take(i as int + 1) =~= self.table().take(i as int).push(self.table()[i as int]));
            i = i + 1;
        }
        assert(self.table().take(self.clusters@.len() as int) =~= self.table());
        out
    }

    /// Forget all cached information.
    pub fn clear_cache(&mut self)
        ensures
            final(self).table().len() == 0,
            final(self).local() == old(self).local(),
            final(self).timeouts() == old(self).timeouts(),
    {
        self.clusters = Vec::new();
        assert(self.table() =~= Seq::<ClusterView>::empty());
    }

    /// Forget the members last seen `max_age_ms` or more before `now_ms`.
    pub fn cleanup_stale_members(&mut self, max_age_ms: u64, now_ms: u64) -> (r: Result<(), RaftError>)
        requires
            old(self).wf(),
        ensures
            final(self).wf(),
            final(self).local() == old(self).local(),
            final(self).timeouts() == old(self).timeouts(),
            final(self).table().len() == old(self).table().len(),
            forall|i: int| 0 <= i < old(self).table().len() ==> #[trigger] final(self).table()[i]
                == (ClusterView { members: fresh_members(old(self).table()[i].members, max_age_ms, now_ms), ..old(self).table()[i] }),
            r is Ok,
    {
        let ghost t0 = self.table();
        let mut i: usize = 0;
        while i < self.clusters.len()
            invariant
                i <= self.table().len(),
                self.wf(),
                self.table().len() == t0.len(),
                self.local() == old(self).local(),
                self.timeouts() == old(self).timeouts(),
                forall|k: int| 0 <= k < i ==> #[trigger] self.table()[k]
                    == (ClusterView { members: fresh_members(t0[k].members, max_age_ms, now_ms), ..t0[k] }),
                forall|k: int| i <= k < t0.len() ==> #[trigger] self.table()[k] == t0[k],
            decreases t0.len() - i,
        {
            let kept = keep_members(&self.clusters[i].members, KeepRule::YoungerThan { max_age_ms, now_ms });
            proof {
                let p1 = |m: MemberView| (if now_ms >= m.last_seen_ms { now_ms - m.last_seen_ms } else { 0 }) < max_age_ms;
                let p2 = |m: MemberView| keeps(KeepRule::YoungerThan { max_age_ms, now_ms }, m);
                assert(p1 =~= p2);
                assert(self.table()[i as int] == t0[i as int]);
                assert(self.table()[i as int].members == member_views(self.clusters@[i as int].members@));
            }
            assert(self.table()[i as int] == t0[i as int]);
            self.replace_members(i, kept);
            i = i + 1;
        }
        Ok(())
    }
}

/// A discovered cluster: the fixed members with node 1 leading.
pub open spec fn discovered(cluster_id: Seq<char>, now_ms: u64) -> ClusterView {
    ClusterView {
        cluster_id,
        members: fixed_members(now_ms),
        leader: Some(1),
        version: local_version(),
        discovered_at_ms: now_ms,
    }
}

/// The cache after an announcement: the cluster is added empty if it is
/// unknown, then its members are updated.
pub open spec fn announced_table(t: Seq<ClusterView>, cluster_id: Seq<char>, node_id: u64, endpoint: Option<Seq<char>>, role: MemberRole, health: HealthStatus, now_ms: u64) -> Seq<ClusterView> {
    let t1 = if cluster_position(t, cluster_id) is Some {
        t
    } else {
        t.push(ClusterView { cluster_id, members: Seq::empty(), leader: None, version: local_version(), discovered_at_ms: now_ms })
    };
    let i = cluster_position(t1, cluster_id)->0;
    t1.update(i, ClusterView { members: announced(t1[i].members, node_id, endpoint, role, health, now_ms), ..t1[i] })
}

/// One step of discovery: the cache `t1` and the answer `r` after message
/// `m` arrives at `now_ms` at a node whose cache was `t0`.
pub open spec fn discovery_step(t0: Seq<ClusterView>, local: (Option<u64>, Option<Seq<char>>), m: DiscoveryMessage, now_ms: u64, t1: Seq<ClusterView>, r: Result<Option<DiscoveryMessage>, RaftError>) -> bool {
    match m {
        DiscoveryMessage::QueryCluster { cluster_id, .. } => t1 == t0 && match cluster_position(t0, cluster_id@) {
            Some(i) => r matches Ok(Some(DiscoveryMessage::ClusterInfo { cluster_id: c, members, leader, responding_node }))
                && c@ == cluster_id@ && member_views(members@) == t0[i].members && leader == t0[i].leader
                && responding_node == (match local.0 { Some(n) => n, None => 0 }),
            None => r matches Ok(None),
        },
        DiscoveryMessage::ClusterInfo { cluster_id, members, leader, .. } => r matches Ok(None)
            && t1 == upsert(t0, ClusterView { cluster_id: cluster_id@, members: member_views(members@), leader, version: local_version(), discovered_at_ms: now_ms }),
        DiscoveryMessage::Announce { node_id, cluster_id, role, endpoints, health, .. } => r matches Ok(None)
            && t1 == announced_table(t0, cluster_id@, node_id, first_endpoint(endpoints@), role, health, now_ms),
        DiscoveryMessage::BootstrapRequest { cluster_id, .. } => t1 == t0 && (
            if local.1 == Some(cluster_id@) && cluster_position(t0, cluster_id@) is Some {
                let i = cluster_position(t0, cluster_id@)->0;
                r matches Ok(Some(DiscoveryMessage::BootstrapResponse { success, initial_members, leader, error }))
                    && success && (initial_members matches Some(ms) && member_views(ms@) == t0[i].members)
                    && leader == t0[i].leader && error is None
            } else {
                r matches Ok(None)
            }),
        DiscoveryMessage::Heartbeat { node_id, cluster_id, health, .. } => r matches Ok(None) && t1 == (match cluster_position(t0, cluster_id@) {
            Some(i) => t0.update(i, ClusterView { members: heartbeat_seen(t0[i].members, node_id, health, now_ms), ..t0[i] }),
            None => t0,
        }),
        DiscoveryMessage::Departure { node_id, cluster_id, .. } => r matches Ok(None) && t1 == (match cluster_position(t0, cluster_id@) {
            Some(i) => t0.update(i, ClusterView { members: departed(t0[i].members, node_id), ..t0[i] }),
            None => t0,
        }),
        DiscoveryMessage::BootstrapResponse { .. } => t1 == t0 && r matches Ok(None),
    }
}

/// Each cluster is cached at most once.
pub open spec fn distinct_clusters(t: Seq<ClusterView>) -> bool {
    forall|i: int, j: int| 0 <= i < j < t.len() ==> t[i].cluster_id != t[j].cluster_id
}

/// Storing a cluster's view puts it where a lookup of its id finds it.
proof fn lemma_upsert_found(t0: Seq<ClusterView>, v: ClusterView)
    requires
        distinct_clusters(t0),
    ensures
        cluster_position(upsert(t0, v), v.cluster_id) matches Some(i) && upsert(t0, v)[i] == v,
{
    let t1 = upsert(t0, v);
    let id = v.cluster_id;
    match cluster_position(t0, id) {
        Some(i) => {
            assert(t1[i].cluster_id == id);
            let j = choose|j: int| 0 <= j < t1.len() && #[trigger] t1[j].cluster_id == id;
            if j != i {
                assert(t0[j].cluster_id == id);
                if j < i { assert(t0[j].cluster_id != t0[i].cluster_id); }
                else { assert(t0[i].cluster_id != t0[j].cluster_id); }
            }
        },
        None => {
            assert(t1[t0.len() as int].cluster_id == id);
            let j = choose|j: int| 0 <= j < t1.len() && #[trigger] t1[j].cluster_id == id;
            if j < t0.len() {
                assert(t0[j].cluster_id == id);
            }
        },
    }
}

/// A query for a cluster right after a message that recorded it is
/// answered with what that message recorded: its id, members and leader,
/// from this node (0 when it has no id), and the cache is left as it was.
pub proof fn lemma_query_answers_recorded(
    t0: Seq<ClusterView>,
    local: (Option<u64>, Option<Seq<char>>),
    cluster_id: String,
    members: Vec<ClusterMember>,
    leader: Option<u64>,
    responding_node: u64,
    now1: u64,
    t1: Seq<ClusterView>,
    r1: Result<Option<DiscoveryMessage>, RaftError>,
    query_id: String,
    requesting_node: u64,
    now2: u64,
    t2: Seq<ClusterView>,
    r2: Result<Option<DiscoveryMessage>, RaftError>,
)
    requires
        distinct_clusters(t0),
        query_id@ == cluster_id@,
        discovery_step(t0, local, (DiscoveryMessage::ClusterInfo { cluster_id, members, leader, responding_node }), now1, t1, r1),
        discovery_step(t1, local, (DiscoveryMessage::QueryCluster { cluster_id: query_id, requesting_node }), now2, t2, r2),
    ensures
        r1 matches Ok(None),
        t2 == t1,
        r2 matches Ok(Some(DiscoveryMessage::ClusterInfo { cluster_id: c, members: ms, leader: l, responding_node: n }))
            && c@ == cluster_id@ && member_views(ms@) == member_views(members@) && l == leader
            && n == (match local.0 { Some(x) => x, None => 0 }),
{
    let v = ClusterView { cluster_id: cluster_id@, members: member_views(members@), leader, version: local_version(), discovered_at_ms: now1 };
    lemma_upsert_found(t0, v);
}

/// Which members to keep.
#[derive(Clone, Copy)]
enum KeepRule {
    /// Those of other nodes
    NotNode(u64),
    /// Those seen less than `max_age_ms` before `now_ms`
    YoungerThan { max_age_ms: u64, now_ms: u64 },
}

/// Whether a rule keeps a member.
spec fn keeps(rule: KeepRule, v: MemberView) -> bool {
    match rule {
        KeepRule::NotNode(n) => v.node_id != n,
        KeepRule::YoungerThan { max_age_ms, now_ms } =>
            (if now_ms >= v.last_seen_ms { now_ms - v.last_seen_ms } else { 0 }) < max_age_ms,
    }
}

/// Keep the members a rule keeps, in order.
fn keep_members(v: &Vec<ClusterMember>, rule: KeepRule) -> (r: Vec<ClusterMember>)
    ensures
        member_views(r@) == member_views(v@).filter(|m: MemberView| keeps(rule, m)),
{
    let ghost pred = |m: MemberView| keeps(rule, m);
    let ghost orig = member_views(v@);
    let mut out: Vec<ClusterMember> = Vec::new();
    let mut i: usize = 0;
    while i < v.len()
        invariant
            i <= v@.len(),
            orig == member_views(v@),
            pred == (|m: MemberView| keeps(rule, m)),
            member_views(out@) == orig.take(i as int).filter(pred),
        decreases v@.len() - i,
    {
        proof { crate::seqs::lemma_filter_take_step(orig, pred, i as int); }
        let m = &v[i];
        let keep = match rule {
            KeepRule::NotNode(n) => m.node_id != n,
            KeepRule::YoungerThan { max_age_ms, now_ms } =>
                (if now_ms >= m.last_seen_ms { now_ms - m.last_seen_ms } else { 0 }) < max_age_ms,
        };
        assert(keep == pred(orig[i as int]));
        if keep {
            let c = ClusterMember {
                node_id: m.node_id,
                address: m.address.clone(),
                role: m.role,
                health: m.health,
                last_seen_ms: m.last_seen_ms,
                version: m.version.clone(),
            };
            let ghost before = out@;
            out.push(c);
            assert(member_views(out@) =~= member_views(before).push(orig[i as int]));
        }
        i = i + 1;
    }
    proof { crate::seqs::lemma_take_all(orig); }
    out
}

} // verus!
