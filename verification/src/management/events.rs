//! Cluster events: what happened, filters over events, and a bounded
//! history of past events.
//!
//! Delivering events to subscribers (channels, streams) happens outside;
//! subscribers use [`EventFilter::matches`] to pick the events they want.
//! Times are milliseconds since the Unix epoch, durations milliseconds.

use vstd::prelude::*;
use vstd::string::StringExecFns;
use super::{MemberRole, HealthStatus};

verus! {

/// The JSON value type of the `serde_json` crate.
#[verifier::external_type_specification]
#[verifier::external_body]
pub struct ExJsonValue(serde_json::Value);

/// Events that happen in the cluster.
#[derive(Debug)]
pub enum ClusterEvent {
    /// A new leader was elected
    LeaderElected { new_leader: u64, term: u64, previous_leader: Option<u64>, timestamp_ms: u64 },
    /// Leadership was transferred
    LeadershipTransferred { from_leader: u64, to_leader: u64, term: u64, duration_ms: u64, timestamp_ms: u64 },
    /// The leader stepped down
    LeaderSteppedDown { leader: u64, term: u64, reason: String, timestamp_ms: u64 },
    /// A member was added
    MemberAdded { node_id: u64, role: MemberRole, address: String, timestamp_ms: u64 },
    /// A member was removed
    MemberRemoved { node_id: u64, reason: String, timestamp_ms: u64 },
    /// A member changed role
    MemberRoleChanged { node_id: u64, old_role: MemberRole, new_role: MemberRole, timestamp_ms: u64 },
    /// A member's health changed
    MemberHealthChanged { node_id: u64, old_status: HealthStatus, new_status: HealthStatus, timestamp_ms: u64 },
    /// The configuration changed
    ConfigurationChanged { version: u64, changes: Vec<ConfigChange>, timestamp_ms: u64 },
    /// A snapshot completed
    SnapshotCompleted { index: u64, term: u64, size_bytes: u64, duration_ms: u64, timestamp_ms: u64 },
    /// A snapshot failed
    SnapshotFailed { index: u64, term: u64, error: String, timestamp_ms: u64 },
    /// An application-defined event
    Custom { event_type: String, data: serde_json::Value, timestamp_ms: u64 },
}

/// One changed configuration field.
#[derive(Debug)]
pub struct ConfigChange {
    /// Field that changed
    pub field: String,
    /// Value before the change
    pub old_value: serde_json::Value,
    /// Value after the change
    pub new_value: serde_json::Value,
}

/// Selection of events by type, node and time.
#[derive(Debug, Clone)]
pub struct EventFilter {
    /// Event types to keep (all when empty)
    pub event_types: Vec<String>,
    /// Nodes to keep (all when empty; events about no node always pass)
    pub node_ids: Vec<u64>,
    /// Earliest time to keep
    pub since_ms: Option<u64>,
    /// Latest time to keep
    pub until_ms: Option<u64>,
}

/// The type name of an event.
pub open spec fn event_type_name(e: ClusterEvent) -> Seq<char> {
    match e {
        ClusterEvent::LeaderElected { .. } => "leader_elected"@,
        ClusterEvent::LeadershipTransferred { .. } => "leadership_transferred"@,
        ClusterEvent::LeaderSteppedDown { .. } => "leader_stepped_down"@,
        ClusterEvent::MemberAdded { .. } => "member_added"@,
        ClusterEvent::MemberRemoved { .. } => "member_removed"@,
        ClusterEvent::MemberRoleChanged { .. } => "member_role_changed"@,
        ClusterEvent::MemberHealthChanged { .. } => "member_health_changed"@,
        ClusterEvent::ConfigurationChanged { .. } => "configuration_changed"@,
        ClusterEvent::SnapshotCompleted { .. } => "snapshot_completed"@,
        ClusterEvent::SnapshotFailed { .. } => "snapshot_failed"@,
        ClusterEvent::Custom { event_type, .. } => event_type@,
    }
}

/// The time of an event.
pub open spec fn event_time(e: ClusterEvent) -> u64 {
    match e {
        ClusterEvent::LeaderElected { timestamp_ms, .. } => timestamp_ms,
        ClusterEvent::LeadershipTransferred { timestamp_ms, .. } => timestamp_ms,
        ClusterEvent::LeaderSteppedDown { timestamp_ms, .. } => timestamp_ms,
        ClusterEvent::MemberAdded { timestamp_ms, .. } => timestamp_ms,
        ClusterEvent::MemberRemoved { timestamp_ms, .. } => timestamp_ms,
        ClusterEvent::MemberRoleChanged { timestamp_ms, .. } => timestamp_ms,
        ClusterEvent::MemberHealthChanged { timestamp_ms, .. } => timestamp_ms,
        ClusterEvent::ConfigurationChanged { timestamp_ms, .. } => timestamp_ms,
        ClusterEvent::SnapshotCompleted { timestamp_ms, .. } => timestamp_ms,
        ClusterEvent::SnapshotFailed { timestamp_ms, .. } => timestamp_ms,
        ClusterEvent::Custom { timestamp_ms, .. } => timestamp_ms,
    }
}

/// The node an event is about, if any: the new or receiving leader, the
/// leader that stepped down, or the member concerned.
pub open spec fn event_node(e: ClusterEvent) -> Option<u64> {
    match e {
        ClusterEvent::LeaderElected { new_leader, .. } => Some(new_leader),
        ClusterEvent::LeadershipTransferred { to_leader, .. } => Some(to_leader),
        ClusterEvent::LeaderSteppedDown { leader, .. } => Some(leader),
        ClusterEvent::MemberAdded { node_id, .. } => Some(node_id),
        ClusterEvent::MemberRemoved { node_id, .. } => Some(node_id),
        ClusterEvent::MemberRoleChanged { node_id, .. } => Some(node_id),
        ClusterEvent::MemberHealthChanged { node_id, .. } => Some(node_id),
        _ => None,
    }
}

/// A filter keeps an event: its type is listed (or none are), its node is
/// listed (or none are, or it concerns no node), and its time lies within
/// the bounds that are set.
pub open spec fn filter_keeps(f: EventFilter, e: ClusterEvent) -> bool {
    &&& (f.event_types@.len() == 0 || exists|i: int| 0 <= i < f.event_types@.len() && #[trigger] f.event_types@[i]@ == event_type_name(e))
    &&& (f.node_ids@.len() == 0 || event_node(e) is None || f.node_ids@.contains(event_node(e)->0))
    &&& (f.since_ms matches Some(s) ==> event_time(e) >= s)
    &&& (f.until_ms matches Some(u) ==> event_time(e) <= u)
}

/// A filter never keeps an event from before its `since` bound or after its
/// `until` bound, whatever its other conditions.
pub proof fn lemma_filter_respects_time_bounds(f: EventFilter, e: ClusterEvent)
    ensures
        (f.since_ms matches Some(s) && event_time(e) < s) ==> !filter_keeps(f, e),
        (f.until_ms matches Some(u) && event_time(e) > u) ==> !filter_keeps(f, e),
{
}

/// A filter drops an event whose type it does not list (when it lists
/// any), and an event about a node it does not list (when it lists any);
/// it keeps an event whose type and node pass and whose time lies within
/// the bounds it sets.
pub proof fn lemma_filter_decides(f: EventFilter, e: ClusterEvent)
    ensures
        (f.event_types@.len() > 0 && forall|i: int| 0 <= i < f.event_types@.len() ==> #[trigger] f.event_types@[i]@ != event_type_name(e))
            ==> !filter_keeps(f, e),
        (f.node_ids@.len() > 0 && (event_node(e) matches Some(n) && !f.node_ids@.contains(n)))
            ==> !filter_keeps(f, e),
        ((f.event_types@.len() == 0 || exists|i: int| 0 <= i < f.event_types@.len() && #[trigger] f.event_types@[i]@ == event_type_name(e))
            && (f.node_ids@.len() == 0 || event_node(e) is None || f.node_ids@.contains(event_node(e)->0))
            && (f.since_ms matches Some(s) ==> s <= event_time(e))
            && (f.until_ms matches Some(u) ==> event_time(e) <= u))
            ==> filter_keeps(f, e),
{
}

/// Every event that a filter keeps from a list (what a history query
/// answers) lies within the filter's time bounds.
pub proof fn lemma_kept_events_within_bounds(events: Seq<ClusterEvent>, f: EventFilter, kept: Seq<ClusterEvent>)
    requires
        kept == events.filter(|e: ClusterEvent| filter_keeps(f, e)),
    ensures
        forall|i: int| 0 <= i < kept.len() ==> (f.since_ms matches Some(s) ==> event_time(#[trigger] kept[i]) >= s),
        forall|i: int| 0 <= i < kept.len() ==> (f.until_ms matches Some(u) ==> event_time(#[trigger] kept[i]) <= u),
{
    let pred = |e: ClusterEvent| filter_keeps(f, e);
    assert forall|i: int| 0 <= i < kept.len() implies filter_keeps(f, #[trigger] kept[i]) by {
        events.lemma_filter_pred(pred, i);
    }
}

impl Default for EventFilter {
    fn default() -> (r: Self)
        ensures
            r.event_types@.len() == 0,
            r.node_ids@.len() == 0,
            r.since_ms is None,
            r.until_ms is None,
    {
        EventFilter { event_types: Vec::new(), node_ids: Vec::new(), since_ms: None, until_ms: None }
    }
}

/// A filter with no conditions keeps every event.
pub proof fn lemma_empty_filter_keeps_all(f: EventFilter, e: ClusterEvent)
    requires
        f.event_types@.len() == 0,
        f.node_ids@.len() == 0,
        f.since_ms is None,
        f.until_ms is None,
    ensures
        filter_keeps(f, e),
{
}

fn contains_text(v: &Vec<String>, s: &String) -> (r: bool)
    ensures
        r == exists|i: int| 0 <= i < v@.len() && #[trigger] v@[i]@ == s@,
{
    let mut i: usize = 0;
    while i < v.len()
        invariant
            i <= v@.len(),
            forall|k: int| 0 <= k < i ==> #[trigger] v@[k]@ != s@,
        decreases v@.len() - i,
    {
        if crate::text::str_eq(v[i].as_str(), s.as_str()) {
            return true;
        }
        i = i + 1;
    }
    false
}

fn contains_id(v: &Vec<u64>, x: u64) -> (r: bool)
    ensures
        r == v@.contains(x),
{
    let mut i: usize = 0;
    while i < v.len()
        invariant
            i <= v@.len(),
            forall|k: int| 0 <= k < i ==> v@[k] != x,
        decreases v@.len() - i,
    {
        if v[i] == x {
            assert(v@[i as int] == x);
            return true;
        }
        i = i + 1;
    }
    false
}

impl EventFilter {
    /// Whether the filter keeps an event.
    pub fn matches(&self, event: &ClusterEvent) -> (r: bool)
        ensures
            r == filter_keeps(*self, *event),
    {
        if self.event_types.len() > 0 {
            let t = event.event_type();
            if !contains_text(&self.event_types, &t) {
                return false;
            }
        }
        if self.node_ids.len() > 0 {
            match event.node_id() {
                Some(n) => {
                    if !contains_id(&self.node_ids, n) {
                        return false;
                    }
                },
                None => {},
            }
        }
        let time = event.timestamp();
        match self.since_ms {
            Some(s) => {
                if time < s {
                    return false;
                }
            },
            None => {},
        }
        match self.until_ms {
            Some(u) => {
                if time > u {
                    return false;
                }
            },
            None => {},
        }
        true
    }
}

impl ClusterEvent {
    /// The type name of the event.
    pub fn event_type(&self) -> (r: String)
        ensures
            r@ == event_type_name(*self),
    {
        match self {
            ClusterEvent::LeaderElected { .. } => String::from_str("leader_elected"),
            ClusterEvent::LeadershipTransferred { .. } => String::from_str("leadership_transferred"),
            ClusterEvent::LeaderSteppedDown { .. } => String::from_str("leader_stepped_down"),
            ClusterEvent::MemberAdded { .. } => String::from_str("member_added"),
            ClusterEvent::MemberRemoved { .. } => String::from_str("member_removed"),
            ClusterEvent::MemberRoleChanged { .. } => String::from_str("member_role_changed"),
            ClusterEvent::MemberHealthChanged { .. } => String::from_str("member_health_changed"),
            ClusterEvent::ConfigurationChanged { .. } => String::from_str("configuration_changed"),
            ClusterEvent::SnapshotCompleted { .. } => String::from_str("snapshot_completed"),
            ClusterEvent::SnapshotFailed { .. } => String::from_str("snapshot_failed"),
            ClusterEvent::Custom { event_type, .. } => event_type.clone(),
        }
    }

    /// The time of the event.
    pub fn timestamp(&self) -> (r: u64)
        ensures
            r == event_time(*self),
    {
        match self {
            ClusterEvent::LeaderElected { timestamp_ms, .. } => *timestamp_ms,
            ClusterEvent::LeadershipTransferred { timestamp_ms, .. } => *timestamp_ms,
            ClusterEvent::LeaderSteppedDown { timestamp_ms, .. } => *timestamp_ms,
            ClusterEvent::MemberAdded { timestamp_ms, .. } => *timestamp_ms,
            ClusterEvent::MemberRemoved { timestamp_ms, .. } => *timestamp_ms,
            ClusterEvent::MemberRoleChanged { timestamp_ms, .. } => *timestamp_ms,
            ClusterEvent::MemberHealthChanged { timestamp_ms, .. } => *timestamp_ms,
            ClusterEvent::ConfigurationChanged { timestamp_ms, .. } => *timestamp_ms,
            ClusterEvent::SnapshotCompleted { timestamp_ms, .. } => *timestamp_ms,
            ClusterEvent::SnapshotFailed { timestamp_ms, .. } => *timestamp_ms,
            ClusterEvent::Custom { timestamp_ms, .. } => *timestamp_ms,
        }
    }

    /// The node the event is about, if any.
    pub fn node_id(&self) -> (r: Option<u64>)
        ensures
            r == event_node(*self),
    {
        match self {
            ClusterEvent::LeaderElected { new_leader, .. } => Some(*new_leader),
            ClusterEvent::LeadershipTransferred { to_leader, .. } => Some(*to_leader),
            ClusterEvent::LeaderSteppedDown { leader, .. } => Some(*leader),
            ClusterEvent::MemberAdded { node_id, .. } => Some(*node_id),
            ClusterEvent::MemberRemoved { node_id, .. } => Some(*node_id),
            ClusterEvent::MemberRoleChanged { node_id, .. } => Some(*node_id),
            ClusterEvent::MemberHealthChanged { node_id, .. } => Some(*node_id),
            _ => None,
        }
    }

    /// A leader election happening now.
    pub fn leader_elected(new_leader: u64, term: u64, previous_leader: Option<u64>) -> (r: Self)
        ensures
            r matches ClusterEvent::LeaderElected { new_leader: n, term: t, previous_leader: p, .. }
                && n == new_leader && t == term && p == previous_leader,
    {
        ClusterEvent::LeaderElected { new_leader, term, previous_leader, timestamp_ms: crate::clock::system_now_ms() }
    }

    /// A member added now.
    pub fn member_added(node_id: u64, role: MemberRole, address: String) -> (r: Self)
        ensures
            r matches ClusterEvent::MemberAdded { node_id: n, role: ro, address: a, .. }
                && n == node_id && ro == role && a == address,
    {
        ClusterEvent::MemberAdded { node_id, role, address, timestamp_ms: crate::clock::system_now_ms() }
    }

    /// A health change happening now.
    pub fn health_changed(node_id: u64, old_status: HealthStatus, new_status: HealthStatus) -> (r: Self)
        ensures
            r matches ClusterEvent::MemberHealthChanged { node_id: n, old_status: o, new_status: s, .. }
                && n == node_id && o == old_status && s == new_status,
    {
        ClusterEvent::MemberHealthChanged { node_id, old_status, new_status, timestamp_ms: crate::clock::system_now_ms() }
    }
}

/// A store of the most recent events.
#[derive(Debug)]
pub struct EventHistory {
    events: Vec<ClusterEvent>,
    max_events: usize,
}

/// The last `n` elements of a sequence (all of them when it is shorter).
pub open spec fn last_n<A>(s: Seq<A>, n: int) -> Seq<A> {
    if s.len() > n { s.subrange(s.len() - n, s.len() as int) } else { s }
}

impl EventHistory {
    /// The stored events, oldest first.
    pub closed spec fn events(&self) -> Seq<ClusterEvent> {
        self.events@
    }

    /// The most events kept.
    pub closed spec fn capacity(&self) -> usize {
        self.max_events
    }

    /// Well-formed: never more events than the capacity.
    pub open spec fn wf(&self) -> bool {
        self.events().len() <= self.capacity()
    }

    /// An empty history keeping at most `max_events` events.
    pub fn new(max_events: usize) -> (r: Self)
        ensures
            r.wf(),
            r.events().len() == 0,
            r.capacity() == max_events,
    {
        EventHistory { events: Vec::new(), max_events }
    }

    /// Record an event, dropping the oldest beyond the capacity.
    pub fn add_event(&mut self, event: ClusterEvent)
        requires
            old(self).wf(),
        ensures
            final(self).wf(),
            final(self).capacity() == old(self).capacity(),
            final(self).events() == last_n(old(self).events().push(event), old(self).capacity() as int),
    {
        self.events.push(event);
        if self.events.len() > self.max_events {
            let drop = self.events.len() - self.max_events;
            let kept = self.events.split_off(drop);
            self.events = kept;
        }
    }

    /// The stored events a filter keeps, oldest first.
    pub fn query(&self, filter: &EventFilter) -> (r: Vec<&ClusterEvent>)
        ensures
            r@.map_values(|e: &ClusterEvent| *e) == self.events().filter(|e: ClusterEvent| filter_keeps(*filter, e)),
    {
        let ghost pred = |e: ClusterEvent| filter_keeps(*filter, e);
        let ghost orig = self.events@;
        let mut out: Vec<&ClusterEvent> = Vec::new();
        let mut i: usize = 0;
        while i < self.events.len()
            invariant
                i <= orig.len(),
                orig == self.events@,
                pred == (|e: ClusterEvent| filter_keeps(*filter, e)),
                out@.map_values(|e: &ClusterEvent| *e) == orig.take(i as int).filter(pred),
            decreases orig.len() - i,
        {
            proof { crate::seqs::lemma_filter_take_step(orig, pred, i as int); }
            let e = &self.events[i];
            if filter.matches(e) {
                let ghost before = out@;
                out.push(e);
                assert(out@.map_values(|e: &ClusterEvent| *e) =~= before.map_values(|e: &ClusterEvent| *e).push(orig[i as int]));
            }
            i = i + 1;
        }
        proof { crate::seqs::lemma_take_all(orig); }
        out
    }

    /// The `count` most recent events, oldest first.
    pub fn recent_events(&self, count: usize) -> (r: Vec<&ClusterEvent>)
        ensures
            r@.map_values(|e: &ClusterEvent| *e) == last_n(self.events(), count as int),
    {
        let n = self.events.len();
        let start = if n > count { n - count } else { 0 };
        let mut out: Vec<&ClusterEvent> = Vec::new();
        let mut i: usize = start;
        while i < n
            invariant
                start <= i <= n,
                n == self.events@.len(),
                start == (if n > count { n - count } else { 0 }),
                out@.map_values(|e: &ClusterEvent| *e) == self.events@.subrange(start as int, i as int),
            decreases n - i,
        {
            let ghost before = out@;
            let e = &self.events[i];
            out.push(e);
            proof {
                assert(out@ == before.push(e));
                assert(out@.map_values(|e: &ClusterEvent| *e) =~= before.map_values(|e: &ClusterEvent| *e).push(self.events@[i as int]));
                assert(self.events@.subrange(start as int, i as int + 1) =~= self.events@.subrange(start as int, i as int).push(self.events@[i as int]));
            }
            i = i + 1;
        }
        assert(self.events@.subrange(0, n as int) =~= self.events@);
        out
    }

    /// Forget all events.
    pub fn clear(&mut self)
        ensures
            final(self).events().len() == 0,
            final(self).capacity() == old(self).capacity(),
    {
        self.events = Vec::new();
    }

    /// The number of stored events.
    pub fn event_count(&self) -> (r: usize)
        ensures
            r == self.events().len(),
    {
        self.events.len()
    }
}

/// The history always keeps the newest event it was given, and never more
/// events than its capacity allows.
pub proof fn lemma_history_keeps_newest(events: Seq<ClusterEvent>, e: ClusterEvent, cap: int)
    requires
        cap >= 1,
        events.len() <= cap,
    ensures
        last_n(events.push(e), cap).last() == e,
        last_n(events.push(e), cap).len() <= cap,
{
}

} // verus!
