//! Example key-value store replicated through consensus: the commands it
//! applies, the queries it answers, and its snapshots.
//!
//! The store's contents are a map from key to value, held as a list of
//! entries with distinct keys.  Timestamps are milliseconds since the Unix
//! epoch in UTC.

use vstd::prelude::*;
use crate::error::RaftError;

verus! {

/// `chrono::DateTime::<chrono::Utc>::from(SystemTime::now()).timestamp_millis()`:
/// the current UTC time in milliseconds since the Unix epoch, negative for a
/// clock set before 1970; which time is left unsaid.
#[verifier::external_body]
pub(crate) fn utc_now_ms() -> (r: i64) {
    chrono::DateTime::<chrono::Utc>::from(std::time::SystemTime::now()).timestamp_millis()
}

/// Commands that change the store.
#[derive(Debug, Clone)]
pub enum KvCommand {
    /// Set a key to a value
    SetValue {
        /// The key to set
        key: String,
        /// The value to set for the key
        value: String,
    },
    /// Delete a key
    Delete {
        /// The key to delete
        key: String,
    },
    /// Remove all keys
    Clear,
}

/// Response to a command.
#[derive(Debug, Clone)]
pub enum KvResponse {
    /// Command executed successfully
    Success,
    /// Value retrieved
    Value(Option<String>),
    /// Keys returned
    Keys(Vec<String>),
}

/// Read-only queries.
#[derive(Debug, Clone)]
pub enum KvQuery {
    /// Get the value of a key
    Get { key: String },
    /// List the keys, optionally only those with a prefix
    List { prefix: Option<String> },
    /// Check whether a key is present
    Exists { key: String },
    /// Get the number of keys
    Size,
}

/// Response to a query.
#[derive(Debug, Clone)]
pub enum KvQueryResponse {
    /// Value retrieved
    Value(Option<String>),
    /// Keys returned
    Keys(Vec<String>),
    /// Boolean result
    Boolean(bool),
    /// Numeric result
    Number(usize),
}

/// Metadata of the store's state.
#[derive(Debug, Clone, Copy, PartialEq, Eq, Structural)]
pub struct KvMetadata {
    /// Number of commands applied
    pub operation_count: u64,
    /// When the state last changed, in milliseconds since the Unix epoch
    pub last_updated_ms: i64,
    /// Version of the state, incremented on each command
    pub version: u64,
}

/// State of the key-value store.
#[derive(Debug)]
pub struct KvState {
    /// The entries, one per key
    pub data: Vec<(String, String)>,
    /// Metadata of the state
    pub metadata: KvMetadata,
}

/// The entries as text pairs.
pub open spec fn entries(data: Seq<(String, String)>) -> Seq<(Seq<char>, Seq<char>)> {
    data.map_values(|e: (String, String)| (e.0@, e.1@))
}

/// No key occurs twice.
pub open spec fn distinct_keys(e: Seq<(Seq<char>, Seq<char>)>) -> bool {
    forall|i: int, j: int| 0 <= i < j < e.len() ==> e[i].0 != e[j].0
}

/// Some entry has the key.
pub open spec fn has_key(e: Seq<(Seq<char>, Seq<char>)>, k: Seq<char>) -> bool {
    exists|i: int| 0 <= i < e.len() && #[trigger] e[i].0 == k
}

/// The map the entries stand for.
pub open spec fn as_map(e: Seq<(Seq<char>, Seq<char>)>) -> Map<Seq<char>, Seq<char>> {
    Map::new(
        |k: Seq<char>| has_key(e, k),
        |k: Seq<char>| e[choose|i: int| 0 <= i < e.len() && #[trigger] e[i].0 == k].1,
    )
}

/// The map after a command.
pub open spec fn apply_spec(m: Map<Seq<char>, Seq<char>>, cmd: KvCommand) -> Map<Seq<char>, Seq<char>> {
    match cmd {
        KvCommand::SetValue { key, value } => m.insert(key@, value@),
        KvCommand::Delete { key } => m.remove(key@),
        KvCommand::Clear => Map::empty(),
    }
}

/// The keys of the entries, in order, that start with the prefix (all of
/// them when there is none).
pub open spec fn listed_keys(e: Seq<(Seq<char>, Seq<char>)>, prefix: Option<Seq<char>>) -> Seq<Seq<char>>
    decreases e.len(),
{
    if e.len() == 0 {
        Seq::empty()
    } else {
        let rest = listed_keys(e.drop_last(), prefix);
        let k = e.last().0;
        match prefix {
            Some(p) => if p.is_prefix_of(k) { rest.push(k) } else { rest },
            None => rest.push(k),
        }
    }
}

/// A list query with a prefix answers exactly the stored keys that start
/// with the prefix: every key it gives starts with the prefix and is stored,
/// and every stored key that starts with the prefix is given.
pub proof fn lemma_listed_keys_start_with_prefix(e: Seq<(Seq<char>, Seq<char>)>, p: Seq<char>)
    ensures
        forall|i: int| 0 <= i < listed_keys(e, Some(p)).len()
            ==> p.is_prefix_of(#[trigger] listed_keys(e, Some(p))[i]) && has_key(e, listed_keys(e, Some(p))[i]),
        forall|j: int| 0 <= j < e.len() && p.is_prefix_of(#[trigger] e[j].0)
            ==> listed_keys(e, Some(p)).contains(e[j].0),
    decreases e.len(),
{
    if e.len() > 0 {
        let init = e.drop_last();
        lemma_listed_keys_start_with_prefix(init, p);
        let rest = listed_keys(init, Some(p));
        let all = listed_keys(e, Some(p));
        let k = e.last().0;
        assert forall|i: int| 0 <= i < all.len()
            implies p.is_prefix_of(#[trigger] all[i]) && has_key(e, all[i]) by {
            if i < rest.len() {
                assert(all[i] == rest[i]);
                let w = choose|w: int| 0 <= w < init.len() && #[trigger] init[w].0 == rest[i];
                assert(e[w].0 == all[i]);
            } else {
                assert(all[i] == k);
                assert(e[e.len() - 1].0 == k);
            }
        }
        assert forall|j: int| 0 <= j < e.len() && p.is_prefix_of(#[trigger] e[j].0)
            implies all.contains(e[j].0) by {
            if j < e.len() - 1 {
                assert(init[j].0 == e[j].0);
                let w = choose|w: int| 0 <= w < rest.len() && rest[w] == e[j].0;
                assert(all[w] == e[j].0);
            } else {
                assert(all[all.len() - 1] == k);
            }
        }
    }
}

/// A list query without a prefix gives every stored key.
pub proof fn lemma_listed_keys_all(e: Seq<(Seq<char>, Seq<char>)>)
    ensures
        listed_keys(e, None) == e.map_values(|x: (Seq<char>, Seq<char>)| x.0),
    decreases e.len(),
{
    if e.len() > 0 {
        lemma_listed_keys_all(e.drop_last());
        assert(e.map_values(|x: (Seq<char>, Seq<char>)| x.0) =~= e.drop_last().map_values(|x: (Seq<char>, Seq<char>)| x.0).push(e.last().0));
    }
}

pub(crate) proof fn lemma_value_at(e: Seq<(Seq<char>, Seq<char>)>, j: int)
    requires
        distinct_keys(e),
        0 <= j < e.len(),
    ensures
        as_map(e).contains_key(e[j].0),
        as_map(e)[e[j].0] == e[j].1,
{
    let k = e[j].0;
    assert(has_key(e, k));
    let w = choose|i: int| 0 <= i < e.len() && #[trigger] e[i].0 == k;
    if w != j {
        if w < j {
            assert(e[w].0 != e[j].0);
        } else {
            assert(e[j].0 != e[w].0);
        }
    }
}

proof fn lemma_map_ext(e: Seq<(Seq<char>, Seq<char>)>, m: Map<Seq<char>, Seq<char>>)
    requires
        distinct_keys(e),
        forall|k: Seq<char>| #[trigger] m.contains_key(k) <==> has_key(e, k),
        forall|j: int| 0 <= j < e.len() ==> m[#[trigger] e[j].0] == e[j].1,
    ensures
        as_map(e) == m,
{
    assert forall|k: Seq<char>| #[trigger] as_map(e).contains_key(k) implies as_map(e)[k] == m[k] by {
        let j = choose|i: int| 0 <= i < e.len() && #[trigger] e[i].0 == k;
        lemma_value_at(e, j);
    }
    assert(as_map(e) =~= m);
}

fn str_eq_string(a: &String, b: &String) -> (r: bool)
    ensures
        r == (a@ == b@),
{
    crate::text::str_eq(a.as_str(), b.as_str())
}

fn starts_with(s: &String, prefix: &String) -> (r: bool)
    ensures
        r == prefix@.is_prefix_of(s@),
{
    let n = crate::text::char_count(s.as_str());
    let m = crate::text::char_count(prefix.as_str());
    if m > n {
        return false;
    }
    let mut i: usize = 0;
    while i < m
        invariant
            m <= n,
            n == s@.len(),
            m == prefix@.len(),
            i <= m,
            forall|k: int| 0 <= k < i ==> prefix@[k] == s@[k],
        decreases m - i,
    {
        if crate::text::char_at(prefix.as_str(), i) != crate::text::char_at(s.as_str(), i) {
            return false;
        }
        i = i + 1;
    }
    assert(prefix@ =~= s@.take(m as int));
    true
}

/// Find the entry of a key.
pub(crate) fn entries_find(data: &Vec<(String, String)>, key: &String) -> (r: Option<usize>)
    ensures
        match r {
            Some(i) => i < data@.len() && entries(data@)[i as int].0 == key@,
            None => !has_key(entries(data@), key@),
        },
{
    let mut i: usize = 0;
    while i < data.len()
        invariant
            i <= data@.len(),
            forall|k: int| 0 <= k < i ==> #[trigger] entries(data@)[k].0 != key@,
        decreases data@.len() - i,
    {
        if str_eq_string(&data[i].0, key) {
            return Some(i);
        }
        i = i + 1;
    }
    None
}

/// Set a key to a value in entries with distinct keys.
pub(crate) fn entries_put(data: &mut Vec<(String, String)>, key: String, value: String)
    requires
        distinct_keys(entries(old(data)@)),
    ensures
        distinct_keys(entries(final(data)@)),
        as_map(entries(final(data)@)) == as_map(entries(old(data)@)).insert(key@, value@),
{
    let ghost m = as_map(entries(data@));
    let ghost kv = key@;
    let ghost vv = value@;
    let ghost e = entries(data@);
    match entries_find(data, &key) {
        Some(i) => {
            data.set(i, (key, value));
            proof {
                let e2 = entries(data@);
                assert(e2 =~= e.update(i as int, (kv, vv)));
                assert(distinct_keys(e2));
                assert forall|k: Seq<char>| #[trigger] m.insert(kv, vv).contains_key(k) <==> has_key(e2, k) by {
                    if has_key(e, k) {
                        let j = choose|j: int| 0 <= j < e.len() && #[trigger] e[j].0 == k;
                        lemma_value_at(e, j);
                        assert(e2[j].0 == k);
                    }
                    if has_key(e2, k) {
                        let j = choose|j: int| 0 <= j < e2.len() && #[trigger] e2[j].0 == k;
                        if j != i as int {
                            assert(e[j].0 == k);
                            lemma_value_at(e, j);
                        }
                    }
                    if k == kv {
                        assert(e2[i as int].0 == k);
                    }
                }
                assert forall|j: int| 0 <= j < e2.len() implies m.insert(kv, vv)[#[trigger] e2[j].0] == e2[j].1 by {
                    if j != i as int {
                        lemma_value_at(e, j);
                    }
                }
                
                lemma_map_ext(e2, m.insert(kv, vv));
            }
        },
        None => {
            data.push((key, value));
            proof {
                let e2 = entries(data@);
                assert(e2 =~= e.push((kv, vv)));
                assert(distinct_keys(e2)) by {
                    assert forall|a: int, b: int| 0 <= a < b < e2.len() implies e2[a].0 != e2[b].0 by {
                        if b == e2.len() - 1 {
                            assert(e2[a] == e[a]);
                        }
                    }
                }
                assert forall|k: Seq<char>| #[trigger] m.insert(kv, vv).contains_key(k) <==> has_key(e2, k) by {
                    if has_key(e, k) {
                        let j = choose|j: int| 0 <= j < e.len() && #[trigger] e[j].0 == k;
                        assert(e2[j].0 == k);
                    }
                    if has_key(e2, k) {
                        let j = choose|j: int| 0 <= j < e2.len() && #[trigger] e2[j].0 == k;
                        if j < e.len() {
                            assert(e[j].0 == k);
                        }
                    }
                    if k == kv {
                        assert(e2[e.len() as int].0 == k);
                    }
                }
                assert forall|j: int| 0 <= j < e2.len() implies m.insert(kv, vv)[#[trigger] e2[j].0] == e2[j].1 by {
                    if j < e.len() {
                        lemma_value_at(e, j);
                    }
                }
                
                lemma_map_ext(e2, m.insert(kv, vv));
            }
        },
    }
    
}

/// Remove a key from entries with distinct keys; whether it was there.
pub(crate) fn entries_remove(data: &mut Vec<(String, String)>, key: &String) -> (existed: bool)
    requires
        distinct_keys(entries(old(data)@)),
    ensures
        distinct_keys(entries(final(data)@)),
        as_map(entries(final(data)@)) == as_map(entries(old(data)@)).remove(key@),
        existed == as_map(entries(old(data)@)).contains_key(key@),
{
    let ghost m = as_map(entries(data@));
    let mut existed = false;
    let ghost kv = key@;
    let ghost e = entries(data@);
    match entries_find(data, key) {
        Some(i) => {
            let _ = data.remove(i);
            existed = true;
            proof {
                let e2 = entries(data@);
                assert(e2 =~= e.remove(i as int));
                assert(distinct_keys(e2)) by {
                    assert forall|a: int, b: int| 0 <= a < b < e2.len() implies e2[a].0 != e2[b].0 by {
                        let a0 = if a < i { a } else { a + 1 };
                        let b0 = if b < i { b } else { b + 1 };
                        assert(e2[a] == e[a0]);
                        assert(e2[b] == e[b0]);
                    }
                }
                assert forall|k: Seq<char>| #[trigger] m.remove(kv).contains_key(k) <==> has_key(e2, k) by {
                    if has_key(e, k) && k != kv {
                        let j = choose|j: int| 0 <= j < e.len() && #[trigger] e[j].0 == k;
                        assert(j != i as int);
                        let j2 = if j < i { j } else { j - 1 };
                        assert(e2[j2].0 == k);
                    }
                    if has_key(e2, k) {
                        let j = choose|j: int| 0 <= j < e2.len() && #[trigger] e2[j].0 == k;
                        let j0 = if j < i { j } else { j + 1 };
                        assert(e[j0].0 == k);
                        assert(j0 != i as int);
                        assert(e[j0].0 != e[i as int].0);
                    }
                }
                assert forall|j: int| 0 <= j < e2.len() implies m.remove(kv)[#[trigger] e2[j].0] == e2[j].1 by {
                    let j0 = if j < i { j } else { j + 1 };
                    assert(e2[j] == e[j0]);
                    lemma_value_at(e, j0);
                }
                
                lemma_map_ext(e2, m.remove(kv));
            }
        },
        None => {
            proof {
                assert(m.remove(kv) =~= m);
            }
        },
    }
    
    existed
}

/// The keys of the entries, in order, that start with the prefix.
pub(crate) fn entries_list(data: &Vec<(String, String)>, prefix: &Option<String>) -> (r: Vec<String>)
    ensures
        r@.map_values(|s: String| s@) == listed_keys(entries(data@), match prefix { Some(p) => Some(p@), None => None }),
{
    let ghost pv: Option<Seq<char>> = match prefix { Some(p) => Some(p@), None => None };
    let ghost e = entries(data@);
    let mut out: Vec<String> = Vec::new();
    let mut i: usize = 0;
    while i < data.len()
        invariant
            i <= data@.len(),
            e == entries(data@),
            pv == (match prefix { Some(p) => Some(p@), None => None::<Seq<char>> }),
            out@.map_values(|s: String| s@) == listed_keys(e.take(i as int), pv),
        decreases data@.len() - i,
    {
        assert(e.take(i as int + 1).drop_last() =~= e.take(i as int));
        let k = &data[i].0;
        let keep = match prefix {
            Some(p) => starts_with(k, p),
            None => true,
        };
        let ghost before = out@;
        if keep {
            out.push(k.clone());
            assert(out@.map_values(|s: String| s@) =~= before.map_values(|s: String| s@).push(k@));
        }
        i = i + 1;
    }
    assert(e.take(e.len() as int) =~= e);
    out
}

impl KvState {
    /// The entries as text pairs.
    pub open spec fn entries(&self) -> Seq<(Seq<char>, Seq<char>)> {
        entries(self.data@)
    }

    /// The map the state holds.
    pub open spec fn map(&self) -> Map<Seq<char>, Seq<char>> {
        as_map(self.entries())
    }

    /// Well-formed: one entry per key.
    pub open spec fn wf(&self) -> bool {
        distinct_keys(self.entries())
    }

    /// An empty state with zero counters, stamped now.
    pub fn new() -> (r: Self)
        ensures
            r.wf(),
            r.data@.len() == 0,
            r.map() == Map::<Seq<char>, Seq<char>>::empty(),
            r.metadata.operation_count == 0,
            r.metadata.version == 0,
    {
        let r = KvState {
            data: Vec::new(),
            metadata: KvMetadata { operation_count: 0, last_updated_ms: utc_now_ms(), version: 0 },
        };
        assert(r.map() =~= Map::<Seq<char>, Seq<char>>::empty());
        r
    }

    /// The number of keys.
    pub fn len(&self) -> (r: usize)
        requires
            self.wf(),
        ensures
            r == self.data@.len(),
            r == self.map().len(),
    {
        proof { lemma_map_len(self.entries()); }
        self.data.len()
    }

    /// Whether the store holds no key.
    pub fn is_empty(&self) -> (r: bool)
        requires
            self.wf(),
        ensures
            r == (self.map().len() == 0),
            r == (self.map() == Map::<Seq<char>, Seq<char>>::empty()),
    {
        proof {
            lemma_map_len(self.entries());
            if self.data@.len() > 0 {
                lemma_value_at(self.entries(), 0);
            } else {
                assert(self.map() =~= Map::<Seq<char>, Seq<char>>::empty());
            }
        }
        self.data.len() == 0
    }

    fn find(&self, key: &String) -> (r: Option<usize>)
        ensures
            match r {
                Some(i) => i < self.data@.len() && self.entries()[i as int].0 == key@,
                None => !has_key(self.entries(), key@),
            },
    {
        entries_find(&self.data, key)
    }

    /// The value of a key.
    pub fn get(&self, key: &String) -> (r: Option<&String>)
        requires
            self.wf(),
        ensures
            match r {
                Some(v) => self.map().contains_key(key@) && self.map()[key@] == v@,
                None => !self.map().contains_key(key@),
            },
    {
        match self.find(key) {
            Some(i) => {
                proof { lemma_value_at(self.entries(), i as int); }
                Some(&self.data[i].1)
            },
            None => None,
        }
    }

    /// A copy of the state.
    pub fn duplicate(&self) -> (r: Self)
        ensures
            r.entries() == self.entries(),
            r.metadata == self.metadata,
    {
        let mut data: Vec<(String, String)> = Vec::new();
        let mut i: usize = 0;
        while i < self.data.len()
            invariant
                i <= self.data@.len(),
                entries(data@) == self.entries().take(i as int),
            decreases self.data@.len() - i,
        {
            let ghost before = data@;
            let k = self.data[i].0.clone();
            let v = self.data[i].1.clone();
            data.push((k, v));
            assert(data@ == before.push(self.data@[i as int]));
            assert(entries(data@) =~= entries(before).push(self.entries()[i as int]));
            assert(self.entries().take(i as int + 1) =~= self.entries().take(i as int).push(self.entries()[i as int]));
            i = i + 1;
        }
        assert(self.entries().take(self.data@.len() as int) =~= self.entries());
        KvState { data, metadata: self.metadata }
    }
}

pub(crate) proof fn lemma_map_len(e: Seq<(Seq<char>, Seq<char>)>)
    requires
        distinct_keys(e),
    ensures
        as_map(e).dom().finite(),
        as_map(e).len() == e.len(),
    decreases e.len(),
{
    if e.len() == 0 {
        assert(as_map(e) =~= Map::<Seq<char>, Seq<char>>::empty());
    } else {
        let p = e.drop_last();
        let last = e.last();
        assert(distinct_keys(p));
        lemma_map_len(p);
        assert(!has_key(p, last.0)) by {
            if has_key(p, last.0) {
                let i = choose|i: int| 0 <= i < p.len() && #[trigger] p[i].0 == last.0;
                assert(e[i].0 != e[e.len() - 1].0);
            }
        }
        assert(as_map(e).dom() =~= as_map(p).dom().insert(last.0)) by {
            assert forall|k: Seq<char>| as_map(e).dom().contains(k) <==> as_map(p).dom().insert(last.0).contains(k) by {
                if has_key(e, k) {
                    let i = choose|i: int| 0 <= i < e.len() && #[trigger] e[i].0 == k;
                    if i < e.len() - 1 {
                        assert(p[i].0 == k);
                    }
                }
                if has_key(p, k) {
                    let i = choose|i: int| 0 <= i < p.len() && #[trigger] p[i].0 == k;
                    assert(e[i].0 == k);
                }
                if k == last.0 {
                    assert(e[e.len() - 1].0 == k);
                }
            }
        }
    }
}

/// The example key-value store.
pub struct KeyValueStore {
    state: KvState,
}

impl KeyValueStore {
    /// The store's state.
    pub closed spec fn state(&self) -> KvState {
        self.state
    }

    /// Well-formed: the state has one entry per key.
    pub open spec fn wf(&self) -> bool {
        self.state().wf()
    }

    /// An empty store.
    pub fn new() -> (r: Self)
        ensures
            r.wf(),
            r.state().map() == Map::<Seq<char>, Seq<char>>::empty(),
            r.state().metadata.operation_count == 0,
            r.state().metadata.version == 0,
    {
        KeyValueStore { state: KvState::new() }
    }

    /// A store holding the given state.
    pub fn with_state(state: KvState) -> (r: Self)
        ensures
            r.state() == state,
    {
        KeyValueStore { state }
    }

    fn update_metadata(&mut self)
        requires
            old(self).state().metadata.operation_count < u64::MAX,
            old(self).state().metadata.version < u64::MAX,
        ensures
            final(self).state().data == old(self).state().data,
            final(self).state().metadata.operation_count == old(self).state().metadata.operation_count + 1,
            final(self).state().metadata.version == old(self).state().metadata.version + 1,
    {
        self.state.metadata.operation_count = self.state.metadata.operation_count + 1;
        self.state.metadata.last_updated_ms = utc_now_ms();
        self.state.metadata.version = self.state.metadata.version + 1;
    }

    /// Apply a command; each command counts as one operation and one
    /// version, whether or not it changed a key.
    pub fn apply_command(&mut self, command: KvCommand) -> (r: Result<KvResponse, RaftError>)
        requires
            old(self).wf(),
            old(self).state().metadata.operation_count < u64::MAX,
            old(self).state().metadata.version < u64::MAX,
        ensures
            final(self).wf(),
            final(self).state().map() == apply_spec(old(self).state().map(), command),
            final(self).state().metadata.operation_count == old(self).state().metadata.operation_count + 1,
            final(self).state().metadata.version == old(self).state().metadata.version + 1,
            r matches Ok(KvResponse::Success),
    {
        let ghost m = self.state.map();
        let ghost cmd = command;
        match command {
            KvCommand::SetValue { key, value } => {
                entries_put(&mut self.state.data, key, value);
            },
            KvCommand::Delete { key } => {
                let _ = entries_remove(&mut self.state.data, &key);
            },
            KvCommand::Clear => {
                self.state.data = Vec::new();
                proof {
                    assert(self.state.map() =~= Map::<Seq<char>, Seq<char>>::empty());
                }
            },
        }
        self.update_metadata();
        Ok(KvResponse::Success)
    }

    /// A copy of the current state.
    pub fn create_snapshot(&self) -> (r: Result<KvState, RaftError>)
        ensures
            r matches Ok(s) && s.entries() == self.state().entries() && s.metadata == self.state().metadata,
    {
        Ok(self.state.duplicate())
    }

    /// Replace the state with a snapshot.
    pub fn restore_from_snapshot(&mut self, snapshot: KvState) -> (r: Result<(), RaftError>)
        ensures
            final(self).state() == snapshot,
            r is Ok,
    {
        self.state = snapshot;
        Ok(())
    }

    /// The current state.
    pub fn get_current_state(&self) -> (r: &KvState)
        ensures
            *r == self.state(),
    {
        &self.state
    }

    /// Answer a read-only query.
    pub fn execute_query(&self, query: KvQuery) -> (r: Result<KvQueryResponse, RaftError>)
        requires
            self.wf(),
        ensures
            match query {
                KvQuery::Get { key } => r matches Ok(KvQueryResponse::Value(v)) && (match v {
                    Some(x) => self.state().map().contains_key(key@) && self.state().map()[key@] == x@,
                    None => !self.state().map().contains_key(key@),
                }),
                KvQuery::List { prefix } => r matches Ok(KvQueryResponse::Keys(ks))
                    && ks@.map_values(|s: String| s@) == listed_keys(self.state().entries(), match prefix { Some(p) => Some(p@), None => None }),
                KvQuery::Exists { key } => r matches Ok(KvQueryResponse::Boolean(b)) && b == self.state().map().contains_key(key@),
                KvQuery::Size => r matches Ok(KvQueryResponse::Number(n)) && n == self.state().map().len(),
            },
    {
        match query {
            KvQuery::Get { key } => {
                let v = match self.state.get(&key) {
                    Some(x) => Some(x.clone()),
                    None => None,
                };
                Ok(KvQueryResponse::Value(v))
            },
            KvQuery::List { prefix } => Ok(KvQueryResponse::Keys(entries_list(&self.state.data, &prefix))),
            KvQuery::Exists { key } => {
                let b = match self.state.find(&key) {
                    Some(i) => {
                        proof { lemma_value_at(self.state.entries(), i as int); }
                        true
                    },
                    None => false,
                };
                Ok(KvQueryResponse::Boolean(b))
            },
            KvQuery::Size => Ok(KvQueryResponse::Number(self.state.len())),
        }
    }
}

/// A key reads back the value last set for it.
pub proof fn lemma_get_after_set(m: Map<Seq<char>, Seq<char>>, key: String, value: String)
    ensures
        apply_spec(m, KvCommand::SetValue { key, value }).contains_key(key@),
        apply_spec(m, KvCommand::SetValue { key, value })[key@] == value@,
        forall|k: Seq<char>| k != key@ ==> (#[trigger] apply_spec(m, KvCommand::SetValue { key, value }).contains_key(k) <==> m.contains_key(k)),
{
}

/// A deleted key is gone, and the other keys keep their values.
pub proof fn lemma_delete_removes(m: Map<Seq<char>, Seq<char>>, key: String)
    ensures
        !apply_spec(m, KvCommand::Delete { key }).contains_key(key@),
        forall|k: Seq<char>| k != key@ && m.contains_key(k) ==>
            #[trigger] apply_spec(m, KvCommand::Delete { key }).contains_key(k)
            && apply_spec(m, KvCommand::Delete { key })[k] == m[k],
{
}

/// Clearing leaves no key.
pub proof fn lemma_clear_empties(m: Map<Seq<char>, Seq<char>>)
    ensures
        apply_spec(m, KvCommand::Clear) == Map::<Seq<char>, Seq<char>>::empty(),
        apply_spec(m, KvCommand::Clear).len() == 0,
{
}

/// Deleting a key that was just set gives the map without that key, as if
/// it had never been set.
pub proof fn lemma_set_then_delete(m: Map<Seq<char>, Seq<char>>, key: String, value: String, again: String)
    requires
        again@ == key@,
    ensures
        apply_spec(apply_spec(m, KvCommand::SetValue { key, value }), KvCommand::Delete { key: again })
            == apply_spec(m, KvCommand::Delete { key: again }),
{
    assert(apply_spec(apply_spec(m, KvCommand::SetValue { key, value }), KvCommand::Delete { key: again })
        =~= apply_spec(m, KvCommand::Delete { key: again }));
}

/// Restoring a store from a snapshot of another gives it the same contents
/// and metadata.
pub proof fn lemma_snapshot_restore(snapshot: KvState, source: KvState, restored: KvState)
    requires
        snapshot.entries() == source.entries(),
        snapshot.metadata == source.metadata,
        restored == snapshot,
    ensures
        restored.map() == source.map(),
        restored.metadata == source.metadata,
{
}

} // verus!
