//! The state machines a node applies committed proposals to, and the builder
//! that pairs a configuration with one.
//!
//! The key-value state machine answers each operation with bytes: `ok` for a
//! write, `deleted` or `not_found` for a deletion, the UTF-8 bytes of the
//! value for a read (none when the key is absent), and the matching keys one
//! per line for a listing.  Its snapshots are the bincode encoding of its map.

use vstd::prelude::*;
use vstd::string::StringExecFns;
use vstd::utf8::encode_utf8;
use crate::config::Config;
use crate::error::RaftError;
use crate::raft::kv_example::{
    as_map, distinct_keys, entries, entries_find, entries_list, entries_put, entries_remove, has_key,
    lemma_value_at, listed_keys,
};

verus! {

/// The eight little-endian bytes of a 64-bit number.
pub open spec fn le64(n: nat) -> Seq<u8> {
    Seq::new(8, |i: int| ((n / vstd::arithmetic::power2::pow2((8 * i) as nat)) % 256) as u8)
}

/// A text as bincode writes it: its UTF-8 length as a 64-bit number, then
/// its UTF-8 bytes.
pub open spec fn encoded_text(s: Seq<char>) -> Seq<u8> {
    le64(encode_utf8(s).len()) + encode_utf8(s)
}

/// The pairs of texts one after the other, key before value.
pub open spec fn pairs_bytes(e: Seq<(Seq<char>, Seq<char>)>) -> Seq<u8>
    decreases e.len(),
{
    if e.len() == 0 {
        Seq::empty()
    } else {
        pairs_bytes(e.drop_last()) + encoded_text(e.last().0) + encoded_text(e.last().1)
    }
}

/// `bincode::serialize` (fixed-width little-endian integers) of a map of
/// text keys to text values given by its entries: the number of entries as
/// a 64-bit number, then each entry's key and value.
pub open spec fn bincode_map_encoding(entries: Seq<(Seq<char>, Seq<char>)>) -> Seq<u8> {
    le64(entries.len()) + pairs_bytes(entries)
}

/// `bincode::serialize` of the entries of a map, each a pair of texts,
/// with bincode's default settings (fixed-width little-endian integers, no
/// size limit), under which writing texts into a vector cannot fail: the
/// result is the encoding `bincode_map_encoding` states.
#[verifier::external_body]
fn encode_map_entries(data: &Vec<(String, String)>) -> (r: Result<Vec<u8>, String>)
    ensures
        r is Ok,
        r matches Ok(b) ==> b@ == bincode_map_encoding(entries(data@)),
{
    bincode::serialize(data).map_err(|e| e.to_string())
}

/// `bincode::deserialize` of a list of (key, value) texts, read in the
/// order encoded (a key may come more than once), with bincode's default
/// settings, which accept bytes left over after the list.  When it succeeds
/// the encoding of what it read starts the bytes; and where the encoding of
/// some entries starts the bytes, it reads exactly those entries.  An error
/// comes with bincode's own text.
#[verifier::external_body]
fn decode_map_entries(bytes: &[u8]) -> (r: Result<Vec<(String, String)>, String>)
    ensures
        r matches Ok(v) ==> bincode_map_encoding(entries(v@)).is_prefix_of(bytes@),
        r is Err ==> forall|e: Seq<(Seq<char>, Seq<char>)>| !(#[trigger] bincode_map_encoding(e).is_prefix_of(bytes@)),
        r matches Ok(v) ==> forall|e: Seq<(Seq<char>, Seq<char>)>| #[trigger] bincode_map_encoding(e).is_prefix_of(bytes@) ==> entries(v@) == e,
{
    bincode::deserialize::<Vec<(String, String)>>(bytes).map_err(|e| e.to_string())
}

/// An operation on the key-value state machine.
#[derive(Debug, Clone)]
pub enum KeyValueOp {
    /// Set a key to a value
    SetValue { key: String, value: String },
    /// Delete a key
    Delete { key: String },
    /// Read a key
    Get { key: String },
    /// List the keys, optionally only those with a prefix
    List { prefix: Option<String> },
}

/// The data of a proposal.
#[derive(Debug, Clone)]
pub enum ProposalData {
    /// An operation on the key-value state machine
    KeyValue(KeyValueOp),
    /// Data meant for another kind of state machine
    Raw(Vec<u8>),
}

/// A state machine that a node applies committed proposals to.
pub trait NodeStateMachine {
    /// Apply the proposal committed at `index`; the answer goes back to the
    /// proposer.
    fn apply(&mut self, index: u64, data: &ProposalData) -> Result<Vec<u8>, RaftError>;

    /// The current state, encoded.
    fn snapshot(&self) -> Result<Vec<u8>, RaftError>;

    /// Replace the state by the one encoded in `data`.
    fn restore(&mut self, data: &[u8]) -> Result<(), RaftError>;
}

/// The keys, one per line.
pub open spec fn lines(keys: Seq<Seq<char>>) -> Seq<char>
    decreases keys.len(),
{
    if keys.len() == 0 {
        Seq::empty()
    } else if keys.len() == 1 {
        keys[0]
    } else {
        lines(keys.drop_last()) + "\n"@ + keys.last()
    }
}

fn join_lines(keys: &Vec<String>) -> (r: String)
    ensures
        r@ == lines(keys@.map_values(|s: String| s@)),
{
    let ghost ks = keys@.map_values(|s: String| s@);
    let mut text = String::new();
    let mut i: usize = 0;
    while i < keys.len()
        invariant
            i <= keys@.len(),
            ks == keys@.map_values(|s: String| s@),
            text@ == lines(ks.take(i as int)),
        decreases keys@.len() - i,
    {
        let ghost before = text@;
        if i > 0 {
            text.append("\n");
        }
        text.append(keys[i].as_str());
        proof {
            let t = ks.take(i as int + 1);
            assert(t.drop_last() =~= ks.take(i as int));
            assert(t.last() == keys@[i as int]@);
            if i == 0 {
                assert(before =~= Seq::<char>::empty());
                assert(text@ =~= t[0]);
            }
        }
        i = i + 1;
    }
    assert(ks.take(keys@.len() as int) =~= ks);
    text
}

/// The bytes of a text.
fn text_bytes(s: String) -> (r: Vec<u8>)
    ensures
        r@ == encode_utf8(s@),
{
    s.as_str().as_bytes_vec()
}

/// The answer to a write: `ok`.
pub open spec fn ok_bytes() -> Seq<u8> {
    seq![111u8, 107u8]
}

/// The answer to the deletion of a present key: `deleted`.
pub open spec fn deleted_bytes() -> Seq<u8> {
    seq![100u8, 101u8, 108u8, 101u8, 116u8, 101u8, 100u8]
}

/// The answer to the deletion of an absent key: `not_found`.
pub open spec fn not_found_bytes() -> Seq<u8> {
    seq![110u8, 111u8, 116u8, 95u8, 102u8, 111u8, 117u8, 110u8, 100u8]
}

/// The answer to a proposal meant for another kind of state machine: `ack`.
pub open spec fn ack_bytes() -> Seq<u8> {
    seq![97u8, 99u8, 107u8]
}

/// The prefix of a listing, as text.
pub open spec fn prefix_chars(p: Option<String>) -> Option<Seq<char>> {
    match p {
        Some(x) => Some(x@),
        None => None,
    }
}

/// The map after an operation; reads and listings leave it as it was.
pub open spec fn op_map(m: Map<Seq<char>, Seq<char>>, op: KeyValueOp) -> Map<Seq<char>, Seq<char>> {
    match op {
        KeyValueOp::SetValue { key, value } => m.insert(key@, value@),
        KeyValueOp::Delete { key } => m.remove(key@),
        KeyValueOp::Get { .. } => m,
        KeyValueOp::List { .. } => m,
    }
}

/// The answer to an operation on the entries `e`: `ok` for a write,
/// `deleted` or `not_found` for a deletion, the bytes of the value (none when
/// absent) for a read, the matching keys one per line for a listing.
pub open spec fn op_reply(e: Seq<(Seq<char>, Seq<char>)>, op: KeyValueOp) -> Seq<u8> {
    let m = as_map(e);
    match op {
        KeyValueOp::SetValue { .. } => ok_bytes(),
        KeyValueOp::Delete { key } => if m.contains_key(key@) { deleted_bytes() } else { not_found_bytes() },
        KeyValueOp::Get { key } => if m.contains_key(key@) { encode_utf8(m[key@]) } else { Seq::empty() },
        KeyValueOp::List { prefix } => encode_utf8(lines(listed_keys(e, prefix_chars(prefix)))),
    }
}

/// The map a sequence of entries gives when each is set in turn, so that a
/// key given twice keeps its last value.
pub open spec fn map_of_pairs(e: Seq<(Seq<char>, Seq<char>)>) -> Map<Seq<char>, Seq<char>>
    decreases e.len(),
{
    if e.len() == 0 {
        Map::empty()
    } else {
        map_of_pairs(e.drop_last()).insert(e.last().0, e.last().1)
    }
}

/// Setting distinct keys one by one gives the map the entries stand for.
pub proof fn lemma_pairs_map(e: Seq<(Seq<char>, Seq<char>)>)
    requires
        distinct_keys(e),
    ensures
        map_of_pairs(e) == as_map(e),
    decreases e.len(),
{
    if e.len() == 0 {
        assert(as_map(e) =~= Map::<Seq<char>, Seq<char>>::empty());
    } else {
        let p = e.drop_last();
        let last = e.last();
        assert(distinct_keys(p));
        lemma_pairs_map(p);
        assert forall|k: Seq<char>| #[trigger] as_map(e).contains_key(k) <==> as_map(p).insert(last.0, last.1).contains_key(k) by {
            if has_key(e, k) {
                let i = choose|i: int| 0 <= i < e.len() && #[trigger] e[i].0 == k;
                if i < e.len() - 1 {
                    assert(p[i].0 == k);
                }
            }
            if has_key(p, k) {
                let i = choose|i: int| 0 <= i < p.len() && #[trigger] p[i].0 == k;
                assert(e[i].0 == k);
            }
            if k == last.0 {
                assert(e[e.len() - 1].0 == k);
            }
        }
        assert forall|k: Seq<char>| #[trigger] as_map(e).contains_key(k) implies as_map(e)[k] == as_map(p).insert(last.0, last.1)[k] by {
            let i = choose|i: int| 0 <= i < e.len() && #[trigger] e[i].0 == k;
            lemma_value_at(e, i);
            if i < e.len() - 1 {
                assert(p[i] == e[i]);
                lemma_value_at(p, i);
                assert(e[i].0 != e[e.len() - 1].0);
            }
        }
        assert(as_map(e) =~= as_map(p).insert(last.0, last.1));
    }
}

/// Restoring a state machine from the snapshot of another gives it the same
/// map: the snapshot's bytes are the encoding of the source's entries, and
/// a restore reads the entries whose encoding starts its bytes.
pub proof fn lemma_restore_gives_snapshot_map(
    source_entries: Seq<(Seq<char>, Seq<char>)>,
    source_map: Map<Seq<char>, Seq<char>>,
    bytes: Seq<u8>,
    restored_map: Map<Seq<char>, Seq<char>>,
)
    requires
        bytes == bincode_map_encoding(source_entries),
        map_of_pairs(source_entries) == source_map,
        forall|e: Seq<(Seq<char>, Seq<char>)>| #[trigger] bincode_map_encoding(e).is_prefix_of(bytes)
            ==> restored_map == map_of_pairs(e),
    ensures
        restored_map == source_map,
{
    assert(bytes.subrange(0, bytes.len() as int) =~= bytes);
    assert(bincode_map_encoding(source_entries).is_prefix_of(bytes));
}

fn rebuild(pairs: Vec<(String, String)>) -> (r: Vec<(String, String)>)
    ensures
        distinct_keys(entries(r@)),
        as_map(entries(r@)) == map_of_pairs(entries(pairs@)),
{
    let ghost e = entries(pairs@);
    let mut out: Vec<(String, String)> = Vec::new();
    assert(as_map(entries(out@)) =~= Map::<Seq<char>, Seq<char>>::empty());
    let mut i: usize = 0;
    while i < pairs.len()
        invariant
            i <= pairs@.len(),
            e == entries(pairs@),
            distinct_keys(entries(out@)),
            as_map(entries(out@)) == map_of_pairs(e.take(i as int)),
        decreases pairs@.len() - i,
    {
        let k = pairs[i].0.clone();
        let v = pairs[i].1.clone();
        entries_put(&mut out, k, v);
        assert(e.take(i as int + 1).drop_last() =~= e.take(i as int));
        i = i + 1;
    }
    assert(e.take(e.len() as int) =~= e);
    out
}

/// A state machine holding a map of text keys to text values.
pub struct KeyValueStateMachine {
    data: Vec<(String, String)>,
}

impl KeyValueStateMachine {
    /// The entries, one per key.
    pub closed spec fn entries(&self) -> Seq<(Seq<char>, Seq<char>)> {
        entries(self.data@)
    }

    /// The map held.
    pub open spec fn map(&self) -> Map<Seq<char>, Seq<char>> {
        as_map(self.entries())
    }

    #[verifier::type_invariant]
    spec fn wf(&self) -> bool {
        distinct_keys(entries(self.data@))
    }

    /// An empty state machine.
    pub fn new() -> (r: Self)
        ensures
            r.map() == Map::<Seq<char>, Seq<char>>::empty(),
            r.entries().len() == 0,
    {
        let r = KeyValueStateMachine { data: Vec::new() };
        assert(r.map() =~= Map::<Seq<char>, Seq<char>>::empty());
        r
    }

    /// The value of a key.
    pub fn get(&self, key: &str) -> (r: Option<String>)
        ensures
            match r {
                Some(v) => self.map().contains_key(key@) && self.map()[key@] == v@,
                None => !self.map().contains_key(key@),
            },
    {
        proof { use_type_invariant(self); }
        let k = String::from_str(key);
        match entries_find(&self.data, &k) {
            Some(i) => {
                proof { crate::raft::kv_example::lemma_value_at(self.entries(), i as int); }
                Some(self.data[i].1.clone())
            },
            None => None,
        }
    }

    /// The keys, in the order they were first set, that start with the
    /// prefix (all of them when there is none).
    pub fn list(&self, prefix: Option<&str>) -> (r: Vec<String>)
        ensures
            r@.map_values(|s: String| s@) == listed_keys(
                self.entries(),
                match prefix {
                    Some(p) => Some(p@),
                    None => None,
                },
            ),
    {
        let p = match prefix {
            Some(x) => Some(String::from_str(x)),
            None => None,
        };
        entries_list(&self.data, &p)
    }

    /// The number of keys.
    pub fn len(&self) -> (r: usize)
        ensures
            r == self.map().len(),
    {
        proof {
            use_type_invariant(self);
            crate::raft::kv_example::lemma_map_len(self.entries());
        }
        self.data.len()
    }

    /// Whether no key is held.
    pub fn is_empty(&self) -> (r: bool)
        ensures
            r == (self.map().len() == 0),
    {
        proof {
            use_type_invariant(self);
            crate::raft::kv_example::lemma_map_len(self.entries());
        }
        self.data.len() == 0
    }

    /// Apply an operation and give its answer.
    pub fn apply_op(&mut self, op: &KeyValueOp) -> (r: Vec<u8>)
        ensures
            final(self).map() == op_map(old(self).map(), *op),
            r@ == op_reply(old(self).entries(), *op),
            (*op is Get || *op is List) ==> final(self).entries() == old(self).entries(),
    {
        proof { use_type_invariant(&*self); }
        let mut data = Vec::new();
        std::mem::swap(&mut data, &mut self.data);
        let r = match op {
            KeyValueOp::SetValue { key, value } => {
                entries_put(&mut data, key.clone(), value.clone());
                vec![111u8, 107u8]
            },
            KeyValueOp::Delete { key } => {
                if entries_remove(&mut data, key) {
                    vec![100u8, 101u8, 108u8, 101u8, 116u8, 101u8, 100u8]
                } else {
                    vec![110u8, 111u8, 116u8, 95u8, 102u8, 111u8, 117u8, 110u8, 100u8]
                }
            },
            KeyValueOp::Get { key } => {
                match entries_find(&data, key) {
                    Some(i) => {
                        proof { crate::raft::kv_example::lemma_value_at(entries(data@), i as int); }
                        text_bytes(data[i].1.clone())
                    },
                    None => {
                        assert(encode_utf8(Seq::<char>::empty()) =~= Seq::<u8>::empty());
                        text_bytes(String::new())
                    },
                }
            },
            KeyValueOp::List { prefix } => {
                let keys = entries_list(&data, prefix);
                text_bytes(join_lines(&keys))
            },
        };
        self.data = data;
        r
    }
}

impl NodeStateMachine for KeyValueStateMachine {
    /// Apply a key-value operation as `apply_op` does; acknowledge any other
    /// proposal with `ack`.
    fn apply(&mut self, index: u64, data: &ProposalData) -> (r: Result<Vec<u8>, RaftError>)
        ensures
            match *data {
                ProposalData::KeyValue(op) => {
                    &&& final(self).map() == op_map(old(self).map(), op)
                    &&& r matches Ok(b) && b@ == op_reply(old(self).entries(), op)
                },
                ProposalData::Raw(_) => {
                    &&& final(self).entries() == old(self).entries()
                    &&& r matches Ok(b) && b@ == ack_bytes()
                },
            },
    {
        let _ = index;
        match data {
            ProposalData::KeyValue(op) => Ok(self.apply_op(op)),
            ProposalData::Raw(_) => Ok(vec![97u8, 99u8, 107u8]),
        }
    }

    /// The bincode encoding of the map; it always succeeds.
    fn snapshot(&self) -> (r: Result<Vec<u8>, RaftError>)
        ensures
            r matches Ok(b) && b@ == bincode_map_encoding(self.entries())
                && map_of_pairs(self.entries()) == self.map(),
    {
        proof {
            use_type_invariant(self);
            lemma_pairs_map(self.entries());
        }
        match encode_map_entries(&self.data) {
            Ok(b) => Ok(b),
            Err(e) => Err(RaftError::Serialization { message_type: String::from_str("snapshot state machine"), details: e }),
        }
    }

    /// Replace the map by the one encoded; a key encoded twice keeps its
    /// last value.
    fn restore(&mut self, data: &[u8]) -> (r: Result<(), RaftError>)
        ensures
            forall|e: Seq<(Seq<char>, Seq<char>)>| #[trigger] bincode_map_encoding(e).is_prefix_of(data@)
                ==> (r is Ok && final(self).map() == map_of_pairs(e)),
            r is Ok ==> exists|e: Seq<(Seq<char>, Seq<char>)>| #[trigger] bincode_map_encoding(e).is_prefix_of(data@),
            r is Err ==> (r matches Err(RaftError::Serialization { message_type, .. })
                && message_type@ == "restore state machine"@
                && final(self).entries() == old(self).entries()),
    {
        match decode_map_entries(data) {
            Ok(pairs) => {
                let rebuilt = rebuild(pairs);
                self.data = rebuilt;
                Ok(())
            },
            Err(e) => Err(RaftError::Serialization { message_type: String::from_str("restore state machine"), details: e }),
        }
    }
}


/// The election tick of the consensus configuration: how many heartbeat
/// intervals make up the (shortest) election timeout, rounded down; the
/// heartbeat tick is one.
pub fn election_tick(config: &Config) -> (r: usize)
    requires
        config.raft.heartbeat_interval_ms > 0,
        config.raft.election_timeout_min_ms / config.raft.heartbeat_interval_ms <= usize::MAX,
    ensures
        r == config.raft.election_timeout_min_ms / config.raft.heartbeat_interval_ms,
{
    (config.raft.election_timeout_min_ms / config.raft.heartbeat_interval_ms) as usize
}

/// Builder pairing a node configuration with a state machine.
pub struct RaftNodeBuilder<S> {
    /// The node configuration
    pub config: Config,
    /// The state machine, when one was given
    pub state_machine: Option<S>,
}

impl RaftNodeBuilder<KeyValueStateMachine> {
    /// A builder for a node with the key-value state machine, which is made
    /// when the node is built.
    pub fn new(config: Config) -> (r: Self)
        ensures
            r.config == config,
            r.state_machine is None,
    {
        RaftNodeBuilder { config, state_machine: None }
    }
}

impl<S: NodeStateMachine> RaftNodeBuilder<S> {
    /// A builder for a node with the given state machine.
    pub fn with_state_machine(config: Config, state_machine: S) -> (r: RaftNodeBuilder<S>)
        ensures
            r.config == config,
            r.state_machine == Some(state_machine),
    {
        RaftNodeBuilder { config, state_machine: Some(state_machine) }
    }
}

} // verus!
