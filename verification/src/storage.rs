//! The rules of the persistent Raft log: which entries a read returns,
//! where the log starts and ends around the last snapshot, the term of an
//! index, and which entries compaction and snapshots drop.
//!
//! Reading and writing the database belong to the caller, which hands over
//! the values read (the sizes of stored entries, the stored indexes, the
//! metadata of the stored snapshot) and acts on the answers.

use vstd::prelude::*;

verus! {

/// Index and term of the last entry a snapshot covers.
#[derive(Debug, Clone, Copy, PartialEq, Eq, Structural)]
pub struct SnapshotMeta {
    /// Index of the last entry covered
    pub index: u64,
    /// Term of that entry
    pub term: u64,
}

/// Why the storage cannot answer.
#[derive(Debug, Clone, Copy, PartialEq, Eq, Structural)]
pub enum StorageFailure {
    /// A requested entry is not stored
    Unavailable,
    /// No snapshot recent enough is stored yet
    SnapshotTemporarilyUnavailable,
}

/// The sum of the first `n` sizes.
pub open spec fn size_prefix(sizes: Seq<u64>, n: int) -> int
    decreases n,
{
    if n <= 0 { 0 } else { size_prefix(sizes, n - 1) + sizes[n - 1] }
}

/// `n` is how many of the entries, read in order, fit within the size
/// limit: the first `n` entries fit one by one, and the reading stops there
/// because the next entry would take the total past the limit, or because
/// there is none.
pub open spec fn is_fitting_count(sizes: Seq<u64>, limit: int, n: int) -> bool {
    &&& 0 <= n <= sizes.len()
    &&& forall|k: int| 0 <= k < n ==> #[trigger] size_prefix(sizes, k + 1) <= limit
    &&& (n == sizes.len() || size_prefix(sizes, n + 1) > limit)
}

proof fn lemma_prefix_monotone(sizes: Seq<u64>, a: int, b: int)
    requires
        0 <= a <= b <= sizes.len(),
    ensures
        size_prefix(sizes, a) <= size_prefix(sizes, b),
    decreases b - a,
{
    if a < b {
        lemma_prefix_monotone(sizes, a, b - 1);
    }
}

/// The number of entries a read returns, given the sizes of the entries
/// from the low index on and the optional size limit (no limit when none).
pub fn entries_within_limit(sizes: &Vec<u64>, max_size: Option<u64>) -> (r: usize)
    ensures
        is_fitting_count(sizes@, match max_size { Some(m) => m as int, None => u64::MAX as int }, r as int),
{
    let limit: u64 = match max_size {
        Some(m) => m,
        None => u64::MAX,
    };
    let ghost lim = limit as int;
    let mut total: u128 = 0;
    let mut i: usize = 0;
    while i < sizes.len()
        invariant
            i <= sizes@.len(),
            lim == limit as int,
            lim == (match max_size { Some(m) => m as int, None => u64::MAX as int }),
            total == size_prefix(sizes@, i as int),
            total <= limit,
            forall|k: int| 0 <= k < i ==> #[trigger] size_prefix(sizes@, k + 1) <= lim,
        decreases sizes@.len() - i,
    {
        if total + sizes[i] as u128 > limit as u128 {
            assert(size_prefix(sizes@, i as int + 1) > lim);
            return i;
        }
        total = total + sizes[i] as u128;
        i = i + 1;
    }
    i
}

/// The term of an index: 0 for index 0, the snapshot's term for the index
/// it covers last, the stored entry's term otherwise, and unavailable when
/// the entry is not stored.
pub open spec fn term_spec(index: u64, snapshot: Option<SnapshotMeta>, stored_term: Option<u64>) -> Result<u64, StorageFailure> {
    if index == 0 {
        Ok(0)
    } else if snapshot is Some && snapshot.unwrap().index == index {
        Ok(snapshot.unwrap().term)
    } else {
        match stored_term {
            Some(t) => Ok(t),
            None => Err(StorageFailure::Unavailable),
        }
    }
}

/// The term of an index, given the stored snapshot's metadata and the term
/// of the entry stored at the index, if any.
pub fn term_of(index: u64, snapshot: Option<SnapshotMeta>, stored_term: Option<u64>) -> (r: Result<u64, StorageFailure>)
    ensures
        r == term_spec(index, snapshot, stored_term),
{
    if index == 0 {
        return Ok(0);
    }
    match snapshot {
        Some(meta) => {
            if meta.index == index {
                return Ok(meta.term);
            }
        },
        None => {},
    }
    match stored_term {
        Some(t) => Ok(t),
        None => Err(StorageFailure::Unavailable),
    }
}

/// The first index of the log: just after the snapshot when there is one,
/// else the first stored index, else 1.
pub open spec fn first_index_spec(snapshot: Option<SnapshotMeta>, first_stored: Option<u64>) -> u64 {
    match snapshot {
        Some(meta) => (meta.index + 1) as u64,
        None => match first_stored {
            Some(k) => k,
            None => 1,
        },
    }
}

/// The first index of the log.
pub fn first_index(snapshot: Option<SnapshotMeta>, first_stored: Option<u64>) -> (r: u64)
    requires
        snapshot matches Some(meta) ==> meta.index < u64::MAX,
    ensures
        r == first_index_spec(snapshot, first_stored),
{
    match snapshot {
        Some(meta) => meta.index + 1,
        None => match first_stored {
            Some(k) => k,
            None => 1,
        },
    }
}

/// The last index of the log: the last stored index, else the snapshot's,
/// else 0.
pub open spec fn last_index_spec(last_stored: Option<u64>, snapshot: Option<SnapshotMeta>) -> u64 {
    match last_stored {
        Some(k) => k,
        None => match snapshot {
            Some(meta) => meta.index,
            None => 0,
        },
    }
}

/// The last index of the log.
pub fn last_index(last_stored: Option<u64>, snapshot: Option<SnapshotMeta>) -> (r: u64)
    ensures
        r == last_index_spec(last_stored, snapshot),
{
    match last_stored {
        Some(k) => k,
        None => match snapshot {
            Some(meta) => meta.index,
            None => 0,
        },
    }
}

/// Whether the stored snapshot answers a request for one at
/// `request_index`: only one covering at least that index does.
pub fn snapshot_available(request_index: u64, snapshot: Option<SnapshotMeta>) -> (r: Result<(), StorageFailure>)
    ensures
        match snapshot {
            Some(meta) if meta.index >= request_index => r is Ok,
            _ => r == Err::<(), StorageFailure>(StorageFailure::SnapshotTemporarilyUnavailable),
        },
{
    match snapshot {
        Some(meta) => {
            if meta.index >= request_index {
                Ok(())
            } else {
                Err(StorageFailure::SnapshotTemporarilyUnavailable)
            }
        },
        None => Err(StorageFailure::SnapshotTemporarilyUnavailable),
    }
}

/// The stored indexes that compaction up to `compact_index` removes: those
/// below it, in order.
pub fn entries_to_compact(stored: &Vec<u64>, compact_index: u64) -> (r: Vec<u64>)
    ensures
        r@ == stored@.filter(|k: u64| k < compact_index),
{
    let ghost keep = |k: u64| k < compact_index;
    let mut out: Vec<u64> = Vec::new();
    let mut i: usize = 0;
    while i < stored.len()
        invariant
            i <= stored@.len(),
            keep == (|k: u64| k < compact_index),
            out@ == stored@.take(i as int).filter(keep),
        decreases stored@.len() - i,
    {
        proof { crate::seqs::lemma_filter_take_step(stored@, keep, i as int); }
        if stored[i] < compact_index {
            out.push(stored[i]);
        }
        i = i + 1;
    }
    proof { crate::seqs::lemma_take_all(stored@); }
    out
}

/// The stored indexes a snapshot up to `snapshot_index` replaces: those up
/// to and including it, in order.
pub fn entries_covered_by_snapshot(stored: &Vec<u64>, snapshot_index: u64) -> (r: Vec<u64>)
    ensures
        r@ == stored@.filter(|k: u64| k <= snapshot_index),
{
    let ghost keep = |k: u64| k <= snapshot_index;
    let mut out: Vec<u64> = Vec::new();
    let mut i: usize = 0;
    while i < stored.len()
        invariant
            i <= stored@.len(),
            keep == (|k: u64| k <= snapshot_index),
            out@ == stored@.take(i as int).filter(keep),
        decreases stored@.len() - i,
    {
        proof { crate::seqs::lemma_filter_take_step(stored@, keep, i as int); }
        if stored[i] <= snapshot_index {
            out.push(stored[i]);
        }
        i = i + 1;
    }
    proof { crate::seqs::lemma_take_all(stored@); }
    out
}

/// The applied index of the storage: the commit index of the stored hard
/// state, or 0 when none is stored.
pub fn applied_index(stored_commit: Option<u64>) -> (r: u64)
    ensures
        r == match stored_commit { Some(c) => c, None => 0 },
{
    match stored_commit {
        Some(c) => c,
        None => 0,
    }
}

/// The entries a read returns never total more than the limit.
pub proof fn lemma_read_within_limit(sizes: Seq<u64>, limit: int, n: int)
    requires
        is_fitting_count(sizes, limit, n),
        0 <= limit,
    ensures
        size_prefix(sizes, n) <= limit,
{
    if n > 0 {
        assert(size_prefix(sizes, (n - 1) + 1) <= limit);
    }
}

} // verus!
