//! Tables kept in a concurrent `dashmap::DashMap`, keyed by name: named
//! counts, and named latency histograms.  What a table holds is its
//! contents: a map from each name to its count, or to its histogram's bucket
//! counts and boundaries.  `DashMap` writes through a shared reference; here
//! each table is a private field changed only through `&mut` access, so a
//! shared reference always reads what the contents say.

use vstd::prelude::*;
use crate::lock_free::LockFreeHistogram;

verus! {

/// The concurrent map type of the `dashmap` crate.
#[verifier::external_type_specification]
#[verifier::external_body]
#[verifier::reject_recursive_types(K)]
#[verifier::reject_recursive_types(V)]
#[verifier::reject_recursive_types(S)]
pub struct ExDashMap<K, V, S>(dashmap::DashMap<K, V, S>);

/// What a table of named counts holds: each name's count.
pub uninterp spec fn tally_contents(table: dashmap::DashMap<String, u64>) -> Map<Seq<char>, u64>;

/// The count of a name in a table, if it has one.
pub open spec fn tally_get(table: dashmap::DashMap<String, u64>, name: Seq<char>) -> Option<u64> {
    if tally_contents(table).dom().contains(name) {
        Some(tally_contents(table)[name])
    } else {
        None
    }
}

/// The contents of an empty table.
pub open spec fn no_counts() -> Map<Seq<char>, u64> {
    Map::empty()
}

/// `DashMap::new`: an empty table.
#[verifier::external_body]
pub(crate) fn tally_new() -> (r: dashmap::DashMap<String, u64>)
    ensures
        tally_contents(r) == no_counts(),
{
    dashmap::DashMap::new()
}

/// `DashMap::get`, the count copied out: the count stored under the name,
/// if any.
#[verifier::external_body]
pub(crate) fn tally_read(table: &dashmap::DashMap<String, u64>, name: &str) -> (r: Option<u64>)
    ensures
        r == tally_get(*table, name@),
{
    table.get(name).map(|count| *count)
}

/// `DashMap::insert`: the table with the name's count set, every other
/// name's count as it was.
#[verifier::external_body]
pub(crate) fn tally_write(table: &mut dashmap::DashMap<String, u64>, name: String, count: u64)
    ensures
        tally_contents(*final(table)) == tally_contents(*old(table)).insert(name@, count),
{
    table.insert(name, count);
}

/// `DashMap::iter`, each entry copied out as a (name, count) pair: every
/// entry of the table once, in an order that the table's hasher decides.
#[verifier::external_body]
pub(crate) fn tally_entries(table: &dashmap::DashMap<String, u64>) -> (r: Vec<(String, u64)>)
    ensures
        forall|i: int, j: int| 0 <= i < j < r@.len() ==> #[trigger] r@[i].0@ != #[trigger] r@[j].0@,
        forall|i: int| 0 <= i < r@.len() ==> tally_get(*table, (#[trigger] r@[i]).0@) == Some(r@[i].1),
        forall|n: Seq<char>| #[trigger] tally_get(*table, n) is Some
            ==> exists|i: int| 0 <= i < r@.len() && (#[trigger] r@[i]).0@ == n,
{
    table.iter().map(|entry| (entry.key().clone(), *entry.value())).collect()
}

/// What a table of named histograms holds: each name's bucket counts and
/// boundaries.
pub uninterp spec fn histogram_contents(table: dashmap::DashMap<String, LockFreeHistogram>) -> Map<Seq<char>, (Seq<u64>, Seq<u64>)>;

/// The contents of an empty histogram table.
pub open spec fn no_histograms() -> Map<Seq<char>, (Seq<u64>, Seq<u64>)> {
    Map::empty()
}

/// `DashMap::new`: an empty histogram table.
#[verifier::external_body]
pub(crate) fn histograms_new() -> (r: dashmap::DashMap<String, LockFreeHistogram>)
    ensures
        histogram_contents(r) == no_histograms(),
{
    dashmap::DashMap::new()
}

/// `DashMap::get`, the histogram copied out: a copy of the histogram stored
/// under the name, if any.
#[verifier::external_body]
pub(crate) fn histograms_read(table: &dashmap::DashMap<String, LockFreeHistogram>, name: &str) -> (r: Option<LockFreeHistogram>)
    ensures
        r is Some <==> histogram_contents(*table).dom().contains(name@),
        r matches Some(h) ==> (h.counts(), h.boundaries()) == histogram_contents(*table)[name@],
{
    table.get(name).map(|h| h.duplicate())
}

/// `DashMap::insert`: the table with the name's histogram set, every other
/// name's as it was.
#[verifier::external_body]
pub(crate) fn histograms_write(table: &mut dashmap::DashMap<String, LockFreeHistogram>, name: String, h: LockFreeHistogram)
    ensures
        histogram_contents(*final(table)) == histogram_contents(*old(table)).insert(name@, (h.counts(), h.boundaries())),
{
    table.insert(name, h);
}

} // verus!
