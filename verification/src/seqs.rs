//! Facts about sequences used by the loops of the library.

use vstd::prelude::*;

verus! {

/// Filtering a prefix one element longer adds that element when it passes.
pub proof fn lemma_filter_take_step<A>(s: Seq<A>, pred: spec_fn(A) -> bool, i: int)
    requires
        0 <= i < s.len(),
    ensures
        s.take(i + 1).filter(pred) == if pred(s[i]) {
            s.take(i).filter(pred).push(s[i])
        } else {
            s.take(i).filter(pred)
        },
{
    reveal(Seq::filter);
    assert(s.take(i + 1).drop_last() =~= s.take(i));
    assert(s.take(i + 1).last() == s[i]);
}

/// The whole sequence is its longest prefix.
pub proof fn lemma_take_all<A>(s: Seq<A>)
    ensures
        s.take(s.len() as int) == s,
{
    assert(s.take(s.len() as int) =~= s);
}

/// Every element of a filtered sequence passes the filter and comes from the
/// sequence; every element of the sequence that passes is kept.
pub proof fn lemma_filter_members<A>(s: Seq<A>, pred: spec_fn(A) -> bool)
    ensures
        forall|x: A| #[trigger] s.filter(pred).contains(x) <==> (s.contains(x) && pred(x)),
{
    broadcast use vstd::seq_lib::group_filter_ensures;
    assert forall|x: A| #[trigger] s.filter(pred).contains(x) <==> (s.contains(x) && pred(x)) by {
        if s.filter(pred).contains(x) {
            let k = choose|k: int| 0 <= k < s.filter(pred).len() && s.filter(pred)[k] == x;
            assert(pred(s.filter(pred)[k]));
            s.lemma_filter_contains_rev(pred, x);
        }
        if s.contains(x) && pred(x) {
            let k = choose|k: int| 0 <= k < s.len() && s[k] == x;
            assert(s.filter(pred).contains(s[k]));
        }
    }
}

/// Filtering keeps the relative order of the kept elements: two positions of
/// the result come from increasing positions of the source.
pub proof fn lemma_filter_order<A>(s: Seq<A>, pred: spec_fn(A) -> bool, a: int, b: int)
    requires
        0 <= a < b < s.filter(pred).len(),
    ensures
        exists|i: int, j: int| 0 <= i < j < s.len() && s[i] == s.filter(pred)[a] && s[j] == s.filter(pred)[b],
    decreases s.len(),
{
    reveal(Seq::filter);
    let rest = s.drop_last();
    let f = s.filter(pred);
    if pred(s.last()) && b == f.len() - 1 {
        assert(f == rest.filter(pred).push(s.last()));
        assert(f[a] == rest.filter(pred)[a]);
        assert(rest.filter(pred).contains(f[a]));
        rest.lemma_filter_contains_rev(pred, f[a]);
        let i = choose|i: int| 0 <= i < rest.len() && rest[i] == f[a];
        assert(s[i] == f[a]);
        assert(s[s.len() - 1] == f[b]);
    } else {
        assert(f[a] == rest.filter(pred)[a]);
        assert(f[b] == rest.filter(pred)[b]);
        lemma_filter_order(rest, pred, a, b);
        let (i, j) = choose|i: int, j: int| 0 <= i < j < rest.len() && rest[i] == rest.filter(pred)[a] && rest[j] == rest.filter(pred)[b];
        assert(s[i] == rest[i]);
        assert(s[j] == rest[j]);
    }
}

} // verus!
