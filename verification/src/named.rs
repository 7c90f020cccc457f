//! Lists of (name, value) entries in which no name occurs twice.

use vstd::prelude::*;

verus! {

/// No name occurs twice.
pub open spec fn names_distinct<V>(s: Seq<(String, V)>) -> bool {
    forall|i: int, j: int| 0 <= i < j < s.len() ==> #[trigger] s[i].0@ != #[trigger] s[j].0@
}

} // verus!
