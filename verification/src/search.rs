//! First and last occurrences of a value in a sequence.

use vstd::prelude::*;

verus! {

/// Whether `i` is the first position of `s` that holds `v`.
pub open spec fn is_first_index_of<A>(s: Seq<A>, v: A, i: int) -> bool {
    &&& 0 <= i < s.len()
    &&& s[i] == v
    &&& forall|j: int| 0 <= j < i ==> s[j] != v
}

/// Whether `i` is the last position of `s` that holds `v`.
pub open spec fn is_last_index_of<A>(s: Seq<A>, v: A, i: int) -> bool {
    &&& 0 <= i < s.len()
    &&& s[i] == v
    &&& forall|j: int| i < j < s.len() ==> s[j] != v
}

/// The first position of `s` that holds `v`, where `s` contains `v`.
pub open spec fn first_index_of<A>(s: Seq<A>, v: A) -> int {
    choose|i: int| is_first_index_of(s, v, i)
}

/// The last position of `s` that holds `v`, where `s` contains `v`.
pub open spec fn last_index_of<A>(s: Seq<A>, v: A) -> int {
    choose|i: int| is_last_index_of(s, v, i)
}

/// A first position is the only one, and shows that the value occurs.
pub proof fn lemma_first_index_unique<A>(s: Seq<A>, v: A, i: int)
    requires
        is_first_index_of(s, v, i),
    ensures
        first_index_of(s, v) == i,
        s.contains(v),
{
    let k = first_index_of(s, v);
    assert(is_first_index_of(s, v, k));
}

/// A last position is the only one, and shows that the value occurs.
pub proof fn lemma_last_index_unique<A>(s: Seq<A>, v: A, i: int)
    requires
        is_last_index_of(s, v, i),
    ensures
        last_index_of(s, v) == i,
        s.contains(v),
{
    let k = last_index_of(s, v);
    assert(is_last_index_of(s, v, k));
}

} // verus!
