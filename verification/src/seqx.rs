//! Small general lemmas about sequences and their multisets.

use vstd::prelude::*;

verus! {

/// An empty sequence's multiset counts nothing.
pub proof fn lemma_empty_to_multiset<A>(s: Seq<A>)
    requires
        s.len() == 0,
    ensures
        forall|a: A| #[trigger] s.to_multiset().count(a) == 0,
        s.to_multiset().len() == 0,
{
    broadcast use vstd::seq_lib::group_to_multiset_ensures;
    broadcast use vstd::multiset::group_multiset_axioms;

    assert forall|a: A| #[trigger] s.to_multiset().count(a) == 0 by {
        assert(s.to_multiset().count(a) <= s.to_multiset().len());
    }
}

/// Inserting into a sequence inserts into its multiset.
pub proof fn lemma_seq_insert_to_multiset<A>(s: Seq<A>, i: int, a: A)
    requires
        0 <= i <= s.len(),
    ensures
        s.insert(i, a).to_multiset() == s.to_multiset().insert(a),
{
    broadcast use vstd::seq_lib::group_to_multiset_ensures;
    broadcast use vstd::multiset::group_multiset_axioms;

    let t = s.insert(i, a);
    assert(t.remove(i) =~= s);
    assert(t[i] == a);
    assert(t.remove(i).to_multiset() =~= t.to_multiset().remove(a));
    assert(t.contains(a));
    assert(t.to_multiset().count(a) > 0);
    assert(t.to_multiset() =~= s.to_multiset().insert(a));
}

} // verus!
