use vstd::prelude::*;

verus! {

/// The stores model their contents as a sequence of key/value bindings in
/// insertion order; the binding pushed last wins, so the sequence denotes a
/// map with overwrite-on-insert semantics.
pub open spec fn assoc_get<V>(s: Seq<(Seq<char>, V)>, k: Seq<char>) -> Option<V>
    decreases s.len(),
{
    if s.len() == 0 {
        None
    } else if s.last().0 == k {
        Some(s.last().1)
    } else {
        assoc_get(s.drop_last(), k)
    }
}

/// Pushing a binding changes the lookup of its key alone.
pub proof fn lemma_assoc_get_push<V>(s: Seq<(Seq<char>, V)>, e: (Seq<char>, V), k: Seq<char>)
    ensures
        assoc_get(s.push(e), k) == (if e.0 == k {
            Some(e.1)
        } else {
            assoc_get(s, k)
        }),
{
    assert(s.push(e).drop_last() =~= s);
}

} // verus!
