//! Facts about sequences that several modules use.
use vstd::prelude::*;

verus! {

/// Filtering a sequence with one more element at its end keeps that element
/// at the end exactly when it passes the filter.
pub(crate) proof fn lemma_filter_push<A>(s: Seq<A>, pred: spec_fn(A) -> bool, e: A)
    ensures
        pred(e) ==> s.push(e).filter(pred) == s.filter(pred).push(e),
        !pred(e) ==> s.push(e).filter(pred) == s.filter(pred),
{
    reveal(Seq::filter);
    assert(s.push(e).drop_last() =~= s);
}

} // verus!
