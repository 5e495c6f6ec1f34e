//! Facts about filtered sequences that the loops of this library rest on.

use vstd::prelude::*;

verus! {

/// Filtering a sequence with one more element at its end keeps that element
/// where it passes the test, and is the filtered sequence otherwise.
pub proof fn lemma_filter_push<A>(s: Seq<A>, last: A, test: spec_fn(A) -> bool)
    ensures
        s.push(last).filter(test) == if test(last) {
            s.filter(test).push(last)
        } else {
            s.filter(test)
        },
{
    reveal(Seq::filter);
    assert(s.push(last).drop_last() =~= s);
    assert(s.push(last).last() == last);
}

/// Filtering the empty sequence leaves it empty.
pub proof fn lemma_filter_empty<A>(test: spec_fn(A) -> bool)
    ensures
        Seq::<A>::empty().filter(test) == Seq::<A>::empty(),
{
    reveal(Seq::filter);
}

} // verus!
