//! Facts about filtering a sequence that is being edited.

use vstd::prelude::*;

verus! {

/// Filtering after a push filters the pushed element too.
pub proof fn lemma_filter_push<A>(s: Seq<A>, x: A, pred: spec_fn(A) -> bool)
    ensures
        s.push(x).filter(pred) == if pred(x) {
            s.filter(pred).push(x)
        } else {
            s.filter(pred)
        },
{
    reveal(Seq::filter);
    assert(s.push(x).drop_last() == s);
}

/// Filtering after a removal leaves out the removed element at most.
pub proof fn lemma_filter_remove<A>(s: Seq<A>, i: int, pred: spec_fn(A) -> bool)
    requires
        0 <= i < s.len(),
    ensures
        !pred(s[i]) ==> s.remove(i).filter(pred) == s.filter(pred),
        s.remove(i).filter(pred).len() + (if pred(s[i]) { 1int } else { 0int }) == s.filter(pred).len(),
{
    let head = s.take(i);
    let tail = s.skip(i + 1);
    assert(s == head.push(s[i]) + tail);
    assert(s.remove(i) == head + tail);
    lemma_filter_push(head, s[i], pred);
    Seq::filter_distributes_over_add(head.push(s[i]), tail, pred);
    Seq::filter_distributes_over_add(head, tail, pred);
}

} // verus!
