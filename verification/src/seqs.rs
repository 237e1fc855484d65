//! Small facts about sequences that the filtering and counting loops share.

use vstd::prelude::*;

verus! {

/// Filtering one element more either appends that element or changes nothing.
pub proof fn lemma_filter_step<A>(s: Seq<A>, pred: spec_fn(A) -> bool, i: int)
    requires
        0 <= i < s.len(),
    ensures
        s.take(i + 1).filter(pred) == if pred(s[i]) {
            s.take(i).filter(pred).push(s[i])
        } else {
            s.take(i).filter(pred)
        },
{
    let head = s.take(i);
    let one = seq![s[i]];
    assert(s.take(i + 1) == head + one);
    Seq::filter_distributes_over_add(head, one, pred);
    reveal(Seq::filter);
    assert(one.drop_last() == Seq::<A>::empty());
    assert(one.drop_last().filter(pred) == Seq::<A>::empty());
    assert(one.filter(pred) == if pred(s[i]) {
        one
    } else {
        Seq::<A>::empty()
    });
    assert(head + one == head.push(s[i]));
    assert(head.filter(pred) + one == head.filter(pred).push(s[i]));
    assert(head.filter(pred) + Seq::<A>::empty() == head.filter(pred));
}

/// Nothing is left of an empty prefix.
pub proof fn lemma_filter_start<A>(s: Seq<A>, pred: spec_fn(A) -> bool)
    ensures
        s.take(0).filter(pred) == Seq::<A>::empty(),
        s.take(s.len() as int) == s,
{
    reveal(Seq::filter);
    assert(s.take(0) == Seq::<A>::empty());
    assert(s.take(s.len() as int) == s);
}

/// How many elements of `s` satisfy `pred`.
pub open spec fn count<A>(s: Seq<A>, pred: spec_fn(A) -> bool) -> nat {
    s.filter(pred).len()
}

/// Counting one element more adds one exactly when it satisfies `pred`.
pub proof fn lemma_count_step<A>(s: Seq<A>, pred: spec_fn(A) -> bool, i: int)
    requires
        0 <= i < s.len(),
    ensures
        count(s.take(i + 1), pred) == count(s.take(i), pred) + if pred(s[i]) {
            1nat
        } else {
            0nat
        },
        count(s.take(i), pred) <= i,
{
    lemma_filter_step(s, pred, i);
    s.take(i).lemma_filter_len(pred);
}

} // verus!
