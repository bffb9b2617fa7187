//! Facts about sequences.
use vstd::prelude::*;

verus! {

/// Filtering one element more adds that element, where the predicate holds of it.
pub proof fn lemma_filter_take_next<A>(s: Seq<A>, pred: spec_fn(A) -> bool, i: int)
    requires
        0 <= i < s.len(),
    ensures
        s.take(i + 1).filter(pred) == (if pred(s[i]) {
            s.take(i).filter(pred).push(s[i])
        } else {
            s.take(i).filter(pred)
        }),
{
    reveal(Seq::filter);
    assert(s.take(i + 1).drop_last() =~= s.take(i));
}

/// Where the predicate holds at no index, filtering leaves nothing.
pub proof fn lemma_filter_none<A>(s: Seq<A>, pred: spec_fn(A) -> bool)
    requires
        forall|j: int| 0 <= j < s.len() ==> !pred(#[trigger] s[j]),
    ensures
        s.filter(pred).len() == 0,
    decreases s.len(),
{
    reveal(Seq::filter);
    if s.len() > 0 {
        lemma_filter_none(s.drop_last(), pred);
    }
}

/// Where the predicate holds at one index alone, filtering leaves the element there.
pub proof fn lemma_filter_one<A>(s: Seq<A>, pred: spec_fn(A) -> bool, i: int)
    requires
        0 <= i < s.len(),
        forall|j: int| 0 <= j < s.len() ==> (pred(#[trigger] s[j]) <==> j == i),
    ensures
        s.filter(pred) == seq![s[i]],
    decreases s.len(),
{
    reveal(Seq::filter);
    if i == s.len() - 1 {
        lemma_filter_none(s.drop_last(), pred);
        assert(s.filter(pred) =~= seq![s[i]]);
    } else {
        lemma_filter_one(s.drop_last(), pred, i);
    }
}

/// Where filtering leaves one element, the predicate holds at one index alone, and the element
/// stands there.
pub proof fn lemma_only_index<A>(s: Seq<A>, pred: spec_fn(A) -> bool) -> (i: int)
    requires
        s.filter(pred).len() == 1,
    ensures
        0 <= i < s.len(),
        s.filter(pred)[0] == s[i],
        forall|j: int| 0 <= j < s.len() ==> (pred(#[trigger] s[j]) <==> j == i),
    decreases s.len(),
{
    reveal(Seq::filter);
    if s.len() == 0 {
        0
    } else if pred(s.last()) {
        broadcast use Seq::lemma_filter_contains;

        let rest = s.drop_last();
        assert(rest.filter(pred).len() == 0);
        assert forall|j: int| 0 <= j < rest.len() implies !pred(#[trigger] rest[j]) by {
            if pred(rest[j]) {
                assert(rest.filter(pred).contains(rest[j]));
            }
        }
        assert forall|j: int| 0 <= j < s.len() implies (pred(#[trigger] s[j]) <==> j == s.len()
            - 1) by {
            if j < s.len() - 1 {
                assert(rest[j] == s[j]);
            }
        }
        s.len() - 1
    } else {
        let rest = s.drop_last();
        let i = lemma_only_index(rest, pred);
        assert forall|j: int| 0 <= j < s.len() implies (pred(#[trigger] s[j]) <==> j == i) by {
            if j < s.len() - 1 {
                assert(rest[j] == s[j]);
            }
        }
        i
    }
}

} // verus!
