//! Facts about filtered sequences that the proofs of the crate share.

use vstd::prelude::*;

verus! {

/// A filter decides on the last item of a sequence after the others.
pub proof fn lemma_filter_step<A>(items: Seq<A>, keep: spec_fn(A) -> bool)
    requires
        items.len() > 0,
    ensures
        items.filter(keep) == if keep(items.last()) {
            items.drop_last().filter(keep).push(items.last())
        } else {
            items.drop_last().filter(keep)
        },
{
    reveal(Seq::filter);
}

/// A filter of nothing keeps nothing.
pub proof fn lemma_filter_empty<A>(keep: spec_fn(A) -> bool)
    ensures
        Seq::<A>::empty().filter(keep) == Seq::<A>::empty(),
{
    reveal(Seq::filter);
}

/// A filter that accepts every item changes nothing.
pub proof fn lemma_filter_all<A>(items: Seq<A>, keep: spec_fn(A) -> bool)
    requires
        forall|i: int| 0 <= i < items.len() ==> keep(#[trigger] items[i]),
    ensures
        items.filter(keep) == items,
    decreases items.len(),
{
    if items.len() == 0 {
        lemma_filter_empty(keep);
        assert(items =~= Seq::<A>::empty());
    } else {
        lemma_filter_step(items, keep);
        lemma_filter_all(items.drop_last(), keep);
        assert(items.drop_last().push(items.last()) =~= items);
    }
}

/// A filter that accepts no item keeps nothing.
pub proof fn lemma_filter_none<A>(items: Seq<A>, keep: spec_fn(A) -> bool)
    requires
        forall|i: int| 0 <= i < items.len() ==> !keep(#[trigger] items[i]),
    ensures
        items.filter(keep) == Seq::<A>::empty(),
    decreases items.len(),
{
    if items.len() == 0 {
        lemma_filter_empty(keep);
        assert(items =~= Seq::<A>::empty());
    } else {
        lemma_filter_step(items, keep);
        lemma_filter_none(items.drop_last(), keep);
    }
}

/// The filter of the first `upto + 1` items, from that of the first `upto`.
pub proof fn lemma_filter_take_next<A>(items: Seq<A>, keep: spec_fn(A) -> bool, upto: int)
    requires
        0 <= upto < items.len(),
    ensures
        items.take(upto + 1).filter(keep) == if keep(items[upto]) {
            items.take(upto).filter(keep).push(items[upto])
        } else {
            items.take(upto).filter(keep)
        },
{
    let done = items.take(upto + 1);
    assert(done.drop_last() =~= items.take(upto));
    lemma_filter_step(done, keep);
}

/// A sequence with one more item holds what it held, and that item.
pub proof fn lemma_push_contains<A>(items: Seq<A>, last: A, item: A)
    ensures
        items.push(last).contains(item) <==> (items.contains(item) || last == item),
{
    let longer = items.push(last);
    if items.contains(item) {
        let i = choose|i: int| 0 <= i < items.len() && items[i] == item;
        assert(longer[i] == item);
    }
    if last == item {
        assert(longer[items.len() as int] == item);
    }
    if longer.contains(item) {
        let i = choose|i: int| 0 <= i < longer.len() && longer[i] == item;
        if i < items.len() {
            assert(items[i] == item);
        }
    }
}

/// No two items have the same key.
pub open spec fn distinct_by<A, K>(items: Seq<A>, key: spec_fn(A) -> K) -> bool {
    forall|i: int, j: int| 0 <= i < j < items.len() ==> key(items[i]) != key(items[j])
}

/// A filter of items with distinct keys keeps items with distinct keys.
pub proof fn lemma_filter_keeps_distinct<A, K>(
    items: Seq<A>,
    key: spec_fn(A) -> K,
    keep: spec_fn(A) -> bool,
)
    requires
        distinct_by(items, key),
    ensures
        distinct_by(items.filter(keep), key),
    decreases items.len(),
{
    if items.len() == 0 {
        lemma_filter_empty(keep);
        assert(items =~= Seq::<A>::empty());
    } else {
        let front = items.drop_last();
        lemma_filter_step(items, keep);
        assert(distinct_by(front, key)) by {
            assert forall|i: int, j: int| 0 <= i < j < front.len() implies key(front[i]) != key(
                front[j],
            ) by {
                assert(front[i] == items[i] && front[j] == items[j]);
            }
        }
        lemma_filter_keeps_distinct(front, key, keep);
        let kept = front.filter(keep);
        if keep(items.last()) {
            assert forall|i: int| 0 <= i < kept.len() implies key(kept[i]) != key(
                items.last(),
            ) by {
                assert(kept.contains(kept[i]));
                front.lemma_filter_contains_rev(keep, kept[i]);
                let j = choose|j: int| 0 <= j < front.len() && front[j] == kept[i];
                assert(items[j] == front[j]);
            }
        }
    }
}

} // verus!
