//! The first item of a sequence that meets a condition.

use vstd::prelude::*;

verus! {

/// The position of the first item that `wanted` accepts, or the length of
/// `items` if it accepts none.
pub open spec fn first_where<T>(items: Seq<T>, wanted: spec_fn(T) -> bool) -> int
    decreases items.len(),
{
    if items.len() == 0 {
        0
    } else if wanted(items[0]) {
        0
    } else {
        1 + first_where(items.drop_first(), wanted)
    }
}

/// `first_where` stops at an item that `wanted` accepts and passes none.
pub proof fn lemma_first_where<T>(items: Seq<T>, wanted: spec_fn(T) -> bool)
    ensures
        0 <= first_where(items, wanted) <= items.len(),
        first_where(items, wanted) < items.len() ==> wanted(items[first_where(items, wanted)]),
        forall|k: int| 0 <= k < first_where(items, wanted) ==> !wanted(#[trigger] items[k]),
    decreases items.len(),
{
    if items.len() > 0 && !wanted(items[0]) {
        let rest = items.drop_first();
        lemma_first_where(rest, wanted);
        assert forall|k: int| 0 <= k < first_where(items, wanted) implies !wanted(
            #[trigger] items[k],
        ) by {
            if k > 0 {
                assert(items[k] == rest[k - 1]);
            }
        }
    }
}

/// A position that holds an accepted item or is the end of `items`, with no
/// accepted item before it, is the one that `first_where` gives.
pub proof fn lemma_first_where_is<T>(items: Seq<T>, wanted: spec_fn(T) -> bool, at: int)
    requires
        0 <= at <= items.len(),
        forall|k: int| 0 <= k < at ==> !wanted(#[trigger] items[k]),
        at < items.len() ==> wanted(items[at]),
    ensures
        first_where(items, wanted) == at,
{
    lemma_first_where(items, wanted);
}

/// Whether `wanted` accepts no two items at different positions.
pub open spec fn at_most_one<T>(items: Seq<T>, wanted: spec_fn(T) -> bool) -> bool {
    forall|i: int, j: int|
        0 <= i < items.len() && 0 <= j < items.len() && wanted(#[trigger] items[i]) && wanted(
            #[trigger] items[j],
        ) ==> i == j
}

/// Whether `wanted` accepts the item at exactly one position.
pub open spec fn exactly_one<T>(items: Seq<T>, wanted: spec_fn(T) -> bool) -> bool {
    first_where(items, wanted) < items.len() && at_most_one(items, wanted)
}

/// Whether `wanted` accepts no item behind the position `after`.
pub open spec fn none_after<T>(items: Seq<T>, wanted: spec_fn(T) -> bool, after: int) -> bool {
    forall|k: int| after < k < items.len() ==> !wanted(#[trigger] items[k])
}

/// At most one item is accepted exactly when none is accepted behind the
/// first accepted one.
pub proof fn lemma_at_most_one<T>(items: Seq<T>, wanted: spec_fn(T) -> bool)
    ensures
        at_most_one(items, wanted) <==> none_after(items, wanted, first_where(items, wanted)),
{
    lemma_first_where(items, wanted);
}

} // verus!
