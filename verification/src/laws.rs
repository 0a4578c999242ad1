//! What holds of a pile over whole runs of operations.
//!
//! Every law here is proved from the contracts of the operations alone.

use crate::pile::Pile;
use std::ops::Deref;
use vstd::prelude::*;

verus! {

/// What a pile that held `before` holds once each element of `added` has been
/// put on it with `add`, first to last.
pub open spec fn after_adds<T>(before: Seq<T>, added: Seq<T>) -> Seq<T>
    decreases added.len(),
{
    if added.len() == 0 {
        before
    } else {
        after_adds(before, added.drop_last()).push(added.last())
    }
}

/// A run of adds leaves what was on the pile, followed by the added elements
/// in the order in which they were added.
pub proof fn lemma_adds_keep_order<T>(before: Seq<T>, added: Seq<T>)
    ensures
        after_adds(before, added) == before + added,
    decreases added.len(),
{
    if added.len() > 0 {
        lemma_adds_keep_order(before, added.drop_last());
    }
}

/// Growth moves nothing: what the pile holds after the first `k` adds of a
/// run is still there, position by position, when the whole run is done.
pub proof fn lemma_growth_keeps_positions<T>(before: Seq<T>, added: Seq<T>, k: int)
    requires
        0 <= k <= added.len(),
    ensures
        after_adds(before, added.take(k)) == after_adds(before, added).take(before.len() + k),
{
    lemma_adds_keep_order(before, added);
    lemma_adds_keep_order(before, added.take(k));
}

/// The element of the `k`-th add of a run is found at the position it was
/// given after each later add of the run, so the reference that `add` returned
/// for it is still one that dereferencing the element at that position gives.
pub proof fn lemma_target_outlasts_growth<T: Deref>(
    before: Seq<T>,
    added: Seq<T>,
    k: int,
    n: int,
    target: &T::Target,
)
    requires
        0 <= k < n <= added.len(),
        call_ensures(<T as Deref>::deref, (&added[k],), target),
    ensures
        after_adds(before, added.take(n))[before.len() + k] == added[k],
        call_ensures(
            <T as Deref>::deref,
            (&after_adds(before, added.take(n))[before.len() + k],),
            target,
        ),
{
    lemma_adds_keep_order(before, added.take(n));
}

/// Taking apart a pile that was created empty and then grown by a run of adds
/// returns the added elements in the order in which they were added.
pub proof fn lemma_into_elements_returns_adds_in_order<T>(
    empty: Pile<T>,
    added: Seq<T>,
    grown: Pile<T>,
    elements: Vec<T>,
)
    requires
        call_ensures(Pile::<T>::new, (), empty),
        grown@ == after_adds(empty@, added),
        call_ensures(Pile::<T>::into_elements, (grown,), elements),
    ensures
        elements@ == added,
{
    lemma_adds_keep_order(empty@, added);
}

/// Taking apart a pile that was created from a vector returns the elements of
/// that vector, in their order.
pub proof fn lemma_round_trip<T>(elements: Vec<T>, pile: Pile<T>, returned: Vec<T>)
    requires
        call_ensures(Pile::<T>::from_elements, (elements,), pile),
        call_ensures(Pile::<T>::into_elements, (pile,), returned),
    ensures
        returned@ == elements@,
{
}

/// Once the element at position `i` has been replaced through what
/// `mut_elements` lends out, taking the pile apart returns the new value at
/// position `i` and, at every other position, the element that was there.
pub proof fn lemma_replacement_shows_in_place<T>(
    pile: Pile<T>,
    i: int,
    value: T,
    replaced: Pile<T>,
    elements: Vec<T>,
)
    requires
        0 <= i < pile@.len(),
        replaced@ == pile@.update(i, value),
        call_ensures(Pile::<T>::into_elements, (replaced,), elements),
    ensures
        elements@.len() == pile@.len(),
        elements@[i] == value,
        forall|j: int| 0 <= j < pile@.len() && j != i ==> elements@[j] == pile@[j],
{
}

} // verus!
