//! The pile and its operations.

use stable_deref_trait::StableDeref;
use std::ops::Deref;
use vstd::prelude::*;

verus! {

/// A pile of `T`.
///
/// More `T` can be put on the pile, but none is ever taken off: the pile only
/// grows, and an element keeps the position at which it was added. The pile
/// as a whole can be taken apart again with [`Pile::into_elements`].
pub struct Pile<T> {
    elements: Vec<T>,
}

impl<T> View for Pile<T> {
    type V = Seq<T>;

    /// The elements on the pile, in the order in which they were added.
    closed spec fn view(&self) -> Seq<T> {
        self.elements@
    }
}

impl<T> Pile<T> {
    /// Creates a pile with nothing on it.
    pub fn new() -> (pile: Self)
        ensures
            pile@ == Seq::<T>::empty(),
    {
        Pile { elements: Vec::new() }
    }

    /// Creates a pile that holds `elements`, in their order.
    pub fn from_elements(elements: Vec<T>) -> (pile: Self)
        ensures
            pile@ == elements@,
    {
        Pile { elements }
    }

    /// Takes the pile apart and returns its elements, oldest first.
    pub fn into_elements(self) -> (elements: Vec<T>)
        ensures
            elements@ == self@,
    {
        self.elements
    }

    /// Lends out the elements for replacement in place.
    ///
    /// The slice starts out as the contents of the pile, and whatever it holds
    /// when the borrow ends is what the pile holds from then on. A slice has
    /// a fixed length, so elements can be replaced through it, position by
    /// position, but none can be added or removed.
    pub fn mut_elements(&mut self) -> (elements: &mut [T])
        ensures
            elements@ == old(self)@,
            final(self)@ == final(elements)@,
    {
        self.elements.as_mut_slice()
    }
}

impl<T: StableDeref> Pile<T> {
    /// Puts `element` on top of the pile and returns a reference to what it
    /// dereferences to.
    ///
    /// The elements that were on the pile stay as and where they were. The
    /// reference returned is one that dereferencing `element` gives.
    pub fn add(&mut self, element: T) -> (target: &T::Target)
        ensures
            final(self)@ == old(self)@.push(element),
            call_ensures(<T as Deref>::deref, (&element,), target),
    {
        self.elements.push(element);
        let top: usize = self.elements.len() - 1;
        self.elements[top].deref()
    }
}

} // verus!
