//! A vector with a compile-time capacity bound: pushing past the bound is
//! ruled out by contract instead of panicking at run time.

use vstd::prelude::*;

verus! {

/// A growable container that never holds more than `N` elements.
pub struct FixedVec<T, const N: usize> {
    contents: Vec<T>,
}

impl<T, const N: usize> View for FixedVec<T, N> {
    type V = Seq<T>;

    closed spec fn view(&self) -> Seq<T> {
        self.contents@
    }
}

impl<T, const N: usize> FixedVec<T, N> {
    /// An empty vector.
    pub fn new() -> (r: FixedVec<T, N>)
        ensures
            r@ == Seq::<T>::empty(),
    {
        FixedVec { contents: Vec::new() }
    }

    /// How many elements are currently stored.
    pub fn len(&self) -> (r: usize)
        ensures
            r == self@.len(),
    {
        self.contents.len()
    }

    /// Appends `val` at the end; the capacity bound must not be reached yet.
    pub fn push(&mut self, val: T)
        requires
            old(self)@.len() < N,
        ensures
            final(self)@ == old(self)@.push(val),
    {
        self.contents.push(val);
    }

    /// The element at `idx`: `Some` exactly for the indices below the current
    /// length.
    pub fn get(&self, idx: usize) -> (r: Option<&T>)
        ensures
            idx < self@.len() ==> (r matches Some(v) && *v == self@[idx as int]),
            idx >= self@.len() ==> r is None,
    {
        if idx < self.contents.len() {
            Some(&self.contents[idx])
        } else {
            None
        }
    }
}

impl<T, const N: usize> Default for FixedVec<T, N> {
    fn default() -> (r: FixedVec<T, N>)
        ensures
            r@ == Seq::<T>::empty(),
    {
        FixedVec::new()
    }
}

} // verus!
