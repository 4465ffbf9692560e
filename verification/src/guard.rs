//! A guard that owns a bag of values for the sole purpose of keeping them
//! alive until it goes out of scope.

use vstd::prelude::*;

verus! {

/// Holds values whose only purpose is to be dropped later, when the guard
/// goes out of scope.
#[must_use]
pub struct MultiDropGuard<T>(Vec<T>);

impl<T> MultiDropGuard<T> {
    /// The values the guard holds, in order of addition.
    pub closed spec fn spec_held(self) -> Seq<T> {
        self.0@
    }

    /// Hand a value to the guard; it joins the end of the bag.
    pub fn add(&mut self, droppable: T)
        ensures
            final(self).spec_held() == old(self).spec_held().push(droppable),
    {
        self.0.push(droppable)
    }

    /// How many values the guard holds.
    pub fn count(&self) -> (n: usize)
        ensures
            n == self.spec_held().len(),
    {
        self.0.len()
    }
}

impl<T> Default for MultiDropGuard<T> {
    /// An empty guard, holding nothing.
    fn default() -> (r: Self)
        ensures
            r.spec_held().len() == 0,
    {
        MultiDropGuard(Vec::new())
    }
}

} // verus!
