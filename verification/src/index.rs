//! The indexing operator, for an element that the caller knows is there.
//!
//! An index that is not live is a fault of the caller: the contracts leave
//! it out. To probe an index that may be out of range, use `get` and
//! `get_mut`.

use vstd::prelude::*;
use crate::RangeVec;

verus! {

impl<T> std::ops::Index<usize> for RangeVec<T> {
    type Output = T;

    /// The element at `index`, which must be a live one.
    fn index(&self, index: usize) -> (element: &T)
        ensures
            *element == self@.items[index as int],
    {
        &self.buffer[index]
    }
}

impl<T> vstd::std_specs::core::IndexSpecImpl<usize> for RangeVec<T> {
    open spec fn index_req(&self, index: &usize) -> bool {
        *index < self@.len()
    }
}

impl<T> std::ops::IndexMut<usize> for RangeVec<T> {
    /// The element at `index`, which must be a live one, to be changed in
    /// place. Nothing else changes.
    fn index_mut(&mut self, index: usize) -> (element: &mut T)
        requires
            index < old(self)@.len(),
        ensures
            *element == old(self)@.items[index as int],
            final(self)@ == old(self)@.with_items(
                old(self)@.items.update(index as int, *final(element)),
            ),
    {
        &mut self.buffer[index]
    }
}

} // verus!
