//! Handing the buffer of a `RangeVec` over to a plain `Vec`.

use vstd::prelude::*;
use crate::RangeVec;

verus! {

impl<T> From<RangeVec<T>> for Vec<T> {
    /// Takes the buffer of `range_vec` as it is: no element is copied or
    /// moved, and the `RangeVec` is gone. The way back is `RangeVec::new`,
    /// which checks the bounds again.
    fn from(range_vec: RangeVec<T>) -> (elements: Vec<T>)
        ensures
            elements@ == range_vec@.items,
    {
        range_vec.buffer
    }
}

impl<T> vstd::std_specs::convert::FromSpecImpl<RangeVec<T>> for Vec<T> {
    /// A `Vec` is more than its elements, so no spec function can name the
    /// one that comes out; what `from` returns is stated on `from` itself.
    open spec fn obeys_from_spec() -> bool {
        false
    }

    open spec fn from_spec(range_vec: RangeVec<T>) -> Vec<T> {
        arbitrary()
    }
}

} // verus!
