//! Views of a `RangeVec` as slices: the whole of it, or a range of indices.

use vstd::prelude::*;
use vstd::slice::slice_subrange;
use crate::RangeVec;

verus! {

/// One end of a range of indices.
#[derive(Clone, Copy, Debug, PartialEq, Eq, Structural)]
pub enum Edge {
    /// The range reaches this index, and holds it.
    Included(usize),
    /// The range reaches this index, and does not hold it.
    Excluded(usize),
    /// The range has no end on this side.
    Unbounded,
}

/// The first index of a range that starts at `start`.
pub open spec fn range_start(start: Edge) -> int {
    match start {
        Edge::Included(index) => index as int,
        Edge::Excluded(index) => index + 1,
        Edge::Unbounded => 0,
    }
}

/// The index just past a range that ends at `end`, in a sequence of `len`
/// elements.
pub open spec fn range_end(end: Edge, len: nat) -> int {
    match end {
        Edge::Included(index) => index + 1,
        Edge::Excluded(index) => index as int,
        Edge::Unbounded => len as int,
    }
}

/// A range that ends at `end` does not reach past the last of `len`
/// elements.
pub open spec fn range_ends_within(end: Edge, len: nat) -> bool {
    range_end(end, len) <= len
}

/// The range from `start` to `end` lies within a sequence of `len` elements:
/// it does not reach past the last element, and does not end before it
/// starts.
pub open spec fn range_fits(start: Edge, end: Edge, len: nat) -> bool {
    range_start(start) <= range_end(end, len) <= len
}

impl<T> RangeVec<T> {
    /// The half-open pair of indices `(first, past)` that the range from
    /// `start` to `end` stands for, if it does not reach past the live
    /// elements. Only the end is held against the length: a range that ends
    /// before it starts is given as it is, with `first > past`. A start
    /// after the greatest index there is has no `first`, and gives `None`.
    pub fn range_bounds(&self, start: Edge, end: Edge) -> (r: Option<(usize, usize)>)
        ensures
            r is Some <==> range_ends_within(end, self@.len()) && range_start(start) <= usize::MAX,
            r matches Some((first, past)) ==> first == range_start(start) && past == range_end(
                end,
                self@.len(),
            ),
    {
        let len = self.buffer.len();
        let first = match start {
            Edge::Included(index) => index,
            Edge::Excluded(index) => {
                if index == usize::MAX {
                    return None;
                }
                index + 1
            },
            Edge::Unbounded => 0,
        };
        let past = match end {
            Edge::Included(index) => {
                if index >= len {
                    return None;
                }
                index + 1
            },
            Edge::Excluded(index) => index,
            Edge::Unbounded => len,
        };
        if past > len {
            None
        } else {
            Some((first, past))
        }
    }

    /// The live elements in the range from `start` to `end`, if the range
    /// lies within them. A range that ends before it starts holds no
    /// elements to give, and is absent too.
    pub fn get_slice(&self, start: Edge, end: Edge) -> (r: Option<&[T]>)
        ensures
            r is Some <==> range_fits(start, end, self@.len()),
            r matches Some(slice) ==> slice@ == self@.items.subrange(
                range_start(start),
                range_end(end, self@.len()),
            ),
    {
        assert(self.buffer.len() == self.buffer@.len());
        match self.range_bounds(start, end) {
            Some((first, past)) => {
                if first > past {
                    None
                } else {
                    Some(slice_subrange(self.buffer.as_slice(), first, past))
                }
            },
            None => None,
        }
    }

    /// The live elements in the range from `start` to `end`, to be changed
    /// in place, if the range lies within them; a range that ends before it
    /// starts is absent. What the slice holds when the borrow ends is what
    /// the vector holds in that range from then on; the elements outside
    /// the range stay.
    pub fn get_slice_mut(&mut self, start: Edge, end: Edge) -> (r: Option<&mut [T]>)
        ensures
            r is Some <==> range_fits(start, end, old(self)@.len()),
            r is None ==> final(self)@ == old(self)@,
            r matches Some(slice) ==> {
                let first = range_start(start);
                let past = range_end(end, old(self)@.len());
                &&& slice@ == old(self)@.items.subrange(first, past)
                &&& final(self)@ == old(self)@.with_items(
                    old(self)@.items.subrange(0, first) + final(slice)@ + old(
                        self,
                    )@.items.subrange(past, old(self)@.len() as int),
                )
            },
    {
        assert(self.buffer.len() == self.buffer@.len());
        match self.range_bounds(start, end) {
            Some((first, past)) => {
                if first > past {
                    return None;
                }
                let (front, back) = self.buffer.as_mut_slice().split_at_mut(past);
                let (before, middle) = front.split_at_mut(first);
                assert(before@ == old(self)@.items.subrange(0, first as int));
                Some(middle)
            },
            None => None,
        }
    }

    /// All the live elements.
    pub fn as_slice(&self) -> (r: &[T])
        ensures
            r@ == self@.items,
    {
        self.buffer.as_slice()
    }

    /// All the live elements, to be changed in place. What the slice holds
    /// when the borrow ends is what the vector holds from then on.
    pub fn as_slice_mut(&mut self) -> (r: &mut [T])
        ensures
            r@ == old(self)@.items,
            final(self)@ == old(self)@.with_items(final(r)@),
    {
        self.buffer.as_mut_slice()
    }
}

} // verus!
