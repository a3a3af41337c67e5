//! A vector whose length is held between a minimum and a maximum that are
//! fixed when it is made.
//!
//! A [`RangeVec`] refuses every operation that would take its length out of
//! the inclusive range `[min_size, max_size]`: nothing is truncated, and
//! nothing grows past the bound. What each method does is stated over the
//! mathematical value of the vector, a [`BoundedSeq`](model::BoundedSeq).

pub mod convert;
pub mod display;
pub mod equality;
pub mod error;
pub mod index;
pub mod iter;
pub mod model;
pub mod slice;

use vstd::prelude::*;
use crate::error::{RangeVecErr, RangeVecResult};
use crate::model::BoundedSeq;

verus! {

/// A growable array whose length stays within the inclusive range
/// `[min_size, max_size]` that it was made with.
///
/// The vector owns its buffer. The buffer passes to a plain `Vec` by
/// `Vec::from`, which consumes the `RangeVec`, and is released once, by
/// whichever of the two holds it last.
#[derive(Debug)]
pub struct RangeVec<T> {
    pub(crate) buffer: Vec<T>,
    pub(crate) min_size: usize,
    pub(crate) max_size: usize,
}

impl<T> View for RangeVec<T> {
    type V = BoundedSeq<T>;

    open(crate) spec fn view(&self) -> BoundedSeq<T> {
        BoundedSeq {
            items: self.buffer@,
            min_size: self.min_size as nat,
            max_size: self.max_size as nat,
        }
    }
}

impl<T: Copy> RangeVec<T> {
    /// Makes a `RangeVec` with the bounds `(min_size, max_size)` that holds
    /// a copy of `elements`, or says why `elements` does not fit the bounds.
    ///
    /// Room for `max_size` elements is set aside at once where the allocator
    /// grants it.
    pub fn new(bounds: (usize, usize), elements: &Vec<T>) -> (r: RangeVecResult<Self>)
        ensures
            match BoundedSeq::build(bounds.0 as nat, bounds.1 as nat, elements@) {
                Ok(made) => r is Ok && r->Ok_0@ == made && made.wf(),
                Err(e) => r is Err && r->Err_0 == e,
            },
    {
        let (min_size, max_size) = bounds;
        let len = elements.len();
        if len < min_size {
            return Err(RangeVecErr::TooShort);
        }
        if len > max_size {
            return Err(RangeVecErr::TooLong);
        }
        let buffer = copy_into_buffer(elements, max_size);
        Ok(RangeVec { buffer, min_size, max_size })
    }
}

impl<T: Copy> Clone for RangeVec<T> {
    /// Copies the elements into a buffer of their own, under the same bounds.
    fn clone(&self) -> (copy: Self)
        ensures
            copy@ == self@,
    {
        let buffer = copy_into_buffer(&self.buffer, self.max_size);
        RangeVec { buffer, min_size: self.min_size, max_size: self.max_size }
    }

    /// Takes over the bounds and the elements of `source`.
    fn clone_from(&mut self, source: &Self)
        ensures
            final(self)@ == source@,
    {
        self.buffer = copy_into_buffer(&source.buffer, source.max_size);
        self.min_size = source.min_size;
        self.max_size = source.max_size;
    }
}

/// A new buffer that holds the elements of `source` in order, with room for
/// `capacity` elements where the allocator grants it.
fn copy_into_buffer<T: Copy>(source: &Vec<T>, capacity: usize) -> (buffer: Vec<T>)
    ensures
        buffer@ == source@,
{
    let mut buffer: Vec<T> = Vec::new();
    let _ = buffer.try_reserve(capacity);
    let len = source.len();
    let mut i: usize = 0;
    while i < len
        invariant
            len == source@.len(),
            i <= len,
            buffer@ == source@.take(i as int),
        decreases len - i,
    {
        buffer.push(source[i]);
        i += 1;
    }
    assert(source@.take(len as int) == source@);
    buffer
}

impl<T> RangeVec<T> {
    /// A reference to the element at `index`, if there is one.
    pub fn get(&self, index: usize) -> (r: Option<&T>)
        ensures
            r == (if index < self@.len() {
                Some(&self@.items[index as int])
            } else {
                None
            }),
    {
        if index < self.buffer.len() {
            Some(&self.buffer[index])
        } else {
            None
        }
    }

    /// A mutable reference to the element at `index`, if there is one. What
    /// is written through it is the element at `index` from then on; nothing
    /// else changes.
    pub fn get_mut(&mut self, index: usize) -> (r: Option<&mut T>)
        ensures
            index >= old(self)@.len() ==> r is None && final(self)@ == old(self)@,
            index < old(self)@.len() ==> r is Some && *r->Some_0 == old(self)@.items[index as int]
                && final(self)@ == old(self)@.with_items(
                old(self)@.items.update(index as int, *final(r->Some_0)),
            ),
            old(self)@.wf() ==> final(self)@.wf(),
    {
        if index < self.buffer.len() {
            Some(&mut self.buffer[index])
        } else {
            None
        }
    }

    /// The bounds, as `(min_size, max_size)`.
    pub fn size(&self) -> (r: (usize, usize))
        ensures
            r.0 == self@.min_size,
            r.1 == self@.max_size,
    {
        (self.min_size, self.max_size)
    }

    /// The bounds, as the inclusive range from `min_size` to `max_size`.
    pub fn size_as_range(&self) -> (r: std::ops::RangeInclusive<usize>)
        ensures
            r@.start == self@.min_size,
            r@.end == self@.max_size,
            !r@.exhausted,
    {
        std::ops::RangeInclusive::new(self.min_size, self.max_size)
    }

    /// The smallest length the vector may have.
    pub fn min_size(&self) -> (r: usize)
        ensures
            r == self@.min_size,
    {
        self.min_size
    }

    /// The greatest length the vector may have.
    pub fn max_size(&self) -> (r: usize)
        ensures
            r == self@.max_size,
    {
        self.max_size
    }

    /// The number of elements the vector holds now.
    pub fn len(&self) -> (r: usize)
        ensures
            r == self@.len(),
    {
        self.buffer.len()
    }

    /// Adds `element` at the end if there is space left; a full vector
    /// answers `CantAdd` and stays as it is.
    pub fn push(&mut self, element: T) -> (r: RangeVecResult<()>)
        ensures
            (final(self)@, r) == old(self)@.push(element),
            old(self)@.wf() ==> final(self)@.wf(),
    {
        if self.buffer.len() >= self.max_size {
            return Err(RangeVecErr::CantAdd);
        }
        self.buffer.push(element);
        Ok(())
    }

    /// As `push`, for callers that do not care why it failed: `Some(())` if
    /// the element was added, `None` if the vector is full.
    pub fn try_push(&mut self, element: T) -> (r: Option<()>)
        ensures
            final(self)@ == old(self)@.push(element).0,
            r == (if old(self)@.is_full() {
                None
            } else {
                Some(())
            }),
            old(self)@.wf() ==> final(self)@.wf(),
    {
        self.push(element).ok()
    }

    /// Removes the last element and returns it if more than the minimum are
    /// left; a minimal vector answers `CantRemove` and stays as it is.
    pub fn pop(&mut self) -> (r: RangeVecResult<T>)
        ensures
            (final(self)@, r) == old(self)@.pop(),
            old(self)@.wf() ==> final(self)@.wf(),
    {
        if self.buffer.len() <= self.min_size {
            return Err(RangeVecErr::CantRemove);
        }
        match self.buffer.pop() {
            Some(element) => Ok(element),
            None => Err(RangeVecErr::CantRemove),
        }
    }

    /// As `pop`, for callers that do not care why it failed: the element
    /// removed, or `None` if the vector is minimal.
    pub fn try_pop(&mut self) -> (r: Option<T>)
        ensures
            final(self)@ == old(self)@.pop().0,
            r == (if old(self)@.is_minimal() {
                None
            } else {
                Some(old(self)@.items.last())
            }),
            old(self)@.wf() ==> final(self)@.wf(),
    {
        self.pop().ok()
    }

    /// Drops every element above the minimum, so that the length is
    /// `min_size`, and returns how many were dropped.
    pub fn clear(&mut self) -> (removed: usize)
        ensures
            (final(self)@, removed as nat) == old(self)@.clear(),
            old(self)@.wf() ==> final(self)@.wf() && final(self)@.len() == old(self)@.min_size,
    {
        let len = self.buffer.len();
        if len <= self.min_size {
            return 0;
        }
        self.buffer.truncate(self.min_size);
        len - self.min_size
    }
}

} // verus!
