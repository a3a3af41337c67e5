//! The three ways to walk a `RangeVec`: by value, by reference, and by
//! mutable reference. Each goes over the live elements in index order, one
//! element a step, and ends after the last.

use vstd::prelude::*;
use vstd::std_specs::iter::IteratorSpec;
use crate::RangeVec;

verus! {

/// Walks a `RangeVec` that it owns, and hands its elements out by value.
pub struct RangeVecIntoIter<T> {
    /// The elements still to come, last one first, so that the next one is
    /// at the end and leaves by `pop`.
    reversed: Vec<T>,
}

impl<T> RangeVecIntoIter<T> {
    /// The elements still to come, in the order in which they will come.
    pub closed spec fn rest(&self) -> Seq<T> {
        self.reversed@.reverse()
    }

    fn new(range_vec: RangeVec<T>) -> (it: Self)
        ensures
            it.rest() == range_vec@.items,
    {
        let mut buffer: Vec<T> = range_vec.buffer;
        let mut reversed: Vec<T> = Vec::new();
        let ghost items = buffer@;
        loop
            invariant
                items == buffer@ + reversed@.reverse(),
            ensures
                buffer@.len() == 0,
            decreases buffer@.len(),
        {
            match buffer.pop() {
                Some(element) => {
                    let ghost before = reversed@;
                    reversed.push(element);
                    assert(reversed@.reverse() == seq![element] + before.reverse());
                },
                None => {
                    break;
                },
            }
        }
        RangeVecIntoIter { reversed }
    }
}

impl<T> Iterator for RangeVecIntoIter<T> {
    type Item = T;

    /// The next element by value, if any is left.
    fn next(&mut self) -> (element: Option<T>)
        ensures
            old(self).rest().len() == 0 ==> {
                &&& element is None
                &&& final(self).rest() == old(self).rest()
            },
            old(self).rest().len() > 0 ==> {
                &&& element == Some(old(self).rest()[0])
                &&& final(self).rest() == old(self).rest().drop_first()
            },
    {
        let ghost before = self.reversed@;
        let element = self.reversed.pop();
        assert(before.len() > 0 ==> self.reversed@.reverse() == before.reverse().drop_first());
        element
    }
}

impl<T> vstd::std_specs::iter::IteratorSpecImpl for RangeVecIntoIter<T> {
    open spec fn obeys_prophetic_iter_laws(&self) -> bool {
        true
    }

    open spec fn remaining(&self) -> Seq<T> {
        self.rest()
    }

    open spec fn will_return_none(&self) -> bool {
        true
    }

    open spec fn decrease(&self) -> Option<nat> {
        Some(self.rest().len())
    }

    open spec fn initial_value_relation(&self, init: &Self) -> bool {
        self.rest() == init.rest()
    }

    open spec fn peek(&self, index: int) -> Option<T> {
        if 0 <= index < self.rest().len() {
            Some(self.rest()[index])
        } else {
            None
        }
    }
}

/// Walks a borrowed `RangeVec`, and hands out references to its elements.
pub struct RangeVecIter<'a, T> {
    range_vec: &'a RangeVec<T>,
    index: usize,
}

impl<'a, T> RangeVecIter<'a, T> {
    /// The elements still to come, in the order in which they will come.
    pub closed spec fn rest(&self) -> Seq<T> {
        if self.index <= self.range_vec.buffer@.len() {
            self.range_vec.buffer@.skip(self.index as int)
        } else {
            Seq::empty()
        }
    }

    fn new(range_vec: &'a RangeVec<T>) -> (it: Self)
        ensures
            it.rest() == range_vec@.items,
    {
        RangeVecIter { range_vec, index: 0 }
    }
}

impl<'a, T> Iterator for RangeVecIter<'a, T> {
    type Item = &'a T;

    /// A reference to the next element, if any is left.
    fn next(&mut self) -> (element: Option<&'a T>)
        ensures
            old(self).rest().len() == 0 ==> {
                &&& element is None
                &&& final(self).rest() == old(self).rest()
            },
            old(self).rest().len() > 0 ==> {
                &&& element == Some(&old(self).rest()[0])
                &&& final(self).rest() == old(self).rest().drop_first()
            },
    {
        let index = self.index;
        if index < self.range_vec.buffer.len() {
            self.index = index + 1;
            assert(self.range_vec.buffer@.skip(index + 1) == self.range_vec.buffer@.skip(
                index as int,
            ).drop_first());
            Some(&self.range_vec.buffer[index])
        } else {
            None
        }
    }
}

impl<'a, T> vstd::std_specs::iter::IteratorSpecImpl for RangeVecIter<'a, T> {
    open spec fn obeys_prophetic_iter_laws(&self) -> bool {
        true
    }

    open spec fn remaining(&self) -> Seq<&'a T> {
        self.rest().as_ref()
    }

    open spec fn will_return_none(&self) -> bool {
        true
    }

    open spec fn decrease(&self) -> Option<nat> {
        Some(self.rest().len())
    }

    open spec fn initial_value_relation(&self, init: &Self) -> bool {
        self.rest() == init.rest()
    }

    open spec fn peek(&self, index: int) -> Option<&'a T> {
        if 0 <= index < self.rest().len() {
            Some(&self.rest()[index])
        } else {
            None
        }
    }
}

/// Walks a mutably borrowed `RangeVec`, and hands out mutable references to
/// its elements.
///
/// The field is public so that contracts can speak of what the slice will
/// hold when the borrow ends.
pub struct RangeVecIterMut<'a, T> {
    /// The elements still to come.
    pub slice: &'a mut [T],
}

impl<'a, T> RangeVecIterMut<'a, T> {
    fn new(range_vec: &'a mut RangeVec<T>) -> (it: Self)
        ensures
            it.slice@ == old(range_vec)@.items,
            final(range_vec)@ == old(range_vec)@.with_items(final(it.slice)@),
    {
        RangeVecIterMut { slice: range_vec.buffer.as_mut_slice() }
    }
}

impl<'a, T> Iterator for RangeVecIterMut<'a, T> {
    type Item = &'a mut T;

    /// The next element, split off the front of the slice. What the slice
    /// as it was will hold in the end is what is written through the
    /// reference that is handed out, followed by what the rest will hold.
    fn next(&mut self) -> (element: Option<&'a mut T>)
        ensures
            old(self).slice@.len() == 0 ==> {
                &&& element is None
                &&& final(self).slice@.len() == 0
                &&& final(old(self).slice)@ == final(final(self).slice)@
            },
            old(self).slice@.len() > 0 ==> {
                &&& element is Some
                &&& *element->Some_0 == old(self).slice@[0]
                &&& final(self).slice@ == old(self).slice@.drop_first()
                &&& final(old(self).slice)@ == seq![*final(element->Some_0)] + final(
                    final(self).slice
                )@
            },
    {
        let mut slice: &'a mut [T] = &mut [];
        std::mem::swap(&mut self.slice, &mut slice);
        if slice.len() == 0 {
            return None;
        }
        let (head, tail) = slice.split_at_mut(1);
        self.slice = tail;
        head.first_mut()
    }
}

impl<'a, T> vstd::std_specs::iter::IteratorSpecImpl for RangeVecIterMut<'a, T> {
    /// The laws of `IteratorSpec` speak of the references still to come as
    /// one sequence, which cannot be written for mutable ones; what `next`
    /// does is stated on `next` itself.
    open spec fn obeys_prophetic_iter_laws(&self) -> bool {
        false
    }

    open spec fn remaining(&self) -> Seq<&'a mut T> {
        Seq::empty()
    }

    open spec fn will_return_none(&self) -> bool {
        true
    }

    open spec fn decrease(&self) -> Option<nat> {
        Some(self.slice@.len())
    }

    open spec fn initial_value_relation(&self, init: &Self) -> bool {
        true
    }

    open spec fn peek(&self, index: int) -> Option<&'a mut T> {
        None
    }
}

impl<T> RangeVec<T> {
    /// Walks the live elements by reference, from the first to the last.
    pub fn iter<'a>(&'a self) -> (it: RangeVecIter<'a, T>)
        ensures
            it.rest() == self@.items,
    {
        RangeVecIter::new(self)
    }

    /// Walks the live elements by mutable reference, from the first to the
    /// last. What the walk has written is in the vector when the borrow
    /// ends; the bounds stay.
    pub fn iter_mut<'a>(&'a mut self) -> (it: RangeVecIterMut<'a, T>)
        ensures
            it.slice@ == old(self)@.items,
            final(self)@ == old(self)@.with_items(final(it.slice)@),
    {
        RangeVecIterMut::new(self)
    }
}

impl<T> IntoIterator for RangeVec<T> {
    type Item = T;

    type IntoIter = RangeVecIntoIter<T>;

    /// Walks the live elements by value, from the first to the last.
    fn into_iter(self) -> (it: RangeVecIntoIter<T>)
        ensures
            it.rest() == self@.items,
    {
        RangeVecIntoIter::new(self)
    }
}

} // verus!
