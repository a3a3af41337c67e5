//! The mathematical value of a `RangeVec`, the operations on it, and the laws
//! that relate them.
//!
//! Each operation is a function from the value before to the value after
//! and the outcome, so that what the executable methods do can be stated,
//! and reasoned about, without them.

use vstd::prelude::*;
use crate::error::RangeVecErr;

verus! {

/// A sequence together with the inclusive bounds on its length.
pub struct BoundedSeq<T> {
    /// The live elements, in index order.
    pub items: Seq<T>,
    /// The smallest length the sequence may have.
    pub min_size: nat,
    /// The greatest length the sequence may have.
    pub max_size: nat,
}

impl<T> BoundedSeq<T> {
    /// The length lies within the bounds.
    pub open spec fn wf(self) -> bool {
        self.min_size <= self.items.len() <= self.max_size
    }

    /// The number of live elements.
    pub open spec fn len(self) -> nat {
        self.items.len()
    }

    /// No element can be added.
    pub open spec fn is_full(self) -> bool {
        self.items.len() >= self.max_size
    }

    /// No element can be removed.
    pub open spec fn is_minimal(self) -> bool {
        self.items.len() <= self.min_size
    }

    /// The same bounds around other elements.
    pub open spec fn with_items(self, items: Seq<T>) -> Self {
        BoundedSeq { items, min_size: self.min_size, max_size: self.max_size }
    }

    /// Construction. A sequence shorter than `min_size` is too short, one
    /// longer than `max_size` is too long, and any other is taken as it is.
    ///
    /// Bounds with `min_size > max_size` admit no length at all: every
    /// sequence is refused for them, as too short where that applies and as
    /// too long otherwise.
    pub open spec fn build(min_size: nat, max_size: nat, items: Seq<T>) -> Result<
        Self,
        RangeVecErr,
    > {
        if items.len() < min_size {
            Err(RangeVecErr::TooShort)
        } else if items.len() > max_size {
            Err(RangeVecErr::TooLong)
        } else {
            Ok(BoundedSeq { items, min_size, max_size })
        }
    }

    /// Appending `x`. A full sequence refuses and stays as it is.
    pub open spec fn push(self, x: T) -> (Self, Result<(), RangeVecErr>) {
        if self.is_full() {
            (self, Err(RangeVecErr::CantAdd))
        } else {
            (self.with_items(self.items.push(x)), Ok(()))
        }
    }

    /// Removing the last element. A minimal sequence refuses and stays as it
    /// is.
    pub open spec fn pop(self) -> (Self, Result<T, RangeVecErr>) {
        if self.is_minimal() {
            (self, Err(RangeVecErr::CantRemove))
        } else {
            (self.with_items(self.items.drop_last()), Ok(self.items.last()))
        }
    }

    /// Dropping every element above the minimum. Gives what is left and the
    /// number of elements dropped.
    pub open spec fn clear(self) -> (Self, nat) {
        if self.is_minimal() {
            (self, 0)
        } else {
            (
                self.with_items(self.items.take(self.min_size as int)),
                (self.items.len() - self.min_size) as nat,
            )
        }
    }

    /// Construction refuses a sequence that is too short or too long, and
    /// keeps any other as it is, elements in order. Where the bounds are
    /// crossed (`min_size > max_size`) a length between them is both, and is
    /// reported as too short.
    pub proof fn lemma_build_checks_bounds(min_size: nat, max_size: nat, items: Seq<T>)
        ensures
            items.len() < min_size ==> Self::build(min_size, max_size, items) == Err::<
                Self,
                RangeVecErr,
            >(RangeVecErr::TooShort),
            min_size <= items.len() && items.len() > max_size ==> Self::build(
                min_size,
                max_size,
                items,
            ) == Err::<Self, RangeVecErr>(RangeVecErr::TooLong),
            min_size <= items.len() <= max_size ==> Self::build(min_size, max_size, items) == Ok::<
                Self,
                RangeVecErr,
            >(BoundedSeq { items, min_size, max_size }),
            Self::build(min_size, max_size, items) matches Ok(made) ==> made.wf(),
    {
    }

    /// Operations keep a length that is within the bounds within them.
    pub proof fn lemma_operations_keep_wf(self, x: T)
        requires
            self.wf(),
        ensures
            self.push(x).0.wf(),
            self.pop().0.wf(),
            self.clear().0.wf(),
    {
    }

    /// Pushing onto a sequence that has room succeeds, and popping right
    /// after gives the pushed element back and leaves the sequence exactly
    /// as it was before the push.
    pub proof fn lemma_push_then_pop(self, x: T)
        requires
            self.wf(),
            self.len() < self.max_size,
        ensures
            self.push(x).1 == Ok::<(), RangeVecErr>(()),
            self.push(x).0.pop() == (self, Ok::<T, RangeVecErr>(x)),
    {
        assert(self.items.push(x).drop_last() =~= self.items);
    }

    /// A full sequence refuses a push with `CantAdd`, a minimal one refuses a
    /// pop with `CantRemove`, and either is left unchanged.
    pub proof fn lemma_bounds_are_enforced(self, x: T)
        requires
            self.wf(),
        ensures
            self.len() == self.max_size ==> self.push(x) == (
                self,
                Err::<(), RangeVecErr>(RangeVecErr::CantAdd),
            ),
            self.len() == self.min_size ==> self.pop() == (
                self,
                Err::<T, RangeVecErr>(RangeVecErr::CantRemove),
            ),
    {
    }

    /// Clearing leaves exactly `min_size` elements, the first ones, and has
    /// dropped the rest; clearing again drops nothing and changes nothing.
    pub proof fn lemma_clear_to_floor(self)
        requires
            self.wf(),
        ensures
            self.clear().0.len() == self.min_size,
            self.clear().0.items == self.items.take(self.min_size as int),
            self.clear().1 == self.len() - self.min_size,
            self.clear().0.clear() == (self.clear().0, 0nat),
    {
        if self.is_minimal() {
            assert(self.items.take(self.min_size as int) =~= self.items);
        }
    }

    /// Taking the elements out of a sequence that is within its bounds and
    /// constructing anew from them, with the same bounds, gives the sequence
    /// back.
    pub proof fn lemma_rebuild_round_trip(self)
        requires
            self.wf(),
        ensures
            Self::build(self.min_size, self.max_size, self.items) == Ok::<Self, RangeVecErr>(self),
    {
    }
}

} // verus!
