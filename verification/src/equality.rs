//! Equality of a `RangeVec` with another one, and with a plain `Vec`.
//!
//! Two `RangeVec`s are equal when they have the same bounds and the same
//! number of elements, and the elements are equal pair by pair under the
//! element type's own `==`. Against a `Vec` only the elements count.

use vstd::prelude::*;
use vstd::std_specs::cmp::PartialEqSpec;
use vstd::laws_eq::obeys_concrete_eq;
use crate::model::BoundedSeq;
use crate::RangeVec;

verus! {

/// The sequences have one length and their elements are equal pair by pair
/// under the element type's `==`.
pub open spec fn items_eq<T: PartialEq>(left: Seq<T>, right: Seq<T>) -> bool {
    &&& left.len() == right.len()
    &&& forall|k: int| 0 <= k < left.len() ==> #[trigger] left[k].eq_spec(&right[k])
}

/// The element type's `==` can answer `outcome` for the pair of elements at
/// index `k`. This is said of every element type, also of one whose `==`
/// has no meaning in contracts.
pub open spec fn pair_compares<T: PartialEq>(
    left: Seq<T>,
    right: Seq<T>,
    k: int,
    outcome: bool,
) -> bool {
    call_ensures(T::eq, (&left[k], &right[k]), outcome)
}

/// What a comparison of two sequences, pair by pair, can answer: `true`
/// only for one length and pairs that all compared equal, `false` only for
/// two lengths or a pair that compared unequal.
pub open spec fn items_compare<T: PartialEq>(left: Seq<T>, right: Seq<T>, outcome: bool) -> bool {
    if outcome {
        &&& left.len() == right.len()
        &&& forall|k: int| 0 <= k < left.len() ==> #[trigger] pair_compares(left, right, k, true)
    } else {
        ||| left.len() != right.len()
        ||| exists|k: int| 0 <= k < left.len() && #[trigger] pair_compares(left, right, k, false)
    }
}

/// What a comparison of two bounded sequences can answer: `true` only for
/// the same bounds and elements that compare so, `false` only for a bound
/// that differs or elements that compare so.
pub open spec fn bounded_compare<T: PartialEq>(
    left: BoundedSeq<T>,
    right: BoundedSeq<T>,
    outcome: bool,
) -> bool {
    if outcome {
        &&& left.max_size == right.max_size
        &&& left.min_size == right.min_size
        &&& items_compare(left.items, right.items, true)
    } else {
        ||| left.max_size != right.max_size
        ||| left.min_size != right.min_size
        ||| items_compare(left.items, right.items, false)
    }
}

/// Compares two buffers element by element, up to the first pair that
/// differs.
fn buffers_eq<T: PartialEq>(left: &Vec<T>, right: &Vec<T>) -> (equal: bool)
    ensures
        T::obeys_eq_spec() ==> equal == items_eq(left@, right@),
        items_compare(left@, right@, equal),
{
    let len = left.len();
    if len != right.len() {
        return false;
    }
    let mut i: usize = 0;
    while i < len
        invariant
            len == left@.len(),
            len == right@.len(),
            i <= len,
            T::obeys_eq_spec() ==> forall|k: int|
                0 <= k < i ==> #[trigger] left@[k].eq_spec(&right@[k]),
            forall|k: int| 0 <= k < i ==> #[trigger] pair_compares(left@, right@, k, true),
        decreases len - i,
    {
        let same = left[i] == right[i];
        assert(pair_compares(left@, right@, i as int, same));
        if !same {
            return false;
        }
        i += 1;
    }
    true
}

impl<T: PartialEq> PartialEq for RangeVec<T> {
    /// Same bounds, same length, and elements equal pair by pair: what
    /// `eq_spec` says, for every element type whose `==` has a meaning in
    /// contracts. For every element type, the answer is `true` only where
    /// the bounds are the same and each pair of elements compared equal, and
    /// `false` only where a bound or the length differs or a pair compared
    /// unequal.
    fn eq(&self, other: &Self) -> (equal: bool)
        ensures
            bounded_compare(self@, other@, equal),
    {
        self.max_size == other.max_size && self.min_size == other.min_size && buffers_eq(
            &self.buffer,
            &other.buffer,
        )
    }

    /// The contrary of `eq`.
    fn ne(&self, other: &Self) -> (unequal: bool)
        ensures
            bounded_compare(self@, other@, !unequal),
    {
        !self.eq(other)
    }
}

impl<T: PartialEq> vstd::std_specs::cmp::PartialEqSpecImpl for RangeVec<T> {
    open spec fn obeys_eq_spec() -> bool {
        T::obeys_eq_spec()
    }

    open spec fn eq_spec(&self, other: &Self) -> bool {
        &&& self@.max_size == other@.max_size
        &&& self@.min_size == other@.min_size
        &&& items_eq(self@.items, other@.items)
    }
}

impl<T: Eq> Eq for RangeVec<T> {}

impl<T: PartialEq> PartialEq<Vec<T>> for RangeVec<T> {
    /// Same length, and elements equal pair by pair; the bounds do not
    /// count.
    fn eq(&self, other: &Vec<T>) -> (equal: bool)
        ensures
            items_compare(self@.items, other@, equal),
    {
        buffers_eq(&self.buffer, other)
    }
}

impl<T: PartialEq> vstd::std_specs::cmp::PartialEqSpecImpl<Vec<T>> for RangeVec<T> {
    open spec fn obeys_eq_spec() -> bool {
        T::obeys_eq_spec()
    }

    open spec fn eq_spec(&self, other: &Vec<T>) -> bool {
        items_eq(self@.items, other@)
    }
}

/// Where the element type's `==` holds of exactly the equal values, two
/// `RangeVec`s are equal exactly when they have the same bounds and the same
/// elements: a differing bound, length or element makes them unequal.
pub proof fn lemma_eq_is_same_value<T: PartialEq>(a: RangeVec<T>, b: RangeVec<T>)
    requires
        obeys_concrete_eq::<T>(),
    ensures
        a.eq_spec(&b) <==> a@ == b@,
{
    reveal(obeys_concrete_eq);
    if a.eq_spec(&b) {
        assert forall|k: int| 0 <= k < a@.items.len() implies a@.items[k] == b@.items[k] by {
            assert(a@.items[k].eq_spec(&b@.items[k]));
        }
        assert(a@.items =~= b@.items);
    }
}

/// Where the element type's `==` holds of exactly the equal values, a
/// `RangeVec` equals a `Vec` exactly when they hold the same elements,
/// whatever the bounds.
pub proof fn lemma_eq_vec_is_same_items<T: PartialEq>(a: RangeVec<T>, b: Vec<T>)
    requires
        obeys_concrete_eq::<T>(),
    ensures
        a.eq_spec(&b) <==> a@.items == b@,
{
    reveal(obeys_concrete_eq);
    if a.eq_spec(&b) {
        assert forall|k: int| 0 <= k < a@.items.len() implies a@.items[k] == b@[k] by {
            assert(a@.items[k].eq_spec(&b@[k]));
        }
        assert(a@.items =~= b@);
    }
}

/// Whatever the element type's `==` is, `RangeVec`s that differ in a bound,
/// in length, or in a pair of elements that `==` tells apart are unequal.
pub proof fn lemma_difference_makes_unequal<T: PartialEq>(a: RangeVec<T>, b: RangeVec<T>)
    ensures
        a@.min_size != b@.min_size ==> !a.eq_spec(&b),
        a@.max_size != b@.max_size ==> !a.eq_spec(&b),
        a@.len() != b@.len() ==> !a.eq_spec(&b),
        (exists|k: int| 0 <= k < a@.len() && k < b@.len() && !(#[trigger] a@.items[k].eq_spec(
            &b@.items[k],
        ))) ==> !a.eq_spec(&b),
{
}

/// For every element type, also one whose `==` has no meaning in contracts:
/// whatever a comparison of two bounded sequences answers, it answers
/// `false` where a bound or the length differs, and where the element
/// type's `==` cannot answer `true` for some pair of elements; and it
/// answers `true` where bounds and length are the same and the element
/// type's `==` cannot answer `false` for any pair.
pub proof fn lemma_compare_tells_differences<T: PartialEq>(
    a: BoundedSeq<T>,
    b: BoundedSeq<T>,
    outcome: bool,
)
    requires
        bounded_compare(a, b, outcome),
    ensures
        a.min_size != b.min_size ==> !outcome,
        a.max_size != b.max_size ==> !outcome,
        a.len() != b.len() ==> !outcome,
        (exists|k: int| 0 <= k < a.len() && !(#[trigger] pair_compares(a.items, b.items, k, true)))
            ==> !outcome,
        a.min_size == b.min_size && a.max_size == b.max_size && a.len() == b.len() && (forall|
            k: int,
        |
            0 <= k < a.len() ==> !(#[trigger] pair_compares(a.items, b.items, k, false)))
            ==> outcome,
{
}

/// Equality of `RangeVec`s is reflexive, symmetric and transitive where the
/// element type's `==` is.
pub proof fn lemma_eq_is_equivalence<T: PartialEq>(a: RangeVec<T>, b: RangeVec<T>, c: RangeVec<T>)
    ensures
        (forall|x: T| #[trigger] x.eq_spec(&x)) ==> a.eq_spec(&a),
        (forall|x: T, y: T| #[trigger] x.eq_spec(&y) ==> y.eq_spec(&x)) ==> (a.eq_spec(&b)
            ==> b.eq_spec(&a)),
        (forall|x: T, y: T, z: T| #[trigger] x.eq_spec(&y) && #[trigger] y.eq_spec(&z)
            ==> x.eq_spec(&z)) ==> (a.eq_spec(&b) && b.eq_spec(&c) ==> a.eq_spec(&c)),
{
    if (forall|x: T, y: T| #[trigger] x.eq_spec(&y) ==> y.eq_spec(&x)) && a.eq_spec(&b) {
        assert forall|k: int| 0 <= k < b@.items.len() implies #[trigger] b@.items[k].eq_spec(
            &a@.items[k],
        ) by {
            assert(a@.items[k].eq_spec(&b@.items[k]));
        }
    }
    if forall|x: T, y: T, z: T| #[trigger]
        x.eq_spec(&y) && #[trigger] y.eq_spec(&z) ==> x.eq_spec(&z) {
        if a.eq_spec(&b) && b.eq_spec(&c) {
            assert forall|k: int| 0 <= k < a@.items.len() implies #[trigger] a@.items[k].eq_spec(
                &c@.items[k],
            ) by {
                assert(a@.items[k].eq_spec(&b@.items[k]));
                assert(b@.items[k].eq_spec(&c@.items[k]));
            }
        }
    }
}

} // verus!
