//! The ways in which an operation on a [`RangeVec`](crate::RangeVec) can fail.

use vstd::prelude::*;

verus! {

/// What a fallible operation on a `RangeVec` returns.
pub type RangeVecResult<T> = Result<T, RangeVecErr>;

/// Why an operation on a `RangeVec` was refused.
#[derive(Debug, PartialEq, Eq, Structural)]
pub enum RangeVecErr {
    /// Fewer initial elements than the minimum size.
    TooShort,
    /// More initial elements than the maximum size.
    TooLong,
    /// The minimum size is greater than the maximum size.
    IncorrectSize,
    /// The vector already holds its maximum number of elements.
    CantAdd,
    /// The vector already holds its minimum number of elements.
    CantRemove,
}

impl RangeVecErr {
    /// The text that describes this error to a person.
    pub open spec fn message(self) -> Seq<char> {
        match self {
            RangeVecErr::TooShort => "Initialization vector is too short"@,
            RangeVecErr::TooLong => "Initialization vector is too long"@,
            RangeVecErr::IncorrectSize => "Min size cannot be greater than max size"@,
            RangeVecErr::CantAdd => "Cannot add element(s), the vector is already maximum size"@,
            RangeVecErr::CantRemove => "Cannot remove element(s), the vector is already minimum size"@,
        }
    }

    /// Renders the error as its message.
    pub fn to_string(&self) -> (text: String)
        ensures
            text@ == self.message(),
    {
        match self {
            RangeVecErr::TooShort => "Initialization vector is too short".to_owned(),
            RangeVecErr::TooLong => "Initialization vector is too long".to_owned(),
            RangeVecErr::IncorrectSize => "Min size cannot be greater than max size".to_owned(),
            RangeVecErr::CantAdd => "Cannot add element(s), the vector is already maximum size".to_owned(),
            RangeVecErr::CantRemove => "Cannot remove element(s), the vector is already minimum size".to_owned(),
        }
    }
}

} // verus!
