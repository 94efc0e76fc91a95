//! Bounds on the number of bytes that a body still has to give.

use vstd::prelude::*;

verus! {

/// A lower bound and, where one is known, an upper bound that is not below it.
#[derive(Debug, Clone, Copy, PartialEq, Eq, Structural)]
pub struct SizeHint {
    lower: u64,
    upper: Option<u64>,
}

/// Whether the two numbers can be the bounds of one size.
pub open spec fn bounds_ok(lower: u64, upper: Option<u64>) -> bool {
    upper matches Some(upper) ==> lower <= upper
}

impl SizeHint {
    /// The lower bound.
    pub closed spec fn lower_bound(self) -> u64 {
        self.lower
    }

    /// The upper bound, where one is known.
    pub closed spec fn upper_bound(self) -> Option<u64> {
        self.upper
    }

    /// The invariant of the type.
    pub open spec fn well_formed(self) -> bool {
        bounds_ok(self.lower_bound(), self.upper_bound())
    }

    /// The bounds of which nothing is known.
    pub fn new() -> (hint: Self)
        ensures
            hint.well_formed(),
            hint.lower_bound() == 0,
            hint.upper_bound() is None,
    {
        SizeHint { lower: 0, upper: None }
    }

    pub fn lower(&self) -> (lower: u64)
        ensures
            lower == self.lower_bound(),
    {
        self.lower
    }

    pub fn upper(&self) -> (upper: Option<u64>)
        ensures
            upper == self.upper_bound(),
    {
        self.upper
    }

    /// Replaces the lower bound.
    pub fn set_lower(&mut self, value: u64)
        requires
            bounds_ok(value, old(self).upper_bound()),
        ensures
            final(self).well_formed(),
            final(self).lower_bound() == value,
            final(self).upper_bound() == old(self).upper_bound(),
    {
        self.lower = value;
    }

    /// Replaces the upper bound.
    pub fn set_upper(&mut self, value: u64)
        requires
            old(self).lower_bound() <= value,
        ensures
            final(self).well_formed(),
            final(self).lower_bound() == old(self).lower_bound(),
            final(self).upper_bound() == Some(value),
    {
        self.upper = Some(value);
    }
}

} // verus!
