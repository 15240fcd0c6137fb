use std::ops::Sub;
use vstd::prelude::*;
use vstd::std_specs::cmp::PartialOrdIs;
use vstd::std_specs::cmp::PartialOrdSpec;
use vstd::std_specs::ops::SubSpec;

verus! {

/// An interval which has an inclusive min and inclusive max value.
#[derive(Copy, Debug, Eq, PartialEq)]
pub struct Interval<T: PartialOrd + Copy + Sub> {
    min: T,
    max: T,
}

impl<T: PartialOrd + Copy + Sub> Clone for Interval<T> {
    fn clone(&self) -> (r: Self)
        ensures
            r == *self,
    {
        *self
    }
}

impl<T: PartialOrd + Copy + Sub> Interval<T> {
    /// The low bound, for use in contracts.
    pub closed spec fn lower(self) -> T {
        self.min
    }

    /// The high bound, for use in contracts.
    pub closed spec fn upper(self) -> T {
        self.max
    }

    /// The low bound never lies above the high bound.
    #[verifier::type_invariant]
    pub open spec fn inv(self) -> bool {
        T::obeys_partial_cmp_spec() ==> self.lower().is_le(&self.upper())
    }

    /// Two intervals with the same bounds are the same interval.
    pub proof fn lemma_same_bounds(self, other: Self)
        requires
            self.lower() == other.lower(),
            self.upper() == other.upper(),
        ensures
            self == other,
    {
    }

    /// Creates an interval. The low bound must not be greater than the high bound.
    pub fn new(min: T, max: T) -> (r: Interval<T>)
        requires
            T::obeys_partial_cmp_spec() ==> min.is_le(&max),
        ensures
            r.lower() == min,
            r.upper() == max,
    {
        Interval { min, max }
    }

    /// Checks if this interval contains the given value.
    pub fn contains(&self, value: T) -> (r: bool)
        ensures
            T::obeys_partial_cmp_spec() ==> r == (self.lower().is_le(&value) && value.is_le(
                &self.upper(),
            )),
    {
        self.min <= value && value <= self.max
    }

    /// Returns the low bound of this interval.
    pub fn min(&self) -> (r: T)
        ensures
            r == self.lower(),
            self.inv(),
    {
        proof {
            use_type_invariant(self);
        }
        self.min
    }

    /// Returns the high bound of this interval.
    pub fn max(&self) -> (r: T)
        ensures
            r == self.upper(),
            self.inv(),
    {
        proof {
            use_type_invariant(self);
        }
        self.max
    }

    /// Returns a new interval with the given low bound.
    ///
    /// If the given low bound is greater than the current high bound, the high bound is raised
    /// to the given low bound.
    pub fn with_min(&self, min: T) -> (r: Interval<T>)
        requires
            T::obeys_partial_cmp_spec() ==> min.is_le(&min),
        ensures
            r.lower() == min,
            T::obeys_partial_cmp_spec() ==> r.upper() == (if min.is_le(&self.upper()) {
                self.upper()
            } else {
                min
            }),
    {
        let max = if min <= self.max {
            self.max
        } else {
            min
        };
        Interval { min, max }
    }

    /// Returns a new interval with the given high bound.
    ///
    /// If the given high bound is lower than the current low bound, the low bound is lowered to
    /// the given high bound.
    pub fn with_max(&self, max: T) -> (r: Interval<T>)
        requires
            T::obeys_partial_cmp_spec() ==> max.is_le(&max),
        ensures
            r.upper() == max,
            T::obeys_partial_cmp_spec() ==> r.lower() == (if self.lower().is_le(&max) {
                self.lower()
            } else {
                max
            }),
    {
        let min = if self.min <= max {
            self.min
        } else {
            max
        };
        Interval { min, max }
    }

    /// Returns the distance between the low and high bound of this interval.
    pub fn span(&self) -> (r: T::Output)
        requires
            self.upper().sub_req(self.lower()),
        ensures
            T::obeys_sub_spec() ==> r == self.upper().sub_spec(self.lower()),
    {
        self.max - self.min
    }
}

} // verus!
