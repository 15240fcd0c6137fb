use crate::base::arith::abs;
use crate::base::arith::clamp;
use crate::base::interval::Interval;
use crate::base::unit_value::UnitValue;
use crate::base::unit_value::UNIT;
use vstd::prelude::*;

verus! {

/// A signed step within the unit interval: a tick count that is not zero and whose magnitude is
/// [`UNIT`] at most.
#[derive(Clone, Copy, Debug, PartialEq, Eq)]
pub struct UnitIncrement(i64);

impl View for UnitIncrement {
    type V = int;

    closed spec fn view(&self) -> int {
        self.0 as int
    }
}

impl UnitIncrement {
    /// An increment is never zero and never larger than the whole unit interval.
    #[verifier::type_invariant]
    pub open spec fn inv(self) -> bool {
        self@ != 0 && -UNIT <= self@ <= UNIT
    }

    /// The increment with the given tick count, for use in contracts.
    pub closed spec fn of(ticks: int) -> UnitIncrement {
        UnitIncrement(ticks as i64)
    }

    /// Tells whether this is the increment with the given tick count.
    pub open spec fn is_of(self, ticks: int) -> bool {
        self == Self::of(ticks) && self@ == ticks
    }

    /// The increment made from a tick count has that tick count.
    pub proof fn lemma_of_view(ticks: int)
        requires
            -UNIT <= ticks <= UNIT,
        ensures
            Self::of(ticks)@ == ticks,
    {
    }

    /// An increment is determined by its tick count.
    pub proof fn lemma_of_self(self)
        requires
            self.inv(),
        ensures
            Self::of(self@) == self,
    {
    }

    /// Tells whether the given tick count denotes an increment.
    pub fn is_valid(ticks: i64) -> (r: bool)
        ensures
            r == (ticks != 0 && -UNIT <= ticks <= UNIT),
    {
        ticks != 0 && -(UNIT as i64) <= ticks && ticks <= UNIT as i64
    }

    /// Creates the increment of `ticks` ticks.
    pub fn new(ticks: i64) -> (r: UnitIncrement)
        requires
            ticks != 0,
            -UNIT <= ticks <= UNIT,
        ensures
            r.is_of(ticks as int),
    {
        UnitIncrement(ticks)
    }

    /// Returns the tick count of this increment.
    pub fn get(&self) -> (r: i64)
        ensures
            r == self@,
            self.inv(),
    {
        proof {
            use_type_invariant(self);
        }
        self.0
    }

    /// Tells whether this increment points upwards.
    pub fn is_positive(&self) -> (r: bool)
        ensures
            r == (self@ > 0),
    {
        self.0 > 0
    }

    /// Returns `1` for an increment that points upwards and `-1` for one that points downwards.
    pub fn signum(&self) -> (r: i32)
        ensures
            r == (if self@ > 0 { 1i32 } else { -1i32 }),
    {
        if self.0 > 0 {
            1
        } else {
            -1
        }
    }

    /// Returns the magnitude of this increment.
    pub fn to_value(&self) -> (r: UnitValue)
        ensures
            r.is_of(abs(self@)),
    {
        proof {
            use_type_invariant(self);
        }
        if self.0 > 0 {
            UnitValue::new(self.0 as u64)
        } else {
            UnitValue::new((-self.0) as u64)
        }
    }

    /// Brings the magnitude of this increment into the given interval and keeps its direction.
    ///
    /// The interval must have room for an increment, that is a high bound above zero.
    pub fn clamp_to_interval(&self, interval: &Interval<UnitValue>) -> (r: UnitIncrement)
        requires
            interval.upper()@ > 0,
        ensures
            r.is_of(
                if self@ > 0 {
                    clamp(self@, interval.lower()@, interval.upper()@)
                } else {
                    -clamp(-self@, interval.lower()@, interval.upper()@)
                },
            ),
    {
        proof {
            use_type_invariant(self);
        }
        let min = interval.min().get() as i64;
        let max = interval.max().get() as i64;
        let magnitude = if self.0 > 0 {
            self.0
        } else {
            -self.0
        };
        let clamped = if magnitude < min {
            min
        } else if magnitude > max {
            max
        } else {
            magnitude
        };
        if self.0 > 0 {
            UnitIncrement(clamped)
        } else {
            UnitIncrement(-clamped)
        }
    }
}

} // verus!
