use crate::base::arith::abs;
use crate::base::interval::Interval;
use crate::base::unit_increment::UnitIncrement;
use crate::base::unit_value::UnitValue;
use crate::base::unit_value::UNIT;
use std::cmp::Ordering;
use std::ops::Sub;
use vstd::prelude::*;
use vstd::std_specs::cmp::PartialEqSpecImpl;
use vstd::std_specs::cmp::PartialOrdSpecImpl;
use vstd::std_specs::ops::SubSpecImpl;

verus! {

/// The largest magnitude that a discrete value or increment can have.
pub const MAX_STEPS: i32 = 2_147_483_647;

/// A count of steps: a whole number between zero and [`MAX_STEPS`].
#[derive(Clone, Copy, Debug, PartialEq, Eq)]
pub struct DiscreteValue(u32);

impl View for DiscreteValue {
    type V = int;

    closed spec fn view(&self) -> int {
        self.0 as int
    }
}

impl DiscreteValue {
    /// A discrete value fits into the magnitude of an increment.
    #[verifier::type_invariant]
    pub open spec fn inv(self) -> bool {
        0 <= self@ <= MAX_STEPS
    }

    /// The discrete value with the given count, for use in contracts.
    pub closed spec fn of(count: int) -> DiscreteValue {
        DiscreteValue(count as u32)
    }

    /// Tells whether this is the discrete value with the given count.
    pub open spec fn is_of(self, count: int) -> bool {
        self == Self::of(count) && self@ == count
    }

    /// The discrete value made from a count has that count.
    pub proof fn lemma_of_view(count: int)
        requires
            0 <= count <= MAX_STEPS,
        ensures
            Self::of(count)@ == count,
    {
    }

    /// Creates the discrete value of `count` steps.
    pub fn new(count: u32) -> (r: DiscreteValue)
        requires
            count <= MAX_STEPS,
        ensures
            r.is_of(count as int),
    {
        DiscreteValue(count)
    }

    /// Returns the number of steps.
    pub fn get(&self) -> (r: u32)
        ensures
            r == self@,
            self.inv(),
    {
        proof {
            use_type_invariant(self);
        }
        self.0
    }

    /// Tells whether this is the value zero.
    pub fn is_zero(&self) -> (r: bool)
        ensures
            r == (self@ == 0),
    {
        self.0 == 0
    }

    /// Attaches a direction to this value: downwards for a negative `signum`, upwards for any
    /// other. There is no increment of zero steps.
    pub fn to_increment(&self, signum: i32) -> (r: Option<DiscreteIncrement>)
        ensures
            r is None <==> self@ == 0,
            r matches Some(increment) ==> increment.is_of(
                if signum < 0 {
                    -self@
                } else {
                    self@
                },
            ),
    {
        proof {
            use_type_invariant(self);
        }
        if self.0 == 0 {
            None
        } else if signum < 0 {
            Some(DiscreteIncrement::new(-(self.0 as i32)))
        } else {
            Some(DiscreteIncrement::new(self.0 as i32))
        }
    }
}

/// A signed count of steps that is not zero and whose magnitude is [`MAX_STEPS`] at most.
#[derive(Clone, Copy, Debug, Eq)]
pub struct DiscreteIncrement(i32);

impl View for DiscreteIncrement {
    type V = int;

    closed spec fn view(&self) -> int {
        self.0 as int
    }
}

/// The step count that an increment of the given magnitude selects from the counts between
/// `min` and `max`: the magnitude one selects `min`, every further unit of magnitude the next
/// count above, where zero is no count, and `max` is the limit.
pub open spec fn select_count(magnitude: int, min: int, max: int) -> int {
    let raw = min + magnitude - 1;
    let skipped = if min < 0 && raw >= 0 {
        raw + 1
    } else {
        raw
    };
    if skipped > max {
        max
    } else {
        skipped
    }
}

/// The magnitude in ticks of a move by `steps` steps of `atomic` ticks each, which is never more
/// than the whole unit interval.
pub open spec fn step_ticks(steps: int, atomic: int) -> int {
    if abs(steps) * atomic > UNIT {
        UNIT as int
    } else {
        abs(steps) * atomic
    }
}

/// The step count that an increment selects from an interval of step counts is one of that
/// interval.
pub proof fn lemma_select_count_within(magnitude: int, min: int, max: int)
    requires
        magnitude >= 1,
        min <= max,
        min != 0,
        max != 0,
    ensures
        min <= select_count(magnitude, min, max) <= max,
        select_count(magnitude, min, max) != 0,
{
}

/// An interval that holds one step count leaves no choice.
pub proof fn lemma_select_single_count(magnitude: int, count: int)
    requires
        magnitude >= 1,
        count != 0,
    ensures
        select_count(magnitude, count, count) == count,
{
}

/// A move by some steps of a size above zero has a magnitude above zero.
pub proof fn lemma_step_ticks_bounds(steps: int, atomic: int)
    requires
        steps != 0,
        0 < atomic,
    ensures
        atomic <= step_ticks(steps, atomic) || step_ticks(steps, atomic) == UNIT,
        0 < step_ticks(steps, atomic) <= UNIT,
{
    assert(abs(steps) * atomic >= atomic) by (nonlinear_arith)
        requires
            abs(steps) >= 1,
            0 < atomic,
    ;
}

impl DiscreteIncrement {
    /// An increment is never zero and its opposite is an increment too.
    #[verifier::type_invariant]
    pub open spec fn inv(self) -> bool {
        self@ != 0 && -MAX_STEPS <= self@ <= MAX_STEPS
    }

    /// The increment of the given number of steps, for use in contracts.
    pub closed spec fn of(steps: int) -> DiscreteIncrement {
        DiscreteIncrement(steps as i32)
    }

    /// Tells whether this is the increment of the given number of steps.
    pub open spec fn is_of(self, steps: int) -> bool {
        self == Self::of(steps) && self@ == steps
    }

    /// The increment made from a step count has that step count.
    pub proof fn lemma_of_view(steps: int)
        requires
            -MAX_STEPS <= steps <= MAX_STEPS,
        ensures
            Self::of(steps)@ == steps,
    {
    }

    /// An increment is determined by its step count.
    pub proof fn lemma_of_self(self)
        ensures
            Self::of(self@) == self,
    {
    }

    /// Tells whether the given step count denotes an increment.
    pub fn is_valid(steps: i32) -> (r: bool)
        ensures
            r == (steps != 0 && -MAX_STEPS <= steps),
    {
        steps != 0 && -MAX_STEPS <= steps
    }

    /// Creates the increment of `steps` steps.
    pub fn new(steps: i32) -> (r: DiscreteIncrement)
        requires
            steps != 0,
            -MAX_STEPS <= steps,
        ensures
            r.is_of(steps as int),
    {
        DiscreteIncrement(steps)
    }

    /// Returns the number of steps, negative for steps downwards.
    pub fn get(&self) -> (r: i32)
        ensures
            r == self@,
            self.inv(),
    {
        proof {
            use_type_invariant(self);
        }
        self.0
    }

    /// Tells whether this increment points upwards.
    pub fn is_positive(&self) -> (r: bool)
        ensures
            r == (self@ > 0),
    {
        self.0 > 0
    }

    /// Returns `1` for an increment that points upwards and `-1` for one that points downwards.
    pub fn signum(&self) -> (r: i32)
        ensures
            r == (if self@ > 0 { 1i32 } else { -1i32 }),
    {
        if self.0 > 0 {
            1
        } else {
            -1
        }
    }

    /// Returns the increment of the same magnitude in the opposite direction.
    pub fn inverse(&self) -> (r: DiscreteIncrement)
        ensures
            r.is_of(-self@),
    {
        proof {
            use_type_invariant(self);
        }
        DiscreteIncrement(-self.0)
    }

    /// Returns the increment of the same magnitude that points downwards for a negative `signum`
    /// and upwards for any other.
    pub fn with_direction(&self, signum: i32) -> (r: DiscreteIncrement)
        ensures
            r.is_of(if signum < 0 { -abs(self@) } else { abs(self@) }),
    {
        proof {
            use_type_invariant(self);
        }
        let magnitude = if self.0 > 0 {
            self.0
        } else {
            -self.0
        };
        if signum < 0 {
            DiscreteIncrement(-magnitude)
        } else {
            DiscreteIncrement(magnitude)
        }
    }

    /// Returns the magnitude of this increment.
    pub fn to_value(&self) -> (r: DiscreteValue)
        ensures
            r.is_of(abs(self@)),
    {
        proof {
            use_type_invariant(self);
        }
        if self.0 > 0 {
            DiscreteValue::new(self.0 as u32)
        } else {
            DiscreteValue::new((-self.0) as u32)
        }
    }

    /// Selects a step count from the given interval by the magnitude of this increment, see
    /// [`select_count`]. Counts below zero stand for throttling.
    pub fn clamp_to_interval(&self, interval: &Interval<DiscreteIncrement>) -> (r:
        DiscreteIncrement)
        ensures
            r.is_of(select_count(abs(self@), interval.lower()@, interval.upper()@)),
    {
        proof {
            use_type_invariant(self);
        }
        let min = interval.min().get() as i64;
        let max = interval.max().get() as i64;
        let magnitude = if self.0 > 0 {
            self.0 as i64
        } else {
            -(self.0 as i64)
        };
        let raw = min + magnitude - 1;
        let skipped = if min < 0 && raw >= 0 {
            raw + 1
        } else {
            raw
        };
        if skipped > max {
            interval.max()
        } else {
            DiscreteIncrement(skipped as i32)
        }
    }

    /// Converts this increment into a move by as many steps of the given size, limited to the
    /// whole unit interval. There is no such move with steps of size zero.
    pub fn to_unit_increment(&self, atomic_unit_value: UnitValue) -> (r: Option<UnitIncrement>)
        ensures
            r is None <==> atomic_unit_value@ == 0,
            r matches Some(increment) ==> increment.is_of(
                if self@ > 0 {
                    step_ticks(self@, atomic_unit_value@)
                } else {
                    -step_ticks(self@, atomic_unit_value@)
                },
            ),
    {
        proof {
            use_type_invariant(self);
        }
        let atomic = atomic_unit_value.get();
        if atomic == 0 {
            return None;
        }
        let steps: u64 = if self.0 > 0 {
            self.0 as u64
        } else {
            (-(self.0 as i64)) as u64
        };
        assert(steps * atomic <= 2_147_483_647 * 1_000_000_000_000) by (nonlinear_arith)
            requires
                steps <= 2_147_483_647,
                atomic <= 1_000_000_000_000,
        ;
        assert(steps * atomic >= 1) by (nonlinear_arith)
            requires
                steps >= 1,
                atomic >= 1,
        ;
        let product: u128 = steps as u128 * atomic as u128;
        let magnitude: i64 = if product > UNIT as u128 {
            UNIT as i64
        } else {
            product as i64
        };
        if self.0 > 0 {
            Some(UnitIncrement::new(magnitude))
        } else {
            Some(UnitIncrement::new(-magnitude))
        }
    }
}

/// Returns the interval between the increments of the given step counts.
pub fn create_discrete_increment_interval(min: i32, max: i32) -> (r: Interval<DiscreteIncrement>)
    requires
        min != 0,
        max != 0,
        -MAX_STEPS <= min <= max,
    ensures
        r.lower() == DiscreteIncrement::of(min as int),
        r.upper() == DiscreteIncrement::of(max as int),
{
    Interval::new(DiscreteIncrement(min), DiscreteIncrement(max))
}

impl PartialEq for DiscreteIncrement {
    fn eq(&self, other: &DiscreteIncrement) -> (r: bool) {
        self.0 == other.0
    }
}

impl PartialEqSpecImpl for DiscreteIncrement {
    open spec fn obeys_eq_spec() -> bool {
        true
    }

    open spec fn eq_spec(&self, other: &DiscreteIncrement) -> bool {
        self@ == other@
    }
}

impl PartialOrd for DiscreteIncrement {
    fn partial_cmp(&self, other: &DiscreteIncrement) -> (r: Option<Ordering>) {
        if self.0 < other.0 {
            Some(Ordering::Less)
        } else if self.0 == other.0 {
            Some(Ordering::Equal)
        } else {
            Some(Ordering::Greater)
        }
    }
}

impl PartialOrdSpecImpl for DiscreteIncrement {
    open spec fn obeys_partial_cmp_spec() -> bool {
        true
    }

    open spec fn partial_cmp_spec(&self, other: &DiscreteIncrement) -> Option<Ordering> {
        if self@ < other@ {
            Some(Ordering::Less)
        } else if self@ == other@ {
            Some(Ordering::Equal)
        } else {
            Some(Ordering::Greater)
        }
    }
}

impl Sub for DiscreteIncrement {
    type Output = i64;

    /// The number of steps from `rhs` up to `self`.
    fn sub(self, rhs: DiscreteIncrement) -> (r: i64) {
        self.0 as i64 - rhs.0 as i64
    }
}

impl SubSpecImpl for DiscreteIncrement {
    open spec fn obeys_sub_spec() -> bool {
        true
    }

    open spec fn sub_req(self, rhs: DiscreteIncrement) -> bool {
        true
    }

    open spec fn sub_spec(self, rhs: DiscreteIncrement) -> i64 {
        (self@ - rhs@) as i64
    }
}

} // verus!
