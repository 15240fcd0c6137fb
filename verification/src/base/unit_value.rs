use crate::base::arith::abs;
use crate::base::arith::clamp;
use crate::base::arith::div_round_u128;
use crate::base::arith::lemma_div_round_bound;
use crate::base::arith::lemma_div_round_error;
use crate::base::discrete::DiscreteIncrement;
use crate::base::interval::Interval;
use crate::base::ticks::add_clamping_ticks;
use crate::base::ticks::add_rotating_ticks;
use crate::base::ticks::from_unit_ticks;
use crate::base::ticks::snap_ticks;
use crate::base::ticks::to_count;
use crate::base::ticks::to_unit_ticks;
use crate::base::unit_increment::UnitIncrement;
use std::cmp::Ordering;
use std::ops::Sub;
use vstd::prelude::*;
use vstd::std_specs::cmp::PartialEqSpecImpl;
use vstd::std_specs::cmp::PartialOrdSpecImpl;
use vstd::std_specs::ops::SubSpecImpl;

verus! {

/// Number of ticks that make up the value one. A unit value is a whole number of ticks, so the
/// resolution of all unit arithmetic in this crate is `1 / UNIT`.
pub const UNIT: u64 = 1_000_000_000_000;

/// Says which end of the unit interval a value is mapped to when it comes from an interval that
/// consists of one value only.
#[derive(Clone, Copy, Debug, PartialEq, Eq)]
pub enum MinIsMaxBehavior {
    PreferZero,
    PreferOne,
}

/// A number of the closed unit interval, held as a count of ticks between `0` and [`UNIT`].
#[derive(Clone, Copy, Debug, Eq)]
pub struct UnitValue(u64);

impl View for UnitValue {
    type V = int;

    closed spec fn view(&self) -> int {
        self.0 as int
    }
}

impl UnitValue {
    /// Every unit value lies between zero and one.
    #[verifier::type_invariant]
    pub open spec fn inv(self) -> bool {
        0 <= self@ <= UNIT
    }

    /// The unit value with the given tick count, for use in contracts.
    pub closed spec fn of(ticks: int) -> UnitValue {
        UnitValue(ticks as u64)
    }

    /// Tells whether this is the unit value with the given tick count.
    pub open spec fn is_of(self, ticks: int) -> bool {
        self == Self::of(ticks) && self@ == ticks
    }

    /// The unit value made from a tick count has that tick count.
    pub proof fn lemma_of_view(ticks: int)
        requires
            0 <= ticks <= UNIT,
        ensures
            Self::of(ticks)@ == ticks,
    {
    }

    /// A unit value is determined by its tick count.
    pub proof fn lemma_of_self(self)
        requires
            self.inv(),
        ensures
            Self::of(self@) == self,
    {
    }

    /// Tells whether the given tick count denotes a unit value.
    pub fn is_valid(ticks: u64) -> (r: bool)
        ensures
            r == (ticks <= UNIT),
    {
        ticks <= UNIT
    }

    /// Creates the unit value that is `ticks` ticks above zero.
    pub fn new(ticks: u64) -> (r: UnitValue)
        requires
            ticks <= UNIT,
        ensures
            r.is_of(ticks as int),
    {
        UnitValue(ticks)
    }

    /// Creates the unit value nearest to `ticks` ticks above zero.
    pub fn new_clamped(ticks: u64) -> (r: UnitValue)
        ensures
            r.is_of(clamp(ticks as int, 0, UNIT as int)),
    {
        if ticks > UNIT {
            UnitValue(UNIT)
        } else {
            UnitValue(ticks)
        }
    }

    /// Returns the tick count of this value.
    pub fn get(&self) -> (r: u64)
        ensures
            r == self@,
            r <= UNIT,
    {
        proof {
            use_type_invariant(self);
        }
        self.0
    }
}

impl UnitValue {
    /// The value zero.
    pub fn min_value() -> (r: UnitValue)
        ensures
            r.is_of(0),
    {
        UnitValue(0)
    }

    /// The value one.
    pub fn max_value() -> (r: UnitValue)
        ensures
            r.is_of(UNIT as int),
    {
        UnitValue(UNIT)
    }

    /// Tells whether this is the value zero.
    pub fn is_zero(&self) -> (r: bool)
        ensures
            r == (self@ == 0),
    {
        self.0 == 0
    }

    /// Checks if this value is within the given interval.
    pub fn is_within_interval(&self, interval: &Interval<UnitValue>) -> (r: bool)
        ensures
            r == (interval.lower()@ <= self@ <= interval.upper()@),
    {
        interval.min().0 <= self.0 && self.0 <= interval.max().0
    }

    /// Returns the distance between this value and the given one.
    pub fn calc_distance_from(&self, rhs: UnitValue) -> (r: UnitValue)
        ensures
            r.is_of(abs(self@ - rhs@)),
    {
        proof {
            use_type_invariant(self);
            use_type_invariant(rhs);
        }
        if self.0 >= rhs.0 {
            UnitValue(self.0 - rhs.0)
        } else {
            UnitValue(rhs.0 - self.0)
        }
    }

    /// Returns the value that is as far from one as this value is from zero.
    pub fn inverse(&self) -> (r: UnitValue)
        ensures
            r.is_of(UNIT - self@),
    {
        proof {
            use_type_invariant(self);
        }
        UnitValue(UNIT - self.0)
    }

    /// Brings this value into the given interval.
    pub fn clamp_to_interval(&self, interval: &Interval<UnitValue>) -> (r: UnitValue)
        ensures
            r.is_of(clamp(self@, interval.lower()@, interval.upper()@)),
    {
        let min = interval.min();
        let max = interval.max();
        if self.0 < min.0 {
            min
        } else if self.0 > max.0 {
            max
        } else {
            *self
        }
    }

    /// Attaches a direction to this value: downwards for a negative `signum`, upwards for any
    /// other. There is no increment of magnitude zero.
    pub fn to_increment(&self, signum: i32) -> (r: Option<UnitIncrement>)
        ensures
            r is None <==> self@ == 0,
            r matches Some(increment) ==> increment.is_of(
                if signum < 0 {
                    -self@
                } else {
                    self@
                },
            ),
    {
        proof {
            use_type_invariant(self);
        }
        if self.0 == 0 {
            None
        } else if signum < 0 {
            Some(UnitIncrement::new(-(self.0 as i64)))
        } else {
            Some(UnitIncrement::new(self.0 as i64))
        }
    }

    /// Maps this value to the unit interval assuming that it currently exhausts the given
    /// interval, see [`to_unit_ticks`].
    pub fn map_to_unit_interval_from(
        &self,
        current_interval: &Interval<UnitValue>,
        min_is_max_behavior: MinIsMaxBehavior,
    ) -> (r: UnitValue)
        ensures
            r.is_of(
                to_unit_ticks(
                    self@,
                    current_interval.lower()@,
                    current_interval.upper()@,
                    min_is_max_behavior is PreferOne,
                ),
            ),
    {
        let low = current_interval.min();
        let high = current_interval.max();
        proof {
            use_type_invariant(self);
            use_type_invariant(low);
            use_type_invariant(high);
        }
        let min = low.0;
        let max = high.0;
        if min == max {
            return match min_is_max_behavior {
                MinIsMaxBehavior::PreferZero => UnitValue(0),
                MinIsMaxBehavior::PreferOne => UnitValue(UNIT),
            };
        }
        if self.0 <= min {
            return UnitValue(0);
        }
        if self.0 >= max {
            return UnitValue(UNIT);
        }
        let n: u128 = (self.0 - min) as u128 * UNIT as u128;
        let d: u128 = (max - min) as u128;
        proof {
            lemma_div_round_bound(n as int, d as int, UNIT as int);
        }
        let q = div_round_u128(n, d);
        UnitValue(q as u64)
    }

    /// Maps this value to the given interval assuming that it currently exhausts the unit
    /// interval, see [`from_unit_ticks`].
    pub fn map_from_unit_interval_to(&self, destination_interval: &Interval<UnitValue>) -> (r:
        UnitValue)
        ensures
            r.is_of(
                from_unit_ticks(self@, destination_interval.lower()@, destination_interval.upper()@),
            ),
    {
        let low = destination_interval.min();
        let high = destination_interval.max();
        proof {
            use_type_invariant(self);
            use_type_invariant(low);
            use_type_invariant(high);
        }
        let min = low.0;
        let max = high.0;
        let span = max - min;
        assert(0 <= self.0 * span <= span * UNIT) by (nonlinear_arith)
            requires
                0 <= self.0 <= UNIT,
                0 <= span,
        ;
        let n: u128 = self.0 as u128 * span as u128;
        proof {
            lemma_div_round_bound(n as int, UNIT as int, span as int);
        }
        let q = div_round_u128(n, UNIT as u128);
        UnitValue(min + q as u64)
    }

    /// Maps this value to a step count of the given interval assuming that it currently
    /// exhausts the unit interval, see [`to_count`].
    pub fn map_from_unit_interval_to_discrete_increment(
        &self,
        destination_interval: &Interval<DiscreteIncrement>,
    ) -> (r: DiscreteIncrement)
        ensures
            r.is_of(
                to_count(self@, destination_interval.lower()@, destination_interval.upper()@),
            ),
    {
        let min = destination_interval.min().get() as i64;
        let max = destination_interval.max().get() as i64;
        proof {
            use_type_invariant(self);
        }
        let span = (max - min) as u64;
        assert(0 <= self.0 * span <= span * UNIT) by (nonlinear_arith)
            requires
                0 <= self.0 <= UNIT,
                0 <= span,
        ;
        let n: u128 = self.0 as u128 * span as u128;
        proof {
            lemma_div_round_bound(n as int, UNIT as int, span as int);
        }
        let q = div_round_u128(n, UNIT as u128);
        let raw = min + q as i64;
        if raw == 0 {
            DiscreteIncrement::new(1)
        } else {
            DiscreteIncrement::new(raw as i32)
        }
    }

    /// Moves this value to the nearest multiple of the given grid size, see [`snap_ticks`].
    pub fn snap_to_grid_by_interval_size(&self, interval_size: UnitValue) -> (r: UnitValue)
        ensures
            r.is_of(snap_ticks(self@, interval_size@)),
    {
        proof {
            use_type_invariant(self);
            use_type_invariant(interval_size);
        }
        let grid = interval_size.0;
        if grid == 0 {
            return *self;
        }
        let k = div_round_u128(self.0 as u128, grid as u128);
        proof {
            lemma_div_round_error(self.0 as int, grid as int);
            assert(k * grid <= 2 * self.0 + grid) by (nonlinear_arith)
                requires
                    2 * grid * k <= 2 * self.0 + grid,
                    0 <= k,
                    0 < grid,
            ;
        }
        let snapped = k * grid as u128;
        if snapped > UNIT as u128 {
            UnitValue(UNIT)
        } else {
            UnitValue(snapped as u64)
        }
    }

    /// Adds the given increment. A sum outside of the given interval is replaced by the bound
    /// that it crossed. A value that is outside of the interval in the first place enters it at
    /// the bound that the increment starts from, see [`add_clamping_ticks`].
    pub fn add_clamping(&self, increment: UnitIncrement, interval: &Interval<UnitValue>) -> (r:
        UnitValue)
        ensures
            r.is_of(
                add_clamping_ticks(self@, increment@, interval.lower()@, interval.upper()@),
            ),
    {
        let min = interval.min();
        let max = interval.max();
        proof {
            use_type_invariant(self);
            use_type_invariant(min);
            use_type_invariant(max);
        }
        if self.0 < min.0 || self.0 > max.0 {
            return if increment.is_positive() {
                min
            } else {
                max
            };
        }
        let sum = self.0 as i64 + increment.get();
        if sum < min.0 as i64 {
            min
        } else if sum > max.0 as i64 {
            max
        } else {
            UnitValue(sum as u64)
        }
    }

    /// Adds the given increment. A sum outside of the given interval is replaced by the bound
    /// opposite to the one that it crossed. A value that is outside of the interval in the first
    /// place enters it at the bound that the increment starts from, see [`add_rotating_ticks`].
    pub fn add_rotating(&self, increment: UnitIncrement, interval: &Interval<UnitValue>) -> (r:
        UnitValue)
        ensures
            r.is_of(
                add_rotating_ticks(self@, increment@, interval.lower()@, interval.upper()@),
            ),
    {
        let min = interval.min();
        let max = interval.max();
        proof {
            use_type_invariant(self);
            use_type_invariant(min);
            use_type_invariant(max);
        }
        if self.0 < min.0 || self.0 > max.0 {
            return if increment.is_positive() {
                min
            } else {
                max
            };
        }
        let sum = self.0 as i64 + increment.get();
        if sum > max.0 as i64 {
            min
        } else if sum < min.0 as i64 {
            max
        } else {
            UnitValue(sum as u64)
        }
    }
}

impl Interval<UnitValue> {
    /// Returns the value halfway between the bounds, rounded down to a whole tick.
    pub fn center(&self) -> (r: UnitValue)
        ensures
            r.is_of((self.lower()@ + self.upper()@) / 2),
    {
        let min = self.min();
        let max = self.max();
        proof {
            use_type_invariant(min);
            use_type_invariant(max);
        }
        UnitValue((min.0 + max.0) / 2)
    }

    /// Tells whether this interval is the whole unit interval.
    pub fn is_full(&self) -> (r: bool)
        ensures
            r == (self.lower()@ == 0 && self.upper()@ == UNIT),
            0 <= self.lower()@ <= self.upper()@ <= UNIT,
    {
        let min = self.min();
        let max = self.max();
        proof {
            use_type_invariant(min);
            use_type_invariant(max);
        }
        min.0 == 0 && max.0 == UNIT
    }
}

/// Returns the interval from zero to one.
pub fn full_unit_interval() -> (r: Interval<UnitValue>)
    ensures
        r.lower() == UnitValue::of(0),
        r.upper() == UnitValue::of(UNIT as int),
{
    Interval::new(UnitValue(0), UnitValue(UNIT))
}

/// Returns the interval between the unit values of the given tick counts.
pub fn create_unit_value_interval(min: u64, max: u64) -> (r: Interval<UnitValue>)
    requires
        min <= max <= UNIT,
    ensures
        r.lower() == UnitValue::of(min as int),
        r.upper() == UnitValue::of(max as int),
{
    Interval::new(UnitValue(min), UnitValue(max))
}

impl PartialEq for UnitValue {
    fn eq(&self, other: &UnitValue) -> (r: bool) {
        self.0 == other.0
    }
}

impl PartialEqSpecImpl for UnitValue {
    open spec fn obeys_eq_spec() -> bool {
        true
    }

    open spec fn eq_spec(&self, other: &UnitValue) -> bool {
        self@ == other@
    }
}

impl PartialOrd for UnitValue {
    fn partial_cmp(&self, other: &UnitValue) -> (r: Option<Ordering>) {
        if self.0 < other.0 {
            Some(Ordering::Less)
        } else if self.0 == other.0 {
            Some(Ordering::Equal)
        } else {
            Some(Ordering::Greater)
        }
    }
}

impl PartialOrdSpecImpl for UnitValue {
    open spec fn obeys_partial_cmp_spec() -> bool {
        true
    }

    open spec fn partial_cmp_spec(&self, other: &UnitValue) -> Option<Ordering> {
        if self@ < other@ {
            Some(Ordering::Less)
        } else if self@ == other@ {
            Some(Ordering::Equal)
        } else {
            Some(Ordering::Greater)
        }
    }
}

impl Sub for UnitValue {
    type Output = UnitValue;

    /// The distance from `rhs` up to `self`, or zero where `rhs` is the larger one.
    fn sub(self, rhs: UnitValue) -> (r: UnitValue) {
        proof {
            use_type_invariant(self);
        }
        if self.0 >= rhs.0 {
            UnitValue(self.0 - rhs.0)
        } else {
            UnitValue(0)
        }
    }
}

impl SubSpecImpl for UnitValue {
    open spec fn obeys_sub_spec() -> bool {
        true
    }

    open spec fn sub_req(self, rhs: UnitValue) -> bool {
        true
    }

    open spec fn sub_spec(self, rhs: UnitValue) -> UnitValue {
        UnitValue::of(
            if self@ >= rhs@ {
                self@ - rhs@
            } else {
                0
            },
        )
    }
}

} // verus!
