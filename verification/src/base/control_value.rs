use crate::base::discrete::DiscreteIncrement;
use crate::base::discrete::MAX_STEPS;
use crate::base::unit_value::UnitValue;
use crate::base::unit_value::UNIT;
use vstd::prelude::*;

verus! {

/// A value that a source emits or that a target takes.
#[derive(Clone, Copy, Debug, PartialEq, Eq)]
pub enum ControlValue {
    /// A position, such as that of a fader or the amplitude of a button press.
    Absolute(UnitValue),
    /// A number of steps up or down, such as the ticks of an encoder.
    Relative(DiscreteIncrement),
}

impl ControlValue {
    /// Creates the absolute control value of `ticks` ticks.
    pub fn absolute(ticks: u64) -> (r: ControlValue)
        requires
            ticks <= UNIT,
        ensures
            r == ControlValue::Absolute(UnitValue::of(ticks as int)),
    {
        ControlValue::Absolute(UnitValue::new(ticks))
    }

    /// Creates the relative control value of `steps` steps.
    pub fn relative(steps: i32) -> (r: ControlValue)
        requires
            steps != 0,
            -MAX_STEPS <= steps,
        ensures
            r == ControlValue::Relative(DiscreteIncrement::of(steps as int)),
    {
        ControlValue::Relative(DiscreteIncrement::new(steps))
    }

    /// Returns the position if this is an absolute value.
    pub fn as_absolute(self) -> (r: Option<UnitValue>)
        ensures
            r == (match self {
                ControlValue::Absolute(v) => Some(v),
                ControlValue::Relative(_) => None,
            }),
    {
        match self {
            ControlValue::Absolute(v) => Some(v),
            ControlValue::Relative(_) => None,
        }
    }

    /// Returns the steps if this is a relative value.
    pub fn as_relative(self) -> (r: Option<DiscreteIncrement>)
        ensures
            r == (match self {
                ControlValue::Absolute(_) => None,
                ControlValue::Relative(i) => Some(i),
            }),
    {
        match self {
            ControlValue::Absolute(_) => None,
            ControlValue::Relative(i) => Some(i),
        }
    }
}

/// Returns `-1` if the given condition holds and `1` if it does not.
pub fn negative_if(condition: bool) -> (r: i32)
    ensures
        r == (if condition { -1i32 } else { 1i32 }),
{
    if condition {
        -1
    } else {
        1
    }
}

} // verus!
