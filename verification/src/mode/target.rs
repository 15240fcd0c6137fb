use crate::base::unit_value::UnitValue;
use vstd::prelude::*;

verus! {

/// The character of a target, which decides how control values are applied to it.
#[derive(Clone, Copy, Debug, PartialEq, Eq)]
pub enum ControlType {
    /// Takes any absolute value.
    AbsoluteContinuous,
    /// Takes any absolute value, which may be rounded to a multiple of the given step size.
    AbsoluteContinuousRoundable { rounding_step_size: UnitValue },
    /// Takes absolute values that are multiples of the given step size only.
    AbsoluteDiscrete { atomic_step_size: UnitValue },
    /// Momentary target without a meaningful current value.
    AbsoluteTrigger,
    /// On/off target for which only transitions matter.
    AbsoluteSwitch,
    /// Takes relative increments.
    Relative,
    /// Virtual pass-through target that accepts increments.
    VirtualMulti,
    /// Virtual pass-through target that accepts triggers only.
    VirtualButton,
}

impl ControlType {
    /// Tells whether the target should be hit even if its value would not change.
    pub fn is_trigger(&self) -> (r: bool)
        ensures
            r == (*self is AbsoluteTrigger),
    {
        matches!(self, ControlType::AbsoluteTrigger)
    }

    /// The size of the steps that absolute values for this target are rounded to, if it has
    /// such steps.
    pub open spec fn grid(self) -> Option<UnitValue> {
        match self {
            ControlType::AbsoluteContinuousRoundable { rounding_step_size } => Some(
                rounding_step_size,
            ),
            ControlType::AbsoluteDiscrete { atomic_step_size } => Some(atomic_step_size),
            _ => None,
        }
    }

    /// Returns the size of the steps that absolute values for this target are rounded to, if it
    /// has such steps.
    pub fn step_size(&self) -> (r: Option<UnitValue>)
        ensures
            r == self.grid(),
    {
        match self {
            ControlType::AbsoluteContinuousRoundable { rounding_step_size } => Some(
                *rounding_step_size,
            ),
            ControlType::AbsoluteDiscrete { atomic_step_size } => Some(*atomic_step_size),
            _ => None,
        }
    }
}

/// A read-only view on the thing that is being controlled.
pub trait Target {
    /// Should return the current value of the target. Virtual targets have none.
    fn current_value(&self) -> Option<UnitValue>;

    /// Should return the character of the target.
    fn control_type(&self) -> ControlType;
}

/// Tells whether a target may report the given character and the given current value.
pub open spec fn reports<G: Target>(
    target: &G,
    control_type: ControlType,
    current_value: Option<UnitValue>,
) -> bool {
    &&& call_ensures(G::control_type, (target,), control_type)
    &&& call_ensures(G::current_value, (target,), current_value)
}

} // verus!
