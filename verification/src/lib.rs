//! The core of a controller mapping: what a control value from a source (a fader, a button, an
//! encoder) does to a target, and what a source should show for a target value.
//!
//! All values of the unit interval are whole numbers of ticks, [`UNIT`] ticks making up the value
//! one, so that every result is exact and can be stated in contracts. A [`Mode`] holds the
//! settings of one mapping. [`Mode::control`] processes a control value for a [`Target`],
//! [`Mode::feedback`] goes the other way.

pub mod base;
pub mod mode;

pub use base::control_value::negative_if;
pub use base::control_value::ControlValue;
pub use base::discrete::create_discrete_increment_interval;
pub use base::discrete::DiscreteIncrement;
pub use base::discrete::DiscreteValue;
pub use base::discrete::MAX_STEPS;
pub use base::interval::Interval;
pub use base::unit_increment::UnitIncrement;
pub use base::unit_value::create_unit_value_interval;
pub use base::unit_value::full_unit_interval;
pub use base::unit_value::MinIsMaxBehavior;
pub use base::unit_value::UnitValue;
pub use base::unit_value::UNIT;
pub use mode::common::AbsoluteMode;
pub use mode::common::OutOfRangeBehavior;
pub use mode::feedback_util::feedback;
pub use mode::mode_struct::round_to_nearest_discrete_value;
pub use mode::mode_struct::Mode;
pub use mode::mode_struct::DEFAULT_STEP_SIZE;
pub use mode::press_duration_processor::PressDurationProcessor;
pub use mode::press_duration_processor::FOREVER;
pub use mode::target::ControlType;
pub use mode::target::Target;
pub use mode::transformation::Transformation;
