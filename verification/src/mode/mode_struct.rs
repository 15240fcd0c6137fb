use crate::base::arith::abs;
use crate::base::arith::clamp;
use crate::base::control_value::negative_if;
use crate::base::control_value::ControlValue;
use crate::base::discrete::create_discrete_increment_interval;
use crate::base::discrete::lemma_step_ticks_bounds;
use crate::base::discrete::select_count;
use crate::base::discrete::step_ticks;
use crate::base::discrete::DiscreteIncrement;
use crate::base::discrete::DiscreteValue;
use crate::base::discrete::MAX_STEPS;
use crate::base::interval::Interval;
use crate::base::ticks::add_clamping_ticks;
use crate::base::ticks::add_rotating_ticks;
use crate::base::ticks::from_unit_ticks;
use crate::base::ticks::lemma_snap_monotonic;
use crate::base::ticks::snap_ticks;
use crate::base::ticks::to_count;
use crate::base::ticks::to_unit_ticks;
use crate::base::unit_increment::UnitIncrement;
use crate::base::unit_value::create_unit_value_interval;
use crate::base::unit_value::full_unit_interval;
use crate::base::unit_value::MinIsMaxBehavior;
use crate::base::unit_value::UNIT;
use crate::base::unit_value::UnitValue;
use crate::mode::common::AbsoluteMode;
use crate::mode::common::OutOfRangeBehavior;
use crate::mode::feedback_util::feedback;
use crate::mode::feedback_util::is_feedback;
use crate::mode::press_duration_processor::PressDurationProcessor;
use crate::mode::target::reports;
use crate::mode::target::ControlType;
use crate::mode::target::Target;
use crate::mode::throttle::time_to_fire;
use crate::mode::transformation::apply;
use crate::mode::transformation::may_yield;
use crate::mode::transformation::Transformation;
use vstd::prelude::*;

verus! {

/// Settings for processing all kinds of control values.
///
/// ## How relative control values are processed (or button taps interpreted as increments).
///
/// Here's an overview in which cases step counts are used and in which step sizes.
/// This is the same, no matter if the source emits relative increments or absolute values
/// ("relative one-direction mode").
///
/// - Target wants relative increments: __Step counts__
/// - Target wants absolute values
///     - Target is continuous, optionally roundable: __Step sizes__
///     - Target is discrete: __Step counts__
#[derive(Clone, Debug)]
pub struct Mode<T: Transformation> {
    pub absolute_mode: AbsoluteMode,
    pub source_value_interval: Interval<UnitValue>,
    pub target_value_interval: Interval<UnitValue>,
    /// Negative increments represent fractions (throttling), e.g. -2 fires an increment every
    /// 2nd time only.
    pub step_count_interval: Interval<DiscreteIncrement>,
    pub step_size_interval: Interval<UnitValue>,
    pub jump_interval: Interval<UnitValue>,
    pub press_duration_processor: PressDurationProcessor,
    pub approach_target_value: bool,
    pub reverse: bool,
    pub rotate: bool,
    pub round_target_value: bool,
    pub out_of_range_behavior: OutOfRangeBehavior,
    pub control_transformation: Option<T>,
    pub feedback_transformation: Option<T>,
    /// Counter for implementing throttling.
    ///
    /// Throttling is implemented by spitting out control values only every nth time. The counter
    /// can take positive or negative values in order to detect direction changes. This is positive
    /// when the last change was a positive increment and negative when the last change was a
    /// negative increment.
    pub increment_counter: i32,
}

/// Tells whether the bounds of the given interval are unit values in their order.
pub open spec fn is_unit_interval(interval: Interval<UnitValue>) -> bool {
    &&& interval.lower().inv()
    &&& interval.upper().inv()
    &&& interval.lower()@ <= interval.upper()@
}

/// Tells whether the bounds of the given interval are increments in their order.
pub open spec fn is_step_count_interval(interval: Interval<DiscreteIncrement>) -> bool {
    &&& interval.lower().inv()
    &&& interval.upper().inv()
    &&& interval.lower()@ <= interval.upper()@
}

/// The step size of a mode that has not been configured: one percent.
pub const DEFAULT_STEP_SIZE: u64 = 10_000_000_000;

/// The number of steps `count` in the direction given by `upwards`, turned round if `reverse`
/// is set.
pub open spec fn oriented(count: int, upwards: bool, reverse: bool) -> int {
    if upwards != reverse {
        count
    } else {
        -count
    }
}

/// What is delivered to a target with the given current value and character when it should
/// take the given value: nothing if that would change nothing, unless the target is a trigger.
pub open spec fn hit_if_changed_spec(
    desired_target_value: UnitValue,
    current_target_value: UnitValue,
    control_type: ControlType,
) -> Option<UnitValue> {
    if !(control_type is AbsoluteTrigger) && current_target_value@ == desired_target_value@ {
        None
    } else {
        Some(desired_target_value)
    }
}

/// The value zero where there is no value.
pub open spec fn or_zero(value: Option<UnitValue>) -> UnitValue {
    match value {
        Some(v) => v,
        None => UnitValue::of(0),
    }
}

/// Wraps a target value into an absolute control value.
pub open spec fn as_absolute(value: Option<UnitValue>) -> Option<ControlValue> {
    match value {
        Some(v) => Some(ControlValue::Absolute(v)),
        None => None,
    }
}

/// Wraps an increment into a relative control value.
pub open spec fn as_relative(increment: Option<DiscreteIncrement>) -> Option<ControlValue> {
    match increment {
        Some(i) => Some(ControlValue::Relative(i)),
        None => None,
    }
}

impl<T: Transformation> Mode<T> {
    /// Tells whether the intervals of this mode have their bounds in order and whether all of
    /// its unit values and increments are what their types stand for. This holds of every mode
    /// that a program works with.
    pub open spec fn wf(self) -> bool {
        &&& is_unit_interval(self.source_value_interval)
        &&& is_unit_interval(self.target_value_interval)
        &&& is_unit_interval(self.step_size_interval)
        &&& is_unit_interval(self.jump_interval)
        &&& is_step_count_interval(self.step_count_interval)
        &&& self.press_duration_processor.wf()
    }

    /// Tells whether the given control value is dropped because it lies outside of the source
    /// interval.
    pub open spec fn drops(self, control_value: UnitValue) -> bool {
        &&& self.out_of_range_behavior is Ignore
        &&& !(self.source_value_interval.lower()@ <= control_value@
            <= self.source_value_interval.upper()@)
    }

    /// The value within the source interval that stands for the given control value, and the
    /// end of the unit interval that it is mapped to if the source interval has one value only.
    /// A value outside of the source interval counts as the bound that the out-of-range
    /// behavior names.
    pub open spec fn source_bound(self, control_value: UnitValue) -> (UnitValue, MinIsMaxBehavior) {
        let min = self.source_value_interval.lower();
        let max = self.source_value_interval.upper();
        if min@ <= control_value@ <= max@ {
            (control_value, MinIsMaxBehavior::PreferOne)
        } else if self.out_of_range_behavior is Min || control_value@ < min@ {
            (min, MinIsMaxBehavior::PreferZero)
        } else {
            (max, MinIsMaxBehavior::PreferOne)
        }
    }

    /// The place of the given control value within the source interval, which is what the
    /// control transformation is applied to.
    pub open spec fn normalized(self, control_value: UnitValue) -> UnitValue {
        UnitValue::of(
            to_unit_ticks(
                self.source_bound(control_value).0@,
                self.source_value_interval.lower()@,
                self.source_value_interval.upper()@,
                self.source_bound(control_value).1 is PreferOne,
            ),
        )
    }

    /// The target value that a transformed value stands for: reversed if asked for, mapped to
    /// the target interval and, if asked for, rounded to the steps of the target.
    pub open spec fn shaped(self, transformed: UnitValue, control_type: ControlType) -> UnitValue {
        let directed = if self.reverse {
            UNIT - transformed@
        } else {
            transformed@
        };
        let mapped = from_unit_ticks(
            directed,
            self.target_value_interval.lower()@,
            self.target_value_interval.upper()@,
        );
        UnitValue::of(
            match control_type.grid() {
                Some(grid) if self.round_target_value => snap_ticks(mapped, grid@),
                _ => mapped,
            },
        )
    }

    /// What is delivered to a target when it should take `control_value`: the value itself
    /// unless it is further from the current value than the jump interval allows or nearer
    /// than it asks for. A jump that is too far is dropped or, if the target value is to be
    /// approached, shortened into the jump interval, and dropped if that leaves the target
    /// where it is.
    pub open spec fn jump_filtered(
        self,
        control_value: UnitValue,
        current_target_value: Option<UnitValue>,
        control_type: ControlType,
    ) -> Option<UnitValue> {
        match current_target_value {
            None => Some(control_value),
            Some(current) => {
                let jump_min = self.jump_interval.lower()@;
                let jump_max = self.jump_interval.upper()@;
                let distance = abs(control_value@ - current@);
                if jump_min == 0 && jump_max == UNIT {
                    hit_if_changed_spec(control_value, current, control_type)
                } else if distance > jump_max {
                    let approach_distance = from_unit_ticks(distance, jump_min, jump_max);
                    let approached = add_clamping_ticks(
                        current@,
                        if control_value@ < current@ {
                            -approach_distance
                        } else {
                            approach_distance
                        },
                        self.target_value_interval.lower()@,
                        self.target_value_interval.upper()@,
                    );
                    if !self.approach_target_value || approach_distance == 0 || approached
                        == current@ {
                        None
                    } else {
                        Some(UnitValue::of(approached))
                    }
                } else if distance < jump_min {
                    None
                } else {
                    hit_if_changed_spec(control_value, current, control_type)
                }
            },
        }
    }

    /// Tells whether `result` may be delivered to a target in normal mode when the given control
    /// value has passed the press duration processor.
    ///
    /// The value is placed within the source interval, transformed, shaped into a target value
    /// and held against the jump interval. Nothing is delivered for a value that the
    /// out-of-range behavior drops.
    pub open spec fn absolute_normal_yields(
        self,
        control_value: UnitValue,
        control_type: ControlType,
        current_target_value: Option<UnitValue>,
        result: Option<UnitValue>,
    ) -> bool {
        if self.drops(control_value) {
            result is None
        } else {
            exists|transformed: UnitValue|
                {
                    &&& #[trigger] may_yield(
                        self.control_transformation,
                        self.normalized(control_value),
                        or_zero(current_target_value),
                        transformed,
                    )
                    &&& result == self.jump_filtered(
                        self.shaped(transformed, control_type),
                        current_target_value,
                        control_type,
                    )
                }
        }
    }

    /// What a button press of the given amplitude does to a target in toggle mode: a target
    /// above the center of the target interval goes to the low bound, any other one to the high
    /// bound. A release and a target without a value do nothing.
    pub open spec fn toggle_outcome(
        self,
        control_value: UnitValue,
        current_target_value: Option<UnitValue>,
    ) -> Option<UnitValue> {
        match current_target_value {
            Some(current) if control_value@ != 0 => {
                let min = self.target_value_interval.lower();
                let max = self.target_value_interval.upper();
                let desired = if 2 * current@ > min@ + max@ {
                    min
                } else {
                    max
                };
                if desired@ == current@ {
                    None
                } else {
                    Some(desired)
                }
            },
            _ => None,
        }
    }

    /// What is delivered to a target with the given current value when it should move by
    /// `increment` ticks on a grid of the given size.
    ///
    /// The target interval is snapped to the grid, and so is a current value outside of it. The
    /// move ends at or wraps around the bounds of the snapped interval. Nothing is delivered if
    /// the target would not change.
    pub open spec fn hit_with_increment(self, increment: int, grid: int, current: UnitValue) -> Option<
        ControlValue,
    > {
        let low = snap_ticks(self.target_value_interval.lower()@, grid);
        let high = snap_ticks(self.target_value_interval.upper()@, grid);
        let start = if low <= current@ <= high {
            current@
        } else {
            snap_ticks(current@, grid)
        };
        let desired = if self.rotate {
            add_rotating_ticks(start, increment, low, high)
        } else {
            add_clamping_ticks(start, increment, low, high)
        };
        if desired == current@ {
            None
        } else {
            Some(ControlValue::Absolute(UnitValue::of(desired)))
        }
    }

    /// What is delivered to a discrete target when it should move by `steps` steps of the size
    /// `atomic`. Nothing is delivered if the steps have no size or the target has no value.
    pub open spec fn hit_discrete(
        self,
        steps: int,
        atomic: UnitValue,
        current: Option<UnitValue>,
    ) -> Option<ControlValue> {
        match current {
            Some(c) if atomic@ != 0 => self.hit_with_increment(
                if steps > 0 {
                    step_ticks(steps, atomic@)
                } else {
                    -step_ticks(steps, atomic@)
                },
                atomic@,
                c,
            ),
            _ => None,
        }
    }

    /// What becomes of an increment of `steps` steps under the step count interval, and the
    /// throttle counter afterwards.
    ///
    /// The magnitude of the increment selects a step count from the interval. A count above zero
    /// is the number of steps that go out. A count below zero throttles: one step goes out
    /// every so many increments. The steps go in the direction of the increment, or against
    /// it if `reverse` is set.
    pub open spec fn pepped_up(self, steps: int) -> (Option<DiscreteIncrement>, int) {
        let factor = select_count(
            abs(steps),
            self.step_count_interval.lower()@,
            self.step_count_interval.upper()@,
        );
        if factor > 0 {
            (
                Some(DiscreteIncrement::of(oriented(factor, steps > 0, self.reverse))),
                self.increment_counter as int,
            )
        } else {
            let (fire, counter) = time_to_fire(
                self.increment_counter as int,
                -factor,
                if steps > 0 {
                    1
                } else {
                    -1
                },
            );
            (
                if fire {
                    Some(DiscreteIncrement::of(oriented(1, steps > 0, self.reverse)))
                } else {
                    None
                },
                counter,
            )
        }
    }

    /// What becomes of a button press of the given amplitude under the step count interval, and
    /// the throttle counter afterwards.
    ///
    /// The place of the amplitude within the source interval selects a step count from the
    /// interval. A count above zero is the number of steps that go out. A count below zero
    /// throttles: one step goes out every so many presses. The steps go upwards, or downwards
    /// if `reverse` is set.
    pub open spec fn converted(self, control_value: UnitValue) -> (Option<DiscreteIncrement>, int) {
        let factor = to_count(
            to_unit_ticks(
                control_value@,
                self.source_value_interval.lower()@,
                self.source_value_interval.upper()@,
                true,
            ),
            self.step_count_interval.lower()@,
            self.step_count_interval.upper()@,
        );
        if factor > 0 {
            (
                Some(DiscreteIncrement::of(oriented(factor, true, self.reverse))),
                self.increment_counter as int,
            )
        } else {
            let (fire, counter) = time_to_fire(self.increment_counter as int, -factor, 1);
            (
                if fire {
                    Some(DiscreteIncrement::of(oriented(1, true, self.reverse)))
                } else {
                    None
                },
                counter,
            )
        }
    }

    /// What an increment of `steps` steps does to a target, and the throttle counter afterwards.
    ///
    /// A target that takes absolute values continuously moves by the step size that the
    /// increment stands for. A discrete target moves by the steps that the step count interval
    /// makes of the increment, and a target that takes increments gets those steps.
    pub open spec fn relative_outcome(
        self,
        steps: int,
        control_type: ControlType,
        current_target_value: Option<UnitValue>,
    ) -> (Option<ControlValue>, int) {
        let counter = self.increment_counter as int;
        match control_type {
            ControlType::AbsoluteDiscrete { atomic_step_size } => {
                let (pepped_up, counter) = self.pepped_up(steps);
                match pepped_up {
                    Some(increment) => (
                        self.hit_discrete(increment@, atomic_step_size, current_target_value),
                        counter,
                    ),
                    None => (None, counter),
                }
            },
            ControlType::Relative | ControlType::VirtualMulti => {
                let (pepped_up, counter) = self.pepped_up(steps);
                (as_relative(pepped_up), counter)
            },
            ControlType::VirtualButton => (None, counter),
            _ => {
                let min = self.step_size_interval.lower()@;
                let max = self.step_size_interval.upper()@;
                let magnitude = clamp(step_ticks(steps, min), min, max);
                match current_target_value {
                    Some(current) if min != 0 => (
                        self.hit_with_increment(
                            oriented(magnitude, steps > 0, self.reverse),
                            min,
                            current,
                        ),
                        counter,
                    ),
                    _ => (None, counter),
                }
            },
        }
    }

    /// What a button press of the given amplitude does to a target in incremental mode, and the
    /// throttle counter afterwards.
    ///
    /// A release and a press outside of the source interval do nothing. A target that takes
    /// absolute values continuously moves by the step size that lies in the step size interval
    /// where the amplitude lies in the source interval. A discrete target moves by the steps that
    /// the step count interval makes of the amplitude, and a target that takes increments gets
    /// those steps.
    pub open spec fn incremental_outcome(
        self,
        control_value: UnitValue,
        control_type: ControlType,
        current_target_value: Option<UnitValue>,
    ) -> (Option<ControlValue>, int) {
        let counter = self.increment_counter as int;
        let source_min = self.source_value_interval.lower()@;
        let source_max = self.source_value_interval.upper()@;
        if control_value@ == 0 || !(source_min <= control_value@ <= source_max) {
            (None, counter)
        } else {
            match control_type {
                ControlType::AbsoluteDiscrete { atomic_step_size } => {
                    let (converted, counter) = self.converted(control_value);
                    match converted {
                        Some(increment) => (
                            self.hit_discrete(increment@, atomic_step_size, current_target_value),
                            counter,
                        ),
                        None => (None, counter),
                    }
                },
                ControlType::Relative | ControlType::VirtualMulti => {
                    let (converted, counter) = self.converted(control_value);
                    (as_relative(converted), counter)
                },
                ControlType::VirtualButton => (None, counter),
                _ => {
                    let step_size = from_unit_ticks(
                        to_unit_ticks(control_value@, source_min, source_max, true),
                        self.step_size_interval.lower()@,
                        self.step_size_interval.upper()@,
                    );
                    match current_target_value {
                        Some(current) if step_size != 0 => (
                            self.hit_with_increment(
                                oriented(step_size, true, self.reverse),
                                self.step_size_interval.lower()@,
                                current,
                            ),
                            counter,
                        ),
                        _ => (None, counter),
                    }
                },
            }
        }
    }

    /// Tells whether processing the given control value at the time `now`, for a target of the
    /// given character and current value, may deliver `result` and leave the mode as `after`.
    ///
    /// Increments are processed as [`Mode::relative_outcome`] says. Absolute values first pass
    /// the press duration processor and are then processed as the absolute mode asks for. Only
    /// the throttle counter and the press duration processor ever change.
    pub open spec fn controls(
        self,
        control_value: ControlValue,
        control_type: ControlType,
        current_target_value: Option<UnitValue>,
        now: u128,
        result: Option<ControlValue>,
        after: Mode<T>,
    ) -> bool {
        match control_value {
            ControlValue::Relative(increment) => {
                let (outcome, counter) = self.relative_outcome(
                    increment@,
                    control_type,
                    current_target_value,
                );
                &&& result == outcome
                &&& after == (Mode { increment_counter: counter as i32, ..self })
            },
            ControlValue::Absolute(value) => {
                let processed = Mode {
                    press_duration_processor: self.press_duration_processor.after(value, now),
                    ..self
                };
                match self.press_duration_processor.output(value, now) {
                    None => result is None && after == processed,
                    Some(passed) => match self.absolute_mode {
                        AbsoluteMode::Normal => {
                            &&& after == processed
                            &&& exists|delivered: Option<UnitValue>|
                                {
                                    &&& #[trigger] self.absolute_normal_yields(
                                        passed,
                                        control_type,
                                        current_target_value,
                                        delivered,
                                    )
                                    &&& result == as_absolute(delivered)
                                }
                        },
                        AbsoluteMode::IncrementalButtons => {
                            let (outcome, counter) = self.incremental_outcome(
                                passed,
                                control_type,
                                current_target_value,
                            );
                            &&& result == outcome
                            &&& after == (Mode { increment_counter: counter as i32, ..processed })
                        },
                        AbsoluteMode::ToggleButtons => {
                            &&& after == processed
                            &&& result == as_absolute(
                                self.toggle_outcome(passed, current_target_value),
                            )
                        },
                    },
                }
            },
        }
    }

    /// Tells whether two modes have the same settings, whatever they have processed.
    pub open spec fn same_settings(self, other: Mode<T>) -> bool {
        other == (Mode {
            press_duration_processor: other.press_duration_processor,
            increment_counter: other.increment_counter,
            ..self
        })
    }

    /// What may be delivered in normal mode depends on the settings only, not on what the mode
    /// has processed before.
    pub proof fn lemma_settings_decide(
        self,
        other: Mode<T>,
        control_value: UnitValue,
        control_type: ControlType,
        current_target_value: Option<UnitValue>,
        result: Option<UnitValue>,
    )
        requires
            self.same_settings(other),
            other.absolute_normal_yields(control_value, control_type, current_target_value, result),
        ensures
            self.absolute_normal_yields(control_value, control_type, current_target_value, result),
    {
        if !other.drops(control_value) {
            let normalized = other.normalized(control_value);
            let transformed = choose|transformed: UnitValue|
                {
                    &&& #[trigger] may_yield(
                        other.control_transformation,
                        normalized,
                        or_zero(current_target_value),
                        transformed,
                    )
                    &&& result == other.jump_filtered(
                        other.shaped(transformed, control_type),
                        current_target_value,
                        control_type,
                    )
                };
            assert(may_yield(
                self.control_transformation,
                self.normalized(control_value),
                or_zero(current_target_value),
                transformed,
            ));
        }
    }
}

impl<T: Transformation> Mode<T> {
    /// Processes the given control value and maybe returns an appropriate target control value.
    ///
    /// The target is asked for its character and its current value once. The clock is read only
    /// for an absolute value and only if the press duration processor does not accept every
    /// press duration.
    pub fn control<G: Target>(&mut self, control_value: ControlValue, target: &G) -> (r: Option<
        ControlValue,
    >)
        ensures
            exists|control_type: ControlType, current_target_value: Option<UnitValue>, now: u128|
                {
                    &&& reports(target, control_type, current_target_value)
                    &&& #[trigger] old(self).controls(
                        control_value,
                        control_type,
                        current_target_value,
                        now,
                        r,
                        *final(self),
                    )
                },
            old(self).wf(),
            final(self).wf(),
    {
        let control_type = target.control_type();
        let current_target_value = target.current_value();
        let now = match control_value {
            ControlValue::Absolute(_) if self.press_duration_processor.is_active() => {
                self.press_duration_processor.now()
            },
            _ => 0,
        };
        self.control_at(control_value, control_type, current_target_value, now)
    }

    /// Processes a control value that arrives at the time `now`, given in milliseconds on any
    /// clock that does not run backwards, for a target of the given character and current value.
    /// Maybe returns an appropriate target control value.
    pub fn control_at(
        &mut self,
        control_value: ControlValue,
        control_type: ControlType,
        current_target_value: Option<UnitValue>,
        now: u128,
    ) -> (r: Option<ControlValue>)
        ensures
            old(self).controls(
                control_value,
                control_type,
                current_target_value,
                now,
                r,
                *final(self),
            ),
            old(self).wf(),
            final(self).wf(),
    {
        self.observe();
        let r = match control_value {
            ControlValue::Relative(i) => self.control_relative(
                i,
                control_type,
                current_target_value,
            ),
            ControlValue::Absolute(v) => {
                match self.press_duration_processor.process_at(v, now) {
                    None => None,
                    Some(passed) => match self.absolute_mode {
                        AbsoluteMode::Normal => {
                            let delivered = self.control_absolute_normal(
                                passed,
                                control_type,
                                current_target_value,
                            );
                            proof {
                                old(self).lemma_settings_decide(
                                    *self,
                                    passed,
                                    control_type,
                                    current_target_value,
                                    delivered,
                                );
                            }
                            match delivered {
                                Some(value) => Some(ControlValue::Absolute(value)),
                                None => None,
                            }
                        },
                        AbsoluteMode::IncrementalButtons => {
                            self.control_absolute_incremental_buttons(
                                passed,
                                control_type,
                                current_target_value,
                            )
                        },
                        AbsoluteMode::ToggleButtons => {
                            match self.control_absolute_toggle_buttons(
                                passed,
                                current_target_value,
                            ) {
                                Some(value) => Some(ControlValue::Absolute(value)),
                                None => None,
                            }
                        },
                    },
                }
            },
        };
        self.observe();
        r
    }

    /// Takes a target value, interprets and transforms it conforming to mode rules and
    /// maybe returns an appropriate source value that should be sent to the source.
    pub fn feedback(&self, target_value: UnitValue) -> (r: Option<UnitValue>)
        ensures
            is_feedback(
                target_value,
                self.reverse,
                self.feedback_transformation,
                self.source_value_interval,
                self.target_value_interval,
                self.out_of_range_behavior,
                r,
            ),
            self.wf(),
    {
        self.observe();
        feedback(
            target_value,
            self.reverse,
            &self.feedback_transformation,
            &self.source_value_interval,
            &self.target_value_interval,
            self.out_of_range_behavior,
        )
    }

    /// Does nothing but state that this mode is well-formed.
    fn observe(&self)
        ensures
            self.wf(),
    {
        let _ = self.source_value_interval.is_full();
        let _ = self.target_value_interval.is_full();
        let _ = self.step_size_interval.is_full();
        let _ = self.jump_interval.is_full();
        let min = self.step_count_interval.min();
        let max = self.step_count_interval.max();
        let _ = self.press_duration_processor.pending_press();
        proof {
            use_type_invariant(min);
            use_type_invariant(max);
        }
    }

    /// Processes the given control value in absolute mode and maybe returns an appropriate target
    /// value.
    fn control_absolute_normal(
        &self,
        control_value: UnitValue,
        control_type: ControlType,
        current_target_value: Option<UnitValue>,
    ) -> (r: Option<UnitValue>)
        ensures
            self.absolute_normal_yields(control_value, control_type, current_target_value, r),
    {
        let (source_bound_value, min_is_max_behavior) = if control_value.is_within_interval(
            &self.source_value_interval,
        ) {
            // Control value is within source value interval
            (control_value, MinIsMaxBehavior::PreferOne)
        } else {
            // Control value is outside source value interval
            match self.out_of_range_behavior {
                OutOfRangeBehavior::MinOrMax => {
                    if control_value.get() < self.source_value_interval.min().get() {
                        (self.source_value_interval.min(), MinIsMaxBehavior::PreferZero)
                    } else {
                        (self.source_value_interval.max(), MinIsMaxBehavior::PreferOne)
                    }
                },
                OutOfRangeBehavior::Min => (
                    self.source_value_interval.min(),
                    MinIsMaxBehavior::PreferZero,
                ),
                OutOfRangeBehavior::Ignore => return None,
            }
        };
        let pepped_up_control_value = self.pep_up_control_value(
            source_bound_value,
            control_type,
            current_target_value,
            min_is_max_behavior,
        );
        let delivered = self.hitting_target_considering_max_jump(
            pepped_up_control_value,
            current_target_value,
            control_type,
        );
        proof {
            let normalized = UnitValue::of(
                to_unit_ticks(
                    source_bound_value@,
                    self.source_value_interval.lower()@,
                    self.source_value_interval.upper()@,
                    min_is_max_behavior is PreferOne,
                ),
            );
            assert(self.normalized(control_value) == normalized);
            let transformed = choose|transformed: UnitValue|
                {
                    &&& #[trigger] may_yield(
                        self.control_transformation,
                        normalized,
                        or_zero(current_target_value),
                        transformed,
                    )
                    &&& pepped_up_control_value == self.shaped(transformed, control_type)
                };
            assert(may_yield(
                self.control_transformation,
                self.normalized(control_value),
                or_zero(current_target_value),
                transformed,
            ));
        }
        delivered
    }

    /// Relative one-direction mode (convert absolute button presses to relative increments)
    fn control_absolute_incremental_buttons(
        &mut self,
        control_value: UnitValue,
        control_type: ControlType,
        current_target_value: Option<UnitValue>,
    ) -> (r: Option<ControlValue>)
        ensures
            r == old(self).incremental_outcome(control_value, control_type, current_target_value).0,
            final(self).increment_counter == old(self).incremental_outcome(
                control_value,
                control_type,
                current_target_value,
            ).1,
            *final(self) == (Mode { increment_counter: final(self).increment_counter, ..*old(self) }),
    {
        if control_value.is_zero() || !control_value.is_within_interval(&self.source_value_interval)
        {
            return None;
        }
        match control_type {
            ControlType::AbsoluteContinuous
            | ControlType::AbsoluteContinuousRoundable { .. }
            | ControlType::AbsoluteTrigger
            | ControlType::AbsoluteSwitch => {
                // Continuous target
                //
                // Settings:
                // - Source value interval (for setting the input interval of relevant source
                //   values)
                // - Minimum target step size (enables accurate minimum increment, atomic)
                // - Maximum target step size (enables accurate maximum increment, clamped)
                // - Target value interval (absolute, important for rotation only, clamped)
                let step_size_value = control_value.map_to_unit_interval_from(
                    &self.source_value_interval,
                    MinIsMaxBehavior::PreferOne,
                ).map_from_unit_interval_to(&self.step_size_interval);
                let step_size_increment = match step_size_value.to_increment(
                    negative_if(self.reverse),
                ) {
                    Some(i) => i,
                    None => return None,
                };
                match current_target_value {
                    Some(current) => self.hit_target_absolutely_with_unit_increment(
                        step_size_increment,
                        self.step_size_interval.min(),
                        current,
                    ),
                    None => None,
                }
            },
            ControlType::AbsoluteDiscrete { atomic_step_size } => {
                // Discrete target
                //
                // Settings:
                // - Source value interval (for setting the input interval of relevant source
                //   values)
                // - Minimum target step count (enables accurate normal/minimum increment, atomic)
                // - Target value interval (absolute, important for rotation only, clamped)
                // - Maximum target step count (enables accurate maximum increment, clamped)
                let discrete_increment = match self.convert_to_discrete_increment(control_value) {
                    Some(i) => i,
                    None => return None,
                };
                self.hit_discrete_target_absolutely(
                    discrete_increment,
                    atomic_step_size,
                    current_target_value,
                )
            },
            ControlType::Relative | ControlType::VirtualMulti => {
                // Target wants increments so we just generate them e.g. depending on how hard the
                // button has been pressed
                //
                // - Source value interval (for setting the input interval of relevant source
                //   values)
                // - Minimum target step count (enables accurate normal/minimum increment, atomic)
                // - Maximum target step count (enables accurate maximum increment, mapped)
                let discrete_increment = match self.convert_to_discrete_increment(control_value) {
                    Some(i) => i,
                    None => return None,
                };
                Some(ControlValue::Relative(discrete_increment))
            },
            ControlType::VirtualButton => {
                // This doesn't make sense at all. Buttons just need to be triggered, not fed with
                // +/- n.
                None
            },
        }
    }

    fn control_absolute_toggle_buttons(
        &self,
        control_value: UnitValue,
        current_target_value: Option<UnitValue>,
    ) -> (r: Option<UnitValue>)
        ensures
            r == self.toggle_outcome(control_value, current_target_value),
    {
        if control_value.is_zero() {
            return None;
        }
        let center_target_value = self.target_value_interval.center();
        // Nothing we can do if we can't get the current target value. This shouldn't happen
        // usually because virtual targets are not supposed to be used with toggle mode.
        let current_target_value = match current_target_value {
            Some(v) => v,
            None => return None,
        };
        let desired_target_value = if current_target_value.get() > center_target_value.get() {
            self.target_value_interval.min()
        } else {
            self.target_value_interval.max()
        };
        if desired_target_value == current_target_value {
            return None;
        }
        Some(desired_target_value)
    }

    // Classic relative mode: We are getting encoder increments from the source.
    // We don't need source min/max config in this case. At least I can't think of a use case
    // where one would like to totally ignore especially slow or especially fast encoder movements,
    // I guess that possibility would rather cause irritation.
    fn control_relative(
        &mut self,
        discrete_increment: DiscreteIncrement,
        control_type: ControlType,
        current_target_value: Option<UnitValue>,
    ) -> (r: Option<ControlValue>)
        ensures
            r == old(self).relative_outcome(discrete_increment@, control_type, current_target_value).0,
            final(self).increment_counter == old(self).relative_outcome(
                discrete_increment@,
                control_type,
                current_target_value,
            ).1,
            *final(self) == (Mode { increment_counter: final(self).increment_counter, ..*old(self) }),
    {
        match control_type {
            ControlType::AbsoluteContinuous
            | ControlType::AbsoluteContinuousRoundable { .. }
            | ControlType::AbsoluteSwitch
            | ControlType::AbsoluteTrigger => {
                // Continuous target
                //
                // Settings which are always necessary:
                // - Minimum target step size (enables accurate minimum increment, atomic)
                // - Target value interval (absolute, important for rotation only, clamped)
                //
                // Settings which are necessary in order to support >1-increments:
                // - Maximum target step size (enables accurate maximum increment, clamped)
                let potentially_reversed_increment = if self.reverse {
                    discrete_increment.inverse()
                } else {
                    discrete_increment
                };
                let step_size_min = self.step_size_interval.min();
                proof {
                    use_type_invariant(step_size_min);
                    use_type_invariant(discrete_increment);
                }
                let unit_increment = match potentially_reversed_increment.to_unit_increment(
                    step_size_min,
                ) {
                    Some(i) => i,
                    None => return None,
                };
                proof {
                    lemma_step_ticks_bounds(potentially_reversed_increment@, step_size_min@);
                }
                let clamped_unit_increment = unit_increment.clamp_to_interval(
                    &self.step_size_interval,
                );
                match current_target_value {
                    Some(current) => self.hit_target_absolutely_with_unit_increment(
                        clamped_unit_increment,
                        step_size_min,
                        current,
                    ),
                    None => None,
                }
            },
            ControlType::AbsoluteDiscrete { atomic_step_size } => {
                // Discrete target
                //
                // Settings which are always necessary:
                // - Minimum target step count (enables accurate normal/minimum increment, atomic)
                // - Target value interval (absolute, important for rotation only, clamped)
                //
                // Settings which are necessary in order to support >1-increments:
                // - Maximum target step count (enables accurate maximum increment, clamped)
                let pepped_up_increment = match self.pep_up_discrete_increment(discrete_increment) {
                    Some(i) => i,
                    None => return None,
                };
                self.hit_discrete_target_absolutely(
                    pepped_up_increment,
                    atomic_step_size,
                    current_target_value,
                )
            },
            ControlType::Relative | ControlType::VirtualMulti => {
                // Target wants increments so we just forward them after some preprocessing
                //
                // Settings which are always necessary:
                // - Minimum target step count (enables accurate normal/minimum increment, clamped)
                //
                // Settings which are necessary in order to support >1-increments:
                // - Maximum target step count (enables accurate maximum increment, clamped)
                let pepped_up_increment = match self.pep_up_discrete_increment(discrete_increment) {
                    Some(i) => i,
                    None => return None,
                };
                Some(ControlValue::Relative(pepped_up_increment))
            },
            ControlType::VirtualButton => {
                // Controlling a button target with +/- n doesn't make sense.
                None
            },
        }
    }

    fn pep_up_control_value(
        &self,
        control_value: UnitValue,
        control_type: ControlType,
        current_target_value: Option<UnitValue>,
        min_is_max_behavior: MinIsMaxBehavior,
    ) -> (r: UnitValue)
        ensures
            exists|transformed: UnitValue|
                {
                    &&& #[trigger] may_yield(
                        self.control_transformation,
                        UnitValue::of(
                            to_unit_ticks(
                                control_value@,
                                self.source_value_interval.lower()@,
                                self.source_value_interval.upper()@,
                                min_is_max_behavior is PreferOne,
                            ),
                        ),
                        or_zero(current_target_value),
                        transformed,
                    )
                    &&& r == self.shaped(transformed, control_type)
                },
    {
        // 1. Apply source interval
        let v1 = control_value.map_to_unit_interval_from(
            &self.source_value_interval,
            min_is_max_behavior,
        );
        // 2. Apply transformation
        let current = match current_target_value {
            Some(v) => v,
            None => UnitValue::min_value(),
        };
        let v2 = apply(&self.control_transformation, v1, current);
        // 3. Apply reverse
        let v3 = if self.reverse {
            v2.inverse()
        } else {
            v2
        };
        // 4. Apply target interval
        let v4 = v3.map_from_unit_interval_to(&self.target_value_interval);
        // 5. Apply rounding
        let v5 = if self.round_target_value {
            round_to_nearest_discrete_value(control_type, v4)
        } else {
            v4
        };
        assert(may_yield(self.control_transformation, v1, or_zero(current_target_value), v2));
        v5
    }

    fn hitting_target_considering_max_jump(
        &self,
        control_value: UnitValue,
        current_target_value: Option<UnitValue>,
        control_type: ControlType,
    ) -> (r: Option<UnitValue>)
        ensures
            r == self.jump_filtered(control_value, current_target_value, control_type),
    {
        let current_target_value = match current_target_value {
            // No target value available ... just deliver! Virtual targets take this shortcut.
            None => return Some(control_value),
            Some(v) => v,
        };
        if self.jump_interval.is_full() {
            // No jump restrictions whatsoever
            return self.hit_if_changed(control_value, current_target_value, control_type);
        }
        let distance = control_value.calc_distance_from(current_target_value);
        if distance.get() > self.jump_interval.max().get() {
            // Distance is too large
            if !self.approach_target_value {
                // Scaling not desired. Do nothing.
                return None;
            }
            // Scaling desired
            let approach_distance = distance.map_from_unit_interval_to(&self.jump_interval);
            let approach_increment = match approach_distance.to_increment(
                negative_if(control_value.get() < current_target_value.get()),
            ) {
                Some(i) => i,
                None => return None,
            };
            let final_target_value = current_target_value.add_clamping(
                approach_increment,
                &self.target_value_interval,
            );
            if final_target_value == current_target_value {
                return None;
            }
            return Some(final_target_value);
        }
        // Distance is not too large
        if distance.get() < self.jump_interval.min().get() {
            return None;
        }
        // Distance is also not too small
        self.hit_if_changed(control_value, current_target_value, control_type)
    }

    fn hit_if_changed(
        &self,
        desired_target_value: UnitValue,
        current_target_value: UnitValue,
        control_type: ControlType,
    ) -> (r: Option<UnitValue>)
        ensures
            r == hit_if_changed_spec(desired_target_value, current_target_value, control_type),
    {
        if !control_type.is_trigger() && current_target_value == desired_target_value {
            return None;
        }
        Some(desired_target_value)
    }

    fn hit_discrete_target_absolutely(
        &self,
        discrete_increment: DiscreteIncrement,
        target_step_size: UnitValue,
        current_value: Option<UnitValue>,
    ) -> (r: Option<ControlValue>)
        ensures
            r == self.hit_discrete(discrete_increment@, target_step_size, current_value),
    {
        let unit_increment = match discrete_increment.to_unit_increment(target_step_size) {
            Some(i) => i,
            None => return None,
        };
        match current_value {
            Some(current) => self.hit_target_absolutely_with_unit_increment(
                unit_increment,
                target_step_size,
                current,
            ),
            None => None,
        }
    }

    fn hit_target_absolutely_with_unit_increment(
        &self,
        increment: UnitIncrement,
        grid_interval_size: UnitValue,
        current_target_value: UnitValue,
    ) -> (r: Option<ControlValue>)
        ensures
            r == self.hit_with_increment(increment@, grid_interval_size@, current_target_value),
    {
        let target_min = self.target_value_interval.min();
        let target_max = self.target_value_interval.max();
        proof {
            use_type_invariant(target_min);
            use_type_invariant(target_max);
            lemma_snap_monotonic(target_min@, target_max@, grid_interval_size@);
        }
        let snapped_target_value_interval = Interval::new(
            target_min.snap_to_grid_by_interval_size(grid_interval_size),
            target_max.snap_to_grid_by_interval_size(grid_interval_size),
        );
        // The add functions don't add anything if the current target value is not within the target
        // interval in the first place. Instead they return one of the interval bounds. One issue
        // that might occur is that the current target value only *appears* out-of-range
        // because of numerical inaccuracies. That could lead to frustrating "it doesn't move"
        // experiences. Therefore we snap the current target value to grid first in that case.
        let snapped_current_target_value = if current_target_value.is_within_interval(
            &snapped_target_value_interval,
        ) {
            current_target_value
        } else {
            current_target_value.snap_to_grid_by_interval_size(grid_interval_size)
        };
        let desired_target_value = if self.rotate {
            snapped_current_target_value.add_rotating(increment, &snapped_target_value_interval)
        } else {
            snapped_current_target_value.add_clamping(increment, &snapped_target_value_interval)
        };
        if desired_target_value == current_target_value {
            return None;
        }
        Some(ControlValue::Absolute(desired_target_value))
    }

    fn pep_up_discrete_increment(&mut self, increment: DiscreteIncrement) -> (r: Option<
        DiscreteIncrement,
    >)
        ensures
            r == old(self).pepped_up(increment@).0,
            final(self).increment_counter == old(self).pepped_up(increment@).1,
            *final(self) == (Mode { increment_counter: final(self).increment_counter, ..*old(self) }),
    {
        proof {
            use_type_invariant(increment);
        }
        let factor = increment.clamp_to_interval(&self.step_count_interval);
        let actual_increment = if factor.is_positive() {
            factor
        } else {
            let nth = (-factor.get()) as u32;
            let (fire, new_counter_value) = self.its_time_to_fire(nth, increment.signum());
            self.increment_counter = new_counter_value;
            if !fire {
                return None;
            }
            DiscreteIncrement::new(1)
        };
        let clamped_increment = actual_increment.with_direction(increment.signum());
        let result = if self.reverse {
            clamped_increment.inverse()
        } else {
            clamped_increment
        };
        Some(result)
    }

    /// `nth` stands for "fire every nth time". `direction_signum` is either +1 or -1.
    fn its_time_to_fire(&self, nth: u32, direction_signum: i32) -> (r: (bool, i32))
        requires
            nth <= MAX_STEPS,
            direction_signum == 1 || direction_signum == -1,
        ensures
            (r.0, r.1 as int) == time_to_fire(
                self.increment_counter as int,
                nth as int,
                direction_signum as int,
            ),
    {
        if self.increment_counter == 0 {
            // Initial fire
            return (true, direction_signum);
        }
        if (self.increment_counter > 0) != (direction_signum > 0) {
            // Change of direction. In this case always fire.
            return (true, direction_signum);
        }
        let counter = self.increment_counter as i64;
        let positive_increment_counter = if counter > 0 {
            counter
        } else {
            -counter
        };
        if positive_increment_counter >= nth as i64 {
            // After having waited for a few increments, fire again.
            return (true, direction_signum);
        }
        (false, self.increment_counter + direction_signum)
    }

    fn convert_to_discrete_increment(&mut self, control_value: UnitValue) -> (r: Option<
        DiscreteIncrement,
    >)
        ensures
            r == old(self).converted(control_value).0,
            final(self).increment_counter == old(self).converted(control_value).1,
            *final(self) == (Mode { increment_counter: final(self).increment_counter, ..*old(self) }),
    {
        let factor = control_value.map_to_unit_interval_from(
            &self.source_value_interval,
            MinIsMaxBehavior::PreferOne,
        ).map_from_unit_interval_to_discrete_increment(&self.step_count_interval);
        // This mode supports positive increment only.
        let discrete_value = if factor.is_positive() {
            factor.to_value()
        } else {
            let nth = (-factor.get()) as u32;
            let (fire, new_counter_value) = self.its_time_to_fire(nth, 1);
            self.increment_counter = new_counter_value;
            if !fire {
                return None;
            }
            DiscreteValue::new(1)
        };
        discrete_value.to_increment(negative_if(self.reverse))
    }
}

impl<T: Transformation> Default for Mode<T> {
    /// Creates a mode that hands absolute values on as they are and turns every increment into
    /// one step.
    fn default() -> (r: Mode<T>)
        ensures
            r.absolute_mode == AbsoluteMode::Normal,
            r.source_value_interval.lower()@ == 0 && r.source_value_interval.upper()@ == UNIT,
            r.target_value_interval.lower()@ == 0 && r.target_value_interval.upper()@ == UNIT,
            r.step_size_interval.lower()@ == DEFAULT_STEP_SIZE,
            r.step_size_interval.upper()@ == DEFAULT_STEP_SIZE,
            r.step_count_interval.lower()@ == 1 && r.step_count_interval.upper()@ == 1,
            r.jump_interval.lower()@ == 0 && r.jump_interval.upper()@ == UNIT,
            !r.press_duration_processor.is_gating(),
            r.press_duration_processor.pending() is None,
            !r.approach_target_value && !r.reverse && !r.rotate && !r.round_target_value,
            r.out_of_range_behavior == OutOfRangeBehavior::MinOrMax,
            r.control_transformation is None,
            r.feedback_transformation is None,
            r.increment_counter == 0,
    {
        proof {
            UnitValue::lemma_of_view(0);
            UnitValue::lemma_of_view(UNIT as int);
            UnitValue::lemma_of_view(DEFAULT_STEP_SIZE as int);
            DiscreteIncrement::lemma_of_view(1);
        }
        Mode {
            absolute_mode: AbsoluteMode::Normal,
            source_value_interval: full_unit_interval(),
            target_value_interval: full_unit_interval(),
            // One percent has been chosen as default minimum step size. It has also been chosen
            // as default maximum step size because most users probably want to start easy, that
            // is without using the "press harder = more increments" respectively "dial harder =
            // more increments" features. Activating them right from the start by choosing a
            // higher step size maximum could lead to surprising results such as ugly parameters
            // jumps, especially if the source is not suited for that.
            step_size_interval: create_unit_value_interval(DEFAULT_STEP_SIZE, DEFAULT_STEP_SIZE),
            // Same reasoning like with `step_size_interval`
            step_count_interval: create_discrete_increment_interval(1, 1),
            jump_interval: full_unit_interval(),
            press_duration_processor: PressDurationProcessor::default(),
            approach_target_value: false,
            reverse: false,
            round_target_value: false,
            out_of_range_behavior: OutOfRangeBehavior::MinOrMax,
            control_transformation: None,
            feedback_transformation: None,
            rotate: false,
            increment_counter: 0,
        }
    }
}

/// Rounds the given value to the nearest value that a target of the given character can take.
pub fn round_to_nearest_discrete_value(
    control_type: ControlType,
    approximate_control_value: UnitValue,
) -> (r: UnitValue)
    ensures
        r.is_of(
            match control_type.grid() {
                Some(grid) => snap_ticks(approximate_control_value@, grid@),
                None => approximate_control_value@,
            },
        ),
{
    // Rounding is the right choice here vs. flooring because we don't want a value just below
    // a step to jump down by a whole step
    match control_type.step_size() {
        Some(step_size) => approximate_control_value.snap_to_grid_by_interval_size(step_size),
        None => {
            proof {
                use_type_invariant(approximate_control_value);
                approximate_control_value.lemma_of_self();
            }
            approximate_control_value
        },
    }
}

} // verus!
