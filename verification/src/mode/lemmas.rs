use crate::base::arith::abs;
use crate::base::arith::clamp;
use crate::base::control_value::ControlValue;
use crate::base::discrete::lemma_select_count_within;
use crate::base::discrete::lemma_select_single_count;
use crate::base::discrete::select_count;
use crate::base::discrete::step_ticks;
use crate::base::discrete::DiscreteIncrement;
use crate::base::interval::Interval;
use crate::base::ticks::add_clamping_ticks;
use crate::base::ticks::add_rotating_ticks;
use crate::base::ticks::forth;
use crate::base::ticks::from_unit_ticks;
use crate::base::ticks::lemma_add_clamping_within;
use crate::base::ticks::lemma_add_rotating_within;
use crate::base::ticks::lemma_forth_and_back;
use crate::base::ticks::lemma_from_unit_within;
use crate::base::ticks::lemma_snap_monotonic;
use crate::base::ticks::lemma_to_count_within;
use crate::base::ticks::lemma_to_unit_within;
use crate::base::ticks::lemma_unit_to_unit;
use crate::base::ticks::snap_ticks;
use crate::base::ticks::to_count;
use crate::base::ticks::to_unit_ticks;
use crate::base::unit_value::UNIT;
use crate::base::unit_value::UnitValue;
use crate::mode::common::AbsoluteMode;
use crate::mode::feedback_util::is_feedback;
use crate::mode::feedback_util::normalized_feedback;
use crate::mode::feedback_util::shaped_feedback;
use crate::mode::mode_struct::as_absolute;
use crate::mode::mode_struct::or_zero;
use crate::mode::mode_struct::oriented;
use crate::mode::mode_struct::Mode;
use crate::mode::target::ControlType;
use crate::mode::throttle::time_to_fire;
use crate::mode::transformation::may_yield;
use crate::mode::transformation::Transformation;
use vstd::prelude::*;

verus! {

/// Tells whether what a source and a target hand to a mode is what its type stands for.
pub open spec fn is_valid_input(
    control_value: ControlValue,
    control_type: ControlType,
    current_target_value: Option<UnitValue>,
) -> bool {
    &&& match control_value {
        ControlValue::Absolute(v) => v.inv(),
        ControlValue::Relative(i) => i.inv(),
    }
    &&& control_type.grid() matches Some(grid) ==> grid.inv()
    &&& current_target_value matches Some(current) ==> current.inv()
}

/// The low end of what a target interval reaches down to on a grid of the given size.
pub open spec fn reach_low(target_value_interval: Interval<UnitValue>, grid: int) -> int {
    if snap_ticks(target_value_interval.lower()@, grid) < target_value_interval.lower()@ {
        snap_ticks(target_value_interval.lower()@, grid)
    } else {
        target_value_interval.lower()@
    }
}

/// The high end of what a target interval reaches up to on a grid of the given size.
pub open spec fn reach_high(target_value_interval: Interval<UnitValue>, grid: int) -> int {
    if snap_ticks(target_value_interval.upper()@, grid) > target_value_interval.upper()@ {
        snap_ticks(target_value_interval.upper()@, grid)
    } else {
        target_value_interval.upper()@
    }
}

impl<T: Transformation> Mode<T> {
    /// The size of the grid on which a target of the given character is moved step by step.
    pub open spec fn movement_grid(self, control_type: ControlType) -> int {
        match control_type {
            ControlType::AbsoluteDiscrete { atomic_step_size } => atomic_step_size@,
            _ => self.step_size_interval.lower()@,
        }
    }

    /// The size of the grid that target values are snapped to when the given control value is
    /// processed for a target of the given character. Zero stands for no grid.
    pub open spec fn grid_in_use(self, control_value: ControlValue, control_type: ControlType) -> int {
        match control_value {
            ControlValue::Relative(_) => self.movement_grid(control_type),
            ControlValue::Absolute(_) => match self.absolute_mode {
                AbsoluteMode::Normal => match control_type.grid() {
                    Some(grid) if self.round_target_value => grid@,
                    _ => 0,
                },
                AbsoluteMode::IncrementalButtons => self.movement_grid(control_type),
                AbsoluteMode::ToggleButtons => 0,
            },
        }
    }

    /// A target that is moved step by step stays within the target interval as snapped to the
    /// grid of the steps.
    pub proof fn lemma_hit_within_target(self, increment: int, grid: int, current: UnitValue)
        requires
            self.wf(),
        ensures
            self.hit_with_increment(increment, grid, current) matches Some(
                ControlValue::Absolute(v),
            ) ==> v.inv() && snap_ticks(self.target_value_interval.lower()@, grid) <= v@
                <= snap_ticks(self.target_value_interval.upper()@, grid),
            self.hit_with_increment(increment, grid, current) matches Some(delivered)
                ==> delivered is Absolute,
    {
        let min = self.target_value_interval.lower()@;
        let max = self.target_value_interval.upper()@;
        lemma_snap_monotonic(min, max, grid);
        let low = snap_ticks(min, grid);
        let high = snap_ticks(max, grid);
        let start = if low <= current@ <= high {
            current@
        } else {
            snap_ticks(current@, grid)
        };
        lemma_add_clamping_within(start, increment, low, high);
        lemma_add_rotating_within(start, increment, low, high);
        let desired = if self.rotate {
            add_rotating_ticks(start, increment, low, high)
        } else {
            add_clamping_ticks(start, increment, low, high)
        };
        UnitValue::lemma_of_view(desired);
    }

    /// In normal mode, the value that a target should take lies within the target interval, or
    /// within the target interval as snapped to the steps of the target if values are rounded.
    pub proof fn lemma_shaped_within_target(self, transformed: UnitValue, control_type: ControlType)
        requires
            self.wf(),
            transformed.inv(),
            control_type.grid() matches Some(grid) ==> grid.inv(),
            self.absolute_mode is Normal,
        ensures
            self.shaped(transformed, control_type).inv(),
            reach_low(
                self.target_value_interval,
                self.grid_in_use(ControlValue::Absolute(transformed), control_type),
            ) <= self.shaped(transformed, control_type)@ <= reach_high(
                self.target_value_interval,
                self.grid_in_use(ControlValue::Absolute(transformed), control_type),
            ),
    {
        let min = self.target_value_interval.lower()@;
        let max = self.target_value_interval.upper()@;
        let directed = if self.reverse {
            UNIT - transformed@
        } else {
            transformed@
        };
        lemma_from_unit_within(directed, min, max);
        let mapped = from_unit_ticks(directed, min, max);
        let grid = self.grid_in_use(ControlValue::Absolute(transformed), control_type);
        lemma_snap_monotonic(min, mapped, grid);
        lemma_snap_monotonic(mapped, max, grid);
        UnitValue::lemma_of_view(mapped);
        UnitValue::lemma_of_view(snap_ticks(mapped, grid));
    }

    /// Whatever is processed, an absolute value that goes to the target is a unit value within
    /// the target interval or within the target interval as snapped to the grid in use, and an
    /// increment that goes to the target is an increment.
    pub proof fn lemma_control_within_target(
        self,
        control_value: ControlValue,
        control_type: ControlType,
        current_target_value: Option<UnitValue>,
        now: u128,
        result: Option<ControlValue>,
        after: Mode<T>,
    )
        requires
            self.wf(),
            is_valid_input(control_value, control_type, current_target_value),
            self.controls(control_value, control_type, current_target_value, now, result, after),
        ensures
            result matches Some(ControlValue::Absolute(v)) ==> {
                &&& v.inv()
                &&& reach_low(
                    self.target_value_interval,
                    self.grid_in_use(control_value, control_type),
                ) <= v@ <= reach_high(
                    self.target_value_interval,
                    self.grid_in_use(control_value, control_type),
                )
            },
            result matches Some(ControlValue::Relative(i)) ==> i.inv(),
    {
        match control_value {
            ControlValue::Relative(increment) => {
                self.lemma_relative_within_target(increment@, control_type, current_target_value);
            },
            ControlValue::Absolute(value) => {
                match self.press_duration_processor.output(value, now) {
                    None => {},
                    Some(passed) => {
                        match self.absolute_mode {
                            AbsoluteMode::Normal => {
                                let delivered = choose|delivered: Option<UnitValue>|
                                    {
                                        &&& #[trigger] self.absolute_normal_yields(
                                            passed,
                                            control_type,
                                            current_target_value,
                                            delivered,
                                        )
                                        &&& result == as_absolute(delivered)
                                    };
                                self.lemma_normal_within_target(
                                    passed,
                                    control_type,
                                    current_target_value,
                                    delivered,
                                );
                            },
                            AbsoluteMode::IncrementalButtons => {
                                self.lemma_incremental_within_target(
                                    passed,
                                    control_type,
                                    current_target_value,
                                );
                            },
                            AbsoluteMode::ToggleButtons => {},
                        }
                    },
                }
            },
        }
    }

    /// What normal mode delivers is a unit value within the target interval or within the
    /// target interval as snapped to the steps of the target.
    pub proof fn lemma_normal_within_target(
        self,
        control_value: UnitValue,
        control_type: ControlType,
        current_target_value: Option<UnitValue>,
        delivered: Option<UnitValue>,
    )
        requires
            self.wf(),
            self.absolute_mode is Normal,
            control_type.grid() matches Some(grid) ==> grid.inv(),
            current_target_value matches Some(current) ==> current.inv(),
            self.absolute_normal_yields(
                control_value,
                control_type,
                current_target_value,
                delivered,
            ),
        ensures
            delivered matches Some(v) ==> {
                &&& v.inv()
                &&& reach_low(
                    self.target_value_interval,
                    self.grid_in_use(ControlValue::Absolute(control_value), control_type),
                ) <= v@ <= reach_high(
                    self.target_value_interval,
                    self.grid_in_use(ControlValue::Absolute(control_value), control_type),
                )
            },
    {
        if !self.drops(control_value) {
            let transformed = choose|transformed: UnitValue|
                {
                    &&& #[trigger] may_yield(
                        self.control_transformation,
                        self.normalized(control_value),
                        or_zero(current_target_value),
                        transformed,
                    )
                    &&& delivered == self.jump_filtered(
                        self.shaped(transformed, control_type),
                        current_target_value,
                        control_type,
                    )
                };
            self.lemma_shaped_within_target(transformed, control_type);
            let shaped = self.shaped(transformed, control_type);
            match current_target_value {
                None => {},
                Some(current) => {
                    let jump_min = self.jump_interval.lower()@;
                    let jump_max = self.jump_interval.upper()@;
                    let distance = abs(shaped@ - current@);
                    let approach_distance = from_unit_ticks(distance, jump_min, jump_max);
                    let increment = if shaped@ < current@ {
                        -approach_distance
                    } else {
                        approach_distance
                    };
                    let min = self.target_value_interval.lower()@;
                    let max = self.target_value_interval.upper()@;
                    lemma_add_clamping_within(current@, increment, min, max);
                    UnitValue::lemma_of_view(add_clamping_ticks(current@, increment, min, max));
                },
            }
        }
    }

    /// What an increment does to a target that takes absolute values stays within the target
    /// interval as snapped to the grid of the steps, and what it hands on to a target that takes
    /// increments is an increment.
    pub proof fn lemma_relative_within_target(
        self,
        steps: int,
        control_type: ControlType,
        current_target_value: Option<UnitValue>,
    )
        requires
            self.wf(),
            steps != 0,
        ensures
            self.relative_outcome(steps, control_type, current_target_value).0 matches Some(
                ControlValue::Absolute(v),
            ) ==> v.inv() && snap_ticks(
                self.target_value_interval.lower()@,
                self.movement_grid(control_type),
            ) <= v@ <= snap_ticks(
                self.target_value_interval.upper()@,
                self.movement_grid(control_type),
            ),
            self.relative_outcome(steps, control_type, current_target_value).0 matches Some(
                ControlValue::Relative(i),
            ) ==> i.inv(),
    {
        self.lemma_pepped_up_is_increment(steps);
        match control_type {
            ControlType::AbsoluteDiscrete { atomic_step_size } => {
                match (self.pepped_up(steps).0, current_target_value) {
                    (Some(increment), Some(current)) => {
                        self.lemma_hit_within_target(
                            if increment@ > 0 {
                                step_ticks(increment@, atomic_step_size@)
                            } else {
                                -step_ticks(increment@, atomic_step_size@)
                            },
                            atomic_step_size@,
                            current,
                        );
                    },
                    _ => {},
                }
            },
            ControlType::Relative | ControlType::VirtualMulti => {},
            ControlType::VirtualButton => {},
            _ => {
                let min = self.step_size_interval.lower()@;
                let max = self.step_size_interval.upper()@;
                match current_target_value {
                    Some(current) => {
                        self.lemma_hit_within_target(
                            oriented(
                                clamp(
                                    step_ticks(steps, min),
                                    min,
                                    max,
                                ),
                                steps > 0,
                                self.reverse,
                            ),
                            min,
                            current,
                        );
                    },
                    None => {},
                }
            },
        }
    }

    /// What a button press does in incremental mode to a target that takes absolute values
    /// stays within the target interval as snapped to the grid of the steps, and what it hands on
    /// to a target that takes increments is an increment.
    pub proof fn lemma_incremental_within_target(
        self,
        control_value: UnitValue,
        control_type: ControlType,
        current_target_value: Option<UnitValue>,
    )
        requires
            self.wf(),
            control_value.inv(),
        ensures
            self.incremental_outcome(control_value, control_type, current_target_value).0 matches Some(
                ControlValue::Absolute(v),
            ) ==> v.inv() && snap_ticks(
                self.target_value_interval.lower()@,
                self.movement_grid(control_type),
            ) <= v@ <= snap_ticks(
                self.target_value_interval.upper()@,
                self.movement_grid(control_type),
            ),
            self.incremental_outcome(control_value, control_type, current_target_value).0 matches Some(
                ControlValue::Relative(i),
            ) ==> i.inv(),
    {
        self.lemma_converted_is_increment(control_value);
        let source_min = self.source_value_interval.lower()@;
        let source_max = self.source_value_interval.upper()@;
        match control_type {
            ControlType::AbsoluteDiscrete { atomic_step_size } => {
                match (self.converted(control_value).0, current_target_value) {
                    (Some(increment), Some(current)) => {
                        self.lemma_hit_within_target(
                            if increment@ > 0 {
                                step_ticks(increment@, atomic_step_size@)
                            } else {
                                -step_ticks(increment@, atomic_step_size@)
                            },
                            atomic_step_size@,
                            current,
                        );
                    },
                    _ => {},
                }
            },
            ControlType::Relative | ControlType::VirtualMulti => {},
            ControlType::VirtualButton => {},
            _ => {
                match current_target_value {
                    Some(current) => {
                        self.lemma_hit_within_target(
                            oriented(
                                from_unit_ticks(
                                    to_unit_ticks(control_value@, source_min, source_max, true),
                                    self.step_size_interval.lower()@,
                                    self.step_size_interval.upper()@,
                                ),
                                true,
                                self.reverse,
                            ),
                            self.step_size_interval.lower()@,
                            current,
                        );
                    },
                    None => {},
                }
            },
        }
    }

    /// The steps that the step count interval makes of an increment are an increment whose
    /// magnitude is one or a step count of the interval.
    pub proof fn lemma_pepped_up_is_increment(self, steps: int)
        requires
            self.wf(),
            steps != 0,
        ensures
            self.pepped_up(steps).0 matches Some(i) ==> {
                &&& i.inv()
                &&& abs(i@) == 1 || 1 <= abs(i@) <= self.step_count_interval.upper()@
                &&& (i@ > 0) == ((steps > 0) != self.reverse)
            },
    {
        let min = self.step_count_interval.lower()@;
        let max = self.step_count_interval.upper()@;
        lemma_select_count_within(abs(steps), min, max);
        let factor = select_count(abs(steps), min, max);
        DiscreteIncrement::lemma_of_view(oriented(factor, steps > 0, self.reverse));
        DiscreteIncrement::lemma_of_view(oriented(1, steps > 0, self.reverse));
    }

    /// The steps that the step count interval makes of a button press are an increment whose
    /// magnitude is one or a step count of the interval.
    pub proof fn lemma_converted_is_increment(self, control_value: UnitValue)
        requires
            self.wf(),
            control_value.inv(),
        ensures
            self.converted(control_value).0 matches Some(i) ==> {
                &&& i.inv()
                &&& abs(i@) == 1 || 1 <= abs(i@) <= self.step_count_interval.upper()@
                &&& (i@ > 0) == !self.reverse
            },
    {
        let min = self.step_count_interval.lower()@;
        let max = self.step_count_interval.upper()@;
        let place = to_unit_ticks(
            control_value@,
            self.source_value_interval.lower()@,
            self.source_value_interval.upper()@,
            true,
        );
        lemma_to_unit_within(
            control_value@,
            self.source_value_interval.lower()@,
            self.source_value_interval.upper()@,
            true,
        );
        lemma_to_count_within(place, min, max);
        let factor = to_count(place, min, max);
        DiscreteIncrement::lemma_of_view(oriented(factor, true, self.reverse));
        DiscreteIncrement::lemma_of_view(oriented(1, true, self.reverse));
    }

    /// With a step count interval that holds the one step count `-nth`, every `nth` increment
    /// in a row is let through as one step and all others are dropped, as the throttle says.
    pub proof fn lemma_constant_throttle(self, steps: int, nth: int)
        requires
            steps != 0,
            nth >= 1,
            self.step_count_interval.lower()@ == -nth,
            self.step_count_interval.upper()@ == -nth,
        ensures
            self.pepped_up(steps).0 is Some == time_to_fire(
                self.increment_counter as int,
                nth,
                if steps > 0 {
                    1
                } else {
                    -1
                },
            ).0,
            self.pepped_up(steps).1 == time_to_fire(
                self.increment_counter as int,
                nth,
                if steps > 0 {
                    1
                } else {
                    -1
                },
            ).1,
            self.pepped_up(steps).0 matches Some(i) ==> i == DiscreteIncrement::of(
                oriented(1, steps > 0, self.reverse),
            ),
    {
        lemma_select_single_count(abs(steps), -nth);
    }

    /// With a step count interval that holds the one step count `-nth`, a target that takes
    /// increments gets one step for every increment that the throttle lets through and nothing
    /// for the others, and the throttle counter is the only thing that changes in the mode.
    pub proof fn lemma_throttled_control(
        self,
        increment: DiscreteIncrement,
        nth: int,
        control_type: ControlType,
        current_target_value: Option<UnitValue>,
        now: u128,
        result: Option<ControlValue>,
        after: Mode<T>,
    )
        requires
            self.wf(),
            increment.inv(),
            nth >= 1,
            self.step_count_interval.lower()@ == -nth,
            self.step_count_interval.upper()@ == -nth,
            control_type is Relative || control_type is VirtualMulti,
            self.controls(
                ControlValue::Relative(increment),
                control_type,
                current_target_value,
                now,
                result,
                after,
            ),
        ensures
            result == (if time_to_fire(
                self.increment_counter as int,
                nth,
                if increment@ > 0 {
                    1
                } else {
                    -1
                },
            ).0 {
                Some(
                    ControlValue::Relative(
                        DiscreteIncrement::of(oriented(1, increment@ > 0, self.reverse)),
                    ),
                )
            } else {
                None
            }),
            after.increment_counter == time_to_fire(
                self.increment_counter as int,
                nth,
                if increment@ > 0 {
                    1
                } else {
                    -1
                },
            ).1,
            self.same_settings(after),
            after.press_duration_processor == self.press_duration_processor,
    {
        self.lemma_constant_throttle(increment@, nth);
    }

    /// The time at which a control value arrives makes no difference for an increment, nor for
    /// any control value if every press duration is accepted.
    pub proof fn lemma_time_matters_for_press_durations_only(
        self,
        control_value: ControlValue,
        control_type: ControlType,
        current_target_value: Option<UnitValue>,
        now: u128,
        later: u128,
        result: Option<ControlValue>,
        after: Mode<T>,
    )
        requires
            control_value is Relative || !self.press_duration_processor.is_gating(),
            self.controls(control_value, control_type, current_target_value, now, result, after),
        ensures
            self.controls(control_value, control_type, current_target_value, later, result, after),
    {
        match control_value {
            ControlValue::Relative(_) => {},
            ControlValue::Absolute(value) => {
                self.press_duration_processor.lemma_after(value, now);
                self.press_duration_processor.lemma_after(value, later);
                if self.absolute_mode is Normal {
                    let delivered = choose|delivered: Option<UnitValue>|
                        {
                            &&& #[trigger] self.absolute_normal_yields(
                                value,
                                control_type,
                                current_target_value,
                                delivered,
                            )
                            &&& result == as_absolute(delivered)
                        };
                    assert(self.absolute_normal_yields(
                        value,
                        control_type,
                        current_target_value,
                        delivered,
                    ));
                }
            },
        }
    }

    /// A mode that maps the whole unit interval to the whole unit interval, neither reverses nor
    /// rounds nor transforms, lets every jump and every press duration pass and is in normal
    /// mode hands every absolute value on as it is, except that a target which is no trigger
    /// does not get the value that it has already. Nothing changes in the mode.
    pub proof fn lemma_plain_mode_is_identity(
        self,
        control_value: UnitValue,
        control_type: ControlType,
        current_target_value: Option<UnitValue>,
        now: u128,
        result: Option<ControlValue>,
        after: Mode<T>,
    )
        requires
            control_value.inv(),
            self.absolute_mode is Normal,
            self.source_value_interval.lower()@ == 0 && self.source_value_interval.upper()@ == UNIT,
            self.target_value_interval.lower()@ == 0 && self.target_value_interval.upper()@ == UNIT,
            self.jump_interval.lower()@ == 0 && self.jump_interval.upper()@ == UNIT,
            !self.press_duration_processor.is_gating(),
            !self.reverse,
            !self.round_target_value,
            self.control_transformation is None,
            self.controls(
                ControlValue::Absolute(control_value),
                control_type,
                current_target_value,
                now,
                result,
                after,
            ),
        ensures
            after == self,
            result == (match current_target_value {
                Some(current) if !(control_type is AbsoluteTrigger) && current@ == control_value@ => None,
                _ => Some(ControlValue::Absolute(control_value)),
            }),
    {
        self.press_duration_processor.lemma_after(control_value, now);
        lemma_unit_to_unit(control_value@, true);
        control_value.lemma_of_self();
        let delivered = choose|delivered: Option<UnitValue>|
            {
                &&& #[trigger] self.absolute_normal_yields(
                    control_value,
                    control_type,
                    current_target_value,
                    delivered,
                )
                &&& result == as_absolute(delivered)
            };
        let transformed = choose|transformed: UnitValue|
            {
                &&& #[trigger] may_yield(
                    self.control_transformation,
                    self.normalized(control_value),
                    or_zero(current_target_value),
                    transformed,
                )
                &&& delivered == self.jump_filtered(
                    self.shaped(transformed, control_type),
                    current_target_value,
                    control_type,
                )
            };
        assert(transformed == control_value);
        assert(self.shaped(transformed, control_type) == control_value);
    }

    /// What a source should show lies within the source interval.
    pub proof fn lemma_feedback_within_source(self, target_value: UnitValue, result: Option<UnitValue>)
        requires
            self.wf(),
            target_value.inv(),
            is_feedback(
                target_value,
                self.reverse,
                self.feedback_transformation,
                self.source_value_interval,
                self.target_value_interval,
                self.out_of_range_behavior,
                result,
            ),
        ensures
            result matches Some(v) ==> {
                &&& v.inv()
                &&& self.source_value_interval.lower()@ <= v@ <= self.source_value_interval.upper()@
            },
            result is None <==> self.out_of_range_behavior is Ignore && !(
            self.target_value_interval.lower()@ <= target_value@
                <= self.target_value_interval.upper()@),
    {
        let source_min = self.source_value_interval.lower()@;
        let source_max = self.source_value_interval.upper()@;
        if self.target_value_interval.lower()@ <= target_value@
            <= self.target_value_interval.upper()@ {
            let normalized = normalized_feedback(target_value, self.target_value_interval);
            let transformed = choose|transformed: UnitValue|
                {
                    &&& #[trigger] may_yield(
                        self.feedback_transformation,
                        normalized,
                        normalized,
                        transformed,
                    )
                    &&& result == Some(
                        shaped_feedback(transformed, self.reverse, self.source_value_interval),
                    )
                };
            let directed = if self.reverse {
                UNIT - transformed@
            } else {
                transformed@
            };
            lemma_from_unit_within(directed, source_min, source_max);
            UnitValue::lemma_of_view(from_unit_ticks(directed, source_min, source_max));
        }
    }

    /// Feedback undoes control: if the target interval is as wide as the source interval or is
    /// the whole unit interval and nothing is transformed or rounded, the feedback for the target
    /// value that normal mode makes of a value of the source interval is that value.
    pub proof fn lemma_feedback_inverts_control(
        self,
        control_value: UnitValue,
        control_type: ControlType,
        result: Option<UnitValue>,
    )
        requires
            self.wf(),
            control_value.inv(),
            self.source_value_interval.lower()@ < self.source_value_interval.upper()@,
            self.source_value_interval.lower()@ <= control_value@
                <= self.source_value_interval.upper()@,
            self.target_value_interval.upper()@ - self.target_value_interval.lower()@
                == self.source_value_interval.upper()@ - self.source_value_interval.lower()@
                || self.target_value_interval.upper()@ - self.target_value_interval.lower()@
                == UNIT,
            !self.round_target_value,
            self.feedback_transformation is None,
            is_feedback(
                self.shaped(self.normalized(control_value), control_type),
                self.reverse,
                self.feedback_transformation,
                self.source_value_interval,
                self.target_value_interval,
                self.out_of_range_behavior,
                result,
            ),
        ensures
            result == Some(control_value),
    {
        let source_min = self.source_value_interval.lower()@;
        let source_max = self.source_value_interval.upper()@;
        let target_min = self.target_value_interval.lower()@;
        let target_max = self.target_value_interval.upper()@;
        let place = to_unit_ticks(control_value@, source_min, source_max, true);
        lemma_to_unit_within(control_value@, source_min, source_max, true);
        UnitValue::lemma_of_view(place);
        let directed = if self.reverse {
            UNIT - place
        } else {
            place
        };
        lemma_from_unit_within(directed, target_min, target_max);
        let there = forth(
            control_value@,
            source_min,
            source_max,
            target_min,
            target_max,
            self.reverse,
        );
        UnitValue::lemma_of_view(there);
        let target_value = self.shaped(self.normalized(control_value), control_type);
        let normalized = normalized_feedback(target_value, self.target_value_interval);
        lemma_to_unit_within(there, target_min, target_max, true);
        UnitValue::lemma_of_view(to_unit_ticks(there, target_min, target_max, true));
        let transformed = choose|transformed: UnitValue|
            {
                &&& #[trigger] may_yield(
                    self.feedback_transformation,
                    normalized,
                    normalized,
                    transformed,
                )
                &&& result == Some(
                    shaped_feedback(transformed, self.reverse, self.source_value_interval),
                )
            };
        assert(transformed == normalized);
        lemma_forth_and_back(
            control_value@,
            source_min,
            source_max,
            target_min,
            target_max,
            self.reverse,
        );
        control_value.lemma_of_self();
    }
}

} // verus!
