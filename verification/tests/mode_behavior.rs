use control_mapping::create_discrete_increment_interval;
use control_mapping::create_unit_value_interval;
use control_mapping::feedback;
use control_mapping::full_unit_interval;
use control_mapping::round_to_nearest_discrete_value;
use control_mapping::AbsoluteMode;
use control_mapping::ControlType;
use control_mapping::ControlValue;
use control_mapping::Interval;
use control_mapping::Mode;
use control_mapping::OutOfRangeBehavior;
use control_mapping::PressDurationProcessor;
use control_mapping::Target;
use control_mapping::Transformation;
use control_mapping::UnitValue;
use control_mapping::DEFAULT_STEP_SIZE;
use control_mapping::FOREVER;
use control_mapping::UNIT;

struct TestTarget {
    current_value: Option<UnitValue>,
    control_type: ControlType,
}

impl Target for TestTarget {
    fn current_value(&self) -> Option<UnitValue> {
        self.current_value
    }

    fn control_type(&self) -> ControlType {
        self.control_type
    }
}

#[derive(Clone)]
struct Squeeze;

impl Transformation for Squeeze {
    /// Halves the input and fails for an input of one.
    fn transform(
        &self,
        input_value: UnitValue,
        _output_value: UnitValue,
    ) -> Result<UnitValue, &'static str> {
        if input_value.get() == UNIT {
            Err("too much")
        } else {
            Ok(UnitValue::new(input_value.get() / 2))
        }
    }
}

struct FollowOutput;

impl Transformation for FollowOutput {
    /// Returns the value that the receiving side has.
    fn transform(
        &self,
        _input_value: UnitValue,
        output_value: UnitValue,
    ) -> Result<UnitValue, &'static str> {
        Ok(output_value)
    }
}

fn ticks(number: f64) -> u64 {
    (number * UNIT as f64).round() as u64
}

fn uv(number: f64) -> UnitValue {
    UnitValue::new(ticks(number))
}

fn abs(number: f64) -> ControlValue {
    ControlValue::absolute(ticks(number))
}

fn rel(increment: i32) -> ControlValue {
    ControlValue::relative(increment)
}

fn unit_interval(min: f64, max: f64) -> Interval<UnitValue> {
    create_unit_value_interval(ticks(min), ticks(max))
}

fn continuous(current_value: f64) -> TestTarget {
    TestTarget {
        current_value: Some(uv(current_value)),
        control_type: ControlType::AbsoluteContinuous,
    }
}

fn virtual_multi() -> TestTarget {
    TestTarget {
        current_value: None,
        control_type: ControlType::VirtualMulti,
    }
}

#[test]
fn absolute_mode_numbers() {
    assert_eq!(AbsoluteMode::Normal.to_index(), 0);
    assert_eq!(AbsoluteMode::IncrementalButtons.to_index(), 1);
    assert_eq!(AbsoluteMode::ToggleButtons.to_index(), 2);
    assert_eq!(AbsoluteMode::from_index(0), Some(AbsoluteMode::Normal));
    assert_eq!(AbsoluteMode::from_index(1), Some(AbsoluteMode::IncrementalButtons));
    assert_eq!(AbsoluteMode::from_index(2), Some(AbsoluteMode::ToggleButtons));
    assert_eq!(AbsoluteMode::from_index(3), None);
    assert_eq!(AbsoluteMode::from_index(usize::MAX), None);
}

#[test]
fn absolute_mode_labels() {
    assert_eq!(AbsoluteMode::Normal.label(), "Normal");
    assert_eq!(AbsoluteMode::IncrementalButtons.label(), "Incremental buttons");
    assert_eq!(AbsoluteMode::ToggleButtons.label(), "Toggle buttons");
}

#[test]
fn defaults_of_the_settings() {
    assert_eq!(AbsoluteMode::default(), AbsoluteMode::Normal);
    assert_eq!(OutOfRangeBehavior::default(), OutOfRangeBehavior::MinOrMax);
    let mode: Mode<Squeeze> = Mode::default();
    assert_eq!(mode.absolute_mode, AbsoluteMode::Normal);
    assert_eq!(mode.source_value_interval, full_unit_interval());
    assert_eq!(mode.target_value_interval, full_unit_interval());
    assert_eq!(mode.step_size_interval, unit_interval(0.01, 0.01));
    assert_eq!(mode.step_size_interval.min().get(), DEFAULT_STEP_SIZE);
    assert_eq!(mode.step_count_interval, create_discrete_increment_interval(1, 1));
    assert_eq!(mode.jump_interval, full_unit_interval());
    assert!(!mode.press_duration_processor.is_active());
    assert_eq!(mode.press_duration_processor.pending_press(), None);
    assert!(!mode.approach_target_value);
    assert!(!mode.reverse);
    assert!(!mode.rotate);
    assert!(!mode.round_target_value);
    assert_eq!(mode.out_of_range_behavior, OutOfRangeBehavior::MinOrMax);
    assert!(mode.control_transformation.is_none());
    assert!(mode.feedback_transformation.is_none());
    assert_eq!(mode.increment_counter, 0);
}

#[test]
fn control_type_step_sizes() {
    assert!(ControlType::AbsoluteTrigger.is_trigger());
    assert!(!ControlType::AbsoluteSwitch.is_trigger());
    assert!(!ControlType::AbsoluteContinuous.is_trigger());
    assert_eq!(ControlType::AbsoluteContinuous.step_size(), None);
    assert_eq!(ControlType::Relative.step_size(), None);
    assert_eq!(
        ControlType::AbsoluteDiscrete { atomic_step_size: uv(0.05) }.step_size(),
        Some(uv(0.05))
    );
    assert_eq!(
        ControlType::AbsoluteContinuousRoundable { rounding_step_size: uv(0.1) }.step_size(),
        Some(uv(0.1))
    );
}

#[test]
fn rounding_to_the_steps_of_a_target() {
    let discrete = ControlType::AbsoluteDiscrete { atomic_step_size: uv(0.2) };
    let roundable = ControlType::AbsoluteContinuousRoundable { rounding_step_size: uv(0.25) };
    assert_eq!(round_to_nearest_discrete_value(discrete, uv(0.29)), uv(0.2));
    assert_eq!(round_to_nearest_discrete_value(discrete, uv(0.3)), uv(0.4));
    assert_eq!(round_to_nearest_discrete_value(roundable, uv(0.3)), uv(0.25));
    assert_eq!(round_to_nearest_discrete_value(ControlType::AbsoluteContinuous, uv(0.3)), uv(0.3));
    assert_eq!(round_to_nearest_discrete_value(ControlType::AbsoluteSwitch, uv(0.3)), uv(0.3));
    assert_eq!(round_to_nearest_discrete_value(ControlType::VirtualButton, uv(0.3)), uv(0.3));
}

#[test]
fn press_duration_processor_lets_everything_pass_by_default() {
    let mut processor = PressDurationProcessor::default();
    assert!(!processor.is_active());
    assert_eq!(processor.interval(), Interval::new(0, FOREVER));
    assert_eq!(processor.process_at(uv(0.7), 10), Some(uv(0.7)));
    assert_eq!(processor.process_at(uv(0.0), 20), Some(uv(0.0)));
    assert_eq!(processor.process(uv(0.3)), Some(uv(0.3)));
    assert_eq!(processor.process(uv(0.0)), Some(uv(0.0)));
    assert_eq!(processor.pending_press(), None);
}

#[test]
fn press_duration_processor_checks_duration() {
    let mut processor = PressDurationProcessor::new(Interval::new(100, 500));
    assert!(processor.is_active());
    // Too short
    assert_eq!(processor.process_at(uv(0.7), 1000), None);
    assert_eq!(processor.pending_press(), Some((1000, uv(0.7))));
    assert_eq!(processor.process_at(uv(0.0), 1099), None);
    assert_eq!(processor.pending_press(), None);
    // Just long enough
    assert_eq!(processor.process_at(uv(0.7), 2000), None);
    assert_eq!(processor.process_at(uv(0.0), 2100), Some(uv(0.7)));
    // As long as allowed
    assert_eq!(processor.process_at(uv(0.6), 3000), None);
    assert_eq!(processor.process_at(uv(0.0), 3500), Some(uv(0.6)));
    // Too long
    assert_eq!(processor.process_at(uv(0.6), 4000), None);
    assert_eq!(processor.process_at(uv(0.0), 4501), None);
}

#[test]
fn press_duration_processor_forgets_press_after_release() {
    let mut processor = PressDurationProcessor::new(Interval::new(100, 500));
    // A release without a press
    assert_eq!(processor.process_at(uv(0.0), 50), None);
    assert_eq!(processor.process_at(uv(0.7), 1000), None);
    assert_eq!(processor.process_at(uv(0.0), 1200), Some(uv(0.7)));
    // Released already
    assert_eq!(processor.process_at(uv(0.0), 1300), None);
    // The later press counts
    assert_eq!(processor.process_at(uv(0.4), 2000), None);
    assert_eq!(processor.process_at(uv(0.9), 2300), None);
    assert_eq!(processor.process_at(uv(0.0), 2350), None);
}

#[test]
fn press_duration_processor_ignores_clock_that_runs_backwards() {
    let mut processor = PressDurationProcessor::new(Interval::new(0, 500));
    assert_eq!(processor.process_at(uv(0.7), 1000), None);
    assert_eq!(processor.process_at(uv(0.0), 900), None);
}

#[test]
fn press_duration_processor_reads_its_own_clock() {
    // A release right after the press comes within a minute
    let mut patient = PressDurationProcessor::new(Interval::new(0, 60_000));
    assert_eq!(patient.process(uv(0.7)), None);
    assert_eq!(patient.process(uv(0.0)), Some(uv(0.7)));
    // but not after a minute
    let mut demanding = PressDurationProcessor::new(Interval::new(60_000, 120_000));
    assert_eq!(demanding.process(uv(0.7)), None);
    assert_eq!(demanding.process(uv(0.0)), None);
    assert!(patient.now() < 60_000);
}

#[test]
fn mode_delivers_press_at_release() {
    let mut mode: Mode<Squeeze> = Mode {
        press_duration_processor: PressDurationProcessor::new(Interval::new(100, 500)),
        ..Default::default()
    };
    let control_type = ControlType::AbsoluteContinuous;
    let current = Some(uv(0.2));
    assert_eq!(mode.control_at(abs(0.6), control_type, current, 1000), None);
    assert_eq!(mode.control_at(abs(0.0), control_type, current, 1300), Some(abs(0.6)));
    assert_eq!(mode.control_at(abs(0.6), control_type, current, 2000), None);
    assert_eq!(mode.control_at(abs(0.0), control_type, current, 2010), None);
    // Increments are not held back
    assert_eq!(mode.control_at(rel(1), control_type, current, 3000), Some(abs(0.21)));
}

#[test]
fn mode_delivers_press_at_release_in_every_absolute_mode() {
    let control_type = ControlType::AbsoluteContinuous;
    let current = Some(uv(0.2));
    let mut toggling: Mode<Squeeze> = Mode {
        absolute_mode: AbsoluteMode::ToggleButtons,
        press_duration_processor: PressDurationProcessor::new(Interval::new(100, 500)),
        ..Default::default()
    };
    assert_eq!(toggling.control_at(abs(0.6), control_type, current, 1000), None);
    assert_eq!(toggling.control_at(abs(0.0), control_type, current, 1300), Some(abs(1.0)));
    let mut stepping: Mode<Squeeze> = Mode {
        absolute_mode: AbsoluteMode::IncrementalButtons,
        press_duration_processor: PressDurationProcessor::new(Interval::new(100, 500)),
        ..Default::default()
    };
    assert_eq!(stepping.control_at(abs(0.6), control_type, current, 1000), None);
    assert_eq!(stepping.control_at(abs(0.0), control_type, current, 1300), Some(abs(0.21)));
    assert_eq!(stepping.control_at(abs(0.0), control_type, current, 1400), None);
}

#[test]
fn control_is_control_at_without_press_durations() {
    let mut first: Mode<Squeeze> = Mode {
        source_value_interval: unit_interval(0.2, 0.6),
        target_value_interval: unit_interval(0.4, 0.8),
        ..Default::default()
    };
    let mut second = first.clone();
    let target = continuous(0.1);
    for input in [0.0, 0.1, 0.2, 0.3, 0.45, 0.6, 0.9, 1.0] {
        assert_eq!(
            first.control(abs(input), &target),
            second.control_at(abs(input), target.control_type, target.current_value, 77)
        );
    }
}

#[test]
fn plain_mode_hands_values_on() {
    let mut mode: Mode<Squeeze> = Mode::default();
    let target = continuous(0.5);
    let trigger = TestTarget {
        current_value: Some(uv(0.5)),
        control_type: ControlType::AbsoluteTrigger,
    };
    let mut value = 0;
    while value <= UNIT {
        let input = ControlValue::absolute(value);
        if value == ticks(0.5) {
            assert_eq!(mode.control(input, &target), None);
        } else {
            assert_eq!(mode.control(input, &target), Some(input));
        }
        assert_eq!(mode.control(input, &trigger), Some(input));
        assert_eq!(mode.control(input, &virtual_multi()), Some(input));
        value += 31_250_000_000;
    }
    assert_eq!(mode.increment_counter, 0);
}

#[test]
fn absolute_values_stay_within_target_interval() {
    let inputs = [0.0, 0.1, 0.3, 0.5, 0.77, 1.0];
    let currents = [0.0, 0.25, 0.5, 0.9, 1.0];
    for reverse in [false, true] {
        for approach in [false, true] {
            let mut mode: Mode<Squeeze> = Mode {
                source_value_interval: unit_interval(0.1, 0.8),
                target_value_interval: unit_interval(0.3, 0.7),
                jump_interval: unit_interval(0.05, 0.2),
                approach_target_value: approach,
                reverse,
                ..Default::default()
            };
            for input in inputs {
                for current in currents {
                    if let Some(ControlValue::Absolute(v)) =
                        mode.control(abs(input), &continuous(current))
                    {
                        assert!(mode.target_value_interval.contains(v));
                    }
                }
            }
        }
    }
}

#[test]
fn moved_values_stay_within_target_interval() {
    let currents = [0.0, 0.25, 0.3, 0.5, 0.7, 0.9, 1.0];
    for rotate in [false, true] {
        for absolute_mode in [AbsoluteMode::Normal, AbsoluteMode::IncrementalButtons] {
            let mut mode: Mode<Squeeze> = Mode {
                absolute_mode,
                target_value_interval: unit_interval(0.3, 0.7),
                step_size_interval: unit_interval(0.1, 0.5),
                rotate,
                ..Default::default()
            };
            for current in currents {
                for input in [rel(-7), rel(-1), rel(1), rel(3), abs(0.2), abs(1.0)] {
                    if let Some(ControlValue::Absolute(v)) =
                        mode.control(input, &continuous(current))
                    {
                        assert!(mode.target_value_interval.contains(v));
                    }
                }
            }
        }
    }
}

#[test]
fn rounded_values_lie_on_the_grid() {
    let mut mode: Mode<Squeeze> = Mode {
        target_value_interval: unit_interval(0.27, 0.93),
        round_target_value: true,
        ..Default::default()
    };
    let target = TestTarget {
        current_value: Some(uv(0.0)),
        control_type: ControlType::AbsoluteDiscrete { atomic_step_size: uv(0.1) },
    };
    // 0.27 is rounded to 0.3
    assert_eq!(mode.control(abs(0.0), &target), Some(abs(0.3)));
    // 0.27 + 0.5 * 0.66 = 0.6
    assert_eq!(mode.control(abs(0.5), &target), Some(abs(0.6)));
    // 0.93 is rounded to 0.9
    assert_eq!(mode.control(abs(1.0), &target), Some(abs(0.9)));
}

#[test]
fn throttle_lets_every_nth_increment_pass() {
    for nth in 1..=6 {
        let mut mode: Mode<Squeeze> = Mode {
            step_count_interval: create_discrete_increment_interval(-nth, -nth),
            ..Default::default()
        };
        let target = virtual_multi();
        let outputs: Vec<Option<ControlValue>> =
            (0..30).map(|_| mode.control(rel(2), &target)).collect();
        for start in 0..=(30 - nth as usize) {
            let window = &outputs[start..start + nth as usize];
            assert_eq!(window.iter().filter(|output| output.is_some()).count(), 1);
        }
        assert!(outputs.iter().all(|output| output.is_none() || *output == Some(rel(1))));
    }
}

#[test]
fn throttle_lets_change_of_direction_pass() {
    let mut mode: Mode<Squeeze> = Mode {
        step_count_interval: create_discrete_increment_interval(-5, -5),
        ..Default::default()
    };
    let target = virtual_multi();
    assert_eq!(mode.control(rel(1), &target), Some(rel(1)));
    assert_eq!(mode.increment_counter, 1);
    assert_eq!(mode.control(rel(1), &target), None);
    assert_eq!(mode.increment_counter, 2);
    assert_eq!(mode.control(rel(-1), &target), Some(rel(-1)));
    assert_eq!(mode.increment_counter, -1);
    assert_eq!(mode.control(rel(-1), &target), None);
    assert_eq!(mode.control(rel(-1), &target), None);
    assert_eq!(mode.increment_counter, -3);
    assert_eq!(mode.control(rel(3), &target), Some(rel(1)));
    assert_eq!(mode.increment_counter, 1);
}

#[test]
fn throttle_copes_with_any_counter() {
    for counter in [i32::MIN, -MAX_COUNTER, -1, 0, 1, MAX_COUNTER, i32::MAX] {
        let mut mode: Mode<Squeeze> = Mode {
            step_count_interval: create_discrete_increment_interval(-3, -3),
            increment_counter: counter,
            ..Default::default()
        };
        let target = virtual_multi();
        let fired = (0..3).filter(|_| mode.control(rel(1), &target).is_some()).count();
        assert_eq!(fired, 1);
    }
}

const MAX_COUNTER: i32 = 2;

#[test]
fn throttle_works_for_button_presses() {
    let mut mode: Mode<Squeeze> = Mode {
        absolute_mode: AbsoluteMode::IncrementalButtons,
        step_count_interval: create_discrete_increment_interval(-2, -2),
        reverse: true,
        ..Default::default()
    };
    let target = virtual_multi();
    assert_eq!(mode.control(abs(1.0), &target), Some(rel(-1)));
    assert_eq!(mode.control(abs(1.0), &target), None);
    assert_eq!(mode.control(abs(0.0), &target), None);
    assert_eq!(mode.control(abs(0.5), &target), Some(rel(-1)));
    assert_eq!(mode.control(abs(0.5), &target), None);
}

#[test]
fn feedback_undoes_control() {
    for target_value_interval in [full_unit_interval(), unit_interval(0.45, 0.95)] {
        for reverse in [false, true] {
            let mut mode: Mode<Squeeze> = Mode {
                source_value_interval: unit_interval(0.2, 0.7),
                target_value_interval,
                reverse,
                ..Default::default()
            };
            let mut value = ticks(0.2);
            while value <= ticks(0.7) {
                let input = UnitValue::new(value);
                let output = mode.control(ControlValue::Absolute(input), &virtual_multi());
                let target_value = output.unwrap().as_absolute().unwrap();
                assert_eq!(mode.feedback(target_value), Some(input));
                value += 7_812_500_001;
            }
        }
    }
}

#[test]
fn feedback_cannot_undo_control_into_a_narrower_interval() {
    let mut mode: Mode<Squeeze> = Mode {
        target_value_interval: unit_interval(0.0, 0.5),
        ..Default::default()
    };
    // One tick becomes half a tick, which is rounded to one tick, which comes back as two
    let output = mode.control(ControlValue::absolute(1), &virtual_multi());
    assert_eq!(output, Some(ControlValue::absolute(1)));
    assert_eq!(mode.feedback(UnitValue::new(1)), Some(UnitValue::new(2)));
}

#[test]
fn feedback_stays_within_source_interval() {
    for out_of_range_behavior in [OutOfRangeBehavior::MinOrMax, OutOfRangeBehavior::Min] {
        for reverse in [false, true] {
            let mode: Mode<Squeeze> = Mode {
                source_value_interval: unit_interval(0.2, 0.7),
                target_value_interval: unit_interval(0.4, 0.5),
                feedback_transformation: Some(Squeeze),
                out_of_range_behavior,
                reverse,
                ..Default::default()
            };
            for target_value in [0.0, 0.3, 0.4, 0.43, 0.5, 0.6, 1.0] {
                let shown = mode.feedback(uv(target_value)).unwrap();
                assert!(mode.source_value_interval.contains(shown));
            }
        }
    }
}

#[test]
fn feedback_is_transformed_before_it_is_reversed() {
    let mode: Mode<Squeeze> = Mode {
        feedback_transformation: Some(Squeeze),
        reverse: true,
        ..Default::default()
    };
    // Half of 0.4 is 0.2, reversed 0.8
    assert_eq!(mode.feedback(uv(0.4)), Some(uv(0.8)));
    // The transformation fails for one, reversed 0.0
    assert_eq!(mode.feedback(uv(1.0)), Some(uv(0.0)));
}

#[test]
fn feedback_outside_of_target_interval() {
    let source = unit_interval(0.2, 0.7);
    let target = unit_interval(0.4, 0.5);
    let none: Option<Squeeze> = None;
    let ignore = OutOfRangeBehavior::Ignore;
    let min = OutOfRangeBehavior::Min;
    let min_or_max = OutOfRangeBehavior::MinOrMax;
    assert_eq!(feedback(uv(0.3), false, &none, &source, &target, ignore), None);
    assert_eq!(feedback(uv(0.6), false, &none, &source, &target, ignore), None);
    assert_eq!(feedback(uv(0.3), false, &none, &source, &target, min), Some(uv(0.2)));
    assert_eq!(feedback(uv(0.6), false, &none, &source, &target, min), Some(uv(0.2)));
    assert_eq!(feedback(uv(0.3), false, &none, &source, &target, min_or_max), Some(uv(0.2)));
    assert_eq!(feedback(uv(0.6), false, &none, &source, &target, min_or_max), Some(uv(0.7)));
    assert_eq!(feedback(uv(0.6), true, &none, &source, &target, min_or_max), Some(uv(0.7)));
    assert_eq!(feedback(uv(0.45), false, &none, &source, &target, ignore), Some(uv(0.45)));
}

#[test]
fn control_transformation_sees_current_target_value() {
    let mut mode: Mode<FollowOutput> = Mode {
        control_transformation: Some(FollowOutput),
        ..Default::default()
    };
    assert_eq!(mode.control(abs(0.9), &continuous(0.3)), None);
    let trigger = TestTarget {
        current_value: Some(uv(0.3)),
        control_type: ControlType::AbsoluteTrigger,
    };
    assert_eq!(mode.control(abs(0.9), &trigger), Some(abs(0.3)));
    // A target without a value counts as zero
    assert_eq!(mode.control(abs(0.9), &virtual_multi()), Some(abs(0.0)));
}

#[test]
fn control_transformation_comes_before_reverse_and_target_interval() {
    let mut mode: Mode<Squeeze> = Mode {
        control_transformation: Some(Squeeze),
        target_value_interval: unit_interval(0.2, 0.6),
        reverse: true,
        ..Default::default()
    };
    // Half of 0.5 is 0.25, reversed 0.75, mapped 0.2 + 0.75 * 0.4
    assert_eq!(mode.control(abs(0.5), &continuous(0.0)), Some(abs(0.5)));
    // The transformation fails for one, reversed 0.0, mapped 0.2
    assert_eq!(mode.control(abs(1.0), &continuous(0.0)), Some(abs(0.2)));
}

#[test]
fn jump_that_is_too_far_is_shortened_in_proportion() {
    let mut mode: Mode<Squeeze> = Mode {
        jump_interval: unit_interval(0.1, 0.3),
        approach_target_value: true,
        ..Default::default()
    };
    // The distance 0.5 becomes 0.1 + 0.5 * 0.2
    assert_eq!(mode.control(abs(1.0), &continuous(0.5)), Some(abs(0.7)));
    assert_eq!(mode.control(abs(0.0), &continuous(0.5)), Some(abs(0.3)));
    // A jump within the interval is taken as it is
    assert_eq!(mode.control(abs(0.8), &continuous(0.5)), Some(abs(0.8)));
    // A jump that is too short is dropped
    assert_eq!(mode.control(abs(0.55), &continuous(0.5)), None);
}

#[test]
fn toggle_at_the_center_goes_up() {
    let mut mode: Mode<Squeeze> = Mode {
        absolute_mode: AbsoluteMode::ToggleButtons,
        target_value_interval: unit_interval(0.3, 0.7),
        ..Default::default()
    };
    assert_eq!(mode.control(abs(1.0), &continuous(0.5)), Some(abs(0.7)));
    let just_above = TestTarget {
        current_value: Some(UnitValue::new(ticks(0.5) + 1)),
        control_type: ControlType::AbsoluteContinuous,
    };
    assert_eq!(mode.control(abs(1.0), &just_above), Some(abs(0.3)));
    assert_eq!(mode.control(abs(1.0), &continuous(0.7)), Some(abs(0.3)));
    assert_eq!(mode.control(abs(1.0), &continuous(0.3)), Some(abs(0.7)));
    assert_eq!(mode.control(abs(1.0), &virtual_multi()), None);
}

#[test]
fn buttons_do_not_move_button_targets() {
    let target = TestTarget {
        current_value: Some(uv(0.5)),
        control_type: ControlType::VirtualButton,
    };
    let mut relative: Mode<Squeeze> = Mode::default();
    assert_eq!(relative.control(rel(1), &target), None);
    let mut incremental: Mode<Squeeze> = Mode {
        absolute_mode: AbsoluteMode::IncrementalButtons,
        ..Default::default()
    };
    assert_eq!(incremental.control(abs(1.0), &target), None);
}

#[test]
fn step_size_of_zero_moves_nothing() {
    let mut mode: Mode<Squeeze> = Mode {
        step_size_interval: unit_interval(0.0, 0.5),
        ..Default::default()
    };
    assert_eq!(mode.control(rel(3), &continuous(0.5)), None);
    let discrete = TestTarget {
        current_value: Some(uv(0.5)),
        control_type: ControlType::AbsoluteDiscrete { atomic_step_size: uv(0.0) },
    };
    assert_eq!(mode.control(rel(3), &discrete), None);
    let mut incremental: Mode<Squeeze> = Mode {
        absolute_mode: AbsoluteMode::IncrementalButtons,
        step_size_interval: unit_interval(0.0, 0.5),
        ..Default::default()
    };
    // The step size is 0.5 * 0.5, and there is no grid
    assert_eq!(incremental.control(abs(0.5), &continuous(0.5)), Some(abs(0.75)));
}
