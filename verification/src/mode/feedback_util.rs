use crate::base::interval::Interval;
use crate::base::ticks::from_unit_ticks;
use crate::base::ticks::to_unit_ticks;
use crate::base::unit_value::MinIsMaxBehavior;
use crate::base::unit_value::UNIT;
use crate::base::unit_value::UnitValue;
use crate::mode::common::OutOfRangeBehavior;
use crate::mode::transformation::apply;
use crate::mode::transformation::may_yield;
use crate::mode::transformation::Transformation;
use vstd::prelude::*;

verus! {

/// What a source should show for a target value that lies outside of the target interval.
pub open spec fn out_of_range_feedback(
    target_value: UnitValue,
    source_value_interval: Interval<UnitValue>,
    target_value_interval: Interval<UnitValue>,
    out_of_range_behavior: OutOfRangeBehavior,
) -> Option<UnitValue> {
    match out_of_range_behavior {
        OutOfRangeBehavior::Ignore => None,
        OutOfRangeBehavior::Min => Some(source_value_interval.lower()),
        OutOfRangeBehavior::MinOrMax => if target_value@ < target_value_interval.lower()@ {
            Some(source_value_interval.lower())
        } else {
            Some(source_value_interval.upper())
        },
    }
}

/// The place of a target value within the target interval, which is what a feedback
/// transformation is applied to.
pub open spec fn normalized_feedback(
    target_value: UnitValue,
    target_value_interval: Interval<UnitValue>,
) -> UnitValue {
    UnitValue::of(
        to_unit_ticks(
            target_value@,
            target_value_interval.lower()@,
            target_value_interval.upper()@,
            true,
        ),
    )
}

/// What a source should show for a target value within the target interval once the
/// transformation has made `transformed` of its place in that interval.
pub open spec fn shaped_feedback(
    transformed: UnitValue,
    reverse: bool,
    source_value_interval: Interval<UnitValue>,
) -> UnitValue {
    UnitValue::of(
        from_unit_ticks(
            if reverse {
                UNIT - transformed@
            } else {
                transformed@
            },
            source_value_interval.lower()@,
            source_value_interval.upper()@,
        ),
    )
}

/// Tells whether `result` is a feedback value for the given target value under the given
/// settings.
///
/// A target value outside of the target interval is answered as the out-of-range behavior says.
/// Any other one is mapped from the target interval to the unit interval, transformed, reversed
/// if asked for and mapped to the source interval.
pub open spec fn is_feedback<T: Transformation>(
    target_value: UnitValue,
    reverse: bool,
    transformation: Option<T>,
    source_value_interval: Interval<UnitValue>,
    target_value_interval: Interval<UnitValue>,
    out_of_range_behavior: OutOfRangeBehavior,
    result: Option<UnitValue>,
) -> bool {
    if target_value_interval.lower()@ <= target_value@ <= target_value_interval.upper()@ {
        let normalized = normalized_feedback(target_value, target_value_interval);
        exists|transformed: UnitValue|
            {
                &&& #[trigger] may_yield(transformation, normalized, normalized, transformed)
                &&& result == Some(shaped_feedback(transformed, reverse, source_value_interval))
            }
    } else {
        result == out_of_range_feedback(
            target_value,
            source_value_interval,
            target_value_interval,
            out_of_range_behavior,
        )
    }
}

/// Computes the value that a source should show for a target value within the target interval
/// once the transformation has been applied.
pub fn shape_feedback(
    transformed: UnitValue,
    reverse: bool,
    source_value_interval: &Interval<UnitValue>,
) -> (r: UnitValue)
    ensures
        r == shaped_feedback(transformed, reverse, *source_value_interval),
{
    let potentially_inversed = if reverse {
        transformed.inverse()
    } else {
        transformed
    };
    proof {
        use_type_invariant(transformed);
        UnitValue::lemma_of_view(UNIT - transformed@);
    }
    potentially_inversed.map_from_unit_interval_to(source_value_interval)
}

/// Takes a target value, interprets and transforms it conforming to the given settings and maybe
/// returns an appropriate source value that should be sent to the source.
pub fn feedback<T: Transformation>(
    target_value: UnitValue,
    reverse: bool,
    transformation: &Option<T>,
    source_value_interval: &Interval<UnitValue>,
    target_value_interval: &Interval<UnitValue>,
    out_of_range_behavior: OutOfRangeBehavior,
) -> (r: Option<UnitValue>)
    ensures
        is_feedback(
            target_value,
            reverse,
            *transformation,
            *source_value_interval,
            *target_value_interval,
            out_of_range_behavior,
            r,
        ),
{
    if !target_value.is_within_interval(target_value_interval) {
        return match out_of_range_behavior {
            OutOfRangeBehavior::Ignore => None,
            OutOfRangeBehavior::Min => Some(source_value_interval.min()),
            OutOfRangeBehavior::MinOrMax => {
                if target_value.get() < target_value_interval.min().get() {
                    Some(source_value_interval.min())
                } else {
                    Some(source_value_interval.max())
                }
            },
        };
    }
    let normalized = target_value.map_to_unit_interval_from(
        target_value_interval,
        MinIsMaxBehavior::PreferOne,
    );
    let transformed = apply(transformation, normalized, normalized);
    let shaped = shape_feedback(transformed, reverse, source_value_interval);
    assert(normalized == normalized_feedback(target_value, *target_value_interval));
    Some(shaped)
}

} // verus!
