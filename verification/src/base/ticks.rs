use crate::base::arith::clamp;
use crate::base::arith::div_round;
use crate::base::arith::lemma_div_round_bound;
use crate::base::arith::lemma_div_round_error;
use crate::base::arith::lemma_div_round_monotonic;
use crate::base::arith::lemma_div_round_multiple;
use crate::base::unit_value::UNIT;
use vstd::prelude::*;

verus! {

/// The place of `u` within `min..=max` as a tick count of the unit interval: zero at `min` and
/// below, one at `max` and above, in proportion in between. An interval of one value has no
/// proportions, so `prefer_one` decides between one and zero.
pub open spec fn to_unit_ticks(u: int, min: int, max: int, prefer_one: bool) -> int {
    if min == max {
        if prefer_one {
            UNIT as int
        } else {
            0
        }
    } else if u <= min {
        0
    } else if u >= max {
        UNIT as int
    } else {
        div_round((u - min) * UNIT, max - min)
    }
}

/// The tick count within `min..=max` that lies where `u` lies within the unit interval.
pub open spec fn from_unit_ticks(u: int, min: int, max: int) -> int {
    min + div_round(u * (max - min), UNIT as int)
}

/// The step count within `min..=max` that lies where `u` lies within the unit interval. Zero is
/// no step count: one takes its place.
pub open spec fn to_count(u: int, min: int, max: int) -> int {
    let raw = min + div_round(u * (max - min), UNIT as int);
    if raw == 0 {
        1
    } else {
        raw
    }
}

/// The multiple of `grid` nearest to `u`, or one where that multiple lies above one. A grid of
/// size zero is no grid and leaves `u` where it is.
pub open spec fn snap_ticks(u: int, grid: int) -> int {
    if grid <= 0 {
        u
    } else if div_round(u, grid) * grid > UNIT {
        UNIT as int
    } else {
        div_round(u, grid) * grid
    }
}

/// Where a value outside of an interval goes when it is moved: to the low bound when moved
/// upwards, to the high bound when moved downwards.
pub open spec fn entry_bound(inc: int, min: int, max: int) -> int {
    if inc > 0 {
        min
    } else {
        max
    }
}

/// The tick count reached from `u` by `inc` within `min..=max` when the bounds stop the move.
pub open spec fn add_clamping_ticks(u: int, inc: int, min: int, max: int) -> int {
    if u < min || u > max {
        entry_bound(inc, min, max)
    } else {
        clamp(u + inc, min, max)
    }
}

/// The tick count reached from `u` by `inc` within `min..=max` when a move across one bound
/// continues at the other bound.
pub open spec fn add_rotating_ticks(u: int, inc: int, min: int, max: int) -> int {
    if u < min || u > max {
        entry_bound(inc, min, max)
    } else if u + inc > max {
        min
    } else if u + inc < min {
        max
    } else {
        u + inc
    }
}

/// Snapping keeps values within the unit interval and keeps their order.
pub proof fn lemma_snap_monotonic(a: int, b: int, grid: int)
    requires
        0 <= a <= b <= UNIT,
    ensures
        0 <= snap_ticks(a, grid) <= snap_ticks(b, grid) <= UNIT,
{
    if grid > 0 {
        lemma_div_round_error(a, grid);
        lemma_div_round_monotonic(a, b, grid);
        let ka = div_round(a, grid);
        let kb = div_round(b, grid);
        assert(0 <= ka * grid <= kb * grid) by (nonlinear_arith)
            requires
                0 <= ka <= kb,
                0 < grid,
        ;
    }
}

/// Snapping a value that has been snapped to the same grid changes nothing.
pub proof fn lemma_snap_idempotent(u: int, grid: int)
    requires
        0 <= u <= UNIT,
    ensures
        snap_ticks(snap_ticks(u, grid), grid) == snap_ticks(u, grid),
{
    if grid > 0 {
        let k = div_round(u, grid);
        lemma_div_round_error(u, grid);
        if k * grid > UNIT {
            lemma_div_round_monotonic(u, UNIT as int, grid);
            let top = div_round(UNIT as int, grid);
            assert(top * grid > UNIT) by (nonlinear_arith)
                requires
                    k * grid > UNIT,
                    k <= top,
                    0 < grid,
            ;
        } else {
            lemma_div_round_multiple(k, grid);
        }
    }
}

/// The place of a value within an interval lies within the unit interval.
pub proof fn lemma_to_unit_within(u: int, min: int, max: int, prefer_one: bool)
    requires
        min <= max,
    ensures
        0 <= to_unit_ticks(u, min, max, prefer_one) <= UNIT,
{
    if min < u < max {
        assert(0 <= (u - min) * UNIT <= UNIT * (max - min)) by (nonlinear_arith)
            requires
                min < u < max,
        ;
        lemma_div_round_bound((u - min) * UNIT, max - min, UNIT as int);
    }
}

/// A value of the unit interval is mapped into the interval that it is mapped to.
pub proof fn lemma_from_unit_within(u: int, min: int, max: int)
    requires
        0 <= u <= UNIT,
        min <= max,
    ensures
        min <= from_unit_ticks(u, min, max) <= max,
{
    assert(0 <= u * (max - min) <= (max - min) * UNIT) by (nonlinear_arith)
        requires
            0 <= u <= UNIT,
            min <= max,
    ;
    lemma_div_round_bound(u * (max - min), UNIT as int, max - min);
}

/// The ends of the unit interval are mapped to the bounds of the interval.
pub proof fn lemma_from_unit_ends(min: int, max: int)
    requires
        min <= max,
    ensures
        from_unit_ticks(0, min, max) == min,
        from_unit_ticks(UNIT as int, min, max) == max,
{
    assert(UNIT * (max - min) == (max - min) * UNIT) by (nonlinear_arith);
    lemma_div_round_multiple(max - min, UNIT as int);
}

/// A value of the unit interval is mapped to a step count of the interval that it is mapped to.
pub proof fn lemma_to_count_within(u: int, min: int, max: int)
    requires
        0 <= u <= UNIT,
        min <= max,
        min != 0,
        max != 0,
    ensures
        min <= to_count(u, min, max) <= max,
        to_count(u, min, max) != 0,
{
    lemma_from_unit_within(u, min, max);
}

/// Mapping a value of the unit interval to the unit interval changes nothing.
pub proof fn lemma_unit_to_unit(u: int, prefer_one: bool)
    requires
        0 <= u <= UNIT,
    ensures
        to_unit_ticks(u, 0, UNIT as int, prefer_one) == u,
        from_unit_ticks(u, 0, UNIT as int) == u,
{
    lemma_div_round_multiple(u, UNIT as int);
}

/// Mapping a value of an interval to the unit interval and back to the same interval gives the
/// value again, if the interval is no wider than the unit interval.
pub proof fn lemma_unit_round_trip(u: int, min: int, max: int, prefer_one: bool)
    requires
        min <= u <= max,
        min < max <= min + UNIT,
    ensures
        from_unit_ticks(to_unit_ticks(u, min, max, prefer_one), min, max) == u,
{
    lemma_from_unit_ends(min, max);
    if min < u < max {
        let y = u - min;
        let s = max - min;
        let a = div_round(y * UNIT, s);
        assert(0 <= y * UNIT) by (nonlinear_arith)
            requires
                0 <= y,
        ;
        lemma_div_round_error(y * UNIT, s);
        assert(0 <= a * s) by (nonlinear_arith)
            requires
                0 <= a,
                0 < s,
        ;
        lemma_div_round_error(a * s, UNIT as int);
        let b = div_round(a * s, UNIT as int);
        if s == UNIT {
            lemma_div_round_multiple(y, s);
            lemma_div_round_multiple(y, UNIT as int);
        } else {
            assert(b == y) by (nonlinear_arith)
                requires
                    2 * (y * UNIT) - s < 2 * s * a <= 2 * (y * UNIT) + s,
                    2 * (a * s) - UNIT < 2 * UNIT * b <= 2 * (a * s) + UNIT,
                    0 < s < UNIT,
            ;
        }
    }
}

/// Where `u` goes when it is mapped from a source interval to the unit interval, turned round
/// if `reverse` is set and mapped to a target interval.
pub open spec fn forth(
    u: int,
    source_min: int,
    source_max: int,
    target_min: int,
    target_max: int,
    reverse: bool,
) -> int {
    let place = to_unit_ticks(u, source_min, source_max, true);
    from_unit_ticks(
        if reverse {
            UNIT - place
        } else {
            place
        },
        target_min,
        target_max,
    )
}

/// Mapping a value from one interval to another one and back gives the value again, turned round
/// in between or not, if the other interval is as wide as the first one or is the whole unit
/// interval.
pub proof fn lemma_forth_and_back(
    u: int,
    source_min: int,
    source_max: int,
    target_min: int,
    target_max: int,
    reverse: bool,
)
    requires
        source_min <= u <= source_max,
        source_min < source_max <= source_min + UNIT,
        target_max - target_min == source_max - source_min || target_max - target_min == UNIT,
    ensures
        forth(
            forth(u, source_min, source_max, target_min, target_max, reverse),
            target_min,
            target_max,
            source_min,
            source_max,
            reverse,
        ) == u,
{
    let s = source_max - source_min;
    let y = u - source_min;
    let place = to_unit_ticks(u, source_min, source_max, true);
    lemma_to_unit_within(u, source_min, source_max, true);
    let directed = if reverse {
        UNIT - place
    } else {
        place
    };
    let there = forth(u, source_min, source_max, target_min, target_max, reverse);
    lemma_from_unit_ends(source_min, source_max);
    lemma_from_unit_ends(target_min, target_max);
    lemma_from_unit_within(directed, target_min, target_max);
    if target_max - target_min == UNIT {
        // The way to the target interval and back is exact
        lemma_div_round_multiple(directed, UNIT as int);
        lemma_unit_round_trip(u, source_min, source_max, true);
    } else if y == 0 || y == s {
        // The bounds go to the ends of the unit interval and to the bounds
    } else {
        // Both intervals are equally wide and less wide than the unit interval, so the value is
        // as far from a bound of the target interval as it was from a bound of the source
        // interval, and the same holds on the way back
        assert(0 <= y * UNIT) by (nonlinear_arith)
            requires
                0 <= y,
        ;
        lemma_div_round_error(y * UNIT, s);
        assert(0 <= directed * s) by (nonlinear_arith)
            requires
                0 <= directed,
                0 < s,
        ;
        lemma_div_round_error(directed * s, UNIT as int);
        let z = div_round(directed * s, UNIT as int);
        let expected = if reverse {
            s - y
        } else {
            y
        };
        assert(z == expected) by (nonlinear_arith)
            requires
                2 * (y * UNIT) - s < 2 * s * place <= 2 * (y * UNIT) + s,
                2 * (directed * s) - UNIT < 2 * UNIT * z <= 2 * (directed * s) + UNIT,
                directed == if reverse {
                    UNIT - place
                } else {
                    place
                },
                expected == if reverse {
                    s - y
                } else {
                    y
                },
                0 < s < UNIT,
        ;
        assert(0 <= expected * UNIT) by (nonlinear_arith)
            requires
                0 <= expected,
        ;
        lemma_div_round_error(expected * UNIT, s);
        let back_place = div_round(expected * UNIT, s);
        assert(back_place <= UNIT) by {
            lemma_to_unit_within(there, target_min, target_max, true);
        }
        let back_directed = if reverse {
            UNIT - back_place
        } else {
            back_place
        };
        assert(0 <= back_directed * s) by (nonlinear_arith)
            requires
                0 <= back_directed,
                0 < s,
        ;
        lemma_div_round_error(back_directed * s, UNIT as int);
        let back = div_round(back_directed * s, UNIT as int);
        assert(back == y) by (nonlinear_arith)
            requires
                2 * (expected * UNIT) - s < 2 * s * back_place <= 2 * (expected * UNIT) + s,
                2 * (back_directed * s) - UNIT < 2 * UNIT * back <= 2 * (back_directed * s) + UNIT,
                back_directed == if reverse {
                    UNIT - back_place
                } else {
                    back_place
                },
                expected == if reverse {
                    s - y
                } else {
                    y
                },
                0 < s < UNIT,
        ;
    }
}

/// A move that the bounds stop ends within the bounds.
pub proof fn lemma_add_clamping_within(u: int, inc: int, min: int, max: int)
    requires
        min <= max,
    ensures
        min <= add_clamping_ticks(u, inc, min, max) <= max,
{
}

/// A move that continues at the other bound ends within the bounds: at the low bound if it went
/// beyond the high bound, at the high bound if it went beyond the low bound.
pub proof fn lemma_add_rotating_within(u: int, inc: int, min: int, max: int)
    requires
        min <= max,
    ensures
        min <= add_rotating_ticks(u, inc, min, max) <= max,
        min <= u <= max && u + inc > max ==> add_rotating_ticks(u, inc, min, max) == min,
        min <= u <= max && u + inc < min ==> add_rotating_ticks(u, inc, min, max) == max,
{
}

} // verus!
