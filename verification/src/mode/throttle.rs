use crate::base::arith::abs;
use vstd::prelude::*;

verus! {

/// Says whether an increment in the given direction should be let through by a throttle that
/// lets through every `nth` one, and what the counter of the throttle is afterwards.
///
/// The counter holds how many increments have arrived since the last one that was let through,
/// that one included, with the sign of their direction. The first increment ever, the first one
/// in a new direction and the one that arrives when `nth` have been counted are let through
/// and start the count anew.
pub open spec fn time_to_fire(counter: int, nth: int, direction: int) -> (bool, int) {
    if counter == 0 || (counter > 0) != (direction > 0) || abs(counter) >= nth {
        (true, direction)
    } else {
        (false, counter + direction)
    }
}

/// The number of increments that a throttle lets through of the next `n` increments in the
/// given direction.
pub open spec fn fires_in(counter: int, nth: int, direction: int, n: nat) -> nat
    decreases n,
{
    if n == 0 {
        0
    } else {
        let (fire, next) = time_to_fire(counter, nth, direction);
        let rest = fires_in(next, nth, direction, (n - 1) as nat);
        if fire {
            rest + 1
        } else {
            rest
        }
    }
}

/// The counter of a throttle after `n` increments in the given direction.
pub open spec fn counter_after(counter: int, nth: int, direction: int, n: nat) -> int
    decreases n,
{
    if n == 0 {
        counter
    } else {
        counter_after(time_to_fire(counter, nth, direction).1, nth, direction, (n - 1) as nat)
    }
}

/// The first increment ever and the first increment in a new direction are let through.
pub proof fn lemma_direction_change_fires(counter: int, nth: int, direction: int)
    requires
        counter == 0 || (counter > 0) != (direction > 0),
    ensures
        time_to_fire(counter, nth, direction) == (true, direction),
{
}

/// As long as the counter stays below `nth`, nothing is let through and every increment is
/// counted.
pub proof fn lemma_quiet_run(counter: int, nth: int, direction: int, n: nat)
    requires
        direction == 1 || direction == -1,
        counter != 0,
        (counter > 0) == (direction > 0),
        abs(counter) + n <= nth,
    ensures
        fires_in(counter, nth, direction, n) == 0,
        counter_after(counter, nth, direction, n) == counter + n * direction,
    decreases n,
{
    if n > 0 {
        lemma_quiet_run(counter + direction, nth, direction, (n - 1) as nat);
        assert(counter + direction + (n - 1) * direction == counter + n * direction)
            by (nonlinear_arith);
    }
}

/// What happens during some increments and then some more is what happens during all of them.
pub proof fn lemma_run_split(counter: int, nth: int, direction: int, first: nat, second: nat)
    ensures
        fires_in(counter, nth, direction, first + second) == fires_in(
            counter,
            nth,
            direction,
            first,
        ) + fires_in(counter_after(counter, nth, direction, first), nth, direction, second),
        counter_after(counter, nth, direction, first + second) == counter_after(
            counter_after(counter, nth, direction, first),
            nth,
            direction,
            second,
        ),
    decreases first,
{
    if first > 0 {
        let next = time_to_fire(counter, nth, direction).1;
        lemma_run_split(next, nth, direction, (first - 1) as nat, second);
    }
}

/// A throttle that lets through every `nth` increment lets through exactly one of any `nth`
/// increments in a row that go in the same direction, whatever happened before them.
pub proof fn lemma_throttle_period(counter: int, nth: int, direction: int)
    requires
        nth >= 1,
        direction == 1 || direction == -1,
    ensures
        fires_in(counter, nth, direction, nth as nat) == 1,
{
    let size = abs(counter);
    if counter == 0 || (counter > 0) != (direction > 0) || size >= nth {
        // The first increment is let through, the others are counted
        lemma_quiet_run(direction, nth, direction, (nth - 1) as nat);
    } else {
        // Some increments are counted, the next one is let through, the others are counted
        let before = (nth - size) as nat;
        let after = (size - 1) as nat;
        lemma_quiet_run(counter, nth, direction, before);
        let full = counter_after(counter, nth, direction, before);
        assert(abs(full) == nth) by (nonlinear_arith)
            requires
                full == counter + before * direction,
                before == nth - abs(counter),
                direction == 1 || direction == -1,
                counter != 0,
                (counter > 0) == (direction > 0),
                abs(counter) < nth,
                abs(full) == if full < 0 {
                    -full
                } else {
                    full
                },
                abs(counter) == if counter < 0 {
                    -counter
                } else {
                    counter
                },
        ;
        lemma_quiet_run(direction, nth, direction, after);
        assert(fires_in(full, nth, direction, 1 + after) == 1);
        lemma_run_split(counter, nth, direction, before, 1 + after);
    }
}

} // verus!
