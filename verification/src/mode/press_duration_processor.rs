use crate::base::interval::Interval;
use crate::base::unit_value::UnitValue;
use std::time::Duration;
use std::time::Instant;
use vstd::prelude::*;

verus! {

/// A point on the monotonic clock of the standard library. Nothing is known of its inside.
#[verifier::external_type_specification]
#[verifier::external_body]
pub struct ExInstant(Instant);

/// `std::time::Instant::now` reads the monotonic clock. Nothing is claimed of the instant that
/// comes back.
pub assume_specification[ Instant::now ]() -> Instant;

/// `std::time::Instant::elapsed` tells how much time has passed since the instant. Nothing is
/// claimed of the duration that comes back: it depends on when the call is made.
pub assume_specification[ Instant::elapsed ](instant: &Instant) -> Duration;

/// `std::time::Duration::as_millis` gives the whole milliseconds of a duration. Nothing is
/// claimed of the number that comes back, as nothing is known of the duration.
pub assume_specification[ Duration::as_millis ](duration: &Duration) -> u128;

/// The longest duration in milliseconds that can be told apart. An interval of press durations
/// that reaches from zero to this one lets everything pass.
pub const FOREVER: u128 = 0xffff_ffff_ffff_ffff_ffff_ffff_ffff_ffff;

/// Lets a button press pass only if the button was held down for a duration within a certain
/// interval. The press is delivered at the moment of its release.
#[derive(Debug)]
pub struct PressDurationProcessor {
    interval: Interval<u128>,
    timer: Instant,
    last_button_press: Option<(u128, UnitValue)>,
}

impl PressDurationProcessor {
    /// The interval of accepted press durations in milliseconds, for use in contracts.
    pub closed spec fn hold_interval(self) -> Interval<u128> {
        self.interval
    }

    /// The press that has not been released yet, as the time it happened at and its amplitude.
    pub closed spec fn pending(self) -> Option<(u128, UnitValue)> {
        self.last_button_press
    }

    /// The amplitude of a pending press is a unit value.
    pub open spec fn wf(self) -> bool {
        self.pending() matches Some((_, amplitude)) ==> amplitude.inv()
    }

    /// Tells whether some press durations are not accepted.
    pub open spec fn is_gating(self) -> bool {
        !(self.hold_interval().lower() == 0 && self.hold_interval().upper() == FOREVER)
    }

    /// Tells whether a press that happened at `pressed` and is released at `now` was held down
    /// for an accepted duration.
    pub open spec fn accepts(self, pressed: u128, now: u128) -> bool {
        self.hold_interval().lower() <= now - pressed <= self.hold_interval().upper()
    }

    /// What comes out when the value `v` arrives at the time `now`.
    pub open spec fn output(self, v: UnitValue, now: u128) -> Option<UnitValue> {
        if !self.is_gating() {
            Some(v)
        } else if v@ != 0 {
            None
        } else {
            match self.pending() {
                Some((pressed, amplitude)) => if self.accepts(pressed, now) {
                    Some(amplitude)
                } else {
                    None
                },
                None => None,
            }
        }
    }

    /// The press that is pending after the value `v` has arrived at the time `now`.
    pub open spec fn pending_after(self, v: UnitValue, now: u128) -> Option<(u128, UnitValue)> {
        if !self.is_gating() {
            self.pending()
        } else if v@ != 0 {
            Some((now, v))
        } else {
            None
        }
    }

    /// The processor after the value `v` has arrived at the time `now`.
    pub closed spec fn after(self, v: UnitValue, now: u128) -> PressDurationProcessor {
        PressDurationProcessor {
            interval: self.interval,
            timer: self.timer,
            last_button_press: self.pending_after(v, now),
        }
    }

    /// Processing a value changes nothing but the pending press.
    pub proof fn lemma_after(self, v: UnitValue, now: u128)
        ensures
            self.after(v, now).hold_interval() == self.hold_interval(),
            self.after(v, now).pending() == self.pending_after(v, now),
            !self.is_gating() ==> self.after(v, now) == self,
    {
    }

    /// Creates a processor that accepts the press durations of the given interval, in
    /// milliseconds.
    pub fn new(interval: Interval<u128>) -> (r: PressDurationProcessor)
        ensures
            r.hold_interval() == interval,
            r.pending() is None,
    {
        PressDurationProcessor { interval, timer: Instant::now(), last_button_press: None }
    }

    /// Returns the press that has not been released yet, as the time it happened at and its
    /// amplitude.
    pub fn pending_press(&self) -> (r: Option<(u128, UnitValue)>)
        ensures
            r == self.pending(),
            self.wf(),
    {
        match self.last_button_press {
            Some((_, amplitude)) => {
                proof {
                    use_type_invariant(amplitude);
                }
            },
            None => {},
        }
        self.last_button_press
    }

    /// Returns the interval of accepted press durations in milliseconds.
    pub fn interval(&self) -> (r: Interval<u128>)
        ensures
            r == self.hold_interval(),
    {
        self.interval
    }

    /// Tells whether some press durations are not accepted.
    pub fn is_active(&self) -> (r: bool)
        ensures
            r == self.is_gating(),
    {
        !(self.interval.min() == 0 && self.interval.max() == FOREVER)
    }

    /// Processes a value that arrives at the time `now`, given in milliseconds on any clock that
    /// does not run backwards.
    ///
    /// A processor that accepts every duration hands the value on as it is. Any other one holds
    /// back a press (a value above zero) and notes its time. At the release (the value zero) it
    /// hands on the amplitude of the press if the time in between is an accepted duration. A
    /// release always ends the press.
    pub fn process_at(&mut self, control_value: UnitValue, now: u128) -> (r: Option<UnitValue>)
        ensures
            r == old(self).output(control_value, now),
            *final(self) == old(self).after(control_value, now),
    {
        if !self.is_active() {
            return Some(control_value);
        }
        if control_value.is_zero() {
            let press = self.last_button_press;
            self.last_button_press = None;
            match press {
                Some((pressed, amplitude)) => {
                    if now >= pressed && self.interval.contains(now - pressed) {
                        Some(amplitude)
                    } else {
                        None
                    }
                },
                None => None,
            }
        } else {
            self.last_button_press = Some((now, control_value));
            None
        }
    }

    /// Reads the time that has passed since this processor was created.
    pub fn now(&self) -> u128 {
        self.timer.elapsed().as_millis()
    }

    /// Processes a value that arrives now, see [`PressDurationProcessor::process_at`]. The clock
    /// is read only if some press durations are not accepted.
    pub fn process(&mut self, control_value: UnitValue) -> (r: Option<UnitValue>)
        ensures
            exists|now: u128|
                {
                    &&& r == #[trigger] old(self).output(control_value, now)
                    &&& *final(self) == old(self).after(control_value, now)
                },
            !old(self).is_gating() ==> r == Some(control_value) && *final(self) == *old(self),
    {
        let now = if self.is_active() {
            self.now()
        } else {
            0
        };
        self.process_at(control_value, now)
    }
}

impl Clone for PressDurationProcessor {
    fn clone(&self) -> (r: PressDurationProcessor)
        ensures
            r == *self,
    {
        PressDurationProcessor {
            interval: self.interval,
            timer: self.timer,
            last_button_press: self.last_button_press,
        }
    }
}

impl Default for PressDurationProcessor {
    /// Creates a processor that accepts every press duration.
    fn default() -> (r: PressDurationProcessor)
        ensures
            !r.is_gating(),
            r.pending() is None,
    {
        PressDurationProcessor::new(Interval::new(0, FOREVER))
    }
}

} // verus!
