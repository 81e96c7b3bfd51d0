//! The repeating timer that paces the animation.
//!
//! The timer counts elapsed time on every tick, paused or not; being paused
//! only keeps it from expiring. When it expires it starts over from the time
//! left beyond the interval, so that no elapsed time is lost.

use vstd::prelude::*;
use crate::rate::{
    comes_to_rest, next_interval, next_paused, valid_interval, DECREASE_STEP_MS, INCREASE_STEP_MS,
    MAX_INTERVAL_MS,
};

verus! {

/// What a [`RateTimer`] holds, as mathematical values. Times are in
/// milliseconds.
pub struct TimerModel {
    /// The time between two frames.
    pub interval: nat,
    /// The time counted since the timer last expired.
    pub elapsed: nat,
    /// Whether the timer is kept from expiring.
    pub paused: bool,
    /// Whether the timer expired in the latest advance.
    pub just_expired: bool,
}

/// The largest elapsed time that a timer can count, in milliseconds.
pub open spec fn elapsed_cap() -> nat {
    u64::MAX as nat
}

impl TimerModel {
    /// The interval is one that a timer can hold, and the elapsed time is one
    /// that it can count.
    pub open spec fn wf(self) -> bool {
        valid_interval(self.interval) && self.elapsed <= elapsed_cap()
    }

    /// The timer as a fresh one is made: at rest interval, running, with
    /// nothing counted.
    pub open spec fn fresh() -> TimerModel {
        TimerModel {
            interval: MAX_INTERVAL_MS as nat,
            elapsed: 0,
            paused: false,
            just_expired: false,
        }
    }

    /// The timer after the control law of one tick: the interval drifts, is
    /// capped and cut, and the paused flag follows.
    pub open spec fn adjusted(self, pressed: bool) -> TimerModel {
        TimerModel {
            interval: next_interval(self.interval, pressed),
            paused: next_paused(self.paused, self.interval, pressed),
            ..self
        }
    }

    /// Whether the timer expires when `elapsed` more milliseconds pass: it
    /// runs, and the time counted meets the interval.
    pub open spec fn expires(self, elapsed: nat) -> bool {
        !self.paused && self.elapsed + elapsed >= self.interval
    }

    /// The timer after `elapsed` more milliseconds have passed. A timer that
    /// expires keeps what is left of the counted time beyond whole intervals;
    /// one that does not counts on, a paused one up to the cap.
    pub open spec fn advanced(self, elapsed: nat) -> TimerModel {
        TimerModel {
            elapsed: if self.expires(elapsed) {
                (self.elapsed + elapsed) % self.interval
            } else if self.elapsed + elapsed <= elapsed_cap() {
                self.elapsed + elapsed
            } else {
                elapsed_cap()
            },
            just_expired: self.expires(elapsed),
            ..self
        }
    }

    /// The timer after `ticks` advances of `elapsed` milliseconds each.
    pub open spec fn advanced_by(self, elapsed: nat, ticks: nat) -> TimerModel
        decreases ticks,
    {
        if ticks == 0 {
            self
        } else {
            self.advanced_by(elapsed, (ticks - 1) as nat).advanced(elapsed)
        }
    }
}

/// A repeating timer with a variable interval.
#[derive(Debug)]
pub struct RateTimer {
    interval: u64,
    elapsed: u64,
    paused: bool,
    just_expired: bool,
}

impl View for RateTimer {
    type V = TimerModel;

    closed spec fn view(&self) -> TimerModel {
        TimerModel {
            interval: self.interval as nat,
            elapsed: self.elapsed as nat,
            paused: self.paused,
            just_expired: self.just_expired,
        }
    }
}

impl RateTimer {
    /// The interval is always one that a timer can hold.
    #[verifier::type_invariant]
    pub open spec fn inv(&self) -> bool {
        self@.wf()
    }

    /// A running timer at rest interval, with nothing counted.
    pub fn new() -> (timer: RateTimer)
        ensures
            timer@ == TimerModel::fresh(),
    {
        RateTimer { interval: MAX_INTERVAL_MS, elapsed: 0, paused: false, just_expired: false }
    }

    /// A running timer with the given interval and nothing counted, if the
    /// interval is one that a timer can hold.
    pub fn with_interval(interval: u64) -> (made: Option<RateTimer>)
        ensures
            made.is_some() <==> valid_interval(interval as nat),
            made matches Some(timer) ==> timer@ == (TimerModel {
                interval: interval as nat,
                ..TimerModel::fresh()
            }),
    {
        if 1 <= interval && interval <= MAX_INTERVAL_MS {
            Some(RateTimer { interval, elapsed: 0, paused: false, just_expired: false })
        } else {
            None
        }
    }

    /// The time between two frames, in milliseconds.
    pub fn interval(&self) -> (interval: u64)
        ensures
            interval == self@.interval,
    {
        self.interval
    }

    /// The time counted since the timer last expired, in milliseconds.
    pub fn elapsed(&self) -> (elapsed: u64)
        ensures
            elapsed == self@.elapsed,
    {
        self.elapsed
    }

    /// Whether the timer is kept from expiring.
    pub fn paused(&self) -> (paused: bool)
        ensures
            paused == self@.paused,
    {
        self.paused
    }

    /// Whether the timer expired in the latest advance.
    pub fn just_expired(&self) -> (expired: bool)
        ensures
            expired == self@.just_expired,
    {
        self.just_expired
    }

    /// Applies the control law of one tick and says whether the interval
    /// came to rest in it, before any cut.
    pub fn adjust(&mut self, pressed: bool) -> (rested: bool)
        ensures
            final(self)@ == old(self)@.adjusted(pressed),
            rested == comes_to_rest(old(self)@.interval),
    {
        proof {
            use_type_invariant(&*self);
        }
        let mut duration: u64 = self.interval + INCREASE_STEP_MS;
        let rested: bool = duration >= MAX_INTERVAL_MS;
        if rested {
            duration = MAX_INTERVAL_MS;
            self.paused = true;
        }
        if pressed && duration > DECREASE_STEP_MS {
            duration = duration - DECREASE_STEP_MS;
            self.paused = false;
        }
        self.interval = duration;
        rested
    }

    /// Lets `elapsed_ms` milliseconds pass and says whether the timer
    /// expired.
    pub fn advance(&mut self, elapsed_ms: u64) -> (expired: bool)
        ensures
            final(self)@ == old(self)@.advanced(elapsed_ms as nat),
            expired == old(self)@.expires(elapsed_ms as nat),
    {
        proof {
            use_type_invariant(&*self);
        }
        let counted: u128 = self.elapsed as u128 + elapsed_ms as u128;
        let interval: u128 = self.interval as u128;
        if !self.paused && counted >= interval {
            self.elapsed = (counted % interval) as u64;
            self.just_expired = true;
        } else {
            self.elapsed = self.elapsed.saturating_add(elapsed_ms);
            self.just_expired = false;
        }
        self.just_expired
    }
}

} // verus!
