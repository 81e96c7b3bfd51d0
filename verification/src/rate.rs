//! The control law for the frame interval: a slow drift towards rest on every
//! tick, and a fixed cut on every key press, kept between a floor and a cap.

use vstd::prelude::*;

verus! {

/// The resting (and largest) frame interval, in milliseconds.
pub const MAX_INTERVAL_MS: u64 = 800;

/// By how much one key press shortens the interval, in milliseconds.
pub const DECREASE_STEP_MS: u64 = 40;

/// By how much the interval grows on every tick, in milliseconds.
pub const INCREASE_STEP_MS: u64 = 1;

/// The smallest interval, after the drift of a tick, that a key press still
/// shortens, in milliseconds.
pub const MIN_INTERVAL_MS: u64 = DECREASE_STEP_MS + 1;

/// Whether the drift of this tick takes an interval of `interval`
/// milliseconds up to rest.
pub open spec fn comes_to_rest(interval: nat) -> bool {
    interval + INCREASE_STEP_MS >= MAX_INTERVAL_MS
}

/// The interval after the drift of one tick, capped at rest.
pub open spec fn decayed(interval: nat) -> nat {
    if comes_to_rest(interval) {
        MAX_INTERVAL_MS as nat
    } else {
        interval + INCREASE_STEP_MS as nat
    }
}

/// The interval after the drift of `ticks` ticks, capped at rest.
pub open spec fn decayed_by(interval: nat, ticks: nat) -> nat {
    if interval + INCREASE_STEP_MS * ticks >= MAX_INTERVAL_MS {
        MAX_INTERVAL_MS as nat
    } else {
        interval + INCREASE_STEP_MS as nat * ticks
    }
}

/// Whether a key state of `pressed` shortens the interval in the tick that
/// starts at `interval`: the key went down, and the drifted interval is
/// still above the step.
pub open spec fn accelerates(interval: nat, pressed: bool) -> bool {
    pressed && decayed(interval) > DECREASE_STEP_MS
}

/// The interval at the end of a tick that started at `interval`.
pub open spec fn next_interval(interval: nat, pressed: bool) -> nat {
    if accelerates(interval, pressed) {
        (decayed(interval) - DECREASE_STEP_MS) as nat
    } else {
        decayed(interval)
    }
}

/// The paused flag at the end of a tick that started at `interval`: a press
/// that shortens the interval clears it, even in the tick that came to rest;
/// coming to rest sets it; otherwise it stays.
pub open spec fn next_paused(paused: bool, interval: nat, pressed: bool) -> bool {
    if accelerates(interval, pressed) {
        false
    } else if comes_to_rest(interval) {
        true
    } else {
        paused
    }
}

/// Whether `interval` is one that a timer can hold.
pub open spec fn valid_interval(interval: nat) -> bool {
    1 <= interval <= MAX_INTERVAL_MS
}

} // verus!
