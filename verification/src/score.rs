//! The score: a ratchet that follows how short the frame interval has been.

use vstd::prelude::*;
use crate::rate::MAX_INTERVAL_MS;
use crate::timer::RateTimer;

verus! {

/// What an interval of `interval` milliseconds is worth: the number of whole
/// intervals that fit into one second.
pub open spec fn candidate(interval: nat) -> nat
    recommends
        interval > 0,
{
    1000nat / interval
}

/// The score once an interval of `interval` milliseconds has been seen: it
/// rises to the interval's worth where that is larger and the interval is
/// below rest, and stays otherwise.
pub open spec fn scored(score: nat, interval: nat) -> nat {
    if candidate(interval) > score && interval < MAX_INTERVAL_MS {
        candidate(interval)
    } else {
        score
    }
}

/// The best score reached so far.
#[derive(Debug)]
pub struct Scoreboard {
    pub score: u64,
}

impl Scoreboard {
    /// A scoreboard that has seen nothing yet.
    pub fn new() -> (board: Scoreboard)
        ensures
            board.score == 0,
    {
        Scoreboard { score: 0 }
    }

    /// Takes note of the interval that `timer` holds in the current tick.
    pub fn record(&mut self, timer: &RateTimer)
        ensures
            final(self).score == scored(old(self).score as nat, timer@.interval),
            final(self).score >= old(self).score,
    {
        proof {
            use_type_invariant(timer);
        }
        let interval: u64 = timer.interval();
        let worth: u64 = 1000 / interval;
        if worth > self.score && interval < MAX_INTERVAL_MS {
            self.score = worth;
        }
    }
}

} // verus!
