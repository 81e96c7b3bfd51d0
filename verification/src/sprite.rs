//! One animated sprite and the tick that drives it.
//!
//! A tick applies the control law to the timer, snaps the sprite back to its
//! first frame when the interval comes to rest, lets the scoreboard see the
//! new interval, counts the elapsed time, and moves one frame on when the
//! timer expires.

use vstd::prelude::*;
use crate::frames::{AnimationState, FramesModel};
use crate::rate::{comes_to_rest, next_interval, MAX_INTERVAL_MS};
use crate::score::{scored, Scoreboard};
use crate::timer::{RateTimer, TimerModel};

verus! {

/// What the host hands in for one tick.
#[derive(Clone, Copy, Debug, PartialEq, Eq)]
pub struct Tick {
    /// The time since the previous tick, in milliseconds.
    pub elapsed_ms: u64,
    /// Whether the accelerate key went down in this tick.
    pub pressed: bool,
}

/// What an [`AnimatedSprite`] holds, as mathematical values.
pub struct SpriteModel {
    /// The frame cycle and the frame on show.
    pub frames: FramesModel,
    /// The timer that paces the frames.
    pub timer: TimerModel,
}

impl SpriteModel {
    /// Both parts are well formed.
    pub open spec fn wf(self) -> bool {
        self.frames.wf() && self.timer.wf()
    }

    /// A sprite as it is set up: at the start of its cycle, with a fresh
    /// timer.
    pub open spec fn fresh(first: nat, last: nat) -> SpriteModel {
        SpriteModel { frames: FramesModel::at_start(first, last), timer: TimerModel::fresh() }
    }

    /// Whether the sprite is at rest: the interval is at its cap, the timer
    /// is paused, and the first frame is on show.
    pub open spec fn at_rest(self) -> bool {
        &&& self.timer.interval == MAX_INTERVAL_MS
        &&& self.timer.paused
        &&& self.frames.current == self.frames.first
    }

    /// The sprite after one tick.
    pub open spec fn ticked(self, elapsed: nat, pressed: bool) -> SpriteModel {
        let timer = self.timer.adjusted(pressed);
        let frames = if comes_to_rest(self.timer.interval) {
            self.frames.rewound()
        } else {
            self.frames
        };
        SpriteModel {
            frames: if timer.expires(elapsed) {
                frames.stepped()
            } else {
                frames
            },
            timer: timer.advanced(elapsed),
        }
    }
}

/// A sprite together with the score, as mathematical values: all that a
/// tick reads and writes.
pub struct PlayModel {
    /// The sprite.
    pub sprite: SpriteModel,
    /// The best score so far.
    pub score: nat,
}

impl PlayModel {
    /// The sprite is well formed.
    pub open spec fn wf(self) -> bool {
        self.sprite.wf()
    }

    /// The play after one tick: the sprite moves on, and the score sees the
    /// interval that the tick arrived at.
    pub open spec fn ticked(self, tick: Tick) -> PlayModel {
        PlayModel {
            sprite: self.sprite.ticked(tick.elapsed_ms as nat, tick.pressed),
            score: scored(self.score, next_interval(self.sprite.timer.interval, tick.pressed)),
        }
    }

    /// The play after the ticks of `ticks`, in their order.
    pub open spec fn played(self, ticks: Seq<Tick>) -> PlayModel
        decreases ticks.len(),
    {
        if ticks.len() == 0 {
            self
        } else {
            self.played(ticks.drop_last()).ticked(ticks.last())
        }
    }
}

/// One animated sprite: its frames and the timer that paces them.
#[derive(Debug)]
pub struct AnimatedSprite {
    pub frames: AnimationState,
    pub timer: RateTimer,
}

impl View for AnimatedSprite {
    type V = SpriteModel;

    open spec fn view(&self) -> SpriteModel {
        SpriteModel { frames: self.frames@, timer: self.timer@ }
    }
}

impl AnimatedSprite {
    /// A sprite that cycles through the frames from `first_index` to
    /// `last_index`, set up at the first of them with a fresh timer, if the
    /// range holds a frame at all.
    pub fn new(first_index: usize, last_index: usize) -> (made: Option<AnimatedSprite>)
        ensures
            made.is_some() <==> first_index <= last_index,
            made matches Some(sprite) ==> sprite@ == SpriteModel::fresh(
                first_index as nat,
                last_index as nat,
            ),
    {
        match AnimationState::new(first_index, last_index) {
            Some(frames) => Some(AnimatedSprite { frames, timer: RateTimer::new() }),
            None => None,
        }
    }

    /// The frame on show.
    pub fn current_index(&self) -> (index: usize)
        ensures
            index == self@.frames.current,
    {
        self.frames.current_index()
    }
}

/// The sprite and the score as one value.
pub open spec fn play_of(sprite: AnimatedSprite, scoreboard: Scoreboard) -> PlayModel {
    PlayModel { sprite: sprite@, score: scoreboard.score as nat }
}

/// Runs one tick: `elapsed_ms` milliseconds have passed since the previous
/// one, and `pressed` says whether the accelerate key went down. Says
/// whether the timer expired, that is whether the sprite moved one frame on.
pub fn animate_sprite(
    sprite: &mut AnimatedSprite,
    scoreboard: &mut Scoreboard,
    elapsed_ms: u64,
    pressed: bool,
) -> (expired: bool)
    ensures
        play_of(*final(sprite), *final(scoreboard)) == play_of(
            *old(sprite),
            *old(scoreboard),
        ).ticked(Tick { elapsed_ms, pressed }),
        expired == final(sprite)@.timer.just_expired,
        final(scoreboard).score >= old(scoreboard).score,
{
    let rested: bool = sprite.timer.adjust(pressed);
    if rested {
        sprite.frames.rewind();
    }
    scoreboard.record(&sprite.timer);
    let expired: bool = sprite.timer.advance(elapsed_ms);
    if expired {
        sprite.frames.step();
    }
    expired
}

/// Runs the ticks of `ticks`, in their order.
pub fn replay(sprite: &mut AnimatedSprite, scoreboard: &mut Scoreboard, ticks: &Vec<Tick>)
    ensures
        play_of(*final(sprite), *final(scoreboard)) == play_of(
            *old(sprite),
            *old(scoreboard),
        ).played(ticks@),
{
    let mut done: usize = 0;
    while done < ticks.len()
        invariant
            done <= ticks.len(),
            play_of(*sprite, *scoreboard) == play_of(*old(sprite), *old(scoreboard)).played(
                ticks@.take(done as int),
            ),
        decreases ticks.len() - done,
    {
        let tick: Tick = ticks[done];
        animate_sprite(sprite, scoreboard, tick.elapsed_ms, tick.pressed);
        proof {
            assert(ticks@.take(done + 1).drop_last() == ticks@.take(done as int));
        }
        done = done + 1;
    }
    proof {
        assert(ticks@.take(done as int) == ticks@);
    }
}

} // verus!
