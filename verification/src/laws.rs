//! What holds of the animation over whole runs of ticks.

use vstd::prelude::*;
use crate::rate::{
    decayed_by, next_interval, next_paused, DECREASE_STEP_MS, INCREASE_STEP_MS, MAX_INTERVAL_MS,
    MIN_INTERVAL_MS,
};
use crate::frames::FramesModel;
use crate::sprite::{PlayModel, Tick};
use crate::timer::TimerModel;

verus! {

/// Playing one tick more is playing the ticks before it and then that tick.
pub proof fn lemma_played_one_more(play: PlayModel, ticks: Seq<Tick>, done: int)
    requires
        0 <= done < ticks.len(),
    ensures
        play.played(ticks.take(done + 1)) == play.played(ticks.take(done)).ticked(ticks[done]),
{
    assert(ticks.take(done + 1).drop_last() == ticks.take(done));
}

/// A tick keeps a well-formed play well formed: the interval stays between
/// one millisecond and the cap, and the frame on show stays in the cycle.
pub proof fn lemma_tick_keeps_wf(play: PlayModel, tick: Tick)
    requires
        play.wf(),
    ensures
        play.ticked(tick).wf(),
        play.ticked(tick).sprite.frames.first == play.sprite.frames.first,
        play.ticked(tick).sprite.frames.last == play.sprite.frames.last,
{
    let timer = play.sprite.timer.adjusted(tick.pressed);
    if timer.expires(tick.elapsed_ms as nat) {
        vstd::arithmetic::div_mod::lemma_mod_bound(
            (timer.elapsed + tick.elapsed_ms) as int,
            timer.interval as int,
        );
    }
}

/// After every tick of every run, whatever the keys do, the interval lies
/// between one millisecond and the cap, and the frame on show lies in the
/// cycle that the sprite was set up with.
pub proof fn lemma_run_keeps_wf(play: PlayModel, ticks: Seq<Tick>)
    requires
        play.wf(),
    ensures
        forall|done: int|
            0 <= done <= ticks.len() ==> {
                let then = #[trigger] play.played(ticks.take(done));
                &&& then.wf()
                &&& then.sprite.frames.first == play.sprite.frames.first
                &&& then.sprite.frames.last == play.sprite.frames.last
            },
{
    assert forall|done: int| 0 <= done <= ticks.len() implies {
        let then = #[trigger] play.played(ticks.take(done));
        &&& then.wf()
        &&& then.sprite.frames.first == play.sprite.frames.first
        &&& then.sprite.frames.last == play.sprite.frames.last
    } by {
        lemma_wf_after(play, ticks, done);
    }
}

proof fn lemma_wf_after(play: PlayModel, ticks: Seq<Tick>, done: int)
    requires
        play.wf(),
        0 <= done <= ticks.len(),
    ensures
        play.played(ticks.take(done)).wf(),
        play.played(ticks.take(done)).sprite.frames.first == play.sprite.frames.first,
        play.played(ticks.take(done)).sprite.frames.last == play.sprite.frames.last,
    decreases done,
{
    if done > 0 {
        lemma_wf_after(play, ticks, done - 1);
        lemma_played_one_more(play, ticks, done - 1);
    }
}

/// Whether no key press of `ticks` comes while the interval is below two
/// steps, in the run that starts at `play`.
pub open spec fn presses_leave_floor(play: PlayModel, ticks: Seq<Tick>) -> bool {
    forall|at: int|
        0 <= at < ticks.len() && ticks[at].pressed ==> (#[trigger] play.played(
            ticks.take(at),
        )).sprite.timer.interval >= 2 * DECREASE_STEP_MS
}

/// In a run that starts at an interval of at least one step, and in which no
/// key press comes while the interval is below two steps, the interval lies
/// between the floor of one step and a millisecond and the cap after every
/// tick.
pub proof fn lemma_run_keeps_floor(play: PlayModel, ticks: Seq<Tick>)
    requires
        play.wf(),
        play.sprite.timer.interval >= DECREASE_STEP_MS,
        presses_leave_floor(play, ticks),
    ensures
        forall|done: int|
            0 < done <= ticks.len() ==> MIN_INTERVAL_MS <= (#[trigger] play.played(
                ticks.take(done),
            )).sprite.timer.interval <= MAX_INTERVAL_MS,
{
    assert forall|done: int| 0 < done <= ticks.len() implies MIN_INTERVAL_MS <= (#[trigger] play.played(
        ticks.take(done),
    )).sprite.timer.interval <= MAX_INTERVAL_MS by {
        lemma_floor_after(play, ticks, done);
    }
}

proof fn lemma_floor_after(play: PlayModel, ticks: Seq<Tick>, done: int)
    requires
        play.wf(),
        play.sprite.timer.interval >= DECREASE_STEP_MS,
        presses_leave_floor(play, ticks),
        0 <= done <= ticks.len(),
    ensures
        DECREASE_STEP_MS <= play.played(ticks.take(done)).sprite.timer.interval <= MAX_INTERVAL_MS,
        done > 0 ==> MIN_INTERVAL_MS <= play.played(ticks.take(done)).sprite.timer.interval,
    decreases done,
{
    if done > 0 {
        lemma_floor_after(play, ticks, done - 1);
        lemma_played_one_more(play, ticks, done - 1);
    }
}

/// A key press in a tick that starts at an interval of at least the floor
/// and below two steps takes the interval below the floor.
pub proof fn lemma_low_press_breaks_floor(interval: nat)
    requires
        MIN_INTERVAL_MS <= interval < 2 * DECREASE_STEP_MS,
    ensures
        1 <= next_interval(interval, true) < MIN_INTERVAL_MS,
{
}

/// A key press in a tick whose drifted interval is no more than one step
/// does nothing: the tick ends as it ends without the press.
pub proof fn lemma_press_at_floor_does_nothing(play: PlayModel, elapsed_ms: u64)
    requires
        play.sprite.timer.interval + INCREASE_STEP_MS <= DECREASE_STEP_MS,
    ensures
        play.ticked(Tick { elapsed_ms, pressed: true }) == play.ticked(
            Tick { elapsed_ms, pressed: false },
        ),
        next_interval(play.sprite.timer.interval, true) == play.sprite.timer.interval
            + INCREASE_STEP_MS,
        next_paused(play.sprite.timer.paused, play.sprite.timer.interval, true)
            == play.sprite.timer.paused,
{
}

/// The score never falls: after each tick of a run it is at least what it
/// was before that tick, and so at least what the run started with.
pub proof fn lemma_score_never_falls(play: PlayModel, ticks: Seq<Tick>)
    ensures
        forall|done: int|
            0 <= done < ticks.len() ==> (#[trigger] play.played(ticks.take(done))).score
                <= play.played(ticks.take(done + 1)).score,
        play.score <= play.played(ticks).score,
{
    assert forall|done: int| 0 <= done < ticks.len() implies (#[trigger] play.played(
        ticks.take(done),
    )).score <= play.played(ticks.take(done + 1)).score by {
        lemma_played_one_more(play, ticks, done);
    }
    lemma_score_after(play, ticks, ticks.len() as int);
    assert(ticks.take(ticks.len() as int) == ticks);
}

proof fn lemma_score_after(play: PlayModel, ticks: Seq<Tick>, done: int)
    requires
        0 <= done <= ticks.len(),
    ensures
        play.score <= play.played(ticks.take(done)).score,
    decreases done,
{
    if done > 0 {
        lemma_score_after(play, ticks, done - 1);
        lemma_played_one_more(play, ticks, done - 1);
    }
}

/// Whether no tick of `ticks` has a key press.
pub open spec fn no_presses(ticks: Seq<Tick>) -> bool {
    forall|at: int| 0 <= at < ticks.len() ==> !(#[trigger] ticks[at]).pressed
}

/// Left alone, the interval drifts up by one step of growth in each tick
/// until it reaches the cap, and stays there.
pub proof fn lemma_decay_is_linear(play: PlayModel, ticks: Seq<Tick>)
    requires
        play.wf(),
        no_presses(ticks),
    ensures
        play.played(ticks).sprite.timer.interval == decayed_by(
            play.sprite.timer.interval,
            ticks.len(),
        ),
    decreases ticks.len(),
{
    if ticks.len() > 0 {
        assert(no_presses(ticks.drop_last()));
        lemma_decay_is_linear(play, ticks.drop_last());
    }
}

/// Left alone for at least one tick and for as many ticks as the interval
/// is short of the cap, the sprite comes to rest: the interval is at the
/// cap, the timer is paused, and the first frame is on show. However long
/// it is left alone after that, it stays so.
pub proof fn lemma_decay_reaches_rest(play: PlayModel, ticks: Seq<Tick>)
    requires
        play.wf(),
        no_presses(ticks),
        ticks.len() >= 1,
        play.sprite.timer.interval + INCREASE_STEP_MS * ticks.len() >= MAX_INTERVAL_MS,
    ensures
        play.played(ticks).sprite.at_rest(),
{
    assert(no_presses(ticks.drop_last()));
    lemma_decay_is_linear(play, ticks.drop_last());
}

/// Rest is a fixed point: a tick without a key press leaves a sprite at rest
/// at rest, on the same frame, with the same score, whatever time passes
/// and without the timer expiring.
pub proof fn lemma_rest_is_stable(play: PlayModel, elapsed_ms: u64)
    requires
        play.wf(),
        play.sprite.at_rest(),
    ensures
        ({
            let then = play.ticked(Tick { elapsed_ms, pressed: false });
            &&& then.sprite.at_rest()
            &&& then.sprite.frames == play.sprite.frames
            &&& then.score == play.score
            &&& !then.sprite.timer.just_expired
        }),
{
}

/// Counting one further moves a remainder one up, or from its top back to
/// nought.
proof fn lemma_mod_one_more(count: int, per: int)
    requires
        0 <= count,
        0 < per,
    ensures
        (count + 1) % per == if count % per == per - 1 {
            0
        } else {
            count % per + 1
        },
{
    let left = count % per;
    vstd::arithmetic::div_mod::lemma_add_mod_noop_right(1, count, per);
    if left == per - 1 {
        vstd::arithmetic::div_mod::lemma_mod_self_0(per);
    } else {
        vstd::arithmetic::div_mod::lemma_small_mod((left + 1) as nat, per as nat);
    }
}

/// From the start of its cycle the sprite shows the frames in their order
/// and begins again after the last: after any number of steps the frame on
/// show is the first frame plus the number of steps, taken modulo the
/// length of the cycle.
pub proof fn lemma_frames_cycle(frames: FramesModel, steps: nat)
    requires
        frames.wf(),
        frames.current == frames.first,
    ensures
        frames.stepped_by(steps).first == frames.first,
        frames.stepped_by(steps).last == frames.last,
        frames.stepped_by(steps).current == frames.first + steps % frames.len(),
        frames.stepped_by(steps).wf(),
    decreases steps,
{
    if steps > 0 {
        lemma_frames_cycle(frames, (steps - 1) as nat);
        lemma_mod_one_more(steps - 1, frames.len() as int);
    }
}

/// A running timer loses no time: after one or more advances by `step`
/// milliseconds, what it has counted is all the time that has passed,
/// taken modulo the interval.
pub proof fn lemma_no_time_lost(timer: TimerModel, step: nat, ticks: nat)
    requires
        timer.wf(),
        !timer.paused,
        ticks >= 1,
    ensures
        timer.advanced_by(step, ticks).elapsed == (timer.elapsed + ticks * step)
            % timer.interval,
        timer.advanced_by(step, ticks).interval == timer.interval,
        !timer.advanced_by(step, ticks).paused,
    decreases ticks,
{
    let per = timer.interval as int;
    if ticks == 1 {
        reveal_with_fuel(TimerModel::advanced_by, 2);
        if !timer.expires(step) {
            vstd::arithmetic::div_mod::lemma_small_mod(timer.elapsed + step, per as nat);
        }
    } else {
        lemma_no_time_lost(timer, step, (ticks - 1) as nat);
        let before = timer.advanced_by(step, (ticks - 1) as nat);
        let passed = timer.elapsed + (ticks - 1) * step;
        assert(passed + step == timer.elapsed + ticks * step) by (nonlinear_arith)
            requires
                passed == timer.elapsed + (ticks - 1) * step,
        ;
        vstd::arithmetic::div_mod::lemma_add_mod_noop_right(step as int, passed, per);
        if !before.expires(step) {
            vstd::arithmetic::div_mod::lemma_small_mod(before.elapsed + step, per as nat);
        }
    }
}

/// A running timer that starts with nothing counted, and whose interval is
/// `per` steps of `step` milliseconds, expires in every `per`-th advance by
/// `step` and in no other; between two expiries it counts the steps.
pub proof fn lemma_expires_every_nth(timer: TimerModel, step: nat, per: nat, ticks: nat)
    requires
        timer.wf(),
        !timer.paused,
        timer.elapsed == 0,
        step > 0,
        timer.interval == per * step,
    ensures
        timer.advanced_by(step, ticks).elapsed == (ticks % per) * step,
        ticks >= 1 ==> (timer.advanced_by(step, ticks).just_expired <==> ticks % per == 0),
        timer.advanced_by(step, ticks).interval == timer.interval,
        !timer.advanced_by(step, ticks).paused,
    decreases ticks,
{
    assert(per > 0) by (nonlinear_arith)
        requires
            per * step > 0,
            step > 0,
    ;
    if ticks > 0 {
        let before = timer.advanced_by(step, (ticks - 1) as nat);
        lemma_expires_every_nth(timer, step, per, (ticks - 1) as nat);
        lemma_mod_one_more(ticks - 1, per as int);
        let left = (ticks - 1) % (per as int);
        assert(before.elapsed + step == (left + 1) * step) by (nonlinear_arith)
            requires
                before.elapsed == left * step,
        ;
        if left == per - 1 {
            assert(0 * step == 0) by (nonlinear_arith);
        } else {
            assert((left + 1) * step < per * step) by (nonlinear_arith)
                requires
                    left + 1 < per,
                    step > 0,
            ;
        }
    }
}

} // verus!
