//! A sprite whose animation rate is driven by key presses and decays back to
//! rest, and a score that follows how fast it has run.
//!
//! The host calls [`sprite::animate_sprite`] once per frame with the time
//! that has passed and the state of the accelerate key, then shows the frame
//! and the score that it finds.
//!
//! - [`rate`]: the control law for the frame interval.
//! - [`timer`]: the repeating timer that holds the interval.
//! - [`frames`]: the cycle of frames.
//! - [`score`]: the scoreboard.
//! - [`sprite`]: one animated sprite, a tick, and a run of ticks.
//! - [`laws`]: what holds over whole runs.

pub mod frames;
pub mod laws;
pub mod rate;
pub mod score;
pub mod sprite;
pub mod timer;
