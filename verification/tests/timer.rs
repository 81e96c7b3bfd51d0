use hamster_wheel::rate::{DECREASE_STEP_MS, INCREASE_STEP_MS, MAX_INTERVAL_MS, MIN_INTERVAL_MS};
use hamster_wheel::timer::RateTimer;

fn timer_at(interval: u64) -> RateTimer {
    RateTimer::with_interval(interval).unwrap()
}

#[test]
fn constants_have_their_values() {
    assert_eq!(MAX_INTERVAL_MS, 800);
    assert_eq!(DECREASE_STEP_MS, 40);
    assert_eq!(INCREASE_STEP_MS, 1);
    assert_eq!(MIN_INTERVAL_MS, 41);
}

#[test]
fn fresh_timer_runs_at_rest_interval() {
    let timer = RateTimer::new();
    assert_eq!(timer.interval(), 800);
    assert_eq!(timer.elapsed(), 0);
    assert!(!timer.paused());
    assert!(!timer.just_expired());
}

#[test]
fn with_interval_takes_one_to_cap_only() {
    assert!(RateTimer::with_interval(0).is_none());
    assert!(RateTimer::with_interval(801).is_none());
    assert!(RateTimer::with_interval(u64::MAX).is_none());
    assert_eq!(timer_at(1).interval(), 1);
    assert_eq!(timer_at(800).interval(), 800);
    let timer = timer_at(123);
    assert_eq!(timer.elapsed(), 0);
    assert!(!timer.paused());
    assert!(!timer.just_expired());
}

#[test]
fn decay_adds_one_millisecond() {
    let mut timer = timer_at(500);
    let rested = timer.adjust(false);
    assert!(!rested);
    assert_eq!(timer.interval(), 501);
    assert!(!timer.paused());
}

#[test]
fn decay_caps_and_pauses_at_rest() {
    let mut timer = timer_at(798);
    assert!(!timer.adjust(false));
    assert_eq!(timer.interval(), 799);
    assert!(!timer.paused());
    assert!(timer.adjust(false));
    assert_eq!(timer.interval(), 800);
    assert!(timer.paused());
    assert!(timer.adjust(false));
    assert_eq!(timer.interval(), 800);
    assert!(timer.paused());
}

#[test]
fn press_cuts_one_step_after_the_drift() {
    let mut timer = timer_at(200);
    let rested = timer.adjust(true);
    assert!(!rested);
    assert_eq!(timer.interval(), 161);
    assert!(!timer.paused());
}

#[test]
fn press_in_the_resting_tick_unpauses_at_once() {
    let mut timer = timer_at(800);
    assert!(timer.adjust(false));
    assert!(timer.paused());
    let rested = timer.adjust(true);
    assert!(rested);
    assert_eq!(timer.interval(), 760);
    assert!(!timer.paused());
}

#[test]
fn paused_flag_stays_without_rest_or_press() {
    let mut timer = timer_at(800);
    timer.adjust(true);
    assert!(!timer.paused());
    timer.adjust(false);
    assert_eq!(timer.interval(), 761);
    assert!(!timer.paused());
}

#[test]
fn acceleration_floor() {
    let mut timer = timer_at(41);
    timer.adjust(true);
    assert_eq!(timer.interval(), 2);
    timer.adjust(true);
    assert_eq!(timer.interval(), 3);
    timer.adjust(true);
    assert_eq!(timer.interval(), 4);
}

#[test]
fn press_needs_more_than_one_step_after_the_drift() {
    let mut below = timer_at(39);
    below.adjust(true);
    assert_eq!(below.interval(), 40);
    let mut at = timer_at(40);
    at.adjust(true);
    assert_eq!(at.interval(), 1);
}

#[test]
fn press_at_floor_leaves_paused_flag_alone() {
    let mut timer = timer_at(10);
    timer.adjust(true);
    assert_eq!(timer.interval(), 11);
    assert!(!timer.paused());
}

#[test]
fn expiry_timing() {
    let mut timer = timer_at(100);
    let mut fired: Vec<u32> = Vec::new();
    for tick in 1..=50u32 {
        let expired = timer.advance(10);
        assert_eq!(expired, timer.just_expired());
        if expired {
            fired.push(tick);
            assert_eq!(timer.elapsed(), 0);
        }
    }
    assert_eq!(fired, vec![10, 20, 30, 40, 50]);
    assert_eq!(timer.interval(), 100);
}

#[test]
fn expiry_keeps_the_time_left_over() {
    let mut timer = timer_at(100);
    assert!(!timer.advance(90));
    assert_eq!(timer.elapsed(), 90);
    assert!(timer.advance(25));
    assert_eq!(timer.elapsed(), 15);
    assert!(!timer.advance(84));
    assert_eq!(timer.elapsed(), 99);
    assert!(timer.advance(1));
    assert_eq!(timer.elapsed(), 0);
}

#[test]
fn uneven_steps_do_not_drift() {
    let mut timer = timer_at(100);
    let mut fired: u64 = 0;
    for _ in 0..1000 {
        if timer.advance(7) {
            fired += 1;
        }
    }
    assert_eq!(fired, 70);
    assert_eq!(timer.elapsed(), 0);
}

#[test]
fn long_frame_expires_once() {
    let mut timer = timer_at(100);
    assert!(timer.advance(250));
    assert_eq!(timer.elapsed(), 50);
    assert!(timer.just_expired());
    assert!(!timer.advance(10));
    assert!(!timer.just_expired());
}

#[test]
fn advance_by_nothing_expires_only_when_due() {
    let mut timer = timer_at(5);
    assert!(!timer.advance(0));
    assert!(timer.advance(5));
    assert_eq!(timer.elapsed(), 0);
    assert!(!timer.advance(0));
}

#[test]
fn huge_elapsed_time_is_counted_exactly() {
    let mut timer = timer_at(7);
    assert!(!timer.advance(6));
    assert!(timer.advance(u64::MAX));
    let counted: u128 = 6 + u64::MAX as u128;
    assert_eq!(timer.elapsed() as u128, counted % 7);
}

#[test]
fn paused_timer_counts_but_does_not_expire() {
    let mut timer = timer_at(799);
    timer.adjust(false);
    assert!(timer.paused());
    assert!(!timer.advance(500));
    assert!(!timer.advance(500));
    assert!(!timer.just_expired());
    assert_eq!(timer.elapsed(), 1000);
    assert_eq!(timer.interval(), 800);
}

#[test]
fn paused_timer_stops_counting_at_the_cap() {
    let mut timer = timer_at(800);
    timer.adjust(false);
    assert!(!timer.advance(u64::MAX - 3));
    assert_eq!(timer.elapsed(), u64::MAX - 3);
    assert!(!timer.advance(3));
    assert_eq!(timer.elapsed(), u64::MAX);
    assert!(!timer.advance(10));
    assert_eq!(timer.elapsed(), u64::MAX);
}

#[test]
fn time_counted_while_paused_expires_after_the_press() {
    let mut timer = timer_at(800);
    timer.adjust(false);
    assert!(!timer.advance(1000));
    timer.adjust(true);
    assert_eq!(timer.interval(), 760);
    assert!(timer.advance(20));
    assert_eq!(timer.elapsed(), 260);
}
