use hamster_wheel::score::Scoreboard;
use hamster_wheel::timer::RateTimer;

fn score_after(prior: u64, interval: u64) -> u64 {
    let timer = RateTimer::with_interval(interval).unwrap();
    let mut board = Scoreboard { score: prior };
    board.record(&timer);
    board.score
}

#[test]
fn new_scoreboard_is_at_zero() {
    assert_eq!(Scoreboard::new().score, 0);
}

#[test]
fn score_value_scenario() {
    assert_eq!(score_after(0, 200), 5);
    assert_eq!(score_after(3, 200), 5);
    assert_eq!(score_after(7, 200), 7);
}

#[test]
fn score_is_whole_intervals_per_second() {
    assert_eq!(score_after(0, 1), 1000);
    assert_eq!(score_after(0, 3), 333);
    assert_eq!(score_after(0, 41), 24);
    assert_eq!(score_after(0, 760), 1);
    assert_eq!(score_after(0, 799), 1);
    assert_eq!(score_after(0, 501), 1);
    assert_eq!(score_after(0, 500), 2);
}

#[test]
fn equal_worth_leaves_the_score() {
    assert_eq!(score_after(5, 200), 5);
}

#[test]
fn rest_interval_does_not_score() {
    assert_eq!(score_after(0, 800), 0);
}

#[test]
fn record_does_not_touch_the_timer() {
    let timer = RateTimer::with_interval(200).unwrap();
    let mut board = Scoreboard::new();
    board.record(&timer);
    assert_eq!(timer.interval(), 200);
    assert_eq!(timer.elapsed(), 0);
    assert_eq!(board.score, 5);
}
