use bevy_pong::systems::spawn_timed_message;
use bevy_pong::timer::{GameTimer, Repeat};

const MS: u64 = 1_000_000;

#[test]
fn fresh_timer_has_nothing_on_the_clock() {
    let timer = GameTimer::new(300 * MS, Repeat::Repeating);
    assert_eq!(timer.duration_nanos(), 300 * MS);
    assert_eq!(timer.elapsed_nanos(), 0);
    assert!(!timer.is_finished());
}

#[test]
fn tick_short_of_the_duration_adds_up() {
    let mut timer = GameTimer::new(300 * MS, Repeat::Repeating);
    assert!(!timer.tick(100 * MS));
    assert_eq!(timer.elapsed_nanos(), 100 * MS);
    assert!(!timer.tick(199 * MS));
    assert_eq!(timer.elapsed_nanos(), 299 * MS);
    assert!(!timer.is_finished());
}

#[test]
fn repeating_timer_wraps_around() {
    let mut timer = GameTimer::new(300 * MS, Repeat::Repeating);
    assert!(!timer.tick(100 * MS));
    assert!(timer.tick(250 * MS));
    assert!(timer.is_finished());
    assert_eq!(timer.elapsed_nanos(), 50 * MS);
    assert!(!timer.tick(100 * MS));
    assert!(!timer.is_finished());
    assert_eq!(timer.elapsed_nanos(), 150 * MS);
}

#[test]
fn repeating_timer_finishes_exactly_at_the_duration() {
    let mut timer = GameTimer::new(300 * MS, Repeat::Repeating);
    assert!(timer.tick(300 * MS));
    assert_eq!(timer.elapsed_nanos(), 0);
}

#[test]
fn repeating_timer_keeps_the_remainder_of_a_long_tick() {
    let mut timer = GameTimer::new(300 * MS, Repeat::Repeating);
    assert!(timer.tick(1000 * MS));
    assert_eq!(timer.elapsed_nanos(), 100 * MS);
}

#[test]
fn one_shot_timer_clamps_and_stays_finished() {
    let mut timer = GameTimer::new(1000 * MS, Repeat::Once);
    assert!(!timer.tick(999 * MS));
    assert!(timer.tick(500 * MS));
    assert_eq!(timer.elapsed_nanos(), 1000 * MS);
    assert!(timer.tick(0));
    assert!(timer.tick(10 * MS));
    assert!(timer.is_finished());
    assert_eq!(timer.elapsed_nanos(), 1000 * MS);
}

#[test]
fn timer_of_no_duration_finishes_on_every_tick() {
    let mut once = GameTimer::new(0, Repeat::Once);
    assert!(!once.is_finished());
    assert!(once.tick(0));
    assert_eq!(once.elapsed_nanos(), 0);

    let mut repeating = GameTimer::new(0, Repeat::Repeating);
    assert!(repeating.tick(5 * MS));
    assert_eq!(repeating.elapsed_nanos(), 0);
}

#[test]
fn timer_takes_the_longest_tick() {
    let mut once = GameTimer::new(u64::MAX, Repeat::Once);
    assert!(!once.tick(u64::MAX - 1));
    assert_eq!(once.elapsed_nanos(), u64::MAX - 1);
    assert!(once.tick(u64::MAX));
    assert_eq!(once.elapsed_nanos(), u64::MAX);

    let mut repeating = GameTimer::new(u64::MAX, Repeat::Repeating);
    assert!(!repeating.tick(u64::MAX - 1));
    assert!(repeating.tick(u64::MAX));
    assert_eq!(repeating.elapsed_nanos(), u64::MAX - 1);
}

#[test]
fn timed_message_carries_text_and_a_fresh_one_shot_timer() {
    let mut message = spawn_timed_message("Must win by 2 points!", 1000 * MS);
    assert_eq!(message.text, "Must win by 2 points!");
    assert_eq!(message.timer.duration_nanos(), 1000 * MS);
    assert_eq!(message.timer.elapsed_nanos(), 0);
    assert!(!message.timer.is_finished());
    assert!(message.timer.tick(1000 * MS));
    assert!(message.timer.tick(1));
}

#[test]
fn will_finish_foretells_the_tick() {
    let cases: [(u64, u64, u64); 9] = [
        (300 * MS, 0, 299 * MS),
        (300 * MS, 0, 300 * MS),
        (300 * MS, 100 * MS, 199 * MS),
        (300 * MS, 100 * MS, 200 * MS),
        (300 * MS, 0, u64::MAX),
        (0, 0, 0),
        (u64::MAX, 0, u64::MAX - 1),
        (u64::MAX, 1, u64::MAX - 1),
        (u64::MAX, u64::MAX - 1, u64::MAX),
    ];
    for (duration, before, delta) in cases {
        for repeat in [Repeat::Once, Repeat::Repeating] {
            let mut timer = GameTimer::new(duration, repeat);
            if before > 0 {
                assert!(!timer.tick(before));
            }
            let foretold = timer.will_finish(delta);
            assert_eq!(foretold, before as u128 + delta as u128 >= duration as u128);
            assert_eq!(timer.tick(delta), foretold);
        }
    }
}
