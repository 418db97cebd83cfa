use hand_cannon::timer::{Timer, TimerMode};
use std::time::Duration;

const SECOND: u64 = 1_000_000_000;

#[test]
fn new_timer_has_not_run() {
    let timer = Timer::new(10 * SECOND, TimerMode::Once);
    assert_eq!(timer.duration, 10 * SECOND);
    assert_eq!(timer.elapsed, 0);
    assert_eq!(timer.mode, TimerMode::Once);
    assert!(!timer.finished());
    assert!(!timer.just_finished());
    assert_eq!(timer.times_finished_this_tick, 0);
}

#[test]
fn once_timer_counts_up_short_of_its_duration() {
    let mut timer = Timer::new(10 * SECOND, TimerMode::Once);
    timer.tick(SECOND / 4);
    assert_eq!(timer.elapsed, 250_000_000);
    assert!(!timer.finished());
    assert!(!timer.just_finished());
    assert_eq!(timer.times_finished_this_tick, 0);
}

#[test]
fn once_timer_stops_at_its_duration() {
    let mut timer = Timer::new(10 * SECOND, TimerMode::Once);
    timer.tick(SECOND / 4);
    timer.tick(500 * SECOND);
    assert_eq!(timer.elapsed, 10 * SECOND);
    assert!(timer.finished());
    assert!(timer.just_finished());
    assert_eq!(timer.times_finished_this_tick, 1);
}

#[test]
fn once_timer_fires_on_the_exact_duration() {
    let mut timer = Timer::new(10, TimerMode::Once);
    timer.tick(9);
    assert!(!timer.just_finished());
    timer.tick(1);
    assert!(timer.just_finished());
    assert_eq!(timer.elapsed, 10);
}

#[test]
fn spent_timer_does_not_fire_again() {
    let mut timer = Timer::new(SECOND, TimerMode::Once);
    timer.tick(2 * SECOND);
    assert!(timer.just_finished());
    timer.tick(SECOND);
    assert_eq!(timer.elapsed, SECOND);
    assert!(timer.finished());
    assert!(!timer.just_finished());
    assert_eq!(timer.times_finished_this_tick, 0);
    timer.tick(0);
    assert!(timer.finished());
    assert!(!timer.just_finished());
}

#[test]
fn once_timer_of_no_duration_fires_on_its_first_tick() {
    let mut timer = Timer::new(0, TimerMode::Once);
    assert!(!timer.finished());
    timer.tick(0);
    assert!(timer.finished());
    assert!(timer.just_finished());
    timer.tick(0);
    assert!(!timer.just_finished());
}

#[test]
fn repeating_timer_wraps_around() {
    let mut timer = Timer::new(2 * SECOND, TimerMode::Repeating);
    timer.tick(750_000_000);
    assert_eq!(timer.elapsed, 750_000_000);
    assert!(!timer.finished());
    assert!(!timer.just_finished());
    timer.tick(1_500_000_000);
    assert_eq!(timer.elapsed, 250_000_000);
    assert!(timer.finished());
    assert!(timer.just_finished());
    assert_eq!(timer.times_finished_this_tick, 1);
    timer.tick(SECOND);
    assert_eq!(timer.elapsed, 1_250_000_000);
    assert!(!timer.finished());
    assert!(!timer.just_finished());
    assert_eq!(timer.times_finished_this_tick, 0);
}

#[test]
fn repeating_timer_counts_every_round_of_a_long_tick() {
    let mut timer = Timer::new(SECOND, TimerMode::Repeating);
    timer.tick(3_500_000_000);
    assert_eq!(timer.times_finished_this_tick, 3);
    assert_eq!(timer.elapsed, 500_000_000);
    assert!(timer.finished());
    timer.tick(200_000_000);
    assert_eq!(timer.times_finished_this_tick, 0);
    assert_eq!(timer.elapsed, 700_000_000);
}

#[test]
fn repeating_timer_counts_rounds_precisely() {
    let mut timer = Timer::new(10_000_000, TimerMode::Repeating);
    let delta = 333_000_000;
    timer.tick(delta);
    assert_eq!(timer.times_finished_this_tick, 33);
    timer.tick(delta);
    assert_eq!(timer.times_finished_this_tick, 33);
    timer.tick(delta);
    assert_eq!(timer.times_finished_this_tick, 33);
    timer.tick(delta);
    assert_eq!(timer.times_finished_this_tick, 34);
}

#[test]
fn repeating_timer_of_no_duration_fires_without_end() {
    let mut timer = Timer::new(0, TimerMode::Repeating);
    assert_eq!(timer.times_finished_this_tick, 0);
    timer.tick(SECOND);
    assert_eq!(timer.times_finished_this_tick, u32::MAX);
    assert_eq!(timer.elapsed, 0);
    assert!(timer.finished());
    timer.tick(2 * SECOND);
    assert_eq!(timer.times_finished_this_tick, u32::MAX);
    assert_eq!(timer.elapsed, 0);
}

#[test]
fn repeating_timer_cuts_its_count_to_32_bits() {
    let mut timer = Timer::new(1, TimerMode::Repeating);
    timer.tick(1 << 32);
    assert!(timer.finished());
    assert_eq!(timer.times_finished_this_tick, 0);
    assert!(!timer.just_finished());
    timer.tick((1 << 32) + 5);
    assert_eq!(timer.times_finished_this_tick, 5);
    assert_eq!(timer.elapsed, 0);
}

#[test]
fn timer_takes_the_longest_times() {
    let mut once = Timer::new(u64::MAX, TimerMode::Once);
    once.tick(u64::MAX - 1);
    assert_eq!(once.elapsed, u64::MAX - 1);
    assert!(!once.finished());
    once.tick(u64::MAX);
    assert_eq!(once.elapsed, u64::MAX);
    assert!(once.just_finished());

    let mut repeating = Timer::new(u64::MAX, TimerMode::Repeating);
    repeating.tick(u64::MAX - 1);
    repeating.tick(u64::MAX);
    assert_eq!(repeating.times_finished_this_tick, 1);
    assert_eq!(repeating.elapsed, u64::MAX - 1);
}

fn keeps_step(duration: u64, mode: TimerMode, deltas: &[u64]) {
    let engine_mode = match mode {
        TimerMode::Once => bevy::time::TimerMode::Once,
        TimerMode::Repeating => bevy::time::TimerMode::Repeating,
    };
    let mut engine = bevy::time::Timer::new(Duration::from_nanos(duration), engine_mode);
    let mut timer = Timer::new(duration, mode);
    for &delta in deltas {
        engine.tick(Duration::from_nanos(delta));
        timer.tick(delta);
        assert_eq!(u128::from(timer.elapsed), engine.elapsed().as_nanos());
        assert_eq!(timer.finished(), engine.finished());
        assert_eq!(timer.just_finished(), engine.just_finished());
        assert_eq!(timer.times_finished_this_tick, engine.times_finished_this_tick());
    }
}

#[test]
fn timer_keeps_step_with_the_engine() {
    let mut deltas = Vec::new();
    let mut seed = 0x2545_f491_4f6c_dd1du64;
    for _ in 0..400 {
        seed ^= seed << 13;
        seed ^= seed >> 7;
        seed ^= seed << 17;
        deltas.push(seed % 700);
    }
    deltas.extend([0, 0, 5_000, 0, 1 << 33, 1, u64::MAX, u64::MAX, 0]);
    for duration in [0, 1, 2, 99, 100, 650, 1_000, 250_000, u64::MAX] {
        keeps_step(duration, TimerMode::Once, &deltas);
        keeps_step(duration, TimerMode::Repeating, &deltas);
    }
}
