use std::time::Duration;
use std::time::Instant;
use struggle::timer::Timer;

/// Spins until the clock has moved on by `duration`.
fn wait(duration: Duration) {
    let start = Instant::now();
    while start.elapsed() < duration {
        std::hint::spin_loop();
    }
}

#[test]
fn new_timer_has_no_delta() {
    let timer = Timer::new();
    assert_eq!(timer.delta, 0);
    assert!(!timer.ticked);
}

#[test]
fn first_update_has_no_delta() {
    let mut timer = Timer::new();
    wait(Duration::from_millis(2));
    timer.update();
    assert_eq!(timer.delta, 0);
    assert!(timer.ticked);
}

#[test]
fn later_updates_measure_the_time_between_them() {
    let mut timer = Timer::new();
    timer.update();
    wait(Duration::from_millis(5));
    timer.update();
    assert!(timer.delta >= 5_000_000, "delta {}", timer.delta);
    assert!(timer.delta < 5_000_000_000, "delta {}", timer.delta);
    let first = timer.last_frame;
    timer.update();
    assert!(timer.last_frame >= first);
    assert!(timer.delta < 5_000_000_000);
}

#[test]
fn record_keeps_the_reading_and_the_elapsed_time() {
    let mut timer = Timer::new();
    let now = Instant::now();
    timer.record(now, 123);
    assert_eq!(timer.delta, 0);
    assert_eq!(timer.last_frame, now);
    let later = Instant::now();
    timer.record(later, 16_666_667);
    assert_eq!(timer.delta, 16_666_667);
    assert_eq!(timer.last_frame, later);
}

#[test]
fn record_saturates() {
    let mut timer = Timer::new();
    timer.record(Instant::now(), 0);
    timer.record(Instant::now(), u64::MAX as u128);
    assert_eq!(timer.delta, u64::MAX);
    timer.record(Instant::now(), u64::MAX as u128 + 1);
    assert_eq!(timer.delta, u64::MAX);
    timer.record(Instant::now(), u128::MAX);
    assert_eq!(timer.delta, u64::MAX);
}
