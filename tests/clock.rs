use cubegen::clock::Clock;
use cubegen::timer::Timer;

#[test]
fn new_clock_is_stopped_at_zero() {
    let c = Clock::new();
    assert!(!c.is_running());
    assert_eq!(c.elapsed(0), 0);
    assert_eq!(c.elapsed(5_000), 0);
}

#[test]
fn running_clock_reports_live_span() {
    let mut c = Clock::new();
    c.start(100);
    assert!(c.is_running());
    assert_eq!(c.elapsed(150), 50);
    assert_eq!(c.elapsed(400), 300);
}

#[test]
fn elapsed_never_decreases_while_running() {
    let mut c = Clock::new();
    c.start(10);
    let mut last = 0;
    for now in [10u64, 11, 50, 50, 900, 10_000] {
        let e = c.elapsed(now);
        assert!(e >= last);
        last = e;
    }
}

#[test]
fn elapsed_before_start_instant_is_zero() {
    let mut c = Clock::new();
    c.start(1_000);
    assert_eq!(c.elapsed(500), 0);
}

#[test]
fn second_start_keeps_first_instant() {
    let mut c = Clock::new();
    c.start(100);
    c.start(500);
    assert_eq!(c.elapsed(600), 500);
    assert_eq!(c.stop(700), 600);
}

#[test]
fn stop_freezes_elapsed() {
    let mut c = Clock::new();
    c.start(1_000);
    assert_eq!(c.stop(2_500), 1_500);
    assert!(!c.is_running());
    assert_eq!(c.elapsed(2_500), 1_500);
    assert_eq!(c.elapsed(99_999), 1_500);
}

#[test]
fn stop_on_stopped_clock_returns_frozen_value() {
    let mut c = Clock::new();
    assert_eq!(c.stop(10), 0);
    c.start(10);
    assert_eq!(c.stop(40), 30);
    assert_eq!(c.stop(1_000), 30);
    assert_eq!(c.elapsed(5_000), 30);
    assert!(!c.is_running());
}

#[test]
fn restart_overwrites_frozen_value() {
    let mut c = Clock::new();
    c.start(0);
    assert_eq!(c.stop(100), 100);
    c.start(1_000);
    assert_eq!(c.elapsed(1_010), 10);
    assert_eq!(c.stop(1_020), 20);
    assert_eq!(c.elapsed(2_000), 20);
}

#[test]
fn timer_reports_only_captured_span() {
    let mut t = Timer::new();
    assert_eq!(t.elapsed(), 0);
    t.start(100);
    assert_eq!(t.elapsed(), 0);
    t.start(200);
    t.stop(350);
    assert_eq!(t.elapsed(), 250);
    t.stop(900);
    assert_eq!(t.elapsed(), 250);
    t.start(1_000);
    t.stop(1_004);
    assert_eq!(t.elapsed(), 4);
}
