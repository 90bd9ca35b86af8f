use cubegen::app::AppContext;
use cubegen::components::component::Component;
use cubegen::components::timer::TimerComponent;
use cubegen::config::{AppConfig, TimerConfig};
use cubegen::input::{Action, ActionMap};

const SEC: u64 = 1_000_000_000;

fn context(use_key_release: bool, freeze_time: u64, digits: usize) -> AppContext {
    AppContext {
        config: AppConfig {
            tick_period: SEC / 4,
            timer: TimerConfig { use_key_release, freeze_time, display_decimal_points: digits },
        },
        action_map: ActionMap::default(),
    }
}

#[test]
fn toggle_starts_then_stops_and_keeps_result() {
    let ctx = context(false, 0, 2);
    let mut t = TimerComponent::new();
    assert_eq!(t.draw(&ctx, 0).unwrap(), "0.00");
    t.handle_action(Action::TimerToggle, &ctx, 0).unwrap();
    assert!(t.is_running());
    t.update(&ctx, 3 * SEC / 2).unwrap();
    assert_eq!(t.draw(&ctx, 3 * SEC / 2).unwrap(), "1.50");
    t.handle_action(Action::TimerToggle, &ctx, 3 * SEC / 2).unwrap();
    assert!(!t.is_running());
    assert_eq!(t.shown_nanos(3 * SEC / 2), 3 * SEC / 2);
    t.update(&ctx, 3 * SEC).unwrap();
    assert_eq!(t.draw(&ctx, 3 * SEC).unwrap(), "1.50");
    assert_eq!(t.draw(&ctx, 10 * SEC).unwrap(), "1.50");
}

#[test]
fn toggle_with_nothing_elapsed_keeps_running() {
    let ctx = context(false, 0, 2);
    let mut t = TimerComponent::new();
    t.handle_action(Action::TimerToggle, &ctx, 500).unwrap();
    t.handle_action(Action::TimerToggle, &ctx, 500).unwrap();
    assert!(t.is_running());
    t.handle_action(Action::TimerToggle, &ctx, 501).unwrap();
    assert!(!t.is_running());
    assert_eq!(t.shown_nanos(9_999), 1);
}

#[test]
fn toggle_again_starts_a_new_solve() {
    let ctx = context(false, 0, 1);
    let mut t = TimerComponent::new();
    t.handle_action(Action::TimerToggle, &ctx, 0).unwrap();
    t.handle_action(Action::TimerToggle, &ctx, 2 * SEC).unwrap();
    t.handle_action(Action::TimerToggle, &ctx, 5 * SEC).unwrap();
    assert!(t.is_running());
    assert_eq!(t.draw(&ctx, 6 * SEC).unwrap(), "1.0");
}

#[test]
fn hold_to_start_waits_for_freeze_time() {
    let ctx = context(true, SEC / 2, 2);
    let mut t = TimerComponent::new();
    t.handle_action(Action::TimerToggle, &ctx, 0).unwrap();
    assert!(!t.is_running());
    t.handle_action(Action::TimerStartRelease, &ctx, 3 * SEC / 10).unwrap();
    assert!(!t.is_running());
    t.handle_action(Action::TimerStartRelease, &ctx, 6 * SEC / 10).unwrap();
    assert!(t.is_running());
    assert_eq!(t.draw(&ctx, 16 * SEC / 10).unwrap(), "1.00");
    t.handle_action(Action::TimerToggle, &ctx, 26 * SEC / 10).unwrap();
    assert!(!t.is_running());
    t.handle_action(Action::TimerStartRelease, &ctx, 27 * SEC / 10).unwrap();
    assert!(!t.is_running());
    assert_eq!(t.draw(&ctx, 30 * SEC).unwrap(), "2.00");
}

#[test]
fn release_without_hold_does_not_start() {
    let ctx = context(true, 0, 2);
    let mut t = TimerComponent::new();
    t.handle_action(Action::TimerStartRelease, &ctx, SEC).unwrap();
    assert!(!t.is_running());
}

#[test]
fn release_action_ignored_outside_hold_mode() {
    let ctx = context(false, 0, 2);
    let mut t = TimerComponent::new();
    t.handle_action(Action::TimerStartRelease, &ctx, SEC).unwrap();
    assert!(!t.is_running());
    t.handle_action(Action::Left, &ctx, SEC).unwrap();
    assert!(!t.is_running());
}
