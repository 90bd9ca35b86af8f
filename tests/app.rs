use cubegen::app::{App, Outcome};
use cubegen::config::{AppConfig, TimerConfig};
use cubegen::event::{Event, MouseInput};
use cubegen::input::{KeyChord, KeyCode, KeyKind, Modifiers};

const SEC: u64 = 1_000_000_000;

fn config(use_key_release: bool) -> AppConfig {
    AppConfig {
        tick_period: SEC / 4,
        timer: TimerConfig {
            use_key_release,
            freeze_time: SEC / 2,
            display_decimal_points: 2,
        },
    }
}

fn key(c: char, kind: KeyKind) -> Event {
    let none = Modifiers { shift: false, ctrl: false, alt: false, super_key: false, hyper: false, meta: false };
    Event::Key(KeyChord::new(KeyCode::Char(c), none, kind))
}

/// Pulls timed events in order while the application runs, as the loop does.
fn run(app: &mut App, events: Vec<(Event, u64)>) -> (Result<(), String>, usize) {
    let mut handled = 0;
    for (event, now) in events {
        if !app.is_running() {
            break;
        }
        handled += 1;
        if let Err(e) = app.handle_event(event, now) {
            return (Err(e), handled);
        }
    }
    (Ok(()), handled)
}

fn texts(app: &App, now: u64) -> Vec<String> {
    app.draw(now).into_iter().map(|r| r.unwrap()).collect()
}

#[test]
fn new_app_is_stopped_until_started() {
    let mut app = App::new(config(false));
    assert!(!app.is_running());
    app.start();
    assert!(app.is_running());
    assert_eq!(app.config(), config(false));
    assert_eq!(texts(&app, 0), vec!["0.00".to_string()]);
}

#[test]
fn tick_asks_for_redraw_and_time_is_live() {
    let mut app = App::new(config(false));
    app.start();
    assert_eq!(app.handle_event(key(' ', KeyKind::Press), 0), Ok(Outcome::Continue));
    assert_eq!(app.handle_event(Event::Tick, 3 * SEC / 2), Ok(Outcome::Redraw));
    assert_eq!(texts(&app, 3 * SEC / 2), vec!["1.50".to_string()]);
    assert_eq!(app.handle_event(key(' ', KeyKind::Press), 3 * SEC / 2), Ok(Outcome::Continue));
    assert_eq!(app.handle_event(Event::Tick, 3 * SEC), Ok(Outcome::Redraw));
    assert_eq!(texts(&app, 3 * SEC), vec!["1.50".to_string()]);
}

#[test]
fn quit_stops_the_loop_before_pending_error() {
    let mut app = App::new(config(false));
    app.start();
    let events = vec![
        (key(' ', KeyKind::Press), 0),
        (key('q', KeyKind::Press), 10),
        (Event::Error("Could not draw component: broken".to_string()), 20),
        (Event::Tick, 30),
    ];
    let (result, handled) = run(&mut app, events);
    assert_eq!(result, Ok(()));
    assert_eq!(handled, 2);
    assert!(!app.is_running());
}

#[test]
fn error_event_ends_the_loop_with_its_cause() {
    let mut app = App::new(config(false));
    app.start();
    let events = vec![
        (Event::Error("Could not draw component: broken".to_string()), 0),
        (key('q', KeyKind::Press), 10),
    ];
    let (result, handled) = run(&mut app, events);
    assert_eq!(result, Err("Could not draw component: broken".to_string()));
    assert_eq!(handled, 1);
}

#[test]
fn quit_reaches_no_component() {
    let mut app = App::new(config(false));
    app.start();
    app.handle_event(key(' ', KeyKind::Press), 0).unwrap();
    assert_eq!(app.handle_event(key('q', KeyKind::Press), SEC), Ok(Outcome::Continue));
    assert!(!app.is_running());
    assert_eq!(texts(&app, 2 * SEC), vec!["2.00".to_string()]);
}

#[test]
fn mouse_resize_and_unbound_keys_change_nothing() {
    let mut app = App::new(config(false));
    app.start();
    let mouse = Event::Mouse(MouseInput { column: 3, row: 4 });
    assert_eq!(app.handle_event(mouse, 5), Ok(Outcome::Continue));
    assert_eq!(app.handle_event(Event::Resize(80, 24), 6), Ok(Outcome::Continue));
    assert_eq!(app.handle_event(key('z', KeyKind::Press), 7), Ok(Outcome::Continue));
    assert!(app.is_running());
    assert_eq!(texts(&app, SEC), vec!["0.00".to_string()]);
}

#[test]
fn hold_to_start_through_the_app() {
    let mut app = App::new(config(true));
    app.start();
    app.handle_event(key(' ', KeyKind::Press), 0).unwrap();
    app.handle_event(key(' ', KeyKind::Release), SEC / 4).unwrap();
    assert_eq!(texts(&app, SEC), vec!["0.00".to_string()]);
    app.handle_event(key(' ', KeyKind::Press), SEC / 4).unwrap();
    app.handle_event(key(' ', KeyKind::Release), SEC).unwrap();
    assert_eq!(texts(&app, 2 * SEC), vec!["1.00".to_string()]);
}
