use vstd::prelude::*;
use crate::app::AppContext;
use crate::clock::{Clock, ClockState};
use crate::components::component::Component;
use crate::config::TimerConfig;
use crate::display::{format_seconds, seconds_text};
use crate::event::MouseInput;
use crate::input::Action;

verus! {

/// Abstract state of a [`TimerComponent`].
pub struct TimerView {
    pub clock: ClockState,
    pub release_clock: ClockState,
    pub last_solve_time: u64,
}

/// The timer component's transition on `action` at `now`.
///
/// Toggling while the main clock is stopped starts it, or, in hold-to-start
/// mode, starts the release clock instead. Toggling while it runs, once some
/// time has passed, stops it and records the solve. In hold-to-start mode a
/// release starts the main clock, and stops the release clock, only while the
/// release clock runs, has run for the freeze time, and the main clock is
/// stopped.
pub open spec fn after_action(s: TimerView, action: Action, cfg: TimerConfig, now: u64) -> TimerView {
    match action {
        Action::TimerStartRelease => if cfg.use_key_release && s.release_clock.running
            && s.release_clock.elapsed_at(now) >= cfg.freeze_time && !s.clock.running {
            TimerView {
                clock: s.clock.started(now),
                release_clock: s.release_clock.stopped(now).0,
                ..s
            }
        } else {
            s
        },
        Action::TimerToggle => if !s.clock.running {
            if cfg.use_key_release {
                TimerView { release_clock: s.release_clock.started(now), ..s }
            } else {
                TimerView { clock: s.clock.started(now), ..s }
            }
        } else if s.clock.elapsed_at(now) != 0 {
            TimerView {
                clock: s.clock.stopped(now).0,
                last_solve_time: s.clock.stopped(now).1,
                ..s
            }
        } else {
            s
        },
        _ => s,
    }
}

/// The time shown at `now`: live while the main clock runs, else the last
/// recorded solve.
pub open spec fn shown_time(s: TimerView, now: u64) -> u64 {
    if s.clock.running {
        s.clock.elapsed_at(now)
    } else {
        s.last_solve_time
    }
}

/// Toggling an idle timer starts its clock at `now`; toggling it again once
/// time has passed stops the clock and records the elapsed time, which the
/// display then shows at every later instant.
pub proof fn toggle_records_solve(s: TimerView, cfg: TimerConfig, t_start: u64, t_stop: u64, later: u64)
    requires
        !cfg.use_key_release,
        !s.clock.running,
        t_start < t_stop,
    ensures
        after_action(s, Action::TimerToggle, cfg, t_start).clock.running,
        after_action(s, Action::TimerToggle, cfg, t_start).clock.started_at == t_start,
        ({
            let r = after_action(after_action(s, Action::TimerToggle, cfg, t_start), Action::TimerToggle, cfg, t_stop);
            &&& !r.clock.running
            &&& r.last_solve_time == t_stop - t_start
            &&& shown_time(r, later) == t_stop - t_start
        }),
{
}

/// In hold-to-start mode, toggling an idle timer starts the release clock
/// and not the main clock; a release before the freeze time has passed leaves
/// the main clock stopped; a release after it starts the main clock and stops
/// the release clock.
pub proof fn hold_to_start(s: TimerView, cfg: TimerConfig, t_hold: u64, t_release: u64)
    requires
        cfg.use_key_release,
        !s.clock.running,
        !s.release_clock.running,
        t_hold <= t_release,
    ensures
        ({
            let held = after_action(s, Action::TimerToggle, cfg, t_hold);
            let released = after_action(held, Action::TimerStartRelease, cfg, t_release);
            &&& held.release_clock.running
            &&& !held.clock.running
            &&& t_release - t_hold < cfg.freeze_time ==> !released.clock.running
            &&& t_release - t_hold >= cfg.freeze_time ==> released.clock.running
                && released.clock.started_at == t_release && !released.release_clock.running
        }),
{
}

/// The stopwatch display of a speed-cube timer.
pub struct TimerComponent {
    clock: Clock,
    release_clock: Clock,
    last_solve_time: u64,
}

impl TimerComponent {
    pub closed spec fn view(self) -> TimerView {
        TimerView {
            clock: self.clock.state(),
            release_clock: self.release_clock.state(),
            last_solve_time: self.last_solve_time,
        }
    }

    pub fn new() -> (r: TimerComponent)
        ensures
            r.view().clock == (ClockState { running: false, started_at: 0, frozen: 0 }),
            r.view().release_clock == (ClockState { running: false, started_at: 0, frozen: 0 }),
            r.view().last_solve_time == 0,
    {
        TimerComponent { clock: Clock::new(), release_clock: Clock::new(), last_solve_time: 0 }
    }

    /// Whether the main clock runs.
    pub fn is_running(&self) -> (r: bool)
        ensures
            r == self.view().clock.running,
    {
        self.clock.is_running()
    }

    /// The time shown at `now`, in nanoseconds.
    pub fn shown_nanos(&self, now: u64) -> (r: u64)
        ensures
            r == shown_time(self.view(), now),
    {
        if self.clock.is_running() {
            self.clock.elapsed(now)
        } else {
            self.last_solve_time
        }
    }
}

impl Component for TimerComponent {
    fn update(&mut self, _context: &AppContext, _now: u64) -> (r: Result<(), String>)
        ensures
            final(self).view() == old(self).view(),
            r is Ok,
    {
        Ok(())
    }

    fn handle_mouse_event(&mut self, _event: MouseInput, _context: &AppContext) -> (r: Result<(), String>)
        ensures
            final(self).view() == old(self).view(),
            r is Ok,
    {
        Ok(())
    }

    fn handle_action(&mut self, action: Action, context: &AppContext, now: u64) -> (r: Result<(), String>)
        ensures
            final(self).view() == after_action(old(self).view(), action, context.config.timer, now),
            r is Ok,
    {
        let cfg = context.config.timer;
        match action {
            Action::TimerStartRelease => {
                if cfg.use_key_release && self.release_clock.is_running()
                    && self.release_clock.elapsed(now) >= cfg.freeze_time
                    && !self.clock.is_running() {
                    self.clock.start(now);
                    self.release_clock.stop(now);
                }
            },
            Action::TimerToggle => {
                if !self.clock.is_running() {
                    if cfg.use_key_release {
                        self.release_clock.start(now);
                    } else {
                        self.clock.start(now);
                    }
                } else if self.clock.elapsed(now) != 0 {
                    self.last_solve_time = self.clock.stop(now);
                }
            },
            _ => {},
        }
        Ok(())
    }

    fn draw(&self, context: &AppContext, now: u64) -> (r: Result<String, String>)
        ensures
            r is Ok,
            r->Ok_0@ == seconds_text(
                shown_time(self.view(), now) as nat,
                context.config.timer.display_decimal_points as nat,
            ),
    {
        let time = self.shown_nanos(now);
        Ok(format_seconds(time, context.config.timer.display_decimal_points))
    }
}

} // verus!
