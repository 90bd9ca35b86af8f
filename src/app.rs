use vstd::prelude::*;
use crate::components::component::Component;
use crate::components::timer::{after_action, shown_time, TimerComponent, TimerView};
use crate::config::AppConfig;
use crate::display::seconds_text;
use crate::event::Event;
use crate::input::{default_bindings, binding_pairs, resolve, Action, ActionMap, KeyChord};

verus! {

/// Read-only context that every component can consult.
pub struct AppContext {
    pub config: AppConfig,
    pub action_map: ActionMap,
}

/// What the caller must do after an event has been handled.
#[derive(Clone, Copy, Debug, PartialEq, Eq, Structural)]
pub enum Outcome {
    Continue,
    /// Draw a frame.
    Redraw,
}

/// The application's transition on one event at `now`: the new running flag,
/// the new timer states, and the result of handling the event.
///
/// A key that resolves to `Quit` clears the running flag and reaches no
/// component; any other resolved action goes to every component in order. A
/// tick asks for a redraw. An error event is returned as the error.
pub open spec fn step(
    running: bool,
    timers: Seq<TimerView>,
    bindings: Seq<(KeyChord, Action)>,
    config: AppConfig,
    event: Event,
    now: u64,
) -> (bool, Seq<TimerView>, Result<Outcome, String>) {
    match event {
        Event::Key(k) => match resolve(bindings, k) {
            Some(Action::Quit) => (false, timers, Ok(Outcome::Continue)),
            Some(a) => (
                running,
                timers.map_values(|t: TimerView| after_action(t, a, config.timer, now)),
                Ok(Outcome::Continue),
            ),
            None => (running, timers, Ok(Outcome::Continue)),
        },
        Event::Error(e) => (running, timers, Err(e)),
        Event::Tick => (running, timers, Ok(Outcome::Redraw)),
        _ => (running, timers, Ok(Outcome::Continue)),
    }
}

/// A key that resolves to `Quit` stops the application, whatever state it
/// is in and whatever events came before: the components are left as they
/// are and the event is handled without error.
pub proof fn quit_stops(
    running: bool,
    timers: Seq<TimerView>,
    bindings: Seq<(KeyChord, Action)>,
    config: AppConfig,
    k: KeyChord,
    now: u64,
)
    requires
        resolve(bindings, k) == Some(Action::Quit),
    ensures
        step(running, timers, bindings, config, Event::Key(k), now) == (false, timers, Ok::<Outcome, String>(Outcome::Continue)),
{
}

/// The application: a running flag, the context, and the components in
/// draw order.
pub struct App {
    running: bool,
    context: AppContext,
    components: Vec<TimerComponent>,
}

impl App {
    pub closed spec fn running(self) -> bool {
        self.running
    }

    pub closed spec fn spec_config(self) -> AppConfig {
        self.context.config
    }

    pub closed spec fn bindings(self) -> Seq<(KeyChord, Action)> {
        self.context.action_map.bindings()
    }

    /// The states of the components, in draw order.
    pub closed spec fn timers(self) -> Seq<TimerView> {
        self.components@.map_values(|c: TimerComponent| c.view())
    }

    /// A stopped application with the default bindings and one timer.
    pub fn new(config: AppConfig) -> (r: App)
        ensures
            !r.running(),
            r.spec_config() == config,
            r.bindings() == binding_pairs(default_bindings()),
            r.timers().len() == 1,
            r.timers()[0].clock == (crate::clock::ClockState { running: false, started_at: 0, frozen: 0 }),
            r.timers()[0].release_clock == (crate::clock::ClockState { running: false, started_at: 0, frozen: 0 }),
            r.timers()[0].last_solve_time == 0,
    {
        let context = AppContext { config, action_map: ActionMap::default() };
        let mut components: Vec<TimerComponent> = Vec::new();
        components.push(TimerComponent::new());
        App { running: false, context, components }
    }

    /// Sets the running flag, before the loop starts.
    pub fn start(&mut self)
        ensures
            final(self).running(),
            final(self).spec_config() == old(self).spec_config(),
            final(self).bindings() == old(self).bindings(),
            final(self).timers() == old(self).timers(),
    {
        self.running = true;
    }

    pub fn is_running(&self) -> (r: bool)
        ensures
            r == self.running(),
    {
        self.running
    }

    pub fn config(&self) -> (r: AppConfig)
        ensures
            r == self.spec_config(),
    {
        self.context.config
    }

    /// Handles one event at `now`, dispatching it to the components.
    pub fn handle_event(&mut self, event: Event, now: u64) -> (r: Result<Outcome, String>)
        ensures
            final(self).spec_config() == old(self).spec_config(),
            final(self).bindings() == old(self).bindings(),
            (final(self).running(), final(self).timers(), r) == step(
                old(self).running(),
                old(self).timers(),
                old(self).bindings(),
                old(self).spec_config(),
                event,
                now,
            ),
    {
        match event {
            Event::Key(key_event) => {
                if let Some(action) = self.context.action_map.get_action(key_event) {
                    if action == Action::Quit {
                        self.running = false;
                        return Ok(Outcome::Continue);
                    }
                    let ghost before = self.timers();
                    let mut i: usize = 0;
                    while i < self.components.len()
                        invariant
                            self.context == old(self).context,
                            self.running == old(self).running,
                            before == old(self).timers(),
                            self.components@.len() == before.len(),
                            i <= before.len(),
                            forall|j: int| 0 <= j < i ==> (#[trigger] self.components@[j]).view()
                                == after_action(before[j], action, self.context.config.timer, now),
                            forall|j: int| i <= j < before.len() ==> (#[trigger] self.components@[j]).view()
                                == before[j],
                        decreases before.len() - i,
                    {
                        self.components[i].handle_action(action, &self.context, now)?;
                        i = i + 1;
                    }
                    assert(self.timers() =~= before.map_values(
                        |t: TimerView| after_action(t, action, self.context.config.timer, now),
                    ));
                }
                Ok(Outcome::Continue)
            },
            Event::Mouse(mouse_event) => {
                let mut i: usize = 0;
                while i < self.components.len()
                    invariant
                        self.context == old(self).context,
                        self.running == old(self).running,
                        self.timers() == old(self).timers(),
                        i <= self.components@.len(),
                    decreases self.components@.len() - i,
                {
                    let ghost before = self.components@;
                    self.components[i].handle_mouse_event(mouse_event, &self.context)?;
                    assert(self.components@.map_values(|c: TimerComponent| c.view()) =~= before.map_values(
                        |c: TimerComponent| c.view(),
                    ));
                    i = i + 1;
                }
                Ok(Outcome::Continue)
            },
            Event::Resize(_width, _height) => Ok(Outcome::Continue),
            Event::Error(error) => Err(error),
            Event::Tick => {
                let mut i: usize = 0;
                while i < self.components.len()
                    invariant
                        self.context == old(self).context,
                        self.running == old(self).running,
                        self.timers() == old(self).timers(),
                        i <= self.components@.len(),
                    decreases self.components@.len() - i,
                {
                    let ghost before = self.components@;
                    self.components[i].update(&self.context, now)?;
                    assert(self.components@.map_values(|c: TimerComponent| c.view()) =~= before.map_values(
                        |c: TimerComponent| c.view(),
                    ));
                    i = i + 1;
                }
                Ok(Outcome::Redraw)
            },
        }
    }

    /// What each component shows at `now`, in draw order; an `Err` entry is
    /// a component that could not be drawn.
    pub fn draw(&self, now: u64) -> (r: Vec<Result<String, String>>)
        ensures
            r@.len() == self.timers().len(),
            forall|i: int| 0 <= i < r@.len() ==> (#[trigger] r@[i]) is Ok && r@[i]->Ok_0@
                == seconds_text(
                    shown_time(self.timers()[i], now) as nat,
                    self.spec_config().timer.display_decimal_points as nat,
                ),
    {
        let mut out: Vec<Result<String, String>> = Vec::new();
        let mut i: usize = 0;
        while i < self.components.len()
            invariant
                i <= self.components@.len(),
                out@.len() == i,
                forall|j: int| 0 <= j < i ==> (#[trigger] out@[j]) is Ok && out@[j]->Ok_0@
                    == seconds_text(
                        shown_time(self.components@[j].view(), now) as nat,
                        self.context.config.timer.display_decimal_points as nat,
                    ),
            decreases self.components@.len() - i,
        {
            out.push(self.components[i].draw(&self.context, now));
            i = i + 1;
        }
        out
    }
}

} // verus!
