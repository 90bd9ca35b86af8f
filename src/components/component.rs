use vstd::prelude::*;
use crate::app::AppContext;
use crate::event::{Event, MouseInput};
use crate::input::Action;

verus! {

/// A distinct visual and interactive element of the application, driven by
/// the application loop. Every hook defaults to doing nothing.
pub trait Component {
    fn init(&mut self, _context: &AppContext) -> Result<(), String> {
        Ok(())
    }

    /// Called once per tick.
    fn update(&mut self, _context: &AppContext, _now: u64) -> Result<(), String> {
        Ok(())
    }

    /// Routes a raw event to the matching hook.
    fn handle_event(&mut self, event: &Event, context: &AppContext, now: u64) -> Result<(), String> {
        match event {
            Event::Mouse(mouse_event) => self.handle_mouse_event(*mouse_event, context),
            Event::Tick => self.update(context, now),
            _ => Ok(()),
        }
    }

    /// Called once per resolved action.
    fn handle_action(&mut self, _action: Action, _context: &AppContext, _now: u64) -> Result<(), String> {
        Ok(())
    }

    fn handle_mouse_event(&mut self, _event: MouseInput, _context: &AppContext) -> Result<(), String> {
        Ok(())
    }

    /// The text this component shows at `now`.
    fn draw(&self, _context: &AppContext, _now: u64) -> Result<String, String> {
        Ok(String::new())
    }
}

} // verus!
