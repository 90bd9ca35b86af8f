use vstd::prelude::*;
use crate::input::KeyChord;

verus! {

/// Where a pointer event happened.
#[derive(Clone, Copy, Debug, PartialEq, Eq, Structural)]
pub struct MouseInput {
    pub column: u16,
    pub row: u16,
}

/// One entry of the event stream that drives the application.
#[derive(Clone, Debug)]
pub enum Event {
    Key(KeyChord),
    Mouse(MouseInput),
    Resize(u16, u16),
    Error(String),
    Tick,
}

} // verus!
