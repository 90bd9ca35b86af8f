//! Core of a terminal speed-cube timer: stopwatch primitives, key-binding
//! resolution, the timer component's state machine and the event dispatch
//! that drives it.
//!
//! Time is handed in by the caller as nanoseconds on a monotonic time line
//! (`now`), so every decision here is a function of plain values.

pub mod clock;
pub mod timer;
pub mod input;
pub mod keybind;
pub mod display;
pub mod config;
pub mod event;
pub mod components;
pub mod app;
