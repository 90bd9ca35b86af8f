use vstd::prelude::*;

verus! {

/// Options of the timer component. Durations are in nanoseconds.
#[derive(Clone, Copy, Debug, PartialEq, Eq, Structural)]
pub struct TimerConfig {
    /// Hold-to-start: the timer starts only when the start key, held for at
    /// least `freeze_time`, is released.
    pub use_key_release: bool,
    /// How long the start key must be held before a release starts the timer.
    pub freeze_time: u64,
    /// How many decimals the timer display shows.
    pub display_decimal_points: usize,
}

/// Settings of the whole application, read once at startup.
#[derive(Clone, Copy, Debug, PartialEq, Eq, Structural)]
pub struct AppConfig {
    /// Time between two ticks, in nanoseconds.
    pub tick_period: u64,
    pub timer: TimerConfig,
}

} // verus!
