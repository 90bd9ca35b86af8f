use vstd::prelude::*;
use crate::clock::span;

verus! {

/// Abstract state of a [`Timer`].
pub struct TimerState {
    pub running: bool,
    pub started_at: u64,
    pub elapsed: u64,
}

impl TimerState {
    pub open spec fn started(self, now: u64) -> TimerState {
        if self.running {
            self
        } else {
            TimerState { running: true, started_at: now, elapsed: self.elapsed }
        }
    }

    pub open spec fn stopped(self, now: u64) -> TimerState {
        if self.running {
            TimerState { running: false, started_at: 0, elapsed: span(self.started_at, now) }
        } else {
            self
        }
    }
}

/// A stopwatch whose reading only changes when it is stopped: `elapsed`
/// reports the span captured by the last `stop`, overwritten by the next one.
pub struct Timer {
    start: Option<u64>,
    elapsed: u64,
    active: bool,
}

impl Timer {
    #[verifier::type_invariant]
    spec fn inv(self) -> bool {
        self.active <==> self.start is Some
    }

    pub closed spec fn state(self) -> TimerState {
        TimerState {
            running: self.active,
            started_at: match self.start {
                Some(t) => t,
                None => 0,
            },
            elapsed: self.elapsed,
        }
    }

    pub fn new() -> (r: Timer)
        ensures
            r.state() == (TimerState { running: false, started_at: 0, elapsed: 0 }),
    {
        Timer { start: None, elapsed: 0, active: false }
    }

    /// Starts the timer at `now`; does nothing if it already runs.
    pub fn start(&mut self, now: u64)
        ensures
            final(self).state() == old(self).state().started(now),
    {
        if self.active {
            return;
        }
        *self = Timer { start: Some(now), elapsed: self.elapsed, active: true };
    }

    /// Stops the timer at `now`, capturing the span since its start; does
    /// nothing if it is stopped.
    pub fn stop(&mut self, now: u64)
        ensures
            final(self).state() == old(self).state().stopped(now),
    {
        proof {
            use_type_invariant(&*self);
        }
        if !self.active {
            return;
        }
        if let Some(start) = self.start {
            let e: u64 = if now >= start {
                now - start
            } else {
                0
            };
            *self = Timer { start: None, elapsed: e, active: false };
        }
    }

    /// The span captured by the last `stop` (zero before the first one).
    pub fn elapsed(&self) -> (r: u64)
        ensures
            r == self.state().elapsed,
    {
        self.elapsed
    }
}

} // verus!
