use vstd::prelude::*;

verus! {

/// Abstract state of a [`Clock`]: whether it runs, since when, and the value
/// frozen by the last `stop`.
pub struct ClockState {
    pub running: bool,
    pub started_at: u64,
    pub frozen: u64,
}

/// Nanoseconds from `from` to `to`, or zero if `to` lies before `from`.
pub open spec fn span(from: u64, to: u64) -> u64 {
    if to >= from {
        (to - from) as u64
    } else {
        0
    }
}

impl ClockState {
    pub open spec fn elapsed_at(self, now: u64) -> u64 {
        if self.running {
            span(self.started_at, now)
        } else {
            self.frozen
        }
    }

    pub open spec fn started(self, now: u64) -> ClockState {
        if self.running {
            self
        } else {
            ClockState { running: true, started_at: now, frozen: self.frozen }
        }
    }

    /// The state after `stop` at `now`, and the value `stop` returns.
    pub open spec fn stopped(self, now: u64) -> (ClockState, u64) {
        if self.running {
            let e = self.elapsed_at(now);
            (ClockState { running: false, started_at: 0, frozen: e }, e)
        } else {
            (self, self.frozen)
        }
    }
}

/// A restartable stopwatch.
///
/// While running, its elapsed time is the span from the start instant to
/// `now`; once stopped, it keeps the value captured by the last `stop`.
pub struct Clock {
    start: Option<u64>,
    frozen: u64,
    active: bool,
}

impl Clock {
    #[verifier::type_invariant]
    spec fn inv(self) -> bool {
        self.active <==> self.start is Some
    }

    pub closed spec fn state(self) -> ClockState {
        ClockState {
            running: self.active,
            started_at: match self.start {
                Some(t) => t,
                None => 0,
            },
            frozen: self.frozen,
        }
    }

    pub fn new() -> (r: Clock)
        ensures
            r.state() == (ClockState { running: false, started_at: 0, frozen: 0 }),
    {
        Clock { start: None, frozen: 0, active: false }
    }

    /// Starts the clock at `now`; does nothing if it already runs.
    pub fn start(&mut self, now: u64)
        ensures
            final(self).state() == old(self).state().started(now),
    {
        if self.active {
            return;
        }
        *self = Clock { start: Some(now), frozen: self.frozen, active: true };
    }

    /// Stops the clock at `now` and returns the frozen elapsed time; on a
    /// stopped clock, returns the value frozen before and changes nothing.
    pub fn stop(&mut self, now: u64) -> (r: u64)
        ensures
            (final(self).state(), r) == old(self).state().stopped(now),
    {
        proof {
            use_type_invariant(&*self);
        }
        if !self.active {
            return self.frozen;
        }
        let e = self.elapsed(now);
        *self = Clock { start: None, frozen: e, active: false };
        e
    }

    /// Elapsed time at `now`: live while running, frozen while stopped.
    pub fn elapsed(&self, now: u64) -> (r: u64)
        ensures
            r == self.state().elapsed_at(now),
    {
        proof {
            use_type_invariant(self);
        }
        match self.start {
            Some(start) => {
                if now >= start {
                    now - start
                } else {
                    0
                }
            },
            None => self.frozen,
        }
    }

    pub fn is_running(&self) -> (r: bool)
        ensures
            r == self.state().running,
    {
        self.active
    }
}

/// While a clock runs its elapsed time never decreases as time advances, and
/// while it is stopped its elapsed time stays the same; this holds of every
/// state that a sequence of `start` and `stop` calls can reach.
pub proof fn elapsed_monotonic(c: ClockState, t1: u64, t2: u64)
    requires
        t1 <= t2,
    ensures
        c.running ==> c.elapsed_at(t1) <= c.elapsed_at(t2),
        !c.running ==> c.elapsed_at(t1) == c.elapsed_at(t2),
{
}

/// Starting a clock twice in a row keeps the first start instant.
pub proof fn start_idempotent(c: ClockState, t1: u64, t2: u64)
    ensures
        c.started(t1).started(t2) == c.started(t1),
{
}

/// Stopping a stopped clock changes nothing and returns the frozen value.
pub proof fn stop_when_stopped(c: ClockState, now: u64)
    requires
        !c.running,
    ensures
        c.stopped(now) == (c, c.frozen),
{
}

} // verus!
