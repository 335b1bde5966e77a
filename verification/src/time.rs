//! Durations, instants and clock readings as plain integers.

use vstd::prelude::*;

verus! {

/// Nanoseconds in a second.
pub const NANOS_PER_SEC: u128 = 1_000_000_000;

/// A span of time, in nanoseconds.
#[derive(Clone, Copy, Debug, PartialEq, Eq, Structural)]
pub struct Duration {
    pub nanos: u128,
}

impl View for Duration {
    type V = nat;

    open spec fn view(&self) -> nat {
        self.nanos as nat
    }
}

impl Duration {
    /// The span of the given number of nanoseconds.
    pub fn from_nanos(nanos: u128) -> (d: Duration)
        ensures
            d@ == nanos,
            d.nanos == nanos,
    {
        Duration { nanos }
    }

    /// The span of the given number of whole seconds.
    pub fn from_secs(secs: u64) -> (d: Duration)
        ensures
            d@ == secs * NANOS_PER_SEC,
    {
        Duration { nanos: secs as u128 * NANOS_PER_SEC }
    }
}

/// A point on a monotonic clock: the nanoseconds since an origin that the clock's owner chose once.
#[derive(Clone, Copy, Debug, PartialEq, Eq, Structural)]
pub struct Instant {
    pub nanos: u128,
}

impl View for Instant {
    type V = nat;

    open spec fn view(&self) -> nat {
        self.nanos as nat
    }
}

impl Instant {
    /// Tells whether the clock can represent the point that lies `timeout` after `self`.
    pub open spec fn can_add(self, timeout: Duration) -> bool {
        self@ + timeout@ <= u128::MAX
    }

    /// The point that lies `timeout` after `self`.
    pub open spec fn plus(self, timeout: Duration) -> Instant {
        Instant { nanos: (self.nanos + timeout.nanos) as u128 }
    }

    /// Tells whether the clock can represent the point that lies `timeout` after `self`.
    pub fn has_room_for(self, timeout: Duration) -> (fits: bool)
        ensures
            fits == self.can_add(timeout),
            fits == (self.nanos + timeout.nanos <= u128::MAX),
    {
        timeout.nanos <= u128::MAX - self.nanos
    }

    /// The point that lies `timeout` after `self`.
    pub fn after(self, timeout: Duration) -> (later: Instant)
        requires
            self.can_add(timeout),
        ensures
            later == self.plus(timeout),
            later@ == self@ + timeout@,
            later.nanos == self.nanos + timeout.nanos,
    {
        Instant { nanos: self.nanos + timeout.nanos }
    }

    /// How much time has passed at `now` since `earlier`: nothing, where `earlier` lies ahead.
    pub open spec fn elapsed(now: Instant, earlier: Instant) -> nat {
        if earlier@ <= now@ {
            (now@ - earlier@) as nat
        } else {
            0
        }
    }

    /// The time from `earlier` to `self`, or no time at all if `earlier` is the later point.
    pub fn duration_since(self, earlier: Instant) -> (d: Duration)
        ensures
            d@ == Instant::elapsed(self, earlier),
            earlier.nanos <= self.nanos ==> earlier.nanos + d.nanos == self.nanos,
            self.nanos <= earlier.nanos ==> d.nanos == 0,
    {
        if earlier.nanos <= self.nanos {
            Duration { nanos: self.nanos - earlier.nanos }
        } else {
            Duration { nanos: 0 }
        }
    }
}

/// What the clocks showed when an operation took place: the monotonic clock, by which goals age,
/// and the stamp that goes into the messages that the operation publishes.
#[derive(Clone, Copy, Debug, PartialEq, Eq, Structural)]
pub struct Reading {
    pub now: Instant,
    pub stamp: i64,
}

} // verus!
