//! The clock of the game loop: the time between one update and the next.

use vstd::prelude::*;

verus! {

/// The time of the last update and the time that passed between the last
/// two, both in microseconds. The caller reads the clock: any clock that
/// counts microseconds from a fixed start will do.
#[derive(Debug, Clone, Copy, PartialEq, Eq, Structural)]
pub struct Time {
    delta: u64,
    last_update: u64,
}

impl Time {
    /// The time between the last two updates, in microseconds.
    pub closed spec fn spec_delta(self) -> u64 {
        self.delta
    }

    /// The clock's reading at the last update.
    pub closed spec fn spec_last_update(self) -> u64 {
        self.last_update
    }

    /// A clock that starts at the reading `now`: no time has passed yet.
    #[must_use]
    pub fn new(now: u64) -> (time: Time)
        ensures
            time.spec_delta() == 0,
            time.spec_last_update() == now,
    {
        Time { delta: 0, last_update: now }
    }

    /// Takes the reading `now`: the delta becomes the time since the last
    /// update, or zero if `now` lies before it.
    pub fn update(&mut self, now: u64)
        ensures
            final(self).spec_delta() == if now >= old(self).spec_last_update() {
                now - old(self).spec_last_update()
            } else {
                0
            },
            final(self).spec_last_update() == now,
    {
        self.delta = if now >= self.last_update {
            now - self.last_update
        } else {
            0
        };
        self.last_update = now;
    }

    /// The time between the last two updates, in microseconds.
    #[must_use]
    pub fn delta_micros(&self) -> (delta: u64)
        ensures
            delta == self.spec_delta(),
    {
        self.delta
    }
}

} // verus!
