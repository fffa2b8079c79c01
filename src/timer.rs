use vstd::prelude::*;

verus! {

/// Length of one timer tick in microseconds (60 Hz, rounded).
pub const TICK_MICROS: u64 = 16_667;

/// Turns elapsed wall-clock time into timer ticks, carrying the remainder
/// from one call to the next, so that the timers run at a fixed rate however
/// many instructions execute in between.
pub struct TimerClock {
    /// Microseconds elapsed since the last tick boundary.
    pub carried_micros: u64,
}

impl TimerClock {
    /// The carried time is less than one tick.
    pub open spec fn wf(&self) -> bool {
        self.carried_micros < TICK_MICROS
    }

    /// A clock that stands on a tick boundary.
    pub fn new() -> (r: TimerClock)
        ensures
            r.wf(),
            r.carried_micros == 0,
    {
        TimerClock { carried_micros: 0 }
    }

    /// Adds `elapsed_micros` and returns how many tick boundaries were crossed.
    pub fn advance(&mut self, elapsed_micros: u64) -> (ticks: u64)
        requires
            old(self).wf(),
        ensures
            final(self).wf(),
            ticks == (old(self).carried_micros + elapsed_micros) / TICK_MICROS as int,
            final(self).carried_micros == (old(self).carried_micros + elapsed_micros)
                % TICK_MICROS as int,
    {
        let total: u128 = self.carried_micros as u128 + elapsed_micros as u128;
        let ticks = (total / TICK_MICROS as u128) as u64;
        self.carried_micros = (total % TICK_MICROS as u128) as u64;
        ticks
    }
}

} // verus!
