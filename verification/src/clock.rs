//! A clock that fires at a fixed rate, fed with elapsed wall-clock time.
//!
//! The machine has two of them: one for instructions, at a rate the
//! caller picks, and one for the timers, at 60 Hz. Each keeps its own
//! remainder, so neither rate has to divide the other and no time is
//! lost between calls.

use vstd::prelude::*;

verus! {

/// Nanoseconds in a second.
pub const NANOS_PER_SECOND: u64 = 1_000_000_000;

/// The rate of the delay and sound timers.
pub const TIMER_HZ: u32 = 60;

/// The instruction rate used when the caller names none.
pub const DEFAULT_INSTRUCTION_HZ: u32 = 700;

/// A clock of `hz` ticks a second.
///
/// `residue` is the time not yet turned into ticks, in units of one
/// `hz`-th of a nanosecond: a tick is due for every `NANOS_PER_SECOND` of
/// them.
#[derive(PartialEq, Eq, Copy, Clone, Debug, Structural)]
pub struct Clock {
    pub hz: u32,
    pub residue: u64,
}

impl Clock {
    /// The clock's time after `elapsed` more nanoseconds, in `hz`-ths of a
    /// nanosecond.
    pub open spec fn accumulated(self, elapsed: int) -> int {
        self.residue + elapsed * self.hz
    }

    /// The ticks that fall due when `elapsed` nanoseconds pass.
    pub open spec fn ticks_due(self, elapsed: int) -> int {
        self.accumulated(elapsed) / 1_000_000_000
    }

    /// The clock after `elapsed` nanoseconds have passed and the ticks
    /// due were taken.
    pub open spec fn after(self, elapsed: int) -> Clock {
        Clock { residue: (self.accumulated(elapsed) % 1_000_000_000) as u64, ..self }
    }

    /// A clock of `hz` ticks a second with no time on it.
    pub fn new(hz: u32) -> (r: Clock)
        ensures
            r == (Clock { hz, residue: 0 }),
    {
        Clock { hz, residue: 0 }
    }

    /// Lets `elapsed_nanos` nanoseconds pass and returns the ticks that
    /// fell due. The remainder stays on the clock for the next call.
    pub fn advance(&mut self, elapsed_nanos: u32) -> (ticks: u64)
        ensures
            ticks == old(self).ticks_due(elapsed_nanos as int),
            *final(self) == old(self).after(elapsed_nanos as int),
    {
        assert(elapsed_nanos * self.hz <= 0xFFFF_FFFF * 0xFFFF_FFFF) by (nonlinear_arith)
            requires
                elapsed_nanos <= 0xFFFF_FFFF,
                self.hz <= 0xFFFF_FFFF,
        ;
        let total: u128 = self.residue as u128 + (elapsed_nanos as u128) * (self.hz as u128);
        let ticks = total / (NANOS_PER_SECOND as u128);
        self.residue = (total % (NANOS_PER_SECOND as u128)) as u64;
        ticks as u64
    }
}

/// Time fed to a clock in two parts gives the ticks and the remainder of
/// the same time fed at once: a clock does not drift.
pub proof fn law_clock_does_not_drift(clock: Clock, first: int, second: int)
    requires
        0 <= first,
        0 <= second,
    ensures
        clock.ticks_due(first) + clock.after(first).ticks_due(second) == clock.ticks_due(
            first + second,
        ),
        clock.after(first).after(second) == clock.after(first + second),
{
    let n = 1_000_000_000int;
    let a = clock.accumulated(first);
    let b = second * clock.hz;
    assert(clock.accumulated(first + second) == a + b && a >= 0 && b >= 0) by (nonlinear_arith)
        requires
            0 <= first,
            0 <= second,
            a == clock.residue + first * clock.hz,
            b == second * clock.hz,
            clock.accumulated(first + second) == clock.residue + (first + second) * clock.hz,
    ;
    assert(a / n + (a % n + b) / n == (a + b) / n && (a % n + b) % n == (a + b) % n)
        by (nonlinear_arith)
        requires
            n == 1_000_000_000,
            a >= 0,
            b >= 0,
    ;
}

} // verus!
