//! The dual-clock driver: instruction cycles at one rate, timer ticks at
//! 60 Hz, both fed from one wall clock.
//!
//! The caller owns the loop and the wall clock. Each time round it hands
//! over the keypad and the time that has passed, and gets back how the
//! instructions ended and whether to redraw.

use vstd::prelude::*;
use rand::rngs::ThreadRng;
use crate::clock::{Clock, TIMER_HZ};
use crate::engine::{byte_for, complete, fetch, step_outcome, DecodePolicy, StepResult};
use crate::laws::law_cycles_keep_machine_valid;
use crate::outside::thread_generator;
use crate::state::{InterpreterData, Machine};

verus! {

/// What one instruction-clock tick does: a step with the keypad as it is
/// now, after which the machine remembers that keypad as the previous
/// one.
pub open spec fn cycle_outcome(m: Machine, keys: Seq<bool>, policy: DecodePolicy, random: u8) -> (
    Machine,
    StepResult,
) {
    let (next, result) = step_outcome(m, keys, policy, random);
    (Machine { keypad: keys, ..next }, result)
}

/// What the cycles for the random bytes `randoms[from..]` do, one cycle
/// for each byte, stopping after the first that does not succeed: the
/// machine at the end, the number of cycles that succeeded, and how the
/// last one ended.
pub open spec fn cycles_from(
    m: Machine,
    keys: Seq<bool>,
    policy: DecodePolicy,
    randoms: Seq<u8>,
    from: int,
) -> (Machine, int, StepResult)
    decreases randoms.len() - from,
{
    if from < 0 || from >= randoms.len() {
        (m, 0, StepResult::Success)
    } else {
        let (next, result) = cycle_outcome(m, keys, policy, randoms[from]);
        if result == StepResult::Success {
            let (end, done, last) = cycles_from(next, keys, policy, randoms, from + 1);
            (end, done + 1, last)
        } else {
            (next, 0, result)
        }
    }
}

/// The machine after `ticks` ticks of the timer clock: both timers
/// counted down, stopping at zero, and the redraw flag taken.
pub open spec fn timers_after(m: Machine, ticks: int) -> Machine {
    if ticks <= 0 {
        m
    } else {
        Machine {
            delay_timer: if m.delay_timer > ticks {
                (m.delay_timer - ticks) as u8
            } else {
                0u8
            },
            sound_timer: if m.sound_timer > ticks {
                (m.sound_timer - ticks) as u8
            } else {
                0u8
            },
            needs_redraw: false,
            ..m
        }
    }
}

/// Whether `ticks` ticks of the timer clock tell the renderer to redraw.
pub open spec fn redraw_due(m: Machine, ticks: int) -> bool {
    ticks > 0 && m.needs_redraw
}

/// One cycle with the random byte given.
pub fn cycle_with(
    state: &mut InterpreterData,
    keys: &[bool; 16],
    policy: DecodePolicy,
    random: u8,
) -> (r: StepResult)
    ensures
        (final(state)@, r) == cycle_outcome(old(state)@, keys@, policy, random),
{
    let found = fetch(state);
    let r = complete(state, found, keys, policy, random);
    let ghost stepped = state@;
    state.keypad = *keys;
    assert(state@ =~~= (Machine { keypad: keys@, ..stepped }));
    r
}

/// Adding one more random byte to a run of cycles that all succeeded adds
/// one more cycle to it.
proof fn lemma_one_more_cycle(
    m: Machine,
    keys: Seq<bool>,
    policy: DecodePolicy,
    randoms: Seq<u8>,
    from: int,
    random: u8,
)
    requires
        0 <= from <= randoms.len(),
        cycles_from(m, keys, policy, randoms, from).2 == StepResult::Success,
    ensures
        cycles_from(m, keys, policy, randoms, from).1 == randoms.len() - from,
        ({
            let (mid, done, _) = cycles_from(m, keys, policy, randoms, from);
            let (next, result) = cycle_outcome(mid, keys, policy, random);
            cycles_from(m, keys, policy, randoms.push(random), from) == if result
                == StepResult::Success {
                (next, done + 1, result)
            } else {
                (next, done, result)
            }
        }),
    decreases randoms.len() - from,
{
    let longer = randoms.push(random);
    if from < randoms.len() {
        let (next, result) = cycle_outcome(m, keys, policy, randoms[from]);
        assert(longer[from] == randoms[from]);
        assert(result == StepResult::Success);
        lemma_one_more_cycle(next, keys, policy, randoms, from + 1, random);
    } else {
        assert(longer[from] == random);
        let (next, result) = cycle_outcome(m, keys, policy, random);
        assert(cycles_from(next, keys, policy, longer, from + 1) == (
            next,
            0int,
            StepResult::Success,
        ));
    }
}

/// Runs up to `count` cycles, each with a byte drawn from `rng` where the
/// instruction asks for one, and stops after the first that does not
/// succeed. Returns how many succeeded and how the last one ended.
pub fn run_cycles(
    state: &mut InterpreterData,
    keys: &[bool; 16],
    policy: DecodePolicy,
    rng: &mut ThreadRng,
    count: u64,
) -> (r: (u64, StepResult))
    ensures
        exists|randoms: Seq<u8>|
            {
                &&& randoms.len() <= count
                &&& r.1 == StepResult::Success ==> randoms.len() == count
                &&& (final(state)@, r.0 as int, r.1) == #[trigger] cycles_from(
                    old(state)@,
                    keys@,
                    policy,
                    randoms,
                    0,
                )
            },
{
    let mut done: u64 = 0;
    let ghost mut drawn: Seq<u8> = Seq::empty();
    while done < count
        invariant
            done <= count,
            drawn.len() == done,
            cycles_from(old(state)@, keys@, policy, drawn, 0) == (
                state@,
                done as int,
                StepResult::Success,
            ),
        decreases count - done,
    {
        let found = fetch(state);
        let random = match byte_for(&found, rng) {
            Some(byte) => byte,
            None => 0,
        };
        let ghost mid = state@;
        let result = complete(state, found, keys, policy, random);
        let ghost stepped = state@;
        state.keypad = *keys;
        proof {
            assert(state@ =~~= (Machine { keypad: keys@, ..stepped }));
            assert((state@, result) == cycle_outcome(mid, keys@, policy, random));
            lemma_one_more_cycle(old(state)@, keys@, policy, drawn, 0, random);
            drawn = drawn.push(random);
        }
        match result {
            StepResult::Success => {},
            _ => {
                return (done, result);
            },
        }
        done += 1;
    }
    (done, StepResult::Success)
}

/// Lets `ticks` ticks of the timer clock pass: counts both timers down,
/// stopping at zero, and returns whether the renderer should redraw, in
/// which case the redraw flag is cleared.
pub fn run_timers(state: &mut InterpreterData, ticks: u64) -> (redraw: bool)
    ensures
        final(state)@ == timers_after(old(state)@, ticks as int),
        redraw == redraw_due(old(state)@, ticks as int),
{
    if ticks == 0 {
        return false;
    }
    let step: u8 = if ticks > 255 {
        255
    } else {
        ticks as u8
    };
    state.delay_timer = state.delay_timer.saturating_sub(step);
    state.sound_timer = state.sound_timer.saturating_sub(step);
    let redraw = state.needs_redraw;
    state.needs_redraw = false;
    assert(state@ =~~= timers_after(old(state)@, ticks as int));
    redraw
}

/// One tick of the timer clock.
pub fn tick_timers(state: &mut InterpreterData) -> (redraw: bool)
    ensures
        final(state)@ == timers_after(old(state)@, 1),
        redraw == old(state).needs_redraw,
{
    run_timers(state, 1)
}

/// The two clocks, the answer to invalid words and the generator that
/// `Cxkk` draws from.
#[derive(Debug)]
pub struct Driver {
    /// Fires once for every instruction cycle.
    pub instruction_clock: Clock,
    /// Fires sixty times a second, once for every timer tick.
    pub timer_clock: Clock,
    pub policy: DecodePolicy,
    /// Where the random bytes come from.
    pub rng: ThreadRng,
}

/// What one turn of the driver did.
#[derive(PartialEq, Eq, Copy, Clone, Debug, Structural)]
pub struct Report {
    /// Instruction cycles that succeeded.
    pub cycles: u64,
    /// How the last cycle ended; `Success` if none was due.
    pub result: StepResult,
    /// Whether the renderer should take a frame.
    pub redraw: bool,
}

/// What one turn of the driver does to the machine: the cycles for
/// `randoms`, then `timer_ticks` ticks of the timers.
pub open spec fn turn_outcome(
    m: Machine,
    keys: Seq<bool>,
    policy: DecodePolicy,
    randoms: Seq<u8>,
    timer_ticks: int,
) -> (Machine, Report) {
    let (mid, done, result) = cycles_from(m, keys, policy, randoms, 0);
    (
        timers_after(mid, timer_ticks),
        Report { cycles: done as u64, result, redraw: redraw_due(mid, timer_ticks) },
    )
}

impl Driver {
    /// A driver that runs `instruction_hz` instructions a second, with
    /// the generator of the calling thread.
    pub fn new(instruction_hz: u32, policy: DecodePolicy) -> (r: Driver)
        ensures
            r.instruction_clock == (Clock { hz: instruction_hz, residue: 0 }),
            r.timer_clock == (Clock { hz: 60, residue: 0 }),
            r.policy == policy,
    {
        Driver {
            instruction_clock: Clock::new(instruction_hz),
            timer_clock: Clock::new(TIMER_HZ),
            policy,
            rng: thread_generator(),
        }
    }

    /// One turn of the driver's loop: lets `elapsed_nanos` nanoseconds
    /// pass on both clocks, runs the instruction cycles that fell due
    /// with the keypad as given, then the timer ticks that fell due.
    ///
    /// The cycles stop at the first that does not succeed; the timers
    /// tick all the same, since time has passed.
    pub fn turn(
        &mut self,
        state: &mut InterpreterData,
        keys: &[bool; 16],
        elapsed_nanos: u32,
    ) -> (report: Report)
        ensures
            final(self).policy == old(self).policy,
            final(self).instruction_clock == old(self).instruction_clock.after(
                elapsed_nanos as int,
            ),
            final(self).timer_clock == old(self).timer_clock.after(elapsed_nanos as int),
            old(state)@.valid() ==> final(state)@.valid(),
            exists|randoms: Seq<u8>|
                {
                    &&& randoms.len() <= old(self).instruction_clock.ticks_due(
                        elapsed_nanos as int,
                    )
                    &&& report.result == StepResult::Success ==> randoms.len() == old(
                        self,
                    ).instruction_clock.ticks_due(elapsed_nanos as int)
                    &&& (final(state)@, report) == #[trigger] turn_outcome(
                        old(state)@,
                        keys@,
                        old(self).policy,
                        randoms,
                        old(self).timer_clock.ticks_due(elapsed_nanos as int),
                    )
                },
    {
        let due = self.instruction_clock.advance(elapsed_nanos);
        let timer_ticks = self.timer_clock.advance(elapsed_nanos);
        let policy = self.policy;
        let (cycles, result) = run_cycles(state, keys, policy, &mut self.rng, due);
        let ghost randoms = choose|randoms: Seq<u8>|
            {
                &&& randoms.len() <= due
                &&& result == StepResult::Success ==> randoms.len() == due
                &&& (state@, cycles as int, result) == #[trigger] cycles_from(
                    old(state)@,
                    keys@,
                    policy,
                    randoms,
                    0,
                )
            };
        proof {
            if old(state)@.valid() {
                law_cycles_keep_machine_valid(old(state)@, keys@, policy, randoms, 0);
            }
        }
        let redraw = run_timers(state, timer_ticks);
        let report = Report { cycles, result, redraw };
        assert((state@, report) == turn_outcome(
            old(state)@,
            keys@,
            old(self).policy,
            randoms,
            timer_ticks as int,
        ));
        report
    }
}

} // verus!
