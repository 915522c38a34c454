//! One step of the machine: fetch two bytes at the program counter, decode
//! them, carry the instruction out.

use vstd::prelude::*;
use rand::rngs::ThreadRng;
use crate::decoder::{decode, program_to_enum};
use crate::execute::{advance, emulate, execute};
use crate::instruction::Instruction;
use crate::laws::law_step_keeps_machine_valid;
use crate::outside::random_byte;
use crate::state::{Fault, InterpreterData, Machine, LAST_INSTRUCTION};

verus! {

/// What to do with a word that is no instruction.
///
/// Code and data share memory, so a program counter can land on sprite
/// bytes. Neither answer is right for every program, so the caller picks.
#[derive(PartialEq, Eq, Copy, Clone, Debug, Structural)]
pub enum DecodePolicy {
    /// Stop: report the address and the word, change nothing.
    Abort,
    /// Treat the word as inert data: step over it.
    Skip,
}

/// How a step ended.
#[derive(PartialEq, Eq, Copy, Clone, Debug, Structural)]
pub enum StepResult {
    /// One instruction was carried out, or the machine is parked on `Fx0A`
    /// waiting for a key, or an invalid word was stepped over.
    Success,
    /// The word at `address` is no instruction. The machine is unchanged.
    InvalidOpcode { address: u16, opcode: u16 },
    /// The instruction at `address` cannot be carried out; `instruction`
    /// is `None` where nothing could be fetched there. The machine is
    /// unchanged.
    Fault { fault: Fault, address: u16, instruction: Option<Instruction> },
}

/// The 16-bit word whose high byte is `high` and low byte is `low`.
pub open spec fn word_of(high: u8, low: u8) -> u16 {
    (high * 256 + low) as u16
}

/// The opcode word at `address`: two bytes, the high byte first.
pub open spec fn opcode_at(memory: Seq<u8>, address: int) -> u16 {
    word_of(memory[address], memory[address + 1])
}

/// What a step does: the next machine and how the step ended.
///
/// `keys` is the keypad now, `policy` the answer to invalid words and
/// `random` the byte that `Cxkk` draws if that is what is fetched.
pub open spec fn step_outcome(m: Machine, keys: Seq<bool>, policy: DecodePolicy, random: u8) -> (
    Machine,
    StepResult,
) {
    let pc = m.program_counter;
    if pc > 4094 {
        (m, StepResult::Fault { fault: Fault::MemoryOutOfBounds, address: pc, instruction: None })
    } else {
        let opcode = opcode_at(m.memory, pc as int);
        match decode(opcode) {
            Some(instruction) => match execute(m, instruction, keys, random) {
                Ok(next) => (next, StepResult::Success),
                Err(fault) => (
                    m,
                    StepResult::Fault { fault, address: pc, instruction: Some(instruction) },
                ),
            },
            None => match policy {
                DecodePolicy::Abort => (m, StepResult::InvalidOpcode { address: pc, opcode }),
                DecodePolicy::Skip => match advance(m, 2) {
                    Ok(next) => (next, StepResult::Success),
                    Err(fault) => (m, StepResult::Fault { fault, address: pc, instruction: None }),
                },
            },
        }
    }
}

/// Joins two bytes into a word, the high byte first.
pub fn make_word(high: u8, low: u8) -> (r: u16)
    ensures
        r == word_of(high, low),
{
    assert(((high as u16) << 8) | (low as u16) == high * 256 + low) by (bit_vector);
    ((high as u16) << 8) | (low as u16)
}

/// What is at the program counter.
#[derive(PartialEq, Eq, Copy, Clone, Debug, Structural)]
pub enum Fetched {
    /// The program counter is beyond the last address an instruction fits
    /// at.
    Nothing,
    /// A word that is no instruction.
    Invalid(u16),
    /// An instruction.
    Decoded(Instruction),
}

/// What a fetch finds at the machine's program counter.
pub open spec fn fetched(m: Machine) -> Fetched {
    if m.program_counter > 4094 {
        Fetched::Nothing
    } else {
        match decode(opcode_at(m.memory, m.program_counter as int)) {
            Some(instruction) => Fetched::Decoded(instruction),
            None => Fetched::Invalid(opcode_at(m.memory, m.program_counter as int)),
        }
    }
}

/// Reads and decodes the word at the program counter.
pub fn fetch(state: &InterpreterData) -> (r: Fetched)
    ensures
        r == fetched(state@),
{
    if state.pc > LAST_INSTRUCTION {
        return Fetched::Nothing;
    }
    let pc = state.pc as usize;
    let opcode = make_word(state.mem[pc], state.mem[pc + 1]);
    match program_to_enum(opcode) {
        Ok(instruction) => Fetched::Decoded(instruction),
        Err(_) => Fetched::Invalid(opcode),
    }
}

/// Carries out what was fetched.
pub(crate) fn complete(
    state: &mut InterpreterData,
    found: Fetched,
    keys: &[bool; 16],
    policy: DecodePolicy,
    random: u8,
) -> (r: StepResult)
    requires
        found == fetched(old(state)@),
    ensures
        (final(state)@, r) == step_outcome(old(state)@, keys@, policy, random),
{
    let address = state.pc;
    match found {
        Fetched::Nothing => StepResult::Fault {
            fault: Fault::MemoryOutOfBounds,
            address,
            instruction: None,
        },
        Fetched::Invalid(opcode) => match policy {
            DecodePolicy::Abort => StepResult::InvalidOpcode { address, opcode },
            DecodePolicy::Skip => match state.increment_pc(2) {
                Ok(next) => {
                    state.pc = next;
                    assert(state@ =~~= (Machine { program_counter: next, ..old(state)@ }));
                    StepResult::Success
                },
                Err(fault) => StepResult::Fault { fault, address, instruction: None },
            },
        },
        Fetched::Decoded(instruction) => match emulate(instruction, state, keys, random) {
            Ok(()) => StepResult::Success,
            Err(fault) => StepResult::Fault { fault, address, instruction: Some(instruction) },
        },
    }
}

/// One step with the random byte given: fetch, decode, carry out.
///
/// The result is exactly [`step_outcome`]: this is the engine made
/// deterministic, for tests and for replay.
pub fn step_with(
    state: &mut InterpreterData,
    keys: &[bool; 16],
    policy: DecodePolicy,
    random: u8,
) -> (r: StepResult)
    ensures
        (final(state)@, r) == step_outcome(old(state)@, keys@, policy, random),
        old(state)@.valid() ==> final(state)@.valid(),
{
    proof {
        if state@.valid() {
            law_step_keeps_machine_valid(state@, keys@, policy, random);
        }
    }
    let found = fetch(state);
    complete(state, found, keys, policy, random)
}

/// The random byte that what was fetched asks for: one drawn from `rng`
/// where `Cxkk` was fetched, and none, with the generator left alone, for
/// everything else. Of the byte itself nothing is known.
pub(crate) fn byte_for(found: &Fetched, rng: &mut ThreadRng) -> (random: Option<u8>)
    ensures
        random is Some <==> (found matches Fetched::Decoded(Instruction::Rnd(_, _))),
        random is None ==> *final(rng) == *old(rng),
{
    match found {
        Fetched::Decoded(Instruction::Rnd(_, _)) => Some(random_byte(rng)),
        _ => None,
    }
}

/// One step, with the byte for `Cxkk` drawn from `rng` when that is the
/// instruction fetched.
///
/// Whatever byte the generator gives, the step is [`step_outcome`] for
/// that byte; for every instruction but `Cxkk` the byte does not matter.
pub fn step(
    state: &mut InterpreterData,
    keys: &[bool; 16],
    policy: DecodePolicy,
    rng: &mut ThreadRng,
) -> (r: StepResult)
    ensures
        exists|random: u8|
            (final(state)@, r) == #[trigger] step_outcome(old(state)@, keys@, policy, random),
        old(state)@.valid() ==> final(state)@.valid(),
{
    let found = fetch(state);
    let random = match byte_for(&found, rng) {
        Some(byte) => byte,
        None => 0,
    };
    proof {
        if state@.valid() {
            law_step_keeps_machine_valid(state@, keys@, policy, random);
        }
    }
    complete(state, found, keys, policy, random)
}

/// A step that fetches anything but `Cxkk` is the same step for every
/// random byte.
pub proof fn law_random_byte_matters_to_rnd_only(
    m: Machine,
    keys: Seq<bool>,
    policy: DecodePolicy,
    a: u8,
    b: u8,
)
    requires
        !(fetched(m) matches Fetched::Decoded(Instruction::Rnd(_, _))),
    ensures
        step_outcome(m, keys, policy, a) == step_outcome(m, keys, policy, b),
{
}

} // verus!
