//! Laws of the machine: what holds of every state and every run, proved
//! from the definitions the contracts are written in.

use vstd::prelude::*;
use crate::decoder::decode;
use crate::draw::{collides, drawn, erases_upto, sprite_covers};
use crate::driver::{cycle_outcome, cycles_from, timers_after, turn_outcome};
use crate::engine::{opcode_at, step_outcome, DecodePolicy, StepResult};
use crate::execute::{execute, registers_loaded, registers_stored, run, run_from};
use crate::instruction::Instruction;
use crate::state::{Fault, Machine};

verus! {

/// Carrying out an instruction keeps the machine well formed and leaves
/// the program counter where an instruction can be fetched; if the stack
/// pointer was within the stack, it still is, and likewise the address
/// register within memory.
pub proof fn law_execute_keeps_machine_valid(
    m: Machine,
    instruction: Instruction,
    keys: Seq<bool>,
    random: u8,
)
    requires
        m.well_formed(),
    ensures
        execute(m, instruction, keys, random) matches Ok(next) ==> {
            &&& next.well_formed()
            &&& next.program_counter <= 4094
            &&& (m.stack_pointer <= 16 ==> next.stack_pointer <= 16)
            &&& (m.index_register <= 0xFFF ==> next.index_register <= 0xFFF)
        },
{
}

/// Only `Fx0A` can leave the program counter where it was, and it does so
/// exactly when no key went down.
pub proof fn law_only_key_wait_parks(
    m: Machine,
    instruction: Instruction,
    keys: Seq<bool>,
    random: u8,
)
    requires
        m.well_formed(),
        execute(m, instruction, keys, random) matches Ok(next) && next.program_counter
            == m.program_counter,
    ensures
        instruction is LdW || instruction is Jp || instruction is JpI || instruction is Ret
            || instruction is Call,
        instruction is LdW ==> execute(m, instruction, keys, random) == Ok::<Machine, Fault>(m),
{
}

/// The engine reads the keypad and never writes it.
pub proof fn law_engine_leaves_keypad_alone(
    m: Machine,
    instruction: Instruction,
    keys: Seq<bool>,
    random: u8,
)
    ensures
        execute(m, instruction, keys, random) matches Ok(next) ==> next.keypad == m.keypad,
{
}

/// Only clearing and drawing write the display, and both ask for a
/// redraw; no other instruction touches the display or the redraw flag.
pub proof fn law_display_changes_by_clear_and_draw_only(
    m: Machine,
    instruction: Instruction,
    keys: Seq<bool>,
    random: u8,
)
    ensures
        execute(m, instruction, keys, random) matches Ok(next) ==> if instruction is Cls
            || instruction is Drw {
            next.needs_redraw
        } else {
            next.display == m.display && next.needs_redraw == m.needs_redraw
        },
{
}

/// A step keeps a valid machine valid, however it ends.
pub proof fn law_step_keeps_machine_valid(
    m: Machine,
    keys: Seq<bool>,
    policy: DecodePolicy,
    random: u8,
)
    requires
        m.valid(),
    ensures
        step_outcome(m, keys, policy, random).0.valid(),
{
    if m.program_counter <= 4094 {
        let opcode = opcode_at(m.memory, m.program_counter as int);
        if let Some(instruction) = decode(opcode) {
            law_execute_keeps_machine_valid(m, instruction, keys, random);
        }
    }
}

/// A run of driver cycles keeps a valid machine valid, however it ends.
pub proof fn law_cycles_keep_machine_valid(
    m: Machine,
    keys: Seq<bool>,
    policy: DecodePolicy,
    randoms: Seq<u8>,
    from: int,
)
    requires
        m.valid(),
        keys.len() == 16,
    ensures
        cycles_from(m, keys, policy, randoms, from).0.valid(),
    decreases randoms.len() - from,
{
    if 0 <= from < randoms.len() {
        law_step_keeps_machine_valid(m, keys, policy, randoms[from]);
        let (next, result) = cycle_outcome(m, keys, policy, randoms[from]);
        if result == StepResult::Success {
            law_cycles_keep_machine_valid(next, keys, policy, randoms, from + 1);
        }
    }
}

/// A turn of the driver keeps a valid machine valid: the invariants hold
/// between any two turns.
pub proof fn law_turn_keeps_machine_valid(
    m: Machine,
    keys: Seq<bool>,
    policy: DecodePolicy,
    randoms: Seq<u8>,
    timer_ticks: int,
)
    requires
        m.valid(),
        keys.len() == 16,
    ensures
        turn_outcome(m, keys, policy, randoms, timer_ticks).0.valid(),
{
    law_cycles_keep_machine_valid(m, keys, policy, randoms, 0);
}

/// The timer clock writes the two timers and the redraw flag, nothing
/// else, and never counts a timer up.
pub proof fn law_timers_only_count_down(m: Machine, ticks: int)
    ensures
        timers_after(m, ticks) == (Machine {
            delay_timer: timers_after(m, ticks).delay_timer,
            sound_timer: timers_after(m, ticks).sound_timer,
            needs_redraw: timers_after(m, ticks).needs_redraw,
            ..m
        }),
        timers_after(m, ticks).delay_timer <= m.delay_timer,
        timers_after(m, ticks).sound_timer <= m.sound_timer,
{
}

/// A step that does not succeed changes nothing.
pub proof fn law_failed_step_changes_nothing(
    m: Machine,
    keys: Seq<bool>,
    policy: DecodePolicy,
    random: u8,
)
    ensures
        step_outcome(m, keys, policy, random).1 != StepResult::Success ==> step_outcome(
            m,
            keys,
            policy,
            random,
        ).0 == m,
{
}

/// Adding a register to another leaves the sum modulo 256 in the first
/// and the carry in `VF`.
pub proof fn law_add_registers_carries(
    m: Machine,
    x: u8,
    y: u8,
    keys: Seq<bool>,
    random: u8,
)
    requires
        m.well_formed(),
        x < 15,
        y < 16,
        m.program_counter + 2 <= 4094,
    ensures
        execute(m, Instruction::AddR(x, y), keys, random) matches Ok(next) && next.registers[x as int]
            == (m.registers[x as int] + m.registers[y as int]) % 256 && next.registers[0xF]
            == if m.registers[x as int] + m.registers[y as int] > 255 {
            1int
        } else {
            0int
        },
{
}

/// The three bytes that `Fx33` stores are decimal digits, and they spell
/// the value of the register: hundreds, tens, units.
pub proof fn law_decimal_digits_spell_the_value(m: Machine, x: u8, keys: Seq<bool>, random: u8)
    requires
        m.well_formed(),
        x < 16,
        m.index_register + 2 <= 4095,
        m.program_counter + 2 <= 4094,
    ensures
        execute(m, Instruction::LdBCD(x), keys, random) matches Ok(next) && ({
            let i = m.index_register as int;
            &&& next.memory[i] < 10
            &&& next.memory[i + 1] < 10
            &&& next.memory[i + 2] < 10
            &&& 100 * next.memory[i] + 10 * next.memory[i + 1] + next.memory[i + 2]
                == m.registers[x as int]
        }),
{
}

/// One instruction of a run: the run from `from` is that instruction
/// and then the run from the next.
proof fn lemma_run_unfolds(
    m: Machine,
    program: Seq<Instruction>,
    from: int,
    keys: Seq<bool>,
    random: u8,
)
    requires
        0 <= from < program.len(),
    ensures
        run_from(m, program, from, keys, random) == match execute(
            m,
            program[from],
            keys,
            random,
        ) {
            Ok(next) => run_from(next, program, from + 1, keys, random),
            Err(fault) => (m, Err(fault)),
        },
{
}

/// After `Ld(x, kk)`, `Se(x, kk)` skips the instruction that follows it
/// and `Se(x, other)` with any other constant does not.
pub proof fn law_skip_after_load(
    m: Machine,
    x: u8,
    kk: u8,
    other: u8,
    keys: Seq<bool>,
    random: u8,
)
    requires
        m.well_formed(),
        x < 16,
        other != kk,
        m.program_counter + 6 <= 4094,
    ensures
        run(m, seq![Instruction::Ld(x, kk), Instruction::Se(x, kk)], keys, random).1 is Ok,
        run(
            m,
            seq![Instruction::Ld(x, kk), Instruction::Se(x, kk)],
            keys,
            random,
        ).0.program_counter == m.program_counter + 2 + 4,
        run(m, seq![Instruction::Ld(x, kk), Instruction::Se(x, other)], keys, random).1 is Ok,
        run(
            m,
            seq![Instruction::Ld(x, kk), Instruction::Se(x, other)],
            keys,
            random,
        ).0.program_counter == m.program_counter + 2 + 2,
{
    let equal = seq![Instruction::Ld(x, kk), Instruction::Se(x, kk)];
    let unequal = seq![Instruction::Ld(x, kk), Instruction::Se(x, other)];
    let m1 = execute(m, Instruction::Ld(x, kk), keys, random)->Ok_0;
    assert(execute(m, Instruction::Ld(x, kk), keys, random) is Ok);
    assert(m1.registers[x as int] == kk && m1.program_counter == m.program_counter + 2);
    let skipped = execute(m1, Instruction::Se(x, kk), keys, random)->Ok_0;
    assert(execute(m1, Instruction::Se(x, kk), keys, random) is Ok);
    assert(skipped.program_counter == m1.program_counter + 4);
    let stayed = execute(m1, Instruction::Se(x, other), keys, random)->Ok_0;
    assert(execute(m1, Instruction::Se(x, other), keys, random) is Ok);
    assert(stayed.program_counter == m1.program_counter + 2);
    lemma_run_unfolds(m, equal, 0, keys, random);
    lemma_run_unfolds(m1, equal, 1, keys, random);
    lemma_run_unfolds(m, unequal, 0, keys, random);
    lemma_run_unfolds(m1, unequal, 1, keys, random);
}

/// What `Ld(x, kk)` does where nothing faults.
proof fn lemma_load_constant(m: Machine, x: u8, kk: u8, keys: Seq<bool>, random: u8)
    requires
        x < 16,
        m.program_counter + 2 <= 4094,
    ensures
        execute(m, Instruction::Ld(x, kk), keys, random) == Ok::<Machine, Fault>(
            Machine {
                registers: m.registers.update(x as int, kk),
                program_counter: (m.program_counter + 2) as u16,
                ..m
            },
        ),
{
}

/// What `LdI(nnn)` does where nothing faults.
proof fn lemma_load_address(m: Machine, nnn: u16, keys: Seq<bool>, random: u8)
    requires
        nnn <= 0xFFF,
        m.program_counter + 2 <= 4094,
    ensures
        execute(m, Instruction::LdI(nnn), keys, random) == Ok::<Machine, Fault>(
            Machine {
                index_register: nnn,
                program_counter: (m.program_counter + 2) as u16,
                ..m
            },
        ),
{
}

/// What `LdIR(x)` does where nothing faults.
proof fn lemma_store_registers(m: Machine, x: u8, keys: Seq<bool>, random: u8)
    requires
        x < 16,
        m.index_register + x <= 4095,
        m.program_counter + 2 <= 4094,
    ensures
        execute(m, Instruction::LdIR(x), keys, random) == Ok::<Machine, Fault>(
            Machine {
                memory: registers_stored(
                    m.memory,
                    m.registers,
                    m.index_register as int,
                    x as int,
                ),
                program_counter: (m.program_counter + 2) as u16,
                ..m
            },
        ),
{
}

/// What `LdIRM(x)` does where nothing faults.
proof fn lemma_load_registers(m: Machine, x: u8, keys: Seq<bool>, random: u8)
    requires
        x < 16,
        m.index_register + x <= 4095,
        m.program_counter + 2 <= 4094,
    ensures
        execute(m, Instruction::LdIRM(x), keys, random) == Ok::<Machine, Fault>(
            Machine {
                registers: registers_loaded(
                    m.registers,
                    m.memory,
                    m.index_register as int,
                    x as int,
                ),
                program_counter: (m.program_counter + 2) as u16,
                ..m
            },
        ),
{
}

/// Storing two registers at an address and loading them back gives the
/// same two values, and memory holds them at that address.
pub proof fn law_store_load_round_trip(
    m: Machine,
    addr: u16,
    a: u8,
    b: u8,
    keys: Seq<bool>,
    random: u8,
)
    requires
        m.well_formed(),
        addr + 1 <= 4095,
        m.program_counter + 12 <= 4094,
    ensures
        ({
            let program = seq![
                Instruction::LdI(addr),
                Instruction::Ld(0, a),
                Instruction::Ld(1, b),
                Instruction::LdIR(1),
                Instruction::LdI(addr),
                Instruction::LdIRM(1),
            ];
            let (end, result) = run(m, program, keys, random);
            &&& result is Ok
            &&& end.registers[0] == a
            &&& end.registers[1] == b
            &&& end.memory[addr as int] == a
            &&& end.memory[addr + 1] == b
        }),
{
    let program = seq![
        Instruction::LdI(addr),
        Instruction::Ld(0, a),
        Instruction::Ld(1, b),
        Instruction::LdIR(1),
        Instruction::LdI(addr),
        Instruction::LdIRM(1),
    ];
    lemma_load_address(m, addr, keys, random);
    let m1 = execute(m, Instruction::LdI(addr), keys, random)->Ok_0;
    lemma_load_constant(m1, 0, a, keys, random);
    let m2 = execute(m1, Instruction::Ld(0, a), keys, random)->Ok_0;
    lemma_load_constant(m2, 1, b, keys, random);
    let m3 = execute(m2, Instruction::Ld(1, b), keys, random)->Ok_0;
    lemma_store_registers(m3, 1, keys, random);
    let m4 = execute(m3, Instruction::LdIR(1), keys, random)->Ok_0;
    lemma_load_address(m4, addr, keys, random);
    let m5 = execute(m4, Instruction::LdI(addr), keys, random)->Ok_0;
    lemma_load_registers(m5, 1, keys, random);
    let m6 = execute(m5, Instruction::LdIRM(1), keys, random)->Ok_0;
    assert(m3.registers[0] == a && m3.registers[1] == b);
    assert(m4.memory[addr as int] == a && m4.memory[addr + 1] == b);
    assert(m6.registers[0] == a && m6.registers[1] == b);
    lemma_run_unfolds(m, program, 0, keys, random);
    lemma_run_unfolds(m1, program, 1, keys, random);
    lemma_run_unfolds(m2, program, 2, keys, random);
    lemma_run_unfolds(m3, program, 3, keys, random);
    lemma_run_unfolds(m4, program, 4, keys, random);
    lemma_run_unfolds(m5, program, 5, keys, random);
}

/// A call followed by a return comes back to the instruction right after
/// the call, with the stack pointer where it was before the call.
pub proof fn law_call_then_return(m: Machine, nnn: u16, keys: Seq<bool>, random: u8)
    requires
        m.well_formed(),
        m.stack_pointer < 16,
        nnn <= 4094,
        m.program_counter + 2 <= 4094,
    ensures
        ({
            let (end, result) = run(
                m,
                seq![Instruction::Call(nnn), Instruction::Ret],
                keys,
                random,
            );
            &&& result is Ok
            &&& end.program_counter == m.program_counter + 2
            &&& end.stack_pointer == m.stack_pointer
        }),
{
    let program = seq![Instruction::Call(nnn), Instruction::Ret];
    let called = execute(m, Instruction::Call(nnn), keys, random)->Ok_0;
    assert(execute(m, Instruction::Call(nnn), keys, random) is Ok);
    assert(called.stack_pointer == m.stack_pointer + 1 && called.program_counter == nnn
        && called.stack[m.stack_pointer as int] == m.program_counter + 2);
    assert(execute(called, Instruction::Ret, keys, random) is Ok);
    lemma_run_unfolds(m, program, 0, keys, random);
    lemma_run_unfolds(called, program, 1, keys, random);
}

/// Drawing a sprite twice at the same place puts the display back as it
/// was; and if the sprite covers a pixel that was off before the first
/// draw, the second draw turns that pixel off again and sets `VF` to 1.
///
/// "At the same place" is a condition: with `VF` as a coordinate
/// register, the first draw may move the place of the second.
pub proof fn law_draw_twice_restores(
    m: Machine,
    x: u8,
    y: u8,
    n: u8,
    keys: Seq<bool>,
    random: u8,
)
    requires
        m.well_formed(),
        m.program_counter + 4 <= 4094,
        execute(m, Instruction::Drw(x, y, n), keys, random) matches Ok(first) && first.registers[x as int]
            == m.registers[x as int] && first.registers[y as int] == m.registers[y as int],
    ensures
        ({
            let (end, result) = run(
                m,
                seq![Instruction::Drw(x, y, n), Instruction::Drw(x, y, n)],
                keys,
                random,
            );
            &&& result is Ok
            &&& end.display == m.display
            &&& (exists|c: int, r: int|
                0 <= c < 64 && 0 <= r < 32 && !m.display[c][r] && sprite_covers(
                    m.memory,
                    m.index_register as int,
                    n as int,
                    m.registers[x as int] as int,
                    m.registers[y as int] as int,
                    c,
                    r,
                )) ==> end.registers[0xF] == 1
        }),
{
    let program = seq![Instruction::Drw(x, y, n), Instruction::Drw(x, y, n)];
    let i = m.index_register as int;
    let vx = m.registers[x as int] as int;
    let vy = m.registers[y as int] as int;
    let once = drawn(m.display, m.memory, i, n as int, vx, vy);
    let twice = drawn(once, m.memory, i, n as int, vx, vy);
    assert(twice =~~= m.display);
    let m1 = execute(m, Instruction::Drw(x, y, n), keys, random)->Ok_0;
    assert(m1.display == once);
    let second = execute(m1, Instruction::Drw(x, y, n), keys, random);
    assert(second is Ok);
    let m2 = second->Ok_0;
    assert(m2.display == twice);
    if exists|c: int, r: int|
        0 <= c < 64 && 0 <= r < 32 && !m.display[c][r] && sprite_covers(
            m.memory,
            i,
            n as int,
            vx,
            vy,
            c,
            r,
        ) {
        let (c, r) = choose|c: int, r: int|
            0 <= c < 64 && 0 <= r < 32 && !m.display[c][r] && sprite_covers(
                m.memory,
                i,
                n as int,
                vx,
                vy,
                c,
                r,
            );
        assert(once[c][r]);
        assert(erases_upto(once, m.memory, i, n as int, 0, vx, vy, c, r));
        assert(collides(once, m.memory, i, n as int, vx, vy));
    }
    lemma_run_unfolds(m, program, 0, keys, random);
    lemma_run_unfolds(m1, program, 1, keys, random);
}

} // verus!
