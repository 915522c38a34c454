//! The execution engine: what each instruction does to the machine.
//!
//! [`execute`] is the instruction set as a function on machines;
//! [`emulate`] carries it out on the interpreter state.
//!
//! Conventions, where interpreters have differed:
//! - the shifts `8xy6` and `8xyE` read `Vy` and write `Vx`;
//! - `7xkk` and the arithmetic of the `8xy_` family wrap modulo 256;
//! - every right-hand side is read before the instruction writes anything,
//!   and `VF` is written before `Vx` in all of `8xy5`, `8xy6`, `8xy7`,
//!   `8xyE` and after it in `8xy4`, so with `x = F` the later write stays;
//! - `Fx1E` faults rather than leave `I` outside memory;
//! - a fault leaves the machine as it was.

use vstd::prelude::*;
use crate::draw::{collides, draw_sprite, drawn};
use crate::instruction::Instruction;
use crate::keypad::{find_first_key_down, first_key_down};
use crate::laws::law_execute_keeps_machine_valid;
use crate::state::{blank_display, Fault, InterpreterData, Machine, LAST_INSTRUCTION};

verus! {

/// The machine with the program counter moved forward by `by` bytes; a
/// fault if no instruction can be fetched there.
pub open spec fn advance(m: Machine, by: int) -> Result<Machine, Fault> {
    jump(m, m.program_counter + by)
}

/// The machine with the program counter at `target`; a fault if no
/// instruction can be fetched there.
pub open spec fn jump(m: Machine, target: int) -> Result<Machine, Fault> {
    if target > 4094 {
        Err(Fault::MemoryOutOfBounds)
    } else {
        Ok(Machine { program_counter: target as u16, ..m })
    }
}

/// The machine moved past the next instruction if `condition` holds, and
/// to it otherwise.
pub open spec fn skip_if(m: Machine, condition: bool) -> Result<Machine, Fault> {
    advance(
        m,
        if condition {
            4
        } else {
            2
        },
    )
}

/// The machine with register `x` holding `value`.
pub open spec fn with_register(m: Machine, x: int, value: u8) -> Machine {
    Machine { registers: m.registers.update(x, value), ..m }
}

/// The machine with `VF` holding 1 if `flag` and 0 otherwise.
pub open spec fn with_flag(m: Machine, flag: bool) -> Machine {
    with_register(
        m,
        0xF,
        if flag {
            1u8
        } else {
            0u8
        },
    )
}

/// Memory with the registers `V0..=Vx` stored from address `base` on.
pub open spec fn registers_stored(memory: Seq<u8>, registers: Seq<u8>, base: int, x: int) -> Seq<
    u8,
> {
    Seq::new(
        memory.len(),
        |a: int|
            if base <= a <= base + x {
                registers[a - base]
            } else {
                memory[a]
            },
    )
}

/// The registers with `V0..=Vx` loaded from address `base` on.
pub open spec fn registers_loaded(registers: Seq<u8>, memory: Seq<u8>, base: int, x: int) -> Seq<
    u8,
> {
    Seq::new(
        registers.len(),
        |k: int|
            if k <= x {
                memory[base + k]
            } else {
                registers[k]
            },
    )
}

/// What one instruction does: the next machine, or the fault that stops
/// it.
///
/// `keys` is the keypad now (the machine holds the keypad of the previous
/// tick) and `random` the byte that `Cxkk` draws. A machine whose program
/// counter is beyond the last fetchable address runs nothing.
pub open spec fn execute(m: Machine, instruction: Instruction, keys: Seq<bool>, random: u8)
    -> Result<Machine, Fault> {
    if m.program_counter > 4094 {
        Err(Fault::MemoryOutOfBounds)
    } else if !instruction.registers_in_range() {
        Err(Fault::RegisterOutOfBounds)
    } else if !instruction.operands_in_range() {
        Err(Fault::InvalidOperand)
    } else {
        effect(m, instruction, keys, random)
    }
}

/// What a well-formed instruction does to a machine that could fetch it.
pub open spec fn effect(m: Machine, instruction: Instruction, keys: Seq<bool>, random: u8)
    -> Result<Machine, Fault> {
    let v = m.registers;
    let i = m.index_register as int;
    let sp = m.stack_pointer as int;
    match instruction {
        Instruction::Sys(_) => advance(m, 2),
        Instruction::Cls => advance(
            Machine { display: blank_display(), needs_redraw: true, ..m },
            2,
        ),
        Instruction::Ret => if sp == 0 {
            Err(Fault::StackUnderflow)
        } else if sp > 16 {
            Err(Fault::StackOverflow)
        } else {
            jump(Machine { stack_pointer: (sp - 1) as u8, ..m }, m.stack[sp - 1] as int)
        },
        Instruction::Jp(nnn) => jump(m, nnn as int),
        Instruction::Call(nnn) => if sp >= 16 {
            Err(Fault::StackOverflow)
        } else {
            jump(
                Machine {
                    stack: m.stack.update(sp, (m.program_counter + 2) as u16),
                    stack_pointer: (sp + 1) as u8,
                    ..m
                },
                nnn as int,
            )
        },
        Instruction::Se(x, kk) => skip_if(m, v[x as int] == kk),
        Instruction::Sne(x, kk) => skip_if(m, v[x as int] != kk),
        Instruction::SeR(x, y) => skip_if(m, v[x as int] == v[y as int]),
        Instruction::Ld(x, kk) => advance(with_register(m, x as int, kk), 2),
        Instruction::Add(x, kk) => advance(
            with_register(m, x as int, ((v[x as int] + kk) % 256) as u8),
            2,
        ),
        Instruction::LdR(x, y) => advance(with_register(m, x as int, v[y as int]), 2),
        Instruction::Or(x, y) => advance(
            with_register(m, x as int, v[x as int] | v[y as int]),
            2,
        ),
        Instruction::And(x, y) => advance(
            with_register(m, x as int, v[x as int] & v[y as int]),
            2,
        ),
        Instruction::Xor(x, y) => advance(
            with_register(m, x as int, v[x as int] ^ v[y as int]),
            2,
        ),
        Instruction::AddR(x, y) => {
            let sum = v[x as int] + v[y as int];
            advance(with_flag(with_register(m, x as int, (sum % 256) as u8), sum > 255), 2)
        },
        Instruction::Sub(x, y) => {
            let difference = v[x as int] - v[y as int];
            advance(
                with_register(
                    with_flag(m, v[x as int] >= v[y as int]),
                    x as int,
                    (difference % 256) as u8,
                ),
                2,
            )
        },
        Instruction::Shr(x, y) => advance(
            with_register(
                with_flag(m, v[y as int] % 2 == 1),
                x as int,
                (v[y as int] / 2) as u8,
            ),
            2,
        ),
        Instruction::SubN(x, y) => {
            let difference = v[y as int] - v[x as int];
            advance(
                with_register(
                    with_flag(m, v[y as int] >= v[x as int]),
                    x as int,
                    (difference % 256) as u8,
                ),
                2,
            )
        },
        Instruction::Shl(x, y) => advance(
            with_register(
                with_flag(m, v[y as int] >= 128),
                x as int,
                ((v[y as int] * 2) % 256) as u8,
            ),
            2,
        ),
        Instruction::SneR(x, y) => skip_if(m, v[x as int] != v[y as int]),
        Instruction::LdI(nnn) => advance(Machine { index_register: nnn, ..m }, 2),
        Instruction::JpI(nnn) => jump(m, nnn + v[0]),
        Instruction::Rnd(x, kk) => advance(with_register(m, x as int, random & kk), 2),
        Instruction::Drw(x, y, n) => if i + n > 4096 {
            Err(Fault::MemoryOutOfBounds)
        } else {
            let vx = v[x as int] as int;
            let vy = v[y as int] as int;
            advance(
                with_flag(
                    Machine {
                        display: drawn(m.display, m.memory, i, n as int, vx, vy),
                        needs_redraw: true,
                        ..m
                    },
                    collides(m.display, m.memory, i, n as int, vx, vy),
                ),
                2,
            )
        },
        Instruction::Skp(x) => if v[x as int] >= 16 {
            Err(Fault::KeyOutOfBounds)
        } else {
            skip_if(m, keys[v[x as int] as int])
        },
        Instruction::SkpN(x) => if v[x as int] >= 16 {
            Err(Fault::KeyOutOfBounds)
        } else {
            skip_if(m, !keys[v[x as int] as int])
        },
        Instruction::LdD(x) => advance(with_register(m, x as int, m.delay_timer), 2),
        Instruction::LdW(x) => match first_key_down(m.keypad, keys) {
            Some(key) => advance(with_register(m, x as int, key), 2),
            None => Ok(m),
        },
        Instruction::LdSD(x) => advance(Machine { delay_timer: v[x as int], ..m }, 2),
        Instruction::LdS(x) => advance(Machine { sound_timer: v[x as int], ..m }, 2),
        Instruction::AddI(x) => if i + v[x as int] > 0xFFF {
            Err(Fault::MemoryOutOfBounds)
        } else {
            advance(Machine { index_register: (i + v[x as int]) as u16, ..m }, 2)
        },
        Instruction::LdSp(x) => advance(
            Machine { index_register: (5 * v[x as int]) as u16, ..m },
            2,
        ),
        Instruction::LdBCD(x) => if i + 2 > 4095 {
            Err(Fault::MemoryOutOfBounds)
        } else {
            let value = v[x as int];
            advance(
                Machine {
                    memory: m.memory.update(i, (value / 100) as u8).update(
                        i + 1,
                        ((value / 10) % 10) as u8,
                    ).update(i + 2, (value % 10) as u8),
                    ..m
                },
                2,
            )
        },
        Instruction::LdIR(x) => if i + x > 4095 {
            Err(Fault::MemoryOutOfBounds)
        } else {
            advance(Machine { memory: registers_stored(m.memory, v, i, x as int), ..m }, 2)
        },
        Instruction::LdIRM(x) => if i + x > 4095 {
            Err(Fault::MemoryOutOfBounds)
        } else {
            advance(Machine { registers: registers_loaded(v, m.memory, i, x as int), ..m }, 2)
        },
    }
}

/// 1 for a set flag, 0 for a clear one.
fn flag_byte(flag: bool) -> (r: u8)
    ensures
        r == if flag {
            1u8
        } else {
            0u8
        },
{
    if flag {
        1
    } else {
        0
    }
}

/// Stores `V0..=Vx` in memory from `I` on.
fn store_registers(state: &mut InterpreterData, x: u8)
    requires
        x < 16,
        old(state).i + x <= 4095,
    ensures
        final(state)@ == (Machine {
            memory: registers_stored(
                old(state)@.memory,
                old(state)@.registers,
                old(state).i as int,
                x as int,
            ),
            ..old(state)@
        }),
{
    let ghost before = state@;
    let base = state.i as usize;
    let mut k: u8 = 0;
    while k <= x
        invariant
            k <= x + 1,
            x < 16,
            base == before.index_register,
            base + x <= 4095,
            state@ == (Machine { memory: state@.memory, ..before }),
            state@.memory == registers_stored(
                before.memory,
                before.registers,
                base as int,
                k - 1,
            ),
        decreases x + 1 - k,
    {
        state.mem[base + k as usize] = state.v[k as usize];
        k += 1;
        assert(state@.memory =~= registers_stored(
            before.memory,
            before.registers,
            base as int,
            k - 1,
        ));
        assert(state@ =~~= (Machine { memory: state@.memory, ..before }));
    }
}

/// Loads `V0..=Vx` from memory at `I` on.
fn load_registers(state: &mut InterpreterData, x: u8)
    requires
        x < 16,
        old(state).i + x <= 4095,
    ensures
        final(state)@ == (Machine {
            registers: registers_loaded(
                old(state)@.registers,
                old(state)@.memory,
                old(state).i as int,
                x as int,
            ),
            ..old(state)@
        }),
{
    let ghost before = state@;
    let base = state.i as usize;
    let mut k: u8 = 0;
    while k <= x
        invariant
            k <= x + 1,
            x < 16,
            base == before.index_register,
            base + x <= 4095,
            state@ == (Machine { registers: state@.registers, ..before }),
            state@.registers == registers_loaded(
                before.registers,
                before.memory,
                base as int,
                k - 1,
            ),
        decreases x + 1 - k,
    {
        state.v[k as usize] = state.mem[base + k as usize];
        k += 1;
        assert(state@.registers =~= registers_loaded(
            before.registers,
            before.memory,
            base as int,
            k - 1,
        ));
        assert(state@ =~~= (Machine { registers: state@.registers, ..before }));
    }
}

/// The instructions that only move the program counter or the stack.
pub open spec fn is_control_flow(instruction: Instruction) -> bool {
    match instruction {
        Instruction::Sys(_) | Instruction::Ret | Instruction::Jp(_) | Instruction::Call(_)
        | Instruction::JpI(_) | Instruction::Se(_, _) | Instruction::Sne(_, _)
        | Instruction::SeR(_, _) | Instruction::SneR(_, _) | Instruction::Skp(_)
        | Instruction::SkpN(_) => true,
        _ => false,
    }
}

/// The instructions that write one register from registers, a constant,
/// the random byte or the delay timer.
pub open spec fn is_register_write(instruction: Instruction) -> bool {
    match instruction {
        Instruction::Ld(_, _) | Instruction::Add(_, _) | Instruction::LdR(_, _)
        | Instruction::Or(_, _) | Instruction::And(_, _) | Instruction::Xor(_, _)
        | Instruction::Rnd(_, _) | Instruction::LdD(_) => true,
        _ => false,
    }
}

/// The arithmetic and shift instructions that also write `VF`.
pub open spec fn is_flagged_arithmetic(instruction: Instruction) -> bool {
    match instruction {
        Instruction::AddR(_, _) | Instruction::Sub(_, _) | Instruction::Shr(_, _)
        | Instruction::SubN(_, _) | Instruction::Shl(_, _) => true,
        _ => false,
    }
}

/// The instructions that write a timer, the address register or memory,
/// or load registers from memory.
pub open spec fn is_memory_or_timer(instruction: Instruction) -> bool {
    match instruction {
        Instruction::LdSD(_) | Instruction::LdS(_) | Instruction::LdI(_)
        | Instruction::AddI(_) | Instruction::LdSp(_) | Instruction::LdBCD(_)
        | Instruction::LdIR(_) | Instruction::LdIRM(_) => true,
        _ => false,
    }
}

/// What `emulate` owes once it has found the program counter fetchable
/// and the instruction well formed.
pub open spec fn carried_out(
    before: Machine,
    after: Machine,
    r: Result<(), Fault>,
    instruction: Instruction,
    keys: Seq<bool>,
    random: u8,
) -> bool {
    match effect(before, instruction, keys, random) {
        Ok(m) => r is Ok && after == m,
        Err(f) => r == Err::<(), Fault>(f) && after == before,
    }
}

/// Jumps, calls, returns and skips.
fn emulate_control_flow(
    instruction: Instruction,
    emu_state: &mut InterpreterData,
    cur_pressed_keys: &[bool; 16],
    Ghost(random): Ghost<u8>,
) -> (r: Result<(), Fault>)
    requires
        old(emu_state).pc <= 4094,
        instruction.well_formed(),
        is_control_flow(instruction),
    ensures
        carried_out(
            old(emu_state)@,
            final(emu_state)@,
            r,
            instruction,
            cur_pressed_keys@,
            random,
        ),
{
    let next: u16 = emu_state.pc + 2;
    let skip: u16 = emu_state.pc + 4;
    let target: u16 = match instruction {
        Instruction::Sys(_) => next,
        Instruction::Ret => {
            if emu_state.sp == 0 {
                return Err(Fault::StackUnderflow);
            }
            if emu_state.sp > 16 {
                return Err(Fault::StackOverflow);
            }
            let address = emu_state.stack[emu_state.sp as usize - 1];
            if address > LAST_INSTRUCTION {
                return Err(Fault::MemoryOutOfBounds);
            }
            emu_state.sp -= 1;
            address
        },
        Instruction::Jp(nnn) => nnn,
        Instruction::Call(nnn) => {
            if emu_state.sp >= 16 {
                return Err(Fault::StackOverflow);
            }
            if nnn > LAST_INSTRUCTION {
                return Err(Fault::MemoryOutOfBounds);
            }
            emu_state.stack[emu_state.sp as usize] = next;
            emu_state.sp += 1;
            nnn
        },
        Instruction::JpI(nnn) => nnn + emu_state.v[0] as u16,
        Instruction::Se(x, kk) => if emu_state.v[x as usize] == kk {
            skip
        } else {
            next
        },
        Instruction::Sne(x, kk) => if emu_state.v[x as usize] != kk {
            skip
        } else {
            next
        },
        Instruction::SeR(x, y) => if emu_state.v[x as usize] == emu_state.v[y as usize] {
            skip
        } else {
            next
        },
        Instruction::SneR(x, y) => if emu_state.v[x as usize] != emu_state.v[y as usize] {
            skip
        } else {
            next
        },
        Instruction::Skp(x) => {
            let key = emu_state.v[x as usize];
            if key >= 16 {
                return Err(Fault::KeyOutOfBounds);
            }
            if cur_pressed_keys[key as usize] {
                skip
            } else {
                next
            }
        },
        Instruction::SkpN(x) => {
            let key = emu_state.v[x as usize];
            if key >= 16 {
                return Err(Fault::KeyOutOfBounds);
            }
            if !cur_pressed_keys[key as usize] {
                skip
            } else {
                next
            }
        },
        _ => next,
    };
    if target > LAST_INSTRUCTION {
        return Err(Fault::MemoryOutOfBounds);
    }
    emu_state.pc = target;
    proof {
        let expected = effect(old(emu_state)@, instruction, cur_pressed_keys@, random);
        assert(expected matches Ok(m) && emu_state@ =~~= m);
    }
    Ok(())
}

/// Loads and logic on registers: the instructions that write `Vx` alone.
fn emulate_register_write(
    instruction: Instruction,
    emu_state: &mut InterpreterData,
    Ghost(keys): Ghost<Seq<bool>>,
    random: u8,
) -> (r: Result<(), Fault>)
    requires
        old(emu_state).pc <= 4094,
        instruction.well_formed(),
        is_register_write(instruction),
    ensures
        carried_out(old(emu_state)@, final(emu_state)@, r, instruction, keys, random),
{
    if emu_state.pc + 2 > LAST_INSTRUCTION {
        return Err(Fault::MemoryOutOfBounds);
    }
    let ghost before = emu_state@;
    let (x, value): (u8, u8) = match instruction {
        Instruction::Ld(x, kk) => (x, kk),
        Instruction::Add(x, kk) => (x, emu_state.v[x as usize].wrapping_add(kk)),
        Instruction::LdR(x, y) => (x, emu_state.v[y as usize]),
        Instruction::Or(x, y) => (x, emu_state.v[x as usize] | emu_state.v[y as usize]),
        Instruction::And(x, y) => (x, emu_state.v[x as usize] & emu_state.v[y as usize]),
        Instruction::Xor(x, y) => (x, emu_state.v[x as usize] ^ emu_state.v[y as usize]),
        Instruction::Rnd(x, kk) => (x, random & kk),
        Instruction::LdD(x) => (x, emu_state.delay_timer),
        _ => (0, emu_state.v[0]),
    };
    assert(effect(before, instruction, keys, random) == advance(
        with_register(before, x as int, value),
        2,
    ));
    emu_state.v[x as usize] = value;
    emu_state.pc = emu_state.pc + 2;
    assert(emu_state@ =~~= (Machine {
        program_counter: (before.program_counter + 2) as u16,
        ..with_register(before, x as int, value)
    }));
    Ok(())
}

/// The sum of two bytes modulo 256, and whether it carried.
fn add_with_carry(a: u8, b: u8) -> (r: (u8, bool))
    ensures
        r.0 == (a + b) % 256,
        r.1 == (a + b > 255),
{
    (a.wrapping_add(b), a as u16 + b as u16 > 255)
}

/// The difference of two bytes modulo 256, and whether it did without a
/// borrow.
fn subtract_with_borrow(a: u8, b: u8) -> (r: (u8, bool))
    ensures
        r.0 == (a - b) % 256,
        r.1 == (a >= b),
{
    (a.wrapping_sub(b), a >= b)
}

/// A byte shifted right by one bit, and the bit shifted out.
fn shift_right(b: u8) -> (r: (u8, bool))
    ensures
        r.0 == b / 2,
        r.1 == (b % 2 == 1),
{
    assert((b & 1 == 1) == (b % 2 == 1) && b >> 1 == b / 2) by (bit_vector);
    (b >> 1, b & 1 == 1)
}

/// A byte shifted left by one bit modulo 256, and the bit shifted out.
fn shift_left(b: u8) -> (r: (u8, bool))
    ensures
        r.0 == (b * 2) % 256,
        r.1 == (b >= 128),
{
    assert((b & 0x80 != 0) == (b >= 128) && b << 1 == (b * 2) % 256) by (bit_vector);
    (b << 1, b & 0x80 != 0)
}

/// Arithmetic and shifts that also write the flag register `VF`.
fn emulate_flagged_arithmetic(
    instruction: Instruction,
    emu_state: &mut InterpreterData,
    Ghost(keys): Ghost<Seq<bool>>,
    Ghost(random): Ghost<u8>,
) -> (r: Result<(), Fault>)
    requires
        old(emu_state).pc <= 4094,
        instruction.well_formed(),
        is_flagged_arithmetic(instruction),
    ensures
        carried_out(old(emu_state)@, final(emu_state)@, r, instruction, keys, random),
{
    if emu_state.pc + 2 > LAST_INSTRUCTION {
        return Err(Fault::MemoryOutOfBounds);
    }
    let ghost before = emu_state@;
    match instruction {
        Instruction::AddR(x, y) => {
            let (sum, carry) = add_with_carry(emu_state.v[x as usize], emu_state.v[y as usize]);
            emu_state.v[x as usize] = sum;
            emu_state.v[0xF] = flag_byte(carry);
            assert(emu_state.v@ =~= with_flag(
                with_register(before, x as int, sum),
                carry,
            ).registers);
        },
        Instruction::Sub(x, y) => {
            let (difference, no_borrow) = subtract_with_borrow(
                emu_state.v[x as usize],
                emu_state.v[y as usize],
            );
            emu_state.v[0xF] = flag_byte(no_borrow);
            emu_state.v[x as usize] = difference;
            assert(emu_state.v@ =~= with_register(
                with_flag(before, no_borrow),
                x as int,
                difference,
            ).registers);
        },
        Instruction::Shr(x, y) => {
            let (shifted, out) = shift_right(emu_state.v[y as usize]);
            emu_state.v[0xF] = flag_byte(out);
            emu_state.v[x as usize] = shifted;
            assert(emu_state.v@ =~= with_register(
                with_flag(before, out),
                x as int,
                shifted,
            ).registers);
        },
        Instruction::SubN(x, y) => {
            let (difference, no_borrow) = subtract_with_borrow(
                emu_state.v[y as usize],
                emu_state.v[x as usize],
            );
            emu_state.v[0xF] = flag_byte(no_borrow);
            emu_state.v[x as usize] = difference;
            assert(emu_state.v@ =~= with_register(
                with_flag(before, no_borrow),
                x as int,
                difference,
            ).registers);
        },
        Instruction::Shl(x, y) => {
            let (shifted, out) = shift_left(emu_state.v[y as usize]);
            emu_state.v[0xF] = flag_byte(out);
            emu_state.v[x as usize] = shifted;
            assert(emu_state.v@ =~= with_register(
                with_flag(before, out),
                x as int,
                shifted,
            ).registers);
        },
        _ => {},
    }
    emu_state.pc = emu_state.pc + 2;
    proof {
        let expected = effect(before, instruction, keys, random);
        assert(expected matches Ok(m) && emu_state@ =~~= m);
    }
    Ok(())
}

/// Writes to the timers, the address register and memory, and loads from
/// memory.
fn emulate_memory_or_timer(
    instruction: Instruction,
    emu_state: &mut InterpreterData,
    Ghost(keys): Ghost<Seq<bool>>,
    Ghost(random): Ghost<u8>,
) -> (r: Result<(), Fault>)
    requires
        old(emu_state).pc <= 4094,
        instruction.well_formed(),
        is_memory_or_timer(instruction),
    ensures
        carried_out(old(emu_state)@, final(emu_state)@, r, instruction, keys, random),
{
    let fetchable = emu_state.pc + 2 <= LAST_INSTRUCTION;
    match instruction {
        Instruction::LdSD(x) => {
            if !fetchable {
                return Err(Fault::MemoryOutOfBounds);
            }
            emu_state.delay_timer = emu_state.v[x as usize];
        },
        Instruction::LdS(x) => {
            if !fetchable {
                return Err(Fault::MemoryOutOfBounds);
            }
            emu_state.sound_timer = emu_state.v[x as usize];
        },
        Instruction::LdI(nnn) => {
            if !fetchable {
                return Err(Fault::MemoryOutOfBounds);
            }
            emu_state.i = nnn;
        },
        Instruction::AddI(x) => {
            let sum = emu_state.i as u32 + emu_state.v[x as usize] as u32;
            if sum > 0xFFF || !fetchable {
                return Err(Fault::MemoryOutOfBounds);
            }
            emu_state.i = sum as u16;
        },
        Instruction::LdSp(x) => {
            if !fetchable {
                return Err(Fault::MemoryOutOfBounds);
            }
            emu_state.i = 5 * emu_state.v[x as usize] as u16;
        },
        Instruction::LdBCD(x) => {
            if emu_state.i > 4093 || !fetchable {
                return Err(Fault::MemoryOutOfBounds);
            }
            let value = emu_state.v[x as usize];
            let base = emu_state.i as usize;
            emu_state.mem[base] = value / 100;
            emu_state.mem[base + 1] = (value / 10) % 10;
            emu_state.mem[base + 2] = value % 10;
        },
        Instruction::LdIR(x) => {
            if emu_state.i as u32 + x as u32 > 4095 || !fetchable {
                return Err(Fault::MemoryOutOfBounds);
            }
            store_registers(emu_state, x);
        },
        Instruction::LdIRM(x) => {
            if emu_state.i as u32 + x as u32 > 4095 || !fetchable {
                return Err(Fault::MemoryOutOfBounds);
            }
            load_registers(emu_state, x);
        },
        _ => {},
    }
    emu_state.pc = emu_state.pc + 2;
    proof {
        let expected = effect(old(emu_state)@, instruction, keys, random);
        assert(expected matches Ok(m) && emu_state@ =~~= m);
    }
    Ok(())
}

/// Clearing the display, drawing a sprite and waiting for a key.
fn emulate_display_or_wait(
    instruction: Instruction,
    emu_state: &mut InterpreterData,
    cur_pressed_keys: &[bool; 16],
    Ghost(random): Ghost<u8>,
) -> (r: Result<(), Fault>)
    requires
        old(emu_state).pc <= 4094,
        instruction.well_formed(),
        instruction is Cls || instruction is Drw || instruction is LdW,
    ensures
        carried_out(
            old(emu_state)@,
            final(emu_state)@,
            r,
            instruction,
            cur_pressed_keys@,
            random,
        ),
{
    let fetchable = emu_state.pc + 2 <= LAST_INSTRUCTION;
    match instruction {
        Instruction::Cls => {
            if !fetchable {
                return Err(Fault::MemoryOutOfBounds);
            }
            emu_state.screen = [[false; 32]; 64];
            emu_state.needs_redraw = true;
        },
        Instruction::Drw(x, y, n) => {
            if emu_state.i as u32 + n as u32 > 4096 || !fetchable {
                return Err(Fault::MemoryOutOfBounds);
            }
            let vx = emu_state.v[x as usize];
            let vy = emu_state.v[y as usize];
            let collision = draw_sprite(emu_state, n, vx, vy);
            emu_state.needs_redraw = true;
            emu_state.v[0xF] = flag_byte(collision);
        },
        Instruction::LdW(x) => {
            match find_first_key_down(&emu_state.keypad, cur_pressed_keys) {
                Some(key) => {
                    if !fetchable {
                        return Err(Fault::MemoryOutOfBounds);
                    }
                    emu_state.v[x as usize] = key;
                },
                None => {
                    return Ok(());
                },
            }
        },
        _ => {},
    }
    emu_state.pc = emu_state.pc + 2;
    proof {
        let expected = effect(old(emu_state)@, instruction, cur_pressed_keys@, random);
        assert(expected matches Ok(m) && emu_state@ =~~= m);
    }
    Ok(())
}

/// Carries out one instruction on the interpreter state.
///
/// `cur_pressed_keys` is the keypad now and `random` the byte that `Cxkk`
/// draws. On success the state is the next machine; on a fault it is
/// untouched.
pub fn emulate(
    instruction: Instruction,
    emu_state: &mut InterpreterData,
    cur_pressed_keys: &[bool; 16],
    random: u8,
) -> (r: Result<(), Fault>)
    ensures
        match execute(old(emu_state)@, instruction, cur_pressed_keys@, random) {
            Ok(m) => r is Ok && final(emu_state)@ == m,
            Err(f) => r == Err::<(), Fault>(f) && final(emu_state)@ == old(emu_state)@,
        },
        old(emu_state)@.valid() ==> final(emu_state)@.valid(),
{
    proof {
        law_execute_keeps_machine_valid(
            emu_state@,
            instruction,
            cur_pressed_keys@,
            random,
        );
    }
    if emu_state.pc > LAST_INSTRUCTION {
        return Err(Fault::MemoryOutOfBounds);
    }
    if !instruction.has_registers_in_range() {
        return Err(Fault::RegisterOutOfBounds);
    }
    if !instruction.has_operands_in_range() {
        return Err(Fault::InvalidOperand);
    }
    let r = match instruction {
        Instruction::Sys(_) | Instruction::Ret | Instruction::Jp(_) | Instruction::Call(_)
        | Instruction::JpI(_) | Instruction::Se(_, _) | Instruction::Sne(_, _)
        | Instruction::SeR(_, _) | Instruction::SneR(_, _) | Instruction::Skp(_)
        | Instruction::SkpN(_) => emulate_control_flow(
            instruction,
            emu_state,
            cur_pressed_keys,
            Ghost(random),
        ),
        Instruction::Ld(_, _) | Instruction::Add(_, _) | Instruction::LdR(_, _)
        | Instruction::Or(_, _) | Instruction::And(_, _) | Instruction::Xor(_, _)
        | Instruction::Rnd(_, _) | Instruction::LdD(_) => emulate_register_write(
            instruction,
            emu_state,
            Ghost(cur_pressed_keys@),
            random,
        ),
        Instruction::AddR(_, _) | Instruction::Sub(_, _) | Instruction::Shr(_, _)
        | Instruction::SubN(_, _) | Instruction::Shl(_, _) => emulate_flagged_arithmetic(
            instruction,
            emu_state,
            Ghost(cur_pressed_keys@),
            Ghost(random),
        ),
        Instruction::LdSD(_) | Instruction::LdS(_) | Instruction::LdI(_)
        | Instruction::AddI(_) | Instruction::LdSp(_) | Instruction::LdBCD(_)
        | Instruction::LdIR(_) | Instruction::LdIRM(_) => emulate_memory_or_timer(
            instruction,
            emu_state,
            Ghost(cur_pressed_keys@),
            Ghost(random),
        ),
        Instruction::Cls | Instruction::Drw(_, _, _) | Instruction::LdW(_) => {
            emulate_display_or_wait(instruction, emu_state, cur_pressed_keys, Ghost(random))
        },
    };
    assert(carried_out(
        old(emu_state)@,
        emu_state@,
        r,
        instruction,
        cur_pressed_keys@,
        random,
    ));
    r
}

/// What the instructions of `program` from position `from` on do when
/// carried out one after another: the machine where the run ends, and the
/// fault that ended it early if one did.
///
/// The instructions run as a stream: each moves the program counter as it
/// says, but the next one is the next in the list.
pub open spec fn run_from(
    m: Machine,
    program: Seq<Instruction>,
    from: int,
    keys: Seq<bool>,
    random: u8,
) -> (Machine, Result<(), Fault>)
    decreases program.len() - from,
{
    if from < 0 || from >= program.len() {
        (m, Ok(()))
    } else {
        match execute(m, program[from], keys, random) {
            Ok(next) => run_from(next, program, from + 1, keys, random),
            Err(fault) => (m, Err(fault)),
        }
    }
}

/// What the instructions of `program` do when carried out one after
/// another from the first.
pub open spec fn run(m: Machine, program: Seq<Instruction>, keys: Seq<bool>, random: u8) -> (
    Machine,
    Result<(), Fault>,
) {
    run_from(m, program, 0, keys, random)
}

/// Carries out the instructions of `program` one after another, as a
/// stream, and stops at the first fault. What ran before a fault stays
/// done; the faulting instruction changes nothing.
pub fn emulate_program(
    program: &Vec<Instruction>,
    emu_state: &mut InterpreterData,
    cur_pressed_keys: &[bool; 16],
    random: u8,
) -> (r: Result<(), Fault>)
    ensures
        (final(emu_state)@, r) == run(old(emu_state)@, program@, cur_pressed_keys@, random),
{
    let mut k: usize = 0;
    while k < program.len()
        invariant
            k <= program@.len(),
            run(old(emu_state)@, program@, cur_pressed_keys@, random) == run_from(
                emu_state@,
                program@,
                k as int,
                cur_pressed_keys@,
                random,
            ),
        decreases program@.len() - k,
    {
        match emulate(program[k], emu_state, cur_pressed_keys, random) {
            Ok(()) => {},
            Err(fault) => {
                return Err(fault);
            },
        }
        k += 1;
    }
    Ok(())
}

} // verus!
