//! The opcode decoder: a total, stateless map from 16-bit words to
//! instructions.

use vstd::prelude::*;
use crate::instruction::{Instruction, InstructionError};
use crate::nibble::{
    first_nibble, fourth_nibble, get_first_nibble, get_fourth_nibble, get_last_2_nibbles,
    get_last_3_nibbles, get_second_nibble, get_third_nibble, last_2_nibbles, last_3_nibbles,
    second_nibble, third_nibble,
};

verus! {

/// The instruction that the word `op` encodes, if any.
///
/// With `nnn`, `kk`, `x`, `y` and `n` the fields of `op`, this is the
/// opcode table: one line for each encoding, `None` for every other word.
pub open spec fn decode(op: u16) -> Option<Instruction> {
    let nnn = last_3_nibbles(op);
    let kk = last_2_nibbles(op);
    let x = third_nibble(op);
    let y = second_nibble(op);
    let n = first_nibble(op);
    let family = fourth_nibble(op);
    if op == 0x00E0 {
        Some(Instruction::Cls)
    } else if op == 0x00EE {
        Some(Instruction::Ret)
    } else if family == 0x0 {
        Some(Instruction::Sys(nnn))
    } else if family == 0x1 {
        Some(Instruction::Jp(nnn))
    } else if family == 0x2 {
        Some(Instruction::Call(nnn))
    } else if family == 0x3 {
        Some(Instruction::Se(x, kk))
    } else if family == 0x4 {
        Some(Instruction::Sne(x, kk))
    } else if family == 0x5 && n == 0 {
        Some(Instruction::SeR(x, y))
    } else if family == 0x6 {
        Some(Instruction::Ld(x, kk))
    } else if family == 0x7 {
        Some(Instruction::Add(x, kk))
    } else if family == 0x8 && n == 0x0 {
        Some(Instruction::LdR(x, y))
    } else if family == 0x8 && n == 0x1 {
        Some(Instruction::Or(x, y))
    } else if family == 0x8 && n == 0x2 {
        Some(Instruction::And(x, y))
    } else if family == 0x8 && n == 0x3 {
        Some(Instruction::Xor(x, y))
    } else if family == 0x8 && n == 0x4 {
        Some(Instruction::AddR(x, y))
    } else if family == 0x8 && n == 0x5 {
        Some(Instruction::Sub(x, y))
    } else if family == 0x8 && n == 0x6 {
        Some(Instruction::Shr(x, y))
    } else if family == 0x8 && n == 0x7 {
        Some(Instruction::SubN(x, y))
    } else if family == 0x8 && n == 0xE {
        Some(Instruction::Shl(x, y))
    } else if family == 0x9 && n == 0 {
        Some(Instruction::SneR(x, y))
    } else if family == 0xA {
        Some(Instruction::LdI(nnn))
    } else if family == 0xB {
        Some(Instruction::JpI(nnn))
    } else if family == 0xC {
        Some(Instruction::Rnd(x, kk))
    } else if family == 0xD {
        Some(Instruction::Drw(x, y, n))
    } else if family == 0xE && kk == 0x9E {
        Some(Instruction::Skp(x))
    } else if family == 0xE && kk == 0xA1 {
        Some(Instruction::SkpN(x))
    } else if family == 0xF && kk == 0x07 {
        Some(Instruction::LdD(x))
    } else if family == 0xF && kk == 0x0A {
        Some(Instruction::LdW(x))
    } else if family == 0xF && kk == 0x15 {
        Some(Instruction::LdSD(x))
    } else if family == 0xF && kk == 0x18 {
        Some(Instruction::LdS(x))
    } else if family == 0xF && kk == 0x1E {
        Some(Instruction::AddI(x))
    } else if family == 0xF && kk == 0x29 {
        Some(Instruction::LdSp(x))
    } else if family == 0xF && kk == 0x33 {
        Some(Instruction::LdBCD(x))
    } else if family == 0xF && kk == 0x55 {
        Some(Instruction::LdIR(x))
    } else if family == 0xF && kk == 0x65 {
        Some(Instruction::LdIRM(x))
    } else {
        None
    }
}

/// Decodes one opcode word.
///
/// Every word is either exactly one instruction or invalid; an instruction
/// that comes out has all its operands in range.
pub fn program_to_enum(instruction: u16) -> (r: Result<Instruction, InstructionError>)
    ensures
        match decode(instruction) {
            Some(i) => r == Ok::<Instruction, InstructionError>(i),
            None => r == Err::<Instruction, InstructionError>(
                InstructionError::InvalidInstruction,
            ),
        },
        r matches Ok(i) ==> i.well_formed(),
{
    let x = get_third_nibble(instruction);
    let y = get_second_nibble(instruction);
    let n = get_first_nibble(instruction);
    let kk = get_last_2_nibbles(instruction);
    let nnn = get_last_3_nibbles(instruction);
    Ok(
        match get_fourth_nibble(instruction) {
            0x0 => {
                if instruction == 0x00E0 {
                    Instruction::Cls
                } else if instruction == 0x00EE {
                    Instruction::Ret
                } else {
                    Instruction::Sys(nnn)
                }
            },
            0x1 => Instruction::Jp(nnn),
            0x2 => Instruction::Call(nnn),
            0x3 => Instruction::Se(x, kk),
            0x4 => Instruction::Sne(x, kk),
            0x5 => {
                if n == 0 {
                    Instruction::SeR(x, y)
                } else {
                    return Err(InstructionError::InvalidInstruction);
                }
            },
            0x6 => Instruction::Ld(x, kk),
            0x7 => Instruction::Add(x, kk),
            0x8 => {
                match n {
                    0x0 => Instruction::LdR(x, y),
                    0x1 => Instruction::Or(x, y),
                    0x2 => Instruction::And(x, y),
                    0x3 => Instruction::Xor(x, y),
                    0x4 => Instruction::AddR(x, y),
                    0x5 => Instruction::Sub(x, y),
                    0x6 => Instruction::Shr(x, y),
                    0x7 => Instruction::SubN(x, y),
                    0xE => Instruction::Shl(x, y),
                    _ => return Err(InstructionError::InvalidInstruction),
                }
            },
            0x9 => {
                if n == 0 {
                    Instruction::SneR(x, y)
                } else {
                    return Err(InstructionError::InvalidInstruction);
                }
            },
            0xA => Instruction::LdI(nnn),
            0xB => Instruction::JpI(nnn),
            0xC => Instruction::Rnd(x, kk),
            0xD => Instruction::Drw(x, y, n),
            0xE => {
                match kk {
                    0x9E => Instruction::Skp(x),
                    0xA1 => Instruction::SkpN(x),
                    _ => return Err(InstructionError::InvalidInstruction),
                }
            },
            0xF => {
                match kk {
                    0x07 => Instruction::LdD(x),
                    0x0A => Instruction::LdW(x),
                    0x15 => Instruction::LdSD(x),
                    0x18 => Instruction::LdS(x),
                    0x1E => Instruction::AddI(x),
                    0x29 => Instruction::LdSp(x),
                    0x33 => Instruction::LdBCD(x),
                    0x55 => Instruction::LdIR(x),
                    0x65 => Instruction::LdIRM(x),
                    _ => return Err(InstructionError::InvalidInstruction),
                }
            },
            _ => return Err(InstructionError::InvalidInstruction),
        },
    )
}

/// Whatever the decoder gives has every operand in range: register
/// numbers come from four-bit fields and addresses from twelve-bit ones.
pub proof fn law_decoded_is_well_formed(op: u16)
    ensures
        decode(op) matches Some(i) ==> i.well_formed(),
{
}

} // verus!
