//! The decoded instruction set.

use vstd::prelude::*;

verus! {

/// One decoded CHIP-8 instruction, carrying only the operands it needs.
///
/// `x` and `y` name registers, `kk` is a byte constant, `nnn` a twelve-bit
/// address and `n` a four-bit sprite height.
#[derive(PartialEq, Eq, Copy, Clone, Debug, Structural)]
pub enum Instruction {
    /// `0nnn`: a system call no machine still answers; does nothing.
    Sys(u16),
    /// `00E0`: clear the display.
    Cls,
    /// `00EE`: return from a subroutine.
    Ret,
    /// `1nnn`: jump to `nnn`.
    Jp(u16),
    /// `2nnn`: call the subroutine at `nnn`.
    Call(u16),
    /// `3xkk`: skip the next instruction if `Vx == kk`.
    Se(u8, u8),
    /// `4xkk`: skip the next instruction if `Vx != kk`.
    Sne(u8, u8),
    /// `5xy0`: skip the next instruction if `Vx == Vy`.
    SeR(u8, u8),
    /// `6xkk`: `Vx = kk`.
    Ld(u8, u8),
    /// `7xkk`: `Vx = Vx + kk`, wrapping, no flag.
    Add(u8, u8),
    /// `8xy0`: `Vx = Vy`.
    LdR(u8, u8),
    /// `8xy1`: `Vx = Vx | Vy`.
    Or(u8, u8),
    /// `8xy2`: `Vx = Vx & Vy`.
    And(u8, u8),
    /// `8xy3`: `Vx = Vx ^ Vy`.
    Xor(u8, u8),
    /// `8xy4`: `Vx = Vx + Vy`, wrapping; `VF` is the carry.
    AddR(u8, u8),
    /// `8xy5`: `Vx = Vx - Vy`, wrapping; `VF` is 1 unless the subtraction borrows.
    Sub(u8, u8),
    /// `8xy6`: `Vx = Vy >> 1`; `VF` is the bit shifted out.
    Shr(u8, u8),
    /// `8xy7`: `Vx = Vy - Vx`, wrapping; `VF` is 1 unless the subtraction borrows.
    SubN(u8, u8),
    /// `8xyE`: `Vx = Vy << 1`, wrapping; `VF` is the bit shifted out.
    Shl(u8, u8),
    /// `9xy0`: skip the next instruction if `Vx != Vy`.
    SneR(u8, u8),
    /// `Annn`: `I = nnn`.
    LdI(u16),
    /// `Bnnn`: jump to `nnn + V0`.
    JpI(u16),
    /// `Cxkk`: `Vx = random byte & kk`.
    Rnd(u8, u8),
    /// `Dxyn`: draw the `n`-row sprite at `I` at column `Vx`, row `Vy`.
    Drw(u8, u8, u8),
    /// `Ex9E`: skip the next instruction if key `Vx` is down.
    Skp(u8),
    /// `ExA1`: skip the next instruction if key `Vx` is up.
    SkpN(u8),
    /// `Fx07`: `Vx = delay timer`.
    LdD(u8),
    /// `Fx0A`: wait for a key to go down, then `Vx = that key`.
    LdW(u8),
    /// `Fx15`: `delay timer = Vx`.
    LdSD(u8),
    /// `Fx18`: `sound timer = Vx`.
    LdS(u8),
    /// `Fx1E`: `I = I + Vx`.
    AddI(u8),
    /// `Fx29`: `I =` address of the font glyph for `Vx`.
    LdSp(u8),
    /// `Fx33`: store the decimal digits of `Vx` at `I`, `I + 1`, `I + 2`.
    LdBCD(u8),
    /// `Fx55`: store `V0..=Vx` at `I..`.
    LdIR(u8),
    /// `Fx65`: load `V0..=Vx` from `I..`.
    LdIRM(u8),
}

/// Why a 16-bit word is not an instruction.
#[derive(PartialEq, Eq, Copy, Clone, Debug, Structural)]
pub enum InstructionError {
    /// No instruction has this encoding.
    InvalidInstruction,
}

impl Instruction {
    /// Every register operand names one of the sixteen registers.
    pub open spec fn registers_in_range(self) -> bool {
        match self {
            Instruction::Se(x, _) | Instruction::Sne(x, _) | Instruction::Ld(x, _)
            | Instruction::Add(x, _) | Instruction::Rnd(x, _) => x < 16,
            Instruction::SeR(x, y) | Instruction::LdR(x, y) | Instruction::Or(x, y)
            | Instruction::And(x, y) | Instruction::Xor(x, y) | Instruction::AddR(x, y)
            | Instruction::Sub(x, y) | Instruction::Shr(x, y) | Instruction::SubN(x, y)
            | Instruction::Shl(x, y) | Instruction::SneR(x, y) | Instruction::Drw(x, y, _) => x
                < 16 && y < 16,
            Instruction::Skp(x) | Instruction::SkpN(x) | Instruction::LdD(x)
            | Instruction::LdW(x) | Instruction::LdSD(x) | Instruction::LdS(x)
            | Instruction::AddI(x) | Instruction::LdSp(x) | Instruction::LdBCD(x)
            | Instruction::LdIR(x) | Instruction::LdIRM(x) => x < 16,
            _ => true,
        }
    }

    /// Every address operand fits in twelve bits and every sprite height in four.
    pub open spec fn operands_in_range(self) -> bool {
        match self {
            Instruction::Sys(nnn) | Instruction::Jp(nnn) | Instruction::Call(nnn)
            | Instruction::LdI(nnn) | Instruction::JpI(nnn) => nnn <= 0xFFF,
            Instruction::Drw(_, _, n) => n <= 0xF,
            _ => true,
        }
    }

    /// The instruction is one that some opcode word encodes.
    pub open spec fn well_formed(self) -> bool {
        self.registers_in_range() && self.operands_in_range()
    }

    /// Whether every register operand names one of the sixteen registers.
    pub fn has_registers_in_range(&self) -> (r: bool)
        ensures
            r == self.registers_in_range(),
    {
        match *self {
            Instruction::Se(x, _) | Instruction::Sne(x, _) | Instruction::Ld(x, _)
            | Instruction::Add(x, _) | Instruction::Rnd(x, _) => x < 16,
            Instruction::SeR(x, y) | Instruction::LdR(x, y) | Instruction::Or(x, y)
            | Instruction::And(x, y) | Instruction::Xor(x, y) | Instruction::AddR(x, y)
            | Instruction::Sub(x, y) | Instruction::Shr(x, y) | Instruction::SubN(x, y)
            | Instruction::Shl(x, y) | Instruction::SneR(x, y) | Instruction::Drw(x, y, _) => x
                < 16 && y < 16,
            Instruction::Skp(x) | Instruction::SkpN(x) | Instruction::LdD(x)
            | Instruction::LdW(x) | Instruction::LdSD(x) | Instruction::LdS(x)
            | Instruction::AddI(x) | Instruction::LdSp(x) | Instruction::LdBCD(x)
            | Instruction::LdIR(x) | Instruction::LdIRM(x) => x < 16,
            _ => true,
        }
    }

    /// Whether every address operand fits in twelve bits and every sprite
    /// height in four.
    pub fn has_operands_in_range(&self) -> (r: bool)
        ensures
            r == self.operands_in_range(),
    {
        match *self {
            Instruction::Sys(nnn) | Instruction::Jp(nnn) | Instruction::Call(nnn)
            | Instruction::LdI(nnn) | Instruction::JpI(nnn) => nnn <= 0xFFF,
            Instruction::Drw(_, _, n) => n <= 0xF,
            _ => true,
        }
    }
}

} // verus!
