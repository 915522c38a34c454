//! The interpreter state and its mathematical model.

use vstd::prelude::*;

verus! {

/// Rows of the display.
pub const NUM_ROWS: usize = 32;

/// Columns of the display.
pub const NUM_COLS: usize = 64;

/// Bytes of memory.
pub const MEMORY_SIZE: usize = 4096;

/// Where a program is loaded, and where execution starts.
pub const PROGRAM_START: u16 = 0x200;

/// The highest address an instruction can be fetched from: a fetch reads
/// two bytes.
pub const LAST_INSTRUCTION: u16 = 4094;

/// Levels of the call stack.
pub const STACK_DEPTH: usize = 16;

/// Bytes of font data: sixteen glyphs of five rows each.
pub const FONT_SIZE: usize = 80;

/// The built-in hexadecimal font; glyph `d` starts at byte `5 * d`.
pub const FONTSET: [u8; 80] = [
    0xF0, 0x90, 0x90, 0x90, 0xF0,
    0x20, 0x60, 0x20, 0x20, 0x70,
    0xF0, 0x10, 0xF0, 0x80, 0xF0,
    0xF0, 0x10, 0xF0, 0x10, 0xF0,
    0x90, 0x90, 0xF0, 0x10, 0x10,
    0xF0, 0x80, 0xF0, 0x10, 0xF0,
    0xF0, 0x80, 0xF0, 0x90, 0xF0,
    0xF0, 0x10, 0x20, 0x40, 0x40,
    0xF0, 0x90, 0xF0, 0x90, 0xF0,
    0xF0, 0x90, 0xF0, 0x10, 0xF0,
    0xF0, 0x90, 0xF0, 0x90, 0x90,
    0xE0, 0x90, 0xE0, 0x90, 0xE0,
    0xF0, 0x80, 0x80, 0x80, 0xF0,
    0xE0, 0x90, 0x90, 0x90, 0xE0,
    0xF0, 0x80, 0xF0, 0x80, 0xF0,
    0xF0, 0x80, 0xF0, 0x80, 0x80,
];

/// A condition that no program can recover from.
#[derive(PartialEq, Eq, Copy, Clone, Debug, Structural)]
pub enum Fault {
    /// A call with all sixteen stack levels in use.
    StackOverflow,
    /// A return with no call to return from.
    StackUnderflow,
    /// An address outside memory, or a program counter that no instruction
    /// can be fetched from.
    MemoryOutOfBounds,
    /// A register operand that is not one of `V0..=VF`.
    RegisterOutOfBounds,
    /// A key number that is not one of the sixteen keys.
    KeyOutOfBounds,
    /// An address operand wider than twelve bits or a sprite height wider
    /// than four.
    InvalidOperand,
}

/// The machine as a mathematical value: what every contract speaks of.
#[verifier::ext_equal]
pub struct Machine {
    /// `V0..=VF`.
    pub registers: Seq<u8>,
    /// `I`.
    pub index_register: u16,
    /// Byte offset of the next instruction.
    pub program_counter: u16,
    /// Return addresses; the entries below `stack_pointer` are live.
    pub stack: Seq<u16>,
    /// Index of the next free stack slot.
    pub stack_pointer: u8,
    pub delay_timer: u8,
    pub sound_timer: u8,
    pub memory: Seq<u8>,
    /// `display[column][row]`.
    pub display: Seq<Seq<bool>>,
    /// The keypad as of the previous tick.
    pub keypad: Seq<bool>,
    /// Set by every instruction that writes the display.
    pub needs_redraw: bool,
}

impl Machine {
    /// Every component has the size the hardware gives it.
    pub open spec fn well_formed(self) -> bool {
        &&& self.registers.len() == 16
        &&& self.stack.len() == 16
        &&& self.memory.len() == 4096
        &&& self.keypad.len() == 16
        &&& self.display.len() == 64
        &&& forall|c: int| 0 <= c < 64 ==> (#[trigger] self.display[c]).len() == 32
    }

    /// The invariants of a running machine: an instruction can be fetched
    /// at the program counter, the stack pointer is within the stack, and
    /// the address register is within memory.
    pub open spec fn valid(self) -> bool {
        &&& self.well_formed()
        &&& self.program_counter <= 4094
        &&& self.stack_pointer <= 16
        &&& self.index_register <= 0xFFF
    }
}

/// A display with every pixel off.
pub open spec fn blank_display() -> Seq<Seq<bool>> {
    Seq::new(64, |c: int| Seq::new(32, |r: int| false))
}

/// Memory at power-on: the font at address 0, zero everywhere else.
pub open spec fn initial_memory() -> Seq<u8> {
    Seq::new(
        4096,
        |a: int|
            if a < 80 {
                FONTSET[a]
            } else {
                0u8
            },
    )
}

/// The machine at power-on.
pub open spec fn initial_machine() -> Machine {
    Machine {
        registers: Seq::new(16, |i: int| 0u8),
        index_register: 0,
        program_counter: 0x200,
        stack: Seq::new(16, |i: int| 0u16),
        stack_pointer: 0,
        delay_timer: 0,
        sound_timer: 0,
        memory: initial_memory(),
        display: blank_display(),
        keypad: Seq::new(16, |k: int| false),
        needs_redraw: false,
    }
}

/// All data the interpreter works on.
#[derive(Clone, Debug, PartialEq, Eq)]
pub struct InterpreterData {
    /// The general-purpose registers `V0..=VF`.
    pub v: [u8; 16],
    /// The address register `I`.
    pub i: u16,
    /// The program counter: a byte offset into `mem`.
    pub pc: u16,
    /// The stack pointer: index of the next free slot of `stack`.
    pub sp: u8,
    /// The call stack of return addresses.
    pub stack: [u16; 16],
    /// The delay timer, counted down at 60 Hz.
    pub delay_timer: u8,
    /// The sound timer, counted down at 60 Hz.
    pub sound_timer: u8,
    /// Memory: font at 0x000, program from 0x200.
    pub mem: [u8; 4096],
    /// The display, indexed `screen[column][row]`.
    pub screen: [[bool; 32]; 64],
    /// The keypad as of the previous tick.
    pub keypad: [bool; 16],
    /// Whether the display changed since the renderer last took a frame.
    pub needs_redraw: bool,
}

impl View for InterpreterData {
    type V = Machine;

    open spec fn view(&self) -> Machine {
        Machine {
            registers: self.v@,
            index_register: self.i,
            program_counter: self.pc,
            stack: self.stack@,
            stack_pointer: self.sp,
            delay_timer: self.delay_timer,
            sound_timer: self.sound_timer,
            memory: self.mem@,
            display: Seq::new(64, |c: int| self.screen[c]@),
            keypad: self.keypad@,
            needs_redraw: self.needs_redraw,
        }
    }
}

impl InterpreterData {
    /// The machine at power-on: everything zero but the font in low memory
    /// and the program counter at the start of the program area.
    pub fn new() -> (r: Self)
        ensures
            r@ == initial_machine(),
            r@.valid(),
    {
        let mut mem = [0u8; 4096];
        let mut a: usize = 0;
        while a < 80
            invariant
                a <= 80,
                forall|b: int| 0 <= b < a ==> mem[b] == FONTSET[b],
                forall|b: int| a <= b < 4096 ==> mem[b] == 0,
            decreases 80 - a,
        {
            mem[a] = FONTSET[a];
            a += 1;
        }
        let r = InterpreterData {
            v: [0u8; 16],
            i: 0,
            pc: PROGRAM_START,
            sp: 0,
            stack: [0u16; 16],
            delay_timer: 0,
            sound_timer: 0,
            mem,
            screen: [[false; 32]; 64],
            keypad: [false; 16],
            needs_redraw: false,
        };
        assert(r@ =~~= initial_machine());
        r
    }

    /// The value of register `reg`; a fault if there is no such register.
    pub fn get_register(&self, reg: u8) -> (r: Result<u8, Fault>)
        ensures
            reg < 16 ==> r == Ok::<u8, Fault>(self@.registers[reg as int]),
            reg >= 16 ==> r == Err::<u8, Fault>(Fault::RegisterOutOfBounds),
    {
        if reg >= 16 {
            return Err(Fault::RegisterOutOfBounds);
        }
        Ok(self.v[reg as usize])
    }

    /// Sets register `reg` to `value` and leaves everything else alone; a
    /// fault, and nothing changed, if there is no such register.
    pub fn set_register(&mut self, reg: u8, value: u8) -> (r: Result<(), Fault>)
        ensures
            reg < 16 ==> r is Ok && final(self)@ == (Machine {
                registers: old(self)@.registers.update(reg as int, value),
                ..old(self)@
            }),
            reg >= 16 ==> r == Err::<(), Fault>(Fault::RegisterOutOfBounds) && final(self)@
                == old(self)@,
    {
        if reg >= 16 {
            return Err(Fault::RegisterOutOfBounds);
        }
        self.v[reg as usize] = value;
        assert(self@ =~~= (Machine {
            registers: old(self)@.registers.update(reg as int, value),
            ..old(self)@
        }));
        Ok(())
    }

    /// The program counter moved forward by `amount` bytes, or a fault if no
    /// instruction can be fetched there. The state itself does not change.
    pub fn increment_pc(&self, amount: u16) -> (r: Result<u16, Fault>)
        ensures
            self.pc + amount <= 4094 ==> r == Ok::<u16, Fault>((self.pc + amount) as u16),
            self.pc + amount > 4094 ==> r == Err::<u16, Fault>(Fault::MemoryOutOfBounds),
    {
        if amount > LAST_INSTRUCTION || self.pc > LAST_INSTRUCTION - amount {
            Err(Fault::MemoryOutOfBounds)
        } else {
            Ok(self.pc + amount)
        }
    }

    /// Pushes a return address. With all sixteen levels in use this is a
    /// stack overflow and nothing changes.
    pub fn push_stack(&mut self, address: u16) -> (r: Result<(), Fault>)
        ensures
            old(self).sp < 16 ==> r is Ok && final(self)@ == (Machine {
                stack: old(self)@.stack.update(old(self).sp as int, address),
                stack_pointer: (old(self).sp + 1) as u8,
                ..old(self)@
            }),
            old(self).sp >= 16 ==> r == Err::<(), Fault>(Fault::StackOverflow) && final(self)@
                == old(self)@,
    {
        if self.sp >= 16 {
            return Err(Fault::StackOverflow);
        }
        self.stack[self.sp as usize] = address;
        self.sp += 1;
        assert(self@ =~~= (Machine {
            stack: old(self)@.stack.update(old(self).sp as int, address),
            stack_pointer: (old(self).sp + 1) as u8,
            ..old(self)@
        }));
        Ok(())
    }

    /// Pops the most recent return address. With nothing pushed this is a
    /// stack underflow; with a stack pointer beyond the stack, an overflow.
    /// Either way nothing changes.
    pub fn pop_stack(&mut self) -> (r: Result<u16, Fault>)
        ensures
            1 <= old(self).sp <= 16 ==> r == Ok::<u16, Fault>(
                old(self)@.stack[old(self).sp - 1],
            ) && final(self)@ == (Machine {
                stack_pointer: (old(self).sp - 1) as u8,
                ..old(self)@
            }),
            old(self).sp == 0 ==> r == Err::<u16, Fault>(Fault::StackUnderflow) && final(self)@
                == old(self)@,
            old(self).sp > 16 ==> r == Err::<u16, Fault>(Fault::StackOverflow) && final(self)@
                == old(self)@,
    {
        if self.sp == 0 {
            return Err(Fault::StackUnderflow);
        }
        if self.sp > 16 {
            return Err(Fault::StackOverflow);
        }
        self.sp -= 1;
        assert(self@ =~~= (Machine {
            stack_pointer: (old(self).sp - 1) as u8,
            ..old(self)@
        }));
        Ok(self.stack[self.sp as usize])
    }

    /// The model of every state is well formed: the arrays fix the sizes.
    pub proof fn law_view_is_well_formed(&self)
        ensures
            self@.well_formed(),
    {
    }
}

} // verus!
