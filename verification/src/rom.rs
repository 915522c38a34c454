//! Programs as bytes: turning a ROM image into opcode words and into
//! instructions, loading it into memory, and saying what is wrong with it.

use vstd::prelude::*;
use crate::decoder::{decode, program_to_enum};
use crate::engine::{make_word, word_of};
use crate::instruction::Instruction;
use crate::state::{InterpreterData, Machine};
use crate::text::{numeral, push_numeral, push_text};

verus! {

/// The most bytes a program can have: memory from 0x200 to the end.
pub const MAX_PROGRAM_SIZE: usize = 3584;

/// The message for the word `what` at position `index` that is no
/// instruction.
pub open spec fn invalid_instruction_text(index: nat, what: u16) -> Seq<char> {
    "Invalid instruction at position "@ + numeral(index, 10) + ": 0x"@ + numeral(what as nat, 16)
        + "."@
}

/// Says which word of a program is no instruction: its position in
/// decimal and the word in hexadecimal.
pub fn invalid_instruction_message(index: usize, what: u16) -> (r: String)
    ensures
        r@ == invalid_instruction_text(index as nat, what),
{
    let mut text = String::new();
    push_text(&mut text, "Invalid instruction at position ");
    push_numeral(&mut text, index, 10);
    push_text(&mut text, ": 0x");
    push_numeral(&mut text, what as usize, 16);
    push_text(&mut text, ".");
    assert(text@ =~= invalid_instruction_text(index as nat, what));
    text
}

/// The position, counted in instructions from the start of the program
/// area, of the instruction at byte address `d`.
pub fn jp_to_instruction_pos(d: u16) -> (r: u16)
    requires
        d >= 0x200,
    ensures
        r == (d - 0x200) / 2,
{
    (d - 0x200) / 2
}

/// The opcode words of a ROM image: each pair of bytes, the high byte
/// first.
pub open spec fn words_of(bytes: Seq<u8>) -> Seq<u16> {
    Seq::new(bytes.len() / 2, |k: int| word_of(bytes[2 * k], bytes[2 * k + 1]))
}

/// Splits a ROM image into opcode words. An image of odd length is
/// rejected: every instruction is two bytes.
pub fn convert_bin_format(bytes: &[u8]) -> (r: Result<Vec<u16>, String>)
    ensures
        bytes@.len() % 2 == 0 ==> (r matches Ok(words) && words@ == words_of(bytes@)),
        bytes@.len() % 2 == 1 ==> (r matches Err(message) && message@
            == "Invalid input: the file is not an even length."@),
{
    if bytes.len() % 2 == 1 {
        return Err("Invalid input: the file is not an even length.".to_owned());
    }
    let count = bytes.len() / 2;
    let mut result: Vec<u16> = Vec::with_capacity(count);
    let mut k: usize = 0;
    while k < count
        invariant
            k <= count,
            count * 2 == bytes@.len() <= usize::MAX,
            result@.len() == k,
            forall|j: int| 0 <= j < k ==> result@[j] == word_of(bytes@[2 * j], bytes@[2 * j + 1]),
        decreases count - k,
    {
        result.push(make_word(bytes[2 * k], bytes[2 * k + 1]));
        k += 1;
    }
    assert(result@ =~= words_of(bytes@));
    Ok(result)
}

/// Position `p` holds the first word of `data` that is no instruction.
pub open spec fn is_first_invalid(data: Seq<u16>, p: int) -> bool {
    &&& 0 <= p < data.len()
    &&& decode(data[p]) is None
    &&& forall|j: int| 0 <= j < p ==> decode(#[trigger] data[j]) is Some
}

/// Decodes every word of a program. The first word that is no instruction
/// fails the whole program, with a message that names it.
pub fn convert_program(data: &Vec<u16>) -> (r: Result<Vec<Instruction>, String>)
    ensures
        match r {
            Ok(program) => program@.len() == data@.len() && forall|k: int|
                0 <= k < data@.len() ==> decode(#[trigger] data@[k]) == Some(program@[k]),
            Err(message) => exists|p: int|
                is_first_invalid(data@, p) && message@ == invalid_instruction_text(
                    p as nat,
                    data@[p],
                ),
        },
{
    let mut result: Vec<Instruction> = Vec::with_capacity(data.len());
    let mut pos: usize = 0;
    while pos < data.len()
        invariant
            pos <= data@.len(),
            result@.len() == pos,
            forall|k: int| 0 <= k < pos ==> decode(#[trigger] data@[k]) == Some(result@[k]),
        decreases data@.len() - pos,
    {
        match program_to_enum(data[pos]) {
            Ok(d) => result.push(d),
            Err(_) => {
                assert(is_first_invalid(data@, pos as int));
                return Err(invalid_instruction_message(pos, data[pos]));
            },
        }
        pos += 1;
    }
    Ok(result)
}

/// Decodes a ROM image: its words, then their instructions.
pub fn decode_rom(bytes: &[u8]) -> (r: Result<Vec<Instruction>, String>)
    ensures
        bytes@.len() % 2 == 1 ==> (r matches Err(message) && message@
            == "Invalid input: the file is not an even length."@),
        bytes@.len() % 2 == 0 ==> match r {
            Ok(program) => program@.len() == words_of(bytes@).len() && forall|k: int|
                0 <= k < program@.len() ==> decode(#[trigger] words_of(bytes@)[k]) == Some(
                    program@[k],
                ),
            Err(message) => exists|p: int|
                is_first_invalid(words_of(bytes@), p) && message@ == invalid_instruction_text(
                    p as nat,
                    words_of(bytes@)[p],
                ),
        },
{
    match convert_bin_format(bytes) {
        Ok(words) => convert_program(&words),
        Err(message) => Err(message),
    }
}

/// Why a ROM image cannot be loaded.
#[derive(PartialEq, Eq, Copy, Clone, Debug, Structural)]
pub enum LoadError {
    /// The image has an odd number of bytes.
    OddLength,
    /// The image does not fit between 0x200 and the end of memory.
    TooLarge,
}

impl LoadError {
    /// The diagnostic for this error.
    pub fn message(&self) -> (r: String)
        ensures
            *self == LoadError::OddLength ==> r@
                == "Invalid input: the file is not an even length."@,
            *self == LoadError::TooLarge ==> r@
                == "Invalid input: the file does not fit in memory."@,
    {
        match self {
            LoadError::OddLength => "Invalid input: the file is not an even length.".to_owned(),
            LoadError::TooLarge => "Invalid input: the file does not fit in memory.".to_owned(),
        }
    }
}

/// Memory with `bytes` copied in from address 0x200 on.
pub open spec fn memory_with_program(memory: Seq<u8>, bytes: Seq<u8>) -> Seq<u8> {
    Seq::new(
        memory.len(),
        |a: int|
            if 0x200 <= a < 0x200 + bytes.len() {
                bytes[a - 0x200]
            } else {
                memory[a]
            },
    )
}

/// Copies a ROM image into memory at 0x200. An image of odd length or one
/// that does not fit is rejected, and then nothing changes: no
/// instruction of a rejected image can ever run.
pub fn load_rom(state: &mut InterpreterData, bytes: &[u8]) -> (r: Result<(), LoadError>)
    ensures
        bytes@.len() % 2 == 1 ==> r == Err::<(), LoadError>(LoadError::OddLength),
        bytes@.len() % 2 == 0 && bytes@.len() > 3584 ==> r == Err::<(), LoadError>(
            LoadError::TooLarge,
        ),
        bytes@.len() % 2 == 0 && bytes@.len() <= 3584 ==> r is Ok,
        r is Err ==> final(state)@ == old(state)@,
        r is Ok ==> final(state)@ == (Machine {
            memory: memory_with_program(old(state)@.memory, bytes@),
            ..old(state)@
        }),
{
    if bytes.len() % 2 == 1 {
        return Err(LoadError::OddLength);
    }
    if bytes.len() > MAX_PROGRAM_SIZE {
        return Err(LoadError::TooLarge);
    }
    let ghost before = state@;
    let mut k: usize = 0;
    while k < bytes.len()
        invariant
            k <= bytes@.len() <= 3584,
            state@ == (Machine { memory: state@.memory, ..before }),
            state@.memory == memory_with_program(before.memory, bytes@.take(k as int)),
        decreases bytes@.len() - k,
    {
        state.mem[0x200 + k] = bytes[k];
        k += 1;
        assert(state@.memory =~= memory_with_program(before.memory, bytes@.take(k as int)));
        assert(state@ =~~= (Machine { memory: state@.memory, ..before }));
    }
    assert(bytes@.take(k as int) =~= bytes@);
    Ok(())
}

} // verus!
