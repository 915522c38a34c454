use chip8::cli::get_bin_file;
use chip8::instruction::Instruction;
use chip8::rom::{
    convert_bin_format, convert_program, decode_rom, invalid_instruction_message,
    jp_to_instruction_pos, load_rom, LoadError,
};
use chip8::state::{InterpreterData, FONTSET};

type I = Instruction;

#[test]
fn invalid_instruction_message_test() {
    assert_eq!(
        invalid_instruction_message(3, 0xffff),
        "Invalid instruction at position 3: 0xffff."
    );
    assert_eq!(invalid_instruction_message(0, 0), "Invalid instruction at position 0: 0x0.");
    assert_eq!(
        invalid_instruction_message(1792, 0x5de1),
        "Invalid instruction at position 1792: 0x5de1."
    );
    assert_eq!(
        invalid_instruction_message(10, 0x0a0b),
        "Invalid instruction at position 10: 0xa0b."
    );
}

#[test]
fn invalid_instruction_message_matches_formatting_test() {
    for (index, what) in [(9usize, 9u16), (10, 16), (99, 255), (100, 256), (usize::MAX, 0x8000)] {
        assert_eq!(
            invalid_instruction_message(index, what),
            format!("Invalid instruction at position {}: 0x{:x}.", index, what)
        );
    }
}

#[test]
fn jp_to_instruction_pos_test() {
    assert_eq!(jp_to_instruction_pos(0x200), 0);
    assert_eq!(jp_to_instruction_pos(0x202), 1);
    assert_eq!(jp_to_instruction_pos(0x203), 1);
    assert_eq!(jp_to_instruction_pos(0xdef), (0xdef - 0x200) / 2);
    assert_eq!(jp_to_instruction_pos(0xffff), 0x7eff);
}

#[test]
fn convert_bin_format_test() {
    assert_eq!(convert_bin_format(&[0x12, 0x34, 0xab, 0xcd]), Ok(vec![0x1234, 0xabcd]));
    assert_eq!(convert_bin_format(&[0x00, 0xe0]), Ok(vec![0x00e0]));
    assert_eq!(convert_bin_format(&[]), Ok(vec![]));
}

#[test]
fn convert_bin_format_rejects_odd_length_test() {
    for bytes in [vec![0x12u8], vec![0x12, 0x34, 0x56], vec![0; 4095]] {
        assert_eq!(
            convert_bin_format(&bytes),
            Err(String::from("Invalid input: the file is not an even length."))
        );
    }
}

#[test]
fn convert_program_test() {
    assert_eq!(
        convert_program(&vec![0x00e0, 0x6a12, 0xd123, 0x1200]),
        Ok(vec![I::Cls, I::Ld(0xa, 0x12), I::Drw(1, 2, 3), I::Jp(0x200)])
    );
    assert_eq!(convert_program(&vec![]), Ok(vec![]));
}

#[test]
fn convert_program_names_the_first_invalid_word_test() {
    assert_eq!(
        convert_program(&vec![0x00e0, 0x5121, 0xffff]),
        Err(String::from("Invalid instruction at position 1: 0x5121."))
    );
    assert_eq!(
        convert_program(&vec![0xe000]),
        Err(String::from("Invalid instruction at position 0: 0xe000."))
    );
}

#[test]
fn decode_rom_test() {
    assert_eq!(decode_rom(&[0x00, 0xee, 0xa1, 0x23]), Ok(vec![I::Ret, I::LdI(0x123)]));
    assert_eq!(
        decode_rom(&[0x00, 0xee, 0xa1]),
        Err(String::from("Invalid input: the file is not an even length."))
    );
    assert_eq!(
        decode_rom(&[0x00, 0xee, 0xff, 0xff]),
        Err(String::from("Invalid instruction at position 1: 0xffff."))
    );
}

#[test]
fn load_rom_copies_the_image_to_0x200_test() {
    let mut state = InterpreterData::new();
    assert_eq!(load_rom(&mut state, &[0x12, 0x34, 0x56, 0x78]), Ok(()));
    assert_eq!(&state.mem[0x200..0x205], &[0x12, 0x34, 0x56, 0x78, 0]);
    assert_eq!(state.mem[0x1ff], 0);
    assert_eq!(&state.mem[..80], &FONTSET);
    let mut expected = InterpreterData::new();
    expected.mem[0x200] = 0x12;
    expected.mem[0x201] = 0x34;
    expected.mem[0x202] = 0x56;
    expected.mem[0x203] = 0x78;
    assert_eq!(state, expected);
}

#[test]
fn load_rom_rejects_odd_length_and_changes_nothing_test() {
    for length in [1usize, 3, 101, 3583, 3585, 5001] {
        let mut state = InterpreterData::new();
        assert_eq!(load_rom(&mut state, &vec![0x60; length]), Err(LoadError::OddLength));
        assert_eq!(state, InterpreterData::new());
    }
}

#[test]
fn load_rom_takes_what_fits_test() {
    let mut state = InterpreterData::new();
    assert_eq!(load_rom(&mut state, &vec![0xaa; 3584]), Ok(()));
    assert_eq!(state.mem[0x200], 0xaa);
    assert_eq!(state.mem[4095], 0xaa);
    let mut state = InterpreterData::new();
    assert_eq!(load_rom(&mut state, &vec![0xaa; 3586]), Err(LoadError::TooLarge));
    assert_eq!(state, InterpreterData::new());
    let mut state = InterpreterData::new();
    assert_eq!(load_rom(&mut state, &[]), Ok(()));
    assert_eq!(state, InterpreterData::new());
}

#[test]
fn load_error_messages_test() {
    assert_eq!(LoadError::OddLength.message(), "Invalid input: the file is not an even length.");
    assert_eq!(LoadError::TooLarge.message(), "Invalid input: the file does not fit in memory.");
}

#[test]
fn get_bin_file_test() {
    assert_eq!(get_bin_file(&vec![]), "game.bin");
    assert_eq!(get_bin_file(&vec![String::from("chip8")]), "game.bin");
    assert_eq!(get_bin_file(&vec![String::from("chip8"), String::from("pong.ch8")]), "pong.ch8");
    assert_eq!(
        get_bin_file(&vec![String::from("chip8"), String::from("a"), String::from("b")]),
        "b"
    );
}
