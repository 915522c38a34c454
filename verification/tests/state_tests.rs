use chip8::state::{Fault, InterpreterData, FONTSET};

#[test]
fn new_machine_test() {
    let state = InterpreterData::new();
    assert_eq!(state.v, [0; 16]);
    assert_eq!(state.i, 0);
    assert_eq!(state.pc, 0x200);
    assert_eq!(state.sp, 0);
    assert_eq!(state.stack, [0; 16]);
    assert_eq!(state.delay_timer, 0);
    assert_eq!(state.sound_timer, 0);
    assert_eq!(&state.mem[..80], &FONTSET);
    assert!(state.mem[80..].iter().all(|b| *b == 0));
    assert!(state.screen.iter().all(|column| column.iter().all(|p| !*p)));
    assert_eq!(state.keypad, [false; 16]);
    assert!(!state.needs_redraw);
}

#[test]
fn font_glyphs_are_five_rows_each_test() {
    assert_eq!(FONTSET.len(), 16 * 5);
    assert_eq!(&FONTSET[0..5], &[0xF0, 0x90, 0x90, 0x90, 0xF0]);
    assert_eq!(&FONTSET[5 * 1..5 * 2], &[0x20, 0x60, 0x20, 0x20, 0x70]);
    assert_eq!(&FONTSET[5 * 0xf..5 * 0x10], &[0xF0, 0x80, 0xF0, 0x80, 0x80]);
}

#[test]
fn registers_test() {
    let mut state = InterpreterData::new();
    assert_eq!(state.set_register(0, 7), Ok(()));
    assert_eq!(state.set_register(15, 9), Ok(()));
    assert_eq!(state.get_register(0), Ok(7));
    assert_eq!(state.get_register(15), Ok(9));
    assert_eq!(state.get_register(1), Ok(0));
    let mut expected = InterpreterData::new();
    expected.v[0] = 7;
    expected.v[15] = 9;
    assert_eq!(state, expected);
    assert_eq!(state.get_register(16), Err(Fault::RegisterOutOfBounds));
    assert_eq!(state.set_register(16, 1), Err(Fault::RegisterOutOfBounds));
    assert_eq!(state.set_register(255, 1), Err(Fault::RegisterOutOfBounds));
    assert_eq!(state, expected);
}

#[test]
fn increment_pc_test() {
    let mut state = InterpreterData::new();
    assert_eq!(state.increment_pc(2), Ok(0x202));
    assert_eq!(state.increment_pc(4), Ok(0x204));
    assert_eq!(state.pc, 0x200);
    state.pc = 4092;
    assert_eq!(state.increment_pc(2), Ok(4094));
    assert_eq!(state.increment_pc(4), Err(Fault::MemoryOutOfBounds));
    state.pc = 0xffff;
    assert_eq!(state.increment_pc(0xffff), Err(Fault::MemoryOutOfBounds));
    assert_eq!(state.increment_pc(0), Err(Fault::MemoryOutOfBounds));
}

#[test]
fn stack_test() {
    let mut state = InterpreterData::new();
    assert_eq!(state.pop_stack(), Err(Fault::StackUnderflow));
    for level in 0..16u16 {
        assert_eq!(state.push_stack(0x300 + level), Ok(()));
    }
    assert_eq!(state.sp, 16);
    let full = state.clone();
    assert_eq!(state.push_stack(0x999), Err(Fault::StackOverflow));
    assert_eq!(state, full);
    for level in (0..16u16).rev() {
        assert_eq!(state.pop_stack(), Ok(0x300 + level));
    }
    assert_eq!(state.sp, 0);
    assert_eq!(state.pop_stack(), Err(Fault::StackUnderflow));
    state.sp = 200;
    assert_eq!(state.pop_stack(), Err(Fault::StackOverflow));
    assert_eq!(state.push_stack(1), Err(Fault::StackOverflow));
    assert_eq!(state.sp, 200);
}
