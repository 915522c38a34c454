use chip8::execute::{emulate, emulate_program};
use chip8::instruction::Instruction;
use chip8::state::InterpreterData;

type I = Instruction;

const NO_KEYS: [bool; 16] = [false; 16];

fn lit(state: &InterpreterData) -> Vec<(usize, usize)> {
    let mut pixels = Vec::new();
    for col in 0..64 {
        for row in 0..32 {
            if state.screen[col][row] {
                pixels.push((col, row));
            }
        }
    }
    pixels
}

#[test]
fn sprite_bits_run_from_the_least_significant_test() {
    let mut state = InterpreterData::new();
    state.i = 0x300;
    state.mem[0x300] = 0b0000_0001;
    state.mem[0x301] = 0b1000_0000;
    state.mem[0x302] = 0b0000_0110;
    state.v[0] = 10;
    state.v[1] = 20;
    assert_eq!(emulate(I::Drw(0, 1, 3), &mut state, &NO_KEYS, 0), Ok(()));
    assert_eq!(lit(&state), vec![(10, 20), (11, 22), (12, 22), (17, 21)]);
    assert_eq!(state.v[0xf], 0);
    assert!(state.needs_redraw);
    assert_eq!(state.pc, 0x202);
}

#[test]
fn drawing_twice_erases_and_collides_test() {
    let mut state = InterpreterData::new();
    state.i = 0x300;
    state.mem[0x300] = 0xf0;
    state.mem[0x301] = 0x90;
    state.v[2] = 5;
    state.v[3] = 6;
    assert_eq!(emulate(I::Drw(2, 3, 2), &mut state, &NO_KEYS, 0), Ok(()));
    assert_eq!(lit(&state).len(), 6);
    assert_eq!(state.v[0xf], 0);
    assert_eq!(emulate(I::Drw(2, 3, 2), &mut state, &NO_KEYS, 0), Ok(()));
    assert_eq!(lit(&state), vec![]);
    assert_eq!(state.v[0xf], 1);
}

#[test]
fn drawing_a_font_glyph_twice_test() {
    for glyph in 0..16u8 {
        let mut state = InterpreterData::new();
        let program = vec![
            I::Ld(0, glyph),
            I::LdSp(0),
            I::Ld(1, 60),
            I::Ld(2, 30),
            I::Drw(1, 2, 5),
        ];
        assert_eq!(emulate_program(&program, &mut state, &NO_KEYS, 0), Ok(()));
        assert!(!lit(&state).is_empty());
        assert_eq!(state.v[0xf], 0);
        assert_eq!(emulate(I::Drw(1, 2, 5), &mut state, &NO_KEYS, 0), Ok(()));
        assert!(lit(&state).is_empty());
        assert_eq!(state.v[0xf], 1);
    }
}

#[test]
fn sprites_wrap_around_both_edges_test() {
    let mut state = InterpreterData::new();
    state.i = 0x300;
    state.mem[0x300] = 0xff;
    state.mem[0x301] = 0x01;
    state.v[0] = 60;
    state.v[1] = 31;
    assert_eq!(emulate(I::Drw(0, 1, 2), &mut state, &NO_KEYS, 0), Ok(()));
    assert_eq!(
        lit(&state),
        vec![(0, 31), (1, 31), (2, 31), (3, 31), (60, 0), (60, 31), (61, 31), (62, 31), (63, 31)]
    );
}

#[test]
fn coordinates_beyond_the_display_wrap_test() {
    let mut state = InterpreterData::new();
    state.i = 0x300;
    state.mem[0x300] = 0x01;
    state.v[0] = 64 + 3;
    state.v[1] = 32 * 7 + 4;
    assert_eq!(emulate(I::Drw(0, 1, 1), &mut state, &NO_KEYS, 0), Ok(()));
    assert_eq!(lit(&state), vec![(3, 4)]);
}

#[test]
fn partial_overlap_collides_and_xors_test() {
    let mut state = InterpreterData::new();
    state.i = 0x300;
    state.mem[0x300] = 0b0000_0011;
    state.mem[0x301] = 0b0000_0110;
    assert_eq!(emulate(I::Drw(0, 0, 1), &mut state, &NO_KEYS, 0), Ok(()));
    assert_eq!(lit(&state), vec![(0, 0), (1, 0)]);
    state.i = 0x301;
    assert_eq!(emulate(I::Drw(0, 0, 1), &mut state, &NO_KEYS, 0), Ok(()));
    assert_eq!(lit(&state), vec![(0, 0), (2, 0)]);
    assert_eq!(state.v[0xf], 1);
    // A draw that erases nothing clears the flag again.
    state.i = 0x300;
    state.v[1] = 10;
    assert_eq!(emulate(I::Drw(1, 1, 1), &mut state, &NO_KEYS, 0), Ok(()));
    assert_eq!(state.v[0xf], 0);
}

#[test]
fn empty_sprite_changes_no_pixel_test() {
    let mut state = InterpreterData::new();
    state.screen[5][5] = true;
    state.v[0xf] = 1;
    assert_eq!(emulate(I::Drw(0, 0, 0), &mut state, &NO_KEYS, 0), Ok(()));
    assert_eq!(lit(&state), vec![(5, 5)]);
    assert_eq!(state.v[0xf], 0);
    assert!(state.needs_redraw);
}

#[test]
fn flag_register_as_coordinate_is_read_before_it_is_written_test() {
    let mut state = InterpreterData::new();
    state.i = 0x300;
    state.mem[0x300] = 0x01;
    state.v[0xf] = 9;
    state.v[1] = 2;
    assert_eq!(emulate(I::Drw(0xf, 1, 1), &mut state, &NO_KEYS, 0), Ok(()));
    assert_eq!(lit(&state), vec![(9, 2)]);
    assert_eq!(state.v[0xf], 0);
}

#[test]
fn clear_turns_every_pixel_off_test() {
    let mut state = InterpreterData::new();
    state.screen[0][0] = true;
    state.screen[63][31] = true;
    assert_eq!(emulate(I::Cls, &mut state, &NO_KEYS, 0), Ok(()));
    assert_eq!(lit(&state), vec![]);
    assert!(state.needs_redraw);
}
