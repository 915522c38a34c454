use chip8::clock::{Clock, DEFAULT_INSTRUCTION_HZ, TIMER_HZ};
use chip8::driver::{cycle_with, run_cycles, run_timers, tick_timers, Driver, Report};
use chip8::engine::{DecodePolicy, StepResult};
use chip8::input::{apply_key_event, sdl_keycode_to_internal, KeyEvent, PhysicalKey, NO_KEY};
use chip8::instruction::Instruction;
use chip8::keypad::find_first_key_down;
use chip8::render::{cell_rect, CellRect, WIN_HEIGHT, WIN_WIDTH};
use chip8::rom::load_rom;
use chip8::state::{Fault, InterpreterData};

const NO_KEYS: [bool; 16] = [false; 16];

fn machine_with(words: &[u16]) -> InterpreterData {
    let mut bytes = Vec::new();
    for w in words {
        bytes.push((w >> 8) as u8);
        bytes.push((w & 0xff) as u8);
    }
    let mut state = InterpreterData::new();
    assert_eq!(load_rom(&mut state, &bytes), Ok(()));
    state
}

#[test]
fn clock_turns_time_into_ticks_test() {
    let mut clock = Clock::new(DEFAULT_INSTRUCTION_HZ);
    assert_eq!(clock, Clock { hz: 700, residue: 0 });
    // A sixtieth of a second at 700 Hz: eleven ticks and two thirds.
    assert_eq!(clock.advance(16_666_667), 11);
    assert_eq!(clock.residue, 666_666_900);
    assert_eq!(clock.advance(16_666_667), 12);
    assert_eq!(clock.residue, 333_333_800);
    let mut timer = Clock::new(TIMER_HZ);
    assert_eq!(timer.advance(16_666_667), 1);
    assert_eq!(timer.residue, 20);
    assert_eq!(timer.advance(16_000_000), 0);
    assert_eq!(timer.residue, 960_000_020);
}

#[test]
fn clock_does_not_drift_test() {
    let mut whole = Clock::new(700);
    let mut parts = Clock::new(700);
    let mut ticks = 0;
    for _ in 0..1000 {
        ticks += parts.advance(1_234_567);
    }
    assert_eq!(whole.advance(1_234_567_000), ticks);
    assert_eq!(whole, parts);
    assert_eq!(ticks, 864);
}

#[test]
fn clock_takes_the_longest_time_at_the_highest_rate_test() {
    let mut clock = Clock { hz: u32::MAX, residue: u64::MAX };
    let total = u64::MAX as u128 + (u32::MAX as u128) * (u32::MAX as u128);
    assert_eq!(clock.advance(u32::MAX) as u128, total / 1_000_000_000);
    assert_eq!(clock.residue as u128, total % 1_000_000_000);
    let mut stopped = Clock::new(0);
    assert_eq!(stopped.advance(u32::MAX), 0);
    assert_eq!(stopped.residue, 0);
}

#[test]
fn timers_count_down_and_stop_at_zero_test() {
    let mut state = InterpreterData::new();
    state.delay_timer = 2;
    state.sound_timer = 1;
    assert!(!tick_timers(&mut state));
    assert_eq!((state.delay_timer, state.sound_timer), (1, 0));
    assert!(!tick_timers(&mut state));
    assert_eq!((state.delay_timer, state.sound_timer), (0, 0));
    assert!(!tick_timers(&mut state));
    assert_eq!((state.delay_timer, state.sound_timer), (0, 0));
}

#[test]
fn timers_take_many_ticks_at_once_test() {
    let mut state = InterpreterData::new();
    state.delay_timer = 200;
    state.sound_timer = 10;
    assert!(!run_timers(&mut state, 12));
    assert_eq!((state.delay_timer, state.sound_timer), (188, 0));
    assert!(!run_timers(&mut state, 0));
    assert_eq!((state.delay_timer, state.sound_timer), (188, 0));
    assert!(!run_timers(&mut state, 1 << 40));
    assert_eq!((state.delay_timer, state.sound_timer), (0, 0));
    state.delay_timer = 255;
    assert!(!run_timers(&mut state, 255));
    assert_eq!(state.delay_timer, 0);
    state.delay_timer = 255;
    assert!(!run_timers(&mut state, 254));
    assert_eq!(state.delay_timer, 1);
}

#[test]
fn timer_tick_signals_redraw_once_test() {
    let mut state = InterpreterData::new();
    state.needs_redraw = true;
    // No tick, no signal: the flag waits.
    assert!(!run_timers(&mut state, 0));
    assert!(state.needs_redraw);
    assert!(tick_timers(&mut state));
    assert!(!state.needs_redraw);
    assert!(!tick_timers(&mut state));
}

#[test]
fn timers_touch_nothing_else_test() {
    let mut state = machine_with(&[0x6001]);
    state.delay_timer = 5;
    state.needs_redraw = true;
    let mut expected = state.clone();
    expected.delay_timer = 2;
    expected.needs_redraw = false;
    run_timers(&mut state, 3);
    assert_eq!(state, expected);
}

#[test]
fn cycle_remembers_the_keypad_test() {
    let mut keys = [false; 16];
    keys[0xb] = true;
    // LdW V2; Ld V3, 1
    let mut state = machine_with(&[0xf20a, 0x6301]);
    assert_eq!(cycle_with(&mut state, &NO_KEYS, DecodePolicy::Abort, 0), StepResult::Success);
    assert_eq!(state.pc, 0x200);
    assert_eq!(cycle_with(&mut state, &keys, DecodePolicy::Abort, 0), StepResult::Success);
    assert_eq!(state.pc, 0x202);
    assert_eq!(state.v[2], 0xb);
    assert_eq!(state.keypad, keys);
}

#[test]
fn a_key_held_down_is_taken_once_test() {
    let mut keys = [false; 16];
    keys[4] = true;
    // LdW V0; LdW V1
    let mut state = machine_with(&[0xf00a, 0xf10a]);
    let mut rng = rand::thread_rng();
    assert_eq!(
        run_cycles(&mut state, &keys, DecodePolicy::Abort, &mut rng, 10),
        (10, StepResult::Success)
    );
    assert_eq!(state.v[0], 4);
    assert_eq!(state.pc, 0x202);
    assert_eq!(
        run_cycles(&mut state, &NO_KEYS, DecodePolicy::Abort, &mut rng, 1),
        (1, StepResult::Success)
    );
    assert_eq!(
        run_cycles(&mut state, &keys, DecodePolicy::Abort, &mut rng, 1),
        (1, StepResult::Success)
    );
    assert_eq!(state.v[1], 4);
    assert_eq!(state.pc, 0x204);
}

#[test]
fn cycles_stop_at_the_first_fault_test() {
    // Ld V0, 1; Ld V1, 2; Ret; Ld V2, 3
    let mut state = machine_with(&[0x6001, 0x6102, 0x00ee, 0x6203]);
    let mut rng = rand::thread_rng();
    assert_eq!(
        run_cycles(&mut state, &NO_KEYS, DecodePolicy::Abort, &mut rng, 10),
        (
            2,
            StepResult::Fault {
                fault: Fault::StackUnderflow,
                address: 0x204,
                instruction: Some(Instruction::Ret),
            }
        )
    );
    assert_eq!((state.v[0], state.v[1], state.v[2]), (1, 2, 0));
    assert_eq!(state.pc, 0x204);
    assert_eq!(
        run_cycles(&mut state, &NO_KEYS, DecodePolicy::Abort, &mut rng, 0),
        (0, StepResult::Success)
    );
}

#[test]
fn driver_runs_both_clocks_test() {
    // Ld V0, 30; LdSD V0; Cls; Jp 0x206
    let mut state = machine_with(&[0x601e, 0xf015, 0x00e0, 0x1206]);
    let mut driver = Driver::new(700, DecodePolicy::Abort);
    assert_eq!(driver.instruction_clock, Clock { hz: 700, residue: 0 });
    assert_eq!(driver.timer_clock, Clock { hz: 60, residue: 0 });
    assert_eq!(driver.policy, DecodePolicy::Abort);
    let report = driver.turn(&mut state, &NO_KEYS, 16_666_667);
    assert_eq!(report, Report { cycles: 11, result: StepResult::Success, redraw: true });
    assert_eq!(state.pc, 0x206);
    assert_eq!(state.delay_timer, 29);
    assert!(!state.needs_redraw);
    assert_eq!(driver.instruction_clock, Clock { hz: 700, residue: 666_666_900 });
    assert_eq!(driver.timer_clock, Clock { hz: 60, residue: 20 });
    let report = driver.turn(&mut state, &NO_KEYS, 1_000_000);
    assert_eq!(report, Report { cycles: 1, result: StepResult::Success, redraw: false });
    assert_eq!(state.delay_timer, 29);
    let report = driver.turn(&mut state, &NO_KEYS, 1_000_000_000);
    assert_eq!(report, Report { cycles: 700, result: StepResult::Success, redraw: false });
    assert_eq!(state.delay_timer, 0);
}

#[test]
fn driver_reports_a_fault_and_still_ticks_the_timers_test() {
    // Ld V0, 9; LdS V0; word that is no instruction
    let mut state = machine_with(&[0x6009, 0xf018, 0xffff]);
    let mut driver = Driver::new(1000, DecodePolicy::Abort);
    let report = driver.turn(&mut state, &NO_KEYS, 50_000_000);
    assert_eq!(
        report,
        Report {
            cycles: 2,
            result: StepResult::InvalidOpcode { address: 0x204, opcode: 0xffff },
            redraw: false,
        }
    );
    assert_eq!(state.sound_timer, 6);
    let mut skipping = Driver::new(1000, DecodePolicy::Skip);
    let mut state = machine_with(&[0xffff, 0x6009, 0x1204]);
    let report = skipping.turn(&mut state, &NO_KEYS, 50_000_000);
    assert_eq!(report, Report { cycles: 50, result: StepResult::Success, redraw: false });
    assert_eq!(state.v[0], 9);
}

#[test]
fn key_numbers_test() {
    let expected = [
        (PhysicalKey::Num7, 0x1),
        (PhysicalKey::Num8, 0x2),
        (PhysicalKey::Num9, 0x3),
        (PhysicalKey::Num0, 0xC),
        (PhysicalKey::U, 0x4),
        (PhysicalKey::I, 0x5),
        (PhysicalKey::O, 0x6),
        (PhysicalKey::P, 0xD),
        (PhysicalKey::J, 0x7),
        (PhysicalKey::K, 0x8),
        (PhysicalKey::L, 0x9),
        (PhysicalKey::Semicolon, 0xE),
        (PhysicalKey::N, 0xa),
        (PhysicalKey::M, 0x0),
        (PhysicalKey::Less, 0xb),
        (PhysicalKey::Greater, 0xf),
        (PhysicalKey::Other, 0xdeadbeef),
    ];
    let mut seen = [false; 16];
    for (key, number) in expected {
        assert_eq!(sdl_keycode_to_internal(key), number);
        if number < 16 {
            assert!(!seen[number as usize]);
            seen[number as usize] = true;
        }
    }
    assert!(seen.iter().all(|s| *s));
    assert_eq!(NO_KEY, 0xdeadbeef);
}

#[test]
fn key_events_set_and_clear_keys_test() {
    let mut keys = [false; 16];
    apply_key_event(&mut keys, KeyEvent::Down(PhysicalKey::J));
    apply_key_event(&mut keys, KeyEvent::Down(PhysicalKey::M));
    apply_key_event(&mut keys, KeyEvent::Down(PhysicalKey::Other));
    let mut expected = [false; 16];
    expected[7] = true;
    expected[0] = true;
    assert_eq!(keys, expected);
    apply_key_event(&mut keys, KeyEvent::Up(PhysicalKey::J));
    apply_key_event(&mut keys, KeyEvent::Up(PhysicalKey::Other));
    apply_key_event(&mut keys, KeyEvent::Up(PhysicalKey::Greater));
    expected[7] = false;
    assert_eq!(keys, expected);
}

#[test]
fn first_key_down_test() {
    let mut previous = [false; 16];
    let mut current = [false; 16];
    assert_eq!(find_first_key_down(&previous, &current), None);
    current[15] = true;
    assert_eq!(find_first_key_down(&previous, &current), Some(15));
    current[6] = true;
    current[2] = true;
    previous[2] = true;
    assert_eq!(find_first_key_down(&previous, &current), Some(6));
    previous[6] = true;
    previous[15] = true;
    assert_eq!(find_first_key_down(&previous, &current), None);
    assert_eq!(find_first_key_down(&current, &[false; 16]), None);
    assert_eq!(find_first_key_down(&[false; 16], &[true; 16]), Some(0));
}

#[test]
fn cell_rect_test() {
    assert_eq!(cell_rect(0, 0), CellRect { x: 0, y: 0, width: 12, height: 12 });
    assert_eq!(cell_rect(63, 31), CellRect { x: 756, y: 372, width: 12, height: 12 });
    assert_eq!(cell_rect(1, 2), CellRect { x: 12, y: 24, width: 12, height: 12 });
    assert_eq!(cell_rect(255, 255), CellRect { x: 3060, y: 3060, width: 12, height: 12 });
    assert_eq!((WIN_WIDTH, WIN_HEIGHT), (800, 400));
}

#[test]
fn driver_draws_random_bytes_test() {
    // Rnd V1, 0x07; Jp 0x200
    let mut state = machine_with(&[0xc107, 0x1200]);
    let mut driver = Driver::new(1000, DecodePolicy::Abort);
    let mut seen = [false; 8];
    for _ in 0..1000 {
        let report = driver.turn(&mut state, &NO_KEYS, 2_000_000);
        assert_eq!(report, Report { cycles: 2, result: StepResult::Success, redraw: false });
        assert!(state.v[1] < 8);
        seen[state.v[1] as usize] = true;
    }
    // Eight values, a thousand draws: each value turns up.
    assert!(seen.iter().all(|s| *s));
}
