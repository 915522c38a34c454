//! The keyboard: which physical key is which of the sixteen keys, and
//! what a key going down or up does to the keypad.

use vstd::prelude::*;

verus! {

/// The value that stands for "no key of the keypad".
pub const NO_KEY: u32 = 0xdeadbeef;

/// A key of the keyboard, as SDL names it. `Other` is every key the
/// keypad has no use for.
#[derive(PartialEq, Eq, Copy, Clone, Debug, Structural)]
pub enum PhysicalKey {
    Num7,
    Num8,
    Num9,
    Num0,
    U,
    I,
    O,
    P,
    J,
    K,
    L,
    Semicolon,
    N,
    M,
    Less,
    Greater,
    Other,
}

/// A key going down or coming up.
#[derive(PartialEq, Eq, Copy, Clone, Debug, Structural)]
pub enum KeyEvent {
    Down(PhysicalKey),
    Up(PhysicalKey),
}

/// The keypad number of a physical key, if it has one.
///
/// The keypad is laid out on the right hand of the keyboard:
///
/// ```text
/// 7 8 9 0        1 2 3 C
/// U I O P   as   4 5 6 D
/// J K L ;        7 8 9 E
/// N M < >        A 0 B F
/// ```
pub open spec fn key_number(kc: PhysicalKey) -> Option<u8> {
    match kc {
        PhysicalKey::Num7 => Some(0x1u8),
        PhysicalKey::Num8 => Some(0x2u8),
        PhysicalKey::Num9 => Some(0x3u8),
        PhysicalKey::Num0 => Some(0xCu8),
        PhysicalKey::U => Some(0x4u8),
        PhysicalKey::I => Some(0x5u8),
        PhysicalKey::O => Some(0x6u8),
        PhysicalKey::P => Some(0xDu8),
        PhysicalKey::J => Some(0x7u8),
        PhysicalKey::K => Some(0x8u8),
        PhysicalKey::L => Some(0x9u8),
        PhysicalKey::Semicolon => Some(0xEu8),
        PhysicalKey::N => Some(0xAu8),
        PhysicalKey::M => Some(0x0u8),
        PhysicalKey::Less => Some(0xBu8),
        PhysicalKey::Greater => Some(0xFu8),
        PhysicalKey::Other => None,
    }
}

/// The keypad number of a physical key, or `NO_KEY` if it has none.
pub fn sdl_keycode_to_internal(kc: PhysicalKey) -> (r: u32)
    ensures
        match key_number(kc) {
            Some(k) => r == k && r < 16,
            None => r == NO_KEY,
        },
{
    match kc {
        PhysicalKey::Num7 => 0x1,
        PhysicalKey::Num8 => 0x2,
        PhysicalKey::Num9 => 0x3,
        PhysicalKey::Num0 => 0xC,
        PhysicalKey::U => 0x4,
        PhysicalKey::I => 0x5,
        PhysicalKey::O => 0x6,
        PhysicalKey::P => 0xD,
        PhysicalKey::J => 0x7,
        PhysicalKey::K => 0x8,
        PhysicalKey::L => 0x9,
        PhysicalKey::Semicolon => 0xE,
        PhysicalKey::N => 0xA,
        PhysicalKey::M => 0x0,
        PhysicalKey::Less => 0xB,
        PhysicalKey::Greater => 0xF,
        PhysicalKey::Other => NO_KEY,
    }
}

/// The keypad after a key event: the key of the event down or up, every
/// other key as it was; unchanged if the key is none of the keypad's.
pub open spec fn keys_after(keys: Seq<bool>, event: KeyEvent) -> Seq<bool> {
    match event {
        KeyEvent::Down(kc) => match key_number(kc) {
            Some(k) => keys.update(k as int, true),
            None => keys,
        },
        KeyEvent::Up(kc) => match key_number(kc) {
            Some(k) => keys.update(k as int, false),
            None => keys,
        },
    }
}

/// Records a key event in the keypad.
pub fn apply_key_event(cur_pressed_keys: &mut [bool; 16], event: KeyEvent)
    ensures
        final(cur_pressed_keys)@ == keys_after(old(cur_pressed_keys)@, event),
{
    let (kc, down) = match event {
        KeyEvent::Down(kc) => (kc, true),
        KeyEvent::Up(kc) => (kc, false),
    };
    let cur_key = sdl_keycode_to_internal(kc);
    if cur_key != NO_KEY {
        cur_pressed_keys[cur_key as usize] = down;
    }
}

} // verus!
