use chip8::errors::{EmuError, KeyboardError, MemoryError, OpcodeError};
use chip8::keyboard::{Keyboard, Keypad, KEY_NOT_PRESSED, KEY_PRESSED, NUM_KEYS};

fn keys(down: &[usize]) -> [bool; 16] {
    let mut keys = [KEY_NOT_PRESSED; 16];
    for &k in down {
        keys[k] = KEY_PRESSED;
    }
    keys
}

#[test]
fn new_keypad_has_every_key_up() {
    let keypad = Keypad::new();
    assert_eq!(keypad.keys, [false; NUM_KEYS]);
    assert_eq!(keypad.get_key_pressed(), None);
    for k in 0..16 {
        assert!(!keypad.is_key_down(k));
    }
}

#[test]
fn update_takes_over_the_polled_state() {
    let mut keypad = Keypad::new();
    keypad.update(&keys(&[3, 0xF]));
    assert!(keypad.is_key_down(3));
    assert!(keypad.is_key_down(0xF));
    assert!(!keypad.is_key_down(4));
    keypad.update(&keys(&[4]));
    assert!(!keypad.is_key_down(3));
    assert!(keypad.is_key_down(4));
}

#[test]
fn first_key_down_is_the_lowest_code() {
    let mut keypad = Keypad::new();
    keypad.update(&keys(&[9, 2, 0xC]));
    assert_eq!(keypad.get_key_pressed(), Some(2));
    keypad.update(&keys(&[0xF]));
    assert_eq!(keypad.get_key_pressed(), Some(15));
    keypad.update(&keys(&[0]));
    assert_eq!(keypad.get_key_pressed(), Some(0));
}

#[test]
fn reset_releases_every_key() {
    let mut keypad = Keypad::new();
    keypad.update(&keys(&[1, 2, 3]));
    keypad.reset();
    assert_eq!(keypad.keys, [false; 16]);
}

#[test]
fn get_key_refuses_codes_that_are_no_hex_digit() {
    let mut keypad: Keyboard = Keypad::new();
    keypad.update(&keys(&[7]));
    assert_eq!(keypad.get_key(7), Ok(true));
    assert_eq!(keypad.get_key(8), Ok(false));
    assert_eq!(keypad.get_key(15), Ok(false));
    assert_eq!(keypad.get_key(16), Err(KeyboardError::UnknownKey(16)));
    assert_eq!(keypad.get_key(1000), Err(KeyboardError::UnknownKey(1000)));
}

#[test]
fn errors_convert_into_the_common_error() {
    assert_eq!(
        EmuError::from(MemoryError::StackOverflow),
        EmuError::Memory(MemoryError::StackOverflow)
    );
    assert_eq!(
        EmuError::from(OpcodeError::UnknownOpcode(0xFFFF)),
        EmuError::Opcode(OpcodeError::UnknownOpcode(0xFFFF))
    );
    assert_eq!(
        EmuError::from(KeyboardError::UnknownKey(16)),
        EmuError::Keyboard(KeyboardError::UnknownKey(16))
    );
}

#[test]
fn default_keypad_has_every_key_up() {
    assert_eq!(Keypad::default().keys, [false; 16]);
}
