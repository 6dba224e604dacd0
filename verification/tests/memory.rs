use chip8::errors::MemoryError;
use chip8::memory::{
    Memory, FONTSET, FONTSET_SIZE, FONT_BASE_ADDR, GLYPH_BYTES, MAX_ROM_SIZE, RAM_SIZE, START_ADDR,
    STACK_SIZE,
};

#[test]
fn new_memory_holds_the_font_and_nothing_else() {
    let memory = Memory::new();
    assert_eq!(memory.ram.len(), RAM_SIZE);
    for addr in 0..RAM_SIZE {
        let expected = if (FONT_BASE_ADDR..FONT_BASE_ADDR + FONTSET_SIZE).contains(&addr) {
            FONTSET[addr - FONT_BASE_ADDR]
        } else {
            0
        };
        assert_eq!(memory.ram[addr], expected, "address {addr}");
    }
    assert_eq!(memory.ram[80], 0xF0);
    assert_eq!(memory.ram[85], 0x20);
    assert_eq!(memory.ram[159], 0x80);
    assert_eq!(memory.v, [0u8; 16]);
    assert_eq!(memory.i, 0);
    assert_eq!(memory.pc, 0x200);
    assert_eq!(memory.delay_timer, 0);
    assert_eq!(memory.sound_timer, 0);
    assert!(memory.stack.is_empty());
    assert_eq!(GLYPH_BYTES * 16, FONTSET_SIZE);
}

#[test]
fn reset_restores_the_power_on_state() {
    let mut memory = Memory::new();
    memory.load_rom(&[1, 2, 3]).unwrap();
    memory.stack_push(0x222).unwrap();
    memory.v[4] = 9;
    memory.i = 77;
    memory.pc = 0x300;
    memory.delay_timer = 3;
    memory.sound_timer = 4;
    memory.ram[FONT_BASE_ADDR] = 0;
    memory.reset();
    let fresh = Memory::new();
    assert_eq!(memory.ram[..], fresh.ram[..]);
    assert_eq!(memory.v, fresh.v);
    assert_eq!(memory.stack, fresh.stack);
    assert_eq!(memory.i, 0);
    assert_eq!(memory.pc, 0x200);
    assert_eq!(memory.delay_timer, 0);
    assert_eq!(memory.sound_timer, 0);
}

#[test]
fn stack_round_trip() {
    let mut memory = Memory::new();
    assert_eq!(memory.stack_push(0x300), Ok(()));
    assert_eq!(memory.stack_len(), 1);
    assert_eq!(memory.stack_pop(), Ok(0x300));
    assert_eq!(memory.stack_len(), 0);
}

#[test]
fn stack_is_last_in_first_out() {
    let mut memory = Memory::new();
    memory.stack_push(1).unwrap();
    memory.stack_push(2).unwrap();
    memory.stack_push(3).unwrap();
    assert_eq!(memory.stack_pop(), Ok(3));
    assert_eq!(memory.stack_pop(), Ok(2));
    assert_eq!(memory.stack_pop(), Ok(1));
}

#[test]
fn seventeenth_push_overflows() {
    let mut memory = Memory::new();
    for k in 0..STACK_SIZE {
        assert_eq!(memory.stack_push(0x200 + k as u16), Ok(()));
    }
    assert_eq!(memory.stack_len(), 16);
    assert_eq!(memory.stack_push(0x999), Err(MemoryError::StackOverflow));
    assert_eq!(memory.stack_len(), 16);
    assert_eq!(memory.stack_pop(), Ok(0x20F));
}

#[test]
fn pop_of_empty_stack_underflows() {
    let mut memory = Memory::new();
    assert_eq!(memory.stack_pop(), Err(MemoryError::StackUnderflow));
    assert_eq!(memory.stack_len(), 0);
}

#[test]
fn largest_rom_fills_ram_to_its_end() {
    let rom: Vec<u8> = (0..MAX_ROM_SIZE).map(|k| (k % 251) as u8 + 1).collect();
    assert_eq!(rom.len(), 3584);
    let mut memory = Memory::new();
    assert_eq!(memory.load_rom(&rom), Ok(()));
    assert_eq!(memory.ram[START_ADDR..], rom[..]);
    assert_eq!(memory.ram[4095], rom[3583]);
    assert_eq!(memory.ram[..START_ADDR], Memory::new().ram[..START_ADDR]);
}

#[test]
fn rom_one_byte_too_large_is_refused() {
    let rom = vec![0xAAu8; 3585];
    let mut memory = Memory::new();
    assert_eq!(memory.load_rom(&rom), Err(MemoryError::ROMTooLarge));
    assert_eq!(memory.ram[..], Memory::new().ram[..]);
    assert_eq!(memory.load(&rom), Err(MemoryError::ROMTooLarge));
}

#[test]
fn small_rom_is_loaded_verbatim_at_0x200() {
    let mut memory = Memory::new();
    assert_eq!(memory.load(&[0x12, 0x34, 0x56]), Ok(()));
    assert_eq!(memory.ram[0x1FF], 0);
    assert_eq!(memory.ram[0x200..0x204], [0x12, 0x34, 0x56, 0x00]);
    assert_eq!(memory.pc, 0x200);
}

#[test]
fn empty_rom_changes_nothing() {
    let mut memory = Memory::new();
    assert_eq!(memory.load_rom(&[]), Ok(()));
    assert_eq!(memory.ram[..], Memory::new().ram[..]);
}

#[test]
fn hex_text_is_decoded_before_loading() {
    let mut memory = Memory::new();
    assert_eq!(memory.load_hex(b"00e0A2Ff"), Ok(()));
    assert_eq!(memory.ram[0x200..0x205], [0x00, 0xE0, 0xA2, 0xFF, 0x00]);
}

#[test]
fn malformed_hex_text_is_a_load_error() {
    let mut memory = Memory::new();
    assert_eq!(memory.load_hex(b"123"), Err(MemoryError::LoadError));
    assert_eq!(memory.load_hex(b"0g"), Err(MemoryError::LoadError));
    assert_eq!(memory.load_hex(b"12 4"), Err(MemoryError::LoadError));
    assert_eq!(memory.ram[..], Memory::new().ram[..]);
    assert_eq!(memory.load_hex(b""), Ok(()));
}

#[test]
fn hex_text_of_too_large_a_rom_is_refused() {
    let text = vec![b'7'; 2 * 3585];
    let mut memory = Memory::new();
    assert_eq!(memory.load_hex(&text), Err(MemoryError::ROMTooLarge));
    let text = vec![b'7'; 2 * 3584];
    assert_eq!(memory.load_hex(&text), Ok(()));
    assert_eq!(memory.ram[4095], 0x77);
}

#[test]
fn read_and_write_are_bounds_checked() {
    let mut memory = Memory::new();
    assert_eq!(memory.write(0x0FFF, 0xAB), Ok(()));
    assert_eq!(memory.read(0x0FFF), Ok(0xAB));
    assert_eq!(memory.read(0x0050), Ok(0xF0));
    assert_eq!(memory.read(0x1000), Err(MemoryError::MemoryReadError(0x1000)));
    assert_eq!(
        memory.write(0xFFFF, 7),
        Err(MemoryError::MemoryWriteError { addr: 0xFFFF, value: 7 })
    );
}

#[test]
fn default_memory_is_blank_without_the_font() {
    let memory = Memory::default();
    assert!(memory.ram.iter().all(|&b| b == 0));
    assert_eq!(memory.v, [0u8; 16]);
    assert_eq!(memory.pc, 0x200);
    assert_eq!(memory.i, 0);
    assert!(memory.stack.is_empty());
}
