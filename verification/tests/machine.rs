use chip8::cpu::{ToneSignals, CPU};
use chip8::display::Display;
use chip8::errors::{EmuError, MemoryError, OpcodeError};
use chip8::keyboard::Keypad;
use chip8::machine::CPU_CYCLES_PER_FRAME;
use chip8::memory::Memory;
use chip8::opcodes::Opcode;
use chip8::CHIP8;

fn keys(down: &[usize]) -> [bool; 16] {
    let mut keys = [false; 16];
    for &k in down {
        keys[k] = true;
    }
    keys
}

#[test]
fn new_engine_runs_and_is_silent() {
    let cpu = CPU::new();
    assert_eq!(cpu.waiting, None);
    assert_eq!(cpu.held, [false; 16]);
    assert!(!cpu.tone_on);
    assert!(!cpu.increment_index);
}

#[test]
fn engine_reset_keeps_the_compatibility_option() {
    let mut cpu = CPU::new();
    cpu.waiting = Some(3);
    cpu.held = [true; 16];
    cpu.tone_on = true;
    cpu.increment_index = true;
    cpu.reset();
    assert_eq!(cpu.waiting, None);
    assert_eq!(cpu.held, [false; 16]);
    assert!(!cpu.tone_on);
    assert!(cpu.increment_index);
}

#[test]
fn timer_tick_stops_the_tone_when_the_sound_timer_runs_out() {
    let mut cpu = CPU::new();
    let mut memory = Memory::new();
    cpu.tone_on = true;
    memory.sound_timer = 1;
    assert_eq!(cpu.update_timers(&mut memory), ToneSignals { start: false, stop: true });
    assert_eq!(memory.sound_timer, 0);
    assert!(!cpu.tone_on);
    assert_eq!(cpu.update_timers(&mut memory), ToneSignals { start: false, stop: false });
}

#[test]
fn timer_tick_keeps_the_tone_on_without_a_second_start() {
    let mut cpu = CPU::new();
    let mut memory = Memory::new();
    cpu.tone_on = true;
    memory.sound_timer = 5;
    assert_eq!(cpu.update_timers(&mut memory), ToneSignals { start: false, stop: false });
    assert_eq!(memory.sound_timer, 4);
    assert!(cpu.tone_on);
}

#[test]
fn tone_starts_once_and_stops_once() {
    let mut cpu = CPU::new();
    let mut memory = Memory::new();
    memory.sound_timer = 3;
    memory.delay_timer = 2;
    let mut signals = Vec::new();
    for _ in 0..5 {
        signals.push(cpu.update_timers(&mut memory));
    }
    let quiet = ToneSignals { start: false, stop: false };
    assert_eq!(
        signals,
        vec![
            ToneSignals { start: true, stop: false },
            quiet,
            ToneSignals { start: false, stop: true },
            quiet,
            quiet,
        ]
    );
    assert_eq!(memory.sound_timer, 0);
    assert_eq!(memory.delay_timer, 0);
}

#[test]
fn one_tick_tone_starts_and_stops_in_the_same_tick() {
    let mut cpu = CPU::new();
    let mut memory = Memory::new();
    memory.sound_timer = 1;
    assert_eq!(cpu.update_timers(&mut memory), ToneSignals { start: true, stop: true });
    assert!(!cpu.tone_on);
}

#[test]
fn tone_is_stopped_when_the_program_clears_the_sound_timer() {
    let mut cpu = CPU::new();
    let mut memory = Memory::new();
    memory.sound_timer = 9;
    cpu.update_timers(&mut memory);
    assert!(cpu.tone_on);
    memory.sound_timer = 0;
    assert_eq!(cpu.update_timers(&mut memory), ToneSignals { start: false, stop: true });
    assert!(!cpu.tone_on);
}

#[test]
fn delay_timer_counts_down_to_zero_and_stays() {
    let mut cpu = CPU::new();
    let mut memory = Memory::new();
    memory.delay_timer = 2;
    cpu.update_timers(&mut memory);
    assert_eq!(memory.delay_timer, 1);
    cpu.update_timers(&mut memory);
    assert_eq!(memory.delay_timer, 0);
    cpu.update_timers(&mut memory);
    assert_eq!(memory.delay_timer, 0);
}

#[test]
fn wait_for_key_holds_the_program_counter_until_a_key_comes() {
    let mut cpu = CPU::new();
    let mut memory = Memory::new();
    let mut display = Display::new();
    let mut keypad = Keypad::new();
    memory.load_rom(&[0xF3, 0x0A, 0x64, 0x07]).unwrap();
    assert_eq!(cpu.cycle(&mut memory, &mut display, &keypad), Ok(()));
    assert_eq!(cpu.waiting, Some(3));
    assert_eq!(memory.pc, 0x200);
    for _ in 0..5 {
        assert_eq!(cpu.cycle(&mut memory, &mut display, &keypad), Ok(()));
        assert_eq!(cpu.waiting, Some(3));
        assert_eq!(memory.pc, 0x200);
    }
    keypad.update(&keys(&[0xB, 0xE]));
    assert_eq!(cpu.cycle(&mut memory, &mut display, &keypad), Ok(()));
    assert_eq!(cpu.waiting, None);
    assert_eq!(memory.v[3], 0xB);
    assert_eq!(memory.pc, 0x202);
    assert_eq!(cpu.cycle(&mut memory, &mut display, &keypad), Ok(()));
    assert_eq!(memory.v[4], 7);
    assert_eq!(memory.pc, 0x204);
}

#[test]
fn wait_for_key_ignores_a_key_that_was_already_held() {
    let mut cpu = CPU::new();
    let mut memory = Memory::new();
    let mut display = Display::new();
    let mut keypad = Keypad::new();
    keypad.update(&keys(&[2]));
    assert_eq!(
        cpu.execute_with(Opcode::LOAD_Vx_K { x: 1 }, 0, &mut memory, &mut display, &keypad),
        Ok(())
    );
    assert_eq!(cpu.held, keys(&[2]));
    assert_eq!(cpu.cycle(&mut memory, &mut display, &keypad), Ok(()));
    assert_eq!(cpu.waiting, Some(1));
    // A second key goes down while the first is still held.
    keypad.update(&keys(&[2, 9]));
    assert_eq!(cpu.cycle(&mut memory, &mut display, &keypad), Ok(()));
    assert_eq!(cpu.waiting, None);
    assert_eq!(memory.v[1], 9);
    assert_eq!(memory.pc, 0x202);
}

#[test]
fn wait_for_key_takes_a_held_key_once_it_was_released_and_pressed_again() {
    let mut cpu = CPU::new();
    let mut memory = Memory::new();
    let mut display = Display::new();
    let mut keypad = Keypad::new();
    keypad.update(&keys(&[2]));
    cpu.execute_with(Opcode::LOAD_Vx_K { x: 1 }, 0, &mut memory, &mut display, &keypad).unwrap();
    cpu.cycle(&mut memory, &mut display, &keypad).unwrap();
    keypad.update(&keys(&[]));
    cpu.cycle(&mut memory, &mut display, &keypad).unwrap();
    assert_eq!(cpu.waiting, Some(1));
    assert_eq!(cpu.held, [false; 16]);
    keypad.update(&keys(&[2]));
    cpu.cycle(&mut memory, &mut display, &keypad).unwrap();
    assert_eq!(cpu.waiting, None);
    assert_eq!(memory.v[1], 2);
}

#[test]
fn cycle_fetches_decodes_and_executes() {
    let mut cpu = CPU::new();
    let mut memory = Memory::new();
    let mut display = Display::new();
    let keypad = Keypad::new();
    // V0 = 250; V1 = 10; V0 += V1; jump to 0x200.
    memory.load_rom(&[0x60, 0xFA, 0x61, 0x0A, 0x80, 0x14, 0x12, 0x00]).unwrap();
    for _ in 0..3 {
        assert_eq!(cpu.cycle(&mut memory, &mut display, &keypad), Ok(()));
    }
    assert_eq!(memory.v[0], 4);
    assert_eq!(memory.v[0xF], 1);
    assert_eq!(memory.pc, 0x206);
    assert_eq!(cpu.cycle(&mut memory, &mut display, &keypad), Ok(()));
    assert_eq!(memory.pc, 0x200);
}

#[test]
fn cycle_stops_on_an_unknown_word_and_changes_nothing() {
    let mut cpu = CPU::new();
    let mut memory = Memory::new();
    let mut display = Display::new();
    let keypad = Keypad::new();
    memory.load_rom(&[0xFF, 0xFF]).unwrap();
    assert_eq!(
        cpu.cycle(&mut memory, &mut display, &keypad),
        Err(EmuError::Opcode(OpcodeError::UnknownOpcode(0xFFFF)))
    );
    assert_eq!(memory.pc, 0x200);
}

#[test]
fn new_machine_is_at_power_on() {
    let machine = CHIP8::new();
    assert_eq!(machine.memory.pc, 0x200);
    assert_eq!(machine.memory.ram[80], 0xF0);
    assert_eq!(machine.cpu.waiting, None);
    assert!(machine.display.pixels.iter().all(|&p| !p));
    assert_eq!(machine.keypad.keys, [false; 16]);
    assert_eq!(CPU_CYCLES_PER_FRAME, 12);
}

#[test]
fn machine_loads_and_refuses_roms() {
    let mut machine = CHIP8::new();
    assert_eq!(machine.load(&[0x00, 0xE0]), Ok(()));
    assert_eq!(machine.memory.ram[0x200..0x202], [0x00, 0xE0]);
    assert_eq!(machine.load(&vec![0u8; 3584]), Ok(()));
    assert_eq!(
        machine.load(&vec![0u8; 3585]),
        Err(EmuError::Memory(MemoryError::ROMTooLarge))
    );
}

#[test]
fn frame_refreshes_keys_runs_cycles_and_ticks_once() {
    let mut machine = CHIP8::new();
    // V1 = 3; sound timer = V1; delay timer = V1; then spin.
    machine.load(&[0x61, 0x03, 0xF1, 0x18, 0xF1, 0x15, 0x12, 0x06]).unwrap();
    let r = machine.run_frame(&keys(&[5]), CPU_CYCLES_PER_FRAME);
    assert_eq!(r, Ok(ToneSignals { start: true, stop: false }));
    assert_eq!(machine.keypad.keys, keys(&[5]));
    assert_eq!(machine.memory.sound_timer, 2);
    assert_eq!(machine.memory.delay_timer, 2);
    assert_eq!(machine.memory.pc, 0x206);
    let quiet = ToneSignals { start: false, stop: false };
    assert_eq!(machine.run_frame(&keys(&[]), 12), Ok(quiet));
    assert_eq!(machine.run_frame(&keys(&[]), 12), Ok(ToneSignals { start: false, stop: true }));
    assert_eq!(machine.run_frame(&keys(&[]), 12), Ok(quiet));
    assert_eq!(machine.memory.sound_timer, 0);
}

#[test]
fn frame_of_no_cycles_only_ticks() {
    let mut machine = CHIP8::new();
    machine.memory.delay_timer = 9;
    assert_eq!(machine.run_frame(&keys(&[]), 0), Ok(ToneSignals { start: false, stop: false }));
    assert_eq!(machine.memory.delay_timer, 8);
    assert_eq!(machine.memory.pc, 0x200);
}

#[test]
fn frame_stops_at_the_first_error_without_ticking() {
    let mut machine = CHIP8::new();
    // V0 = 1, then a word that is no instruction.
    machine.load(&[0x60, 0x01, 0x00, 0x00, 0x60, 0x02]).unwrap();
    machine.memory.delay_timer = 9;
    assert_eq!(
        machine.run_frame(&keys(&[]), 12),
        Err(EmuError::Opcode(OpcodeError::UnknownOpcode(0x0000)))
    );
    assert_eq!(machine.memory.v[0], 1);
    assert_eq!(machine.memory.pc, 0x202);
    assert_eq!(machine.memory.delay_timer, 9);
}

#[test]
fn waiting_does_not_stall_the_timers() {
    let mut machine = CHIP8::new();
    // Wait for a key into V0, then spin.
    machine.load(&[0xF0, 0x0A, 0x12, 0x02]).unwrap();
    machine.memory.delay_timer = 5;
    for _ in 0..3 {
        assert!(machine.run_frame(&keys(&[]), 12).is_ok());
    }
    assert_eq!(machine.memory.delay_timer, 2);
    assert_eq!(machine.cpu.waiting, Some(0));
    assert!(machine.run_frame(&keys(&[0xC]), 12).is_ok());
    assert_eq!(machine.memory.v[0], 0xC);
    assert_eq!(machine.cpu.waiting, None);
    assert_eq!(machine.memory.pc, 0x202);
    assert_eq!(machine.memory.delay_timer, 1);
}

#[test]
fn machine_reset_clears_everything_and_reloads_the_font() {
    let mut machine = CHIP8::new();
    machine.load(&[0x00, 0xE0, 0xD0, 0x05]).unwrap();
    machine.memory.i = 80;
    machine.run_frame(&keys(&[1]), 2).unwrap();
    machine.memory.ram[80] = 0;
    machine.memory.stack.push(5);
    machine.reset();
    assert_eq!(machine.memory.ram[..], Memory::new().ram[..]);
    assert_eq!(machine.memory.pc, 0x200);
    assert!(machine.memory.stack.is_empty());
    assert!(machine.display.pixels.iter().all(|&p| !p));
    assert_eq!(machine.keypad.keys, [false; 16]);
    assert_eq!(machine.cpu.waiting, None);
}

#[test]
fn fetch_and_execute_is_one_cycle() {
    let mut machine = CHIP8::new();
    machine.load(&[0x6B, 0x2A]).unwrap();
    assert_eq!(machine.fetch_and_execute(), Ok(()));
    assert_eq!(machine.memory.v[0xB], 0x2A);
    assert_eq!(machine.memory.pc, 0x202);
    machine.memory.pc = 0x1000;
    assert_eq!(
        machine.fetch_and_execute(),
        Err(EmuError::Memory(MemoryError::MemoryReadError(0x1000)))
    );
}

#[test]
fn default_engine_is_the_engine_at_power_on() {
    let cpu = CPU::default();
    assert_eq!(cpu.waiting, None);
    assert_eq!(cpu.held, [false; 16]);
    assert!(!cpu.tone_on);
    assert!(!cpu.increment_index);
}
