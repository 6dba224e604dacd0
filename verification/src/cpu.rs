//! The execution engine: what each instruction does to the machine, the
//! wait for a key press, and the sixty-hertz timer tick.
//!
//! The engine is described over `Machine`, the mathematical model of the
//! whole machine. `exec_op` gives the state after one instruction, `cycle_of`
//! the state after one engine cycle; the executable functions are proved to
//! compute exactly these.

use rand::Rng;
use vstd::prelude::*;

use crate::display::{blank_screen, collides, drawn, Display};
use crate::errors::{EmuError, MemoryError, OpcodeError};
use crate::keyboard::{first_down, lemma_first_down, no_keys, Keypad};
use crate::memory::{first_outside, ram_with, Memory, MemoryState, RAM_SIZE};
use crate::opcodes::{decode, lemma_decode_wf, Opcode};

verus! {

/// The execution engine's own state.
#[derive(Debug)]
pub struct CPU {
    /// While the engine waits for a key press: the register that the key code
    /// is to be stored in. `None` while it runs.
    pub waiting: Option<u8>,
    /// While the engine waits: the keys that have been down ever since the
    /// wait began. A key counts as pressed only once it is not among them.
    pub held: [bool; 16],
    /// Whether the tone has been started and not yet stopped.
    pub tone_on: bool,
    /// Compatibility option: whether storing and loading a run of registers
    /// moves the index register past the bytes transferred.
    pub increment_index: bool,
}

/// The mathematical model of `CPU`.
pub struct CpuState {
    pub waiting: Option<u8>,
    pub held: Seq<bool>,
    pub tone_on: bool,
    pub increment_index: bool,
}

impl View for CPU {
    type V = CpuState;

    open spec fn view(&self) -> CpuState {
        CpuState {
            waiting: self.waiting,
            held: self.held@,
            tone_on: self.tone_on,
            increment_index: self.increment_index,
        }
    }
}

impl CpuState {
    /// The register waited for, if any, is one of the sixteen.
    pub open spec fn wf(self) -> bool {
        &&& self.held.len() == 16
        &&& self.waiting matches Some(x) ==> x < 16
    }

    /// The engine at power-on: running, no tone, index register left alone by
    /// register transfers.
    pub open spec fn initial() -> CpuState {
        CpuState { waiting: None, held: no_keys(), tone_on: false, increment_index: false }
    }
}

/// The mathematical model of the whole machine.
pub struct Machine {
    pub cpu: CpuState,
    pub mem: MemoryState,
    pub screen: Seq<bool>,
    pub keys: Seq<bool>,
}

impl Machine {
    /// Every part has the size it has in the machine.
    pub open spec fn wf(self) -> bool {
        &&& self.cpu.wf()
        &&& self.mem.wf()
        &&& self.screen.len() == 2048
        &&& self.keys.len() == 16
    }
}

/// The machine that is made of the four given parts.
pub open spec fn machine_of(
    cpu: CpuState,
    mem: MemoryState,
    screen: Seq<bool>,
    keys: Seq<bool>,
) -> Machine {
    Machine { cpu, mem, screen, keys }
}

/// What the tone generator is told after a timer tick.
#[derive(Debug, Clone, Copy, PartialEq, Eq, Structural)]
pub struct ToneSignals {
    /// Start the tone.
    pub start: bool,
    /// Stop the tone.
    pub stop: bool,
}

/// Whether a call left the machine as the model says: in the state
/// `expected` with `Ok`, or untouched with the error `expected`.
pub open spec fn is_outcome(
    expected: Result<Machine, EmuError>,
    before: Machine,
    r: Result<(), EmuError>,
    after: Machine,
) -> bool {
    match expected {
        Ok(s) => r is Ok && after == s,
        Err(e) => r == Err::<(), EmuError>(e) && after == before,
    }
}

/// Whether a two-byte instruction at `pc` lies inside RAM.
pub open spec fn pc_in_ram(pc: u16) -> bool {
    pc + 1 < 4096
}

/// The state with the program counter moved to the next instruction.
pub open spec fn next_pc(m: MemoryState) -> MemoryState {
    MemoryState { pc: (m.pc + 2) as u16, ..m }
}

/// The state with the program counter moved to the next instruction, or to
/// the one after it where `skip` holds.
pub open spec fn skip_pc(m: MemoryState, skip: bool) -> MemoryState {
    MemoryState { pc: (m.pc + if skip { 4int } else { 2int }) as u16, ..m }
}

/// The state with `value` in register `x`.
pub open spec fn with_reg(m: MemoryState, x: u8, value: u8) -> MemoryState {
    MemoryState { v: m.v.update(x as int, value), ..m }
}

/// The state with `value` in register `x` and then the flag in VF. The flag
/// is written last: where `x` is 15 the flag is what stays.
pub open spec fn with_reg_flag(m: MemoryState, x: u8, value: u8, flag: bool) -> MemoryState {
    MemoryState { v: m.v.update(x as int, value).update(15, if flag { 1u8 } else { 0u8 }), ..m }
}

/// The hundreds, tens and ones of a byte.
pub open spec fn bcd_digits(value: u8) -> Seq<u8> {
    seq![value / 100, (value / 10) % 10, value % 10]
}

/// The state after `data` has been written to RAM at the index register. A
/// write that would touch an address outside RAM is an error that names the
/// first such address and the byte meant for it.
pub open spec fn store_at_index(m: MemoryState, data: Seq<u8>) -> Result<MemoryState, MemoryError> {
    if data.len() > 0 && m.i + data.len() > 4096 {
        Err(
            MemoryError::MemoryWriteError {
                addr: first_outside(m.i),
                value: data[first_outside(m.i) - m.i],
            },
        )
    } else {
        Ok(MemoryState { ram: ram_with(m.ram, m.i as int, data), ..m })
    }
}

/// The `count` bytes of RAM at the index register. A read that would touch
/// an address outside RAM is an error that names the first such address.
pub open spec fn fetch_at_index(m: MemoryState, count: int) -> Result<Seq<u8>, MemoryError> {
    if count <= 0 {
        Ok(Seq::empty())
    } else if m.i + count > 4096 {
        Err(MemoryError::MemoryReadError(first_outside(m.i)))
    } else {
        Ok(m.ram.subrange(m.i as int, m.i + count))
    }
}

/// The state with the index register moved past `count` bytes, where the
/// compatibility option asks for it.
pub open spec fn bump_index(m: MemoryState, increment: bool, count: int) -> MemoryState {
    if increment {
        MemoryState { i: (m.i + count) as u16, ..m }
    } else {
        m
    }
}

/// The registers after V0 up to and including V`x` have been loaded from `data`.
pub open spec fn regs_loaded(v: Seq<u8>, x: u8, data: Seq<u8>) -> Seq<u8> {
    Seq::new(
        v.len(),
        |r: int|
            if r <= x {
                data[r]
            } else {
                v[r]
            },
    )
}

/// The instruction word at the program counter: the byte there is its high
/// half, the byte after it its low half.
pub open spec fn fetch_word(m: MemoryState) -> Result<u16, MemoryError> {
    if !pc_in_ram(m.pc) {
        Err(MemoryError::MemoryReadError(first_outside(m.pc)))
    } else {
        Ok((m.ram[m.pc as int] * 256 + m.ram[m.pc + 1]) as u16)
    }
}

/// The machine after one instruction, `rnd` being the random byte that RAND
/// draws, or the error that the instruction ends in.
///
/// The program counter must address an instruction inside RAM. It then moves
/// on by 2, except that the jumps, CALL and RETURN set it, the skips move it
/// by 4 where their condition holds, and the wait for a key leaves it until
/// the key comes. CALL saves the address of the instruction that follows it.
/// DRAW reads its coordinates before it writes the flag.
pub open spec fn exec_op(op: Opcode, rnd: u8, s: Machine) -> Result<Machine, EmuError> {
    let m = s.mem;
    let v = m.v;
    if !pc_in_ram(m.pc) {
        Err(EmuError::Memory(MemoryError::MemoryReadError(first_outside(m.pc))))
    } else {
        match op {
            Opcode::CLEAR => Ok(Machine { screen: blank_screen(), mem: next_pc(m), ..s }),
            Opcode::RETURN => match m.pop() {
                Ok((addr, popped)) => Ok(Machine { mem: MemoryState { pc: addr, ..popped }, ..s }),
                Err(e) => Err(EmuError::Memory(e)),
            },
            Opcode::JUMP { nnn } => Ok(Machine { mem: MemoryState { pc: nnn, ..m }, ..s }),
            Opcode::CALL { nnn } => match m.push((m.pc + 2) as u16) {
                Ok(pushed) => Ok(Machine { mem: MemoryState { pc: nnn, ..pushed }, ..s }),
                Err(e) => Err(EmuError::Memory(e)),
            },
            Opcode::SE_Vx_NN { x, nn } => Ok(Machine { mem: skip_pc(m, v[x as int] == nn), ..s }),
            Opcode::SNE_Vx_NN { x, nn } => Ok(Machine { mem: skip_pc(m, v[x as int] != nn), ..s }),
            Opcode::SE_Vx_Vy { x, y } => {
                Ok(Machine { mem: skip_pc(m, v[x as int] == v[y as int]), ..s })
            },
            Opcode::SNE_Vx_Vy { x, y } => {
                Ok(Machine { mem: skip_pc(m, v[x as int] != v[y as int]), ..s })
            },
            Opcode::LOAD_Vx_NN { x, nn } => Ok(Machine { mem: next_pc(with_reg(m, x, nn)), ..s }),
            Opcode::ADD_Vx_NN { x, nn } => {
                let sum = ((v[x as int] + nn) % 256) as u8;
                Ok(Machine { mem: next_pc(with_reg(m, x, sum)), ..s })
            },
            Opcode::LOAD_Vx_Vy { x, y } => {
                Ok(Machine { mem: next_pc(with_reg(m, x, v[y as int])), ..s })
            },
            Opcode::OR_Vx_Vy { x, y } => {
                Ok(Machine { mem: next_pc(with_reg(m, x, v[x as int] | v[y as int])), ..s })
            },
            Opcode::AND_Vx_Vy { x, y } => {
                Ok(Machine { mem: next_pc(with_reg(m, x, v[x as int] & v[y as int])), ..s })
            },
            Opcode::XOR_Vx_Vy { x, y } => {
                Ok(Machine { mem: next_pc(with_reg(m, x, v[x as int] ^ v[y as int])), ..s })
            },
            Opcode::ADD_Vx_Vy { x, y } => {
                let sum = ((v[x as int] + v[y as int]) % 256) as u8;
                let carry = v[x as int] + v[y as int] > 255;
                Ok(Machine { mem: next_pc(with_reg_flag(m, x, sum, carry)), ..s })
            },
            Opcode::SUB_Vx_Vy { x, y } => {
                let difference = ((v[x as int] - v[y as int]) % 256) as u8;
                let no_borrow = v[x as int] >= v[y as int];
                Ok(Machine { mem: next_pc(with_reg_flag(m, x, difference, no_borrow)), ..s })
            },
            Opcode::SHR_Vx_Vy { x, y } => {
                let shifted = v[y as int] / 2;
                let out = v[y as int] % 2 == 1;
                Ok(Machine { mem: next_pc(with_reg_flag(m, x, shifted, out)), ..s })
            },
            Opcode::SUBN_Vx_Vy { x, y } => {
                let difference = ((v[y as int] - v[x as int]) % 256) as u8;
                let no_borrow = v[y as int] >= v[x as int];
                Ok(Machine { mem: next_pc(with_reg_flag(m, x, difference, no_borrow)), ..s })
            },
            Opcode::SHL_Vx_Vy { x, y } => {
                let shifted = ((v[y as int] * 2) % 256) as u8;
                let out = v[y as int] >= 128;
                Ok(Machine { mem: next_pc(with_reg_flag(m, x, shifted, out)), ..s })
            },
            Opcode::LOAD_I_NNN { nnn } => {
                Ok(Machine { mem: next_pc(MemoryState { i: nnn, ..m }), ..s })
            },
            Opcode::JUMP_V0_NNN { nnn } => {
                Ok(Machine { mem: MemoryState { pc: (v[0] + nnn) as u16, ..m }, ..s })
            },
            Opcode::RAND { x, nn } => Ok(Machine { mem: next_pc(with_reg(m, x, rnd & nn)), ..s }),
            Opcode::DRAW { x, y, n } => match fetch_at_index(m, n as int) {
                Ok(sprite) => {
                    let x0 = v[x as int] as int % 64;
                    let y0 = v[y as int] as int % 32;
                    let flag = if collides(s.screen, sprite, x0, y0) {
                        1u8
                    } else {
                        0u8
                    };
                    Ok(
                        Machine {
                            screen: drawn(s.screen, sprite, x0, y0),
                            mem: next_pc(with_reg(m, 15, flag)),
                            ..s
                        },
                    )
                },
                Err(e) => Err(EmuError::Memory(e)),
            },
            Opcode::SKP_Vx { x } => {
                let key = v[x as int] as int % 16;
                Ok(Machine { mem: skip_pc(m, s.keys[key]), ..s })
            },
            Opcode::SKNP_Vx { x } => {
                let key = v[x as int] as int % 16;
                Ok(Machine { mem: skip_pc(m, !s.keys[key]), ..s })
            },
            Opcode::LOAD_Vx_DT { x } => {
                Ok(Machine { mem: next_pc(with_reg(m, x, m.delay_timer)), ..s })
            },
            Opcode::LOAD_Vx_K { x } => {
                Ok(Machine { cpu: CpuState { waiting: Some(x), held: s.keys, ..s.cpu }, ..s })
            },
            Opcode::LOAD_DT_Vx { x } => {
                Ok(Machine { mem: next_pc(MemoryState { delay_timer: v[x as int], ..m }), ..s })
            },
            Opcode::LOAD_ST_Vx { x } => {
                Ok(Machine { mem: next_pc(MemoryState { sound_timer: v[x as int], ..m }), ..s })
            },
            Opcode::ADD_I_Vx { x } => {
                let sum = ((m.i + v[x as int]) % 65536) as u16;
                Ok(Machine { mem: next_pc(MemoryState { i: sum, ..m }), ..s })
            },
            Opcode::LOAD_FONT { x } => {
                let glyph = (0x050 + (v[x as int] % 16) * 5) as u16;
                Ok(Machine { mem: next_pc(MemoryState { i: glyph, ..m }), ..s })
            },
            Opcode::LOAD_B_Vx { x } => match store_at_index(m, bcd_digits(v[x as int])) {
                Ok(stored) => Ok(Machine { mem: next_pc(stored), ..s }),
                Err(e) => Err(EmuError::Memory(e)),
            },
            Opcode::LOAD_I_Vx { x } => match store_at_index(m, v.take(x + 1)) {
                Ok(stored) => {
                    let moved = bump_index(stored, s.cpu.increment_index, x + 1);
                    Ok(Machine { mem: next_pc(moved), ..s })
                },
                Err(e) => Err(EmuError::Memory(e)),
            },
            Opcode::LOAD_Vx_I { x } => match fetch_at_index(m, x + 1) {
                Ok(data) => {
                    let loaded = MemoryState { v: regs_loaded(v, x, data), ..m };
                    let moved = bump_index(loaded, s.cpu.increment_index, x + 1);
                    Ok(Machine { mem: next_pc(moved), ..s })
                },
                Err(e) => Err(EmuError::Memory(e)),
            },
            Opcode::OpCodeError { op } => Err(EmuError::Opcode(OpcodeError::UnknownOpcode(op))),
        }
    }
}

impl Opcode {
    /// The instruction sets the program counter or may skip: a jump, a call,
    /// a return or a conditional skip.
    pub open spec fn is_control(self) -> bool {
        self is RETURN
            || self is JUMP
            || self is CALL
            || self is SE_Vx_NN
            || self is SNE_Vx_NN
            || self is SE_Vx_Vy
            || self is SNE_Vx_Vy
            || self is JUMP_V0_NNN
            || self is SKP_Vx
            || self is SKNP_Vx
    }

    /// The instruction computes a register from registers and constants.
    pub open spec fn is_arith(self) -> bool {
        self is LOAD_Vx_NN
            || self is ADD_Vx_NN
            || self is LOAD_Vx_Vy
            || self is OR_Vx_Vy
            || self is AND_Vx_Vy
            || self is XOR_Vx_Vy
            || self is ADD_Vx_Vy
            || self is SUB_Vx_Vy
            || self is SHR_Vx_Vy
            || self is SUBN_Vx_Vy
            || self is SHL_Vx_Vy
            || self is RAND
    }
}

/// The keys that count as newly pressed during a wait: those that are down
/// and have not been down ever since the wait began.
pub open spec fn fresh_keys(keys: Seq<bool>, held: Seq<bool>) -> Seq<bool> {
    Seq::new(16, |k: int| keys[k] && !held[k])
}

/// The keys that are still down since the wait began.
pub open spec fn still_held(keys: Seq<bool>, held: Seq<bool>) -> Seq<bool> {
    Seq::new(16, |k: int| keys[k] && held[k])
}

/// The machine after one cycle spent waiting for a key, the code of which is
/// to go to register `x`. The wait is edge-triggered: it ends on the lowest
/// key that is down now and was up at some cycle since the wait began. Its
/// code is stored, the program counter moves on at last, and the engine
/// runs again. Until then nothing changes but the record of the keys still
/// held.
pub open spec fn wait_step(s: Machine, x: u8) -> Result<Machine, EmuError> {
    if !pc_in_ram(s.mem.pc) {
        Err(EmuError::Memory(MemoryError::MemoryReadError(first_outside(s.mem.pc))))
    } else {
        match first_down(fresh_keys(s.keys, s.cpu.held)) {
            Some(k) => Ok(
                Machine {
                    cpu: CpuState { waiting: None, held: no_keys(), ..s.cpu },
                    mem: next_pc(with_reg(s.mem, x, k as u8)),
                    ..s
                },
            ),
            None => Ok(
                Machine { cpu: CpuState { held: still_held(s.keys, s.cpu.held), ..s.cpu }, ..s },
            ),
        }
    }
}

/// The machine after one engine cycle. While it waits for a key the engine
/// neither fetches nor moves the program counter; otherwise it fetches the
/// word at the program counter, decodes it and carries the instruction out,
/// `rnd` being the random byte that RAND draws.
pub open spec fn cycle_of(s: Machine, rnd: u8) -> Result<Machine, EmuError> {
    match s.cpu.waiting {
        Some(x) => wait_step(s, x),
        None => match fetch_word(s.mem) {
            Err(e) => Err(EmuError::Memory(e)),
            Ok(word) => match decode(word) {
                Err(e) => Err(EmuError::Opcode(e)),
                Ok(op) => exec_op(op, rnd, s),
            },
        },
    }
}

/// The timers after one tick: each goes down by one unless it is zero.
pub open spec fn ticked(m: MemoryState) -> MemoryState {
    MemoryState {
        delay_timer: if m.delay_timer > 0 {
            (m.delay_timer - 1) as u8
        } else {
            0
        },
        sound_timer: if m.sound_timer > 0 {
            (m.sound_timer - 1) as u8
        } else {
            0
        },
        ..m
    }
}

/// What a tick tells the tone generator. With the sound timer above zero the
/// tone is on for the whole tick: it is started unless it is on already, and
/// stopped when the tick brings the timer to zero. A tone that is on while
/// the timer is zero, because the program cleared it, is stopped too.
pub open spec fn tone_signals(tone_on: bool, sound_timer: u8) -> ToneSignals {
    ToneSignals {
        start: !tone_on && sound_timer > 0,
        stop: (tone_on || sound_timer > 0) && sound_timer <= 1,
    }
}

/// Calls `rand::rng().random::<u8>()`, the thread-local generator of the
/// `rand` crate. Trusted, and nothing is claimed of the byte that comes back.
#[verifier::external_body]
fn random_byte() -> u8 {
    rand::rng().random()
}

/// Moves the program counter to the next instruction.
fn increment_pc(memory: &mut Memory)
    requires
        pc_in_ram(old(memory).pc),
    ensures
        final(memory)@ == next_pc(old(memory)@),
{
    memory.pc += 2;
}

/// Moves the program counter past the next instruction where `skip` holds,
/// and to it where not.
fn advance_or_skip(memory: &mut Memory, skip: bool)
    requires
        pc_in_ram(old(memory).pc),
    ensures
        final(memory)@ == skip_pc(old(memory)@, skip),
{
    if skip {
        memory.pc += 4;
    } else {
        memory.pc += 2;
    }
}

/// Stores `value` in register `x` and moves on.
fn set_reg(memory: &mut Memory, x: u8, value: u8)
    requires
        x < 16,
        pc_in_ram(old(memory).pc),
    ensures
        final(memory)@ == next_pc(with_reg(old(memory)@, x, value)),
{
    memory.v[x as usize] = value;
    memory.pc += 2;
}

/// Stores `value` in register `x`, then the flag in VF, and moves on.
fn set_reg_flag(memory: &mut Memory, x: u8, value: u8, flag: bool)
    requires
        x < 16,
        pc_in_ram(old(memory).pc),
    ensures
        final(memory)@ == next_pc(with_reg_flag(old(memory)@, x, value, flag)),
{
    memory.v[x as usize] = value;
    memory.v[0xF] = if flag {
        1
    } else {
        0
    };
    memory.pc += 2;
}

/// The sum of two bytes modulo 256, and whether it overflowed.
fn add_with_carry(a: u8, b: u8) -> (r: (u8, bool))
    ensures
        r.0 == ((a + b) % 256) as u8,
        r.1 == (a + b > 255),
{
    (a.wrapping_add(b), a as u16 + b as u16 > 255)
}

/// The difference of two bytes modulo 256, and whether it did not borrow.
fn sub_no_borrow(a: u8, b: u8) -> (r: (u8, bool))
    ensures
        r.0 == ((a - b) % 256) as u8,
        r.1 == (a >= b),
{
    (a.wrapping_sub(b), a >= b)
}

/// A byte shifted right by one bit, and whether a one was shifted out.
fn shift_right(a: u8) -> (r: (u8, bool))
    ensures
        r.0 == a / 2,
        r.1 == (a % 2 == 1),
{
    assert(a >> 1 == a / 2) by (bit_vector);
    assert((a & 1 == 1) == (a % 2 == 1)) by (bit_vector);
    (a >> 1, a & 1 == 1)
}

/// A byte shifted left by one bit, and whether a one was shifted out.
fn shift_left(a: u8) -> (r: (u8, bool))
    ensures
        r.0 == ((a * 2) % 256) as u8,
        r.1 == (a >= 128),
{
    assert(a << 1 == (a * 2) % 256) by (bit_vector);
    assert(((a >> 7) & 1 == 1) == (a >= 128)) by (bit_vector);
    (a << 1, (a >> 7) & 1 == 1)
}

/// The low four bits of a byte: the hex digit that it names.
fn low_nibble(a: u8) -> (r: u8)
    ensures
        r == a % 16,
{
    assert(a & 0x0F == a % 16) by (bit_vector);
    a & 0x0F
}

/// The first address outside RAM that an access from `base` touches.
fn first_outside_of(base: u16) -> (r: u16)
    ensures
        r == first_outside(base),
{
    if base >= 4096 {
        base
    } else {
        4096
    }
}

/// Draws the sprite of `rows` bytes at the index register at the place that
/// `Vx` and `Vy` give, and sets the flag to whether a pixel was turned off.
fn draw(memory: &mut Memory, display: &mut Display, x: u8, y: u8, rows: u8) -> (r: Result<
    (),
    MemoryError,
>)
    requires
        x < 16,
        y < 16,
        rows < 16,
        pc_in_ram(old(memory).pc),
    ensures
        match fetch_at_index(old(memory)@, rows as int) {
            Ok(sprite) => {
                let x0 = old(memory).v@[x as int] as int % 64;
                let y0 = old(memory).v@[y as int] as int % 32;
                &&& r is Ok
                &&& final(display)@ == drawn(old(display)@, sprite, x0, y0)
                &&& final(memory)@ == next_pc(
                    with_reg(
                        old(memory)@,
                        15,
                        if collides(old(display)@, sprite, x0, y0) {
                            1u8
                        } else {
                            0u8
                        },
                    ),
                )
            },
            Err(e) => r == Err::<(), MemoryError>(e) && final(display)@ == old(display)@
                && final(memory)@ == old(memory)@,
        },
{
    let vx = memory.v[x as usize];
    let vy = memory.v[y as usize];
    let base = memory.i as usize;
    let count = rows as usize;
    let mut collided = false;
    if count > 0 {
        if base + count > RAM_SIZE {
            return Err(MemoryError::MemoryReadError(first_outside_of(memory.i)));
        }
        let sprite = vstd::slice::slice_subrange(memory.ram.as_slice(), base, base + count);
        collided = display.draw_sprite(vx, vy, sprite);
    } else {
        proof {
            let empty = Seq::<u8>::empty();
            assert(display@ =~= drawn(display@, empty, vx as int % 64, vy as int % 32));
        }
    }
    set_reg(memory, 0xF, if collided { 1 } else { 0 });
    Ok(())
}

/// Writes the three decimal digits of `Vx` to RAM at the index register.
fn store_bcd(memory: &mut Memory, x: u8) -> (r: Result<(), MemoryError>)
    requires
        x < 16,
        pc_in_ram(old(memory).pc),
    ensures
        match store_at_index(old(memory)@, bcd_digits(old(memory).v@[x as int])) {
            Ok(stored) => r is Ok && final(memory)@ == next_pc(stored),
            Err(e) => r == Err::<(), MemoryError>(e) && final(memory)@ == old(memory)@,
        },
{
    let value = memory.v[x as usize];
    let hundreds = value / 100;
    let tens = (value / 10) % 10;
    let ones = value % 10;
    let base = memory.i as usize;
    if base + 3 > RAM_SIZE {
        let addr = first_outside_of(memory.i);
        let offset = addr - memory.i;
        let digit = if offset == 0 {
            hundreds
        } else if offset == 1 {
            tens
        } else {
            ones
        };
        return Err(MemoryError::MemoryWriteError { addr, value: digit });
    }
    memory.ram[base] = hundreds;
    memory.ram[base + 1] = tens;
    memory.ram[base + 2] = ones;
    proof {
        assert(memory.ram@ =~= ram_with(old(memory).ram@, base as int, bcd_digits(value)));
    }
    memory.pc += 2;
    Ok(())
}

/// Writes V0 up to and including V`x` to RAM at the index register.
fn store_registers(memory: &mut Memory, x: u8, increment: bool) -> (r: Result<(), MemoryError>)
    requires
        x < 16,
        pc_in_ram(old(memory).pc),
    ensures
        match store_at_index(old(memory)@, old(memory).v@.take(x + 1)) {
            Ok(stored) => r is Ok && final(memory)@ == next_pc(
                bump_index(stored, increment, x + 1),
            ),
            Err(e) => r == Err::<(), MemoryError>(e) && final(memory)@ == old(memory)@,
        },
{
    let base = memory.i as usize;
    let count = x as usize + 1;
    if base + count > RAM_SIZE {
        let addr = first_outside_of(memory.i);
        let value = memory.v[(addr - memory.i) as usize];
        return Err(MemoryError::MemoryWriteError { addr, value });
    }
    let mut k: usize = 0;
    while k < count
        invariant
            x < 16,
            count == x + 1,
            base == old(memory).i,
            base + count <= 4096,
            k <= count,
            memory.ram@ =~= ram_with(old(memory).ram@, base as int, old(memory).v@.take(k as int)),
            memory.stack == old(memory).stack,
            memory.v == old(memory).v,
            memory.i == old(memory).i,
            memory.pc == old(memory).pc,
            memory.delay_timer == old(memory).delay_timer,
            memory.sound_timer == old(memory).sound_timer,
        decreases count - k,
    {
        memory.ram[base + k] = memory.v[k];
        k += 1;
    }
    if increment {
        memory.i = (base + count) as u16;
    }
    memory.pc += 2;
    Ok(())
}

/// Reads V0 up to and including V`x` from RAM at the index register.
fn load_registers(memory: &mut Memory, x: u8, increment: bool) -> (r: Result<(), MemoryError>)
    requires
        x < 16,
        pc_in_ram(old(memory).pc),
    ensures
        match fetch_at_index(old(memory)@, x + 1) {
            Ok(data) => r is Ok && final(memory)@ == next_pc(
                bump_index(
                    (MemoryState { v: regs_loaded(old(memory).v@, x, data), ..old(memory)@ }),
                    increment,
                    x + 1,
                ),
            ),
            Err(e) => r == Err::<(), MemoryError>(e) && final(memory)@ == old(memory)@,
        },
{
    let base = memory.i as usize;
    let count = x as usize + 1;
    if base + count > RAM_SIZE {
        return Err(MemoryError::MemoryReadError(first_outside_of(memory.i)));
    }
    let ghost data = memory.ram@.subrange(base as int, base + count);
    let mut k: usize = 0;
    while k < count
        invariant
            x < 16,
            count == x + 1,
            base == old(memory).i,
            base + count <= 4096,
            k <= count,
            data == old(memory).ram@.subrange(base as int, base + count),
            forall|r: int|
                0 <= r < 16 ==> memory.v@[r] == if r < k {
                    data[r]
                } else {
                    old(memory).v@[r]
                },
            memory.ram == old(memory).ram,
            memory.stack == old(memory).stack,
            memory.i == old(memory).i,
            memory.pc == old(memory).pc,
            memory.delay_timer == old(memory).delay_timer,
            memory.sound_timer == old(memory).sound_timer,
        decreases count - k,
    {
        memory.v[k] = memory.ram[base + k];
        k += 1;
    }
    proof {
        assert(memory.v@ =~= regs_loaded(old(memory).v@, x, data));
    }
    if increment {
        memory.i = (base + count) as u16;
    }
    memory.pc += 2;
    Ok(())
}

impl Default for CPU {
    /// The engine at power-on.
    fn default() -> (r: CPU)
        ensures
            r@ == CpuState::initial(),
    {
        let r = CPU { waiting: None, held: [false; 16], tone_on: false, increment_index: false };
        assert(r@.held =~= no_keys());
        r
    }
}

impl CPU {
    /// The engine at power-on.
    pub fn new() -> (r: CPU)
        ensures
            r@ == CpuState::initial(),
    {
        CPU { ..Default::default() }
    }

    /// Puts the engine back into its power-on state. The compatibility
    /// option is configuration and stays.
    pub fn reset(&mut self)
        ensures
            final(self)@ == (CpuState {
                increment_index: old(self)@.increment_index,
                ..CpuState::initial()
            }),
    {
        self.waiting = None;
        self.held = [false; 16];
        self.tone_on = false;
        assert(self@.held =~= no_keys());
    }

    /// Reads the instruction word at the program counter, high byte first.
    /// The program counter stays where it is.
    pub fn fetch(&self, memory: &Memory) -> (r: Result<u16, MemoryError>)
        ensures
            r == fetch_word(memory@),
    {
        if memory.pc > 4094 {
            return Err(MemoryError::MemoryReadError(first_outside_of(memory.pc)));
        }
        let high = memory.ram[memory.pc as usize];
        let low = memory.ram[memory.pc as usize + 1];
        assert(((high as u16) << 8) | (low as u16) == high as u16 * 256 + low as u16)
            by (bit_vector);
        Ok(((high as u16) << 8) | (low as u16))
    }

    /// Carries out one instruction, with `rnd` as the random byte for RAND.
    /// On an error nothing has changed.
    pub fn execute_with(
        &mut self,
        op: Opcode,
        rnd: u8,
        memory: &mut Memory,
        display: &mut Display,
        keypad: &Keypad,
    ) -> (r: Result<(), EmuError>)
        requires
            op.wf(),
        ensures
            is_outcome(
                exec_op(op, rnd, machine_of(old(self)@, old(memory)@, old(display)@, keypad@)),
                machine_of(old(self)@, old(memory)@, old(display)@, keypad@),
                r,
                machine_of(final(self)@, final(memory)@, final(display)@, keypad@),
            ),
    {
        if memory.pc > 4094 {
            return Err(
                EmuError::Memory(MemoryError::MemoryReadError(first_outside_of(memory.pc))),
            );
        }
        match op {
            Opcode::RETURN
            | Opcode::JUMP { .. }
            | Opcode::CALL { .. }
            | Opcode::SE_Vx_NN { .. }
            | Opcode::SNE_Vx_NN { .. }
            | Opcode::SE_Vx_Vy { .. }
            | Opcode::SNE_Vx_Vy { .. }
            | Opcode::JUMP_V0_NNN { .. }
            | Opcode::SKP_Vx { .. }
            | Opcode::SKNP_Vx { .. } => {
                self.execute_control(op, rnd, memory, display, keypad)
            },
            Opcode::LOAD_Vx_NN { .. }
            | Opcode::ADD_Vx_NN { .. }
            | Opcode::LOAD_Vx_Vy { .. }
            | Opcode::OR_Vx_Vy { .. }
            | Opcode::AND_Vx_Vy { .. }
            | Opcode::XOR_Vx_Vy { .. }
            | Opcode::ADD_Vx_Vy { .. }
            | Opcode::SUB_Vx_Vy { .. }
            | Opcode::SHR_Vx_Vy { .. }
            | Opcode::SUBN_Vx_Vy { .. }
            | Opcode::SHL_Vx_Vy { .. }
            | Opcode::RAND { .. } => {
                self.execute_arith(op, rnd, memory, display, keypad)
            },
            _ => self.execute_other(op, rnd, memory, display, keypad),
        }
    }

    /// Carries out one instruction. RAND draws its byte from the thread's
    /// random number generator, so the outcome is that of `exec_op` for some
    /// byte; for every other instruction the byte plays no part.
    pub fn execute(
        &mut self,
        op: Opcode,
        memory: &mut Memory,
        display: &mut Display,
        keypad: &Keypad,
    ) -> (r: Result<(), EmuError>)
        requires
            op.wf(),
        ensures
            exists|rnd: u8|
                is_outcome(
                    #[trigger] exec_op(
                        op,
                        rnd,
                        machine_of(old(self)@, old(memory)@, old(display)@, keypad@),
                    ),
                    machine_of(old(self)@, old(memory)@, old(display)@, keypad@),
                    r,
                    machine_of(final(self)@, final(memory)@, final(display)@, keypad@),
                ),
    {
        let rnd = match op {
            Opcode::RAND { .. } => random_byte(),
            _ => 0,
        };
        self.execute_with(op, rnd, memory, display, keypad)
    }

    /// Decodes an instruction word and carries the instruction out. A word
    /// that names no instruction is an error and changes nothing.
    pub fn decode_execute(
        &mut self,
        memory: &mut Memory,
        display: &mut Display,
        keypad: &Keypad,
        instr: u16,
    ) -> (r: Result<(), EmuError>)
        ensures
            match decode(instr) {
                Ok(op) => exists|rnd: u8|
                    is_outcome(
                        #[trigger] exec_op(
                            op,
                            rnd,
                            machine_of(old(self)@, old(memory)@, old(display)@, keypad@),
                        ),
                        machine_of(old(self)@, old(memory)@, old(display)@, keypad@),
                        r,
                        machine_of(final(self)@, final(memory)@, final(display)@, keypad@),
                    ),
                Err(e) => {
                    &&& r == Err::<(), EmuError>(EmuError::Opcode(e))
                    &&& final(self)@ == old(self)@
                    &&& final(memory)@ == old(memory)@
                    &&& final(display)@ == old(display)@
                },
            },
    {
        match Opcode::try_from(instr) {
            Ok(op) => {
                proof {
                    lemma_decode_wf(instr);
                }
                self.execute(op, memory, display, keypad)
            },
            Err(e) => Err(EmuError::Opcode(e)),
        }
    }

    /// One cycle of the wait for a key whose code is to go to register `x`:
    /// see `wait_step`.
    fn wait_for_key(&mut self, x: u8, memory: &mut Memory, keypad: &Keypad) -> (r: Result<
        (),
        EmuError,
    >)
        requires
            x < 16,
        ensures
            forall|screen: Seq<bool>|
                is_outcome(
                    #[trigger] wait_step(machine_of(old(self)@, old(memory)@, screen, keypad@), x),
                    machine_of(old(self)@, old(memory)@, screen, keypad@),
                    r,
                    machine_of(final(self)@, final(memory)@, screen, keypad@),
                ),
    {
        if memory.pc > 4094 {
            return Err(
                EmuError::Memory(MemoryError::MemoryReadError(first_outside_of(memory.pc))),
            );
        }
        let mut fresh = Keypad::new();
        let mut k: usize = 0;
        while k < 16
            invariant
                k <= 16,
                self.held == old(self).held,
                forall|j: int|
                    0 <= j < 16 ==> #[trigger] fresh@[j] == (j < k && keypad@[j] && !old(
                        self,
                    ).held@[j]),
            decreases 16 - k,
        {
            let down = keypad.keys[k] && !self.held[k];
            let ghost prev = fresh@;
            fresh.keys[k] = down;
            assert(fresh@ == prev.update(k as int, down));
            k += 1;
        }
        assert(fresh@ =~= fresh_keys(keypad@, old(self).held@));
        match fresh.get_key_pressed() {
            Some(key) => {
                proof {
                    lemma_first_down(fresh@);
                }
                self.waiting = None;
                self.held = [false; 16];
                assert(self.held@ =~= no_keys());
                set_reg(memory, x, key as u8);
            },
            None => {
                let mut k: usize = 0;
                while k < 16
                    invariant
                        k <= 16,
                        self.waiting == old(self).waiting,
                        self.tone_on == old(self).tone_on,
                        self.increment_index == old(self).increment_index,
                        forall|j: int|
                            0 <= j < 16 ==> #[trigger] self.held@[j] == if j < k {
                                keypad@[j] && old(self).held@[j]
                            } else {
                                old(self).held@[j]
                            },
                    decreases 16 - k,
                {
                    let still = keypad.keys[k] && self.held[k];
                    let ghost prev = self.held@;
                    self.held[k] = still;
                    assert(self.held@ == prev.update(k as int, still));
                    k += 1;
                }
                assert(self.held@ =~= still_held(keypad@, old(self).held@));
            },
        }
        Ok(())
    }

    /// One engine cycle: a cycle of the wait for a key while the engine
    /// waits, and otherwise fetch, decode and execute. On an error nothing
    /// has changed.
    pub fn cycle(&mut self, memory: &mut Memory, display: &mut Display, keypad: &Keypad) -> (r:
        Result<(), EmuError>)
        requires
            old(self)@.wf(),
        ensures
            final(self)@.wf(),
            exists|rnd: u8|
                is_outcome(
                    #[trigger] cycle_of(
                        machine_of(old(self)@, old(memory)@, old(display)@, keypad@),
                        rnd,
                    ),
                    machine_of(old(self)@, old(memory)@, old(display)@, keypad@),
                    r,
                    machine_of(final(self)@, final(memory)@, final(display)@, keypad@),
                ),
    {
        let ghost before = machine_of(self@, memory@, display@, keypad@);
        if let Some(x) = self.waiting {
            let r = self.wait_for_key(x, memory, keypad);
            proof {
                let after = machine_of(self@, memory@, display@, keypad@);
                assert(is_outcome(wait_step(before, x), before, r, after));
                assert(is_outcome(cycle_of(before, 0u8), before, r, after));
            }
            return r;
        }
        let word = match self.fetch(memory) {
            Ok(word) => word,
            Err(e) => {
                assert(is_outcome(
                    cycle_of(before, 0u8),
                    before,
                    Err::<(), EmuError>(EmuError::Memory(e)),
                    before,
                ));
                return Err(EmuError::Memory(e));
            },
        };
        let r = self.decode_execute(memory, display, keypad, word);
        proof {
            let after = machine_of(self@, memory@, display@, keypad@);
            match decode(word) {
                Ok(op) => {
                    lemma_decode_wf(word);
                    let rnd = choose|rnd: u8|
                        is_outcome(#[trigger] exec_op(op, rnd, before), before, r, after);
                    assert(cycle_of(before, rnd) == exec_op(op, rnd, before));
                    assert(is_outcome(cycle_of(before, rnd), before, r, after));
                },
                Err(e) => {
                    assert(is_outcome(cycle_of(before, 0u8), before, r, after));
                },
            }
        }
        r
    }

    /// The sixty-hertz tick: both timers count down by one unless they are
    /// zero, and the tone generator is told to start or stop as
    /// `tone_signals` says. Afterwards the tone is on exactly if the sound
    /// timer is above zero.
    pub fn update_timers(&mut self, memory: &mut Memory) -> (signals: ToneSignals)
        ensures
            signals == tone_signals(old(self)@.tone_on, old(memory)@.sound_timer),
            final(memory)@ == ticked(old(memory)@),
            final(self)@ == (CpuState { tone_on: old(memory)@.sound_timer > 1, ..old(self)@ }),
    {
        let sounding = memory.sound_timer > 0;
        let start = !self.tone_on && sounding;
        let stop = (self.tone_on || sounding) && memory.sound_timer <= 1;
        if memory.delay_timer > 0 {
            memory.delay_timer -= 1;
        }
        if memory.sound_timer > 0 {
            memory.sound_timer -= 1;
        }
        self.tone_on = memory.sound_timer > 0;
        ToneSignals { start, stop }
    }

    /// The jumps, the subroutine call and return, and the skips.
    fn execute_control(
        &self,
        op: Opcode,
        rnd: u8,
        memory: &mut Memory,
        display: &Display,
        keypad: &Keypad,
    ) -> (r: Result<(), EmuError>)
        requires
            op.wf(),
            op.is_control(),
            pc_in_ram(old(memory).pc),
        ensures
            is_outcome(
                exec_op(op, rnd, machine_of(self@, old(memory)@, display@, keypad@)),
                machine_of(self@, old(memory)@, display@, keypad@),
                r,
                machine_of(self@, final(memory)@, display@, keypad@),
            ),
    {
        match op {
            Opcode::RETURN => {
                match memory.stack_pop() {
                    Ok(addr) => {
                        memory.pc = addr;
                    },
                    Err(e) => {
                        return Err(EmuError::Memory(e));
                    },
                }
                return Ok(());
            },
            Opcode::JUMP { nnn } => {
                memory.pc = nnn;
                return Ok(());
            },
            Opcode::CALL { nnn } => {
                match memory.stack_push(memory.pc + 2) {
                    Ok(()) => {
                        memory.pc = nnn;
                    },
                    Err(e) => {
                        return Err(EmuError::Memory(e));
                    },
                }
                return Ok(());
            },
            Opcode::SE_Vx_NN { x, nn } => {
                let skip = memory.v[x as usize] == nn;
                advance_or_skip(memory, skip);
                return Ok(());
            },
            Opcode::SNE_Vx_NN { x, nn } => {
                let skip = memory.v[x as usize] != nn;
                advance_or_skip(memory, skip);
                return Ok(());
            },
            Opcode::SE_Vx_Vy { x, y } => {
                let skip = memory.v[x as usize] == memory.v[y as usize];
                advance_or_skip(memory, skip);
                return Ok(());
            },
            Opcode::SNE_Vx_Vy { x, y } => {
                let skip = memory.v[x as usize] != memory.v[y as usize];
                advance_or_skip(memory, skip);
                return Ok(());
            },
            Opcode::JUMP_V0_NNN { nnn } => {
                memory.pc = memory.v[0] as u16 + nnn;
                return Ok(());
            },
            Opcode::SKP_Vx { x } => {
                let key = low_nibble(memory.v[x as usize]);
                let skip = keypad.is_key_down(key as usize);
                advance_or_skip(memory, skip);
                return Ok(());
            },
            Opcode::SKNP_Vx { x } => {
                let key = low_nibble(memory.v[x as usize]);
                let skip = !keypad.is_key_down(key as usize);
                advance_or_skip(memory, skip);
                return Ok(());
            },
            // No other instruction belongs to this group.
            _ => {
                return Ok(());
            },
        }
    }

    /// The instructions that compute a register from registers and constants.
    fn execute_arith(
        &self,
        op: Opcode,
        rnd: u8,
        memory: &mut Memory,
        display: &Display,
        keypad: &Keypad,
    ) -> (r: Result<(), EmuError>)
        requires
            op.wf(),
            op.is_arith(),
            pc_in_ram(old(memory).pc),
        ensures
            is_outcome(
                exec_op(op, rnd, machine_of(self@, old(memory)@, display@, keypad@)),
                machine_of(self@, old(memory)@, display@, keypad@),
                r,
                machine_of(self@, final(memory)@, display@, keypad@),
            ),
    {
        match op {
            Opcode::LOAD_Vx_NN { x, nn } => {
                set_reg(memory, x, nn);
                return Ok(());
            },
            Opcode::ADD_Vx_NN { x, nn } => {
                let (sum, _) = add_with_carry(memory.v[x as usize], nn);
                set_reg(memory, x, sum);
                return Ok(());
            },
            Opcode::LOAD_Vx_Vy { x, y } => {
                let value = memory.v[y as usize];
                set_reg(memory, x, value);
                return Ok(());
            },
            Opcode::OR_Vx_Vy { x, y } => {
                let value = memory.v[x as usize] | memory.v[y as usize];
                set_reg(memory, x, value);
                return Ok(());
            },
            Opcode::AND_Vx_Vy { x, y } => {
                let value = memory.v[x as usize] & memory.v[y as usize];
                set_reg(memory, x, value);
                return Ok(());
            },
            Opcode::XOR_Vx_Vy { x, y } => {
                let value = memory.v[x as usize] ^ memory.v[y as usize];
                set_reg(memory, x, value);
                return Ok(());
            },
            Opcode::ADD_Vx_Vy { x, y } => {
                let (sum, carry) = add_with_carry(memory.v[x as usize], memory.v[y as usize]);
                set_reg_flag(memory, x, sum, carry);
                return Ok(());
            },
            Opcode::SUB_Vx_Vy { x, y } => {
                let (difference, no_borrow) = sub_no_borrow(
                    memory.v[x as usize],
                    memory.v[y as usize],
                );
                set_reg_flag(memory, x, difference, no_borrow);
                return Ok(());
            },
            Opcode::SHR_Vx_Vy { x, y } => {
                let (shifted, out) = shift_right(memory.v[y as usize]);
                set_reg_flag(memory, x, shifted, out);
                return Ok(());
            },
            Opcode::SUBN_Vx_Vy { x, y } => {
                let (difference, no_borrow) = sub_no_borrow(
                    memory.v[y as usize],
                    memory.v[x as usize],
                );
                set_reg_flag(memory, x, difference, no_borrow);
                return Ok(());
            },
            Opcode::SHL_Vx_Vy { x, y } => {
                let (shifted, out) = shift_left(memory.v[y as usize]);
                set_reg_flag(memory, x, shifted, out);
                return Ok(());
            },
            Opcode::RAND { x, nn } => {
                set_reg(memory, x, rnd & nn);
                return Ok(());
            },
            // No other instruction belongs to this group.
            _ => {
                return Ok(());
            },
        }
    }

    /// The instructions on the screen, the timers, the index register and RAM.
    fn execute_other(
        &mut self,
        op: Opcode,
        rnd: u8,
        memory: &mut Memory,
        display: &mut Display,
        keypad: &Keypad,
    ) -> (r: Result<(), EmuError>)
        requires
            op.wf(),
            !op.is_control(),
            !op.is_arith(),
            pc_in_ram(old(memory).pc),
        ensures
            is_outcome(
                exec_op(op, rnd, machine_of(old(self)@, old(memory)@, old(display)@, keypad@)),
                machine_of(old(self)@, old(memory)@, old(display)@, keypad@),
                r,
                machine_of(final(self)@, final(memory)@, final(display)@, keypad@),
            ),
    {
        match op {
            Opcode::CLEAR => {
                display.clear();
                increment_pc(memory);
                return Ok(());
            },
            Opcode::LOAD_I_NNN { nnn } => {
                memory.i = nnn;
                increment_pc(memory);
                return Ok(());
            },
            Opcode::DRAW { x, y, n } => {
                match draw(memory, display, x, y, n) {
                    Ok(()) => {},
                    Err(e) => {
                        return Err(EmuError::Memory(e));
                    },
                }
                return Ok(());
            },
            Opcode::LOAD_Vx_DT { x } => {
                let value = memory.delay_timer;
                set_reg(memory, x, value);
                return Ok(());
            },
            Opcode::LOAD_Vx_K { x } => {
                self.waiting = Some(x);
                self.held = keypad.keys;
                return Ok(());
            },
            Opcode::LOAD_DT_Vx { x } => {
                memory.delay_timer = memory.v[x as usize];
                increment_pc(memory);
                return Ok(());
            },
            Opcode::LOAD_ST_Vx { x } => {
                memory.sound_timer = memory.v[x as usize];
                increment_pc(memory);
                return Ok(());
            },
            Opcode::ADD_I_Vx { x } => {
                memory.i = memory.i.wrapping_add(memory.v[x as usize] as u16);
                increment_pc(memory);
                return Ok(());
            },
            Opcode::LOAD_FONT { x } => {
                let digit = low_nibble(memory.v[x as usize]) as u16;
                memory.i = 0x050 + digit * 5;
                increment_pc(memory);
                return Ok(());
            },
            Opcode::LOAD_B_Vx { x } => {
                match store_bcd(memory, x) {
                    Ok(()) => {},
                    Err(e) => {
                        return Err(EmuError::Memory(e));
                    },
                }
                return Ok(());
            },
            Opcode::LOAD_I_Vx { x } => {
                match store_registers(memory, x, self.increment_index) {
                    Ok(()) => {},
                    Err(e) => {
                        return Err(EmuError::Memory(e));
                    },
                }
                return Ok(());
            },
            Opcode::LOAD_Vx_I { x } => {
                match load_registers(memory, x, self.increment_index) {
                    Ok(()) => {},
                    Err(e) => {
                        return Err(EmuError::Memory(e));
                    },
                }
                return Ok(());
            },
            Opcode::OpCodeError { op } => {
                return Err(EmuError::Opcode(OpcodeError::UnknownOpcode(op)));
            },
            // No other instruction belongs to this group.
            _ => {
                return Ok(());
            },
        }
    }
}

} // verus!
