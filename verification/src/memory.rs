//! Machine memory: RAM, the call stack, the register file, the index
//! register, the program counter and the two timers.

use vstd::prelude::*;

use crate::errors::MemoryError;
use crate::hex_text::{hex_bytes, hex_decode, is_hex_text};

verus! {

/// Number of bytes of RAM.
pub const RAM_SIZE: usize = 4096;

/// Capacity of the call stack.
pub const STACK_SIZE: usize = 16;

/// Number of general-purpose registers.
pub const NUM_REGS: usize = 16;

/// Address at which programs are loaded and start running.
pub const START_ADDR: usize = 0x200;

/// Address of the first glyph of the built-in font.
pub const FONT_BASE_ADDR: usize = 0x050;

/// Bytes per glyph.
pub const GLYPH_BYTES: usize = 5;

/// Bytes in the whole font: sixteen glyphs.
pub const FONTSET_SIZE: usize = 80;

/// Largest program that fits between `START_ADDR` and the end of RAM.
pub const MAX_ROM_SIZE: usize = 3584;

/// The built-in font: the glyphs for the hex digits 0 to F, five rows each.
pub const FONTSET: [u8; 80] = [
    0xF0, 0x90, 0x90, 0x90, 0xF0,
    0x20, 0x60, 0x20, 0x20, 0x70,
    0xF0, 0x10, 0xF0, 0x80, 0xF0,
    0xF0, 0x10, 0xF0, 0x10, 0xF0,
    0x90, 0x90, 0xF0, 0x10, 0x10,
    0xF0, 0x80, 0xF0, 0x10, 0xF0,
    0xF0, 0x80, 0xF0, 0x90, 0xF0,
    0xF0, 0x10, 0x20, 0x40, 0x40,
    0xF0, 0x90, 0xF0, 0x90, 0xF0,
    0xF0, 0x90, 0xF0, 0x10, 0xF0,
    0xF0, 0x90, 0xF0, 0x90, 0x90,
    0xE0, 0x90, 0xE0, 0x90, 0xE0,
    0xF0, 0x80, 0x80, 0x80, 0xF0,
    0xE0, 0x90, 0x90, 0x90, 0xE0,
    0xF0, 0x80, 0xF0, 0x80, 0xF0,
    0xF0, 0x80, 0xF0, 0x80, 0x80,
];

/// The memory component.
#[derive(Debug)]
pub struct Memory {
    /// The 4096 bytes of RAM.
    pub ram: [u8; 4096],
    /// The call stack, bottom first; it never holds more than `STACK_SIZE` addresses.
    pub stack: Vec<u16>,
    /// The registers V0 to VF; VF doubles as the flag register.
    pub v: [u8; 16],
    /// The index register I.
    pub i: u16,
    /// The program counter.
    pub pc: u16,
    /// The delay timer.
    pub delay_timer: u8,
    /// The sound timer.
    pub sound_timer: u8,
}

/// The mathematical model of `Memory`.
pub struct MemoryState {
    pub ram: Seq<u8>,
    pub stack: Seq<u16>,
    pub v: Seq<u8>,
    pub i: u16,
    pub pc: u16,
    pub delay_timer: u8,
    pub sound_timer: u8,
}

impl View for Memory {
    type V = MemoryState;

    open spec fn view(&self) -> MemoryState {
        MemoryState {
            ram: self.ram@,
            stack: self.stack@,
            v: self.v@,
            i: self.i,
            pc: self.pc,
            delay_timer: self.delay_timer,
            sound_timer: self.sound_timer,
        }
    }
}

/// RAM as it is before any program is loaded: the font at its base address,
/// zero everywhere else.
pub open spec fn initial_ram() -> Seq<u8> {
    Seq::new(
        4096,
        |a: int|
            if 0x050 <= a < 0x050 + 80 {
                FONTSET@[a - 0x050]
            } else {
                0u8
            },
    )
}

impl MemoryState {
    /// The sizes are those of the machine and the stack is within its capacity.
    pub open spec fn wf(self) -> bool {
        &&& self.ram.len() == 4096
        &&& self.v.len() == 16
        &&& self.stack.len() <= 16
    }

    /// Memory with nothing in it, not even the font: RAM, registers and
    /// timers zero, the stack empty, the program counter at the load address.
    pub open spec fn blank() -> MemoryState {
        MemoryState {
            ram: Seq::new(4096, |a: int| 0u8),
            stack: Seq::empty(),
            v: Seq::new(16, |r: int| 0u8),
            i: 0,
            pc: 0x200,
            delay_timer: 0,
            sound_timer: 0,
        }
    }

    /// The state at power-on and after a reset: blank but for the font.
    pub open spec fn initial() -> MemoryState {
        MemoryState { ram: initial_ram(), ..MemoryState::blank() }
    }
}

impl Default for Memory {
    /// Blank memory, without the font.
    fn default() -> (r: Memory)
        ensures
            r@ == MemoryState::blank(),
    {
        let r = Memory {
            ram: [0u8; 4096],
            stack: Vec::new(),
            v: [0u8; 16],
            i: 0,
            pc: 0x200,
            delay_timer: 0,
            sound_timer: 0,
        };
        assert(r@.ram =~= Seq::new(4096, |a: int| 0u8));
        assert(r@.v =~= Seq::new(16, |r: int| 0u8));
        r
    }
}

/// RAM after `data` has been copied to `base` and the addresses that follow.
pub open spec fn ram_with(ram: Seq<u8>, base: int, data: Seq<u8>) -> Seq<u8> {
    Seq::new(
        ram.len(),
        |a: int|
            if base <= a < base + data.len() {
                data[a - base]
            } else {
                ram[a]
            },
    )
}

/// The first address outside RAM that an access to consecutive bytes from
/// `base` on touches, given that it touches one.
pub open spec fn first_outside(base: u16) -> u16 {
    if base >= 4096 {
        base
    } else {
        4096
    }
}

impl MemoryState {
    /// Loading a program: it is copied verbatim to the load address, unless it
    /// is too large, which leaves the state as it was.
    pub open spec fn load(self, data: Seq<u8>) -> Result<MemoryState, MemoryError> {
        if data.len() > 3584 {
            Err(MemoryError::ROMTooLarge)
        } else {
            Ok(MemoryState { ram: ram_with(self.ram, 0x200, data), ..self })
        }
    }

    /// Pushing an address: it becomes the top of the stack, unless the stack
    /// is full.
    pub open spec fn push(self, value: u16) -> Result<MemoryState, MemoryError> {
        if self.stack.len() >= 16 {
            Err(MemoryError::StackOverflow)
        } else {
            Ok(MemoryState { stack: self.stack.push(value), ..self })
        }
    }

    /// Popping an address: the top of the stack is taken off and handed out,
    /// unless the stack is empty.
    pub open spec fn pop(self) -> Result<(u16, MemoryState), MemoryError> {
        if self.stack.len() == 0 {
            Err(MemoryError::StackUnderflow)
        } else {
            Ok((self.stack.last(), MemoryState { stack: self.stack.drop_last(), ..self }))
        }
    }

    /// Reading one byte of RAM.
    pub open spec fn read(self, addr: u16) -> Result<u8, MemoryError> {
        if addr >= 4096 {
            Err(MemoryError::MemoryReadError(addr))
        } else {
            Ok(self.ram[addr as int])
        }
    }

    /// Writing one byte of RAM.
    pub open spec fn write(self, addr: u16, value: u8) -> Result<MemoryState, MemoryError> {
        if addr >= 4096 {
            Err(MemoryError::MemoryWriteError { addr, value })
        } else {
            Ok(MemoryState { ram: self.ram.update(addr as int, value), ..self })
        }
    }
}

impl Memory {
    /// The call stack is within its capacity.
    pub open spec fn wf(&self) -> bool {
        self@.wf()
    }

    /// Memory at power-on: font loaded, everything else zero, program
    /// counter at the load address.
    pub fn new() -> (r: Memory)
        ensures
            r@ == MemoryState::initial(),
    {
        let mut memory = Memory { ..Default::default() };
        let mut k: usize = 0;
        while k < FONTSET_SIZE
            invariant
                k <= 80,
                forall|a: int|
                    0 <= a < 4096 ==> #[trigger] memory.ram@[a] == if 0x050 <= a < 0x050 + k {
                        FONTSET@[a - 0x050]
                    } else {
                        0u8
                    },
                memory@ == (MemoryState { ram: memory.ram@, ..MemoryState::blank() }),
            decreases 80 - k,
        {
            memory.ram[FONT_BASE_ADDR + k] = FONTSET[k];
            k += 1;
        }
        assert(memory.ram@ =~= initial_ram());
        memory
    }

    /// Puts the memory back into its power-on state.
    pub fn reset(&mut self)
        ensures
            final(self)@ == MemoryState::initial(),
    {
        *self = Memory::new();
    }

    /// Copies a program verbatim into RAM from `START_ADDR` on. A program of
    /// more than `MAX_ROM_SIZE` bytes is refused and nothing is written.
    pub fn load_rom(&mut self, data: &[u8]) -> (r: Result<(), MemoryError>)
        ensures
            match old(self)@.load(data@) {
                Ok(s) => r is Ok && final(self)@ == s,
                Err(e) => r == Err::<(), MemoryError>(e) && final(self)@ == old(self)@,
            },
    {
        let len = data.len();
        if len > MAX_ROM_SIZE {
            return Err(MemoryError::ROMTooLarge);
        }
        let mut k: usize = 0;
        while k < len
            invariant
                len == data@.len(),
                len <= 3584,
                k <= len,
                self.ram@ =~= ram_with(old(self).ram@, 0x200, data@.take(k as int)),
                self.stack == old(self).stack,
                self.v == old(self).v,
                self.i == old(self).i,
                self.pc == old(self).pc,
                self.delay_timer == old(self).delay_timer,
                self.sound_timer == old(self).sound_timer,
            decreases len - k,
        {
            self.ram[START_ADDR + k] = data[k];
            k += 1;
        }
        assert(data@.take(len as int) =~= data@);
        Ok(())
    }

    /// Loads a program; the same as `load_rom`.
    pub fn load(&mut self, data: &[u8]) -> (r: Result<(), MemoryError>)
        ensures
            match old(self)@.load(data@) {
                Ok(s) => r is Ok && final(self)@ == s,
                Err(e) => r == Err::<(), MemoryError>(e) && final(self)@ == old(self)@,
            },
    {
        self.load_rom(data)
    }

    /// Loads a program given as hexadecimal text, two digits to the byte.
    /// Text that is not an even number of hex digits is refused with
    /// `LoadError`; a program that is too large, with `ROMTooLarge`. Either
    /// way nothing is written.
    pub fn load_hex(&mut self, text: &[u8]) -> (r: Result<(), MemoryError>)
        ensures
            !is_hex_text(text@) ==> r == Err::<(), MemoryError>(MemoryError::LoadError)
                && final(self)@ == old(self)@,
            is_hex_text(text@) ==> match old(self)@.load(hex_bytes(text@)) {
                Ok(s) => r is Ok && final(self)@ == s,
                Err(e) => r == Err::<(), MemoryError>(e) && final(self)@ == old(self)@,
            },
    {
        match hex_decode(text) {
            Ok(rom) => self.load_rom(rom.as_slice()),
            Err(_) => Err(MemoryError::LoadError),
        }
    }

    /// Pushes a return address. A full stack is an error and stays as it is.
    pub fn stack_push(&mut self, value: u16) -> (r: Result<(), MemoryError>)
        ensures
            match old(self)@.push(value) {
                Ok(s) => r is Ok && final(self)@ == s,
                Err(e) => r == Err::<(), MemoryError>(e) && final(self)@ == old(self)@,
            },
    {
        if self.stack.len() >= STACK_SIZE {
            return Err(MemoryError::StackOverflow);
        }
        self.stack.push(value);
        Ok(())
    }

    /// Pops the most recently pushed address. An empty stack is an error.
    pub fn stack_pop(&mut self) -> (r: Result<u16, MemoryError>)
        ensures
            match old(self)@.pop() {
                Ok((value, s)) => r == Ok::<u16, MemoryError>(value) && final(self)@ == s,
                Err(e) => r == Err::<u16, MemoryError>(e) && final(self)@ == old(self)@,
            },
    {
        match self.stack.pop() {
            Some(value) => Ok(value),
            None => Err(MemoryError::StackUnderflow),
        }
    }

    /// Number of addresses on the call stack.
    pub fn stack_len(&self) -> (r: u8)
        requires
            self.wf(),
        ensures
            r == self@.stack.len(),
    {
        self.stack.len() as u8
    }

    /// Reads the byte at `addr`, which must lie inside RAM.
    pub fn read(&self, addr: u16) -> (r: Result<u8, MemoryError>)
        ensures
            r == self@.read(addr),
    {
        if addr as usize >= RAM_SIZE {
            return Err(MemoryError::MemoryReadError(addr));
        }
        Ok(self.ram[addr as usize])
    }

    /// Writes `value` at `addr`, which must lie inside RAM; otherwise nothing
    /// is written.
    pub fn write(&mut self, addr: u16, value: u8) -> (r: Result<(), MemoryError>)
        ensures
            match old(self)@.write(addr, value) {
                Ok(s) => r is Ok && final(self)@ == s,
                Err(e) => r == Err::<(), MemoryError>(e) && final(self)@ == old(self)@,
            },
    {
        if addr as usize >= RAM_SIZE {
            return Err(MemoryError::MemoryWriteError { addr, value });
        }
        self.ram[addr as usize] = value;
        Ok(())
    }
}

} // verus!
