//! Error values raised by the machine.

use vstd::prelude::*;
use vstd::std_specs::convert::FromSpecImpl;

verus! {

/// Failures of the memory component: RAM accesses, the call stack and program loading.
#[derive(Debug, Clone, Copy, PartialEq, Eq, Structural)]
pub enum MemoryError {
    /// A read touched the given address, which lies outside RAM.
    MemoryReadError(u16),
    /// A write of `value` touched `addr`, which lies outside RAM.
    MemoryWriteError { addr: u16, value: u8 },
    /// A push found the call stack full.
    StackOverflow,
    /// A pop found the call stack empty.
    StackUnderflow,
    /// The program does not fit between the load address and the end of RAM.
    ROMTooLarge,
    /// The program text is not an even number of hexadecimal digits.
    LoadError,
}

/// Failures of the instruction decoder.
#[derive(Debug, Clone, Copy, PartialEq, Eq, Structural)]
pub enum OpcodeError {
    /// The word matches no instruction; the raw word is carried along.
    UnknownOpcode(u16),
}

/// Failures of the keypad.
#[derive(Debug, Clone, Copy, PartialEq, Eq, Structural)]
pub enum KeyboardError {
    /// The key code is not one of the sixteen hex digits.
    UnknownKey(usize),
}

/// Any failure that can end a machine cycle.
#[derive(Debug, Clone, Copy, PartialEq, Eq, Structural)]
pub enum EmuError {
    Memory(MemoryError),
    Opcode(OpcodeError),
    Keyboard(KeyboardError),
}

impl From<MemoryError> for EmuError {
    fn from(e: MemoryError) -> (r: EmuError)
        ensures
            r == EmuError::Memory(e),
    {
        EmuError::Memory(e)
    }
}

impl FromSpecImpl<MemoryError> for EmuError {
    open spec fn obeys_from_spec() -> bool {
        true
    }

    open spec fn from_spec(e: MemoryError) -> EmuError {
        EmuError::Memory(e)
    }
}

impl From<OpcodeError> for EmuError {
    fn from(e: OpcodeError) -> (r: EmuError)
        ensures
            r == EmuError::Opcode(e),
    {
        EmuError::Opcode(e)
    }
}

impl FromSpecImpl<OpcodeError> for EmuError {
    open spec fn obeys_from_spec() -> bool {
        true
    }

    open spec fn from_spec(e: OpcodeError) -> EmuError {
        EmuError::Opcode(e)
    }
}

impl From<KeyboardError> for EmuError {
    fn from(e: KeyboardError) -> (r: EmuError)
        ensures
            r == EmuError::Keyboard(e),
    {
        EmuError::Keyboard(e)
    }
}

impl FromSpecImpl<KeyboardError> for EmuError {
    open spec fn obeys_from_spec() -> bool {
        true
    }

    open spec fn from_spec(e: KeyboardError) -> EmuError {
        EmuError::Keyboard(e)
    }
}

} // verus!
