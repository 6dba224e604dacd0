//! A CHIP-8 virtual machine: instruction decoder, memory, framebuffer, keypad
//! and execution engine, with every operation specified over a mathematical
//! model of the machine state.

pub mod cpu;
pub mod display;
pub mod errors;
pub mod hex_text;
pub mod keyboard;
pub mod laws;
pub mod machine;
pub mod memory;
pub mod opcodes;

pub use crate::machine::CHIP8;
