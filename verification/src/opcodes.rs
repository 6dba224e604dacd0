//! The instruction set and its decoder.
//!
//! An instruction is one 16-bit word. Its four nibbles, from the most
//! significant down, are the class `op` and the operands `x`, `y` and `n`;
//! `nn` is the low byte and `nnn` the low twelve bits.

use vstd::prelude::*;
use vstd::std_specs::convert::TryFromSpecImpl;

use crate::errors::OpcodeError;

verus! {

/// One decoded instruction.
#[allow(non_camel_case_types)]
#[derive(Debug, Clone, Copy, PartialEq, Eq, Structural)]
pub enum Opcode {
    /// 00E0: clear the screen.
    CLEAR,
    /// 00EE: return from a subroutine.
    RETURN,
    /// 1NNN: jump to `nnn`.
    JUMP { nnn: u16 },
    /// 2NNN: call the subroutine at `nnn`.
    CALL { nnn: u16 },
    /// 3XNN: skip the next instruction if `Vx == nn`.
    SE_Vx_NN { x: u8, nn: u8 },
    /// 4XNN: skip the next instruction if `Vx != nn`.
    SNE_Vx_NN { x: u8, nn: u8 },
    /// 5XY0: skip the next instruction if `Vx == Vy`.
    SE_Vx_Vy { x: u8, y: u8 },
    /// 6XNN: `Vx = nn`.
    LOAD_Vx_NN { x: u8, nn: u8 },
    /// 7XNN: `Vx += nn`, without touching the flag.
    ADD_Vx_NN { x: u8, nn: u8 },
    /// 8XY0: `Vx = Vy`.
    LOAD_Vx_Vy { x: u8, y: u8 },
    /// 8XY1: `Vx |= Vy`.
    OR_Vx_Vy { x: u8, y: u8 },
    /// 8XY2: `Vx &= Vy`.
    AND_Vx_Vy { x: u8, y: u8 },
    /// 8XY3: `Vx ^= Vy`.
    XOR_Vx_Vy { x: u8, y: u8 },
    /// 8XY4: `Vx += Vy`, flag = carry.
    ADD_Vx_Vy { x: u8, y: u8 },
    /// 8XY5: `Vx -= Vy`, flag = no borrow.
    SUB_Vx_Vy { x: u8, y: u8 },
    /// 8XY6: `Vx = Vy >> 1`, flag = the bit shifted out.
    SHR_Vx_Vy { x: u8, y: u8 },
    /// 8XY7: `Vx = Vy - Vx`, flag = no borrow.
    SUBN_Vx_Vy { x: u8, y: u8 },
    /// 8XYE: `Vx = Vy << 1`, flag = the bit shifted out.
    SHL_Vx_Vy { x: u8, y: u8 },
    /// 9XY0: skip the next instruction if `Vx != Vy`.
    SNE_Vx_Vy { x: u8, y: u8 },
    /// ANNN: `I = nnn`.
    LOAD_I_NNN { nnn: u16 },
    /// BNNN: jump to `V0 + nnn`.
    JUMP_V0_NNN { nnn: u16 },
    /// CXNN: `Vx = random byte & nn`.
    RAND { x: u8, nn: u8 },
    /// DXYN: draw the `n`-row sprite at `I` at (`Vx`, `Vy`), flag = collision.
    DRAW { x: u8, y: u8, n: u8 },
    /// EX9E: skip the next instruction if the key in `Vx` is down.
    SKP_Vx { x: u8 },
    /// EXA1: skip the next instruction if the key in `Vx` is up.
    SKNP_Vx { x: u8 },
    /// FX07: `Vx = delay timer`.
    LOAD_Vx_DT { x: u8 },
    /// FX0A: wait for a key press and store its code in `Vx`.
    LOAD_Vx_K { x: u8 },
    /// FX15: `delay timer = Vx`.
    LOAD_DT_Vx { x: u8 },
    /// FX18: `sound timer = Vx`.
    LOAD_ST_Vx { x: u8 },
    /// FX1E: `I += Vx`.
    ADD_I_Vx { x: u8 },
    /// FX29: `I = address of the glyph for the digit in Vx`.
    LOAD_FONT { x: u8 },
    /// FX33: store the three decimal digits of `Vx` at `I`, `I+1`, `I+2`.
    LOAD_B_Vx { x: u8 },
    /// FX55: store `V0..=Vx` at `I..`.
    LOAD_I_Vx { x: u8 },
    /// FX65: load `V0..=Vx` from `I..`.
    LOAD_Vx_I { x: u8 },
    /// A word that names no instruction.
    OpCodeError { op: u16 },
}

/// The instruction set under its other name.
pub type Mnemonics = Opcode;

/// Bits 15..12 of an instruction word: the instruction class.
pub open spec fn word_op(word: u16) -> u8 {
    (word as int / 4096) as u8
}

/// Bits 11..8 of an instruction word.
pub open spec fn word_x(word: u16) -> u8 {
    ((word as int / 256) % 16) as u8
}

/// Bits 7..4 of an instruction word.
pub open spec fn word_y(word: u16) -> u8 {
    ((word as int / 16) % 16) as u8
}

/// Bits 3..0 of an instruction word.
pub open spec fn word_n(word: u16) -> u8 {
    (word as int % 16) as u8
}

/// Bits 7..0 of an instruction word.
pub open spec fn word_nn(word: u16) -> u8 {
    (word as int % 256) as u8
}

/// Bits 11..0 of an instruction word.
pub open spec fn word_nnn(word: u16) -> u16 {
    (word as int % 4096) as u16
}

/// The instruction that a word of class 8 (register arithmetic) encodes.
pub open spec fn decode_arith(word: u16) -> Result<Opcode, OpcodeError> {
    let x = word_x(word);
    let y = word_y(word);
    let n = word_n(word);
    if n == 0x0 {
        Ok(Opcode::LOAD_Vx_Vy { x, y })
    } else if n == 0x1 {
        Ok(Opcode::OR_Vx_Vy { x, y })
    } else if n == 0x2 {
        Ok(Opcode::AND_Vx_Vy { x, y })
    } else if n == 0x3 {
        Ok(Opcode::XOR_Vx_Vy { x, y })
    } else if n == 0x4 {
        Ok(Opcode::ADD_Vx_Vy { x, y })
    } else if n == 0x5 {
        Ok(Opcode::SUB_Vx_Vy { x, y })
    } else if n == 0x6 {
        Ok(Opcode::SHR_Vx_Vy { x, y })
    } else if n == 0x7 {
        Ok(Opcode::SUBN_Vx_Vy { x, y })
    } else if n == 0xE {
        Ok(Opcode::SHL_Vx_Vy { x, y })
    } else {
        Err(OpcodeError::UnknownOpcode(word))
    }
}

/// The instruction that a word of class F (timers, index and transfers) encodes.
pub open spec fn decode_misc(word: u16) -> Result<Opcode, OpcodeError> {
    let x = word_x(word);
    let y = word_y(word);
    let n = word_n(word);
    if y == 0x0 && n == 0x7 {
        Ok(Opcode::LOAD_Vx_DT { x })
    } else if y == 0x0 && n == 0xA {
        Ok(Opcode::LOAD_Vx_K { x })
    } else if y == 0x1 && n == 0x5 {
        Ok(Opcode::LOAD_DT_Vx { x })
    } else if y == 0x1 && n == 0x8 {
        Ok(Opcode::LOAD_ST_Vx { x })
    } else if y == 0x1 && n == 0xE {
        Ok(Opcode::ADD_I_Vx { x })
    } else if y == 0x2 && n == 0x9 {
        Ok(Opcode::LOAD_FONT { x })
    } else if y == 0x3 && n == 0x3 {
        Ok(Opcode::LOAD_B_Vx { x })
    } else if y == 0x5 && n == 0x5 {
        Ok(Opcode::LOAD_I_Vx { x })
    } else if y == 0x6 && n == 0x5 {
        Ok(Opcode::LOAD_Vx_I { x })
    } else {
        Err(OpcodeError::UnknownOpcode(word))
    }
}

/// The instruction that a word encodes, or `UnknownOpcode` with the raw word
/// where it encodes none.
pub open spec fn decode(word: u16) -> Result<Opcode, OpcodeError> {
    let op = word_op(word);
    let x = word_x(word);
    let y = word_y(word);
    let n = word_n(word);
    let nn = word_nn(word);
    let nnn = word_nnn(word);
    if op == 0x0 {
        if x == 0x0 && y == 0xE && n == 0x0 {
            Ok(Opcode::CLEAR)
        } else if x == 0x0 && y == 0xE && n == 0xE {
            Ok(Opcode::RETURN)
        } else {
            Err(OpcodeError::UnknownOpcode(word))
        }
    } else if op == 0x1 {
        Ok(Opcode::JUMP { nnn })
    } else if op == 0x2 {
        Ok(Opcode::CALL { nnn })
    } else if op == 0x3 {
        Ok(Opcode::SE_Vx_NN { x, nn })
    } else if op == 0x4 {
        Ok(Opcode::SNE_Vx_NN { x, nn })
    } else if op == 0x5 {
        if n == 0x0 {
            Ok(Opcode::SE_Vx_Vy { x, y })
        } else {
            Err(OpcodeError::UnknownOpcode(word))
        }
    } else if op == 0x6 {
        Ok(Opcode::LOAD_Vx_NN { x, nn })
    } else if op == 0x7 {
        Ok(Opcode::ADD_Vx_NN { x, nn })
    } else if op == 0x8 {
        decode_arith(word)
    } else if op == 0x9 {
        if n == 0x0 {
            Ok(Opcode::SNE_Vx_Vy { x, y })
        } else {
            Err(OpcodeError::UnknownOpcode(word))
        }
    } else if op == 0xA {
        Ok(Opcode::LOAD_I_NNN { nnn })
    } else if op == 0xB {
        Ok(Opcode::JUMP_V0_NNN { nnn })
    } else if op == 0xC {
        Ok(Opcode::RAND { x, nn })
    } else if op == 0xD {
        Ok(Opcode::DRAW { x, y, n })
    } else if op == 0xE {
        if y == 0x9 && n == 0xE {
            Ok(Opcode::SKP_Vx { x })
        } else if y == 0xA && n == 0x1 {
            Ok(Opcode::SKNP_Vx { x })
        } else {
            Err(OpcodeError::UnknownOpcode(word))
        }
    } else {
        decode_misc(word)
    }
}

impl Opcode {
    /// Every operand lies in the range of the field it was cut from:
    /// register numbers and `n` below 16, addresses below 4096.
    pub open spec fn wf(self) -> bool {
        match self {
            Opcode::CLEAR | Opcode::RETURN => true,
            Opcode::JUMP { nnn } => nnn < 4096,
            Opcode::CALL { nnn } => nnn < 4096,
            Opcode::SE_Vx_NN { x, nn } => x < 16,
            Opcode::SNE_Vx_NN { x, nn } => x < 16,
            Opcode::SE_Vx_Vy { x, y } => x < 16 && y < 16,
            Opcode::LOAD_Vx_NN { x, nn } => x < 16,
            Opcode::ADD_Vx_NN { x, nn } => x < 16,
            Opcode::LOAD_Vx_Vy { x, y } => x < 16 && y < 16,
            Opcode::OR_Vx_Vy { x, y } => x < 16 && y < 16,
            Opcode::AND_Vx_Vy { x, y } => x < 16 && y < 16,
            Opcode::XOR_Vx_Vy { x, y } => x < 16 && y < 16,
            Opcode::ADD_Vx_Vy { x, y } => x < 16 && y < 16,
            Opcode::SUB_Vx_Vy { x, y } => x < 16 && y < 16,
            Opcode::SHR_Vx_Vy { x, y } => x < 16 && y < 16,
            Opcode::SUBN_Vx_Vy { x, y } => x < 16 && y < 16,
            Opcode::SHL_Vx_Vy { x, y } => x < 16 && y < 16,
            Opcode::SNE_Vx_Vy { x, y } => x < 16 && y < 16,
            Opcode::LOAD_I_NNN { nnn } => nnn < 4096,
            Opcode::JUMP_V0_NNN { nnn } => nnn < 4096,
            Opcode::RAND { x, nn } => x < 16,
            Opcode::DRAW { x, y, n } => x < 16 && y < 16 && n < 16,
            Opcode::SKP_Vx { x } => x < 16,
            Opcode::SKNP_Vx { x } => x < 16,
            Opcode::LOAD_Vx_DT { x } => x < 16,
            Opcode::LOAD_Vx_K { x } => x < 16,
            Opcode::LOAD_DT_Vx { x } => x < 16,
            Opcode::LOAD_ST_Vx { x } => x < 16,
            Opcode::ADD_I_Vx { x } => x < 16,
            Opcode::LOAD_FONT { x } => x < 16,
            Opcode::LOAD_B_Vx { x } => x < 16,
            Opcode::LOAD_I_Vx { x } => x < 16,
            Opcode::LOAD_Vx_I { x } => x < 16,
            Opcode::OpCodeError { op } => true,
        }
    }
}

/// Decoding yields only instructions whose operands are in range, and never
/// the placeholder for an unknown word: that case is the error.
pub proof fn lemma_decode_wf(word: u16)
    ensures
        decode(word) matches Ok(op) ==> op.wf() && !(op is OpCodeError),
        decode(word) matches Err(e) ==> e == OpcodeError::UnknownOpcode(word),
{
}

impl TryFrom<u16> for Opcode {
    type Error = OpcodeError;

    /// Splits the word into its fields and looks the instruction up.
    fn try_from(instr: u16) -> (r: Result<Opcode, OpcodeError>)
        ensures
            r == decode(instr),
    {
        let op: u8 = (instr >> 12) as u8;
        let x: u8 = ((instr >> 8) & 0x000F) as u8;
        let y: u8 = ((instr >> 4) & 0x000F) as u8;
        let n: u8 = (instr & 0x000F) as u8;
        let nn: u8 = (instr & 0x00FF) as u8;
        let nnn: u16 = instr & 0x0FFF;
        proof {
            assert(instr >> 12 == instr / 4096) by (bit_vector);
            assert((instr >> 8) & 0x000F == (instr / 256) % 16) by (bit_vector);
            assert((instr >> 4) & 0x000F == (instr / 16) % 16) by (bit_vector);
            assert(instr & 0x000F == instr % 16) by (bit_vector);
            assert(instr & 0x00FF == instr % 256) by (bit_vector);
            assert(instr & 0x0FFF == instr % 4096) by (bit_vector);
        }
        let decoded = match (op, x, y, n) {
            (0x0, 0x0, 0xE, 0x0) => Opcode::CLEAR,
            (0x0, 0x0, 0xE, 0xE) => Opcode::RETURN,
            (0x1, _, _, _) => Opcode::JUMP { nnn },
            (0x2, _, _, _) => Opcode::CALL { nnn },
            (0x3, _, _, _) => Opcode::SE_Vx_NN { x, nn },
            (0x4, _, _, _) => Opcode::SNE_Vx_NN { x, nn },
            (0x5, _, _, 0x0) => Opcode::SE_Vx_Vy { x, y },
            (0x6, _, _, _) => Opcode::LOAD_Vx_NN { x, nn },
            (0x7, _, _, _) => Opcode::ADD_Vx_NN { x, nn },
            (0x8, _, _, 0x0) => Opcode::LOAD_Vx_Vy { x, y },
            (0x8, _, _, 0x1) => Opcode::OR_Vx_Vy { x, y },
            (0x8, _, _, 0x2) => Opcode::AND_Vx_Vy { x, y },
            (0x8, _, _, 0x3) => Opcode::XOR_Vx_Vy { x, y },
            (0x8, _, _, 0x4) => Opcode::ADD_Vx_Vy { x, y },
            (0x8, _, _, 0x5) => Opcode::SUB_Vx_Vy { x, y },
            (0x8, _, _, 0x6) => Opcode::SHR_Vx_Vy { x, y },
            (0x8, _, _, 0x7) => Opcode::SUBN_Vx_Vy { x, y },
            (0x8, _, _, 0xE) => Opcode::SHL_Vx_Vy { x, y },
            (0x9, _, _, 0x0) => Opcode::SNE_Vx_Vy { x, y },
            (0xA, _, _, _) => Opcode::LOAD_I_NNN { nnn },
            (0xB, _, _, _) => Opcode::JUMP_V0_NNN { nnn },
            (0xC, _, _, _) => Opcode::RAND { x, nn },
            (0xD, _, _, _) => Opcode::DRAW { x, y, n },
            (0xE, _, 0x9, 0xE) => Opcode::SKP_Vx { x },
            (0xE, _, 0xA, 0x1) => Opcode::SKNP_Vx { x },
            (0xF, _, 0x0, 0x7) => Opcode::LOAD_Vx_DT { x },
            (0xF, _, 0x0, 0xA) => Opcode::LOAD_Vx_K { x },
            (0xF, _, 0x1, 0x5) => Opcode::LOAD_DT_Vx { x },
            (0xF, _, 0x1, 0x8) => Opcode::LOAD_ST_Vx { x },
            (0xF, _, 0x1, 0xE) => Opcode::ADD_I_Vx { x },
            (0xF, _, 0x2, 0x9) => Opcode::LOAD_FONT { x },
            (0xF, _, 0x3, 0x3) => Opcode::LOAD_B_Vx { x },
            (0xF, _, 0x5, 0x5) => Opcode::LOAD_I_Vx { x },
            (0xF, _, 0x6, 0x5) => Opcode::LOAD_Vx_I { x },
            (_, _, _, _) => {
                return Err(OpcodeError::UnknownOpcode(instr));
            },
        };
        Ok(decoded)
    }
}

impl TryFromSpecImpl<u16> for Opcode {
    open spec fn obeys_try_from_spec() -> bool {
        true
    }

    open spec fn try_from_spec(instr: u16) -> Result<Opcode, OpcodeError> {
        decode(instr)
    }
}

} // verus!
