//! Laws of the machine, proved from the models of its parts.

use vstd::prelude::*;

use crate::cpu::{cycle_of, exec_op, fetch_word, pc_in_ram, tone_signals, wait_step, Machine};
use crate::display::{
    collides, drawn, pixel_index, sprite_bit, sprite_col, sprite_covers, sprite_row,
};
use crate::errors::{EmuError, MemoryError};
use crate::machine::{cycles_of, frame_of, tick_of};
use crate::memory::MemoryState;
use crate::opcodes::{decode, lemma_decode_wf, Opcode};

verus! {

/// Loading a constant into a register: for every register `x` and every
/// byte `nn`, the instruction leaves `nn` in register `x`, moves the program
/// counter on by exactly 2 and changes nothing else.
pub proof fn law_load_constant(s: Machine, x: u8, nn: u8, rnd: u8)
    requires
        x < 16,
        pc_in_ram(s.mem.pc),
    ensures
        exec_op(Opcode::LOAD_Vx_NN { x, nn }, rnd, s) == Ok::<Machine, EmuError>(
            Machine {
                mem: MemoryState {
                    v: s.mem.v.update(x as int, nn),
                    pc: (s.mem.pc + 2) as u16,
                    ..s.mem
                },
                ..s
            },
        ),
{
}

/// A push onto a stack with room left succeeds, and the pop that follows
/// hands the pushed address back and leaves the stack as it was before.
pub proof fn law_stack_round_trip(m: MemoryState, value: u16)
    requires
        m.stack.len() < 16,
    ensures
        m.push(value) is Ok,
        m.push(value).unwrap().pop() == Ok::<(u16, MemoryState), MemoryError>((value, m)),
{
    let pushed = m.push(value).unwrap();
    assert(pushed.stack.drop_last() =~= m.stack);
}

/// A push onto a full stack is an overflow and a pop from an empty stack is
/// an underflow; every other push and pop succeeds.
pub proof fn law_stack_bounds(m: MemoryState, value: u16)
    requires
        m.wf(),
    ensures
        m.push(value) is Err <==> m.stack.len() == 16,
        m.push(value) is Err ==> m.push(value) == Err::<MemoryState, MemoryError>(
            MemoryError::StackOverflow,
        ),
        m.pop() is Err <==> m.stack.len() == 0,
        m.pop() is Err ==> m.pop() == Err::<(u16, MemoryState), MemoryError>(
            MemoryError::StackUnderflow,
        ),
{
}

/// Sprites wrap round the edges of the screen, each axis on its own: bit
/// `col` of row `row` of a sprite drawn at column `x0` of row `y0` lands on
/// the pixel at column `(x0 + col) % 64` of row `(y0 + row) % 32`, which is
/// always a pixel of the screen, and flips it exactly if the bit is set.
pub proof fn law_draw_wraps(
    screen: Seq<bool>,
    sprite: Seq<u8>,
    x0: int,
    y0: int,
    row: int,
    col: int,
)
    requires
        0 <= x0 < 64,
        0 <= y0 < 32,
        0 <= row < sprite.len() <= 32,
        0 <= col < 8,
    ensures
        pixel_index(x0 + col, y0 + row) == ((y0 + row) % 32) * 64 + (x0 + col) % 64,
        0 <= pixel_index(x0 + col, y0 + row) < 2048,
        drawn(screen, sprite, x0, y0).len() == 2048,
        drawn(screen, sprite, x0, y0)[pixel_index(x0 + col, y0 + row)] == (screen[pixel_index(
            x0 + col,
            y0 + row,
        )] != sprite_bit(sprite[row], col)),
{
    let p = pixel_index(x0 + col, y0 + row);
    assert(sprite_row(y0, p) == row);
    assert(sprite_col(x0, p) == col);
}

/// Drawing is an exclusive or: a pixel that no set bit of the sprite lands
/// on keeps its state, and drawing the same sprite at the same place a
/// second time restores the screen.
pub proof fn law_draw_twice_restores(screen: Seq<bool>, sprite: Seq<u8>, x0: int, y0: int)
    requires
        screen.len() == 2048,
    ensures
        drawn(drawn(screen, sprite, x0, y0), sprite, x0, y0) == screen,
        forall|p: int|
            0 <= p < 2048 && !sprite_covers(sprite, x0, y0, p) ==> drawn(screen, sprite, x0, y0)[p]
                == screen[p],
{
    assert(drawn(drawn(screen, sprite, x0, y0), sprite, x0, y0) =~= screen);
}

/// A collision is reported exactly when the sprite has a set bit on a pixel
/// that is on: that pixel is then off afterwards.
pub proof fn law_collision(screen: Seq<bool>, sprite: Seq<u8>, x0: int, y0: int)
    requires
        screen.len() == 2048,
    ensures
        collides(screen, sprite, x0, y0) <==> exists|p: int|
            0 <= p < 2048 && screen[p] && !#[trigger] drawn(screen, sprite, x0, y0)[p],
{
    if collides(screen, sprite, x0, y0) {
        let p = choose|p: int|
            0 <= p < 2048 && screen[p] && #[trigger] sprite_covers(sprite, x0, y0, p);
        assert(!drawn(screen, sprite, x0, y0)[p]);
    }
    if exists|p: int| 0 <= p < 2048 && screen[p] && !#[trigger] drawn(screen, sprite, x0, y0)[p] {
        let p = choose|p: int|
            0 <= p < 2048 && screen[p] && !#[trigger] drawn(screen, sprite, x0, y0)[p];
        assert(sprite_covers(sprite, x0, y0, p));
    }
}

/// No instruction takes the machine out of shape: RAM, registers, screen
/// and keypad keep their sizes and the call stack stays within its sixteen
/// entries.
pub proof fn law_execute_keeps_wf(op: Opcode, rnd: u8, s: Machine)
    requires
        s.wf(),
        op.wf(),
    ensures
        exec_op(op, rnd, s) matches Ok(t) ==> t.wf(),
{
    if op.is_control() {
        lemma_control_keeps_wf(op, rnd, s);
    } else if op.is_arith() {
        lemma_arith_keeps_wf(op, rnd, s);
    } else {
        lemma_other_keeps_wf(op, rnd, s);
    }
}

/// The jumps, calls, returns and skips keep the machine in shape.
proof fn lemma_control_keeps_wf(op: Opcode, rnd: u8, s: Machine)
    requires
        s.wf(),
        op.wf(),
        op.is_control(),
    ensures
        exec_op(op, rnd, s) matches Ok(t) ==> t.wf(),
{
}

/// The register arithmetic keeps the machine in shape.
proof fn lemma_arith_keeps_wf(op: Opcode, rnd: u8, s: Machine)
    requires
        s.wf(),
        op.wf(),
        op.is_arith(),
    ensures
        exec_op(op, rnd, s) matches Ok(t) ==> t.wf(),
{
}

/// The instructions on screen, timers, index register and RAM keep the
/// machine in shape.
proof fn lemma_other_keeps_wf(op: Opcode, rnd: u8, s: Machine)
    requires
        s.wf(),
        op.wf(),
        !op.is_control(),
        !op.is_arith(),
    ensures
        exec_op(op, rnd, s) matches Ok(t) ==> t.wf(),
{
}

/// No engine cycle takes the machine out of shape.
pub proof fn law_cycle_keeps_wf(s: Machine, rnd: u8)
    requires
        s.wf(),
    ensures
        cycle_of(s, rnd) matches Ok(t) ==> t.wf(),
{
    match s.cpu.waiting {
        Some(x) => {
            assert(wait_step(s, x) matches Ok(t) ==> t.wf());
        },
        None => {
            if let Ok(word) = fetch_word(s.mem) {
                if let Ok(op) = decode(word) {
                    lemma_decode_wf(word);
                    law_execute_keeps_wf(op, rnd, s);
                }
            }
        },
    }
}

/// No run of engine cycles takes the machine out of shape, whether or not
/// it ends in an error.
pub proof fn law_cycles_keep_wf(s: Machine, rnds: Seq<u8>)
    requires
        s.wf(),
    ensures
        cycles_of(s, rnds).0.wf(),
    decreases rnds.len(),
{
    if rnds.len() > 0 {
        law_cycles_keep_wf(s, rnds.drop_last());
        law_cycle_keeps_wf(cycles_of(s, rnds.drop_last()).0, rnds.last());
    }
}

/// No frame takes the machine out of shape, whether or not it ends in an
/// error.
pub proof fn law_frame_keeps_wf(s: Machine, keys: Seq<bool>, rnds: Seq<u8>)
    requires
        s.wf(),
        keys.len() == 16,
    ensures
        frame_of(s, keys, rnds).0.wf(),
{
    law_cycles_keep_wf(Machine { keys, ..s }, rnds);
}

/// The timer tick and the tone: after a tick the tone is on exactly if the
/// sound timer is still above zero. A stop is signalled exactly when the
/// tone was on during the tick and the timer is zero after it, and a start
/// exactly when the tone was off and the timer was above zero: never while
/// the tone is already on.
pub proof fn law_tick_tone(s: Machine)
    ensures
        tick_of(s).cpu.tone_on == (tick_of(s).mem.sound_timer > 0),
        tone_signals(s.cpu.tone_on, s.mem.sound_timer).stop == ((s.cpu.tone_on || s.mem.sound_timer
            > 0) && tick_of(s).mem.sound_timer == 0),
        tone_signals(s.cpu.tone_on, s.mem.sound_timer).start == (!s.cpu.tone_on
            && s.mem.sound_timer > 0),
        s.cpu.tone_on ==> !tone_signals(s.cpu.tone_on, s.mem.sound_timer).start,
        s.mem.sound_timer > 0 ==> tick_of(s).mem.sound_timer == s.mem.sound_timer - 1,
        s.mem.delay_timer > 0 ==> tick_of(s).mem.delay_timer == s.mem.delay_timer - 1,
{
}

} // verus!
