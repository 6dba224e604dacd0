//! The whole machine and the frame that drives it: one keypad refresh, a
//! number of engine cycles, one timer tick.

use vstd::prelude::*;

use crate::cpu::{
    cycle_of, is_outcome, machine_of, ticked, tone_signals, CpuState, Machine, ToneSignals, CPU,
};
use crate::display::{blank_screen, Display};
use crate::errors::EmuError;
use crate::keyboard::{no_keys, Keypad};
use crate::memory::{Memory, MemoryState};

verus! {

/// Engine cycles per frame when the host asks for no other number: with
/// sixty frames a second this clocks the machine at 720 instructions a second.
pub const CPU_CYCLES_PER_FRAME: usize = 12;

/// A CHIP-8 machine: engine, memory, screen and keypad.
#[derive(Debug)]
pub struct CHIP8 {
    pub cpu: CPU,
    pub memory: Memory,
    pub display: Display,
    pub keypad: Keypad,
}

impl View for CHIP8 {
    type V = Machine;

    open spec fn view(&self) -> Machine {
        machine_of(self.cpu@, self.memory@, self.display@, self.keypad@)
    }
}

impl Machine {
    /// The machine at power-on.
    pub open spec fn initial() -> Machine {
        Machine {
            cpu: CpuState::initial(),
            mem: MemoryState::initial(),
            screen: blank_screen(),
            keys: no_keys(),
        }
    }
}

/// The machine after engine cycles that draw the random bytes `rnds` in
/// turn, and the error that stopped it, if one did. A cycle that fails
/// changes nothing, and no cycle runs after it.
pub open spec fn cycles_of(s: Machine, rnds: Seq<u8>) -> (Machine, Option<EmuError>)
    decreases rnds.len(),
{
    if rnds.len() == 0 {
        (s, None)
    } else {
        let (reached, stopped) = cycles_of(s, rnds.drop_last());
        match stopped {
            Some(e) => (reached, Some(e)),
            None => match cycle_of(reached, rnds.last()) {
                Ok(next) => (next, None),
                Err(e) => (reached, Some(e)),
            },
        }
    }
}

/// The machine after one timer tick.
pub open spec fn tick_of(s: Machine) -> Machine {
    Machine {
        cpu: CpuState { tone_on: s.mem.sound_timer > 1, ..s.cpu },
        mem: ticked(s.mem),
        ..s
    }
}

/// The machine after one frame and what the frame hands back: the keypad
/// takes over `keys`, the engine runs its cycles, and if none failed the
/// timers tick once and the tone signals are handed back. If a cycle
/// failed, the frame ends there with its error and the timers do not tick.
pub open spec fn frame_of(s: Machine, keys: Seq<bool>, rnds: Seq<u8>) -> (
    Machine,
    Result<ToneSignals, EmuError>,
) {
    let (reached, stopped) = cycles_of(Machine { keys, ..s }, rnds);
    match stopped {
        Some(e) => (reached, Err(e)),
        None => (
            tick_of(reached),
            Ok(tone_signals(reached.cpu.tone_on, reached.mem.sound_timer)),
        ),
    }
}

impl CHIP8 {
    /// A machine at power-on.
    pub fn new() -> (r: CHIP8)
        ensures
            r@ == Machine::initial(),
    {
        CHIP8 {
            cpu: CPU::new(),
            memory: Memory::new(),
            display: Display::new(),
            keypad: Keypad::new(),
        }
    }

    /// Puts the machine back into its power-on state: registers, timers,
    /// stack and screen cleared, font reloaded, program gone. The engine's
    /// compatibility option stays as it was set.
    pub fn reset(&mut self)
        ensures
            final(self)@ == (Machine {
                cpu: CpuState {
                    increment_index: old(self)@.cpu.increment_index,
                    ..CpuState::initial()
                },
                ..Machine::initial()
            }),
    {
        self.cpu.reset();
        self.memory.reset();
        self.display.clear();
        self.keypad.reset();
    }

    /// Loads a program into RAM at the load address. A program that is too
    /// large is refused and nothing changes.
    pub fn load(&mut self, rom: &[u8]) -> (r: Result<(), EmuError>)
        ensures
            match old(self)@.mem.load(rom@) {
                Ok(m) => r is Ok && final(self)@ == (Machine { mem: m, ..old(self)@ }),
                Err(e) => r == Err::<(), EmuError>(EmuError::Memory(e)) && final(self)@ == old(
                    self,
                )@,
            },
    {
        match self.memory.load(rom) {
            Ok(()) => Ok(()),
            Err(e) => Err(EmuError::from(e)),
        }
    }

    /// One engine cycle: fetch, decode and execute, or one cycle of the
    /// wait for a key. On an error nothing has changed.
    pub fn fetch_and_execute(&mut self) -> (r: Result<(), EmuError>)
        requires
            old(self)@.cpu.wf(),
        ensures
            final(self)@.cpu.wf(),
            exists|rnd: u8|
                is_outcome(#[trigger] cycle_of(old(self)@, rnd), old(self)@, r, final(self)@),
    {
        self.cpu.cycle(&mut self.memory, &mut self.display, &self.keypad)
    }

    /// One frame: the keypad takes over the key states that the host
    /// polled, the engine runs `cycles` cycles, and the timers tick once.
    /// Returns what the tone generator is to be told. The first cycle that
    /// fails ends the frame with its error; the machine is then as that
    /// cycle found it, and the timers have not ticked.
    pub fn run_frame(&mut self, keys: &[bool; 16], cycles: usize) -> (r: Result<
        ToneSignals,
        EmuError,
    >)
        requires
            old(self)@.cpu.wf(),
        ensures
            final(self)@.cpu.wf(),
            exists|rnds: Seq<u8>|
                rnds.len() <= cycles && (r is Ok ==> rnds.len() == cycles) && #[trigger] frame_of(
                    old(self)@,
                    keys@,
                    rnds,
                ) == (final(self)@, r),
    {
        self.keypad.update(keys);
        let ghost start = self@;
        let ghost mut rnds: Seq<u8> = Seq::empty();
        let mut done: usize = 0;
        while done < cycles
            invariant
                done <= cycles,
                rnds.len() == done,
                self@.cpu.wf(),
                start == (Machine { keys: keys@, ..old(self)@ }),
                cycles_of(start, rnds) == (self@, None::<EmuError>),
            decreases cycles - done,
        {
            let ghost before = self@;
            let step = self.fetch_and_execute();
            proof {
                let rnd = choose|rnd: u8|
                    is_outcome(#[trigger] cycle_of(before, rnd), before, step, self@);
                let more = rnds.push(rnd);
                assert(more.drop_last() =~= rnds);
                assert(more.last() == rnd);
                rnds = more;
            }
            match step {
                Ok(()) => {},
                Err(e) => {
                    assert(frame_of(old(self)@, keys@, rnds) == (
                        self@,
                        Err::<ToneSignals, EmuError>(e),
                    ));
                    return Err(e);
                },
            }
            done += 1;
        }
        let ghost reached = self@;
        let signals = self.cpu.update_timers(&mut self.memory);
        assert(self@ == tick_of(reached));
        assert(frame_of(old(self)@, keys@, rnds) == (self@, Ok::<ToneSignals, EmuError>(signals)));
        Ok(signals)
    }
}

} // verus!
