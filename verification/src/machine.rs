//! The whole console: a processor and the bus it works on, as a host drives
//! them.

use vstd::prelude::*;
use crate::bus::{Bus, BusState};
use crate::cpu::{initial_cpu, needs_random, spec_tick, Cpu, CpuState, Fault, Ticked, PROG_START};
use crate::display::blank_screen;
use crate::memory::{initial_memory, FONT_SPRITES, MEM_SIZE};

verus! {

/// The most bytes a program can have: what memory holds from the start
/// address on.
pub const MAX_ROM_SIZE: usize = 3584;

/// Memory after `rom` has been written to it from the start address on.
pub open spec fn with_program(mem: Seq<u8>, rom: Seq<u8>) -> Seq<u8> {
    Seq::new(
        mem.len(),
        |a: int|
            if PROG_START <= a < PROG_START + rom.len() {
                rom[a - PROG_START]
            } else {
                mem[a]
            },
    )
}

/// A processor and its bus.
pub struct Console {
    bus: Bus,
    cpu: Cpu,
}

impl Console {
    /// The processor's state.
    pub closed spec fn cpu(&self) -> CpuState {
        self.cpu@
    }

    /// What is on the bus.
    pub closed spec fn bus(&self) -> BusState {
        self.bus@
    }

    /// Processor and bus are both as they must be.
    pub open spec fn wf(&self) -> bool {
        self.cpu().wf() && self.bus().wf()
    }

    /// A console as it is at power-on: the glyph table in memory, a blank
    /// screen, no key held, no sound, and the processor at the start address.
    pub fn new() -> (console: Console)
        ensures
            console.wf(),
            console.cpu() == initial_cpu(),
            console.bus() == (BusState {
                mem: initial_memory(),
                sound: false,
                key: None,
                vram: blank_screen(),
            }),
    {
        Console { bus: Bus::new(), cpu: Cpu::new() }
    }

    /// Writes `rom` to memory from the start address on. A program longer
    /// than memory has room for is the caller's to refuse.
    pub fn load_rom(&mut self, rom: &[u8])
        requires
            old(self).wf(),
            rom@.len() <= MAX_ROM_SIZE,
        ensures
            final(self).wf(),
            final(self).cpu() == old(self).cpu(),
            final(self).bus() == (BusState {
                mem: with_program(old(self).bus().mem, rom@),
                ..old(self).bus()
            }),
    {
        let start_addr: u16 = PROG_START;
        let ghost bus0 = self.bus@;
        let mut idx: usize = 0;
        assert(bus0.mem =~= with_program(bus0.mem, rom@.take(0)));
        while idx < rom.len()
            invariant
                idx <= rom@.len() <= MAX_ROM_SIZE,
                start_addr == PROG_START,
                self.bus.wf(),
                bus0.wf(),
                self.cpu == old(self).cpu,
                self.bus@ == (BusState {
                    mem: with_program(bus0.mem, rom@.take(idx as int)),
                    ..bus0
                }),
            decreases rom@.len() - idx,
        {
            let byte: u8 = rom[idx];
            self.bus.memwrite(start_addr + idx as u16, byte);
            assert(self.bus@.mem =~= with_program(bus0.mem, rom@.take(idx + 1)));
            idx += 1;
        }
        assert(rom@.take(rom@.len() as int) =~= rom@);
    }

    /// Puts the console back to power-on: registers, timers, call stack and
    /// program counter, the glyph table at addresses 0 to 79 with zeroes
    /// after it, and a blank screen. The key held and the sound flag stay.
    pub fn reset(&mut self)
        ensures
            final(self).wf(),
            final(self).cpu() == initial_cpu(),
            final(self).bus() == (BusState {
                mem: initial_memory(),
                vram: blank_screen(),
                ..old(self).bus()
            }),
            forall|a: int| 0 <= a < 80 ==> final(self).bus().mem[a] == FONT_SPRITES@[a],
            forall|a: int| 80 <= a < MEM_SIZE ==> final(self).bus().mem[a] == 0,
            forall|a: int| 0 <= a < 2048 ==> final(self).bus().vram[a] == 0,
            forall|i: int| 0 <= i < 16 ==> final(self).cpu().v[i] == 0,
            final(self).cpu().stack.len() == 0,
            final(self).cpu().dt == 0 && final(self).cpu().st == 0,
    {
        self.cpu.reset();
        self.bus.reset();
    }

    /// Runs one cycle of the processor.
    pub fn tick(&mut self) -> (result: Result<(), Fault>)
        requires
            old(self).wf(),
        ensures
            final(self).wf(),
            exists|rnd: Option<u8>|
                (Ticked { cpu: final(self).cpu(), bus: final(self).bus(), result: result })
                    == spec_tick(old(self).cpu(), old(self).bus(), rnd),
            !needs_random(old(self).cpu(), old(self).bus()) ==> (Ticked {
                cpu: final(self).cpu(),
                bus: final(self).bus(),
                result: result,
            }) == spec_tick(old(self).cpu(), old(self).bus(), None),
    {
        self.cpu.tick(&mut self.bus)
    }

    /// Runs one cycle of the processor with the random byte that the caller
    /// drew.
    pub fn tick_with(&mut self, random: Option<u8>) -> (result: Result<(), Fault>)
        requires
            old(self).wf(),
        ensures
            final(self).wf(),
            (Ticked { cpu: final(self).cpu(), bus: final(self).bus(), result: result })
                == spec_tick(old(self).cpu(), old(self).bus(), random),
    {
        self.cpu.tick_with(&mut self.bus, random)
    }

    /// A copy of the frame buffer: 2048 pixels, row by row, each 0 or 1.
    pub fn get_vram(&self) -> (pixels: Vec<u8>)
        ensures
            pixels@ == self.bus().vram,
    {
        self.bus.get_vram()
    }

    /// Whether the host is to emit a tone.
    pub fn beep(&self) -> (on: bool)
        ensures
            on == self.bus().sound,
    {
        self.bus.is_sound_on()
    }

    /// Holds the key `keycode` down, in place of any other.
    pub fn press_key(&mut self, keycode: u8)
        ensures
            final(self).cpu() == old(self).cpu(),
            final(self).bus() == (BusState { key: Some(keycode), ..old(self).bus() }),
    {
        let key = Some(keycode);
        self.bus.press_key(key)
    }

    /// Lets the key `keycode` go if it is the one held down.
    pub fn release_key(&mut self, keycode: u8)
        ensures
            final(self).cpu() == old(self).cpu(),
            final(self).bus() == (BusState {
                key: if old(self).bus().key == Some(keycode) {
                    None
                } else {
                    old(self).bus().key
                },
                ..old(self).bus()
            }),
    {
        self.bus.release_key(keycode);
    }

    pub fn get_pressed_key(&self) -> (key: Option<u8>)
        ensures
            key == self.bus().key,
    {
        self.bus.get_pressed_key()
    }
}

} // verus!
