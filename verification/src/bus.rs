//! The bus: memory, frame buffer, keypad and the sound flag, as the processor
//! sees them.

use vstd::prelude::*;
use crate::display::{blank_screen, draw_rows, is_screen, rows_collide, Display};
use crate::keypad::Keypad;
use crate::memory::{bytes_at, initial_memory, span_in_memory, Ram, MEM_SIZE};

verus! {

/// What the bus holds, as plain values.
pub struct BusState {
    /// The 4096 bytes of memory.
    pub mem: Seq<u8>,
    /// Whether a tone is to be emitted.
    pub sound: bool,
    /// The key that is held down, if any.
    pub key: Option<u8>,
    /// The 2048 pixels of the frame buffer, row by row.
    pub vram: Seq<u8>,
}

impl BusState {
    /// Memory and frame buffer have their fixed sizes, and every pixel is 0
    /// or 1.
    pub open spec fn wf(self) -> bool {
        self.mem.len() == MEM_SIZE && is_screen(self.vram)
    }
}

/// All that the processor reaches outside itself.
pub struct Bus {
    ram: Ram,
    sound: bool,
    keypad: Keypad,
    display: Display,
}

impl Bus {
    /// What the bus holds.
    pub closed spec fn view(&self) -> BusState {
        BusState { mem: self.ram@, sound: self.sound, key: self.keypad@, vram: self.display@ }
    }

    /// Memory and frame buffer are as they must be.
    pub open spec fn wf(&self) -> bool {
        self@.wf()
    }

    pub fn new() -> (bus: Bus)
        ensures
            bus.wf(),
            bus@ == (BusState {
                mem: initial_memory(),
                sound: false,
                key: None,
                vram: blank_screen(),
            }),
    {
        Bus { sound: false, ram: Ram::new(), keypad: Keypad::new(), display: Display::new() }
    }

    /// Puts memory and frame buffer back to their power-on contents; the
    /// sound flag and the keypad stay as they are.
    pub fn reset(&mut self)
        ensures
            final(self).wf(),
            final(self)@ == (BusState {
                mem: initial_memory(),
                vram: blank_screen(),
                ..old(self)@
            }),
    {
        self.ram.reset();
        self.display.clrs();
    }

    pub fn memread(&self, addr: u16) -> (byte: u8)
        requires
            self.wf(),
            addr < MEM_SIZE,
        ensures
            byte == self@.mem[addr as int],
    {
        self.ram.memread(addr)
    }

    pub fn memwrite(&mut self, addr: u16, val: u8)
        requires
            old(self).wf(),
            addr < MEM_SIZE,
        ensures
            final(self).wf(),
            final(self)@ == (BusState {
                mem: old(self)@.mem.update(addr as int, val),
                ..old(self)@
            }),
    {
        self.ram.memwrite(addr, val)
    }

    /// Draws the `sprite_len` bytes of memory from `addr` on as a sprite at
    /// `(x, y)`, and says whether a lit pixel was put out.
    pub fn draw(&mut self, x: u8, y: u8, addr: u16, sprite_len: u16) -> (collision: bool)
        requires
            old(self).wf(),
            span_in_memory(addr as int, sprite_len as int),
        ensures
            final(self).wf(),
            final(self)@ == (BusState {
                vram: draw_rows(
                    old(self)@.vram,
                    x as int,
                    y as int,
                    bytes_at(old(self)@.mem, addr as int, sprite_len as int),
                ),
                ..old(self)@
            }),
            collision == rows_collide(
                old(self)@.vram,
                x as int,
                y as int,
                bytes_at(old(self)@.mem, addr as int, sprite_len as int),
            ),
    {
        let mut sprite: Vec<u8> = Vec::new();
        let mut i: u16 = 0;
        while i < sprite_len
            invariant
                i <= sprite_len,
                self.wf(),
                span_in_memory(addr as int, sprite_len as int),
                sprite@ == bytes_at(self@.mem, addr as int, i as int),
            decreases sprite_len - i,
        {
            let idx: u16 = addr + i;
            let byte: u8 = self.memread(idx);
            sprite.push(byte);
            assert(sprite@ =~= bytes_at(self@.mem, addr as int, i + 1));
            i += 1;
        }
        self.display.draw_sprite(x, y, sprite.as_slice())
    }

    pub fn clrs(&mut self)
        requires
            old(self).wf(),
        ensures
            final(self).wf(),
            final(self)@ == (BusState { vram: blank_screen(), ..old(self)@ }),
    {
        self.display.clrs()
    }

    pub fn get_vram(&self) -> (pixels: Vec<u8>)
        ensures
            pixels@ == self@.vram,
    {
        self.display.get_vram()
    }

    pub fn is_sound_on(&self) -> (on: bool)
        ensures
            on == self@.sound,
    {
        self.sound
    }

    pub fn set_sound_on(&mut self)
        ensures
            final(self)@ == (BusState { sound: true, ..old(self)@ }),
    {
        self.sound = true;
    }

    pub fn set_sound_off(&mut self)
        ensures
            final(self)@ == (BusState { sound: false, ..old(self)@ }),
    {
        self.sound = false;
    }

    pub fn press_key(&mut self, key: Option<u8>)
        ensures
            final(self)@ == (BusState { key: key, ..old(self)@ }),
    {
        self.keypad.set_pressed_key(key);
    }

    /// Lets the key `keycode` go if it is the one held down; any other key
    /// stays down.
    pub fn release_key(&mut self, keycode: u8)
        ensures
            final(self)@ == (BusState {
                key: if old(self)@.key == Some(keycode) {
                    None
                } else {
                    old(self)@.key
                },
                ..old(self)@
            }),
    {
        if self.keypad.is_key_pressed(keycode) {
            self.keypad.set_pressed_key(None)
        }
    }

    pub fn get_pressed_key(&self) -> (key: Option<u8>)
        ensures
            key == self@.key,
    {
        self.keypad.get_pressed_key()
    }

    pub fn is_key_pressed(&self, keycode: u8) -> (pressed: bool)
        ensures
            pressed == (self@.key == Some(keycode)),
    {
        self.keypad.is_key_pressed(keycode)
    }
}

} // verus!
