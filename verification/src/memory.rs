//! The machine's main memory: 4096 bytes, with the hexadecimal digit glyphs at
//! its start.

use vstd::prelude::*;

verus! {

/// Number of addressable bytes.
pub const MEM_SIZE: usize = 4096;

/// Number of bytes that the digit glyphs take: sixteen glyphs of five rows.
pub const FONT_SIZE: usize = 80;

/// The glyphs of the digits 0 to F, five rows each; only the high four bits
/// of a row are lit.
pub const FONT_SPRITES: [u8; 80] = [
    0xF0, 0x90, 0x90, 0x90, 0xF0,
    0x20, 0x60, 0x20, 0x20, 0x70,
    0xF0, 0x10, 0xF0, 0x80, 0xF0,
    0xF0, 0x10, 0xF0, 0x10, 0xF0,
    0x90, 0x90, 0xF0, 0x10, 0x10,
    0xF0, 0x80, 0xF0, 0x10, 0xF0,
    0xF0, 0x80, 0xF0, 0x90, 0xF0,
    0xF0, 0x10, 0x20, 0x40, 0x40,
    0xF0, 0x90, 0xF0, 0x90, 0xF0,
    0xF0, 0x90, 0xF0, 0x10, 0xF0,
    0xF0, 0x90, 0xF0, 0x90, 0x90,
    0xE0, 0x90, 0xE0, 0x90, 0xE0,
    0xF0, 0x80, 0x80, 0x80, 0xF0,
    0xE0, 0x90, 0x90, 0x90, 0xE0,
    0xF0, 0x80, 0xF0, 0x80, 0xF0,
    0xF0, 0x80, 0xF0, 0x80, 0x80,
];

/// Memory as it is after power-on or a reset: the glyph table at addresses
/// 0 to 79, zero everywhere else.
pub open spec fn initial_memory() -> Seq<u8> {
    Seq::new(MEM_SIZE as nat, |a: int| if a < FONT_SIZE { FONT_SPRITES@[a] } else { 0u8 })
}

/// Whether the `len` bytes from `addr` on all lie inside memory. An empty
/// span lies inside it wherever it starts.
pub open spec fn span_in_memory(addr: int, len: int) -> bool {
    len <= 0 || (0 <= addr && addr + len <= MEM_SIZE)
}

/// The `len` bytes of `mem` from `addr` on.
pub open spec fn bytes_at(mem: Seq<u8>, addr: int, len: int) -> Seq<u8> {
    Seq::new(len as nat, |i: int| mem[addr + i])
}

/// Tests whether the `len` bytes from `addr` on all lie inside memory.
pub fn is_span_in_memory(addr: u16, len: u16) -> (inside: bool)
    ensures
        inside == span_in_memory(addr as int, len as int),
{
    len == 0 || (addr as usize) + (len as usize) <= MEM_SIZE
}

/// The 4096 bytes of main memory.
pub struct Ram {
    mem: [u8; 4096],
}

impl Ram {
    /// The bytes of memory, by address.
    pub closed spec fn view(&self) -> Seq<u8> {
        self.mem@
    }

    /// Memory always holds exactly `MEM_SIZE` bytes.
    pub open spec fn wf(&self) -> bool {
        self@.len() == MEM_SIZE
    }

    pub fn new() -> (ram: Ram)
        ensures
            ram.wf(),
            ram@ == initial_memory(),
    {
        let mut ram = Ram { mem: [0u8; 4096] };
        ram.reset();
        ram
    }

    /// Zeroes memory and writes the glyph table back to its start.
    pub fn reset(&mut self)
        ensures
            final(self).wf(),
            final(self)@ == initial_memory(),
    {
        self.mem = [0u8; 4096];
        let mut i: usize = 0;
        while i < FONT_SIZE
            invariant
                i <= FONT_SIZE,
                self.mem@.len() == MEM_SIZE,
                forall|a: int| 0 <= a < i ==> self.mem@[a] == FONT_SPRITES@[a],
                forall|a: int| i <= a < MEM_SIZE ==> self.mem@[a] == 0,
            decreases FONT_SIZE - i,
        {
            self.mem[i] = FONT_SPRITES[i];
            i += 1;
        }
        assert(self.mem@ =~= initial_memory());
    }

    pub fn memwrite(&mut self, addr: u16, byte: u8)
        requires
            old(self).wf(),
            addr < MEM_SIZE,
        ensures
            final(self).wf(),
            final(self)@ == old(self)@.update(addr as int, byte),
    {
        self.mem[addr as usize] = byte;
    }

    pub fn memread(&self, addr: u16) -> (byte: u8)
        requires
            self.wf(),
            addr < MEM_SIZE,
        ensures
            byte == self@[addr as int],
    {
        self.mem[addr as usize]
    }
}

} // verus!
