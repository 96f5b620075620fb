//! The picture unit's palette memory: 32 colour indices, of which the
//! first entry of each sprite palette is the first entry of the
//! background palette with the same number.

use vstd::prelude::*;

verus! {

/// Entries of palette memory.
pub const PALETTE_LEN: usize = 0x20;

/// Physical offset of a video address: the address wraps in a window of
/// 32 entries, and entries 0x10, 0x14, 0x18 and 0x1C are entries 0x00,
/// 0x04, 0x08 and 0x0C.
pub open spec fn palette_offset(addr: u16) -> int {
    let entry = addr as int % 0x20;
    if entry >= 0x10 && entry % 4 == 0 {
        entry - 0x10
    } else {
        entry
    }
}

/// Palette memory repeats every 32 addresses, and the first entry of each
/// sprite palette is the first entry of the background palette sixteen
/// below it.
pub proof fn lemma_palette_mirrors(addr: u16)
    requires
        0x3F00 <= addr < 0x3FE0,
    ensures
        0 <= palette_offset(addr) < PALETTE_LEN,
        palette_offset((addr + 0x20) as u16) == palette_offset(addr),
        addr % 4 == 0 ==> palette_offset((addr + 0x10) as u16) == palette_offset(addr),
        addr % 4 != 0 ==> palette_offset(addr) == addr % 0x20,
{
}

pub struct Palette {
    inner: [u8; 0x20],
}

impl View for Palette {
    type V = Seq<u8>;

    closed spec fn view(&self) -> Seq<u8> {
        self.inner@
    }
}

impl Palette {
    /// The colour index that a four-bit pixel value resolves to. A pixel
    /// whose low two bits are zero is transparent.
    pub open spec fn color(&self, index: u8) -> Option<u8> {
        if index % 4 == 0 {
            None
        } else {
            Some(self@[index as int % 0x20])
        }
    }

    /// Palette memory, all zero.
    pub fn new() -> (palette: Palette)
        ensures
            palette@ == Seq::new(PALETTE_LEN as nat, |i: int| 0u8),
    {
        let palette = Palette { inner: [0u8;0x20] };
        assert(palette@ =~= Seq::new(PALETTE_LEN as nat, |i: int| 0u8));
        palette
    }

    /// Palette memory always holds 32 entries.
    pub broadcast proof fn lemma_len(&self)
        ensures
            #[trigger] self@.len() == PALETTE_LEN,
    {
    }

    /// Translates a video address to its physical offset.
    pub fn addr(&self, addr: u16) -> (off: usize)
        ensures
            off == palette_offset(addr),
            off < PALETTE_LEN,
    {
        let entry: usize = (addr % 0x20) as usize;
        if entry >= 0x10 && entry % 4 == 0 {
            entry - 0x10
        } else {
            entry
        }
    }

    /// Reads the entry that a video address resolves to.
    pub fn index(&self, index: u16) -> (byte: u8)
        ensures
            byte == self@[palette_offset(index)],
    {
        self.inner[self.addr(index)]
    }

    /// Stores an entry where a video address resolves to.
    pub fn index_store(&mut self, index: u16, val: u8)
        ensures
            final(self)@ == old(self)@.update(palette_offset(index), val),
    {
        let addr = self.addr(index);
        self.inner[addr] = val;
    }

    /// Resolves a four-bit pixel value to its colour index, or to nothing
    /// where the pixel is transparent.
    pub fn get_color_by_index(&self, index: u8) -> (color: Option<u8>)
        ensures
            color == self.color(index),
    {
        if index % 4 == 0 {
            None
        } else {
            Some(self.inner[(index % 0x20) as usize])
        }
    }
}

} // verus!
