//! The picture unit's nametable storage: 2 KiB behind a 4 KiB window.

use vstd::prelude::*;

verus! {

/// Bytes of nametable storage.
pub const NAMETABLE_LEN: usize = 0x800;

/// Physical offset of a video address: its low ten bits select the byte,
/// and the address falls into the lower 1 KiB half below 0x2800 and into
/// the upper half from there on.
pub open spec fn nametable_offset(addr: u16) -> int {
    addr as int % 0x400 + if addr < 0x2800 {
        0int
    } else {
        0x400int
    }
}

/// The four logical nametables fold to two halves of storage: the first
/// two regions share the lower half, the last two the upper half, byte for
/// byte. The two halves never meet.
pub proof fn lemma_nametable_regions(addr: u16)
    requires
        0x2000 <= addr < 0x2400,
    ensures
        nametable_offset(addr) == addr - 0x2000,
        nametable_offset((addr + 0x400) as u16) == addr - 0x2000,
        nametable_offset((addr + 0x800) as u16) == addr - 0x2000 + 0x400,
        nametable_offset((addr + 0xC00) as u16) == addr - 0x2000 + 0x400,
        nametable_offset((addr + 0x1000) as u16) == addr - 0x2000 + 0x400,
        nametable_offset((addr + 0x1800) as u16) == addr - 0x2000 + 0x400,
{
}

pub struct NameTable {
    inner: [u8; 0x800],
}

impl View for NameTable {
    type V = Seq<u8>;

    closed spec fn view(&self) -> Seq<u8> {
        self.inner@
    }
}

impl NameTable {
    /// Storage of 2 KiB, all zero.
    pub fn new() -> (table: NameTable)
        ensures
            table@ == Seq::new(NAMETABLE_LEN as nat, |i: int| 0u8),
    {
        let table = NameTable { inner: [0u8;0x800] };
        assert(table@ =~= Seq::new(NAMETABLE_LEN as nat, |i: int| 0u8));
        table
    }

    /// Storage always holds 2 KiB.
    pub broadcast proof fn lemma_len(&self)
        ensures
            #[trigger] self@.len() == NAMETABLE_LEN,
    {
    }

    /// Translates a video address to its physical offset.
    pub fn addr(&self, addr: u16) -> (off: usize)
        ensures
            off == nametable_offset(addr),
            off < NAMETABLE_LEN,
    {
        assert(addr as usize & 0x3FF == addr as usize % 0x400) by (bit_vector);
        let low = addr as usize & 0x3FF;
        low + if addr < 0x2800 {
            0
        } else {
            0x400
        }
    }

    /// Reads the byte that a video address resolves to.
    pub fn index(&self, index: u16) -> (byte: u8)
        ensures
            byte == self@[nametable_offset(index)],
    {
        self.inner[self.addr(index)]
    }

    /// Stores a byte where a video address resolves to.
    pub fn index_store(&mut self, index: u16, val: u8)
        ensures
            final(self)@ == old(self)@.update(nametable_offset(index), val),
    {
        let addr = self.addr(index);
        self.inner[addr] = val;
    }
}

} // verus!
