//! Address translation between the console's logical address spaces and
//! the byte regions of a cartridge image.
//!
//! Only the baseline wiring is modelled: program storage is a 16 KiB or
//! 32 KiB read-only window, tile storage is mapped one to one.

use vstd::prelude::*;
use vstd::slice::slice_subrange;

verus! {

/// First logical address of the program window.
pub const PRG_BASE: u16 = 0x8000;

/// Why a store into cartridge storage was refused.
#[derive(Debug, Clone, Copy, PartialEq, Eq, Structural)]
pub enum MapperError {
    /// The addressed storage is wired read-only.
    ReadOnlyViolation,
}

/// Id of the baseline wiring, the only one that is modelled.
pub const BASELINE: u16 = 0;

/// Tells whether the wiring of the mapper with this id is modelled. The
/// views below give every id the baseline wiring; a machine is built only
/// round a cartridge whose id passes here.
pub fn supported(mapper: u16) -> (yes: bool)
    ensures
        yes == (mapper == BASELINE),
{
    mapper == BASELINE
}

/// Physical offset that the baseline wiring gives a program address, for a
/// program region of `len` bytes: a region larger than 16 KiB fills the
/// 32 KiB window, a smaller one is seen twice.
pub open spec fn prg_offset(len: nat, addr: u16) -> int {
    if len > 0x4000 {
        addr as int % 0x8000
    } else {
        addr as int % 0x4000
    }
}

/// A program region of one or two whole units answers every address of
/// the program window, and one of a single unit answers the upper half of
/// the window as it answers the lower.
pub proof fn lemma_program_window(len: nat, addr: u16)
    requires
        len == 0x4000 || len == 0x8000,
        addr >= PRG_BASE,
    ensures
        0 <= prg_offset(len, addr) < len,
        len == 0x4000 ==> prg_offset(len, addr) == prg_offset(len, addr ^ 0x4000),
        len == 0x8000 ==> prg_offset(len, addr) == addr - PRG_BASE,
{
    assert((addr ^ 0x4000) % 0x4000 == addr % 0x4000) by (bit_vector);
}

/// View of a cartridge's program region through its mapper.
pub struct PRG<'a> {
    inner: &'a [u8],
    mapper: u16,
}

impl<'a> View for PRG<'a> {
    type V = Seq<u8>;

    closed spec fn view(&self) -> Seq<u8> {
        self.inner@
    }
}

impl<'a> PRG<'a> {
    /// The mapper variant the view was made for.
    pub closed spec fn mapper_id(&self) -> u16 {
        self.mapper
    }

    /// Physical offset of a logical address.
    pub open spec fn offset(&self, addr: u16) -> int {
        prg_offset(self@.len(), addr)
    }

    /// Whether `addr` lies in the program window and resolves to a byte of
    /// the region.
    pub open spec fn maps(&self, addr: u16) -> bool {
        addr >= PRG_BASE && self.offset(addr) < self@.len()
    }

    pub fn new(inner: &'a [u8], mapper: u16) -> (prg: PRG<'a>)
        ensures
            prg@ == inner@,
            prg.mapper_id() == mapper,
    {
        PRG { inner, mapper }
    }

    /// Length of the program region in bytes.
    pub fn len(&self) -> (n: usize)
        ensures
            n == self@.len(),
    {
        self.inner.len()
    }

    /// Translates a logical program address to its physical offset.
    pub fn translate(&self, addr: u16) -> (off: usize)
        requires
            addr >= PRG_BASE,
        ensures
            off == self.offset(addr),
    {
        match self.mapper {
            _ => {
                if self.inner.len() > 0x4000 {
                    assert(addr as usize & 0x7fff == addr as usize % 0x8000) by (bit_vector);
                    addr as usize & 0x7fff
                } else {
                    assert(addr as usize & 0x3fff == addr as usize % 0x4000) by (bit_vector);
                    addr as usize & 0x3fff
                }
            },
        }
    }

    /// Reads the byte that a logical program address resolves to.
    pub fn index(&self, addr: u16) -> (byte: u8)
        requires
            self.maps(addr),
        ensures
            byte == self@[self.offset(addr)],
    {
        let off = self.translate(addr);
        self.inner[off]
    }

    /// Borrows the bytes from `start` up to, not including, `end`; both
    /// ends are translated on their own.
    pub fn range(&self, start: u16, end: u16) -> (bytes: &'a [u8])
        requires
            start >= PRG_BASE,
            end >= PRG_BASE,
            self.offset(start) <= self.offset(end) <= self@.len(),
        ensures
            bytes@ == self@.subrange(self.offset(start), self.offset(end)),
    {
        let from = self.translate(start);
        let to = self.translate(end);
        slice_subrange(self.inner, from, to)
    }

    /// Program storage is read-only under the baseline wiring: every store
    /// is refused and leaves the view as it was.
    pub fn storeb(&mut self, addr: u16, val: u8) -> (res: Result<(), MapperError>)
        ensures
            *final(self) == *old(self),
            res == Err::<(), MapperError>(MapperError::ReadOnlyViolation),
    {
        match self.mapper {
            _ => Err(MapperError::ReadOnlyViolation),
        }
    }
}

/// View of a cartridge's tile region through its mapper.
pub struct CHR<'a> {
    inner: &'a [u8],
    mapper: u16,
}

impl<'a> View for CHR<'a> {
    type V = Seq<u8>;

    closed spec fn view(&self) -> Seq<u8> {
        self.inner@
    }
}

impl<'a> CHR<'a> {
    /// The mapper variant the view was made for.
    pub closed spec fn mapper_id(&self) -> u16 {
        self.mapper
    }

    /// Physical offset of a pattern-table address: the address itself.
    pub open spec fn offset(&self, addr: u16) -> int {
        addr as int
    }

    /// Whether `addr` resolves to a byte of the region.
    pub open spec fn maps(&self, addr: u16) -> bool {
        self.offset(addr) < self@.len()
    }

    pub fn new(inner: &'a [u8], mapper: u16) -> (chr: CHR<'a>)
        ensures
            chr@ == inner@,
            chr.mapper_id() == mapper,
    {
        CHR { inner, mapper }
    }

    /// Length of the tile region in bytes.
    pub fn len(&self) -> (n: usize)
        ensures
            n == self@.len(),
    {
        self.inner.len()
    }

    /// Translates a pattern-table address to its physical offset.
    pub fn translate(&self, addr: u16) -> (off: usize)
        ensures
            off == self.offset(addr),
    {
        match self.mapper {
            _ => addr as usize,
        }
    }

    /// Reads the byte that a pattern-table address resolves to.
    pub fn index(&self, addr: u16) -> (byte: u8)
        requires
            self.maps(addr),
        ensures
            byte == self@[self.offset(addr)],
    {
        let off = self.translate(addr);
        self.inner[off]
    }

    /// Tile storage is read-only under the baseline wiring: every store is
    /// refused and leaves the view as it was.
    pub fn storeb(&mut self, addr: u16, val: u8) -> (res: Result<(), MapperError>)
        ensures
            *final(self) == *old(self),
            res == Err::<(), MapperError>(MapperError::ReadOnlyViolation),
    {
        match self.mapper {
            _ => Err(MapperError::ReadOnlyViolation),
        }
    }
}

} // verus!
