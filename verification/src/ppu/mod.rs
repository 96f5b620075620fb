//! The picture unit: register file, video memory and pixel engine.

pub mod nametable;
pub mod palette;
pub mod reg;
pub mod screen;

use crate::mapper::{MapperError, CHR};
use crate::ppu::nametable::{nametable_offset, NameTable};
use crate::ppu::palette::{palette_offset, Palette};
use crate::ppu::reg::Regs;
use vstd::prelude::*;

verus! {

pub const SCREEN_WIDTH: usize = 256;

pub const SCREEN_HEIGHT: usize = 240;

pub const CYCLES_PER_SCANLINE: usize = 114;

pub const VBLANK_SCANLINE: u16 = 240;

pub const LAST_SCANLINE: u16 = 261;

/// Bytes of sprite attribute memory.
pub const OAM_LEN: usize = 0x100;

/// Where a video address leads, once reduced to fourteen bits.
pub enum VideoTarget {
    /// A byte of the pattern tables, by its address.
    Pattern(u16),
    /// A byte of nametable storage, by its physical offset.
    Nametable(int),
    /// An entry of palette memory, by its physical offset.
    Palette(int),
}

/// Decodes a video address: the pattern tables up to 0x1FFF, the
/// nametables up to 0x2FFF and once more up to 0x3EFF, palette memory
/// from 0x3F00 on; all of it again every 0x4000.
pub open spec fn video_target(addr: u16) -> VideoTarget {
    let a = (addr as int % 0x4000) as u16;
    if a < 0x2000 {
        VideoTarget::Pattern(a)
    } else if a < 0x3000 {
        VideoTarget::Nametable(nametable_offset(a))
    } else if a < 0x3F00 {
        VideoTarget::Nametable(nametable_offset((a - 0x1000) as u16))
    } else {
        VideoTarget::Palette(palette_offset(a))
    }
}

pub struct PPU<'a> {
    /// The registers behind the eight ports.
    pub regs: Regs,
    /// The pattern tables, on the cartridge.
    pub chr: CHR<'a>,
    /// Tile indices and attributes of the background.
    pub nametables: NameTable,
    /// Colour indices of background and sprites.
    pub palette: Palette,
    /// Sprite attribute memory, outside the video address space.
    pub oam: [u8; 0x100],
    pub scanline: u16,
    pub cycle: usize,
}

impl<'a> PPU<'a> {
    /// Whether a load from `addr` finds a byte: always but in a pattern
    /// table that the cartridge does not fill.
    pub open spec fn readable(&self, addr: u16) -> bool {
        match video_target(addr) {
            VideoTarget::Pattern(a) => self.chr.maps(a),
            _ => true,
        }
    }

    /// The byte at a video address.
    pub open spec fn peek(&self, addr: u16) -> u8 {
        match video_target(addr) {
            VideoTarget::Pattern(a) => self.chr@[self.chr.offset(a)],
            VideoTarget::Nametable(off) => self.nametables@[off],
            VideoTarget::Palette(off) => self.palette@[off],
        }
    }

    /// Whether the memories of `self` are those of `pre` after `val` was
    /// stored at a video address outside the pattern tables: one byte of
    /// the nametables or of palette memory has changed, nothing else.
    pub open spec fn video_stored(&self, pre: &PPU<'a>, addr: u16, val: u8) -> bool {
        &&& self.chr == pre.chr
        &&& self.oam == pre.oam
        &&& self.scanline == pre.scanline
        &&& self.cycle == pre.cycle
        &&& match video_target(addr) {
            VideoTarget::Pattern(_) => false,
            VideoTarget::Nametable(off) => self.nametables@ == pre.nametables@.update(off, val)
                && self.palette == pre.palette,
            VideoTarget::Palette(off) => self.palette@ == pre.palette@.update(off, val)
                && self.nametables == pre.nametables,
        }
    }

    /// Tells whether a load from `addr` finds a byte.
    pub fn can_load(&self, addr: u16) -> (yes: bool)
        ensures
            yes == self.readable(addr),
    {
        assert(addr & 0x3FFF == addr % 0x4000) by (bit_vector);
        let addr = addr & 0x3FFF;
        addr >= 0x2000 || (addr as usize) < self.chr.len()
    }

    /// Reads the byte at a video address.
    pub fn loadb(&self, addr: u16) -> (byte: u8)
        requires
            self.readable(addr),
        ensures
            byte == self.peek(addr),
    {
        assert(addr & 0x3FFF == addr % 0x4000) by (bit_vector);
        let addr = addr & 0x3FFF;
        if addr < 0x2000 {
            self.chr.index(addr)
        } else if addr < 0x3000 {
            self.nametables.index(addr)
        } else if addr < 0x3F00 {
            self.nametables.index(addr - 0x1000)
        } else {
            self.palette.index(addr)
        }
    }

    /// Stores a byte at a video address. The pattern tables belong to the
    /// cartridge, which refuses the store; nothing changes then.
    pub fn storeb(&mut self, addr: u16, val: u8) -> (res: Result<(), MapperError>)
        ensures
            res is Err <==> video_target(addr) is Pattern,
            res is Err ==> *final(self) == *old(self),
            res matches Err(e) ==> e == MapperError::ReadOnlyViolation,
            res is Ok ==> final(self).regs == old(self).regs && final(self).video_stored(
                old(self),
                addr,
                val,
            ),
    {
        assert(addr & 0x3FFF == addr % 0x4000) by (bit_vector);
        let addr = addr & 0x3FFF;
        if addr < 0x2000 {
            self.chr.storeb(addr, val)
        } else if addr < 0x3000 {
            self.nametables.index_store(addr, val);
            Ok(())
        } else if addr < 0x3F00 {
            self.nametables.index_store(addr - 0x1000, val);
            Ok(())
        } else {
            self.palette.index_store(addr, val);
            Ok(())
        }
    }

    /// A picture unit at power-on: registers, video memory and sprite
    /// memory all zero, at the first cycle of the first scanline.
    pub fn new(chr: CHR<'a>) -> (ppu: PPU<'a>)
        ensures
            ppu.chr == chr,
            ppu.regs == Regs::power_on(),
            ppu.nametables@ == Seq::new(0x800, |i: int| 0u8),
            ppu.palette@ == Seq::new(0x20, |i: int| 0u8),
            ppu.oam@ == Seq::new(OAM_LEN as nat, |i: int| 0u8),
            ppu.scanline == 0,
            ppu.cycle == 0,
    {
        let ppu = PPU {
            chr,
            regs: Regs::new(),
            nametables: NameTable::new(),
            palette: Palette::new(),
            oam: [0u8;0x100],
            scanline: 0,
            cycle: 0,
        };
        assert(ppu.oam@ =~= Seq::new(OAM_LEN as nat, |i: int| 0u8));
        ppu
    }
}

} // verus!
