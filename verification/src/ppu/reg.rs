//! The picture unit's register file and its eight ports.
//!
//! The scroll and address ports share one write toggle: the first write
//! of a pair fills one half of the temporary video address, the second
//! the other. Reading the status port resets the toggle.

use crate::bits::{bit_set, test_bit};
use crate::mapper::MapperError;
use crate::ppu::{VideoTarget, video_target, PPU};
use vstd::prelude::*;

verus! {

/// Control bit: raise an interrupt when vertical blanking starts.
pub const CTRL_NMI: u8 = 7;

/// Control bit: sprites are 16 rows high.
pub const CTRL_SPRITE_HEIGHT: u8 = 5;

/// Control bit: the background uses the second pattern table.
pub const CTRL_BG_TABLE: u8 = 4;

/// Control bit: sprites use the second pattern table.
pub const CTRL_SPRITE_TABLE: u8 = 3;

/// Control bit: the video address steps by 32, not by 1.
pub const CTRL_INCREMENT: u8 = 2;

/// Status bit: vertical blanking has started.
pub const STATUS_VBLANK: u8 = 7;

/// Coarse X scroll of a video address: its bits 0 to 4.
pub open spec fn coarse_x(t: u16) -> int {
    t as int % 32
}

/// Nametable selection of a video address: its bits 10 and 11.
pub open spec fn table_select(t: u16) -> int {
    t as int / 0x400 % 4
}

/// A video address made of fine Y scroll, nametable selection, coarse Y
/// and coarse X scroll.
pub open spec fn scroll_address(fine_y: int, table: int, coarse_y: int, coarse_x: int) -> int {
    fine_y * 0x1000 + table * 0x400 + coarse_y * 32 + coarse_x
}

#[derive(Debug, Clone, Copy, PartialEq, Eq, Structural)]
pub struct Regs {
    /// Port 0, `VPHB SINN`: interrupt enable, unused, sprite height,
    /// background table, sprite table, increment mode, nametable.
    pub ctrl: u8,
    /// Port 1, `BGRs bMmG`: colour emphasis, sprite and background
    /// enable, left-column clipping, greyscale.
    pub mask: u8,
    /// Port 2, `VSO- ----`: vertical blank, sprite 0 hit, sprite
    /// overflow.
    pub status: u8,
    /// Port 3: cursor into sprite attribute memory.
    pub oam_addr: u8,
    /// Current video address.
    pub v: u16,
    /// Temporary video address, `yyy NN YYYYY XXXXX`: fine Y, nametable,
    /// coarse Y, coarse X.
    pub t: u16,
    /// Fine X scroll, three bits.
    pub x: u8,
    /// Write toggle: false before the first write of a pair, true before
    /// the second.
    pub w: bool,
    /// What the last read through port 7 left behind.
    pub ppudata_buffer: u8,
}

impl Regs {
    /// The register file with every register zero and the toggle in its
    /// first phase.
    pub open spec fn power_on() -> Regs {
        Regs { ctrl: 0, mask: 0, status: 0, oam_addr: 0, v: 0, t: 0, x: 0, w: false, ppudata_buffer: 0 }
    }

    /// By how much the video address steps after an access through port 7.
    pub open spec fn step(&self) -> int {
        if bit_set(self.ctrl, CTRL_INCREMENT) {
            32
        } else {
            1
        }
    }

    /// The registers after an access through port 7: the video address has
    /// stepped, wrapping at sixteen bits.
    pub open spec fn stepped(self) -> Regs {
        Regs { v: ((self.v + self.step()) % 0x10000) as u16, ..self }
    }

    /// The registers after the status port was read: vertical blank is
    /// cleared and the toggle is back in its first phase.
    pub open spec fn status_read(self) -> Regs {
        Regs { status: (self.status % 0x80) as u8, w: false, ..self }
    }

    /// The registers after `val` was written to the control port: the low
    /// two bits also select the nametable of the temporary address.
    pub open spec fn ctrl_written(self, val: u8) -> Regs {
        Regs {
            ctrl: val,
            t: (self.t - table_select(self.t) * 0x400 + (val % 4) * 0x400) as u16,
            ..self
        }
    }

    /// The registers after `val` was written to the scroll port. The first
    /// write of a pair sets coarse and fine X, the second coarse and fine
    /// Y, which also clears the top bit of the temporary address.
    pub open spec fn scroll_written(self, val: u8) -> Regs {
        if !self.w {
            Regs { t: (self.t - coarse_x(self.t) + val / 8) as u16, x: val % 8, w: true, ..self }
        } else {
            Regs {
                t: scroll_address(
                    val as int % 8,
                    table_select(self.t),
                    val as int / 8,
                    coarse_x(self.t),
                ) as u16,
                w: false,
                ..self
            }
        }
    }

    /// The registers after `val` was written to the address port. The
    /// first write of a pair sets bits 8 to 13 of the temporary address
    /// and clears the two above; the second sets the low byte and makes
    /// the result the current address.
    pub open spec fn addr_written(self, val: u8) -> Regs {
        if !self.w {
            Regs { t: ((val % 64) * 0x100 + self.t % 0x100) as u16, w: true, ..self }
        } else {
            let t = (self.t / 0x100 * 0x100 + val) as u16;
            Regs { t, v: t, w: false, ..self }
        }
    }

    pub fn new() -> (regs: Regs)
        ensures
            regs == Regs::power_on(),
    {
        Regs { ctrl: 0, mask: 0, status: 0, oam_addr: 0, v: 0, t: 0, x: 0, w: false, ppudata_buffer: 0 }
    }

    #[inline]
    pub fn nmi_enable(&self) -> (on: bool)
        ensures
            on == bit_set(self.ctrl, CTRL_NMI),
    {
        test_bit(self.ctrl, CTRL_NMI)
    }

    #[inline]
    pub fn sprite_height(&self) -> (rows: u8)
        ensures
            rows == if bit_set(self.ctrl, CTRL_SPRITE_HEIGHT) {
                16u8
            } else {
                8u8
            },
    {
        if test_bit(self.ctrl, CTRL_SPRITE_HEIGHT) {
            16
        } else {
            8
        }
    }

    #[inline]
    pub fn sp_chr_addr(&self) -> (base: u16)
        ensures
            base == if bit_set(self.ctrl, CTRL_SPRITE_TABLE) {
                0x1000u16
            } else {
                0u16
            },
    {
        if test_bit(self.ctrl, CTRL_SPRITE_TABLE) {
            0x1000
        } else {
            0x0
        }
    }

    #[inline]
    pub fn bg_chr_addr(&self) -> (base: u16)
        ensures
            base == if bit_set(self.ctrl, CTRL_BG_TABLE) {
                0x1000u16
            } else {
                0u16
            },
    {
        if test_bit(self.ctrl, CTRL_BG_TABLE) {
            0x1000
        } else {
            0x0
        }
    }

    /// Video address of the nametable that the control register selects.
    #[inline]
    pub fn nametable_addr(&self) -> (base: u16)
        ensures
            base == 0x2000 + (self.ctrl % 4) * 0x400,
    {
        let c = self.ctrl;
        assert(((c as u16 & 0x3) << 10) == (c % 4) * 0x400) by (bit_vector);
        0x2000 + ((c as u16 & 0x3) << 10)
    }

    /// Step of the video address after an access through port 7.
    #[inline]
    pub fn increment(&self) -> (step: u16)
        ensures
            step == self.step(),
    {
        if test_bit(self.ctrl, CTRL_INCREMENT) {
            32
        } else {
            1
        }
    }

    #[inline]
    pub fn vblank_start(&mut self)
        ensures
            *final(self) == (Regs { status: old(self).status | 0x80, ..*old(self) }),
            bit_set(final(self).status, STATUS_VBLANK),
    {
        let s = self.status;
        assert(((s | 0x80) >> 7u8) & 1 == 1) by (bit_vector);
        self.status = s | 0x80;
    }

    #[inline]
    pub fn vblank_end(&mut self)
        ensures
            *final(self) == (Regs { status: (old(self).status % 0x80) as u8, ..*old(self) }),
            !bit_set(final(self).status, STATUS_VBLANK),
    {
        let s = self.status;
        assert(s & 0x7F == s % 0x80 && ((s & 0x7F) >> 7u8) & 1 == 0) by (bit_vector);
        self.status = s & 0x7F;
    }

    #[inline]
    pub fn vblank(&self) -> (on: bool)
        ensures
            on == bit_set(self.status, STATUS_VBLANK),
    {
        test_bit(self.status, STATUS_VBLANK)
    }

    /// Reads the status port.
    pub fn read_status(&mut self) -> (data: u8)
        ensures
            data == old(self).status,
            *final(self) == old(self).status_read(),
    {
        let data = self.status;
        self.vblank_end();
        self.w = false;
        data
    }

    /// Writes the control port.
    pub fn write_ctrl(&mut self, val: u8)
        ensures
            *final(self) == old(self).ctrl_written(val),
    {
        let t = self.t;
        assert(((t & (!(0x3u16 << 10))) | ((val as u16 & 0x3) << 10)) == (t - (t / 0x400 % 4) * 0x400
            + (val % 4) * 0x400) as u16) by (bit_vector);
        self.ctrl = val;
        self.t = (t & (!(0x3u16 << 10))) | ((val as u16 & 0x3) << 10);
    }

    /// Writes the scroll port.
    pub fn write_scroll(&mut self, val: u8)
        ensures
            *final(self) == old(self).scroll_written(val),
    {
        let t = self.t;
        if !self.w {
            assert(((t & (!0x1Fu16)) | (val as u16 >> 3)) == (t - t % 32 + val / 8) as u16)
                by (bit_vector);
            assert(val & 0x7 == val % 8) by (bit_vector);
            self.t = (t & (!0x1F)) | (val as u16 >> 3);
            self.x = val & 0x7;
        } else {
            assert(((t & 0xC1F) | ((val as u16 & 0xF8) << 2) | ((val as u16 & 0x7) << 12)) == ((val
                % 8) * 0x1000 + (t / 0x400 % 4) * 0x400 + (val / 8) * 32 + t % 32) as u16)
                by (bit_vector);
            self.t = (t & 0xC1F) | ((val as u16 & 0xF8) << 2) | ((val as u16 & 0x7) << 12);
        }
        self.w = !self.w;
    }

    /// Writes the address port.
    pub fn write_addr(&mut self, val: u8)
        ensures
            *final(self) == old(self).addr_written(val),
    {
        let t = self.t;
        if !self.w {
            assert(((t & 0xFF) | ((val as u16 & 0x3F) << 8)) == ((val % 64) * 0x100 + t % 0x100) as u16)
                by (bit_vector);
            self.t = (t & 0xFF) | ((val as u16 & 0x3F) << 8);
        } else {
            assert(((t & 0xFF00) | (val as u16)) == (t / 0x100 * 0x100 + val) as u16)
                by (bit_vector);
            self.t = (t & 0xFF00) | (val as u16);
            self.v = self.t;
        }
        self.w = !self.w;
    }

    /// Steps the video address after an access through port 7.
    pub fn advance(&mut self)
        ensures
            *final(self) == old(self).stepped(),
    {
        self.v = self.v.wrapping_add(self.increment());
    }
}

/// The write toggle changes phase with every write to the scroll port and
/// to the address port, and a read of the status port puts it back into
/// its first phase, whatever phase it was in; that read also clears the
/// vertical blank flag and leaves the other status bits.
pub proof fn lemma_write_toggle(regs: Regs, val: u8)
    ensures
        regs.scroll_written(val).w == !regs.w,
        regs.addr_written(val).w == !regs.w,
        !regs.status_read().w,
        !regs.scroll_written(val).status_read().w,
        !regs.addr_written(val).status_read().w,
        !bit_set(regs.status_read().status, STATUS_VBLANK),
        forall|n: u8| n < 7 ==> bit_set(regs.status_read().status, n) == bit_set(regs.status, n),
{
    let s = regs.status;
    assert(((s % 0x80) >> 7u8) & 1 == 0) by (bit_vector);
    assert forall|n: u8| n < 7 implies bit_set((s % 0x80) as u8, n) == bit_set(s, n) by {
        assert(n < 7 ==> ((s % 0x80) >> n) & 1 == (s >> n) & 1) by (bit_vector);
    }
}

/// A read through the video data port is one behind: below the palette,
/// the read that follows a read at video address `v` returns the byte at
/// `v`, and the video address has stepped in between.
pub proof fn lemma_delayed_read(ppu: PPU, addr: u16)
    requires
        addr % 8 == 7,
        ppu.regs.v + ppu.regs.step() < 0x3F00,
    ensures
        ppu.port_byte(addr) == ppu.regs.ppudata_buffer,
        ppu.regs_after_read(addr).v == ppu.regs.v + ppu.regs.step(),
        (PPU { regs: ppu.regs_after_read(addr), ..ppu }).port_byte(addr) == ppu.peek(ppu.regs.v),
{
}

impl<'a> PPU<'a> {
    /// Whether the port that `addr` selects can be read: the status port,
    /// the sprite data port, and the video data port where the video
    /// address leads to bytes that exist.
    pub open spec fn port_readable(&self, addr: u16) -> bool {
        let port = addr % 8;
        let v = self.regs.v;
        ||| port == 2
        ||| port == 4
        ||| (port == 7 && self.readable(v) && (v >= 0x3F00 ==> self.readable((v - 0x1000) as u16)))
    }

    /// What a read through the video data port returns: below the palette
    /// the byte that the read before it left behind, from the palette on
    /// the byte at the video address.
    pub open spec fn data_out(&self) -> u8 {
        if self.regs.v < 0x3F00 {
            self.regs.ppudata_buffer
        } else {
            self.peek(self.regs.v)
        }
    }

    /// What a read through the video data port leaves behind: the byte at
    /// the video address, from the palette on the byte 0x1000 below it.
    pub open spec fn data_kept(&self) -> u8 {
        if self.regs.v < 0x3F00 {
            self.peek(self.regs.v)
        } else {
            self.peek((self.regs.v - 0x1000) as u16)
        }
    }

    /// The byte that a read of the port at `addr` returns.
    pub open spec fn port_byte(&self, addr: u16) -> u8 {
        let port = addr % 8;
        if port == 2 {
            self.regs.status
        } else if port == 4 {
            self.oam@[self.regs.oam_addr as int]
        } else {
            self.data_out()
        }
    }

    /// The registers after a read of the port at `addr`.
    pub open spec fn regs_after_read(&self, addr: u16) -> Regs {
        let port = addr % 8;
        if port == 2 {
            self.regs.status_read()
        } else if port == 4 {
            self.regs
        } else {
            Regs { ppudata_buffer: self.data_kept(), ..self.regs.stepped() }
        }
    }

    /// Whether `self` is `pre` after `val` went to the port at `addr` and
    /// was taken.
    pub open spec fn port_written(&self, pre: &PPU<'a>, addr: u16, val: u8) -> bool {
        let port = addr % 8;
        if port == 4 {
            &&& self.oam@ == pre.oam@.update(pre.regs.oam_addr as int, val)
            &&& self.regs == (Regs { oam_addr: ((pre.regs.oam_addr + 1) % 0x100) as u8, ..pre.regs })
            &&& self.chr == pre.chr
            &&& self.nametables == pre.nametables
            &&& self.palette == pre.palette
            &&& self.scanline == pre.scanline
            &&& self.cycle == pre.cycle
        } else if port == 7 {
            &&& self.regs == pre.regs.stepped()
            &&& self.video_stored(pre, pre.regs.v, val)
        } else {
            *self == (PPU {
                regs: if port == 0 {
                    pre.regs.ctrl_written(val)
                } else if port == 1 {
                    Regs { mask: val, ..pre.regs }
                } else if port == 3 {
                    Regs { oam_addr: val, ..pre.regs }
                } else if port == 5 {
                    pre.regs.scroll_written(val)
                } else {
                    pre.regs.addr_written(val)
                },
                ..*pre
            })
        }
    }

    /// Tells whether the port that `addr` selects can be read.
    pub fn can_read_port(&self, addr: u16) -> (yes: bool)
        ensures
            yes == self.port_readable(addr),
    {
        let port = addr % 8;
        let v = self.regs.v;
        port == 2 || port == 4 || (port == 7 && self.can_load(v) && (v < 0x3F00 || self.can_load(
            v - 0x1000,
        )))
    }

    /// Reads the port that `addr` selects among the eight. Only the
    /// registers change.
    pub fn reg_loadb(&mut self, addr: u16) -> (byte: u8)
        requires
            0x2000 <= addr < 0x4000,
            old(self).port_readable(addr),
        ensures
            byte == old(self).port_byte(addr),
            *final(self) == (PPU { regs: old(self).regs_after_read(addr), ..*old(self) }),
    {
        assert(addr & 0x7 == addr % 8) by (bit_vector);
        let port = addr & 0x7;
        if port == 2 {
            self.regs.read_status()
        } else if port == 4 {
            self.oam[self.regs.oam_addr as usize]
        } else {
            let addr = self.regs.v;
            self.regs.advance();
            if addr < 0x3F00 {
                let data = self.regs.ppudata_buffer;
                self.regs.ppudata_buffer = self.loadb(addr);
                data
            } else {
                self.regs.ppudata_buffer = self.loadb(addr - 0x1000);
                self.loadb(addr)
            }
        }
    }

    /// Writes the port that `addr` selects among the eight. A write
    /// through the video data port into the pattern tables is refused by
    /// the cartridge and changes nothing.
    pub fn reg_storeb(&mut self, addr: u16, val: u8) -> (res: Result<(), MapperError>)
        requires
            0x2000 <= addr < 0x4000,
            addr % 8 != 2,
        ensures
            res is Err <==> addr % 8 == 7 && video_target(old(self).regs.v) is Pattern,
            res is Err ==> *final(self) == *old(self),
            res matches Err(e) ==> e == MapperError::ReadOnlyViolation,
            res is Ok ==> final(self).port_written(old(self), addr, val),
    {
        assert(addr & 0x7 == addr % 8) by (bit_vector);
        let port = addr & 0x7;
        if port == 0 {
            self.regs.write_ctrl(val);
        } else if port == 1 {
            self.regs.mask = val;
        } else if port == 3 {
            self.regs.oam_addr = val;
        } else if port == 4 {
            self.oam[self.regs.oam_addr as usize] = val;
            self.regs.oam_addr = self.regs.oam_addr.wrapping_add(1);
        } else if port == 5 {
            self.regs.write_scroll(val);
        } else if port == 6 {
            self.regs.write_addr(val);
        } else {
            let addr = self.regs.v;
            match self.storeb(addr, val) {
                Ok(()) => {
                    self.regs.advance();
                },
                Err(e) => {
                    return Err(e);
                },
            }
        }
        Ok(())
    }
}

} // verus!
