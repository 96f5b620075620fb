//! The system address bus: every byte access of the processor goes to
//! the device that owns the address.
//!
//! | Range           | Device                                        |
//! |-----------------|-----------------------------------------------|
//! | 0x0000 - 0x1FFF | work memory, 2 KiB seen four times            |
//! | 0x2000 - 0x3FFF | the picture unit's eight ports, every 8 bytes |
//! | 0x4000 - 0x4013 | audio ports                                   |
//! | 0x4014          | sprite transfer, write only                   |
//! | 0x4015          | audio status                                  |
//! | 0x4016          | first controller                              |
//! | 0x4017          | second controller (read), audio mode (write)  |
//! | 0x4018 - 0x5FFF | nothing                                       |
//! | 0x6000 - 0x7FFF | save memory, 8 KiB                            |
//! | 0x8000 - 0xFFFF | the cartridge's program region                |

use crate::apu::APU;
use crate::input::Input;
use crate::mapper::{supported, MapperError, BASELINE, PRG};
use crate::ppu::reg::Regs;
use crate::ppu::{video_target, VideoTarget, OAM_LEN, PPU};
use crate::rom::{chr_start, header_ok, mapper_number, prg_start, sizes_ok, LoadError, Rom};
use vstd::prelude::*;

verus! {

/// Bytes of work memory.
pub const RAM_LEN: usize = 0x800;

/// Bytes of save memory.
pub const SRAM_LEN: usize = 0x2000;

/// Cycle count of the processor when it leaves reset.
pub const RESET_CYCLES: usize = 7;

/// Address whose write starts a sprite transfer.
pub const DMA_PORT: u16 = 0x4014;

pub struct NESMemory<'a> {
    pub ram: [u8; 0x800],
    pub ppu: PPU<'a>,
    pub apu: APU,
    pub input: Input,
    pub sram: [u8; 0x2000],
    pub prg: PRG<'a>,
    pub cycles: usize,
}

impl<'a> NESMemory<'a> {
    /// The byte at an address that can be read without changing
    /// anything: work memory, save memory and the program region. No
    /// other address has one.
    pub open spec fn peek(&self, addr: u16) -> Option<u8> {
        if addr < 0x2000 {
            Some(self.ram@[addr as int % 0x800])
        } else if 0x6000 <= addr < 0x8000 {
            Some(self.sram@[addr as int % 0x2000])
        } else if self.prg.maps(addr) {
            Some(self.prg@[self.prg.offset(addr)])
        } else {
            None
        }
    }

    /// Whether a load from `addr` is served.
    pub open spec fn loadable(&self, addr: u16) -> bool {
        if 0x2000 <= addr < 0x4000 {
            self.ppu.port_readable(addr)
        } else if 0x4000 <= addr < 0x4018 {
            addr != DMA_PORT
        } else {
            self.peek(addr) is Some
        }
    }

    /// The byte that a load from `addr` returns.
    pub open spec fn load_byte(&self, addr: u16) -> u8 {
        if 0x2000 <= addr < 0x4000 {
            self.ppu.port_byte(addr)
        } else if addr == 0x4016 {
            self.input.first
        } else if addr == 0x4017 {
            self.input.second
        } else if 0x4000 <= addr < 0x4016 {
            self.apu@[addr - 0x4000]
        } else {
            self.peek(addr).unwrap()
        }
    }

    /// The picture unit's registers after a load from `addr`: only a load
    /// from one of its ports changes them.
    pub open spec fn regs_after_load(&self, addr: u16) -> Regs {
        if 0x2000 <= addr < 0x4000 {
            self.ppu.regs_after_read(addr)
        } else {
            self.ppu.regs
        }
    }

    /// Whether a sprite transfer can start at `page`: all of the page lies
    /// in work memory, save memory or the program region.
    pub open spec fn dma_source(&self, page: u8) -> bool {
        forall|i: int| 0 <= i < 0x100 ==> (#[trigger] self.peek((page * 0x100 + i) as u16)) is Some
    }

    /// Cycles that a sprite transfer takes: 513, and one more to align
    /// where it starts on an odd cycle.
    pub open spec fn dma_cycles(&self) -> int {
        if self.cycles % 2 == 0 {
            513
        } else {
            514
        }
    }

    /// Whether `self` is `pre` after a sprite transfer from `page`: sprite
    /// memory holds the page's 256 bytes and the cycles are charged.
    pub open spec fn transferred(&self, pre: &NESMemory<'a>, page: u8) -> bool {
        &&& forall|i: int|
            0 <= i < 0x100 ==> Some(#[trigger] self.ppu.oam@[i]) == pre.peek((page * 0x100 + i) as u16)
        &&& self.cycles == pre.cycles + pre.dma_cycles()
        &&& self.ppu.regs == pre.ppu.regs
        &&& self.ppu.chr == pre.ppu.chr
        &&& self.ppu.nametables == pre.ppu.nametables
        &&& self.ppu.palette == pre.ppu.palette
        &&& self.ppu.scanline == pre.ppu.scanline
        &&& self.ppu.cycle == pre.ppu.cycle
        &&& self.ram == pre.ram
        &&& self.sram == pre.sram
        &&& self.apu == pre.apu
        &&& self.input == pre.input
        &&& self.prg == pre.prg
    }

    /// Whether a store of `val` at `addr` is served: not to the status
    /// port, not to the unused region, and to the transfer port only where
    /// the transfer can run and the cycle counter has room for it.
    pub open spec fn storable(&self, addr: u16, val: u8) -> bool {
        if 0x2000 <= addr < 0x4000 {
            addr % 8 != 2
        } else if addr == DMA_PORT {
            self.dma_source(val) && self.cycles + self.dma_cycles() <= usize::MAX
        } else {
            !(0x4018 <= addr < 0x6000)
        }
    }

    /// Whether a store at `addr` is refused by the cartridge: one into the
    /// program region, or through the video data port into the pattern
    /// tables.
    pub open spec fn store_refused(&self, addr: u16) -> bool {
        ||| addr >= 0x8000
        ||| (0x2000 <= addr < 0x4000 && addr % 8 == 7 && video_target(self.ppu.regs.v) is Pattern)
    }

    /// Whether `self` is `pre` after `val` was stored at `addr` and taken.
    pub open spec fn written(&self, pre: &NESMemory<'a>, addr: u16, val: u8) -> bool {
        if addr == DMA_PORT {
            self.transferred(pre, val)
        } else {
            &&& self.cycles == pre.cycles
            &&& self.prg == pre.prg
            &&& self.ram@ == if addr < 0x2000 {
                pre.ram@.update(addr as int % 0x800, val)
            } else {
                pre.ram@
            }
            &&& if 0x2000 <= addr < 0x4000 {
                self.ppu.port_written(&pre.ppu, addr, val)
            } else {
                self.ppu == pre.ppu
            }
            &&& self.apu@ == if 0x4000 <= addr < 0x4018 && addr != 0x4016 {
                pre.apu@.update(addr - 0x4000, val)
            } else {
                pre.apu@
            }
            &&& self.input == if addr == 0x4016 {
                Input { strobe: val, ..pre.input }
            } else {
                pre.input
            }
            &&& self.sram@ == if 0x6000 <= addr < 0x8000 {
                pre.sram@.update(addr as int % 0x2000, val)
            } else {
                pre.sram@
            }
        }
    }

    /// A page can be transferred exactly if it lies in work memory, in
    /// save memory, or in the program window where the region holds all
    /// of it.
    pub proof fn lemma_dma_source(&self, page: u8)
        ensures
            self.dma_source(page) <==> {
                ||| page < 0x20
                ||| 0x60 <= page < 0x80
                ||| (page >= 0x80 && self.prg.offset((page * 0x100) as u16) + 0x100 <= self.prg@.len())
            },
    {
        let base = (page * 0x100) as u16;
        if self.dma_source(page) {
            assert(self.peek((page * 0x100 + 0) as u16) is Some);
            assert(self.peek((page * 0x100 + 0xFF) as u16) is Some);
            lemma_page_offset(page, 0xFF);
        }
        if page < 0x20 || (0x60 <= page < 0x80) || (page >= 0x80 && self.prg.offset(base) + 0x100
            <= self.prg@.len()) {
            assert forall|i: int| 0 <= i < 0x100 implies (#[trigger] self.peek(
                (page * 0x100 + i) as u16,
            )) is Some by {
                if page >= 0x80 {
                    lemma_page_offset(page, i as u16);
                }
            }
        }
    }

    /// Tells whether a sprite transfer can start at `page`.
    pub fn can_transfer(&self, page: u8) -> (yes: bool)
        ensures
            yes == self.dma_source(page),
    {
        proof {
            self.lemma_dma_source(page);
        }
        page < 0x20 || (0x60 <= page && page < 0x80) || (page >= 0x80 && self.prg.translate(
            (page as u16) * 0x100,
        ) + 0x100 <= self.prg.len())
    }

    /// Tells whether a load from `addr` is served.
    pub fn can_load(&self, addr: u16) -> (yes: bool)
        ensures
            yes == self.loadable(addr),
    {
        if 0x2000 <= addr && addr < 0x4000 {
            self.ppu.can_read_port(addr)
        } else if 0x4000 <= addr && addr < 0x4018 {
            addr != DMA_PORT
        } else {
            self.try_loadb(addr).is_some()
        }
    }

    /// Tells whether a store of `val` at `addr` is served.
    pub fn can_store(&self, addr: u16, val: u8) -> (yes: bool)
        ensures
            yes == self.storable(addr, val),
    {
        if 0x2000 <= addr && addr < 0x4000 {
            addr % 8 != 2
        } else if addr == DMA_PORT {
            self.can_transfer(val) && self.cycles <= usize::MAX - if self.cycles % 2 == 0 {
                513
            } else {
                514
            }
        } else {
            !(0x4018 <= addr && addr < 0x6000)
        }
    }

    /// Loads a cartridge image and puts the machine around it: memories
    /// and registers zero, the cycle counter as after a reset. An image
    /// whose mapper is not modelled is refused.
    pub fn new(buffer: &'a [u8]) -> (res: Result<NESMemory<'a>, LoadError>)
        ensures
            res is Ok <==> header_ok(buffer@) && sizes_ok(buffer@) && mapper_number(
                buffer@[6],
                buffer@[7],
                buffer@[8],
            ) == BASELINE,
            res matches Err(e) ==> (e == LoadError::FormatError <==> !header_ok(buffer@)) && (e
                == LoadError::SizeMismatchError <==> header_ok(buffer@) && !sizes_ok(buffer@)),
            res matches Ok(mem) ==> {
                &&& mem.prg@ == buffer@.subrange(prg_start(buffer@[6]), chr_start(buffer@))
                &&& mem.ppu.chr@ == buffer@.subrange(chr_start(buffer@), buffer@.len() as int)
                &&& mem.prg.mapper_id() == BASELINE
                &&& mem.ppu.chr.mapper_id() == BASELINE
                &&& mem.ram@ == Seq::new(RAM_LEN as nat, |i: int| 0u8)
                &&& mem.sram@ == Seq::new(SRAM_LEN as nat, |i: int| 0u8)
                &&& mem.apu@ == Seq::new(0x18, |i: int| 0u8)
                &&& mem.input == Input::idle()
                &&& mem.ppu.regs == Regs::power_on()
                &&& mem.ppu.nametables@ == Seq::new(0x800, |i: int| 0u8)
                &&& mem.ppu.palette@ == Seq::new(0x20, |i: int| 0u8)
                &&& mem.ppu.oam@ == Seq::new(OAM_LEN as nat, |i: int| 0u8)
                &&& mem.ppu.scanline == 0
                &&& mem.ppu.cycle == 0
                &&& mem.cycles == RESET_CYCLES
            },
    {
        let rom = match Rom::load(buffer) {
            Ok(rom) => rom,
            Err(e) => {
                return Err(e);
            },
        };
        if !supported(rom.header.mapper()) {
            return Err(LoadError::UnsupportedMapper);
        }
        let (prg, chr, _) = rom.split();
        let mem = NESMemory {
            ram: [0u8;0x800],
            ppu: PPU::new(chr),
            apu: APU::new(),
            input: Input::new(),
            sram: [0u8;0x2000],
            prg,
            cycles: RESET_CYCLES,
        };
        assert(mem.ram@ =~= Seq::new(RAM_LEN as nat, |i: int| 0u8));
        assert(mem.sram@ =~= Seq::new(SRAM_LEN as nat, |i: int| 0u8));
        Ok(mem)
    }

    /// Reads a byte without changing anything, where that is possible:
    /// from work memory, save memory and the program region. A port is
    /// never read this way.
    pub fn try_loadb(&self, addr: u16) -> (byte: Option<u8>)
        ensures
            byte == self.peek(addr),
    {
        if addr < 0x2000 {
            assert(addr as usize & 0x7FF == addr as usize % 0x800) by (bit_vector);
            Some(self.ram[addr as usize & 0x7FF])
        } else if addr < 0x6000 {
            None
        } else if addr < 0x8000 {
            assert(addr as usize & 0x1FFF == addr as usize % 0x2000) by (bit_vector);
            Some(self.sram[addr as usize & 0x1FFF])
        } else if self.prg.translate(addr) < self.prg.len() {
            Some(self.prg.index(addr))
        } else {
            None
        }
    }

    /// Reads the byte at `addr`. Only a read of a port of the picture unit
    /// changes anything, and only that unit's registers.
    pub fn loadb(&mut self, addr: u16) -> (byte: u8)
        requires
            old(self).loadable(addr),
        ensures
            byte == old(self).load_byte(addr),
            *final(self) == (NESMemory {
                ppu: PPU { regs: old(self).regs_after_load(addr), ..old(self).ppu },
                ..*old(self)
            }),
    {
        if 0x2000 <= addr && addr < 0x4000 {
            self.ppu.reg_loadb(addr)
        } else if addr == 0x4016 || addr == 0x4017 {
            self.input.loadb(addr)
        } else if 0x4000 <= addr && addr < 0x4016 {
            self.apu.loadb(addr)
        } else {
            self.try_loadb(addr).unwrap()
        }
    }

    /// Writes a byte at `addr`. The cartridge refuses a store into its
    /// program region or its pattern tables; nothing changes then.
    pub fn storeb(&mut self, addr: u16, val: u8) -> (res: Result<(), MapperError>)
        requires
            old(self).storable(addr, val),
        ensures
            res is Err <==> old(self).store_refused(addr),
            res is Err ==> *final(self) == *old(self),
            res matches Err(e) ==> e == MapperError::ReadOnlyViolation,
            res is Ok ==> final(self).written(old(self), addr, val),
    {
        if addr < 0x2000 {
            assert(addr as usize & 0x7FF == addr as usize % 0x800) by (bit_vector);
            self.ram[addr as usize & 0x7FF] = val;
            Ok(())
        } else if addr < 0x4000 {
            self.ppu.reg_storeb(addr, val)
        } else if addr == DMA_PORT {
            self.dma(val);
            Ok(())
        } else if addr == 0x4016 {
            self.input.storeb(val);
            Ok(())
        } else if addr < 0x4018 {
            self.apu.storeb(addr, val);
            Ok(())
        } else if addr < 0x8000 {
            assert(addr as usize & 0x1FFF == addr as usize % 0x2000) by (bit_vector);
            self.sram[addr as usize & 0x1FFF] = val;
            Ok(())
        } else {
            self.prg.storeb(addr, val)
        }
    }

    /// Copies the 256 bytes of `page` into sprite memory and charges the
    /// cycles that the transfer takes.
    pub fn dma(&mut self, page: u8)
        requires
            old(self).dma_source(page),
            old(self).cycles + old(self).dma_cycles() <= usize::MAX,
        ensures
            final(self).transferred(old(self), page),
    {
        let base: u16 = (page as u16) * 0x100;
        let mut i: usize = 0;
        while i < 0x100
            invariant
                i <= 0x100,
                base == page * 0x100,
                old(self).dma_source(page),
                forall|j: int|
                    0 <= j < i ==> Some(#[trigger] self.ppu.oam@[j]) == old(self).peek(
                        (page * 0x100 + j) as u16,
                    ),
                *self == (NESMemory { ppu: PPU { oam: self.ppu.oam, ..old(self).ppu }, ..*old(self) }),
            decreases 0x100 - i,
        {
            let addr: u16 = base + i as u16;
            assert(old(self).peek((page * 0x100 + i) as u16) is Some);
            self.ppu.oam[i] = self.try_loadb(addr).unwrap();
            i += 1;
        }
        self.cycles += if self.cycles % 2 == 0 {
            513
        } else {
            514
        };
    }

    /// Charges `n` cycles.
    pub fn add_cycles(&mut self, n: usize)
        requires
            old(self).cycles + n <= usize::MAX,
        ensures
            *final(self) == (NESMemory { cycles: (old(self).cycles + n) as usize, ..*old(self) }),
    {
        self.cycles += n;
    }

    /// The cycles charged so far.
    pub fn get_cycles(&self) -> (n: usize)
        ensures
            n == self.cycles,
    {
        self.cycles
    }

    /// Resets the machine: work memory, audio and controllers are
    /// cleared, the cycle counter starts at 7. Video memory, the picture
    /// unit's registers and save memory stay.
    pub fn reset(&mut self)
        ensures
            final(self).ram@ == Seq::new(RAM_LEN as nat, |i: int| 0u8),
            final(self).apu@ == Seq::new(0x18, |i: int| 0u8),
            final(self).input == Input::idle(),
            final(self).cycles == RESET_CYCLES,
            final(self).ppu == old(self).ppu,
            final(self).sram == old(self).sram,
            final(self).prg == old(self).prg,
    {
        self.ram = [0u8;0x800];
        self.apu.reset();
        self.input.reset();
        self.cycles = RESET_CYCLES;
        assert(self.ram@ =~= Seq::new(RAM_LEN as nat, |i: int| 0u8));
    }
}

/// A byte stored in work memory is seen at the address it went to and at
/// the three addresses that differ from it only in bits 11 and 12.
pub proof fn lemma_ram_store_mirrors(pre: &NESMemory, post: &NESMemory, addr: u16, val: u8)
    requires
        addr < 0x2000,
        post.written(pre, addr, val),
    ensures
        post.peek(addr) == Some(val),
        post.peek(addr ^ 0x800) == Some(val),
        post.peek(addr ^ 0x1000) == Some(val),
        post.peek(addr ^ 0x1800) == Some(val),
{
    lemma_ram_mirrors(post, addr);
}

/// Within a page, offsets into the program window grow with the address:
/// the window does not wrap inside a page.
proof fn lemma_page_offset(page: u8, i: u16)
    requires
        i < 0x100,
    ensures
        (page * 0x100 + i) % 0x4000 == (page * 0x100) % 0x4000 + i,
        (page * 0x100 + i) % 0x8000 == (page * 0x100) % 0x8000 + i,
{
    assert(i < 0x100 ==> (page * 0x100 + i) % 0x4000 == (page * 0x100) % 0x4000 + i && (page * 0x100
        + i) % 0x8000 == (page * 0x100) % 0x8000 + i) by (bit_vector);
}

/// Work memory is seen four times: the addresses that differ from `addr`
/// only in bits 11 and 12 hold the byte that `addr` holds.
pub proof fn lemma_ram_mirrors(mem: &NESMemory, addr: u16)
    requires
        addr < 0x2000,
    ensures
        mem.peek(addr ^ 0x800) == mem.peek(addr),
        mem.peek(addr ^ 0x1000) == mem.peek(addr),
        mem.peek(addr ^ 0x1800) == mem.peek(addr),
        mem.load_byte(addr ^ 0x800) == mem.load_byte(addr),
        mem.load_byte(addr ^ 0x1000) == mem.load_byte(addr),
        mem.load_byte(addr ^ 0x1800) == mem.load_byte(addr),
{
    assert(addr < 0x2000 ==> (addr ^ 0x800) < 0x2000 && (addr ^ 0x800) % 0x800 == addr % 0x800
        && (addr ^ 0x1000) < 0x2000 && (addr ^ 0x1000) % 0x800 == addr % 0x800 && (addr ^ 0x1800)
        < 0x2000 && (addr ^ 0x1800) % 0x800 == addr % 0x800) by (bit_vector);
}

} // verus!
