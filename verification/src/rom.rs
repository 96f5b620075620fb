//! The cartridge image: a 16-byte header, an optional 512-byte trainer
//! that is skipped, the program region and the tile region.

use crate::bits::bit_set;
use crate::mapper::{CHR, PRG};
use vstd::prelude::*;
use vstd::slice::slice_subrange;

verus! {

/// Length of the header in bytes.
pub const HEADER_LEN: usize = 16;

/// Length of a trainer region in bytes.
pub const TRAINER_LEN: usize = 512;

/// Bytes in one unit of program storage.
pub const PRG_UNIT: usize = 16384;

/// Bytes in one unit of tile storage.
pub const CHR_UNIT: usize = 8192;

/// Why an image was refused.
#[derive(Debug, Clone, Copy, PartialEq, Eq, Structural)]
pub enum LoadError {
    /// The image is shorter than a header, a reserved header byte is not
    /// zero, or the magic tag is wrong.
    FormatError,
    /// The bytes after the header are not exactly the regions that the
    /// header declares.
    SizeMismatchError,
    /// The image is sound, but the wiring of its mapper is not modelled.
    /// Loading never gives this; building a machine does.
    UnsupportedMapper,
}

/// Whether `bytes` starts with a header that is accepted: sixteen bytes,
/// the tag `N`, `E`, `S`, 0x1A in front, bytes 8 to 10 zero.
pub open spec fn header_ok(bytes: Seq<u8>) -> bool {
    &&& bytes.len() >= HEADER_LEN
    &&& bytes[0] == 0x4E
    &&& bytes[1] == 0x45
    &&& bytes[2] == 0x53
    &&& bytes[3] == 0x1A
    &&& bytes[8] == 0
    &&& bytes[9] == 0
    &&& bytes[10] == 0
}

/// Offset of the program region in an image whose flag byte 6 is `flags_6`.
pub open spec fn prg_start(flags_6: u8) -> int {
    if bit_set(flags_6, 2) {
        HEADER_LEN + TRAINER_LEN
    } else {
        HEADER_LEN as int
    }
}

/// Offset of the tile region in an image that starts with an accepted
/// header.
pub open spec fn chr_start(bytes: Seq<u8>) -> int {
    prg_start(bytes[6]) + bytes[4] as int * PRG_UNIT
}

/// Whether what follows the header is exactly the declared program and
/// tile regions (after the trainer, where there is one).
pub open spec fn sizes_ok(bytes: Seq<u8>) -> bool {
    bytes.len() == chr_start(bytes) + bytes[5] as int * CHR_UNIT
}

/// The mapper id that three flag bytes hold: the high nibble of byte 6,
/// sixteen times the high nibble of byte 7 and, where bits 2 and 3 of
/// byte 7 read binary 10 (the extended format), 256 times the low nibble
/// of byte 8.
pub open spec fn mapper_number(flags_6: u8, flags_7: u8, flags_8: u8) -> int {
    flags_6 as int / 16 + 16 * (flags_7 as int / 16) + if bit_set(flags_7, 3) && !bit_set(
        flags_7,
        2,
    ) {
        256 * (flags_8 as int % 16)
    } else {
        0
    }
}

/// What a header says of its cartridge, in numbers and flags.
#[derive(Debug, Clone, Copy, PartialEq, Eq, Structural)]
pub struct HeaderSummary {
    /// Size of the program region in KiB.
    pub prg_kb: u32,
    /// Size of the tile region in KiB.
    pub chr_kb: u32,
    pub mapper: u16,
    pub four_screen: bool,
    pub trainer: bool,
    pub save_ram: bool,
    pub vertical_mirror: bool,
}

/// The header of a cartridge image.
#[derive(Debug, Clone, Copy)]
pub struct NesHeader {
    /// `N`, `E`, `S`, 0x1A.
    pub magic: [u8; 4],
    /// Size of the program region in 16 KiB units.
    pub prg_rom_size: u8,
    /// Size of the tile region in 8 KiB units.
    pub chr_rom_size: u8,
    /// `NNNN FTBM`: low nibble of the mapper id, four-screen mode,
    /// trainer, battery-backed memory, vertical mirroring.
    pub flags_6: u8,
    /// `MMMM VVPU`: high nibble of the mapper id, format marker (binary
    /// 10 for the extended format), two console-type bits.
    pub flags_7: u8,
    /// `SSSS NNNN`: submapper, bits 8 to 11 of the mapper id.
    pub flags_8: u8,
    pub zero: [u8; 7],
}

impl NesHeader {
    /// Whether the header holds the fields of the sixteen bytes in front
    /// of `bytes`. The seven trailing bytes are not kept: `zero` is zero.
    pub open spec fn reads(&self, bytes: Seq<u8>) -> bool {
        &&& self.magic@ == bytes.subrange(0, 4)
        &&& self.prg_rom_size == bytes[4]
        &&& self.chr_rom_size == bytes[5]
        &&& self.flags_6 == bytes[6]
        &&& self.flags_7 == bytes[7]
        &&& self.flags_8 == bytes[8]
        &&& self.zero@ == Seq::new(7, |i: int| 0u8)
    }

    /// Whether the format marker, bits 2 and 3 of flag byte 7, reads
    /// binary 10.
    pub open spec fn is_nes2(&self) -> bool {
        bit_set(self.flags_7, 3) && !bit_set(self.flags_7, 2)
    }

    /// The mapper id as a number.
    pub open spec fn mapper_id(&self) -> int {
        mapper_number(self.flags_6, self.flags_7, self.flags_8)
    }

    /// The summary of the header.
    pub open spec fn summarized(&self) -> HeaderSummary {
        HeaderSummary {
            prg_kb: (self.prg_rom_size * 16) as u32,
            chr_kb: (self.chr_rom_size * 8) as u32,
            mapper: self.mapper_id() as u16,
            four_screen: bit_set(self.flags_6, 3),
            trainer: bit_set(self.flags_6, 2),
            save_ram: bit_set(self.flags_6, 1),
            vertical_mirror: bit_set(self.flags_6, 0),
        }
    }

    /// Reads a header from the front of `bytes`.
    pub fn parse(bytes: &[u8]) -> (res: Result<NesHeader, LoadError>)
        ensures
            res is Ok <==> header_ok(bytes@),
            res matches Ok(header) ==> header.reads(bytes@),
            res matches Err(e) ==> e == LoadError::FormatError,
    {
        if bytes.len() < HEADER_LEN {
            return Err(LoadError::FormatError);
        }
        if bytes[8] != 0 || bytes[9] != 0 || bytes[10] != 0 {
            return Err(LoadError::FormatError);
        }
        if bytes[0] != 0x4E || bytes[1] != 0x45 || bytes[2] != 0x53 || bytes[3] != 0x1A {
            return Err(LoadError::FormatError);
        }
        let header = NesHeader {
            magic: [bytes[0], bytes[1], bytes[2], bytes[3]],
            prg_rom_size: bytes[4],
            chr_rom_size: bytes[5],
            flags_6: bytes[6],
            flags_7: bytes[7],
            flags_8: bytes[8],
            zero: [0;7],
        };
        assert(header.magic@ =~= bytes@.subrange(0, 4));
        assert(header.zero@ =~= Seq::new(7, |i: int| 0u8));
        Ok(header)
    }

    /// Returns the mapper id: eight bits, or twelve in the extended
    /// format.
    pub fn mapper(&self) -> (id: u16)
        ensures
            id == self.mapper_id(),
            !self.is_nes2() ==> id < 0x100,
            id < 0x1000,
    {
        let f6 = self.flags_6;
        let f7 = self.flags_7;
        let f8 = self.flags_8;
        let ines: u8 = (f7 & 0xf0) | (f6 >> 4);
        assert(((f7 & 0xf0) | (f6 >> 4)) as int == f6 as int / 16 + 16 * (f7 as int / 16))
            by (bit_vector);
        if self.nes2() {
            assert((ines as u16 | ((f8 as u16 & 0x0F) << 8)) as int == ines as int + 256 * (f8 as int
                % 16)) by (bit_vector);
            ines as u16 | ((f8 as u16 & 0x0F) << 8)
        } else {
            ines as u16
        }
    }

    /// Whether the cartridge is wired for four-screen video memory.
    pub fn four_screen(&self) -> (on: bool)
        ensures
            on == bit_set(self.flags_6, 3),
    {
        let f = self.flags_6;
        assert(((f & 0b1000) != 0) == ((f >> 3u8) & 1 == 1)) by (bit_vector);
        (f & 0b1000) != 0
    }

    /// Whether a 512-byte trainer stands between header and program data.
    pub fn trainer(&self) -> (on: bool)
        ensures
            on == bit_set(self.flags_6, 2),
    {
        let f = self.flags_6;
        assert(((f & 0b0100) != 0) == ((f >> 2u8) & 1 == 1)) by (bit_vector);
        (f & 0b0100) != 0
    }

    /// Whether the cartridge holds battery-backed memory.
    pub fn save_ram(&self) -> (on: bool)
        ensures
            on == bit_set(self.flags_6, 1),
    {
        let f = self.flags_6;
        assert(((f & 0b0010) != 0) == ((f >> 1u8) & 1 == 1)) by (bit_vector);
        (f & 0b0010) != 0
    }

    /// Whether the nametables are mirrored vertically (else horizontally,
    /// or as the mapper decides).
    pub fn vertical_mirror(&self) -> (on: bool)
        ensures
            on == bit_set(self.flags_6, 0),
    {
        let f = self.flags_6;
        assert(((f & 0b0001) != 0) == ((f >> 0u8) & 1 == 1)) by (bit_vector);
        (f & 0b0001) != 0
    }

    /// Sums up the header for display: region sizes in KiB, mapper id and
    /// the four flags of byte 6.
    pub fn summary(&self) -> (summary: HeaderSummary)
        ensures
            summary == self.summarized(),
    {
        HeaderSummary {
            prg_kb: self.prg_rom_size as u32 * 16,
            chr_kb: self.chr_rom_size as u32 * 8,
            mapper: self.mapper(),
            four_screen: self.four_screen(),
            trainer: self.trainer(),
            save_ram: self.save_ram(),
            vertical_mirror: self.vertical_mirror(),
        }
    }

    /// Whether the header is in the extended format.
    pub fn nes2(&self) -> (on: bool)
        ensures
            on == self.is_nes2(),
    {
        let f = self.flags_7;
        assert((f & 0x0C == 0x08) == (((f >> 3u8) & 1 == 1) && !((f >> 2u8) & 1 == 1)))
            by (bit_vector);
        f & 0x0C == 0x08
    }
}

/// A loaded cartridge image. The regions borrow from the image's bytes.
pub struct Rom<'a> {
    pub header: NesHeader,
    /// Program data, 16384 bytes per declared unit.
    pub prg: &'a [u8],
    /// Tile data, 8192 bytes per declared unit.
    pub chr: &'a [u8],
}

impl<'a> Rom<'a> {
    /// Whether the image is what loading `bytes` gives.
    pub open spec fn loaded_from(&self, bytes: Seq<u8>) -> bool {
        &&& self.header.reads(bytes)
        &&& self.prg@ == bytes.subrange(prg_start(bytes[6]), chr_start(bytes))
        &&& self.chr@ == bytes.subrange(chr_start(bytes), bytes.len() as int)
    }

    /// Parses an image. A trainer, where the header declares one, is
    /// stepped over and not kept.
    pub fn load(reader: &'a [u8]) -> (res: Result<Rom<'a>, LoadError>)
        ensures
            res is Ok <==> header_ok(reader@) && sizes_ok(reader@),
            res matches Ok(rom) ==> rom.loaded_from(reader@),
            res matches Ok(rom) ==> rom.prg@.len() == rom.header.prg_rom_size * PRG_UNIT
                && rom.chr@.len() == rom.header.chr_rom_size * CHR_UNIT,
            res matches Err(e) ==> (e == LoadError::FormatError <==> !header_ok(reader@)) && (e
                == LoadError::SizeMismatchError <==> header_ok(reader@)),
    {
        let header = match NesHeader::parse(reader) {
            Ok(header) => header,
            Err(e) => {
                return Err(e);
            },
        };
        let mut bytes: usize = HEADER_LEN;
        if header.trainer() {
            bytes += TRAINER_LEN;
        }
        let prg_bytes: usize = header.prg_rom_size as usize * PRG_UNIT;
        let chr_bytes: usize = header.chr_rom_size as usize * CHR_UNIT;
        if reader.len() < bytes + prg_bytes || reader.len() - bytes - prg_bytes != chr_bytes {
            return Err(LoadError::SizeMismatchError);
        }
        let prg = slice_subrange(reader, bytes, bytes + prg_bytes);
        let chr = slice_subrange(reader, bytes + prg_bytes, reader.len());
        Ok(Rom { header, prg, chr })
    }

    /// Hands out the two mapper views and the header.
    pub fn split(self) -> (parts: (PRG<'a>, CHR<'a>, NesHeader))
        ensures
            parts.0@ == self.prg@,
            parts.1@ == self.chr@,
            parts.0.mapper_id() == self.header.mapper_id(),
            parts.1.mapper_id() == self.header.mapper_id(),
            parts.2 == self.header,
    {
        let mapper = self.header.mapper();
        (PRG::new(self.prg, mapper), CHR::new(self.chr, mapper), self.header)
    }
}

/// Every flag that a parsed header reports is the bit of the source byte
/// that holds it, and the mapper id is made of the three nibbles that the
/// source bytes hold for it.
pub proof fn lemma_header_round_trip(header: NesHeader, bytes: Seq<u8>)
    requires
        header_ok(bytes),
        header.reads(bytes),
    ensures
        bit_set(header.flags_6, 0) == bit_set(bytes[6], 0),
        bit_set(header.flags_6, 1) == bit_set(bytes[6], 1),
        bit_set(header.flags_6, 2) == bit_set(bytes[6], 2),
        bit_set(header.flags_6, 3) == bit_set(bytes[6], 3),
        header.is_nes2() == (bit_set(bytes[7], 3) && !bit_set(bytes[7], 2)),
        header.mapper_id() == mapper_number(bytes[6], bytes[7], bytes[8]),
        !header.is_nes2() ==> header.mapper_id() == bytes[6] as int / 16 + 16 * (bytes[7] as int
            / 16) < 0x100,
        header.is_nes2() ==> header.mapper_id() == bytes[6] as int / 16 + 16 * (bytes[7] as int
            / 16) + 256 * (bytes[8] as int % 16) < 0x1000,
        forall|i: int| 0 <= i < 4 ==> header.magic@[i] == bytes[i],
{
    assert(forall|i: int| 0 <= i < 4 ==> header.magic@[i] == bytes.subrange(0, 4)[i]);
}

} // verus!
