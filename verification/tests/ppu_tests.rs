use oxidenes::mapper::{MapperError, CHR};
use oxidenes::ppu::nametable::NameTable;
use oxidenes::ppu::palette::Palette;
use oxidenes::ppu::reg::Regs;
use oxidenes::ppu::screen::{background, render_bg, Screen, Sink};
use oxidenes::ppu::PPU;

fn tiles() -> Vec<u8> {
    let mut chr = vec![0u8; 0x2000];
    chr[0x0005] = 0xAB;
    chr[0x0025] = 0xCD;
    chr
}

#[test]
fn nametable_regions_fold_to_two_halves() {
    let table = NameTable::new();
    assert_eq!(table.addr(0x2000), 0x000);
    assert_eq!(table.addr(0x2000 + 0x800), 0x400);
    assert_eq!(table.addr(0x2000 + 0x1000), 0x400);
    assert_eq!(table.addr(0x2000 + 0x1800), 0x400);
    assert_eq!(table.addr(0x2400), 0x000);
    assert_eq!(table.addr(0x27FF), 0x3FF);
    assert_eq!(table.addr(0x2800), 0x400);
    assert_eq!(table.addr(0x2BFF), 0x7FF);
    assert_eq!(table.addr(0x2C00), 0x400);
    assert_eq!(table.addr(0x2FFF), 0x7FF);
    assert_eq!(table.addr(0x0123), 0x123);
    assert_eq!(table.addr(0xFFFF), 0x7FF);
}

#[test]
fn nametable_store_is_seen_through_aliases() {
    let mut table = NameTable::new();
    assert_eq!(table.index(0x2005), 0);
    table.index_store(0x2005, 0x11);
    table.index_store(0x2805, 0x22);
    assert_eq!(table.index(0x2005), 0x11);
    assert_eq!(table.index(0x2405), 0x11);
    assert_eq!(table.index(0x2805), 0x22);
    assert_eq!(table.index(0x2C05), 0x22);
    assert_eq!(table.index(0x2006), 0);
}

#[test]
fn palette_wraps_and_mirrors() {
    let mut palette = Palette::new();
    assert_eq!(palette.addr(0x3F00), 0x00);
    assert_eq!(palette.addr(0x3F1F), 0x1F);
    assert_eq!(palette.addr(0x3F20), 0x00);
    assert_eq!(palette.addr(0x3FFF), 0x1F);
    assert_eq!(palette.addr(0x3F10), 0x00);
    assert_eq!(palette.addr(0x3F14), 0x04);
    assert_eq!(palette.addr(0x3F18), 0x08);
    assert_eq!(palette.addr(0x3F1C), 0x0C);
    assert_eq!(palette.addr(0x3F11), 0x11);
    assert_eq!(palette.addr(0x3F04), 0x04);
    palette.index_store(0x3F10, 0x2A);
    assert_eq!(palette.index(0x3F00), 0x2A);
    palette.index_store(0x3F04, 0x11);
    assert_eq!(palette.index(0x3F14), 0x11);
    assert_eq!(palette.index(0x3F34), 0x11);
    palette.index_store(0x3F01, 0x07);
    assert_eq!(palette.index(0x3F11), 0);
}

#[test]
fn palette_resolves_pixels() {
    let mut palette = Palette::new();
    palette.index_store(0x3F00, 0x0F);
    palette.index_store(0x3F01, 0x21);
    palette.index_store(0x3F0E, 0x16);
    assert_eq!(palette.get_color_by_index(0), None);
    assert_eq!(palette.get_color_by_index(4), None);
    assert_eq!(palette.get_color_by_index(12), None);
    assert_eq!(palette.get_color_by_index(1), Some(0x21));
    assert_eq!(palette.get_color_by_index(14), Some(0x16));
    assert_eq!(palette.get_color_by_index(2), Some(0));
}

#[test]
fn register_file_starts_at_zero() {
    let regs = Regs::new();
    assert_eq!(regs, Regs::new());
    assert_eq!(regs.ctrl, 0);
    assert_eq!(regs.v, 0);
    assert_eq!(regs.t, 0);
    assert!(!regs.w);
    assert!(!regs.nmi_enable());
    assert!(!regs.vblank());
    assert_eq!(regs.sprite_height(), 8);
    assert_eq!(regs.sp_chr_addr(), 0);
    assert_eq!(regs.bg_chr_addr(), 0);
    assert_eq!(regs.nametable_addr(), 0x2000);
    assert_eq!(regs.increment(), 1);
}

#[test]
fn control_flags_are_read_back() {
    let mut regs = Regs::new();
    regs.write_ctrl(0b1011_1111);
    assert!(regs.nmi_enable());
    assert_eq!(regs.sprite_height(), 16);
    assert_eq!(regs.bg_chr_addr(), 0x1000);
    assert_eq!(regs.sp_chr_addr(), 0x1000);
    assert_eq!(regs.increment(), 32);
    assert_eq!(regs.nametable_addr(), 0x2C00);
    assert_eq!(regs.t, 0x0C00);
    regs.write_ctrl(0b0100_0001);
    assert!(!regs.nmi_enable());
    assert_eq!(regs.sprite_height(), 8);
    assert_eq!(regs.bg_chr_addr(), 0);
    assert_eq!(regs.sp_chr_addr(), 0);
    assert_eq!(regs.increment(), 1);
    assert_eq!(regs.nametable_addr(), 0x2400);
    assert_eq!(regs.t, 0x0400);
}

#[test]
fn vblank_flag_is_set_and_cleared() {
    let mut regs = Regs::new();
    regs.status = 0x60;
    regs.vblank_start();
    assert!(regs.vblank());
    assert_eq!(regs.status, 0xE0);
    regs.vblank_end();
    assert!(!regs.vblank());
    assert_eq!(regs.status, 0x60);
}

#[test]
fn status_read_clears_vblank() {
    let chr = tiles();
    let mut ppu = PPU::new(CHR::new(&chr, 0));
    ppu.regs.vblank_start();
    let first = ppu.reg_loadb(0x2002);
    assert_eq!(first & 0x80, 0x80);
    let second = ppu.reg_loadb(0x2002);
    assert_eq!(second & 0x80, 0);
    assert_eq!(second, 0);
}

#[test]
fn status_read_resets_write_toggle() {
    let chr = tiles();
    let mut ppu = PPU::new(CHR::new(&chr, 0));
    assert!(!ppu.regs.w);
    assert_eq!(ppu.reg_storeb(0x2005, 0x10), Ok(()));
    assert!(ppu.regs.w);
    assert_eq!(ppu.reg_storeb(0x2005, 0x20), Ok(()));
    assert!(!ppu.regs.w);
    ppu.reg_loadb(0x2002);
    assert!(!ppu.regs.w);
    assert_eq!(ppu.reg_storeb(0x2005, 0x30), Ok(()));
    assert!(ppu.regs.w);
    ppu.reg_loadb(0x2002);
    assert!(!ppu.regs.w);
}

#[test]
fn scroll_writes_fill_the_temporary_address() {
    let chr = tiles();
    let mut ppu = PPU::new(CHR::new(&chr, 0));
    assert_eq!(ppu.reg_storeb(0x2000, 0x03), Ok(()));
    assert_eq!(ppu.regs.t, 0x0C00);
    assert_eq!(ppu.reg_storeb(0x2005, 0b0111_1101), Ok(()));
    assert_eq!(ppu.regs.t, 0x0C00 | 0x0F);
    assert_eq!(ppu.regs.x, 0b101);
    assert_eq!(ppu.reg_storeb(0x2005, 0b0101_1110), Ok(()));
    assert_eq!(ppu.regs.t, (0b110 << 12) | 0x0C00 | (0b01011 << 5) | 0x0F);
    // A new coarse X replaces the old one.
    assert_eq!(ppu.reg_storeb(0x2005, 0b1000_0000), Ok(()));
    assert_eq!(ppu.regs.t, (0b110 << 12) | 0x0C00 | (0b01011 << 5) | 0x10);
    assert_eq!(ppu.regs.x, 0);
    assert_eq!(ppu.regs.v, 0);
}

#[test]
fn address_writes_fill_both_addresses() {
    let chr = tiles();
    let mut ppu = PPU::new(CHR::new(&chr, 0));
    assert_eq!(ppu.reg_storeb(0x2006, 0xFF), Ok(()));
    assert_eq!(ppu.regs.t, 0x3F00);
    assert_eq!(ppu.regs.v, 0);
    assert!(ppu.regs.w);
    assert_eq!(ppu.reg_storeb(0x2006, 0x12), Ok(()));
    assert_eq!(ppu.regs.t, 0x3F12);
    assert_eq!(ppu.regs.v, 0x3F12);
    assert!(!ppu.regs.w);
}

#[test]
fn ports_repeat_every_eight_bytes() {
    let chr = tiles();
    let mut ppu = PPU::new(CHR::new(&chr, 0));
    assert_eq!(ppu.reg_storeb(0x3FF9, 0x1E), Ok(()));
    assert_eq!(ppu.regs.mask, 0x1E);
    assert_eq!(ppu.reg_storeb(0x200B, 0x44), Ok(()));
    assert_eq!(ppu.regs.oam_addr, 0x44);
}

#[test]
fn sprite_port_steps_on_write_only() {
    let chr = tiles();
    let mut ppu = PPU::new(CHR::new(&chr, 0));
    assert_eq!(ppu.reg_storeb(0x2003, 0xFF), Ok(()));
    assert_eq!(ppu.reg_storeb(0x2004, 0x77), Ok(()));
    assert_eq!(ppu.regs.oam_addr, 0);
    assert_eq!(ppu.oam[0xFF], 0x77);
    assert_eq!(ppu.reg_storeb(0x2004, 0x88), Ok(()));
    assert_eq!(ppu.regs.oam_addr, 1);
    assert_eq!(ppu.oam[0], 0x88);
    assert_eq!(ppu.reg_storeb(0x2003, 0xFF), Ok(()));
    assert_eq!(ppu.reg_loadb(0x2004), 0x77);
    assert_eq!(ppu.reg_loadb(0x2004), 0x77);
    assert_eq!(ppu.regs.oam_addr, 0xFF);
}

#[test]
fn data_port_read_is_one_behind() {
    let chr = tiles();
    let mut ppu = PPU::new(CHR::new(&chr, 0));
    ppu.regs.ppudata_buffer = 0x99;
    assert_eq!(ppu.reg_storeb(0x2006, 0x00), Ok(()));
    assert_eq!(ppu.reg_storeb(0x2006, 0x05), Ok(()));
    assert_eq!(ppu.regs.v, 0x0005);
    assert_eq!(ppu.reg_loadb(0x2007), 0x99);
    assert_eq!(ppu.regs.v, 0x0006);
    assert_eq!(ppu.regs.ppudata_buffer, 0xAB);
    assert_eq!(ppu.reg_loadb(0x2007), 0xAB);
    assert_eq!(ppu.regs.v, 0x0007);
    assert_eq!(ppu.regs.ppudata_buffer, 0);
}

#[test]
fn data_port_steps_by_row_when_asked() {
    let chr = tiles();
    let mut ppu = PPU::new(CHR::new(&chr, 0));
    assert_eq!(ppu.reg_storeb(0x2000, 0x04), Ok(()));
    assert_eq!(ppu.reg_storeb(0x2006, 0x00), Ok(()));
    assert_eq!(ppu.reg_storeb(0x2006, 0x05), Ok(()));
    assert_eq!(ppu.reg_loadb(0x2007), 0);
    assert_eq!(ppu.regs.v, 0x0025);
    assert_eq!(ppu.reg_loadb(0x2007), 0xAB);
    assert_eq!(ppu.regs.v, 0x0045);
    assert_eq!(ppu.reg_loadb(0x2007), 0xCD);
}

#[test]
fn data_port_wraps_the_address() {
    let chr = tiles();
    let mut ppu = PPU::new(CHR::new(&chr, 0));
    ppu.regs.v = 0xFFFF;
    ppu.reg_loadb(0x2007);
    assert_eq!(ppu.regs.v, 0);
    ppu.regs.ctrl = 0x04;
    ppu.regs.v = 0xFFF0;
    ppu.reg_loadb(0x2007);
    assert_eq!(ppu.regs.v, 0x0010);
}

#[test]
fn data_port_reads_palette_at_once() {
    let chr = tiles();
    let mut ppu = PPU::new(CHR::new(&chr, 0));
    assert_eq!(ppu.storeb(0x3F01, 0x2C), Ok(()));
    assert_eq!(ppu.storeb(0x2F01, 0x5D), Ok(()));
    assert_eq!(ppu.reg_storeb(0x2006, 0x3F), Ok(()));
    assert_eq!(ppu.reg_storeb(0x2006, 0x01), Ok(()));
    assert_eq!(ppu.reg_loadb(0x2007), 0x2C);
    assert_eq!(ppu.regs.ppudata_buffer, 0x5D);
    assert_eq!(ppu.regs.v, 0x3F02);
}

#[test]
fn data_port_write_stores_and_steps() {
    let chr = tiles();
    let mut ppu = PPU::new(CHR::new(&chr, 0));
    assert_eq!(ppu.reg_storeb(0x2006, 0x21), Ok(()));
    assert_eq!(ppu.reg_storeb(0x2006, 0x08), Ok(()));
    assert_eq!(ppu.reg_storeb(0x2007, 0x42), Ok(()));
    assert_eq!(ppu.reg_storeb(0x2007, 0x43), Ok(()));
    assert_eq!(ppu.regs.v, 0x210A);
    assert_eq!(ppu.loadb(0x2108), 0x42);
    assert_eq!(ppu.loadb(0x2109), 0x43);
    assert_eq!(ppu.nametables.index(0x2108), 0x42);
}

#[test]
fn data_port_write_to_tiles_is_refused() {
    let chr = tiles();
    let mut ppu = PPU::new(CHR::new(&chr, 0));
    assert_eq!(ppu.reg_storeb(0x2006, 0x00), Ok(()));
    assert_eq!(ppu.reg_storeb(0x2006, 0x05), Ok(()));
    assert_eq!(ppu.reg_storeb(0x2007, 0x42), Err(MapperError::ReadOnlyViolation));
    assert_eq!(ppu.regs.v, 0x0005);
    assert_eq!(ppu.loadb(0x0005), 0xAB);
}

#[test]
fn video_addresses_lead_to_their_memory() {
    let chr = tiles();
    let mut ppu = PPU::new(CHR::new(&chr, 0));
    assert_eq!(ppu.loadb(0x0005), 0xAB);
    assert_eq!(ppu.loadb(0x4005), 0xAB);
    assert_eq!(ppu.storeb(0x0005, 1), Err(MapperError::ReadOnlyViolation));
    assert_eq!(ppu.storeb(0x4005, 1), Err(MapperError::ReadOnlyViolation));
    assert_eq!(ppu.storeb(0x2003, 0x31), Ok(()));
    assert_eq!(ppu.loadb(0x2003), 0x31);
    assert_eq!(ppu.loadb(0x3003), 0x31);
    assert_eq!(ppu.loadb(0x2403), 0x31);
    assert_eq!(ppu.loadb(0x6003), 0x31);
    assert_eq!(ppu.storeb(0x3803, 0x32), Ok(()));
    assert_eq!(ppu.loadb(0x2803), 0x32);
    assert_eq!(ppu.loadb(0x2C03), 0x32);
    assert_eq!(ppu.storeb(0x3EFF, 0x33), Ok(()));
    assert_eq!(ppu.loadb(0x2EFF), 0x33);
    assert_eq!(ppu.storeb(0x3F10, 0x34), Ok(()));
    assert_eq!(ppu.loadb(0x3F00), 0x34);
    assert_eq!(ppu.loadb(0x3FE0), 0x34);
    assert_eq!(ppu.loadb(0x7F00), 0x34);
    assert_eq!(ppu.loadb(0x2F00), 0);
}

#[test]
fn new_picture_unit_is_blank() {
    let chr = tiles();
    let ppu = PPU::new(CHR::new(&chr, 0));
    assert_eq!(ppu.regs, Regs::new());
    assert_eq!(ppu.oam, [0u8; 0x100]);
    assert_eq!(ppu.scanline, 0);
    assert_eq!(ppu.cycle, 0);
    assert_eq!(ppu.loadb(0x2000), 0);
    assert_eq!(ppu.loadb(0x3F00), 0);
}

#[test]
fn background_pixel_is_composed() {
    let mut chr = vec![0u8; 0x2000];
    // Tile 2 of the second pattern table, row 3: planes 0b1000_0001 and 0b0100_0001.
    chr[0x1000 + 2 * 16 + 3] = 0b1000_0001;
    chr[0x1000 + 2 * 16 + 3 + 8] = 0b0100_0001;
    let mut ppu = PPU::new(CHR::new(&chr, 0));
    ppu.regs.ctrl = 0x10;
    // The cell at column 5, row 7 shows tile 2.
    assert_eq!(ppu.storeb(0x2000 + 5 + 7 * 32, 2), Ok(()));
    // Its block of 32 by 32 pixels is column 1, row 1; the cell lies in the
    // block's lower left quadrant, which bits 4 and 5 describe.
    assert_eq!(ppu.storeb(0x2000 + 960 + 1 + 8, 0b1001_1100), Ok(()));
    for i in 0..16u16 {
        assert_eq!(ppu.storeb(0x3F00 + i, 0x20 + i as u8), Ok(()));
    }
    let y = 7 * 8 + 3;
    // x = 40: plane bits 1 and 0, quadrant bits 0b01: value 0b0101.
    assert_eq!(ppu.render_pixel(40, y), Some(0x25));
    // x = 41: plane bits 0 and 1: value 0b0110.
    assert_eq!(ppu.render_pixel(41, y), Some(0x26));
    // x = 42: both planes 0: transparent.
    assert_eq!(ppu.render_pixel(42, y), None);
    // x = 47: both planes 1: value 0b0111.
    assert_eq!(ppu.render_pixel(47, y), Some(0x27));
    // Another row of the same tile is empty.
    assert_eq!(ppu.render_pixel(40, y + 1), None);
    // The first pattern table holds nothing.
    ppu.regs.ctrl = 0x00;
    assert_eq!(ppu.render_pixel(40, y), None);
}

#[test]
fn background_pixel_uses_selected_nametable_and_quadrant() {
    let mut chr = vec![0u8; 0x2000];
    chr[16] = 0xFF;
    let mut ppu = PPU::new(CHR::new(&chr, 0));
    ppu.regs.ctrl = 0x02;
    for cell in 0..960u16 {
        assert_eq!(ppu.storeb(0x2800 + cell, 1), Ok(()));
    }
    assert_eq!(ppu.storeb(0x2800 + 960, 0b1110_0100), Ok(()));
    for i in 0..16u16 {
        assert_eq!(ppu.storeb(0x3F00 + i, i as u8), Ok(()));
    }
    assert_eq!(ppu.render_pixel(0, 0), Some(0b0001));
    assert_eq!(ppu.render_pixel(16, 0), Some(0b0101));
    assert_eq!(ppu.render_pixel(0, 16), Some(0b1001));
    assert_eq!(ppu.render_pixel(16, 16), Some(0b1101));
    assert_eq!(ppu.render_pixel(0, 1), None);
    // The first nametable is empty: tile 0 has no pixels.
    ppu.regs.ctrl = 0x00;
    assert_eq!(ppu.render_pixel(0, 0), None);
}

struct Canvas {
    taken: Vec<(u16, u16, (u8, u8, u8))>,
}

impl Screen for Canvas {
    fn render_pixel(&mut self, x: u16, y: u16, pixel: (u8, u8, u8)) {
        self.taken.push((x, y, pixel));
    }
}

fn grey_ramp() -> [(u8, u8, u8); 64] {
    let mut colors = [(0u8, 0u8, 0u8); 64];
    for i in 0..64 {
        colors[i] = (i as u8, 2 * i as u8, 255 - i as u8);
    }
    colors
}

#[test]
fn background_is_drawn_column_by_column() {
    let mut chr = vec![0u8; 0x2000];
    // Tile 1: the two leftmost pixels of its top row.
    chr[16] = 0b1100_0000;
    let mut ppu = PPU::new(CHR::new(&chr, 0));
    assert_eq!(ppu.storeb(0x2000, 1), Ok(()));
    assert_eq!(ppu.storeb(0x2000 + 31 + 29 * 32, 1), Ok(()));
    assert_eq!(ppu.storeb(0x3F01, 0x47), Ok(()));
    let mut sink = Sink::new(Canvas { taken: vec![(9, 9, (9, 9, 9))] });
    render_bg(&mut ppu, &mut sink, &grey_ramp());
    assert_eq!(sink.screen().taken.len(), 5);
    let canvas = sink.into_screen();
    assert_eq!(
        canvas.taken,
        vec![
            (9, 9, (9, 9, 9)),
            (0, 0, (7, 14, 248)),
            (1, 0, (7, 14, 248)),
            (248, 232, (7, 14, 248)),
            (249, 232, (7, 14, 248)),
        ]
    );
}

#[test]
fn empty_background_draws_nothing() {
    let chr = vec![0u8; 0x2000];
    let mut ppu = PPU::new(CHR::new(&chr, 0));
    let mut sink = Sink::new(Canvas { taken: vec![] });
    render_bg(&mut ppu, &mut sink, &grey_ramp());
    assert!(sink.screen().taken.is_empty());
}

#[test]
fn background_lists_pixels_with_colours() {
    let mut chr = vec![0u8; 0x2000];
    chr[16 + 7] = 0b0000_0001;
    chr[16 + 7 + 8] = 0b0000_0001;
    let mut ppu = PPU::new(CHR::new(&chr, 0));
    assert_eq!(ppu.storeb(0x2000 + 2 + 32, 1), Ok(()));
    assert_eq!(ppu.storeb(0x3F03, 0x7F), Ok(()));
    let pixels = background(&mut ppu, &grey_ramp());
    assert_eq!(pixels, vec![(23, 15, (63, 126, 192))]);
}

#[test]
fn sink_hands_every_pixel_to_its_screen() {
    let mut sink = Sink::new(Canvas { taken: vec![] });
    sink.render_pixel(1, 2, (3, 4, 5));
    sink.render_pixel(255, 239, (0, 0, 0));
    sink.render_pixel(1, 2, (3, 4, 5));
    assert_eq!(
        sink.screen().taken,
        vec![(1, 2, (3, 4, 5)), (255, 239, (0, 0, 0)), (1, 2, (3, 4, 5))]
    );
    assert_eq!(sink.into_screen().taken.len(), 3);
}

#[test]
fn background_drawn_is_background_listed() {
    let mut chr = vec![0u8; 0x2000];
    for (i, byte) in chr.iter_mut().enumerate() {
        *byte = (i * 7 % 256) as u8;
    }
    let mut ppu = PPU::new(CHR::new(&chr, 0));
    for cell in 0..1024u16 {
        assert_eq!(ppu.storeb(0x2000 + cell, (cell % 251) as u8), Ok(()));
    }
    for i in 0..32u16 {
        assert_eq!(ppu.storeb(0x3F00 + i, (i * 3) as u8), Ok(()));
    }
    let listed = background(&mut ppu, &grey_ramp());
    let mut sink = Sink::new(Canvas { taken: vec![] });
    render_bg(&mut ppu, &mut sink, &grey_ramp());
    assert!(!listed.is_empty());
    assert_eq!(sink.into_screen().taken, listed);
}
