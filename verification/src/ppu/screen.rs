//! The pixel engine and the surface it draws on.

use crate::bits::{bit_at, bit_of, bit_set, pair_at, pair_of};
use crate::ppu::reg::CTRL_BG_TABLE;
use crate::ppu::{PPU, SCREEN_HEIGHT, SCREEN_WIDTH};
use vstd::prelude::*;

verus! {

/// Number of colours that the picture unit can show.
pub const COLORS: usize = 64;

/// A surface that takes one resolved pixel at a time.
pub trait Screen {
    /// Takes the pixel at (`x`, `y`) as red, green and blue.
    fn render_pixel(&mut self, x: u16, y: u16, pixel: (u8, u8, u8));
}

/// A screen together with the record of the pixels it was handed. The
/// screen is reached only through the sink, so the record holds every
/// pixel that went to it since the sink was made.
pub struct Sink<S: Screen> {
    screen: S,
    taken: Ghost<Seq<(u16, u16, (u8, u8, u8))>>,
}

impl<S: Screen> Sink<S> {
    /// The pixels handed to the screen so far, each with its coordinates,
    /// oldest first.
    pub closed spec fn taken(&self) -> Seq<(u16, u16, (u8, u8, u8))> {
        self.taken@
    }

    /// The screen behind the sink.
    pub closed spec fn behind(&self) -> S {
        self.screen
    }

    /// Puts a screen behind a sink that has handed it nothing yet.
    pub fn new(screen: S) -> (sink: Sink<S>)
        ensures
            sink.behind() == screen,
            sink.taken() == Seq::<(u16, u16, (u8, u8, u8))>::empty(),
    {
        Sink { screen, taken: Ghost(Seq::empty()) }
    }

    /// Hands the pixel at (`x`, `y`) to the screen and records it.
    pub fn render_pixel(&mut self, x: u16, y: u16, pixel: (u8, u8, u8))
        ensures
            final(self).taken() == old(self).taken().push((x, y, pixel)),
    {
        self.screen.render_pixel(x, y, pixel);
        self.taken = Ghost(self.taken@.push((x, y, pixel)));
    }

    /// Lends the screen behind the sink.
    pub fn screen(&self) -> (screen: &S)
        ensures
            *screen == self.behind(),
    {
        &self.screen
    }

    /// Gives the screen back.
    pub fn into_screen(self) -> (screen: S)
        ensures
            screen == self.behind(),
    {
        self.screen
    }
}

/// The pixels that the first `n` screen coordinates give, column by
/// column and each column from the top; a transparent pixel gives none.
/// `colors` holds red, green and blue for each colour index.
#[verifier::opaque]
pub open spec fn drawn(ppu: &PPU, colors: Seq<(u8, u8, u8)>, n: nat) -> Seq<(u16, u16, (u8, u8, u8))>
    decreases n,
{
    if n == 0 {
        Seq::empty()
    } else {
        let before = drawn(ppu, colors, (n - 1) as nat);
        let x = ((n - 1) / SCREEN_HEIGHT as int) as u16;
        let y = ((n - 1) % SCREEN_HEIGHT as int) as u16;
        match ppu.pixel(x, y) {
            Some(color) => before.push((x, y, colors[color as int % COLORS as int])),
            None => before,
        }
    }
}

/// Nothing is drawn before the first coordinate, and the coordinate after
/// `x * 240 + y` others is (`x`, `y`), so its pixel is the next one drawn.
pub proof fn lemma_drawn_next(ppu: &PPU, colors: Seq<(u8, u8, u8)>, x: u16, y: u16)
    requires
        y < SCREEN_HEIGHT,
    ensures
        drawn(ppu, colors, 0) == Seq::<(u16, u16, (u8, u8, u8))>::empty(),
        drawn(ppu, colors, (x * SCREEN_HEIGHT + y + 1) as nat) == match ppu.pixel(x, y) {
            Some(color) => drawn(ppu, colors, (x * SCREEN_HEIGHT + y) as nat).push(
                (x, y, colors[color as int % COLORS as int]),
            ),
            None => drawn(ppu, colors, (x * SCREEN_HEIGHT + y) as nat),
        },
{
    reveal(drawn);
    let n = x * SCREEN_HEIGHT + y;
    assert(n / 240 == x && n % 240 == y) by (nonlinear_arith)
        requires
            n == x * 240 + y,
            0 <= y < 240,
            0 <= x,
    ;
}

/// Computes the background: every pixel of the 256 columns and 240 rows
/// that is not transparent, with its coordinates and in the colour that
/// `colors` holds for its colour index. Needs both pattern tables on the
/// cartridge.
pub fn background(ppu: &mut PPU, colors: &[(u8, u8, u8); 64]) -> (pixels: Vec<
    (u16, u16, (u8, u8, u8)),
>)
    requires
        old(ppu).chr@.len() >= 0x2000,
    ensures
        *final(ppu) == *old(ppu),
        pixels@ == drawn(old(ppu), colors@, (SCREEN_WIDTH * SCREEN_HEIGHT) as nat),
{
    proof {
        reveal(drawn);
    }
    let mut pixels: Vec<(u16, u16, (u8, u8, u8))> = Vec::new();
    let mut x: u16 = 0;
    while x < SCREEN_WIDTH as u16
        invariant
            x <= SCREEN_WIDTH,
            *ppu == *old(ppu),
            old(ppu).chr@.len() >= 0x2000,
            pixels@ == drawn(old(ppu), colors@, (x * SCREEN_HEIGHT) as nat),
        decreases SCREEN_WIDTH - x,
    {
        let mut y: u16 = 0;
        while y < SCREEN_HEIGHT as u16
            invariant
                x < SCREEN_WIDTH,
                y <= SCREEN_HEIGHT,
                *ppu == *old(ppu),
                old(ppu).chr@.len() >= 0x2000,
                pixels@ == drawn(old(ppu), colors@, (x * SCREEN_HEIGHT + y) as nat),
            decreases SCREEN_HEIGHT - y,
        {
            proof {
                lemma_drawn_next(old(ppu), colors@, x, y);
            }
            if let Some(color) = ppu.render_pixel(x, y) {
                pixels.push((x, y, colors[(color % 64) as usize]));
            }
            y += 1;
        }
        x += 1;
    }
    pixels
}

/// Draws the background on the screen behind `screen`: hands it the pixels
/// of [`background`], one after the other and each once.
pub fn render_bg<S: Screen>(ppu: &mut PPU, screen: &mut Sink<S>, colors: &[(u8, u8, u8); 64])
    requires
        old(ppu).chr@.len() >= 0x2000,
    ensures
        *final(ppu) == *old(ppu),
        final(screen).taken() == old(screen).taken() + drawn(
            old(ppu),
            colors@,
            (SCREEN_WIDTH * SCREEN_HEIGHT) as nat,
        ),
{
    let pixels = background(ppu, colors);
    let mut i: usize = 0;
    assert(pixels@.subrange(0, 0) =~= Seq::<(u16, u16, (u8, u8, u8))>::empty());
    assert(old(screen).taken() + pixels@.subrange(0, 0) =~= old(screen).taken());
    while i < pixels.len()
        invariant
            i <= pixels.len(),
            *ppu == *old(ppu),
            screen.taken() == old(screen).taken() + pixels@.subrange(0, i as int),
        decreases pixels.len() - i,
    {
        let (x, y, pixel) = pixels[i];
        screen.render_pixel(x, y, pixel);
        assert((old(screen).taken() + pixels@.subrange(0, i as int)).push((x, y, pixel)) =~= old(
            screen,
        ).taken() + pixels@.subrange(0, i + 1));
        i += 1;
    }
    assert(pixels@.subrange(0, pixels.len() as int) =~= pixels@);
}

impl<'a> PPU<'a> {
    /// Video address of the nametable that the control register selects.
    pub open spec fn nametable_base(&self) -> int {
        0x2000 + (self.regs.ctrl % 4) * 0x400
    }

    /// Video address of the tile index for the pixel at (`x`, `y`): one
    /// byte for each cell of 8 by 8 pixels, 32 cells to a row.
    pub open spec fn tile_address(&self, x: u16, y: u16) -> int {
        self.nametable_base() + x / 8 + (y / 8) * 32
    }

    /// Video address of the attribute byte for the pixel at (`x`, `y`):
    /// after the 960 tile indices, one byte for each block of 32 by 32
    /// pixels, 8 blocks to a row.
    pub open spec fn attribute_address(&self, x: u16, y: u16) -> int {
        self.nametable_base() + 960 + x / 32 + (y / 32) * 8
    }

    /// Video address of the pattern row for the pixel at (`x`, `y`): in
    /// the background's pattern table, sixteen bytes to a tile, the row's
    /// first bit plane at `y mod 8` and its second eight bytes on.
    pub open spec fn pattern_address(&self, x: u16, y: u16) -> int {
        let table: int = if bit_set(self.regs.ctrl, CTRL_BG_TABLE) {
            0x1000
        } else {
            0
        };
        table + self.peek(self.tile_address(x, y) as u16) * 16 + y % 8
    }

    /// The four-bit value of the background pixel at (`x`, `y`): one bit
    /// from each plane of the pattern row, the leftmost pixel in bit 7,
    /// and above them the two bits that the attribute byte holds for the
    /// pixel's quadrant of 16 by 16 pixels.
    pub open spec fn pixel_value(&self, x: u16, y: u16) -> int {
        let row = self.pattern_address(x, y);
        let column = (7 - x % 8) as u8;
        let quadrant = (2 * (x / 16 % 2) + 4 * (y / 16 % 2)) as u8;
        bit_at(self.peek(row as u16), column) + 2 * bit_at(self.peek((row + 8) as u16), column) + 4
            * pair_at(self.peek(self.attribute_address(x, y) as u16), quadrant)
    }

    /// The colour index of the background pixel at (`x`, `y`), or nothing
    /// where it is transparent.
    pub open spec fn pixel(&self, x: u16, y: u16) -> Option<u8> {
        self.palette.color(self.pixel_value(x, y) as u8)
    }

    /// Whether the cartridge holds both planes of the pattern row for the
    /// pixel at (`x`, `y`).
    pub open spec fn pixel_readable(&self, x: u16, y: u16) -> bool {
        let row = self.pattern_address(x, y);
        self.chr.maps(row as u16) && self.chr.maps((row + 8) as u16)
    }

    /// Computes the background pixel at a screen coordinate. Needs the
    /// pixel's pattern row on the cartridge.
    pub fn render_pixel(&mut self, x: u16, y: u16) -> (color: Option<u8>)
        requires
            x < SCREEN_WIDTH,
            y < SCREEN_HEIGHT,
            old(self).pixel_readable(x, y),
        ensures
            color == old(self).pixel(x, y),
            *final(self) == *old(self),
    {
        let nametables_base = self.regs.nametable_addr();
        let chr_base = self.regs.bg_chr_addr();
        assert(x >> 3 == x / 8 && y >> 3 == y / 8 && x >> 5 == x / 32 && y >> 5 == y / 32 && y & 0x7
            == y % 8) by (bit_vector);
        let nametable = self.loadb(nametables_base + ((x >> 3) + (y >> 3) * 0x20));
        assert(((nametable as u16) << 4) == nametable * 16) by (bit_vector);
        let chr_addr = chr_base + ((nametable as u16) << 4) + (y & 0x7);
        assert((!x) & 0x7 == 7 - x % 8) by (bit_vector);
        let x_offset = ((!x) & 0x7) as u8;
        let plane0 = bit_of(self.loadb(chr_addr), x_offset);
        let plane1 = bit_of(self.loadb(chr_addr + 8), x_offset);
        let attr = self.loadb(nametables_base + 32 * 30 + ((x >> 5) + (y >> 5) * 8));
        assert((((x & 0x10) >> 3) | ((y & 0x10) >> 2)) == 2 * (x / 16 % 2) + 4 * (y / 16 % 2))
            by (bit_vector);
        let attr_offset = (((x & 0x10) >> 3) | ((y & 0x10) >> 2)) as u8;
        let high = pair_of(attr, attr_offset);
        assert(plane0 <= 1 && plane1 <= 1 && high <= 3 ==> ((plane0 | (plane1 << 1)) | (high << 2))
            == plane0 + 2 * plane1 + 4 * high) by (bit_vector);
        let low = plane0 | (plane1 << 1);
        let index = low | (high << 2);
        self.palette.get_color_by_index(index)
    }
}

} // verus!
