use vstd::prelude::*;
use crate::bit_ops::u8_bit;
use super::color::Color;
use super::mem_frame::{MemFrame, MemPixel, WIDTH, HEIGHT};
use super::oam::{OAM, MAX_SPRITES_PER_LINE};
use super::palette::Palette;
use super::ppu_registers::PPURegisters;
use super::sprite::Sprite;
use super::tile_data::{SpriteTileRow, TileData, TileRow, TileRowAddr, InOrderTileRow, ReverseTileRow, decoded_row, row_offset};
use super::tile_maps::TileMaps;

verus! {

/// Number of quads in a line (four pixels each).
pub const QUAD_COUNT: usize = 40;

/// Four pixels of a line, with their colors and where they come from.
#[derive(Copy, Clone, Debug, PartialEq, Eq, Structural)]
pub struct PixelQuad {
    /// The paletted colors, leftmost pixel in the lowest two bits. Unknown
    /// (background) pixels are 0b00.
    pub pixel_col: u8,
    /// Two bits per pixel, in the same order:
    /// 0b00 - Background (fetched when the pixel is shifted out)
    /// 0b01 - Window - final
    /// 0b10 - Sprite behind background colors 1-3
    /// 0b11 - Sprite above background - final
    pub pixel_src: u8,
}

impl PixelQuad {
    pub fn zero() -> (r: PixelQuad)
        ensures
            r.pixel_col == 0 && r.pixel_src == 0,
    {
        PixelQuad { pixel_col: 0, pixel_src: 0 }
    }

    /// The two bits of pixel `sub` (0..4) of a packed byte.
    pub open spec fn field(b: u8, sub: nat) -> u8 {
        ((b as nat / vstd::arithmetic::power2::pow2(2 * sub)) % 4) as u8
    }
}

/// The line being drawn, precomputed at the start of pixel transfer for
/// window and sprites; background pixels are fetched as they are shifted out.
pub struct PixelQueue {
    pub quads: Vec<PixelQuad>,
}

/// The color of column `col` (0 is the leftmost) of a row in drawing layout.
pub open spec fn row_color(row: u16, col: nat) -> u8 {
    ((row as nat / vstd::arithmetic::power2::pow2(2 * col)) % 4) as u8
}

/// The palette a sprite's colors go through: OBP1 where flag bit 4 is set.
pub open spec fn sprite_palette(sprite: Sprite, obp0: Palette, obp1: Palette) -> Palette {
    if u8_bit(sprite.flags.0, 4) {
        obp1
    } else {
        obp0
    }
}

/// The quads after a sprite pixel of raw color `col` and source `src` is
/// drawn at screen x `pidx`. Color 0 is transparent, and nothing is drawn
/// where the source bits from this pixel up to the end of its quad are not
/// all clear; else the paletted color and the source are or-ed into the quad.
pub open spec fn sprite_pix_quads(quads: Seq<PixelQuad>, pal: Palette, pidx: u8, col: u8, src: u8) -> Seq<PixelQuad> {
    let i = (pidx / 4) as int;
    let sh = ((pidx % 4) * 2) as u8;
    let q = quads[i];
    if col == 0 || q.pixel_src >> sh != 0 {
        quads
    } else {
        quads.update(
            i,
            PixelQuad { pixel_col: q.pixel_col | (pal.shade(col) << sh), pixel_src: q.pixel_src | (src << sh) },
        )
    }
}

/// The quads after a window pixel of raw color `col` is drawn at screen x
/// `pidx`: unless the pixel there is final (lower source bit set), its two
/// color bits become the paletted color and its source becomes window.
pub open spec fn window_pix_quads(quads: Seq<PixelQuad>, bgp: Palette, pidx: u8, col: u8) -> Seq<PixelQuad> {
    let i = (pidx / 4) as int;
    let sh = ((pidx % 4) * 2) as u8;
    let q = quads[i];
    let keep = !(3u8 << sh);
    if (q.pixel_src >> sh) & 1 == 1 {
        quads
    } else {
        quads.update(
            i,
            PixelQuad {
                pixel_col: (q.pixel_col & keep) | (bgp.shade(col) << sh),
                pixel_src: (q.pixel_src & keep) | (1u8 << sh),
            },
        )
    }
}

/// The tile row of line `sprite_line` of a sprite, flipped as its flags say.
pub open spec fn sprite_row(tile_data: &TileData, sprite: Sprite, sprite_line: u8) -> SpriteTileRow {
    let line: u8 = if u8_bit(sprite.flags.0, 6) { (7 - sprite_line) as u8 } else { sprite_line };
    let a = row_offset(sprite.id as nat, line as nat) as int;
    let d = decoded_row(tile_data.raw_mem@[a], tile_data.raw_mem@[a + 1]);
    if u8_bit(sprite.flags.0, 5) {
        SpriteTileRow::Reverse(ReverseTileRow(d))
    } else {
        SpriteTileRow::InOrder(InOrderTileRow(d))
    }
}

/// The source bits of a sprite's pixels: 0b10 behind the background, else 0b11.
pub open spec fn sprite_src(sprite: Sprite) -> u8 {
    if u8_bit(sprite.flags.0, 7) {
        0b10
    } else {
        0b11
    }
}

/// The quads after the `n` leftmost pixels of `row` are drawn as sprite
/// pixels from OAM x `p` on (screen x `p - 8`); those right of the screen
/// are dropped.
pub open spec fn sprite_pixels(quads: Seq<PixelQuad>, pal: Palette, row: SpriteTileRow, p: nat, n: nat, src: u8) -> Seq<PixelQuad>
    decreases n,
{
    if n == 0 {
        quads
    } else {
        let q1 = if p < 168 {
            sprite_pix_quads(quads, pal, (p - 8) as u8, row.leftmost(), src)
        } else {
            quads
        };
        sprite_pixels(q1, pal, row.rest(), p + 1, (n - 1) as nat, src)
    }
}

/// The quads after line `sprite_line` of a sprite is drawn: nothing for a
/// sprite with OAM x 0 or from 168 on; pixels left of the screen are dropped.
pub open spec fn sprite_drawn(
    quads: Seq<PixelQuad>,
    tile_data: &TileData,
    obp0: Palette,
    obp1: Palette,
    sprite: Sprite,
    sprite_line: u8,
) -> Seq<PixelQuad> {
    if sprite.x == 0 || sprite.x >= 168 {
        quads
    } else {
        let row0 = sprite_row(tile_data, sprite, sprite_line);
        let row = if sprite.x < 8 { row0.dropped((8 - sprite.x) as nat) } else { row0 };
        let start: nat = if sprite.x > 8 { sprite.x as nat } else { 8 };
        sprite_pixels(quads, sprite_palette(sprite, obp0, obp1), row, start, (sprite.x + 8 - start) as nat, sprite_src(sprite))
    }
}

/// The raw color of pixel `x` (0 is the leftmost) of line `line` of the window.
pub open spec fn window_color(tile_data: &TileData, tile_maps: &TileMaps, x: nat, line: u8) -> u8 {
    let a = tile_maps.wnd_row((8 * (x / 8)) as u8, line) as int;
    row_color(decoded_row(tile_data.raw_mem@[a], tile_data.raw_mem@[a + 1]), x % 8)
}

/// The quads after `n` window pixels are drawn from screen x `p` on, for a
/// window at WX `wx` (its leftmost pixel at screen x `wx - 7`).
pub open spec fn window_pixels(
    quads: Seq<PixelQuad>,
    bgp: Palette,
    tile_data: &TileData,
    tile_maps: &TileMaps,
    line: u8,
    wx: u8,
    p: nat,
    n: nat,
) -> Seq<PixelQuad>
    decreases n,
{
    if n == 0 {
        quads
    } else {
        let q1 = window_pix_quads(quads, bgp, p as u8, window_color(tile_data, tile_maps, (p + 7 - wx) as nat, line));
        window_pixels(q1, bgp, tile_data, tile_maps, line, wx, p + 1, (n - 1) as nat)
    }
}

/// Taking the leftmost pixel off a row whose `k` leftmost pixels are gone
/// leaves the row with `k + 1` pixels gone.
proof fn lemma_row_shift(d: u16, k: nat)
    requires
        k < 8,
    ensures
        d as nat / vstd::arithmetic::power2::pow2(2 * k) < 65536,
        (d as nat / vstd::arithmetic::power2::pow2(2 * k)) / 4 == d as nat / vstd::arithmetic::power2::pow2(2 * (k + 1)),
{
    vstd::arithmetic::power2::lemma2_to64();
    vstd::arithmetic::power2::lemma_pow2_pos(2 * k);
    vstd::arithmetic::power2::lemma_pow2_adds(2 * k, 2);
    vstd::arithmetic::div_mod::lemma_div_denominator(d as int, vstd::arithmetic::power2::pow2(2 * k) as int, 4);
    vstd::arithmetic::div_mod::lemma_div_is_ordered_by_denominator(d as int, 1, vstd::arithmetic::power2::pow2(2 * k) as int);
}

/// The quads at the start of a line: all background.
pub open spec fn zero_line() -> Seq<PixelQuad> {
    Seq::new(QUAD_COUNT as nat, |i: int| PixelQuad { pixel_col: 0, pixel_src: 0 })
}

/// The quads after the sprites of `sprites` that cover line `ly` are drawn,
/// in order.
pub open spec fn sprites_drawn(
    quads: Seq<PixelQuad>,
    tile_data: &TileData,
    obp0: Palette,
    obp1: Palette,
    sprites: Seq<Sprite>,
    ly: u8,
) -> Seq<PixelQuad>
    decreases sprites.len(),
{
    if sprites.len() == 0 {
        quads
    } else {
        let q0 = sprites_drawn(quads, tile_data, obp0, obp1, sprites.drop_last(), ly);
        let sprite = sprites.last();
        let sprite_line = ((ly - sprite.y) % 256) as u8;
        if sprite_line < 8 {
            sprite_drawn(q0, tile_data, obp0, obp1, sprite, sprite_line)
        } else {
            q0
        }
    }
}

/// Every pixel marked final, the colors kept (the background is off).
pub open spec fn bg_off(quads: Seq<PixelQuad>) -> Seq<PixelQuad> {
    Seq::new(quads.len(), |i: int| PixelQuad { pixel_col: quads[i].pixel_col, pixel_src: 0xff })
}

/// Whether the window covers line `ly` (drawn only for WX in 7..=166).
pub open spec fn window_in_line(r: &PPURegisters) -> bool {
    r.lcdc.flag(5) && r.ly >= r.wy && r.wx <= 166 && r.wx >= 7
}

/// Drawing the first `i + 1` sprites is drawing the first `i`, then sprite `i`.
proof fn lemma_sprites_drawn_step(
    quads: Seq<PixelQuad>,
    tile_data: &TileData,
    obp0: Palette,
    obp1: Palette,
    sprites: Seq<Sprite>,
    i: int,
    ly: u8,
)
    requires
        0 <= i < sprites.len(),
    ensures
        sprites_drawn(quads, tile_data, obp0, obp1, sprites.take(i + 1), ly) == ({
            let q0 = sprites_drawn(quads, tile_data, obp0, obp1, sprites.take(i), ly);
            let sprite_line = ((ly - sprites[i].y) % 256) as u8;
            if sprite_line < 8 {
                sprite_drawn(q0, tile_data, obp0, obp1, sprites[i], sprite_line)
            } else {
                q0
            }
        }),
{
    assert(sprites.take(i + 1).drop_last() =~= sprites.take(i));
    assert(sprites.take(i + 1).last() == sprites[i]);
}

impl PixelQueue {
    /// The quads of line `r.ly` prepared at the start of pixel transfer: on a
    /// blank line, its sprites (when enabled), then the window over them (when
    /// it covers the line), then every pixel marked final if the background
    /// is off.
    pub open spec fn scanline_quads(r: &PPURegisters, tile_maps: &TileMaps, tile_data: &TileData, oam: &OAM) -> Seq<PixelQuad> {
        let q1 = if r.lcdc.flag(1) {
            sprites_drawn(zero_line(), tile_data, r.obp0, r.obp1, oam.line_sprites(r.ly), r.ly)
        } else {
            zero_line()
        };
        let q2 = if window_in_line(r) {
            window_pixels(q1, r.bgp, tile_data, tile_maps, (r.ly - r.wy) as u8, r.wx, (r.wx - 7) as nat, (167 - r.wx) as nat)
        } else {
            q1
        };
        if !r.lcdc.flag(0) {
            bg_off(q2)
        } else {
            q2
        }
    }
}

impl PixelQueue {
    pub open spec fn wf(&self) -> bool {
        self.quads.len() == QUAD_COUNT
    }

    /// The raw color of background pixel (x, y): the shade index before the palette.
    #[verifier::opaque]
    pub open spec fn bg_raw_color(tile_data: &TileData, tile_maps: &TileMaps, x: u8, y: u8) -> u8 {
        let a = tile_maps.bg_row(x, y) as int;
        row_color(
            super::tile_data::decoded_row(tile_data.raw_mem@[a], tile_data.raw_mem@[a + 1]),
            (x % 8) as nat,
        )
    }

    /// The shade of pixel `sub` of quad `q`, given the background shade and
    /// raw color at that place.
    pub open spec fn shade_of(q: PixelQuad, sub: nat, bg_shade: u8, bg_raw: u8) -> u8 {
        let src = PixelQuad::field(q.pixel_src, sub);
        let col = PixelQuad::field(q.pixel_col, sub);
        if src == 0 {
            bg_shade
        } else if src == 2 {
            if bg_raw == 0 {
                col
            } else {
                bg_shade
            }
        } else {
            col
        }
    }

    pub fn new() -> (r: PixelQueue)
        ensures
            r.wf(),
            forall|i: int| 0 <= i < QUAD_COUNT ==> #[trigger] r.quads@[i] == (PixelQuad { pixel_col: 0, pixel_src: 0 }),
    {
        PixelQueue { quads: zero_quads() }
    }

    /// Prepares the queue for line `ppu_reg.ly`: draws its sprites and the
    /// window; returns the number of sprites on the line.
    #[verifier::spinoff_prover]
    pub fn push_scanline(
        &mut self,
        ppu_reg: &PPURegisters,
        tile_maps: &TileMaps,
        tile_data: &TileData,
        oam: &OAM,
    ) -> (num_sprites: u8)
        requires
            tile_data.wf(),
            !tile_data.is_dirty,
            tile_maps.wf(),
            oam.wf(),
            !oam.is_dirty,
        ensures
            final(self).wf(),
            num_sprites == if ppu_reg.lcdc.flag(1) {
                oam.line_sprites(ppu_reg.ly).len()
            } else {
                0
            },
            final(self).quads@ == PixelQueue::scanline_quads(ppu_reg, tile_maps, tile_data, oam),
    {
        self.quads = zero_quads();
        assert(self.quads@ =~= zero_line());
        let mut num_sprites: u8 = 0;

        if ppu_reg.lcdc.sprites_enabled() {
            let sprites = oam.sprites_in_line(ppu_reg.ly);
            let mut i: usize = 0;
            while i < sprites.len()
                invariant
                    self.wf(),
                    tile_data.wf(),
                    !tile_data.is_dirty,
                    i <= sprites.len(),
                    sprites.len() <= MAX_SPRITES_PER_LINE,
                    num_sprites == i,
                    self.quads@ == sprites_drawn(zero_line(), tile_data, ppu_reg.obp0, ppu_reg.obp1, sprites@.take(i as int), ppu_reg.ly),
                decreases sprites.len() - i,
            {
                let sprite = sprites[i];
                proof {
                    lemma_sprites_drawn_step(zero_line(), tile_data, ppu_reg.obp0, ppu_reg.obp1, sprites@, i as int, ppu_reg.ly);
                }
                let sprite_line = ppu_reg.ly.wrapping_sub(sprite.y);
                if sprite_line < 8 {
                    self.draw_sprite(tile_data, ppu_reg, sprite, sprite_line);
                }
                num_sprites = num_sprites + 1;
                i = i + 1;
            }
            assert(sprites@.take(sprites.len() as int) =~= sprites@);
        }

        let window_in_line = ppu_reg.lcdc.window_enabled() && ppu_reg.ly >= ppu_reg.wy
            && ppu_reg.wx <= 166 && ppu_reg.wx >= 7;

        if window_in_line {
            self.draw_window(tile_data, tile_maps, ppu_reg.bgp, ppu_reg.wx, ppu_reg.ly - ppu_reg.wy);
        }

        if !ppu_reg.lcdc.bg_enabled() {
            let ghost q2 = self.quads@;
            self.draw_empty_bg();
            assert(self.quads@ =~= bg_off(q2));
        }
        num_sprites
    }

    /// The pixel shown at position `sub` of quad `quad_id` of line `ly`.
    pub open spec fn quad_pixel(
        q: PixelQuad,
        sub: nat,
        tile_data: &TileData,
        tile_maps: &TileMaps,
        ppu_reg: &PPURegisters,
        ly: u8,
        quad_id: u8,
    ) -> MemPixel {
        let raw = Self::bg_raw_color(
            tile_data,
            tile_maps,
            ((4 * quad_id + sub + ppu_reg.scx) % 256) as u8,
            ((ly + ppu_reg.scy) % 256) as u8,
        );
        MemPixel::of_shade(Self::shade_of(q, sub, ppu_reg.bgp.shade(raw), raw))
    }

    /// Shifts out quad `quad_id` into line `ly` of the frame.
    #[verifier::rlimit(40)]
    pub fn pop_pixel_quad(
        &self,
        tile_data: &TileData,
        tile_maps: &TileMaps,
        ppu_reg: &PPURegisters,
        frame: &mut MemFrame,
        ly: u8,
        quad_id: u8,
    )
        requires
            self.wf(),
            tile_data.wf(),
            !tile_data.is_dirty,
            tile_maps.wf(),
            old(frame).wf(),
            (ly as usize) < HEIGHT,
            (quad_id as usize) < QUAD_COUNT,
        ensures
            final(frame).wf(),
            forall|i: int|
                0 <= i < WIDTH * HEIGHT && !(WIDTH * ly + 4 * quad_id <= i < WIDTH * ly + 4 * quad_id + 4)
                    ==> #[trigger] final(frame).data@[i] == old(frame).data@[i],
            forall|sub: nat|
                sub < 4 ==> #[trigger] final(frame).data@[WIDTH * ly + 4 * quad_id + sub]
                    == Self::quad_pixel(self.quads@[quad_id as int], sub, tile_data, tile_maps, ppu_reg, ly, quad_id),
    {
        let quad = self.quads[quad_id as usize];
        let mut k: u8 = 0;
        let ghost f0 = frame.data@;
        while k < 4
            invariant
                k <= 4,
                frame.wf(),
                self.wf(),
                tile_data.wf(),
                !tile_data.is_dirty,
                tile_maps.wf(),
                (ly as usize) < HEIGHT,
                (quad_id as usize) < QUAD_COUNT,
                quad == self.quads@[quad_id as int],
                f0.len() == WIDTH * HEIGHT,
                forall|i: int|
                    0 <= i < WIDTH * HEIGHT && !(WIDTH * ly + 4 * quad_id <= i < WIDTH * ly + 4 * quad_id + k)
                        ==> #[trigger] frame.data@[i] == f0[i],
                forall|sub: nat|
                    sub < k ==> #[trigger] frame.data@[WIDTH * ly + 4 * quad_id + sub]
                        == Self::quad_pixel(quad, sub, tile_data, tile_maps, ppu_reg, ly, quad_id),
            decreases 4 - k,
        {
            let shade = quad_pixel_shade(tile_data, tile_maps, ppu_reg, ly, quad_id, quad, k);
            frame.set_pixel(ly, quad_id * 4 + k, MemPixel::from_color(Color::from_u8_unsafe(shade)));
            k = k + 1;
        }
    }

    fn draw_sprite(&mut self, tile_data: &TileData, ppu_reg: &PPURegisters, sprite: Sprite, sprite_line: u8)
        requires
            old(self).wf(),
            tile_data.wf(),
            !tile_data.is_dirty,
            sprite_line < 8,
        ensures
            final(self).wf(),
            final(self).quads@ == sprite_drawn(old(self).quads@, tile_data, ppu_reg.obp0, ppu_reg.obp1, sprite, sprite_line),
    {
        let row_addr = if sprite.flags.y_flipped() {
            TileRowAddr::from_sprite_tile_id(sprite.id, 7 - sprite_line)
        } else {
            TileRowAddr::from_sprite_tile_id(sprite.id, sprite_line)
        };

        let mut row = if sprite.flags.x_flipped() {
            SpriteTileRow::Reverse(tile_data.get_row_reverse(row_addr))
        } else {
            SpriteTileRow::InOrder(tile_data.get_row(row_addr))
        };

        let pixel_src: u8 = if sprite.flags.is_occluded() {
            0b10
        } else {
            0b11
        };

        if sprite.x == 0 || sprite.x >= 168 {
            return;
        }
        // Pixels left of the screen edge are dropped
        if sprite.x < 8 {
            row.discard_leftmost(8 - sprite.x);
        }
        let mut pidx: u8 = if sprite.x > 8 { sprite.x } else { 8 };
        let ghost pal = sprite_palette(sprite, ppu_reg.obp0, ppu_reg.obp1);
        let ghost goal = sprite_drawn(old(self).quads@, tile_data, ppu_reg.obp0, ppu_reg.obp1, sprite, sprite_line);
        assert(goal == sprite_pixels(self.quads@, pal, row, pidx as nat, (sprite.x + 8 - pidx) as nat, pixel_src));
        while pidx < sprite.x + 8
            invariant
                self.wf(),
                8 <= pidx,
                sprite.x < 168,
                pidx <= sprite.x + 8,
                pixel_src < 4,
                pal == sprite_palette(sprite, ppu_reg.obp0, ppu_reg.obp1),
                goal == sprite_pixels(self.quads@, pal, row, pidx as nat, (sprite.x + 8 - pidx) as nat, pixel_src),
            decreases sprite.x + 8 - pidx,
        {
            let col = row.pop_leftmost();
            // Screen x is OAM x - 8; pixels right of the screen are dropped
            if pidx - 8 < 160 {
                self.draw_sprite_pix(sprite, ppu_reg.obp0, ppu_reg.obp1, pidx - 8, col, pixel_src);
            }
            pidx = pidx + 1;
        }
    }

    fn draw_window(&mut self, tile_data: &TileData, tile_maps: &TileMaps, bgp: Palette, wx: u8, window_line: u8)
        requires
            old(self).wf(),
            tile_data.wf(),
            !tile_data.is_dirty,
            tile_maps.wf(),
            7 <= wx <= 166,
        ensures
            final(self).wf(),
            final(self).quads@ == window_pixels(
                old(self).quads@,
                bgp,
                tile_data,
                tile_maps,
                window_line,
                wx,
                (wx - 7) as nat,
                (167 - wx) as nat,
            ),
    {
        let window_pix_width = 167 - wx;
        let visible_tiles = (window_pix_width + 7) / 8;
        let mut pidx = wx - 7;
        let mut tile_idx: u8 = 0;
        let ghost goal = window_pixels(self.quads@, bgp, tile_data, tile_maps, window_line, wx, (wx - 7) as nat, (167 - wx) as nat);
        // Draw all tiles that are completely on-screen
        while tile_idx + 1 < visible_tiles
            invariant
                self.wf(),
                tile_data.wf(),
                !tile_data.is_dirty,
                tile_maps.wf(),
                7 <= wx <= 166,
                window_pix_width == 167 - wx,
                visible_tiles == (window_pix_width + 7) / 8,
                tile_idx < visible_tiles,
                pidx == wx - 7 + 8 * tile_idx,
                goal == window_pixels(self.quads@, bgp, tile_data, tile_maps, window_line, wx, pidx as nat, (160 - pidx) as nat),
            decreases visible_tiles - tile_idx,
        {
            let mut row = tile_data.get_row(tile_maps.wnd_tile_row_at(tile_idx * 8, window_line));
            let ghost a = tile_maps.wnd_row((tile_idx * 8) as u8, window_line) as int;
            let ghost d = decoded_row(tile_data.raw_mem@[a], tile_data.raw_mem@[a + 1]);
            proof {
                vstd::arithmetic::power2::lemma2_to64();
                assert(row.0 == d);
                assert(d as nat / vstd::arithmetic::power2::pow2(0) == d as nat);
            }
            let mut k: u8 = 0;
            while k < 8
                invariant
                    self.wf(),
                    k <= 8,
                    tile_idx + 1 < visible_tiles,
                    visible_tiles == (window_pix_width + 7) / 8,
                    window_pix_width == 167 - wx,
                    7 <= wx <= 166,
                    pidx == wx - 7 + 8 * tile_idx + k,
                    a == tile_maps.wnd_row((tile_idx * 8) as u8, window_line) as int,
                    d == decoded_row(tile_data.raw_mem@[a], tile_data.raw_mem@[a + 1]),
                    row.0 as nat == d as nat / vstd::arithmetic::power2::pow2(2 * k as nat),
                    goal == window_pixels(self.quads@, bgp, tile_data, tile_maps, window_line, wx, pidx as nat, (160 - pidx) as nat),
                decreases 8 - k,
            {
                proof {
                    lemma_row_shift(d, k as nat);
                    let x: nat = (pidx + 7 - wx) as nat;
                    assert(x == 8 * tile_idx + k);
                    assert(x / 8 == tile_idx && x % 8 == k);
                    assert(row.leftmost() == window_color(tile_data, tile_maps, x, window_line));
                }
                let col = row.pop_leftmost();
                self.draw_window_pix(bgp, pidx, col);
                pidx = pidx + 1;
                k = k + 1;
            }
            tile_idx = tile_idx + 1;
        }

        // Draw the last (possibly incomplete) tile
        let mut last_row = tile_data.get_row(tile_maps.wnd_tile_row_at(tile_idx * 8, window_line));
        let ghost a = tile_maps.wnd_row((tile_idx * 8) as u8, window_line) as int;
        let ghost d = decoded_row(tile_data.raw_mem@[a], tile_data.raw_mem@[a + 1]);
        let ghost start = pidx;
        proof {
            vstd::arithmetic::power2::lemma2_to64();
            assert(last_row.0 == d);
            assert(d as nat / vstd::arithmetic::power2::pow2(0) == d as nat);
        }
        while pidx < 160
            invariant
                self.wf(),
                7 <= wx <= 166,
                tile_idx + 1 >= visible_tiles,
                tile_idx < visible_tiles,
                visible_tiles == (window_pix_width + 7) / 8,
                window_pix_width == 167 - wx,
                start == wx - 7 + 8 * tile_idx,
                start <= pidx <= 160,
                a == tile_maps.wnd_row((tile_idx * 8) as u8, window_line) as int,
                d == decoded_row(tile_data.raw_mem@[a], tile_data.raw_mem@[a + 1]),
                last_row.0 as nat == d as nat / vstd::arithmetic::power2::pow2(2 * (pidx - start) as nat),
                goal == window_pixels(self.quads@, bgp, tile_data, tile_maps, window_line, wx, pidx as nat, (160 - pidx) as nat),
            decreases 160 - pidx,
        {
            proof {
                let k: nat = (pidx - start) as nat;
                assert(k < 8);
                lemma_row_shift(d, k);
                let x: nat = (pidx + 7 - wx) as nat;
                assert(x == 8 * tile_idx + k);
                assert(x / 8 == tile_idx && x % 8 == k);
                assert(last_row.leftmost() == window_color(tile_data, tile_maps, x, window_line));
            }
            let col = last_row.pop_leftmost();
            self.draw_window_pix(bgp, pidx, col);
            pidx = pidx + 1;
        }
    }

    fn draw_empty_bg(&mut self)
        requires
            old(self).wf(),
        ensures
            final(self).wf(),
            forall|i: int| 0 <= i < QUAD_COUNT ==> (#[trigger] final(self).quads@[i]).pixel_src == 0xff,
            forall|i: int| 0 <= i < QUAD_COUNT ==> (#[trigger] final(self).quads@[i]).pixel_col == old(self).quads@[i].pixel_col,
    {
        let mut i: usize = 0;
        while i < QUAD_COUNT
            invariant
                self.wf(),
                i <= QUAD_COUNT,
                forall|j: int| 0 <= j < i ==> (#[trigger] self.quads@[j]).pixel_src == 0xff,
                forall|j: int| 0 <= j < QUAD_COUNT ==> (#[trigger] self.quads@[j]).pixel_col == old(self).quads@[j].pixel_col,
            decreases QUAD_COUNT - i,
        {
            let q = self.quads[i];
            self.quads.set(i, PixelQuad { pixel_col: q.pixel_col, pixel_src: 0xff });
            i = i + 1;
        }
    }

    /// Draws a sprite pixel at screen x `pidx` unless a sprite pixel is
    /// already there; color 0 is transparent.
    fn draw_sprite_pix(&mut self, sprite: Sprite, obp0: Palette, obp1: Palette, pidx: u8, col: Color, src: u8)
        requires
            old(self).wf(),
            pidx < 160,
            col.wf(),
            src < 4,
        ensures
            final(self).wf(),
            final(self).quads@ == sprite_pix_quads(old(self).quads@, sprite_palette(sprite, obp0, obp1), pidx, col.0, src),
    {
        if !col.is_zero() {
            let quad_idx = (pidx / 4) as usize;
            let quad_subidx = pidx % 4;
            let quad = self.quads[quad_idx];
            let old_src = quad.pixel_src >> (quad_subidx * 2);
            if old_src != 0 {
                return;
            }
            let pcol = if sprite.flags.uses_alternative_pallette() {
                obp1.apply(col.into_raw())
            } else {
                obp0.apply(col.into_raw())
            };
            self.quads.set(quad_idx, PixelQuad {
                pixel_col: quad.pixel_col | (pcol.into_raw() << (quad_subidx * 2)),
                pixel_src: quad.pixel_src | (src << (quad_subidx * 2)),
            });
        }
    }

    /// Draws a window pixel at screen x `pidx` unless a final pixel is there.
    fn draw_window_pix(&mut self, bgp: Palette, pidx: u8, col: Color)
        requires
            old(self).wf(),
            pidx < 160,
            col.wf(),
        ensures
            final(self).wf(),
            final(self).quads@ == window_pix_quads(old(self).quads@, bgp, pidx, col.0),
    {
        let quad_idx = (pidx / 4) as usize;
        let quad_subidx = pidx % 4;
        let quad = self.quads[quad_idx];
        let shift = quad_subidx * 2;
        let old_src = quad.pixel_src >> shift;
        if old_src & 1 == 1 {
            return;
        }
        let wcol = bgp.apply(col.into_raw()).into_raw();
        // The window covers a sprite that is behind the background
        let keep: u8 = !(0b11u8 << shift);
        self.quads.set(quad_idx, PixelQuad {
            pixel_col: (quad.pixel_col & keep) | (wcol << shift),
            pixel_src: (quad.pixel_src & keep) | (0b01 << shift),
        });
    }
}

/// The two bits of pixel `sub` of a packed byte.
fn field_at(b: u8, sub: u8) -> (r: u8)
    requires
        sub < 4,
    ensures
        r == PixelQuad::field(b, sub as nat),
        r < 4,
{
    let shift = sub * 2;
    proof {
        vstd::arithmetic::power2::lemma2_to64();
        vstd::bits::lemma_u8_shr_is_div(b, shift);
        let a = b >> shift;
        assert(a & 3u8 == a % 4) by (bit_vector);
    }
    (b >> shift) & 0b11
}

/// The shade of pixel `sub` of quad `quad_id` of line `ly`.
#[verifier::spinoff_prover]
fn quad_pixel_shade(
    tile_data: &TileData,
    tile_maps: &TileMaps,
    ppu_reg: &PPURegisters,
    ly: u8,
    quad_id: u8,
    q: PixelQuad,
    sub: u8,
) -> (r: u8)
    requires
        tile_data.wf(),
        !tile_data.is_dirty,
        tile_maps.wf(),
        (quad_id as usize) < QUAD_COUNT,
        sub < 4,
    ensures
        r < 4,
        MemPixel::of_shade(r) == PixelQueue::quad_pixel(q, sub as nat, tile_data, tile_maps, ppu_reg, ly, quad_id),
{
    let s = field_at(q.pixel_src, sub);
    let c = field_at(q.pixel_col, sub);
    let bg_x = (quad_id * 4 + sub).wrapping_add(ppu_reg.scx);
    let bg_y = ly.wrapping_add(ppu_reg.scy);
    let raw = fetch_bg_raw(tile_data, tile_maps, bg_x, bg_y).into_raw();
    let bg = ppu_reg.bgp.apply(raw).into_raw();
    let ghost graw = PixelQueue::bg_raw_color(
        tile_data,
        tile_maps,
        ((4 * quad_id + sub + ppu_reg.scx) % 256) as u8,
        ((ly + ppu_reg.scy) % 256) as u8,
    );
    assert(raw == graw);
    assert(bg == ppu_reg.bgp.shade(graw));
    let r = if s == 0b00 {
        bg
    } else if s == 0b10 {
        if raw == 0 {
            c
        } else {
            bg
        }
    } else {
        c
    };
    assert(r == PixelQueue::shade_of(q, sub as nat, ppu_reg.bgp.shade(graw), graw));
    r
}

/// The background pixel (x, y) after the palette.
fn fetch_bg_pix(tile_data: &TileData, tile_maps: &TileMaps, bg_x: u8, bg_y: u8, bgp: Palette) -> (r: Color)
    requires
        tile_data.wf(),
        !tile_data.is_dirty,
        tile_maps.wf(),
    ensures
        r.wf(),
        r.0 == bgp.shade(PixelQueue::bg_raw_color(tile_data, tile_maps, bg_x, bg_y)),
{
    let raw = fetch_bg_raw(tile_data, tile_maps, bg_x, bg_y);
    bgp.apply(raw.into_raw())
}

/// The background pixel (x, y) before the palette.
fn fetch_bg_raw(tile_data: &TileData, tile_maps: &TileMaps, bg_x: u8, bg_y: u8) -> (r: Color)
    requires
        tile_data.wf(),
        !tile_data.is_dirty,
        tile_maps.wf(),
    ensures
        r.wf(),
        r.0 == PixelQueue::bg_raw_color(tile_data, tile_maps, bg_x, bg_y),
{
    let row_addr = tile_maps.bg_tile_row_at(bg_x, bg_y);
    let mut row = tile_data.get_row(row_addr);
    row.discard_leftmost(bg_x % 8);
    let r = row.pop_leftmost();
    proof {
        reveal(PixelQueue::bg_raw_color);
        vstd::arithmetic::power2::lemma2_to64();
        vstd::arithmetic::div_mod::lemma_div_denominator(
            tile_data_row_val(tile_data, row_addr) as int,
            vstd::arithmetic::power2::pow2(2 * (bg_x % 8) as nat) as int,
            1,
        );
    }
    r
}

spec fn tile_data_row_val(tile_data: &TileData, a: TileRowAddr) -> u16 {
    super::tile_data::decoded_row(tile_data.raw_mem@[a.0 as int], tile_data.raw_mem@[a.0 + 1])
}

fn zero_quads() -> (r: Vec<PixelQuad>)
    ensures
        r.len() == QUAD_COUNT,
        forall|i: int| 0 <= i < QUAD_COUNT ==> #[trigger] r@[i] == (PixelQuad { pixel_col: 0, pixel_src: 0 }),
{
    let mut v: Vec<PixelQuad> = Vec::new();
    let mut i: usize = 0;
    while i < QUAD_COUNT
        invariant
            i <= QUAD_COUNT,
            v.len() == i,
            forall|j: int| 0 <= j < i ==> #[trigger] v@[j] == (PixelQuad { pixel_col: 0, pixel_src: 0 }),
        decreases QUAD_COUNT - i,
    {
        v.push(PixelQuad::zero());
        i = i + 1;
    }
    v
}

} // verus!
