use vstd::prelude::*;
use super::lcdc::LCDC;
use super::tile_data::TileRowAddr;

verus! {

/// Size of the tile map area (0x9800 - 0x9FFF).
pub const TILE_MAPS_LEN: usize = 0x800;

/// The two 32 x 32 tile maps (0x9800 - 0x9BFF and 0x9C00 - 0x9FFF).
pub struct TileMaps {
    pub mem: Vec<u8>,
    /// The LCDC value the maps are read with.
    pub lcdc: LCDC,
}

impl TileMaps {
    pub open spec fn wf(&self) -> bool {
        self.mem.len() == TILE_MAPS_LEN
    }

    /// The tile data row of the pixel (x, y) of the 256 x 256 map at
    /// `map_offset` (an offset from 0x9800).
    pub open spec fn row_at(&self, map_offset: int, x: u8, y: u8) -> u16 {
        let index = self.mem@[map_offset + (y as int / 8) * 32 + x as int / 8];
        let tile: int = if self.lcdc.flag(4) {
            index as int
        } else {
            (index + 128) % 256
        };
        let base: int = if self.lcdc.flag(4) {
            0
        } else {
            0x800
        };
        (base + tile * 16 + (y as int % 8) * 2) as u16
    }

    pub open spec fn bg_row(&self, x: u8, y: u8) -> u16 {
        self.row_at(if self.lcdc.flag(3) { 0x400 } else { 0 }, x, y)
    }

    pub open spec fn wnd_row(&self, x: u8, y: u8) -> u16 {
        self.row_at(if self.lcdc.flag(6) { 0x400 } else { 0 }, x, y)
    }

    pub fn new() -> (r: TileMaps)
        ensures
            r.wf(),
            r.lcdc.0 == 0,
            forall|i: int| 0 <= i < TILE_MAPS_LEN ==> #[trigger] r.mem@[i] == 0,
    {
        let mut mem: Vec<u8> = Vec::new();
        let mut i: usize = 0;
        while i < TILE_MAPS_LEN
            invariant
                i <= TILE_MAPS_LEN,
                mem.len() == i,
                forall|j: int| 0 <= j < i ==> #[trigger] mem@[j] == 0,
            decreases TILE_MAPS_LEN - i,
        {
            mem.push(0);
            i = i + 1;
        }
        TileMaps { mem, lcdc: LCDC(0) }
    }

    pub fn notify_lcdc_changed(&mut self, lcdc: LCDC)
        ensures
            final(self).lcdc == lcdc,
            final(self).mem == old(self).mem,
    {
        self.lcdc = lcdc;
    }

    fn row_at_exec(&self, map_offset: u16, x: u8, y: u8) -> (r: TileRowAddr)
        requires
            self.wf(),
            map_offset == 0 || map_offset == 0x400,
        ensures
            r.0 == self.row_at(map_offset as int, x, y),
            r.wf(),
    {
        let index = self.mem[map_offset as usize + (y as usize / 8) * 32 + x as usize / 8];
        let tile = self.lcdc.transform_tile_map_index(index);
        let base = self.lcdc.bg_window_tile_data_addr();
        TileRowAddr(base + tile as u16 * 16 + (y as u16 % 8) * 2)
    }

    /// The tile data row of background pixel (x, y).
    pub fn bg_tile_row_at(&self, x: u8, y: u8) -> (r: TileRowAddr)
        requires
            self.wf(),
        ensures
            r.0 == self.bg_row(x, y),
            r.wf(),
    {
        let map = self.lcdc.bg_tile_map_addr() - 0x1800;
        self.row_at_exec(map, x, y)
    }

    /// The tile data row of window pixel (x, y).
    pub fn wnd_tile_row_at(&self, x: u8, y: u8) -> (r: TileRowAddr)
        requires
            self.wf(),
        ensures
            r.0 == self.wnd_row(x, y),
            r.wf(),
    {
        let map = self.lcdc.window_tile_map_addr() - 0x1800;
        self.row_at_exec(map, x, y)
    }
}

/// The offset from 0x8000 of line `line` of tile `t` as a tile map entry
/// names it: with LCDC bit 4 set tiles 0..255 start at 0x8000; with it clear
/// the entry is a signed tile number relative to 0x9000.
pub open spec fn map_entry_row(lcdc_bit4: bool, t: u8, line: int) -> int {
    let start: int = if lcdc_bit4 { t as int * 16 } else { 0x1000 + (if t < 128 { t as int } else { t as int - 256 }) * 16 };
    start + line * 2
}

/// A tile map is 32 x 32 entries, row by row: the tile of pixel (x, y) is
/// the entry in row `y / 8`, column `x / 8`, and the pixel is on line
/// `y % 8` of that tile. Nothing else of the map matters for that pixel.
pub proof fn law_tile_map_row_major(maps: TileMaps, map_offset: int, x: u8, y: u8, other: TileMaps)
    requires
        other.lcdc == maps.lcdc,
        other.mem@[map_offset + 32 * (y / 8) + x / 8] == maps.mem@[map_offset + 32 * (y / 8) + x / 8],
    ensures
        maps.row_at(map_offset, x, y) as int == map_entry_row(
            maps.lcdc.flag(4),
            maps.mem@[map_offset + 32 * (y / 8) + x / 8],
            (y % 8) as int,
        ),
        other.row_at(map_offset, x, y) == maps.row_at(map_offset, x, y),
{
}

} // verus!
