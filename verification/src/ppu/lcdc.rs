use vstd::prelude::*;
use crate::address::VRAM_START_ADDR;
use crate::bit_ops::{BitOps, u8_bit};

verus! {

/// The LCD control register (0xFF40).
#[derive(Copy, Clone, Debug, PartialEq, Eq, Structural)]
pub struct LCDC(pub u8);

#[derive(Copy, Clone, Debug, PartialEq, Eq, Structural)]
pub enum SpriteSize {
    W8H8,
    W8H16,
}

impl LCDC {
    pub open spec fn flag(self, n: nat) -> bool {
        u8_bit(self.0, n)
    }

    /// Offset into video memory of the tile map selected by `bit`.
    pub open spec fn map_offset(bit: bool) -> u16 {
        if bit {
            (0x9C00 - 0x8000) as u16
        } else {
            (0x9800 - 0x8000) as u16
        }
    }

    pub fn lcd_enabled(&self) -> (r: bool)
        ensures
            r == self.flag(7),
    {
        self.0.bit(7)
    }

    pub fn window_tile_map_addr(&self) -> (r: u16)
        ensures
            r == LCDC::map_offset(self.flag(6)),
    {
        if self.0.bit(6) {
            0x9C00 - VRAM_START_ADDR
        } else {
            0x9800 - VRAM_START_ADDR
        }
    }

    pub fn window_enabled(&self) -> (r: bool)
        ensures
            r == self.flag(5),
    {
        self.0.bit(5)
    }

    /// Offset into video memory of the tile data used by background and window.
    pub fn bg_window_tile_data_addr(&self) -> (r: u16)
        ensures
            r == if self.flag(4) {
                0u16
            } else {
                0x800u16
            },
    {
        if self.0.bit(4) {
            0x8000 - VRAM_START_ADDR
        } else {
            0x8800 - VRAM_START_ADDR
        }
    }

    /// With tile data at 0x8800 tile indices are signed: index 0 is the
    /// tile at 0x9000. Shifting by 128 turns them into offsets from 0x8800.
    pub fn transform_tile_map_index(&self, index: u8) -> (r: u8)
        ensures
            r == if self.flag(4) {
                index
            } else {
                ((index + 128) % 256) as u8
            },
    {
        if self.0.bit(4) {
            index
        } else {
            index.wrapping_add(128)
        }
    }

    pub fn bg_tile_map_addr(&self) -> (r: u16)
        ensures
            r == LCDC::map_offset(self.flag(3)),
    {
        if self.0.bit(3) {
            0x9C00 - VRAM_START_ADDR
        } else {
            0x9800 - VRAM_START_ADDR
        }
    }

    pub fn sprite_size(&self) -> (r: SpriteSize)
        ensures
            r == if self.flag(2) {
                SpriteSize::W8H16
            } else {
                SpriteSize::W8H8
            },
    {
        if self.0.bit(2) {
            SpriteSize::W8H16
        } else {
            SpriteSize::W8H8
        }
    }

    pub fn sprites_enabled(&self) -> (r: bool)
        ensures
            r == self.flag(1),
    {
        self.0.bit(1)
    }

    pub fn bg_enabled(&self) -> (r: bool)
        ensures
            r == self.flag(0),
    {
        self.0.bit(0)
    }
}

} // verus!
