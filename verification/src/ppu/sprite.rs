use vstd::prelude::*;
use crate::bit_ops::{BitOps, u8_bit};

verus! {

/// The attribute byte of a sprite.
#[derive(Copy, Clone, Debug, PartialEq, Eq, Structural)]
pub struct SpriteFlags(pub u8);

impl SpriteFlags {
    /// Drawn behind background and window colors 1-3 (bit 7).
    pub fn is_occluded(&self) -> (r: bool)
        ensures
            r == u8_bit(self.0, 7),
    {
        self.0.bit(7)
    }

    pub fn y_flipped(&self) -> (r: bool)
        ensures
            r == u8_bit(self.0, 6),
    {
        self.0.bit(6)
    }

    pub fn x_flipped(&self) -> (r: bool)
        ensures
            r == u8_bit(self.0, 5),
    {
        self.0.bit(5)
    }

    /// Uses OBP1 instead of OBP0 (bit 4).
    pub fn uses_alternative_pallette(&self) -> (r: bool)
        ensures
            r == u8_bit(self.0, 4),
    {
        self.0.bit(4)
    }
}

/// A sprite as stored in OAM. `y` is the screen line of its top row
/// (OAM y - 16, wrapping), `x` the OAM x (screen x + 8).
#[derive(Copy, Clone, Debug, PartialEq, Eq, Structural)]
pub struct Sprite {
    pub y: u8,
    pub x: u8,
    pub id: u8,
    pub flags: SpriteFlags,
}

impl Sprite {
    pub open spec fn of_entry(entry: Seq<u8>) -> Sprite {
        Sprite {
            y: ((entry[0] - 16) % 256) as u8,
            x: entry[1],
            id: entry[2],
            flags: SpriteFlags(entry[3]),
        }
    }

    /// The sprite described by a four byte OAM entry.
    pub fn from_slice(entry: &[u8]) -> (r: Sprite)
        requires
            entry@.len() == 4,
        ensures
            r == Sprite::of_entry(entry@),
    {
        Sprite {
            y: entry[0].wrapping_sub(16),
            x: entry[1],
            id: entry[2],
            flags: SpriteFlags(entry[3]),
        }
    }
}

} // verus!
