use vstd::prelude::*;
use super::color::Color;

verus! {

/// A DMG palette register: two bits per color value, color 0 lowest.
#[derive(Copy, Clone, Debug, PartialEq, Eq, Structural)]
pub struct Palette(pub u8);

impl Palette {
    /// The shade that color value `col` maps to.
    pub open spec fn shade(self, col: u8) -> u8 {
        ((self.0 as nat / vstd::arithmetic::power2::pow2(2 * col as nat)) % 4) as u8
    }

    pub fn apply(&self, col_raw: u8) -> (r: Color)
        requires
            col_raw <= 3,
        ensures
            r.0 == self.shade(col_raw),
            r.wf(),
    {
        let p = self.0;
        let s = 2 * col_raw;
        proof {
            vstd::arithmetic::power2::lemma2_to64();
            vstd::bits::lemma_u8_shr_is_div(p, s);
        }
        assert((p >> s) & 3u8 == (p >> s) % 4) by (bit_vector);
        Color::from_u8_unsafe((p >> s) & 0b11)
    }
}

} // verus!
