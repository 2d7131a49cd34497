use vstd::prelude::*;

verus! {

/// A color value in the range 0..4
#[derive(Copy, Clone, Debug, PartialEq, Eq, Structural)]
pub struct Color(pub u8);

#[derive(Copy, Clone, Debug, PartialEq, Eq, Structural)]
pub enum ColorVal {
    C00,
    C01,
    C10,
    C11,
}

impl Color {
    pub open spec fn wf(self) -> bool {
        self.0 < 4
    }

    pub fn from_u8_unsafe(col_raw: u8) -> (r: Color)
        requires
            col_raw < 4,
        ensures
            r.0 == col_raw,
    {
        Color(col_raw)
    }

    /// The color in the two lowest bits of `val`.
    pub fn from_u8_lsb(val: u8) -> (r: Color)
        ensures
            r.0 == val % 4,
            r.wf(),
    {
        assert(val & 3u8 == val % 4) by (bit_vector);
        Color(val & 0b11)
    }

    pub fn into_val(self) -> (r: ColorVal)
        requires
            self.wf(),
        ensures
            r == match self.0 {
                0 => ColorVal::C00,
                1 => ColorVal::C01,
                2 => ColorVal::C10,
                _ => ColorVal::C11,
            },
    {
        match self.0 {
            0 => ColorVal::C00,
            1 => ColorVal::C01,
            2 => ColorVal::C10,
            _ => ColorVal::C11,
        }
    }

    pub fn into_raw(self) -> (r: u8)
        ensures
            r == self.0,
    {
        self.0
    }

    pub fn is_zero(&self) -> (r: bool)
        ensures
            r == (self.0 == 0),
    {
        self.0 == 0
    }
}

} // verus!
