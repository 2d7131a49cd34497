use vstd::prelude::*;
use super::color::{Color, ColorVal};

verus! {

pub const WIDTH: usize = 160;
pub const HEIGHT: usize = 144;

/// A pixel of the frame handed to the frontend.
#[derive(Copy, Clone, Debug, PartialEq, Eq, Structural)]
pub struct MemPixel {
    pub r: u8,
    pub g: u8,
    pub b: u8,
    pub a: u8,
}

impl MemPixel {
    /// Note the order of the parameters: red, blue, green, alpha.
    pub fn new(r: u8, b: u8, g: u8, a: u8) -> (p: MemPixel)
        ensures
            p == (MemPixel { r, g, b, a }),
    {
        MemPixel { r, g, b, a }
    }

    /// The pixel shown for a shade of the DMG palette.
    pub open spec fn of_shade(shade: u8) -> MemPixel {
        if shade == 0 {
            MemPixel { r: 239, b: 255, g: 222, a: 255 }
        } else if shade == 1 {
            MemPixel { r: 173, b: 215, g: 148, a: 255 }
        } else if shade == 2 {
            MemPixel { r: 82, b: 146, g: 115, a: 255 }
        } else {
            MemPixel { r: 24, b: 52, g: 66, a: 255 }
        }
    }

    pub open spec fn clear() -> MemPixel {
        MemPixel { r: 0, g: 0, b: 0, a: 0 }
    }

    pub fn from_color(col: Color) -> (p: MemPixel)
        requires
            col.wf(),
        ensures
            p == MemPixel::of_shade(col.0),
    {
        match col.into_val() {
            ColorVal::C00 => MemPixel::new(239, 255, 222, 255),
            ColorVal::C01 => MemPixel::new(173, 215, 148, 255),
            ColorVal::C10 => MemPixel::new(82, 146, 115, 255),
            ColorVal::C11 => MemPixel::new(24, 52, 66, 255),
        }
    }
}

/// The frame (160 x 144 pixels, row by row) the PPU draws into.
pub struct MemFrame {
    pub data: Vec<MemPixel>,
}

impl MemFrame {
    pub open spec fn wf(&self) -> bool {
        self.data.len() == WIDTH * HEIGHT
    }

    pub fn new() -> (r: MemFrame)
        ensures
            r.wf(),
            forall|i: int| 0 <= i < WIDTH * HEIGHT ==> #[trigger] r.data@[i] == MemPixel::clear(),
    {
        let mut data: Vec<MemPixel> = Vec::new();
        let mut i: usize = 0;
        while i < WIDTH * HEIGHT
            invariant
                i <= WIDTH * HEIGHT,
                data.len() == i,
                forall|j: int| 0 <= j < i ==> #[trigger] data@[j] == MemPixel::clear(),
            decreases WIDTH * HEIGHT - i,
        {
            data.push(MemPixel::new(0, 0, 0, 0));
            i = i + 1;
        }
        MemFrame { data }
    }

    pub fn data(&self) -> (r: &[MemPixel])
        ensures
            r@ == self.data@,
    {
        self.data.as_slice()
    }

    /// The pixels of line `ly`.
    pub fn line(&self, ly: u8) -> (r: Vec<MemPixel>)
        requires
            self.wf(),
            (ly as usize) < HEIGHT,
        ensures
            r@ == self.data@.subrange(WIDTH * ly as int, WIDTH * ly as int + WIDTH),
    {
        let start = WIDTH * ly as usize;
        let mut r: Vec<MemPixel> = Vec::new();
        let mut i: usize = 0;
        while i < WIDTH
            invariant
                start == WIDTH * ly as int,
                start + WIDTH <= self.data.len(),
                i <= WIDTH,
                r@ == self.data@.subrange(start as int, start + i),
            decreases WIDTH - i,
        {
            r.push(self.data[start + i]);
            i = i + 1;
        }
        r
    }

    /// Sets pixel `x` of line `ly`.
    pub fn set_pixel(&mut self, ly: u8, x: u8, p: MemPixel)
        requires
            old(self).wf(),
            (ly as usize) < HEIGHT,
            (x as usize) < WIDTH,
        ensures
            final(self).wf(),
            final(self).data@ == old(self).data@.update(WIDTH * ly + x, p),
    {
        let idx = WIDTH * ly as usize + x as usize;
        self.data.set(idx, p);
    }
}

} // verus!
