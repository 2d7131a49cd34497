use vstd::prelude::*;
use super::Mode;
use crate::bit_ops::{BitOps, u8_bit};

verus! {

/// The LCD status register (0xFF41). Bit 7 always reads as set.
#[derive(Copy, Clone, Debug, PartialEq, Eq, Structural)]
pub struct LCDS(pub u8);

impl LCDS {
    pub open spec fn flag(self, n: nat) -> bool {
        u8_bit(self.0, n)
    }

    /// The mode held in the two lowest bits.
    pub open spec fn mode_of(self) -> Mode {
        if self.0 % 4 == 0 {
            Mode::HBlank
        } else if self.0 % 4 == 1 {
            Mode::VBlank
        } else if self.0 % 4 == 2 {
            Mode::OAMSearch
        } else {
            Mode::PixelTransfer
        }
    }

    /// Whether the condition of an enabled STAT interrupt holds.
    pub open spec fn conditions_met(self) -> bool {
        (self.flag(6) && self.flag(2)) || match self.mode_of() {
            Mode::OAMSearch => self.flag(5),
            Mode::VBlank => self.flag(4),
            Mode::HBlank => self.flag(3),
            _ => false,
        }
    }

    /// The register with the mode bits set for `mode` (cleared, and bit 2
    /// as well, when the LCD is off).
    pub open spec fn with_mode(self, mode: Mode) -> LCDS {
        match mode {
            Mode::LCDOff => LCDS(self.0 & 0b_1111_1000),
            other => LCDS(((self.0 & 0b_1111_1100) + other.code()) as u8),
        }
    }

    /// The register with bit 2 (LYC == LY) set to `eq`.
    pub open spec fn with_lyc_equals_ly(self, eq: bool) -> LCDS {
        LCDS(if eq { self.0 | 0b100 } else { self.0 & !0b100u8 })
    }

    pub fn new() -> (r: LCDS)
        ensures
            r.0 == 0b1000_0000,
    {
        LCDS(0b1000_0000)
    }

    pub fn from_raw(reg: u8) -> (r: LCDS)
        ensures
            r.0 == 0b1000_0000 | reg,
    {
        LCDS(0b1000_0000 | reg)
    }

    pub fn ly_coincidence_interrupt(&self) -> (r: bool)
        ensures
            r == self.flag(6),
    {
        self.0.bit(6)
    }

    pub fn oam_search_interrupt(&self) -> (r: bool)
        ensures
            r == self.flag(5),
    {
        self.0.bit(5)
    }

    pub fn v_blank_interrupt(&self) -> (r: bool)
        ensures
            r == self.flag(4),
    {
        self.0.bit(4)
    }

    pub fn h_blank_interrupt(&self) -> (r: bool)
        ensures
            r == self.flag(3),
    {
        self.0.bit(3)
    }

    pub fn lyc_equals_ly(&self) -> (r: bool)
        ensures
            r == self.flag(2),
    {
        self.0.bit(2)
    }

    pub fn set_lyc_equals_ly(&mut self, are_equal: bool)
        ensures
            *final(self) == old(self).with_lyc_equals_ly(are_equal),
    {
        if are_equal {
            self.0 = self.0 | 0b100;
        } else {
            self.0 = self.0 & !0b100u8;
        }
    }

    pub fn mode(&self) -> (r: Mode)
        ensures
            r == self.mode_of(),
    {
        let m = self.0 & 0b11;
        let x = self.0;
        assert(x & 3u8 == x % 4) by (bit_vector);
        if m == 0 {
            Mode::HBlank
        } else if m == 1 {
            Mode::VBlank
        } else if m == 2 {
            Mode::OAMSearch
        } else {
            Mode::PixelTransfer
        }
    }

    /// Only the interrupt-enable bits (3 to 6) can be written.
    pub fn write(&mut self, val: u8)
        ensures
            final(self).0 == (old(self).0 & !0b_0111_1000u8) | (val & 0b_0111_1000u8),
    {
        let write_mask: u8 = 0b_0111_1000;
        let x = self.0;
        assert((x & !0x78u8) + (val & 0x78u8) == (x & !0x78u8) | (val & 0x78u8)) by (bit_vector);
        self.0 = (self.0 & (!write_mask)) + (val & write_mask);
    }

    pub fn read(&self) -> (r: u8)
        ensures
            r == self.0,
    {
        self.0
    }

    pub fn set_mode(&mut self, ppu_mode: Mode)
        ensures
            *final(self) == old(self).with_mode(ppu_mode),
    {
        let mode_mask: u8 = 0b_1111_1100;
        match ppu_mode {
            Mode::LCDOff => self.0 = self.0 & 0b_1111_1000,
            other => {
                let x = self.0;
                let c = other.code_u8();
                assert((x & 0xfcu8) as int + c as int <= 255) by (bit_vector)
                    requires
                        c < 4,
                ;
                self.0 = (self.0 & mode_mask) + c;
            },
        }
    }

    pub fn any_conditions_met(&self) -> (r: bool)
        ensures
            r == self.conditions_met(),
    {
        (self.ly_coincidence_interrupt() && self.0.bit(2)) || match self.mode() {
            Mode::OAMSearch => self.oam_search_interrupt(),
            Mode::VBlank => self.v_blank_interrupt(),
            Mode::HBlank => self.h_blank_interrupt(),
            _ => false,
        }
    }
}

/// Bit 7 of STAT reads as set whatever is written, and a write changes only
/// the interrupt-enable bits.
pub proof fn law_lcds_write(s: u8, val: u8)
    requires
        s & 0x80 == 0x80,
    ensures
        ((s & !0x78u8) | (val & 0x78u8)) & 0x80 == 0x80,
        ((s & !0x78u8) | (val & 0x78u8)) & 0x87 == s & 0x87,
        ((s & !0x78u8) | (val & 0x78u8)) & 0x78 == val & 0x78,
{
    assert((s & 0x80 == 0x80 ==> ((s & !0x78u8) | (val & 0x78u8)) & 0x80 == 0x80)
        && ((s & !0x78u8) | (val & 0x78u8)) & 0x87 == s & 0x87
        && ((s & !0x78u8) | (val & 0x78u8)) & 0x78 == val & 0x78) by (bit_vector);
}

} // verus!
