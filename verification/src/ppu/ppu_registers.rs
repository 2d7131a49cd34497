use vstd::prelude::*;
use super::lcdc::LCDC;
use super::lcds::LCDS;
use super::palette::Palette;
use crate::address::PpuReg;

verus! {

/// The PPU registers as the CPU sees them.
#[derive(Copy, Clone, Debug, PartialEq, Eq, Structural)]
pub struct PPURegisters {
    pub lcdc: LCDC,
    pub lcds: LCDS,
    pub scy: u8,
    pub scx: u8,
    pub ly: u8,
    pub lyc: u8,
    pub bgp: Palette,
    pub obp0: Palette,
    pub obp1: Palette,
    pub wy: u8,
    pub wx: u8,
}

impl PPURegisters {
    pub open spec fn value(self, reg: PpuReg) -> u8 {
        match reg {
            PpuReg::LCDC => self.lcdc.0,
            PpuReg::LCDS => self.lcds.0,
            PpuReg::SCY => self.scy,
            PpuReg::SCX => self.scx,
            PpuReg::LY => self.ly,
            PpuReg::LYC => self.lyc,
            PpuReg::BGP => self.bgp.0,
            PpuReg::OBP0 => self.obp0.0,
            PpuReg::OBP1 => self.obp1.0,
            PpuReg::WY => self.wy,
            PpuReg::WX => self.wx,
        }
    }

    /// The registers after the CPU writes `val` to `reg`: LY is read-only
    /// and only the interrupt-enable bits of STAT can be written.
    pub open spec fn written(self, reg: PpuReg, val: u8) -> PPURegisters {
        match reg {
            PpuReg::LCDC => PPURegisters { lcdc: LCDC(val), ..self },
            PpuReg::LCDS => PPURegisters {
                lcds: LCDS((self.lcds.0 & !0b_0111_1000u8) | (val & 0b_0111_1000u8)),
                ..self
            },
            PpuReg::SCY => PPURegisters { scy: val, ..self },
            PpuReg::SCX => PPURegisters { scx: val, ..self },
            PpuReg::LY => self,
            PpuReg::LYC => PPURegisters { lyc: val, ..self },
            PpuReg::BGP => PPURegisters { bgp: Palette(val), ..self },
            PpuReg::OBP0 => PPURegisters { obp0: Palette(val), ..self },
            PpuReg::OBP1 => PPURegisters { obp1: Palette(val), ..self },
            PpuReg::WY => PPURegisters { wy: val, ..self },
            PpuReg::WX => PPURegisters { wx: val, ..self },
        }
    }

    pub fn new() -> (r: PPURegisters)
        ensures
            r.lcdc.0 == 0,
            r.lcds.0 == 0b1000_0000,
            r.scy == 0 && r.scx == 0 && r.ly == 0 && r.lyc == 0 && r.wy == 0 && r.wx == 0,
            r.bgp.0 == 0 && r.obp0.0 == 0 && r.obp1.0 == 0,
    {
        PPURegisters {
            lcdc: LCDC(0),
            lcds: LCDS::new(),
            scy: 0,
            scx: 0,
            ly: 0,
            lyc: 0,
            bgp: Palette(0),
            obp0: Palette(0),
            obp1: Palette(0),
            wy: 0,
            wx: 0,
        }
    }

    pub fn cpu_read(&self, reg: PpuReg) -> (r: u8)
        ensures
            r == self.value(reg),
    {
        match reg {
            PpuReg::LCDC => self.lcdc.0,
            PpuReg::LCDS => self.lcds.read(),
            PpuReg::SCY => self.scy,
            PpuReg::SCX => self.scx,
            PpuReg::LY => self.ly,
            PpuReg::LYC => self.lyc,
            PpuReg::BGP => self.bgp.0,
            PpuReg::OBP0 => self.obp0.0,
            PpuReg::OBP1 => self.obp1.0,
            PpuReg::WY => self.wy,
            PpuReg::WX => self.wx,
        }
    }

    pub fn cpu_write(&mut self, reg: PpuReg, val: u8)
        ensures
            *final(self) == old(self).written(reg, val),
    {
        match reg {
            PpuReg::LCDC => self.lcdc = LCDC(val),
            PpuReg::LCDS => self.lcds.write(val),
            PpuReg::SCY => self.scy = val,
            PpuReg::SCX => self.scx = val,
            PpuReg::LY => {},
            PpuReg::LYC => self.lyc = val,
            PpuReg::BGP => self.bgp = Palette(val),
            PpuReg::OBP0 => self.obp0 = Palette(val),
            PpuReg::OBP1 => self.obp1 = Palette(val),
            PpuReg::WY => self.wy = val,
            PpuReg::WX => self.wx = val,
        }
    }
}

} // verus!
