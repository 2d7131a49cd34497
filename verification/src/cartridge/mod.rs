pub mod battery;
pub mod cram;
pub mod desc;
pub mod mbc;
pub mod variant;

use vstd::prelude::*;
use crate::address::{CRamAddr, CRomAddr};
use mbc::{CartridgeMBC, rom_addr_ok};

verus! {

/// A cartridge, given by its memory bank controller.
pub struct Cartridge<MBC>(pub MBC);

impl<MBC: CartridgeMBC> Cartridge<MBC> {
    pub fn new(mbc: MBC) -> (r: Cartridge<MBC>)
        ensures
            r.0 == mbc,
    {
        Cartridge(mbc)
    }
}

/// The cartridge as the rest of the system sees it: ROM and cartridge RAM.
pub trait CartridgeMem: Sized {
    spec fn inv(&self) -> bool;

    spec fn rom_value(&self, addr: CRomAddr) -> u8;

    spec fn cram_value(&self, addr: CRamAddr) -> u8;

    spec fn cram_writable(&self, addr: CRamAddr) -> bool;

    spec fn rom_written(&self, new: &Self, addr: CRomAddr, val: u8) -> bool;

    fn read_rom(&self, addr: CRomAddr) -> (r: u8)
        requires
            self.inv(),
            rom_addr_ok(addr),
        ensures
            r == self.rom_value(addr),
    ;

    fn write_rom(&mut self, addr: CRomAddr, val: u8)
        requires
            old(self).inv(),
            rom_addr_ok(addr),
        ensures
            final(self).inv(),
            old(self).rom_written(final(self), addr, val),
    ;

    fn read_cram(&self, addr: CRamAddr) -> (r: u8)
        requires
            self.inv(),
        ensures
            r == self.cram_value(addr),
    ;

    fn write_cram(&mut self, addr: CRamAddr, val: u8)
        requires
            old(self).inv(),
        ensures
            final(self).inv(),
            forall|a: CRomAddr| #[trigger] final(self).rom_value(a) == old(self).rom_value(a),
            forall|a: CRamAddr| #[trigger] final(self).cram_writable(a) == old(self).cram_writable(a),
            forall|a: CRamAddr|
                #[trigger] final(self).cram_value(a) == if a == addr && old(self).cram_writable(addr) {
                    val
                } else {
                    old(self).cram_value(a)
                },
    ;
}

impl<MBC: CartridgeMBC> CartridgeMem for Cartridge<MBC> {
    open spec fn inv(&self) -> bool {
        self.0.inv()
    }

    open spec fn rom_value(&self, addr: CRomAddr) -> u8 {
        self.0.rom_value(addr)
    }

    open spec fn cram_value(&self, addr: CRamAddr) -> u8 {
        self.0.cram_value(addr)
    }

    open spec fn cram_writable(&self, addr: CRamAddr) -> bool {
        self.0.cram_writable(addr)
    }

    open spec fn rom_written(&self, new: &Self, addr: CRomAddr, val: u8) -> bool {
        self.0.rom_written(&new.0, addr, val)
    }

    fn read_rom(&self, addr: CRomAddr) -> (r: u8) {
        self.0.read_rom(addr)
    }

    fn write_rom(&mut self, addr: CRomAddr, val: u8) {
        self.0.write_rom(addr, val);
    }

    fn read_cram(&self, addr: CRamAddr) -> (r: u8) {
        self.0.read_cram(addr)
    }

    fn write_cram(&mut self, addr: CRamAddr, val: u8) {
        self.0.write_cram(addr, val);
    }
}

} // verus!
