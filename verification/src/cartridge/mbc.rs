use vstd::prelude::*;
use super::cram::CartridgeRam;
use crate::address::{CRamAddr, CRomAddr};

verus! {

/// A ROM address as decoded from a CPU address: an offset below 0x4000.
pub open spec fn rom_addr_ok(addr: CRomAddr) -> bool {
    match addr {
        CRomAddr::CROM0(n) => n < 0x4000,
        CRomAddr::CROMn(n) => n < 0x4000,
    }
}

/// The memory bank controller of a cartridge.
pub trait CartridgeMBC: Sized {
    type CRAM: CartridgeRam;

    spec fn inv(&self) -> bool;

    /// The byte a read of ROM address `addr` returns.
    spec fn rom_value(&self, addr: CRomAddr) -> u8;

    /// The byte a read of cartridge RAM address `addr` returns.
    spec fn cram_value(&self, addr: CRamAddr) -> u8;

    /// Whether a write to cartridge RAM address `addr` is stored.
    spec fn cram_writable(&self, addr: CRamAddr) -> bool;

    /// `new` is what a write of `val` to ROM address `addr` makes of `self`.
    spec fn rom_written(&self, new: &Self, addr: CRomAddr, val: u8) -> bool;

    fn read_rom(&self, addr: CRomAddr) -> (r: u8)
        requires
            self.inv(),
            rom_addr_ok(addr),
        ensures
            r == self.rom_value(addr),
    ;

    /// Writes to ROM addresses control the bank controller.
    fn write_rom(&mut self, addr: CRomAddr, val: u8)
        requires
            old(self).inv(),
            rom_addr_ok(addr),
        ensures
            final(self).inv(),
            old(self).rom_written(final(self), addr, val),
    ;

    fn read_cram(&self, addr: CRamAddr) -> (r: u8)
        requires
            self.inv(),
        ensures
            r == self.cram_value(addr),
    ;

    fn write_cram(&mut self, addr: CRamAddr, val: u8)
        requires
            old(self).inv(),
        ensures
            final(self).inv(),
            forall|a: CRomAddr| #[trigger] final(self).rom_value(a) == old(self).rom_value(a),
            forall|a: CRamAddr| #[trigger] final(self).cram_writable(a) == old(self).cram_writable(a),
            forall|a: CRamAddr|
                #[trigger] final(self).cram_value(a) == if a == addr && old(self).cram_writable(addr) {
                    val
                } else {
                    old(self).cram_value(a)
                },
    ;

    fn cram(&self) -> (r: &Self::CRAM)
        requires
            self.inv(),
        ensures
            r.inv(),
            forall|a: CRamAddr| #[trigger] r.value(a) == self.cram_value(a),
    ;
}

/// No MBC (although CRAM is supported): a 32 KiB ROM mapped as it is.
pub struct NoMBC<CRAM> {
    pub rom: Vec<u8>,
    pub cram: CRAM,
}

impl<CRAM: CartridgeRam> NoMBC<CRAM> {
    pub fn new(rom: Vec<u8>, cram: CRAM) -> (r: NoMBC<CRAM>)
        requires
            rom.len() >= 0x8000,
            cram.inv(),
        ensures
            r.rom == rom,
            r.cram == cram,
            r.inv(),
    {
        NoMBC { rom, cram }
    }
}

impl<CRAM: CartridgeRam> CartridgeMBC for NoMBC<CRAM> {
    type CRAM = CRAM;

    open spec fn inv(&self) -> bool {
        self.rom.len() >= 0x8000 && self.cram.inv()
    }

    open spec fn rom_value(&self, addr: CRomAddr) -> u8 {
        match addr {
            CRomAddr::CROM0(n) => self.rom@[n as int],
            CRomAddr::CROMn(n) => self.rom@[n + 0x4000],
        }
    }

    open spec fn cram_value(&self, addr: CRamAddr) -> u8 {
        self.cram.value(addr)
    }

    open spec fn cram_writable(&self, addr: CRamAddr) -> bool {
        self.cram.writable(addr)
    }

    open spec fn rom_written(&self, new: &Self, addr: CRomAddr, val: u8) -> bool {
        new.rom == self.rom && new.cram == self.cram
    }

    fn read_rom(&self, addr: CRomAddr) -> (r: u8) {
        let a = match addr {
            CRomAddr::CROM0(n) => n,
            CRomAddr::CROMn(n) => n + 0x4000,
        };
        self.rom[a as usize]
    }

    fn write_rom(&mut self, _addr: CRomAddr, _val: u8) {
    }

    fn read_cram(&self, addr: CRamAddr) -> (r: u8) {
        self.cram.read(addr)
    }

    fn write_cram(&mut self, addr: CRamAddr, val: u8) {
        self.cram.write(addr, val);
    }

    fn cram(&self) -> (r: &CRAM) {
        &self.cram
    }
}

#[derive(Copy, Clone, Debug, PartialEq, Eq, Structural)]
pub enum MBC1Mode {
    RomBanking,
    RamBanking,
}

/// MBC1: ROM bank 0 fixed at 0x0000, a switchable ROM bank at 0x4000.
pub struct MBC1<CRAM> {
    pub rom: Vec<u8>,
    pub cram: CRAM,
    pub ram_enabled: bool,
    pub mode: MBC1Mode,
    pub mapped_bank_index: u8,
}

/// Banks 0x00, 0x20, 0x40 and 0x60 cannot be selected: MBC1 maps the
/// following bank instead.
pub open spec fn bank_fixup(idx: u8) -> u8 {
    if idx == 0x00 || idx == 0x20 || idx == 0x40 || idx == 0x60 {
        (idx + 1) as u8
    } else {
        idx
    }
}

impl<CRAM: CartridgeRam> MBC1<CRAM> {
    pub fn new(rom: Vec<u8>, cram: CRAM) -> (r: MBC1<CRAM>)
        requires
            rom.len() >= 0x8000,
            rom.len() % 0x4000 == 0,
            cram.inv(),
        ensures
            r.rom == rom,
            r.cram == cram,
            !r.ram_enabled,
            r.mode == MBC1Mode::RomBanking,
            r.mapped_bank_index == 1,
            r.inv(),
    {
        MBC1 { rom, cram, ram_enabled: false, mode: MBC1Mode::RomBanking, mapped_bank_index: 1 }
    }

    /// Whether the selected bank lies in the ROM.
    pub open spec fn bank_mapped(&self) -> bool {
        self.rom.len() >= self.mapped_bank_index as nat * 0x4000 + 0x4000
    }

    /// The state after a write of `val` to the ROM area at `addr`: 0x0000 -
    /// 0x1FFF enables RAM, 0x2000 - 0x3FFF selects the lower bank bits (ROM
    /// banking mode), 0x4000 - 0x5FFF bits 5 and 6 of the bank (ROM banking mode) or the RAM
    /// bank,
    /// 0x6000 - 0x7FFF the banking mode.
    pub open spec fn after_rom_write(&self, new: &Self, addr: CRomAddr, val: u8) -> bool {
        &&& new.rom == self.rom
        &&& new.cram.inv()
        &&& match addr {
            CRomAddr::CROM0(n) => if n < 0x2000 {
                &&& new.ram_enabled == (val & 0xA == 0xA)
                &&& new.mode == self.mode
                &&& new.mapped_bank_index == self.mapped_bank_index
                &&& new.cram == self.cram
            } else {
                &&& new.ram_enabled == self.ram_enabled
                &&& new.mode == self.mode
                &&& new.cram == self.cram
                &&& new.mapped_bank_index == if self.mode == MBC1Mode::RomBanking {
                    bank_fixup(((self.mapped_bank_index & !0x1Fu8) + (val & 0x1F)) as u8)
                } else {
                    self.mapped_bank_index
                }
            },
            CRomAddr::CROMn(n) => if n < 0x2000 {
                &&& new.ram_enabled == self.ram_enabled
                &&& new.mode == self.mode
                &&& if self.mode == MBC1Mode::RomBanking {
                    &&& new.mapped_bank_index == bank_fixup(((self.mapped_bank_index & 0x1Fu8) + ((val & 0b11u8) << 5u8)) as u8)
                    &&& new.cram == self.cram
                } else {
                    new.mapped_bank_index == self.mapped_bank_index
                }
            } else {
                &&& new.ram_enabled == self.ram_enabled
                &&& if val == 0 {
                    &&& new.mode == MBC1Mode::RomBanking
                    &&& new.mapped_bank_index == self.mapped_bank_index
                } else if val == 1 {
                    &&& new.mode == MBC1Mode::RamBanking
                    &&& new.mapped_bank_index == bank_fixup(self.mapped_bank_index & 0x1F)
                    &&& new.cram == self.cram
                } else {
                    &&& new.mode == self.mode
                    &&& new.mapped_bank_index == self.mapped_bank_index
                    &&& new.cram == self.cram
                }
            },
        }
    }

    fn update_mapped_bank(&mut self)
        ensures
            final(self).mapped_bank_index == bank_fixup(old(self).mapped_bank_index),
            final(self).rom == old(self).rom,
            final(self).cram == old(self).cram,
            final(self).ram_enabled == old(self).ram_enabled,
            final(self).mode == old(self).mode,
    {
        self.mapped_bank_index = match self.mapped_bank_index {
            0x00 => 0x01,
            0x20 => 0x21,
            0x40 => 0x41,
            0x60 => 0x61,
            n => n,
        };
    }
}

impl<CRAM: CartridgeRam> CartridgeMBC for MBC1<CRAM> {
    type CRAM = CRAM;

    open spec fn inv(&self) -> bool {
        &&& self.rom.len() >= 0x8000
        &&& self.rom.len() % 0x4000 == 0
        &&& self.cram.inv()
        &&& bank_fixup(self.mapped_bank_index) == self.mapped_bank_index
        &&& self.mapped_bank_index < 0x80
    }

    open spec fn rom_value(&self, addr: CRomAddr) -> u8 {
        match addr {
            CRomAddr::CROM0(n) => self.rom@[n as int],
            CRomAddr::CROMn(n) => if self.bank_mapped() {
                self.rom@[self.mapped_bank_index as int * 0x4000 + n]
            } else {
                0xff
            },
        }
    }

    open spec fn cram_value(&self, addr: CRamAddr) -> u8 {
        self.cram.value(addr)
    }

    open spec fn cram_writable(&self, addr: CRamAddr) -> bool {
        self.cram.writable(addr)
    }

    open spec fn rom_written(&self, new: &Self, addr: CRomAddr, val: u8) -> bool {
        self.after_rom_write(new, addr, val)
    }

    fn read_rom(&self, addr: CRomAddr) -> (r: u8) {
        match addr {
            CRomAddr::CROM0(a) => self.rom[a as usize],
            CRomAddr::CROMn(a) => {
                let bank_idx = self.mapped_bank_index as usize * 0x4000;
                if self.rom.len() >= bank_idx + 0x4000 {
                    self.rom[bank_idx + a as usize]
                } else {
                    0xff
                }
            },
        }
    }

    fn write_rom(&mut self, addr: CRomAddr, val: u8) {
        proof {
            lemma_bank_bits(self.mapped_bank_index, val);
        }
        match addr {
            CRomAddr::CROM0(n) => if n < 0x2000 {
                self.ram_enabled = val & 0xA == 0xA;
            } else {
                if matches!(self.mode, MBC1Mode::RomBanking) {
                    let idx = self.mapped_bank_index;
                    assert((idx & !0x1Fu8) as int + (val & 0x1Fu8) as int <= 255) by (bit_vector);
                    self.mapped_bank_index = (idx & (!0x1F)) + (val & 0x1F);
                    self.update_mapped_bank();
                }
            },
            CRomAddr::CROMn(n) => if n < 0x2000 {
                match self.mode {
                    MBC1Mode::RomBanking => {
                        let idx = self.mapped_bank_index;
                        assert((idx & 0x1Fu8) as int + ((val & 0b11u8) << 5u8) as int <= 255) by (bit_vector);
                        self.mapped_bank_index = (idx & 0x1F) + ((val & 0b11) << 5);
                        self.update_mapped_bank();
                    },
                    MBC1Mode::RamBanking => self.cram.select_bank(val),
                }
            } else {
                if val == 0 {
                    self.mode = MBC1Mode::RomBanking;
                    self.cram.select_bank(0);
                } else if val == 1 {
                    self.mode = MBC1Mode::RamBanking;
                    self.mapped_bank_index = self.mapped_bank_index & 0x1F;
                    self.update_mapped_bank();
                }
            },
        }
    }

    fn read_cram(&self, addr: CRamAddr) -> (r: u8) {
        self.cram.read(addr)
    }

    fn write_cram(&mut self, addr: CRamAddr, val: u8) {
        self.cram.write(addr, val);
    }

    fn cram(&self) -> (r: &CRAM) {
        &self.cram
    }
}

/// MBC1 never maps bank 0x00, 0x20, 0x40 or 0x60 into the switchable area:
/// whatever is written, the selected bank is none of them.
pub proof fn law_mbc1_skips_banks<CRAM: CartridgeRam>(m: MBC1<CRAM>, new: MBC1<CRAM>, addr: CRomAddr, val: u8)
    requires
        m.inv(),
        m.after_rom_write(&new, addr, val),
    ensures
        new.mapped_bank_index != 0x00,
        new.mapped_bank_index != 0x20,
        new.mapped_bank_index != 0x40,
        new.mapped_bank_index != 0x60,
{
}

/// The bank bits after a write: the lower five bits of a 0x2000 - 0x3FFF
/// write go under the upper bits, and bits 0 - 1 of a 0x4000 - 0x5FFF write
/// become bank bits 5 - 6 over the lower five.
proof fn lemma_bank_bits(idx: u8, val: u8)
    ensures
        ({
            let lo_written = ((idx & !0x1Fu8) + (val & 0x1Fu8)) as u8;
            let hi_written = ((idx & 0x1Fu8) + ((val & 0b11u8) << 5u8)) as u8;
            &&& lo_written % 32 == val % 32
            &&& lo_written / 32 == idx / 32
            &&& hi_written % 32 == idx % 32
            &&& hi_written / 32 == val % 4
            &&& idx & 0x1Fu8 == idx % 32
        }),
{
    let lo_written = ((idx & !0x1Fu8) + (val & 0x1Fu8)) as u8;
    let hi_written = ((idx & 0x1Fu8) + ((val & 0b11u8) << 5u8)) as u8;
    assert(lo_written % 32 == val % 32 && lo_written / 32 == idx / 32 && hi_written % 32 == idx % 32
        && hi_written / 32 == val % 4 && idx & 0x1Fu8 == idx % 32) by (bit_vector)
        requires
            lo_written == ((idx & !0x1Fu8) + (val & 0x1Fu8)) as u8,
            hi_written == ((idx & 0x1Fu8) + ((val & 0b11u8) << 5u8)) as u8,
    ;
}

/// MBC1 bank switching in ROM banking mode: a write of `val` to 0x2000 -
/// 0x3FFF sets the lower five bits of the bank to those of `val` (1 in place
/// of 0) and keeps the upper bits; a write to 0x4000 - 0x5FFF sets bank bits
/// 5 - 6 to the lower two bits of `val` and keeps the lower five (1 in place
/// of 0). The switchable area then shows that bank of the ROM.
pub proof fn law_mbc1_bank_select<CRAM: CartridgeRam>(m: MBC1<CRAM>, new: MBC1<CRAM>, addr: CRomAddr, val: u8)
    requires
        m.inv(),
        m.mode == MBC1Mode::RomBanking,
        m.after_rom_write(&new, addr, val),
    ensures
        addr matches CRomAddr::CROM0(n) && n >= 0x2000 ==> {
            &&& new.mapped_bank_index % 32 == (if val % 32 == 0 { 1 } else { val % 32 })
            &&& new.mapped_bank_index / 32 == m.mapped_bank_index / 32
        },
        addr matches CRomAddr::CROMn(n) && n < 0x2000 ==> {
            &&& new.mapped_bank_index % 32 == (if m.mapped_bank_index % 32 == 0 { 1 } else { m.mapped_bank_index % 32 })
            &&& new.mapped_bank_index / 32 == val % 4
        },
        forall|a: u16|
            a < 0x4000 && new.bank_mapped() ==> #[trigger] new.rom_value(CRomAddr::CROMn(a)) == new.rom@[new.mapped_bank_index as int * 0x4000 + a],
{
    lemma_bank_bits(m.mapped_bank_index, val);
}

} // verus!
