use vstd::prelude::*;
use crate::address::{CRamAddr, CRomAddr, MemAddr};
use crate::cartridge::CartridgeMem;
use crate::cartridge::mbc::rom_addr_ok;

verus! {

/// Size of the work RAM (0xC000 - 0xDFFF)
pub const WRAM_LEN: usize = 0x2000;
/// Size of the high RAM (0xFF80 - 0xFFFE)
pub const HRAM_LEN: usize = 0x7F;
/// Size of the part of work RAM that echo RAM mirrors (0xE000 - 0xFDFF)
pub const ECHO_LEN: usize = 0x1E00;

/// The boot ROM, mapped over the first 256 bytes of the cartridge ROM until
/// it is disabled through register 0xFF50.
pub const BIOS: [u8; 256] = [
    0x31, 0xFE, 0xFF, 0xAF, 0x21, 0xFF, 0x9F, 0x32, 0xCB, 0x7C, 0x20, 0xFB, 0x21, 0x26, 0xFF, 0x0E,
    0x11, 0x3E, 0x80, 0x32, 0xE2, 0x0C, 0x3E, 0xF3, 0xE2, 0x32, 0x3E, 0x77, 0x77, 0x3E, 0xFC, 0xE0,
    0x47, 0x11, 0x04, 0x01, 0x21, 0x10, 0x80, 0x1A, 0xCD, 0x95, 0x00, 0xCD, 0x96, 0x00, 0x13, 0x7B,
    0xFE, 0x34, 0x20, 0xF3, 0x11, 0xD8, 0x00, 0x06, 0x08, 0x1A, 0x13, 0x22, 0x23, 0x05, 0x20, 0xF9,
    0x3E, 0x19, 0xEA, 0x10, 0x99, 0x21, 0x2F, 0x99, 0x0E, 0x0C, 0x3D, 0x28, 0x08, 0x32, 0x0D, 0x20,
    0xF9, 0x2E, 0x0F, 0x18, 0xF3, 0x67, 0x3E, 0x64, 0x57, 0xE0, 0x42, 0x3E, 0x91, 0xE0, 0x40, 0x04,
    0x1E, 0x02, 0x0E, 0x0C, 0xF0, 0x44, 0xFE, 0x90, 0x20, 0xFA, 0x0D, 0x20, 0xF7, 0x1D, 0x20, 0xF2,
    0x0E, 0x13, 0x24, 0x7C, 0x1E, 0x83, 0xFE, 0x62, 0x28, 0x06, 0x1E, 0xC1, 0xFE, 0x64, 0x20, 0x06,
    0x7B, 0xE2, 0x0C, 0x3E, 0x87, 0xF2, 0xF0, 0x42, 0x90, 0xE0, 0x42, 0x15, 0x20, 0xD2, 0x05, 0x20,
    0x4F, 0x16, 0x20, 0x18, 0xCB, 0x4F, 0x06, 0x04, 0xC5, 0xCB, 0x11, 0x17, 0xC1, 0xCB, 0x11, 0x17,
    0x05, 0x20, 0xF5, 0x22, 0x23, 0x22, 0x23, 0xC9, 0xCE, 0xED, 0x66, 0x66, 0xCC, 0x0D, 0x00, 0x0B,
    0x03, 0x73, 0x00, 0x83, 0x00, 0x0C, 0x00, 0x0D, 0x00, 0x08, 0x11, 0x1F, 0x88, 0x89, 0x00, 0x0E,
    0xDC, 0xCC, 0x6E, 0xE6, 0xDD, 0xDD, 0xD9, 0x99, 0xBB, 0xBB, 0x67, 0x63, 0x6E, 0x0E, 0xEC, 0xCC,
    0xDD, 0xDC, 0x99, 0x9F, 0xBB, 0xB9, 0x33, 0x3E, 0x3c, 0x42, 0xB9, 0xA5, 0xB9, 0xA5, 0x42, 0x4C,
    0x21, 0x04, 0x01, 0x11, 0xA8, 0x00, 0x1A, 0x13, 0xBE, 0x20, 0xFE, 0x23, 0x7D, 0xFE, 0x34, 0x20,
    0xF5, 0x06, 0x19, 0x78, 0x86, 0x23, 0x05, 0x20, 0xFB, 0x86, 0x20, 0xFE, 0x3E, 0x01, 0xE0, 0x50,
];

/// The memory built into the console: work RAM and high RAM.
pub struct InternalMem {
    pub wram: Vec<u8>,
    pub hram: Vec<u8>,
}

impl InternalMem {
    pub open spec fn wf(&self) -> bool {
        self.wram@.len() == WRAM_LEN && self.hram@.len() == HRAM_LEN
    }

    pub fn new() -> (r: InternalMem)
        ensures
            r.wf(),
            forall|i: int| 0 <= i < WRAM_LEN ==> #[trigger] r.wram@[i] == 0,
            forall|i: int| 0 <= i < HRAM_LEN ==> #[trigger] r.hram@[i] == 0,
    {
        InternalMem { wram: zeroed(WRAM_LEN), hram: zeroed(HRAM_LEN) }
    }
}

fn zeroed(len: usize) -> (r: Vec<u8>)
    ensures
        r@.len() == len,
        forall|i: int| 0 <= i < len ==> #[trigger] r@[i] == 0,
{
    let mut v: Vec<u8> = Vec::new();
    while v.len() < len
        invariant
            v@.len() <= len,
            forall|i: int| 0 <= i < v@.len() ==> #[trigger] v@[i] == 0,
        decreases len - v@.len(),
    {
        v.push(0);
    }
    v
}

/// The memory the CPU reaches outside of video memory and the I/O
/// registers: cartridge ROM and RAM, work RAM, echo RAM and high RAM.
pub struct Memory<C> {
    pub internal: InternalMem,
    pub cartridge: C,
    /// Whether the boot ROM still hides the start of the cartridge ROM
    pub boot_rom_active: bool,
}

/// An address as `Addr::from` produces it: each offset within its area.
pub open spec fn mem_addr_ok(addr: MemAddr) -> bool {
    match addr {
        MemAddr::CROM(a) => rom_addr_ok(a),
        MemAddr::CRAM(CRamAddr(n)) => n < 0x2000,
        MemAddr::WRAM(n) => n < WRAM_LEN,
        MemAddr::ECHO(n) => n < ECHO_LEN,
        MemAddr::HRAM(n) => n < HRAM_LEN,
    }
}

impl<C: CartridgeMem> Memory<C> {
    pub open spec fn inv(&self) -> bool {
        self.internal.wf() && self.cartridge.inv()
    }

    /// The byte a read of `addr` returns.
    pub open spec fn value(&self, addr: MemAddr) -> u8 {
        match addr {
            MemAddr::CROM(CRomAddr::CROM0(n)) => if self.boot_rom_active && n < 0x100 {
                BIOS@[n as int]
            } else {
                self.cartridge.rom_value(CRomAddr::CROM0(n))
            },
            MemAddr::CROM(a) => self.cartridge.rom_value(a),
            MemAddr::CRAM(a) => self.cartridge.cram_value(a),
            MemAddr::WRAM(n) => self.internal.wram@[n as int],
            MemAddr::ECHO(n) => self.internal.wram@[n as int],
            MemAddr::HRAM(n) => self.internal.hram@[n as int],
        }
    }

    /// Everything but the cartridge is as in `other`.
    pub open spec fn same_but_cartridge(&self, other: &Memory<C>) -> bool {
        self.internal == other.internal && self.boot_rom_active == other.boot_rom_active
    }

    /// `new` is what a write of `val` to `addr` makes of `self`.
    pub open spec fn written(&self, new: &Memory<C>, addr: MemAddr, val: u8) -> bool {
        &&& new.inv()
        &&& new.boot_rom_active == self.boot_rom_active
        &&& match addr {
            MemAddr::CROM(a) => {
                &&& new.internal == self.internal
                &&& self.cartridge.rom_written(&new.cartridge, a, val)
            },
            MemAddr::CRAM(a) => {
                &&& new.internal == self.internal
                &&& forall|b: CRomAddr| #[trigger] new.cartridge.rom_value(b) == self.cartridge.rom_value(b)
                &&& forall|b: CRamAddr| #[trigger] new.cartridge.cram_writable(b) == self.cartridge.cram_writable(b)
                &&& forall|b: CRamAddr|
                    #[trigger] new.cartridge.cram_value(b) == if b == a && self.cartridge.cram_writable(a) {
                        val
                    } else {
                        self.cartridge.cram_value(b)
                    }
            },
            MemAddr::WRAM(n) | MemAddr::ECHO(n) => {
                &&& new.cartridge == self.cartridge
                &&& new.internal.hram == self.internal.hram
                &&& new.internal.wram@ == self.internal.wram@.update(n as int, val)
            },
            MemAddr::HRAM(n) => {
                &&& new.cartridge == self.cartridge
                &&& new.internal.wram == self.internal.wram
                &&& new.internal.hram@ == self.internal.hram@.update(n as int, val)
            },
        }
    }

    pub fn new(internal: InternalMem, cartridge: C) -> (r: Memory<C>)
        ensures
            r.internal == internal,
            r.cartridge == cartridge,
            r.boot_rom_active,
    {
        Memory { internal, cartridge, boot_rom_active: true }
    }

    pub fn read8(&self, addr: MemAddr) -> (r: u8)
        requires
            self.inv(),
            mem_addr_ok(addr),
        ensures
            r == self.value(addr),
    {
        match addr {
            MemAddr::CROM(CRomAddr::CROM0(n)) => if self.boot_rom_active && n < 0x100 {
                BIOS[n as usize]
            } else {
                self.cartridge.read_rom(CRomAddr::CROM0(n))
            },
            MemAddr::CROM(a) => self.cartridge.read_rom(a),
            MemAddr::CRAM(a) => self.cartridge.read_cram(a),
            MemAddr::WRAM(n) => self.internal.wram[n as usize],
            MemAddr::ECHO(n) => self.internal.wram[n as usize],
            MemAddr::HRAM(n) => self.internal.hram[n as usize],
        }
    }

    pub fn write8(&mut self, addr: MemAddr, val: u8)
        requires
            old(self).inv(),
            mem_addr_ok(addr),
        ensures
            old(self).written(final(self), addr, val),
    {
        match addr {
            MemAddr::CROM(a) => self.cartridge.write_rom(a, val),
            MemAddr::CRAM(a) => self.cartridge.write_cram(a, val),
            MemAddr::WRAM(n) => self.internal.wram.set(n as usize, val),
            MemAddr::ECHO(n) => self.internal.wram.set(n as usize, val),
            MemAddr::HRAM(n) => self.internal.hram.set(n as usize, val),
        }
    }

    /// Register 0xFF50: writing 1 unmaps the boot ROM for good.
    pub fn write_ff50(&mut self, val: u8)
        ensures
            final(self).internal == old(self).internal,
            final(self).cartridge == old(self).cartridge,
            final(self).boot_rom_active == (old(self).boot_rom_active && val != 1),
    {
        if val == 1 {
            self.boot_rom_active = false;
        }
    }
}

/// A byte written to work RAM is read back there and through echo RAM, and
/// every other address of memory keeps its value.
pub proof fn law_wram_write_read<C: CartridgeMem>(s: Memory<C>, t: Memory<C>, n: u16, val: u8, addr: MemAddr)
    requires
        s.inv(),
        n < ECHO_LEN,
        mem_addr_ok(addr),
        s.written(&t, MemAddr::WRAM(n), val),
    ensures
        t.value(MemAddr::WRAM(n)) == val,
        t.value(MemAddr::ECHO(n)) == val,
        addr != MemAddr::WRAM(n) && addr != MemAddr::ECHO(n) ==> t.value(addr) == s.value(addr),
{
}

/// A byte written to high RAM is read back, and every other address keeps
/// its value.
pub proof fn law_hram_write_read<C: CartridgeMem>(s: Memory<C>, t: Memory<C>, n: u16, val: u8, addr: MemAddr)
    requires
        s.inv(),
        n < HRAM_LEN,
        mem_addr_ok(addr),
        s.written(&t, MemAddr::HRAM(n), val),
    ensures
        t.value(MemAddr::HRAM(n)) == val,
        addr != MemAddr::HRAM(n) ==> t.value(addr) == s.value(addr),
{
}

} // verus!
