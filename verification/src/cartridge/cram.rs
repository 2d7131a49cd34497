use vstd::prelude::*;
use crate::address::CRamAddr;
use super::desc::RamSize;

verus! {

/// Cartridge RAM (0xA000 - 0xBFFF).
pub trait CartridgeRam: Sized {
    spec fn inv(&self) -> bool;

    /// The byte a read of `addr` returns.
    spec fn value(&self, addr: CRamAddr) -> u8;

    /// Whether a write to `addr` is stored.
    spec fn writable(&self, addr: CRamAddr) -> bool;

    fn read(&self, addr: CRamAddr) -> (r: u8)
        requires
            self.inv(),
        ensures
            r == self.value(addr),
    ;

    fn write(&mut self, addr: CRamAddr, val: u8)
        requires
            old(self).inv(),
        ensures
            final(self).inv(),
            forall|a: CRamAddr| #[trigger] final(self).writable(a) == old(self).writable(a),
            forall|a: CRamAddr|
                #[trigger] final(self).value(a) == if a == addr && old(self).writable(addr) {
                    val
                } else {
                    old(self).value(a)
                },
    ;

    fn select_bank(&mut self, bank: u8)
        requires
            old(self).inv(),
        ensures
            final(self).inv(),
    ;
}

/// No cartridge RAM: reads give 0xFF, writes are dropped.
pub struct NoCRAM;

impl CartridgeRam for NoCRAM {
    open spec fn inv(&self) -> bool {
        true
    }

    open spec fn value(&self, addr: CRamAddr) -> u8 {
        0xff
    }

    open spec fn writable(&self, addr: CRamAddr) -> bool {
        false
    }

    fn read(&self, _addr: CRamAddr) -> (r: u8) {
        0xff
    }

    fn write(&mut self, _addr: CRamAddr, _val: u8) {
    }

    fn select_bank(&mut self, _bank: u8) {
    }
}

/// A single bank of cartridge RAM of the size the header declares.
/// Addresses past its end read 0xFF and ignore writes.
pub struct CRAMUnbanked {
    pub mem: Vec<u8>,
}

impl CRAMUnbanked {
    /// RAM of the given size, cleared.
    pub fn new(size: RamSize) -> (r: CRAMUnbanked)
        ensures
            r.mem@.len() == size.bytes(),
            forall|i: int| 0 <= i < r.mem@.len() ==> #[trigger] r.mem@[i] == 0,
    {
        let len: usize = size.byte_len();
        let mut mem: Vec<u8> = Vec::new();
        let mut i: usize = 0;
        while i < len
            invariant
                i <= len,
                mem.len() == i,
                forall|j: int| 0 <= j < i ==> #[trigger] mem@[j] == 0,
            decreases len - i,
        {
            mem.push(0);
            i = i + 1;
        }
        CRAMUnbanked { mem }
    }
}

impl CartridgeRam for CRAMUnbanked {
    open spec fn inv(&self) -> bool {
        true
    }

    open spec fn value(&self, addr: CRamAddr) -> u8 {
        if (addr.0 as nat) < self.mem@.len() {
            self.mem@[addr.0 as int]
        } else {
            0xff
        }
    }

    open spec fn writable(&self, addr: CRamAddr) -> bool {
        (addr.0 as nat) < self.mem@.len()
    }

    fn read(&self, addr: CRamAddr) -> (r: u8) {
        if (addr.0 as usize) < self.mem.len() {
            self.mem[addr.0 as usize]
        } else {
            0xff
        }
    }

    fn write(&mut self, addr: CRamAddr, val: u8) {
        if (addr.0 as usize) < self.mem.len() {
            self.mem.set(addr.0 as usize, val);
        }
    }

    fn select_bank(&mut self, _bank: u8) {
    }
}

} // verus!
