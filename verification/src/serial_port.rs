use vstd::prelude::*;
use crate::address::SerialReg;

verus! {

/// The serial port. Only the transfer of a byte to the outside is modeled.
pub struct SerialPort {
    pub sb_reg: u8,
}

impl SerialPort {
    pub fn new() -> (r: SerialPort)
        ensures
            r.sb_reg == 0,
    {
        SerialPort { sb_reg: 0 }
    }

    /// Writes a serial register. Writing 0x81 to SC starts a transfer of
    /// SB: the byte to send out is returned, and the caller shows it.
    pub fn write_reg(&mut self, reg: SerialReg, val: u8) -> (r: Option<u8>)
        ensures
            reg == SerialReg::SB ==> final(self).sb_reg == val && r is None,
            reg == SerialReg::SC ==> final(self).sb_reg == old(self).sb_reg && r == (if val == 0x81 {
                Some(old(self).sb_reg)
            } else {
                None
            }),
    {
        match reg {
            SerialReg::SB => {
                self.sb_reg = val;
                None
            },
            SerialReg::SC => if val == 0x81 {
                Some(self.sb_reg)
            } else {
                None
            },
        }
    }

    /// Reads SB; reading SC is not supported.
    pub fn read_reg(&self, reg: SerialReg) -> (r: u8)
        requires
            reg == SerialReg::SB,
        ensures
            r == self.sb_reg,
    {
        self.sb_reg
    }
}

} // verus!
