use vstd::prelude::*;
use super::CPU;
use super::instruction::Operand8;
use super::registers::{Registers, R16};
use crate::board::{Board, next_addr};
use crate::cartridge::CartridgeMem;

verus! {

/// The CPU with register file `reg`.
pub open spec fn with_reg(c: CPU, reg: Registers) -> CPU {
    CPU { reg, ..c }
}

/// An address in the page 0xFF00 - 0xFFFF.
pub open spec fn high(n: u8) -> u16 {
    (0xFF00 + n) as u16
}

/// The address before `a`, wrapping around at the start of the address space.
pub open spec fn prev_addr(a: u16) -> u16 {
    ((a + 0xFFFF) % 0x10000) as u16
}

/// The sum of two words, wrapping around.
pub open spec fn add16(a: u16, b: int) -> u16 {
    ((a + b) % 0x10000) as u16
}

/// Reading operand `op` turns `c0`, `b0` into `c1`, `b1` and gives `v`.
pub open spec fn operand_read<C: CartridgeMem>(c0: CPU, b0: Board<C>, op: Operand8, c1: CPU, b1: Board<C>, v: u8) -> bool {
    let r = c0.reg;
    match op {
        Operand8::Reg(x) => c1 == c0 && b1 == b0 && v == r.get8(x),
        Operand8::Ind(rr) => c1 == c0 && Board::read8_post(b0, r.get16(rr), b1, v),
        Operand8::HLi => {
            &&& c1 == with_reg(c0, r.with16(R16::HL, next_addr(r.get16(R16::HL))))
            &&& Board::read8_post(b0, r.get16(R16::HL), b1, v)
        },
        Operand8::HLd => {
            &&& c1 == with_reg(c0, r.with16(R16::HL, prev_addr(r.get16(R16::HL))))
            &&& Board::read8_post(b0, r.get16(R16::HL), b1, v)
        },
        Operand8::Imm8 => {
            &&& c1 == with_reg(c0, r.with16(R16::PC, next_addr(r.pc)))
            &&& Board::read8_post(b0, r.pc, b1, v)
        },
        Operand8::ImmAddr => {
            &&& c1 == with_reg(c0, r.with16(R16::PC, add16(r.pc, 2)))
            &&& exists|bm: Board<C>, a: u16|
                #[trigger] Board::read16_post(b0, r.pc, bm, a) && Board::read8_post(bm, a, b1, v)
        },
        Operand8::HighImm8 => {
            &&& c1 == with_reg(c0, r.with16(R16::PC, next_addr(r.pc)))
            &&& exists|bm: Board<C>, n: u8|
                #[trigger] Board::read8_post(b0, r.pc, bm, n) && Board::read8_post(bm, high(n), b1, v)
        },
        Operand8::HighC => c1 == c0 && Board::read8_post(b0, high(r.c), b1, v),
    }
}

/// Writing `val` to operand `op` turns `c0`, `b0` into `c1`, `b1`.
pub open spec fn operand_written<C: CartridgeMem>(c0: CPU, b0: Board<C>, op: Operand8, val: u8, c1: CPU, b1: Board<C>) -> bool {
    let r = c0.reg;
    match op {
        Operand8::Reg(x) => c1 == with_reg(c0, r.with8(x, val)) && b1 == b0,
        Operand8::Ind(rr) => c1 == c0 && Board::write8_post(b0, r.get16(rr), val, b1),
        Operand8::HLi => {
            &&& c1 == with_reg(c0, r.with16(R16::HL, next_addr(r.get16(R16::HL))))
            &&& Board::write8_post(b0, r.get16(R16::HL), val, b1)
        },
        Operand8::HLd => {
            &&& c1 == with_reg(c0, r.with16(R16::HL, prev_addr(r.get16(R16::HL))))
            &&& Board::write8_post(b0, r.get16(R16::HL), val, b1)
        },
        Operand8::Imm8 => false,
        Operand8::ImmAddr => {
            &&& c1 == with_reg(c0, r.with16(R16::PC, add16(r.pc, 2)))
            &&& exists|bm: Board<C>, a: u16|
                #[trigger] Board::read16_post(b0, r.pc, bm, a) && Board::write8_post(bm, a, val, b1)
        },
        Operand8::HighImm8 => {
            &&& c1 == with_reg(c0, r.with16(R16::PC, next_addr(r.pc)))
            &&& exists|bm: Board<C>, n: u8|
                #[trigger] Board::read8_post(b0, r.pc, bm, n) && Board::write8_post(bm, high(n), val, b1)
        },
        Operand8::HighC => c1 == c0 && Board::write8_post(b0, high(r.c), val, b1),
    }
}

impl CPU {
    /// Reads the byte at PC and moves PC past it.
    pub fn read8i<C: CartridgeMem>(&mut self, board: &mut Board<C>) -> (r: u8)
        requires
            old(board).wf(),
        ensures
            final(board).wf(),
            Board::read8_post(*old(board), old(self).reg.pc, *final(board), r),
            *final(self) == with_reg(*old(self), old(self).reg.with16(R16::PC, next_addr(old(self).reg.pc))),
    {
        let pc = self.reg.pc();
        let result = board.read8(pc);
        self.reg.pc = pc.wrapping_add(1);
        result
    }

    /// Reads the word at PC and moves PC past it.
    pub fn read16i<C: CartridgeMem>(&mut self, board: &mut Board<C>) -> (r: u16)
        requires
            old(board).wf(),
        ensures
            final(board).wf(),
            Board::read16_post(*old(board), old(self).reg.pc, *final(board), r),
            *final(self) == with_reg(*old(self), old(self).reg.with16(R16::PC, add16(old(self).reg.pc, 2))),
    {
        let pc = self.reg.pc();
        let result = board.read16(pc);
        self.reg.pc = pc.wrapping_add(2);
        result
    }

    #[verifier::spinoff_prover]
    #[verifier::rlimit(50)]
    pub fn read_operand<C: CartridgeMem>(&mut self, board: &mut Board<C>, op: Operand8) -> (r: u8)
        requires
            old(board).wf(),
        ensures
            final(board).wf(),
            operand_read(*old(self), *old(board), op, *final(self), *final(board), r),
    {
        match op {
            Operand8::Reg(x) => self.reg.r8(x),
            Operand8::Ind(rr) => {
                let addr = self.reg.r16(rr);
                board.read8(addr)
            },
            Operand8::HLi => {
                let addr = self.reg.hl();
                let v = board.read8(addr);
                self.reg.set_hl(addr.wrapping_add(1));
                v
            },
            Operand8::HLd => {
                let addr = self.reg.hl();
                let v = board.read8(addr);
                self.reg.set_hl(addr.wrapping_sub(1));
                v
            },
            Operand8::Imm8 => self.read8i(board),
            Operand8::ImmAddr => self.read_imm_addr(board),
            Operand8::HighImm8 => self.read_high_imm8(board),
            Operand8::HighC => {
                let c = self.reg.c;
                board.read8(0xFF00 + c as u16)
            },
        }
    }

    /// Reads the byte at the address that follows the opcode.
    #[verifier::spinoff_prover]
    fn read_imm_addr<C: CartridgeMem>(&mut self, board: &mut Board<C>) -> (r: u8)
        requires
            old(board).wf(),
        ensures
            final(board).wf(),
            operand_read(*old(self), *old(board), Operand8::ImmAddr, *final(self), *final(board), r),
    {
        let ghost b0 = *board;
        let ghost pc = self.reg.pc;
        let addr = self.read16i(board);
        let ghost bm = *board;
        let v = board.read8(addr);
        assert(Board::read16_post(b0, pc, bm, addr) && Board::read8_post(bm, addr, *board, v));
        v
    }

    /// Reads the byte at 0xFF00 plus the byte that follows the opcode.
    #[verifier::spinoff_prover]
    fn read_high_imm8<C: CartridgeMem>(&mut self, board: &mut Board<C>) -> (r: u8)
        requires
            old(board).wf(),
        ensures
            final(board).wf(),
            operand_read(*old(self), *old(board), Operand8::HighImm8, *final(self), *final(board), r),
    {
        let ghost b0 = *board;
        let ghost pc = self.reg.pc;
        let n = self.read8i(board);
        let ghost bm = *board;
        let v = board.read8(0xFF00 + n as u16);
        assert(Board::read8_post(b0, pc, bm, n) && Board::read8_post(bm, high(n), *board, v));
        v
    }

    #[verifier::spinoff_prover]
    #[verifier::rlimit(50)]
    pub fn write_operand<C: CartridgeMem>(&mut self, board: &mut Board<C>, op: Operand8, val: u8)
        requires
            old(board).wf(),
            !(op is Imm8),
        ensures
            final(board).wf(),
            operand_written(*old(self), *old(board), op, val, *final(self), *final(board)),
    {
        match op {
            Operand8::Reg(x) => self.reg.set_r8(x, val),
            Operand8::Ind(rr) => {
                let addr = self.reg.r16(rr);
                board.write8(addr, val);
            },
            Operand8::HLi => {
                let addr = self.reg.hl();
                board.write8(addr, val);
                self.reg.set_hl(addr.wrapping_add(1));
            },
            Operand8::HLd => {
                let addr = self.reg.hl();
                board.write8(addr, val);
                self.reg.set_hl(addr.wrapping_sub(1));
            },
            Operand8::Imm8 => {},
            Operand8::ImmAddr => {
                let ghost b0 = *board;
                let ghost pc = self.reg.pc;
                let addr = self.read16i(board);
                let ghost bm = *board;
                board.write8(addr, val);
                assert(Board::read16_post(b0, pc, bm, addr) && Board::write8_post(bm, addr, val, *board));
            },
            Operand8::HighImm8 => {
                let ghost b0 = *board;
                let ghost pc = self.reg.pc;
                let n = self.read8i(board);
                let ghost bm = *board;
                board.write8(0xFF00 + n as u16, val);
                assert(Board::read8_post(b0, pc, bm, n) && Board::write8_post(bm, high(n), val, *board));
            },
            Operand8::HighC => {
                let c = self.reg.c;
                board.write8(0xFF00 + c as u16, val);
            },
        }
    }
}

} // verus!
