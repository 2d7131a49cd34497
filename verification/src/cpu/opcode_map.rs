//! The structure of the SM83 opcode map: an opcode byte splits into the
//! fields x (bits 7-6), y (bits 5-3) and z (bits 2-0), with y split further
//! into p (bits 5-4) and q (bit 3). Register, pair, condition and operation
//! numbers index the tables below. The decoder is proved to follow this map
//! for every byte.

use vstd::prelude::*;
use super::instruction::{AluOp, ByteInstr, CBByteInstr, CbOp, Cond, Op, Operand8};
use super::registers::{R16, R8};

verus! {

/// Register number `i` of an 8-bit operand field: B, C, D, E, H, L, (HL), A.
pub open spec fn reg8(i: u8) -> Operand8 {
    if i == 0 {
        Operand8::Reg(R8::B)
    } else if i == 1 {
        Operand8::Reg(R8::C)
    } else if i == 2 {
        Operand8::Reg(R8::D)
    } else if i == 3 {
        Operand8::Reg(R8::E)
    } else if i == 4 {
        Operand8::Reg(R8::H)
    } else if i == 5 {
        Operand8::Reg(R8::L)
    } else if i == 6 {
        Operand8::Ind(R16::HL)
    } else {
        Operand8::Reg(R8::A)
    }
}

/// Register pair number `p` of the 16-bit load and arithmetic rows: BC, DE, HL, SP.
pub open spec fn pair_sp(p: u8) -> R16 {
    if p == 0 {
        R16::BC
    } else if p == 1 {
        R16::DE
    } else if p == 2 {
        R16::HL
    } else {
        R16::SP
    }
}

/// Register pair number `p` of the PUSH and POP rows: BC, DE, HL, AF.
pub open spec fn pair_af(p: u8) -> R16 {
    if p == 0 {
        R16::BC
    } else if p == 1 {
        R16::DE
    } else if p == 2 {
        R16::HL
    } else {
        R16::AF
    }
}

/// Condition number `i`: NZ, Z, NC, C.
pub open spec fn cond(i: u8) -> Cond {
    if i == 0 {
        Cond::NZ
    } else if i == 1 {
        Cond::Z
    } else if i == 2 {
        Cond::NC
    } else {
        Cond::C
    }
}

/// ALU operation number `i`: ADD, ADC, SUB, SBC, AND, XOR, OR, CP.
pub open spec fn alu(i: u8) -> AluOp {
    if i == 0 {
        AluOp::Add
    } else if i == 1 {
        AluOp::Adc
    } else if i == 2 {
        AluOp::Sub
    } else if i == 3 {
        AluOp::Sbc
    } else if i == 4 {
        AluOp::And
    } else if i == 5 {
        AluOp::Xor
    } else if i == 6 {
        AluOp::Or
    } else {
        AluOp::Cp
    }
}

/// The operation of opcode `b` in the SM83 opcode map.
pub open spec fn opcode_op(b: u8) -> Op {
    let x = b / 64;
    let y = (b / 8) % 8;
    let z = b % 8;
    let p = y / 2;
    let q = y % 2;
    if x == 0 {
        if z == 0 {
            if y == 0 {
                Op::Nop
            } else if y == 1 {
                Op::LdA16Sp
            } else if y == 2 {
                Op::Stop
            } else if y == 3 {
                Op::Jr(Cond::Always)
            } else {
                Op::Jr(cond((y - 4) as u8))
            }
        } else if z == 1 {
            if q == 0 {
                Op::LdRrD16(pair_sp(p))
            } else {
                Op::AddHlRr(pair_sp(p))
            }
        } else if z == 2 {
            let m = if p == 0 {
                Operand8::Ind(R16::BC)
            } else if p == 1 {
                Operand8::Ind(R16::DE)
            } else if p == 2 {
                Operand8::HLi
            } else {
                Operand8::HLd
            };
            if q == 0 {
                Op::Ld8(m, Operand8::Reg(R8::A))
            } else {
                Op::Ld8(Operand8::Reg(R8::A), m)
            }
        } else if z == 3 {
            if q == 0 {
                Op::IncRr(pair_sp(p))
            } else {
                Op::DecRr(pair_sp(p))
            }
        } else if z == 4 {
            Op::Inc8(reg8(y))
        } else if z == 5 {
            Op::Dec8(reg8(y))
        } else if z == 6 {
            Op::Ld8(reg8(y), Operand8::Imm8)
        } else {
            if y == 0 {
                Op::Rlca
            } else if y == 1 {
                Op::Rrca
            } else if y == 2 {
                Op::Rla
            } else if y == 3 {
                Op::Rra
            } else if y == 4 {
                Op::Daa
            } else if y == 5 {
                Op::Cpl
            } else if y == 6 {
                Op::Scf
            } else {
                Op::Ccf
            }
        }
    } else if x == 1 {
        if b == 0x76 {
            Op::Halt
        } else {
            Op::Ld8(reg8(y), reg8(z))
        }
    } else if x == 2 {
        Op::Alu(alu(y), reg8(z))
    } else {
        if z == 0 {
            if y < 4 {
                Op::RetCond(cond(y))
            } else if y == 4 {
                Op::Ld8(Operand8::HighImm8, Operand8::Reg(R8::A))
            } else if y == 5 {
                Op::AddSpR8
            } else if y == 6 {
                Op::Ld8(Operand8::Reg(R8::A), Operand8::HighImm8)
            } else {
                Op::LdHlSpR8
            }
        } else if z == 1 {
            if q == 0 {
                if p == 3 {
                    Op::PopAf
                } else {
                    Op::Pop(pair_af(p))
                }
            } else if p == 0 {
                Op::Ret
            } else if p == 1 {
                Op::Reti
            } else if p == 2 {
                Op::JpHl
            } else {
                Op::LdSpHl
            }
        } else if z == 2 {
            if y < 4 {
                Op::Jp(cond(y))
            } else if y == 4 {
                Op::Ld8(Operand8::HighC, Operand8::Reg(R8::A))
            } else if y == 5 {
                Op::Ld8(Operand8::ImmAddr, Operand8::Reg(R8::A))
            } else if y == 6 {
                Op::Ld8(Operand8::Reg(R8::A), Operand8::HighC)
            } else {
                Op::Ld8(Operand8::Reg(R8::A), Operand8::ImmAddr)
            }
        } else if z == 3 {
            if y == 0 {
                Op::Jp(Cond::Always)
            } else if y == 1 {
                Op::PrefixCb
            } else if y == 6 {
                Op::Di
            } else if y == 7 {
                Op::Ei
            } else {
                Op::Stuck
            }
        } else if z == 4 {
            if y < 4 {
                Op::Call(cond(y))
            } else {
                Op::Stuck
            }
        } else if z == 5 {
            if q == 0 {
                Op::Push(pair_af(p))
            } else if p == 0 {
                Op::Call(Cond::Always)
            } else {
                Op::Stuck
            }
        } else if z == 6 {
            Op::Alu(alu(y), Operand8::Imm8)
        } else {
            Op::Rst((y * 8) as u16)
        }
    }
}

/// The operation of opcode `b` after the 0xCB prefix: x selects a shift or
/// rotation (by y), BIT, RES or SET (of bit y); z selects the operand.
pub open spec fn cb_opcode_op(b: u8) -> (CbOp, Operand8) {
    let x = b / 64;
    let y = (b / 8) % 8;
    let op = if x == 0 {
        if y == 0 {
            CbOp::Rlc
        } else if y == 1 {
            CbOp::Rrc
        } else if y == 2 {
            CbOp::Rl
        } else if y == 3 {
            CbOp::Rr
        } else if y == 4 {
            CbOp::Sla
        } else if y == 5 {
            CbOp::Sra
        } else if y == 6 {
            CbOp::Swap
        } else {
            CbOp::Srl
        }
    } else if x == 1 {
        CbOp::Bit(y)
    } else if x == 2 {
        CbOp::Res(y)
    } else {
        CbOp::SetBit(y)
    };
    (op, reg8(b % 8))
}

/// Opcode `b` decodes as the opcode map says, with and without the prefix.
#[verifier::opaque]
spec fn follows_map(b: u8) -> bool {
    &&& ByteInstr::decode(b).semantics() == opcode_op(b)
    &&& CBByteInstr::decode(b).semantics() == cb_opcode_op(b)
}

#[verifier::spinoff_prover]
#[verifier::rlimit(100)]
proof fn lemma_opcodes_00(b: u8)
    requires
        0x00 <= b < 0x10,
    ensures
        follows_map(b),
{
    reveal(follows_map);
}

#[verifier::spinoff_prover]
#[verifier::rlimit(100)]
proof fn lemma_opcodes_10(b: u8)
    requires
        0x10 <= b < 0x20,
    ensures
        follows_map(b),
{
    reveal(follows_map);
}

#[verifier::spinoff_prover]
#[verifier::rlimit(100)]
proof fn lemma_opcodes_20(b: u8)
    requires
        0x20 <= b < 0x30,
    ensures
        follows_map(b),
{
    reveal(follows_map);
}

#[verifier::spinoff_prover]
#[verifier::rlimit(100)]
proof fn lemma_opcodes_30(b: u8)
    requires
        0x30 <= b < 0x40,
    ensures
        follows_map(b),
{
    reveal(follows_map);
}

#[verifier::spinoff_prover]
#[verifier::rlimit(100)]
proof fn lemma_opcodes_40(b: u8)
    requires
        0x40 <= b < 0x50,
    ensures
        follows_map(b),
{
    reveal(follows_map);
}

#[verifier::spinoff_prover]
#[verifier::rlimit(100)]
proof fn lemma_opcodes_50(b: u8)
    requires
        0x50 <= b < 0x60,
    ensures
        follows_map(b),
{
    reveal(follows_map);
}

#[verifier::spinoff_prover]
#[verifier::rlimit(100)]
proof fn lemma_opcodes_60(b: u8)
    requires
        0x60 <= b < 0x70,
    ensures
        follows_map(b),
{
    reveal(follows_map);
}

#[verifier::spinoff_prover]
#[verifier::rlimit(100)]
proof fn lemma_opcodes_70(b: u8)
    requires
        0x70 <= b < 0x80,
    ensures
        follows_map(b),
{
    reveal(follows_map);
}

#[verifier::spinoff_prover]
#[verifier::rlimit(100)]
proof fn lemma_opcodes_80(b: u8)
    requires
        0x80 <= b < 0x90,
    ensures
        follows_map(b),
{
    reveal(follows_map);
}

#[verifier::spinoff_prover]
#[verifier::rlimit(100)]
proof fn lemma_opcodes_90(b: u8)
    requires
        0x90 <= b < 0xa0,
    ensures
        follows_map(b),
{
    reveal(follows_map);
}

#[verifier::spinoff_prover]
#[verifier::rlimit(100)]
proof fn lemma_opcodes_a0(b: u8)
    requires
        0xa0 <= b < 0xb0,
    ensures
        follows_map(b),
{
    reveal(follows_map);
}

#[verifier::spinoff_prover]
#[verifier::rlimit(100)]
proof fn lemma_opcodes_b0(b: u8)
    requires
        0xb0 <= b < 0xc0,
    ensures
        follows_map(b),
{
    reveal(follows_map);
}

#[verifier::spinoff_prover]
#[verifier::rlimit(100)]
proof fn lemma_opcodes_c0(b: u8)
    requires
        0xc0 <= b < 0xd0,
    ensures
        follows_map(b),
{
    reveal(follows_map);
}

#[verifier::spinoff_prover]
#[verifier::rlimit(100)]
proof fn lemma_opcodes_d0(b: u8)
    requires
        0xd0 <= b < 0xe0,
    ensures
        follows_map(b),
{
    reveal(follows_map);
}

#[verifier::spinoff_prover]
#[verifier::rlimit(100)]
proof fn lemma_opcodes_e0(b: u8)
    requires
        0xe0 <= b < 0xf0,
    ensures
        follows_map(b),
{
    reveal(follows_map);
}

#[verifier::spinoff_prover]
#[verifier::rlimit(100)]
proof fn lemma_opcodes_f0(b: u8)
    requires
        0xf0 <= b < 0x100,
    ensures
        follows_map(b),
{
    reveal(follows_map);
}


proof fn lemma_follows_map(b: u8)
    ensures
        follows_map(b),
{
    if b < 0x10 {
        lemma_opcodes_00(b);
    } else if b < 0x20 {
        lemma_opcodes_10(b);
    } else if b < 0x30 {
        lemma_opcodes_20(b);
    } else if b < 0x40 {
        lemma_opcodes_30(b);
    } else if b < 0x50 {
        lemma_opcodes_40(b);
    } else if b < 0x60 {
        lemma_opcodes_50(b);
    } else if b < 0x70 {
        lemma_opcodes_60(b);
    } else if b < 0x80 {
        lemma_opcodes_70(b);
    } else if b < 0x90 {
        lemma_opcodes_80(b);
    } else if b < 0xa0 {
        lemma_opcodes_90(b);
    } else if b < 0xb0 {
        lemma_opcodes_a0(b);
    } else if b < 0xc0 {
        lemma_opcodes_b0(b);
    } else if b < 0xd0 {
        lemma_opcodes_c0(b);
    } else if b < 0xe0 {
        lemma_opcodes_d0(b);
    } else if b < 0xf0 {
        lemma_opcodes_e0(b);
    } else if b < 0x100 {
        lemma_opcodes_f0(b);
    }
}

proof fn lemma_decodes(b: u8)
    ensures
        ByteInstr::decode(b).semantics() == opcode_op(b),
        CBByteInstr::decode(b).semantics() == cb_opcode_op(b),
{
    lemma_follows_map(b);
    reveal(follows_map);
}

/// Every opcode byte decodes to the instruction the SM83 opcode map gives
/// it, with and without the 0xCB prefix.
pub proof fn law_decode_follows_opcode_map()
    ensures
        forall|b: u8| #[trigger] ByteInstr::decode(b).semantics() == opcode_op(b),
        forall|b: u8| #[trigger] CBByteInstr::decode(b).semantics() == cb_opcode_op(b),
{
    assert forall|b: u8| #[trigger] ByteInstr::decode(b).semantics() == opcode_op(b) by {
        lemma_decodes(b);
    }
    assert forall|b: u8| #[trigger] CBByteInstr::decode(b).semantics() == cb_opcode_op(b) by {
        lemma_decodes(b);
    }
}

} // verus!
