use vstd::prelude::*;
use super::registers::{Flag, Flags, R16, R8};

verus! {

/// An 8-bit operand of an instruction.
#[derive(Copy, Clone, Debug, PartialEq, Eq, Structural)]
pub enum Operand8 {
    /// A register
    Reg(R8),
    /// The byte at the address a register pair holds
    Ind(R16),
    /// The byte at HL; HL is incremented afterwards
    HLi,
    /// The byte at HL; HL is decremented afterwards
    HLd,
    /// The byte following the opcode
    Imm8,
    /// The byte at the 16-bit address following the opcode
    ImmAddr,
    /// The byte at 0xFF00 plus the byte following the opcode
    HighImm8,
    /// The byte at 0xFF00 plus register C
    HighC,
}

/// The condition of a conditional jump, call or return.
#[derive(Copy, Clone, Debug, PartialEq, Eq, Structural)]
pub enum Cond {
    Always,
    NZ,
    Z,
    NC,
    C,
}

impl Cond {
    pub open spec fn holds(self, f: Flags) -> bool {
        match self {
            Cond::Always => true,
            Cond::NZ => !f.get(Flag::Z),
            Cond::Z => f.get(Flag::Z),
            Cond::NC => !f.get(Flag::C),
            Cond::C => f.get(Flag::C),
        }
    }

    pub fn check(self, f: &Flags) -> (r: bool)
        ensures
            r == self.holds(*f),
    {
        match self {
            Cond::Always => true,
            Cond::NZ => !f.contains(Flag::Z),
            Cond::Z => f.contains(Flag::Z),
            Cond::NC => !f.contains(Flag::C),
            Cond::C => f.contains(Flag::C),
        }
    }
}

/// The arithmetic and logic operations on A.
#[derive(Copy, Clone, Debug, PartialEq, Eq, Structural)]
pub enum AluOp {
    Add,
    Adc,
    Sub,
    Sbc,
    And,
    Xor,
    Or,
    Cp,
}

/// What an instruction does, with its operands.
#[derive(Copy, Clone, Debug, PartialEq, Eq, Structural)]
pub enum Op {
    Nop,
    /// LD dst, src
    Ld8(Operand8, Operand8),
    LdRrD16(R16),
    LdA16Sp,
    LdSpHl,
    LdHlSpR8,
    Inc8(Operand8),
    Dec8(Operand8),
    IncRr(R16),
    DecRr(R16),
    AddHlRr(R16),
    AddSpR8,
    Rlca,
    Rrca,
    Rla,
    Rra,
    Daa,
    Cpl,
    Scf,
    Ccf,
    Alu(AluOp, Operand8),
    Jr(Cond),
    Jp(Cond),
    JpHl,
    Call(Cond),
    Ret,
    Reti,
    RetCond(Cond),
    Rst(u16),
    Push(R16),
    Pop(R16),
    PopAf,
    Halt,
    Stop,
    /// One of the unused opcodes
    Stuck,
    Di,
    Ei,
    PrefixCb,
}

/// The operations of the instructions behind the 0xCB prefix.
#[derive(Copy, Clone, Debug, PartialEq, Eq, Structural)]
pub enum CbOp {
    Rlc,
    Rrc,
    Rl,
    Rr,
    Sla,
    Sra,
    Swap,
    Srl,
    Bit(u8),
    Res(u8),
    SetBit(u8),
}

/// The kind of operand bytes that follow an opcode.
#[derive(Copy, Clone, Debug, PartialEq, Eq, Structural)]
pub enum OperandType {
    /// 8 bit arbitrary data
    D8,
    /// 16 bit arbitrary data
    D16,
    /// Unsigned lower 8 bits of an address, with the upper 8 bits being 0xFF
    A8,
    /// Unsigned memory address
    A16,
    /// 2s complement signed 8 bit address offset
    R8,
    /// Instruction with a 0xCB prefix
    PrefixInstr,
    /// Since the STOP instruction is two bytes long, we treat the second
    /// byte as an operand. If the second byte is not 0x00, we call the
    /// STOP instruction 'corrupted STOP'. It does weird stuff.
    StopOperand,
}

impl Operand8 {
    /// The operand bytes that follow the opcode for this operand, if any.
    pub open spec fn immediate(self) -> Option<OperandType> {
        match self {
            Operand8::Imm8 => Some(OperandType::D8),
            Operand8::ImmAddr => Some(OperandType::A16),
            Operand8::HighImm8 => Some(OperandType::A8),
            _ => None,
        }
    }
}

impl Op {
    /// The operand bytes that follow the opcode of an instruction doing `self`.
    pub open spec fn operand(self) -> Option<OperandType> {
        match self {
            Op::Ld8(d, s) => if d.immediate() is Some { d.immediate() } else { s.immediate() },
            Op::Inc8(t) => t.immediate(),
            Op::Dec8(t) => t.immediate(),
            Op::Alu(_, s) => s.immediate(),
            Op::LdRrD16(_) => Some(OperandType::D16),
            Op::LdA16Sp => Some(OperandType::A16),
            Op::Jp(_) => Some(OperandType::A16),
            Op::Call(_) => Some(OperandType::A16),
            Op::Jr(_) => Some(OperandType::R8),
            Op::AddSpR8 => Some(OperandType::R8),
            Op::LdHlSpR8 => Some(OperandType::R8),
            Op::PrefixCb => Some(OperandType::PrefixInstr),
            Op::Stop => Some(OperandType::StopOperand),
            _ => None,
        }
    }

    /// Whether the instruction may continue somewhere else than after itself.
    pub open spec fn changes_control_flow(self) -> bool {
        match self {
            Op::Jr(_) | Op::Jp(_) | Op::JpHl | Op::Call(_) | Op::Ret | Op::Reti | Op::RetCond(_) | Op::Rst(_) => true,
            _ => false,
        }
    }
}

impl OperandType {
    pub open spec fn byte_len(self) -> u8 {
        match self {
            OperandType::D16 | OperandType::A16 => 2,
            _ => 1,
        }
    }

    /// Length of operand (without instruction) in bytes
    pub fn len(&self) -> (r: u8)
        ensures
            r == self.byte_len(),
    {
        match self {
            OperandType::D8 => 1,
            OperandType::D16 => 2,
            OperandType::A8 => 1,
            OperandType::A16 => 2,
            OperandType::R8 => 1,
            OperandType::PrefixInstr => 1,
            OperandType::StopOperand => 1,
        }
    }
}

/// The instructions, by opcode.
#[allow(non_camel_case_types)]
#[derive(Copy, Clone, Debug, PartialEq, Eq, Structural)]
pub enum ByteInstr {
    NOP,
    LD_BC_d16,
    LD_xBCx_A,
    INC_BC,
    INC_B,
    DEC_B,
    LD_B_d8,
    RLCA,
    LD_xa16x_SP,
    ADD_HL_BC,
    LD_A_xBCx,
    DEC_BC,
    INC_C,
    DEC_C,
    LD_C_d8,
    RRCA,
    STOP,
    LD_DE_d16,
    LD_xDEx_A,
    INC_DE,
    INC_D,
    DEC_D,
    LD_D_d8,
    RLA,
    JR_r8,
    ADD_HL_DE,
    LD_A_xDEx,
    DEC_DE,
    INC_E,
    DEC_E,
    LD_E_d8,
    RRA,
    JR_NZ_r8,
    LD_HL_d16,
    LD_xHLix_A,
    INC_HL,
    INC_H,
    DEC_H,
    LD_H_d8,
    DAA,
    JR_Z_r8,
    ADD_HL_HL,
    LD_A_xHLix,
    DEC_HL,
    INC_L,
    DEC_L,
    LD_L_d8,
    CPL,
    JR_NC_r8,
    LD_SP_d16,
    LD_xHLdx_A,
    INC_SP,
    INC_xHLx,
    DEC_xHLx,
    LD_xHLx_d8,
    SCF,
    JR_C_r8,
    ADD_HL_SP,
    LD_A_xHLdx,
    DEC_SP,
    INC_A,
    DEC_A,
    LD_A_d8,
    CCF,
    LD_B_B,
    LD_B_C,
    LD_B_D,
    LD_B_E,
    LD_B_H,
    LD_B_L,
    LD_B_xHLx,
    LD_B_A,
    LD_C_B,
    LD_C_C,
    LD_C_D,
    LD_C_E,
    LD_C_H,
    LD_C_L,
    LD_C_xHLx,
    LD_C_A,
    LD_D_B,
    LD_D_C,
    LD_D_D,
    LD_D_E,
    LD_D_H,
    LD_D_L,
    LD_D_xHLx,
    LD_D_A,
    LD_E_B,
    LD_E_C,
    LD_E_D,
    LD_E_E,
    LD_E_H,
    LD_E_L,
    LD_E_xHLx,
    LD_E_A,
    LD_H_B,
    LD_H_C,
    LD_H_D,
    LD_H_E,
    LD_H_H,
    LD_H_L,
    LD_H_xHLx,
    LD_H_A,
    LD_L_B,
    LD_L_C,
    LD_L_D,
    LD_L_E,
    LD_L_H,
    LD_L_L,
    LD_L_xHLx,
    LD_L_A,
    LD_xHLx_B,
    LD_xHLx_C,
    LD_xHLx_D,
    LD_xHLx_E,
    LD_xHLx_H,
    LD_xHLx_L,
    HALT,
    LD_xHLx_A,
    LD_A_B,
    LD_A_C,
    LD_A_D,
    LD_A_E,
    LD_A_H,
    LD_A_L,
    LD_A_xHLx,
    LD_A_A,
    ADD_A_B,
    ADD_A_C,
    ADD_A_D,
    ADD_A_E,
    ADD_A_H,
    ADD_A_L,
    ADD_A_xHLx,
    ADD_A_A,
    ADC_A_B,
    ADC_A_C,
    ADC_A_D,
    ADC_A_E,
    ADC_A_H,
    ADC_A_L,
    ADC_A_xHLx,
    ADC_A_A,
    SUB_B,
    SUB_C,
    SUB_D,
    SUB_E,
    SUB_H,
    SUB_L,
    SUB_xHLx,
    SUB_A,
    SBC_A_B,
    SBC_A_C,
    SBC_A_D,
    SBC_A_E,
    SBC_A_H,
    SBC_A_L,
    SBC_A_xHLx,
    SBC_A_A,
    AND_B,
    AND_C,
    AND_D,
    AND_E,
    AND_H,
    AND_L,
    AND_xHLx,
    AND_A,
    XOR_B,
    XOR_C,
    XOR_D,
    XOR_E,
    XOR_H,
    XOR_L,
    XOR_xHLx,
    XOR_A,
    OR_B,
    OR_C,
    OR_D,
    OR_E,
    OR_H,
    OR_L,
    OR_xHLx,
    OR_A,
    CP_B,
    CP_C,
    CP_D,
    CP_E,
    CP_H,
    CP_L,
    CP_xHLx,
    CP_A,
    RET_NZ,
    POP_BC,
    JP_NZ_a16,
    JP_a16,
    CALL_NZ_a16,
    PUSH_BC,
    ADD_A_d8,
    RST_00H,
    RET_Z,
    RET,
    JP_Z_a16,
    PREFIX_CB,
    CALL_Z_a16,
    CALL_a16,
    ADC_A_d8,
    RST_08H,
    RET_NC,
    POP_DE,
    JP_NC_a16,
    NOT_USED,
    CALL_NC_a16,
    PUSH_DE,
    SUB_d8,
    RST_10H,
    RET_C,
    RETI,
    JP_C_a16,
    NOT_USED_0,
    CALL_C_a16,
    NOT_USED_1,
    SBC_A_d8,
    RST_18H,
    LDH_xa8x_A,
    POP_HL,
    LD_xCx_A,
    NOT_USED_2,
    NOT_USED_3,
    PUSH_HL,
    AND_d8,
    RST_20H,
    ADD_SP_r8,
    JP_xHLx,
    LD_xa16x_A,
    NOT_USED_4,
    NOT_USED_5,
    NOT_USED_6,
    XOR_d8,
    RST_28H,
    LDH_A_xa8x,
    POP_AF,
    LD_A_xCx,
    DI,
    NOT_USED_7,
    PUSH_AF,
    OR_d8,
    RST_30H,
    LD_HL_SPpr8,
    LD_SP_HL,
    LD_A_xa16x,
    EI,
    NOT_USED_8,
    NOT_USED_9,
    CP_d8,
    RST_38H,
}

impl ByteInstr {
    /// The instruction with opcode `b`.
    pub open spec fn decode(b: u8) -> ByteInstr {
        match b {
            0x00 => ByteInstr::NOP,
            0x01 => ByteInstr::LD_BC_d16,
            0x02 => ByteInstr::LD_xBCx_A,
            0x03 => ByteInstr::INC_BC,
            0x04 => ByteInstr::INC_B,
            0x05 => ByteInstr::DEC_B,
            0x06 => ByteInstr::LD_B_d8,
            0x07 => ByteInstr::RLCA,
            0x08 => ByteInstr::LD_xa16x_SP,
            0x09 => ByteInstr::ADD_HL_BC,
            0x0A => ByteInstr::LD_A_xBCx,
            0x0B => ByteInstr::DEC_BC,
            0x0C => ByteInstr::INC_C,
            0x0D => ByteInstr::DEC_C,
            0x0E => ByteInstr::LD_C_d8,
            0x0F => ByteInstr::RRCA,
            0x10 => ByteInstr::STOP,
            0x11 => ByteInstr::LD_DE_d16,
            0x12 => ByteInstr::LD_xDEx_A,
            0x13 => ByteInstr::INC_DE,
            0x14 => ByteInstr::INC_D,
            0x15 => ByteInstr::DEC_D,
            0x16 => ByteInstr::LD_D_d8,
            0x17 => ByteInstr::RLA,
            0x18 => ByteInstr::JR_r8,
            0x19 => ByteInstr::ADD_HL_DE,
            0x1A => ByteInstr::LD_A_xDEx,
            0x1B => ByteInstr::DEC_DE,
            0x1C => ByteInstr::INC_E,
            0x1D => ByteInstr::DEC_E,
            0x1E => ByteInstr::LD_E_d8,
            0x1F => ByteInstr::RRA,
            0x20 => ByteInstr::JR_NZ_r8,
            0x21 => ByteInstr::LD_HL_d16,
            0x22 => ByteInstr::LD_xHLix_A,
            0x23 => ByteInstr::INC_HL,
            0x24 => ByteInstr::INC_H,
            0x25 => ByteInstr::DEC_H,
            0x26 => ByteInstr::LD_H_d8,
            0x27 => ByteInstr::DAA,
            0x28 => ByteInstr::JR_Z_r8,
            0x29 => ByteInstr::ADD_HL_HL,
            0x2A => ByteInstr::LD_A_xHLix,
            0x2B => ByteInstr::DEC_HL,
            0x2C => ByteInstr::INC_L,
            0x2D => ByteInstr::DEC_L,
            0x2E => ByteInstr::LD_L_d8,
            0x2F => ByteInstr::CPL,
            0x30 => ByteInstr::JR_NC_r8,
            0x31 => ByteInstr::LD_SP_d16,
            0x32 => ByteInstr::LD_xHLdx_A,
            0x33 => ByteInstr::INC_SP,
            0x34 => ByteInstr::INC_xHLx,
            0x35 => ByteInstr::DEC_xHLx,
            0x36 => ByteInstr::LD_xHLx_d8,
            0x37 => ByteInstr::SCF,
            0x38 => ByteInstr::JR_C_r8,
            0x39 => ByteInstr::ADD_HL_SP,
            0x3A => ByteInstr::LD_A_xHLdx,
            0x3B => ByteInstr::DEC_SP,
            0x3C => ByteInstr::INC_A,
            0x3D => ByteInstr::DEC_A,
            0x3E => ByteInstr::LD_A_d8,
            0x3F => ByteInstr::CCF,
            0x40 => ByteInstr::LD_B_B,
            0x41 => ByteInstr::LD_B_C,
            0x42 => ByteInstr::LD_B_D,
            0x43 => ByteInstr::LD_B_E,
            0x44 => ByteInstr::LD_B_H,
            0x45 => ByteInstr::LD_B_L,
            0x46 => ByteInstr::LD_B_xHLx,
            0x47 => ByteInstr::LD_B_A,
            0x48 => ByteInstr::LD_C_B,
            0x49 => ByteInstr::LD_C_C,
            0x4A => ByteInstr::LD_C_D,
            0x4B => ByteInstr::LD_C_E,
            0x4C => ByteInstr::LD_C_H,
            0x4D => ByteInstr::LD_C_L,
            0x4E => ByteInstr::LD_C_xHLx,
            0x4F => ByteInstr::LD_C_A,
            0x50 => ByteInstr::LD_D_B,
            0x51 => ByteInstr::LD_D_C,
            0x52 => ByteInstr::LD_D_D,
            0x53 => ByteInstr::LD_D_E,
            0x54 => ByteInstr::LD_D_H,
            0x55 => ByteInstr::LD_D_L,
            0x56 => ByteInstr::LD_D_xHLx,
            0x57 => ByteInstr::LD_D_A,
            0x58 => ByteInstr::LD_E_B,
            0x59 => ByteInstr::LD_E_C,
            0x5A => ByteInstr::LD_E_D,
            0x5B => ByteInstr::LD_E_E,
            0x5C => ByteInstr::LD_E_H,
            0x5D => ByteInstr::LD_E_L,
            0x5E => ByteInstr::LD_E_xHLx,
            0x5F => ByteInstr::LD_E_A,
            0x60 => ByteInstr::LD_H_B,
            0x61 => ByteInstr::LD_H_C,
            0x62 => ByteInstr::LD_H_D,
            0x63 => ByteInstr::LD_H_E,
            0x64 => ByteInstr::LD_H_H,
            0x65 => ByteInstr::LD_H_L,
            0x66 => ByteInstr::LD_H_xHLx,
            0x67 => ByteInstr::LD_H_A,
            0x68 => ByteInstr::LD_L_B,
            0x69 => ByteInstr::LD_L_C,
            0x6A => ByteInstr::LD_L_D,
            0x6B => ByteInstr::LD_L_E,
            0x6C => ByteInstr::LD_L_H,
            0x6D => ByteInstr::LD_L_L,
            0x6E => ByteInstr::LD_L_xHLx,
            0x6F => ByteInstr::LD_L_A,
            0x70 => ByteInstr::LD_xHLx_B,
            0x71 => ByteInstr::LD_xHLx_C,
            0x72 => ByteInstr::LD_xHLx_D,
            0x73 => ByteInstr::LD_xHLx_E,
            0x74 => ByteInstr::LD_xHLx_H,
            0x75 => ByteInstr::LD_xHLx_L,
            0x76 => ByteInstr::HALT,
            0x77 => ByteInstr::LD_xHLx_A,
            0x78 => ByteInstr::LD_A_B,
            0x79 => ByteInstr::LD_A_C,
            0x7A => ByteInstr::LD_A_D,
            0x7B => ByteInstr::LD_A_E,
            0x7C => ByteInstr::LD_A_H,
            0x7D => ByteInstr::LD_A_L,
            0x7E => ByteInstr::LD_A_xHLx,
            0x7F => ByteInstr::LD_A_A,
            0x80 => ByteInstr::ADD_A_B,
            0x81 => ByteInstr::ADD_A_C,
            0x82 => ByteInstr::ADD_A_D,
            0x83 => ByteInstr::ADD_A_E,
            0x84 => ByteInstr::ADD_A_H,
            0x85 => ByteInstr::ADD_A_L,
            0x86 => ByteInstr::ADD_A_xHLx,
            0x87 => ByteInstr::ADD_A_A,
            0x88 => ByteInstr::ADC_A_B,
            0x89 => ByteInstr::ADC_A_C,
            0x8A => ByteInstr::ADC_A_D,
            0x8B => ByteInstr::ADC_A_E,
            0x8C => ByteInstr::ADC_A_H,
            0x8D => ByteInstr::ADC_A_L,
            0x8E => ByteInstr::ADC_A_xHLx,
            0x8F => ByteInstr::ADC_A_A,
            0x90 => ByteInstr::SUB_B,
            0x91 => ByteInstr::SUB_C,
            0x92 => ByteInstr::SUB_D,
            0x93 => ByteInstr::SUB_E,
            0x94 => ByteInstr::SUB_H,
            0x95 => ByteInstr::SUB_L,
            0x96 => ByteInstr::SUB_xHLx,
            0x97 => ByteInstr::SUB_A,
            0x98 => ByteInstr::SBC_A_B,
            0x99 => ByteInstr::SBC_A_C,
            0x9A => ByteInstr::SBC_A_D,
            0x9B => ByteInstr::SBC_A_E,
            0x9C => ByteInstr::SBC_A_H,
            0x9D => ByteInstr::SBC_A_L,
            0x9E => ByteInstr::SBC_A_xHLx,
            0x9F => ByteInstr::SBC_A_A,
            0xA0 => ByteInstr::AND_B,
            0xA1 => ByteInstr::AND_C,
            0xA2 => ByteInstr::AND_D,
            0xA3 => ByteInstr::AND_E,
            0xA4 => ByteInstr::AND_H,
            0xA5 => ByteInstr::AND_L,
            0xA6 => ByteInstr::AND_xHLx,
            0xA7 => ByteInstr::AND_A,
            0xA8 => ByteInstr::XOR_B,
            0xA9 => ByteInstr::XOR_C,
            0xAA => ByteInstr::XOR_D,
            0xAB => ByteInstr::XOR_E,
            0xAC => ByteInstr::XOR_H,
            0xAD => ByteInstr::XOR_L,
            0xAE => ByteInstr::XOR_xHLx,
            0xAF => ByteInstr::XOR_A,
            0xB0 => ByteInstr::OR_B,
            0xB1 => ByteInstr::OR_C,
            0xB2 => ByteInstr::OR_D,
            0xB3 => ByteInstr::OR_E,
            0xB4 => ByteInstr::OR_H,
            0xB5 => ByteInstr::OR_L,
            0xB6 => ByteInstr::OR_xHLx,
            0xB7 => ByteInstr::OR_A,
            0xB8 => ByteInstr::CP_B,
            0xB9 => ByteInstr::CP_C,
            0xBA => ByteInstr::CP_D,
            0xBB => ByteInstr::CP_E,
            0xBC => ByteInstr::CP_H,
            0xBD => ByteInstr::CP_L,
            0xBE => ByteInstr::CP_xHLx,
            0xBF => ByteInstr::CP_A,
            0xC0 => ByteInstr::RET_NZ,
            0xC1 => ByteInstr::POP_BC,
            0xC2 => ByteInstr::JP_NZ_a16,
            0xC3 => ByteInstr::JP_a16,
            0xC4 => ByteInstr::CALL_NZ_a16,
            0xC5 => ByteInstr::PUSH_BC,
            0xC6 => ByteInstr::ADD_A_d8,
            0xC7 => ByteInstr::RST_00H,
            0xC8 => ByteInstr::RET_Z,
            0xC9 => ByteInstr::RET,
            0xCA => ByteInstr::JP_Z_a16,
            0xCB => ByteInstr::PREFIX_CB,
            0xCC => ByteInstr::CALL_Z_a16,
            0xCD => ByteInstr::CALL_a16,
            0xCE => ByteInstr::ADC_A_d8,
            0xCF => ByteInstr::RST_08H,
            0xD0 => ByteInstr::RET_NC,
            0xD1 => ByteInstr::POP_DE,
            0xD2 => ByteInstr::JP_NC_a16,
            0xD3 => ByteInstr::NOT_USED,
            0xD4 => ByteInstr::CALL_NC_a16,
            0xD5 => ByteInstr::PUSH_DE,
            0xD6 => ByteInstr::SUB_d8,
            0xD7 => ByteInstr::RST_10H,
            0xD8 => ByteInstr::RET_C,
            0xD9 => ByteInstr::RETI,
            0xDA => ByteInstr::JP_C_a16,
            0xDB => ByteInstr::NOT_USED_0,
            0xDC => ByteInstr::CALL_C_a16,
            0xDD => ByteInstr::NOT_USED_1,
            0xDE => ByteInstr::SBC_A_d8,
            0xDF => ByteInstr::RST_18H,
            0xE0 => ByteInstr::LDH_xa8x_A,
            0xE1 => ByteInstr::POP_HL,
            0xE2 => ByteInstr::LD_xCx_A,
            0xE3 => ByteInstr::NOT_USED_2,
            0xE4 => ByteInstr::NOT_USED_3,
            0xE5 => ByteInstr::PUSH_HL,
            0xE6 => ByteInstr::AND_d8,
            0xE7 => ByteInstr::RST_20H,
            0xE8 => ByteInstr::ADD_SP_r8,
            0xE9 => ByteInstr::JP_xHLx,
            0xEA => ByteInstr::LD_xa16x_A,
            0xEB => ByteInstr::NOT_USED_4,
            0xEC => ByteInstr::NOT_USED_5,
            0xED => ByteInstr::NOT_USED_6,
            0xEE => ByteInstr::XOR_d8,
            0xEF => ByteInstr::RST_28H,
            0xF0 => ByteInstr::LDH_A_xa8x,
            0xF1 => ByteInstr::POP_AF,
            0xF2 => ByteInstr::LD_A_xCx,
            0xF3 => ByteInstr::DI,
            0xF4 => ByteInstr::NOT_USED_7,
            0xF5 => ByteInstr::PUSH_AF,
            0xF6 => ByteInstr::OR_d8,
            0xF7 => ByteInstr::RST_30H,
            0xF8 => ByteInstr::LD_HL_SPpr8,
            0xF9 => ByteInstr::LD_SP_HL,
            0xFA => ByteInstr::LD_A_xa16x,
            0xFB => ByteInstr::EI,
            0xFC => ByteInstr::NOT_USED_8,
            0xFD => ByteInstr::NOT_USED_9,
            0xFE => ByteInstr::CP_d8,
            _ => ByteInstr::RST_38H,
        }
    }

    pub fn from_u8(b: u8) -> (r: ByteInstr)
        ensures
            r == ByteInstr::decode(b),
    {
        match b {
            0x00 => ByteInstr::NOP,
            0x01 => ByteInstr::LD_BC_d16,
            0x02 => ByteInstr::LD_xBCx_A,
            0x03 => ByteInstr::INC_BC,
            0x04 => ByteInstr::INC_B,
            0x05 => ByteInstr::DEC_B,
            0x06 => ByteInstr::LD_B_d8,
            0x07 => ByteInstr::RLCA,
            0x08 => ByteInstr::LD_xa16x_SP,
            0x09 => ByteInstr::ADD_HL_BC,
            0x0A => ByteInstr::LD_A_xBCx,
            0x0B => ByteInstr::DEC_BC,
            0x0C => ByteInstr::INC_C,
            0x0D => ByteInstr::DEC_C,
            0x0E => ByteInstr::LD_C_d8,
            0x0F => ByteInstr::RRCA,
            0x10 => ByteInstr::STOP,
            0x11 => ByteInstr::LD_DE_d16,
            0x12 => ByteInstr::LD_xDEx_A,
            0x13 => ByteInstr::INC_DE,
            0x14 => ByteInstr::INC_D,
            0x15 => ByteInstr::DEC_D,
            0x16 => ByteInstr::LD_D_d8,
            0x17 => ByteInstr::RLA,
            0x18 => ByteInstr::JR_r8,
            0x19 => ByteInstr::ADD_HL_DE,
            0x1A => ByteInstr::LD_A_xDEx,
            0x1B => ByteInstr::DEC_DE,
            0x1C => ByteInstr::INC_E,
            0x1D => ByteInstr::DEC_E,
            0x1E => ByteInstr::LD_E_d8,
            0x1F => ByteInstr::RRA,
            0x20 => ByteInstr::JR_NZ_r8,
            0x21 => ByteInstr::LD_HL_d16,
            0x22 => ByteInstr::LD_xHLix_A,
            0x23 => ByteInstr::INC_HL,
            0x24 => ByteInstr::INC_H,
            0x25 => ByteInstr::DEC_H,
            0x26 => ByteInstr::LD_H_d8,
            0x27 => ByteInstr::DAA,
            0x28 => ByteInstr::JR_Z_r8,
            0x29 => ByteInstr::ADD_HL_HL,
            0x2A => ByteInstr::LD_A_xHLix,
            0x2B => ByteInstr::DEC_HL,
            0x2C => ByteInstr::INC_L,
            0x2D => ByteInstr::DEC_L,
            0x2E => ByteInstr::LD_L_d8,
            0x2F => ByteInstr::CPL,
            0x30 => ByteInstr::JR_NC_r8,
            0x31 => ByteInstr::LD_SP_d16,
            0x32 => ByteInstr::LD_xHLdx_A,
            0x33 => ByteInstr::INC_SP,
            0x34 => ByteInstr::INC_xHLx,
            0x35 => ByteInstr::DEC_xHLx,
            0x36 => ByteInstr::LD_xHLx_d8,
            0x37 => ByteInstr::SCF,
            0x38 => ByteInstr::JR_C_r8,
            0x39 => ByteInstr::ADD_HL_SP,
            0x3A => ByteInstr::LD_A_xHLdx,
            0x3B => ByteInstr::DEC_SP,
            0x3C => ByteInstr::INC_A,
            0x3D => ByteInstr::DEC_A,
            0x3E => ByteInstr::LD_A_d8,
            0x3F => ByteInstr::CCF,
            0x40 => ByteInstr::LD_B_B,
            0x41 => ByteInstr::LD_B_C,
            0x42 => ByteInstr::LD_B_D,
            0x43 => ByteInstr::LD_B_E,
            0x44 => ByteInstr::LD_B_H,
            0x45 => ByteInstr::LD_B_L,
            0x46 => ByteInstr::LD_B_xHLx,
            0x47 => ByteInstr::LD_B_A,
            0x48 => ByteInstr::LD_C_B,
            0x49 => ByteInstr::LD_C_C,
            0x4A => ByteInstr::LD_C_D,
            0x4B => ByteInstr::LD_C_E,
            0x4C => ByteInstr::LD_C_H,
            0x4D => ByteInstr::LD_C_L,
            0x4E => ByteInstr::LD_C_xHLx,
            0x4F => ByteInstr::LD_C_A,
            0x50 => ByteInstr::LD_D_B,
            0x51 => ByteInstr::LD_D_C,
            0x52 => ByteInstr::LD_D_D,
            0x53 => ByteInstr::LD_D_E,
            0x54 => ByteInstr::LD_D_H,
            0x55 => ByteInstr::LD_D_L,
            0x56 => ByteInstr::LD_D_xHLx,
            0x57 => ByteInstr::LD_D_A,
            0x58 => ByteInstr::LD_E_B,
            0x59 => ByteInstr::LD_E_C,
            0x5A => ByteInstr::LD_E_D,
            0x5B => ByteInstr::LD_E_E,
            0x5C => ByteInstr::LD_E_H,
            0x5D => ByteInstr::LD_E_L,
            0x5E => ByteInstr::LD_E_xHLx,
            0x5F => ByteInstr::LD_E_A,
            0x60 => ByteInstr::LD_H_B,
            0x61 => ByteInstr::LD_H_C,
            0x62 => ByteInstr::LD_H_D,
            0x63 => ByteInstr::LD_H_E,
            0x64 => ByteInstr::LD_H_H,
            0x65 => ByteInstr::LD_H_L,
            0x66 => ByteInstr::LD_H_xHLx,
            0x67 => ByteInstr::LD_H_A,
            0x68 => ByteInstr::LD_L_B,
            0x69 => ByteInstr::LD_L_C,
            0x6A => ByteInstr::LD_L_D,
            0x6B => ByteInstr::LD_L_E,
            0x6C => ByteInstr::LD_L_H,
            0x6D => ByteInstr::LD_L_L,
            0x6E => ByteInstr::LD_L_xHLx,
            0x6F => ByteInstr::LD_L_A,
            0x70 => ByteInstr::LD_xHLx_B,
            0x71 => ByteInstr::LD_xHLx_C,
            0x72 => ByteInstr::LD_xHLx_D,
            0x73 => ByteInstr::LD_xHLx_E,
            0x74 => ByteInstr::LD_xHLx_H,
            0x75 => ByteInstr::LD_xHLx_L,
            0x76 => ByteInstr::HALT,
            0x77 => ByteInstr::LD_xHLx_A,
            0x78 => ByteInstr::LD_A_B,
            0x79 => ByteInstr::LD_A_C,
            0x7A => ByteInstr::LD_A_D,
            0x7B => ByteInstr::LD_A_E,
            0x7C => ByteInstr::LD_A_H,
            0x7D => ByteInstr::LD_A_L,
            0x7E => ByteInstr::LD_A_xHLx,
            0x7F => ByteInstr::LD_A_A,
            0x80 => ByteInstr::ADD_A_B,
            0x81 => ByteInstr::ADD_A_C,
            0x82 => ByteInstr::ADD_A_D,
            0x83 => ByteInstr::ADD_A_E,
            0x84 => ByteInstr::ADD_A_H,
            0x85 => ByteInstr::ADD_A_L,
            0x86 => ByteInstr::ADD_A_xHLx,
            0x87 => ByteInstr::ADD_A_A,
            0x88 => ByteInstr::ADC_A_B,
            0x89 => ByteInstr::ADC_A_C,
            0x8A => ByteInstr::ADC_A_D,
            0x8B => ByteInstr::ADC_A_E,
            0x8C => ByteInstr::ADC_A_H,
            0x8D => ByteInstr::ADC_A_L,
            0x8E => ByteInstr::ADC_A_xHLx,
            0x8F => ByteInstr::ADC_A_A,
            0x90 => ByteInstr::SUB_B,
            0x91 => ByteInstr::SUB_C,
            0x92 => ByteInstr::SUB_D,
            0x93 => ByteInstr::SUB_E,
            0x94 => ByteInstr::SUB_H,
            0x95 => ByteInstr::SUB_L,
            0x96 => ByteInstr::SUB_xHLx,
            0x97 => ByteInstr::SUB_A,
            0x98 => ByteInstr::SBC_A_B,
            0x99 => ByteInstr::SBC_A_C,
            0x9A => ByteInstr::SBC_A_D,
            0x9B => ByteInstr::SBC_A_E,
            0x9C => ByteInstr::SBC_A_H,
            0x9D => ByteInstr::SBC_A_L,
            0x9E => ByteInstr::SBC_A_xHLx,
            0x9F => ByteInstr::SBC_A_A,
            0xA0 => ByteInstr::AND_B,
            0xA1 => ByteInstr::AND_C,
            0xA2 => ByteInstr::AND_D,
            0xA3 => ByteInstr::AND_E,
            0xA4 => ByteInstr::AND_H,
            0xA5 => ByteInstr::AND_L,
            0xA6 => ByteInstr::AND_xHLx,
            0xA7 => ByteInstr::AND_A,
            0xA8 => ByteInstr::XOR_B,
            0xA9 => ByteInstr::XOR_C,
            0xAA => ByteInstr::XOR_D,
            0xAB => ByteInstr::XOR_E,
            0xAC => ByteInstr::XOR_H,
            0xAD => ByteInstr::XOR_L,
            0xAE => ByteInstr::XOR_xHLx,
            0xAF => ByteInstr::XOR_A,
            0xB0 => ByteInstr::OR_B,
            0xB1 => ByteInstr::OR_C,
            0xB2 => ByteInstr::OR_D,
            0xB3 => ByteInstr::OR_E,
            0xB4 => ByteInstr::OR_H,
            0xB5 => ByteInstr::OR_L,
            0xB6 => ByteInstr::OR_xHLx,
            0xB7 => ByteInstr::OR_A,
            0xB8 => ByteInstr::CP_B,
            0xB9 => ByteInstr::CP_C,
            0xBA => ByteInstr::CP_D,
            0xBB => ByteInstr::CP_E,
            0xBC => ByteInstr::CP_H,
            0xBD => ByteInstr::CP_L,
            0xBE => ByteInstr::CP_xHLx,
            0xBF => ByteInstr::CP_A,
            0xC0 => ByteInstr::RET_NZ,
            0xC1 => ByteInstr::POP_BC,
            0xC2 => ByteInstr::JP_NZ_a16,
            0xC3 => ByteInstr::JP_a16,
            0xC4 => ByteInstr::CALL_NZ_a16,
            0xC5 => ByteInstr::PUSH_BC,
            0xC6 => ByteInstr::ADD_A_d8,
            0xC7 => ByteInstr::RST_00H,
            0xC8 => ByteInstr::RET_Z,
            0xC9 => ByteInstr::RET,
            0xCA => ByteInstr::JP_Z_a16,
            0xCB => ByteInstr::PREFIX_CB,
            0xCC => ByteInstr::CALL_Z_a16,
            0xCD => ByteInstr::CALL_a16,
            0xCE => ByteInstr::ADC_A_d8,
            0xCF => ByteInstr::RST_08H,
            0xD0 => ByteInstr::RET_NC,
            0xD1 => ByteInstr::POP_DE,
            0xD2 => ByteInstr::JP_NC_a16,
            0xD3 => ByteInstr::NOT_USED,
            0xD4 => ByteInstr::CALL_NC_a16,
            0xD5 => ByteInstr::PUSH_DE,
            0xD6 => ByteInstr::SUB_d8,
            0xD7 => ByteInstr::RST_10H,
            0xD8 => ByteInstr::RET_C,
            0xD9 => ByteInstr::RETI,
            0xDA => ByteInstr::JP_C_a16,
            0xDB => ByteInstr::NOT_USED_0,
            0xDC => ByteInstr::CALL_C_a16,
            0xDD => ByteInstr::NOT_USED_1,
            0xDE => ByteInstr::SBC_A_d8,
            0xDF => ByteInstr::RST_18H,
            0xE0 => ByteInstr::LDH_xa8x_A,
            0xE1 => ByteInstr::POP_HL,
            0xE2 => ByteInstr::LD_xCx_A,
            0xE3 => ByteInstr::NOT_USED_2,
            0xE4 => ByteInstr::NOT_USED_3,
            0xE5 => ByteInstr::PUSH_HL,
            0xE6 => ByteInstr::AND_d8,
            0xE7 => ByteInstr::RST_20H,
            0xE8 => ByteInstr::ADD_SP_r8,
            0xE9 => ByteInstr::JP_xHLx,
            0xEA => ByteInstr::LD_xa16x_A,
            0xEB => ByteInstr::NOT_USED_4,
            0xEC => ByteInstr::NOT_USED_5,
            0xED => ByteInstr::NOT_USED_6,
            0xEE => ByteInstr::XOR_d8,
            0xEF => ByteInstr::RST_28H,
            0xF0 => ByteInstr::LDH_A_xa8x,
            0xF1 => ByteInstr::POP_AF,
            0xF2 => ByteInstr::LD_A_xCx,
            0xF3 => ByteInstr::DI,
            0xF4 => ByteInstr::NOT_USED_7,
            0xF5 => ByteInstr::PUSH_AF,
            0xF6 => ByteInstr::OR_d8,
            0xF7 => ByteInstr::RST_30H,
            0xF8 => ByteInstr::LD_HL_SPpr8,
            0xF9 => ByteInstr::LD_SP_HL,
            0xFA => ByteInstr::LD_A_xa16x,
            0xFB => ByteInstr::EI,
            0xFC => ByteInstr::NOT_USED_8,
            0xFD => ByteInstr::NOT_USED_9,
            0xFE => ByteInstr::CP_d8,
            _ => ByteInstr::RST_38H,
        }
    }

    /// What the instruction does.
    pub open spec fn semantics(self) -> Op {
        match self {
            ByteInstr::NOP => Op::Nop,
            ByteInstr::LD_BC_d16 => Op::LdRrD16(R16::BC),
            ByteInstr::LD_xBCx_A => Op::Ld8(Operand8::Ind(R16::BC), Operand8::Reg(R8::A)),
            ByteInstr::INC_BC => Op::IncRr(R16::BC),
            ByteInstr::INC_B => Op::Inc8(Operand8::Reg(R8::B)),
            ByteInstr::DEC_B => Op::Dec8(Operand8::Reg(R8::B)),
            ByteInstr::LD_B_d8 => Op::Ld8(Operand8::Reg(R8::B), Operand8::Imm8),
            ByteInstr::RLCA => Op::Rlca,
            ByteInstr::LD_xa16x_SP => Op::LdA16Sp,
            ByteInstr::ADD_HL_BC => Op::AddHlRr(R16::BC),
            ByteInstr::LD_A_xBCx => Op::Ld8(Operand8::Reg(R8::A), Operand8::Ind(R16::BC)),
            ByteInstr::DEC_BC => Op::DecRr(R16::BC),
            ByteInstr::INC_C => Op::Inc8(Operand8::Reg(R8::C)),
            ByteInstr::DEC_C => Op::Dec8(Operand8::Reg(R8::C)),
            ByteInstr::LD_C_d8 => Op::Ld8(Operand8::Reg(R8::C), Operand8::Imm8),
            ByteInstr::RRCA => Op::Rrca,
            ByteInstr::STOP => Op::Stop,
            ByteInstr::LD_DE_d16 => Op::LdRrD16(R16::DE),
            ByteInstr::LD_xDEx_A => Op::Ld8(Operand8::Ind(R16::DE), Operand8::Reg(R8::A)),
            ByteInstr::INC_DE => Op::IncRr(R16::DE),
            ByteInstr::INC_D => Op::Inc8(Operand8::Reg(R8::D)),
            ByteInstr::DEC_D => Op::Dec8(Operand8::Reg(R8::D)),
            ByteInstr::LD_D_d8 => Op::Ld8(Operand8::Reg(R8::D), Operand8::Imm8),
            ByteInstr::RLA => Op::Rla,
            ByteInstr::JR_r8 => Op::Jr(Cond::Always),
            ByteInstr::ADD_HL_DE => Op::AddHlRr(R16::DE),
            ByteInstr::LD_A_xDEx => Op::Ld8(Operand8::Reg(R8::A), Operand8::Ind(R16::DE)),
            ByteInstr::DEC_DE => Op::DecRr(R16::DE),
            ByteInstr::INC_E => Op::Inc8(Operand8::Reg(R8::E)),
            ByteInstr::DEC_E => Op::Dec8(Operand8::Reg(R8::E)),
            ByteInstr::LD_E_d8 => Op::Ld8(Operand8::Reg(R8::E), Operand8::Imm8),
            ByteInstr::RRA => Op::Rra,
            ByteInstr::JR_NZ_r8 => Op::Jr(Cond::NZ),
            ByteInstr::LD_HL_d16 => Op::LdRrD16(R16::HL),
            ByteInstr::LD_xHLix_A => Op::Ld8(Operand8::HLi, Operand8::Reg(R8::A)),
            ByteInstr::INC_HL => Op::IncRr(R16::HL),
            ByteInstr::INC_H => Op::Inc8(Operand8::Reg(R8::H)),
            ByteInstr::DEC_H => Op::Dec8(Operand8::Reg(R8::H)),
            ByteInstr::LD_H_d8 => Op::Ld8(Operand8::Reg(R8::H), Operand8::Imm8),
            ByteInstr::DAA => Op::Daa,
            ByteInstr::JR_Z_r8 => Op::Jr(Cond::Z),
            ByteInstr::ADD_HL_HL => Op::AddHlRr(R16::HL),
            ByteInstr::LD_A_xHLix => Op::Ld8(Operand8::Reg(R8::A), Operand8::HLi),
            ByteInstr::DEC_HL => Op::DecRr(R16::HL),
            ByteInstr::INC_L => Op::Inc8(Operand8::Reg(R8::L)),
            ByteInstr::DEC_L => Op::Dec8(Operand8::Reg(R8::L)),
            ByteInstr::LD_L_d8 => Op::Ld8(Operand8::Reg(R8::L), Operand8::Imm8),
            ByteInstr::CPL => Op::Cpl,
            ByteInstr::JR_NC_r8 => Op::Jr(Cond::NC),
            ByteInstr::LD_SP_d16 => Op::LdRrD16(R16::SP),
            ByteInstr::LD_xHLdx_A => Op::Ld8(Operand8::HLd, Operand8::Reg(R8::A)),
            ByteInstr::INC_SP => Op::IncRr(R16::SP),
            ByteInstr::INC_xHLx => Op::Inc8(Operand8::Ind(R16::HL)),
            ByteInstr::DEC_xHLx => Op::Dec8(Operand8::Ind(R16::HL)),
            ByteInstr::LD_xHLx_d8 => Op::Ld8(Operand8::Ind(R16::HL), Operand8::Imm8),
            ByteInstr::SCF => Op::Scf,
            ByteInstr::JR_C_r8 => Op::Jr(Cond::C),
            ByteInstr::ADD_HL_SP => Op::AddHlRr(R16::SP),
            ByteInstr::LD_A_xHLdx => Op::Ld8(Operand8::Reg(R8::A), Operand8::HLd),
            ByteInstr::DEC_SP => Op::DecRr(R16::SP),
            ByteInstr::INC_A => Op::Inc8(Operand8::Reg(R8::A)),
            ByteInstr::DEC_A => Op::Dec8(Operand8::Reg(R8::A)),
            ByteInstr::LD_A_d8 => Op::Ld8(Operand8::Reg(R8::A), Operand8::Imm8),
            ByteInstr::CCF => Op::Ccf,
            ByteInstr::LD_B_B => Op::Ld8(Operand8::Reg(R8::B), Operand8::Reg(R8::B)),
            ByteInstr::LD_B_C => Op::Ld8(Operand8::Reg(R8::B), Operand8::Reg(R8::C)),
            ByteInstr::LD_B_D => Op::Ld8(Operand8::Reg(R8::B), Operand8::Reg(R8::D)),
            ByteInstr::LD_B_E => Op::Ld8(Operand8::Reg(R8::B), Operand8::Reg(R8::E)),
            ByteInstr::LD_B_H => Op::Ld8(Operand8::Reg(R8::B), Operand8::Reg(R8::H)),
            ByteInstr::LD_B_L => Op::Ld8(Operand8::Reg(R8::B), Operand8::Reg(R8::L)),
            ByteInstr::LD_B_xHLx => Op::Ld8(Operand8::Reg(R8::B), Operand8::Ind(R16::HL)),
            ByteInstr::LD_B_A => Op::Ld8(Operand8::Reg(R8::B), Operand8::Reg(R8::A)),
            ByteInstr::LD_C_B => Op::Ld8(Operand8::Reg(R8::C), Operand8::Reg(R8::B)),
            ByteInstr::LD_C_C => Op::Ld8(Operand8::Reg(R8::C), Operand8::Reg(R8::C)),
            ByteInstr::LD_C_D => Op::Ld8(Operand8::Reg(R8::C), Operand8::Reg(R8::D)),
            ByteInstr::LD_C_E => Op::Ld8(Operand8::Reg(R8::C), Operand8::Reg(R8::E)),
            ByteInstr::LD_C_H => Op::Ld8(Operand8::Reg(R8::C), Operand8::Reg(R8::H)),
            ByteInstr::LD_C_L => Op::Ld8(Operand8::Reg(R8::C), Operand8::Reg(R8::L)),
            ByteInstr::LD_C_xHLx => Op::Ld8(Operand8::Reg(R8::C), Operand8::Ind(R16::HL)),
            ByteInstr::LD_C_A => Op::Ld8(Operand8::Reg(R8::C), Operand8::Reg(R8::A)),
            ByteInstr::LD_D_B => Op::Ld8(Operand8::Reg(R8::D), Operand8::Reg(R8::B)),
            ByteInstr::LD_D_C => Op::Ld8(Operand8::Reg(R8::D), Operand8::Reg(R8::C)),
            ByteInstr::LD_D_D => Op::Ld8(Operand8::Reg(R8::D), Operand8::Reg(R8::D)),
            ByteInstr::LD_D_E => Op::Ld8(Operand8::Reg(R8::D), Operand8::Reg(R8::E)),
            ByteInstr::LD_D_H => Op::Ld8(Operand8::Reg(R8::D), Operand8::Reg(R8::H)),
            ByteInstr::LD_D_L => Op::Ld8(Operand8::Reg(R8::D), Operand8::Reg(R8::L)),
            ByteInstr::LD_D_xHLx => Op::Ld8(Operand8::Reg(R8::D), Operand8::Ind(R16::HL)),
            ByteInstr::LD_D_A => Op::Ld8(Operand8::Reg(R8::D), Operand8::Reg(R8::A)),
            ByteInstr::LD_E_B => Op::Ld8(Operand8::Reg(R8::E), Operand8::Reg(R8::B)),
            ByteInstr::LD_E_C => Op::Ld8(Operand8::Reg(R8::E), Operand8::Reg(R8::C)),
            ByteInstr::LD_E_D => Op::Ld8(Operand8::Reg(R8::E), Operand8::Reg(R8::D)),
            ByteInstr::LD_E_E => Op::Ld8(Operand8::Reg(R8::E), Operand8::Reg(R8::E)),
            ByteInstr::LD_E_H => Op::Ld8(Operand8::Reg(R8::E), Operand8::Reg(R8::H)),
            ByteInstr::LD_E_L => Op::Ld8(Operand8::Reg(R8::E), Operand8::Reg(R8::L)),
            ByteInstr::LD_E_xHLx => Op::Ld8(Operand8::Reg(R8::E), Operand8::Ind(R16::HL)),
            ByteInstr::LD_E_A => Op::Ld8(Operand8::Reg(R8::E), Operand8::Reg(R8::A)),
            ByteInstr::LD_H_B => Op::Ld8(Operand8::Reg(R8::H), Operand8::Reg(R8::B)),
            ByteInstr::LD_H_C => Op::Ld8(Operand8::Reg(R8::H), Operand8::Reg(R8::C)),
            ByteInstr::LD_H_D => Op::Ld8(Operand8::Reg(R8::H), Operand8::Reg(R8::D)),
            ByteInstr::LD_H_E => Op::Ld8(Operand8::Reg(R8::H), Operand8::Reg(R8::E)),
            ByteInstr::LD_H_H => Op::Ld8(Operand8::Reg(R8::H), Operand8::Reg(R8::H)),
            ByteInstr::LD_H_L => Op::Ld8(Operand8::Reg(R8::H), Operand8::Reg(R8::L)),
            ByteInstr::LD_H_xHLx => Op::Ld8(Operand8::Reg(R8::H), Operand8::Ind(R16::HL)),
            ByteInstr::LD_H_A => Op::Ld8(Operand8::Reg(R8::H), Operand8::Reg(R8::A)),
            ByteInstr::LD_L_B => Op::Ld8(Operand8::Reg(R8::L), Operand8::Reg(R8::B)),
            ByteInstr::LD_L_C => Op::Ld8(Operand8::Reg(R8::L), Operand8::Reg(R8::C)),
            ByteInstr::LD_L_D => Op::Ld8(Operand8::Reg(R8::L), Operand8::Reg(R8::D)),
            ByteInstr::LD_L_E => Op::Ld8(Operand8::Reg(R8::L), Operand8::Reg(R8::E)),
            ByteInstr::LD_L_H => Op::Ld8(Operand8::Reg(R8::L), Operand8::Reg(R8::H)),
            ByteInstr::LD_L_L => Op::Ld8(Operand8::Reg(R8::L), Operand8::Reg(R8::L)),
            ByteInstr::LD_L_xHLx => Op::Ld8(Operand8::Reg(R8::L), Operand8::Ind(R16::HL)),
            ByteInstr::LD_L_A => Op::Ld8(Operand8::Reg(R8::L), Operand8::Reg(R8::A)),
            ByteInstr::LD_xHLx_B => Op::Ld8(Operand8::Ind(R16::HL), Operand8::Reg(R8::B)),
            ByteInstr::LD_xHLx_C => Op::Ld8(Operand8::Ind(R16::HL), Operand8::Reg(R8::C)),
            ByteInstr::LD_xHLx_D => Op::Ld8(Operand8::Ind(R16::HL), Operand8::Reg(R8::D)),
            ByteInstr::LD_xHLx_E => Op::Ld8(Operand8::Ind(R16::HL), Operand8::Reg(R8::E)),
            ByteInstr::LD_xHLx_H => Op::Ld8(Operand8::Ind(R16::HL), Operand8::Reg(R8::H)),
            ByteInstr::LD_xHLx_L => Op::Ld8(Operand8::Ind(R16::HL), Operand8::Reg(R8::L)),
            ByteInstr::HALT => Op::Halt,
            ByteInstr::LD_xHLx_A => Op::Ld8(Operand8::Ind(R16::HL), Operand8::Reg(R8::A)),
            ByteInstr::LD_A_B => Op::Ld8(Operand8::Reg(R8::A), Operand8::Reg(R8::B)),
            ByteInstr::LD_A_C => Op::Ld8(Operand8::Reg(R8::A), Operand8::Reg(R8::C)),
            ByteInstr::LD_A_D => Op::Ld8(Operand8::Reg(R8::A), Operand8::Reg(R8::D)),
            ByteInstr::LD_A_E => Op::Ld8(Operand8::Reg(R8::A), Operand8::Reg(R8::E)),
            ByteInstr::LD_A_H => Op::Ld8(Operand8::Reg(R8::A), Operand8::Reg(R8::H)),
            ByteInstr::LD_A_L => Op::Ld8(Operand8::Reg(R8::A), Operand8::Reg(R8::L)),
            ByteInstr::LD_A_xHLx => Op::Ld8(Operand8::Reg(R8::A), Operand8::Ind(R16::HL)),
            ByteInstr::LD_A_A => Op::Ld8(Operand8::Reg(R8::A), Operand8::Reg(R8::A)),
            ByteInstr::ADD_A_B => Op::Alu(AluOp::Add, Operand8::Reg(R8::B)),
            ByteInstr::ADD_A_C => Op::Alu(AluOp::Add, Operand8::Reg(R8::C)),
            ByteInstr::ADD_A_D => Op::Alu(AluOp::Add, Operand8::Reg(R8::D)),
            ByteInstr::ADD_A_E => Op::Alu(AluOp::Add, Operand8::Reg(R8::E)),
            ByteInstr::ADD_A_H => Op::Alu(AluOp::Add, Operand8::Reg(R8::H)),
            ByteInstr::ADD_A_L => Op::Alu(AluOp::Add, Operand8::Reg(R8::L)),
            ByteInstr::ADD_A_xHLx => Op::Alu(AluOp::Add, Operand8::Ind(R16::HL)),
            ByteInstr::ADD_A_A => Op::Alu(AluOp::Add, Operand8::Reg(R8::A)),
            ByteInstr::ADC_A_B => Op::Alu(AluOp::Adc, Operand8::Reg(R8::B)),
            ByteInstr::ADC_A_C => Op::Alu(AluOp::Adc, Operand8::Reg(R8::C)),
            ByteInstr::ADC_A_D => Op::Alu(AluOp::Adc, Operand8::Reg(R8::D)),
            ByteInstr::ADC_A_E => Op::Alu(AluOp::Adc, Operand8::Reg(R8::E)),
            ByteInstr::ADC_A_H => Op::Alu(AluOp::Adc, Operand8::Reg(R8::H)),
            ByteInstr::ADC_A_L => Op::Alu(AluOp::Adc, Operand8::Reg(R8::L)),
            ByteInstr::ADC_A_xHLx => Op::Alu(AluOp::Adc, Operand8::Ind(R16::HL)),
            ByteInstr::ADC_A_A => Op::Alu(AluOp::Adc, Operand8::Reg(R8::A)),
            ByteInstr::SUB_B => Op::Alu(AluOp::Sub, Operand8::Reg(R8::B)),
            ByteInstr::SUB_C => Op::Alu(AluOp::Sub, Operand8::Reg(R8::C)),
            ByteInstr::SUB_D => Op::Alu(AluOp::Sub, Operand8::Reg(R8::D)),
            ByteInstr::SUB_E => Op::Alu(AluOp::Sub, Operand8::Reg(R8::E)),
            ByteInstr::SUB_H => Op::Alu(AluOp::Sub, Operand8::Reg(R8::H)),
            ByteInstr::SUB_L => Op::Alu(AluOp::Sub, Operand8::Reg(R8::L)),
            ByteInstr::SUB_xHLx => Op::Alu(AluOp::Sub, Operand8::Ind(R16::HL)),
            ByteInstr::SUB_A => Op::Alu(AluOp::Sub, Operand8::Reg(R8::A)),
            ByteInstr::SBC_A_B => Op::Alu(AluOp::Sbc, Operand8::Reg(R8::B)),
            ByteInstr::SBC_A_C => Op::Alu(AluOp::Sbc, Operand8::Reg(R8::C)),
            ByteInstr::SBC_A_D => Op::Alu(AluOp::Sbc, Operand8::Reg(R8::D)),
            ByteInstr::SBC_A_E => Op::Alu(AluOp::Sbc, Operand8::Reg(R8::E)),
            ByteInstr::SBC_A_H => Op::Alu(AluOp::Sbc, Operand8::Reg(R8::H)),
            ByteInstr::SBC_A_L => Op::Alu(AluOp::Sbc, Operand8::Reg(R8::L)),
            ByteInstr::SBC_A_xHLx => Op::Alu(AluOp::Sbc, Operand8::Ind(R16::HL)),
            ByteInstr::SBC_A_A => Op::Alu(AluOp::Sbc, Operand8::Reg(R8::A)),
            ByteInstr::AND_B => Op::Alu(AluOp::And, Operand8::Reg(R8::B)),
            ByteInstr::AND_C => Op::Alu(AluOp::And, Operand8::Reg(R8::C)),
            ByteInstr::AND_D => Op::Alu(AluOp::And, Operand8::Reg(R8::D)),
            ByteInstr::AND_E => Op::Alu(AluOp::And, Operand8::Reg(R8::E)),
            ByteInstr::AND_H => Op::Alu(AluOp::And, Operand8::Reg(R8::H)),
            ByteInstr::AND_L => Op::Alu(AluOp::And, Operand8::Reg(R8::L)),
            ByteInstr::AND_xHLx => Op::Alu(AluOp::And, Operand8::Ind(R16::HL)),
            ByteInstr::AND_A => Op::Alu(AluOp::And, Operand8::Reg(R8::A)),
            ByteInstr::XOR_B => Op::Alu(AluOp::Xor, Operand8::Reg(R8::B)),
            ByteInstr::XOR_C => Op::Alu(AluOp::Xor, Operand8::Reg(R8::C)),
            ByteInstr::XOR_D => Op::Alu(AluOp::Xor, Operand8::Reg(R8::D)),
            ByteInstr::XOR_E => Op::Alu(AluOp::Xor, Operand8::Reg(R8::E)),
            ByteInstr::XOR_H => Op::Alu(AluOp::Xor, Operand8::Reg(R8::H)),
            ByteInstr::XOR_L => Op::Alu(AluOp::Xor, Operand8::Reg(R8::L)),
            ByteInstr::XOR_xHLx => Op::Alu(AluOp::Xor, Operand8::Ind(R16::HL)),
            ByteInstr::XOR_A => Op::Alu(AluOp::Xor, Operand8::Reg(R8::A)),
            ByteInstr::OR_B => Op::Alu(AluOp::Or, Operand8::Reg(R8::B)),
            ByteInstr::OR_C => Op::Alu(AluOp::Or, Operand8::Reg(R8::C)),
            ByteInstr::OR_D => Op::Alu(AluOp::Or, Operand8::Reg(R8::D)),
            ByteInstr::OR_E => Op::Alu(AluOp::Or, Operand8::Reg(R8::E)),
            ByteInstr::OR_H => Op::Alu(AluOp::Or, Operand8::Reg(R8::H)),
            ByteInstr::OR_L => Op::Alu(AluOp::Or, Operand8::Reg(R8::L)),
            ByteInstr::OR_xHLx => Op::Alu(AluOp::Or, Operand8::Ind(R16::HL)),
            ByteInstr::OR_A => Op::Alu(AluOp::Or, Operand8::Reg(R8::A)),
            ByteInstr::CP_B => Op::Alu(AluOp::Cp, Operand8::Reg(R8::B)),
            ByteInstr::CP_C => Op::Alu(AluOp::Cp, Operand8::Reg(R8::C)),
            ByteInstr::CP_D => Op::Alu(AluOp::Cp, Operand8::Reg(R8::D)),
            ByteInstr::CP_E => Op::Alu(AluOp::Cp, Operand8::Reg(R8::E)),
            ByteInstr::CP_H => Op::Alu(AluOp::Cp, Operand8::Reg(R8::H)),
            ByteInstr::CP_L => Op::Alu(AluOp::Cp, Operand8::Reg(R8::L)),
            ByteInstr::CP_xHLx => Op::Alu(AluOp::Cp, Operand8::Ind(R16::HL)),
            ByteInstr::CP_A => Op::Alu(AluOp::Cp, Operand8::Reg(R8::A)),
            ByteInstr::RET_NZ => Op::RetCond(Cond::NZ),
            ByteInstr::POP_BC => Op::Pop(R16::BC),
            ByteInstr::JP_NZ_a16 => Op::Jp(Cond::NZ),
            ByteInstr::JP_a16 => Op::Jp(Cond::Always),
            ByteInstr::CALL_NZ_a16 => Op::Call(Cond::NZ),
            ByteInstr::PUSH_BC => Op::Push(R16::BC),
            ByteInstr::ADD_A_d8 => Op::Alu(AluOp::Add, Operand8::Imm8),
            ByteInstr::RST_00H => Op::Rst(0x00),
            ByteInstr::RET_Z => Op::RetCond(Cond::Z),
            ByteInstr::RET => Op::Ret,
            ByteInstr::JP_Z_a16 => Op::Jp(Cond::Z),
            ByteInstr::PREFIX_CB => Op::PrefixCb,
            ByteInstr::CALL_Z_a16 => Op::Call(Cond::Z),
            ByteInstr::CALL_a16 => Op::Call(Cond::Always),
            ByteInstr::ADC_A_d8 => Op::Alu(AluOp::Adc, Operand8::Imm8),
            ByteInstr::RST_08H => Op::Rst(0x08),
            ByteInstr::RET_NC => Op::RetCond(Cond::NC),
            ByteInstr::POP_DE => Op::Pop(R16::DE),
            ByteInstr::JP_NC_a16 => Op::Jp(Cond::NC),
            ByteInstr::NOT_USED => Op::Stuck,
            ByteInstr::CALL_NC_a16 => Op::Call(Cond::NC),
            ByteInstr::PUSH_DE => Op::Push(R16::DE),
            ByteInstr::SUB_d8 => Op::Alu(AluOp::Sub, Operand8::Imm8),
            ByteInstr::RST_10H => Op::Rst(0x10),
            ByteInstr::RET_C => Op::RetCond(Cond::C),
            ByteInstr::RETI => Op::Reti,
            ByteInstr::JP_C_a16 => Op::Jp(Cond::C),
            ByteInstr::NOT_USED_0 => Op::Stuck,
            ByteInstr::CALL_C_a16 => Op::Call(Cond::C),
            ByteInstr::NOT_USED_1 => Op::Stuck,
            ByteInstr::SBC_A_d8 => Op::Alu(AluOp::Sbc, Operand8::Imm8),
            ByteInstr::RST_18H => Op::Rst(0x18),
            ByteInstr::LDH_xa8x_A => Op::Ld8(Operand8::HighImm8, Operand8::Reg(R8::A)),
            ByteInstr::POP_HL => Op::Pop(R16::HL),
            ByteInstr::LD_xCx_A => Op::Ld8(Operand8::HighC, Operand8::Reg(R8::A)),
            ByteInstr::NOT_USED_2 => Op::Stuck,
            ByteInstr::NOT_USED_3 => Op::Stuck,
            ByteInstr::PUSH_HL => Op::Push(R16::HL),
            ByteInstr::AND_d8 => Op::Alu(AluOp::And, Operand8::Imm8),
            ByteInstr::RST_20H => Op::Rst(0x20),
            ByteInstr::ADD_SP_r8 => Op::AddSpR8,
            ByteInstr::JP_xHLx => Op::JpHl,
            ByteInstr::LD_xa16x_A => Op::Ld8(Operand8::ImmAddr, Operand8::Reg(R8::A)),
            ByteInstr::NOT_USED_4 => Op::Stuck,
            ByteInstr::NOT_USED_5 => Op::Stuck,
            ByteInstr::NOT_USED_6 => Op::Stuck,
            ByteInstr::XOR_d8 => Op::Alu(AluOp::Xor, Operand8::Imm8),
            ByteInstr::RST_28H => Op::Rst(0x28),
            ByteInstr::LDH_A_xa8x => Op::Ld8(Operand8::Reg(R8::A), Operand8::HighImm8),
            ByteInstr::POP_AF => Op::PopAf,
            ByteInstr::LD_A_xCx => Op::Ld8(Operand8::Reg(R8::A), Operand8::HighC),
            ByteInstr::DI => Op::Di,
            ByteInstr::NOT_USED_7 => Op::Stuck,
            ByteInstr::PUSH_AF => Op::Push(R16::AF),
            ByteInstr::OR_d8 => Op::Alu(AluOp::Or, Operand8::Imm8),
            ByteInstr::RST_30H => Op::Rst(0x30),
            ByteInstr::LD_HL_SPpr8 => Op::LdHlSpR8,
            ByteInstr::LD_SP_HL => Op::LdSpHl,
            ByteInstr::LD_A_xa16x => Op::Ld8(Operand8::Reg(R8::A), Operand8::ImmAddr),
            ByteInstr::EI => Op::Ei,
            ByteInstr::NOT_USED_8 => Op::Stuck,
            ByteInstr::NOT_USED_9 => Op::Stuck,
            ByteInstr::CP_d8 => Op::Alu(AluOp::Cp, Operand8::Imm8),
            ByteInstr::RST_38H => Op::Rst(0x38),
        }
    }

    /// The operand bytes that follow the opcode; not needed for emulation,
    /// but very useful for the debugger.
    pub fn operand_type(self) -> (r: Option<OperandType>)
        ensures
            r == self.semantics().operand(),
    {
        match self {
            ByteInstr::NOP => None,
            ByteInstr::LD_BC_d16 => Some(OperandType::D16),
            ByteInstr::LD_xBCx_A => None,
            ByteInstr::INC_BC => None,
            ByteInstr::INC_B => None,
            ByteInstr::DEC_B => None,
            ByteInstr::LD_B_d8 => Some(OperandType::D8),
            ByteInstr::RLCA => None,
            ByteInstr::LD_xa16x_SP => Some(OperandType::A16),
            ByteInstr::ADD_HL_BC => None,
            ByteInstr::LD_A_xBCx => None,
            ByteInstr::DEC_BC => None,
            ByteInstr::INC_C => None,
            ByteInstr::DEC_C => None,
            ByteInstr::LD_C_d8 => Some(OperandType::D8),
            ByteInstr::RRCA => None,
            ByteInstr::STOP => Some(OperandType::StopOperand),
            ByteInstr::LD_DE_d16 => Some(OperandType::D16),
            ByteInstr::LD_xDEx_A => None,
            ByteInstr::INC_DE => None,
            ByteInstr::INC_D => None,
            ByteInstr::DEC_D => None,
            ByteInstr::LD_D_d8 => Some(OperandType::D8),
            ByteInstr::RLA => None,
            ByteInstr::JR_r8 => Some(OperandType::R8),
            ByteInstr::ADD_HL_DE => None,
            ByteInstr::LD_A_xDEx => None,
            ByteInstr::DEC_DE => None,
            ByteInstr::INC_E => None,
            ByteInstr::DEC_E => None,
            ByteInstr::LD_E_d8 => Some(OperandType::D8),
            ByteInstr::RRA => None,
            ByteInstr::JR_NZ_r8 => Some(OperandType::R8),
            ByteInstr::LD_HL_d16 => Some(OperandType::D16),
            ByteInstr::LD_xHLix_A => None,
            ByteInstr::INC_HL => None,
            ByteInstr::INC_H => None,
            ByteInstr::DEC_H => None,
            ByteInstr::LD_H_d8 => Some(OperandType::D8),
            ByteInstr::DAA => None,
            ByteInstr::JR_Z_r8 => Some(OperandType::R8),
            ByteInstr::ADD_HL_HL => None,
            ByteInstr::LD_A_xHLix => None,
            ByteInstr::DEC_HL => None,
            ByteInstr::INC_L => None,
            ByteInstr::DEC_L => None,
            ByteInstr::LD_L_d8 => Some(OperandType::D8),
            ByteInstr::CPL => None,
            ByteInstr::JR_NC_r8 => Some(OperandType::R8),
            ByteInstr::LD_SP_d16 => Some(OperandType::D16),
            ByteInstr::LD_xHLdx_A => None,
            ByteInstr::INC_SP => None,
            ByteInstr::INC_xHLx => None,
            ByteInstr::DEC_xHLx => None,
            ByteInstr::LD_xHLx_d8 => Some(OperandType::D8),
            ByteInstr::SCF => None,
            ByteInstr::JR_C_r8 => Some(OperandType::R8),
            ByteInstr::ADD_HL_SP => None,
            ByteInstr::LD_A_xHLdx => None,
            ByteInstr::DEC_SP => None,
            ByteInstr::INC_A => None,
            ByteInstr::DEC_A => None,
            ByteInstr::LD_A_d8 => Some(OperandType::D8),
            ByteInstr::CCF => None,
            ByteInstr::LD_B_B => None,
            ByteInstr::LD_B_C => None,
            ByteInstr::LD_B_D => None,
            ByteInstr::LD_B_E => None,
            ByteInstr::LD_B_H => None,
            ByteInstr::LD_B_L => None,
            ByteInstr::LD_B_xHLx => None,
            ByteInstr::LD_B_A => None,
            ByteInstr::LD_C_B => None,
            ByteInstr::LD_C_C => None,
            ByteInstr::LD_C_D => None,
            ByteInstr::LD_C_E => None,
            ByteInstr::LD_C_H => None,
            ByteInstr::LD_C_L => None,
            ByteInstr::LD_C_xHLx => None,
            ByteInstr::LD_C_A => None,
            ByteInstr::LD_D_B => None,
            ByteInstr::LD_D_C => None,
            ByteInstr::LD_D_D => None,
            ByteInstr::LD_D_E => None,
            ByteInstr::LD_D_H => None,
            ByteInstr::LD_D_L => None,
            ByteInstr::LD_D_xHLx => None,
            ByteInstr::LD_D_A => None,
            ByteInstr::LD_E_B => None,
            ByteInstr::LD_E_C => None,
            ByteInstr::LD_E_D => None,
            ByteInstr::LD_E_E => None,
            ByteInstr::LD_E_H => None,
            ByteInstr::LD_E_L => None,
            ByteInstr::LD_E_xHLx => None,
            ByteInstr::LD_E_A => None,
            ByteInstr::LD_H_B => None,
            ByteInstr::LD_H_C => None,
            ByteInstr::LD_H_D => None,
            ByteInstr::LD_H_E => None,
            ByteInstr::LD_H_H => None,
            ByteInstr::LD_H_L => None,
            ByteInstr::LD_H_xHLx => None,
            ByteInstr::LD_H_A => None,
            ByteInstr::LD_L_B => None,
            ByteInstr::LD_L_C => None,
            ByteInstr::LD_L_D => None,
            ByteInstr::LD_L_E => None,
            ByteInstr::LD_L_H => None,
            ByteInstr::LD_L_L => None,
            ByteInstr::LD_L_xHLx => None,
            ByteInstr::LD_L_A => None,
            ByteInstr::LD_xHLx_B => None,
            ByteInstr::LD_xHLx_C => None,
            ByteInstr::LD_xHLx_D => None,
            ByteInstr::LD_xHLx_E => None,
            ByteInstr::LD_xHLx_H => None,
            ByteInstr::LD_xHLx_L => None,
            ByteInstr::HALT => None,
            ByteInstr::LD_xHLx_A => None,
            ByteInstr::LD_A_B => None,
            ByteInstr::LD_A_C => None,
            ByteInstr::LD_A_D => None,
            ByteInstr::LD_A_E => None,
            ByteInstr::LD_A_H => None,
            ByteInstr::LD_A_L => None,
            ByteInstr::LD_A_xHLx => None,
            ByteInstr::LD_A_A => None,
            ByteInstr::ADD_A_B => None,
            ByteInstr::ADD_A_C => None,
            ByteInstr::ADD_A_D => None,
            ByteInstr::ADD_A_E => None,
            ByteInstr::ADD_A_H => None,
            ByteInstr::ADD_A_L => None,
            ByteInstr::ADD_A_xHLx => None,
            ByteInstr::ADD_A_A => None,
            ByteInstr::ADC_A_B => None,
            ByteInstr::ADC_A_C => None,
            ByteInstr::ADC_A_D => None,
            ByteInstr::ADC_A_E => None,
            ByteInstr::ADC_A_H => None,
            ByteInstr::ADC_A_L => None,
            ByteInstr::ADC_A_xHLx => None,
            ByteInstr::ADC_A_A => None,
            ByteInstr::SUB_B => None,
            ByteInstr::SUB_C => None,
            ByteInstr::SUB_D => None,
            ByteInstr::SUB_E => None,
            ByteInstr::SUB_H => None,
            ByteInstr::SUB_L => None,
            ByteInstr::SUB_xHLx => None,
            ByteInstr::SUB_A => None,
            ByteInstr::SBC_A_B => None,
            ByteInstr::SBC_A_C => None,
            ByteInstr::SBC_A_D => None,
            ByteInstr::SBC_A_E => None,
            ByteInstr::SBC_A_H => None,
            ByteInstr::SBC_A_L => None,
            ByteInstr::SBC_A_xHLx => None,
            ByteInstr::SBC_A_A => None,
            ByteInstr::AND_B => None,
            ByteInstr::AND_C => None,
            ByteInstr::AND_D => None,
            ByteInstr::AND_E => None,
            ByteInstr::AND_H => None,
            ByteInstr::AND_L => None,
            ByteInstr::AND_xHLx => None,
            ByteInstr::AND_A => None,
            ByteInstr::XOR_B => None,
            ByteInstr::XOR_C => None,
            ByteInstr::XOR_D => None,
            ByteInstr::XOR_E => None,
            ByteInstr::XOR_H => None,
            ByteInstr::XOR_L => None,
            ByteInstr::XOR_xHLx => None,
            ByteInstr::XOR_A => None,
            ByteInstr::OR_B => None,
            ByteInstr::OR_C => None,
            ByteInstr::OR_D => None,
            ByteInstr::OR_E => None,
            ByteInstr::OR_H => None,
            ByteInstr::OR_L => None,
            ByteInstr::OR_xHLx => None,
            ByteInstr::OR_A => None,
            ByteInstr::CP_B => None,
            ByteInstr::CP_C => None,
            ByteInstr::CP_D => None,
            ByteInstr::CP_E => None,
            ByteInstr::CP_H => None,
            ByteInstr::CP_L => None,
            ByteInstr::CP_xHLx => None,
            ByteInstr::CP_A => None,
            ByteInstr::RET_NZ => None,
            ByteInstr::POP_BC => None,
            ByteInstr::JP_NZ_a16 => Some(OperandType::A16),
            ByteInstr::JP_a16 => Some(OperandType::A16),
            ByteInstr::CALL_NZ_a16 => Some(OperandType::A16),
            ByteInstr::PUSH_BC => None,
            ByteInstr::ADD_A_d8 => Some(OperandType::D8),
            ByteInstr::RST_00H => None,
            ByteInstr::RET_Z => None,
            ByteInstr::RET => None,
            ByteInstr::JP_Z_a16 => Some(OperandType::A16),
            ByteInstr::PREFIX_CB => Some(OperandType::PrefixInstr),
            ByteInstr::CALL_Z_a16 => Some(OperandType::A16),
            ByteInstr::CALL_a16 => Some(OperandType::A16),
            ByteInstr::ADC_A_d8 => Some(OperandType::D8),
            ByteInstr::RST_08H => None,
            ByteInstr::RET_NC => None,
            ByteInstr::POP_DE => None,
            ByteInstr::JP_NC_a16 => Some(OperandType::A16),
            ByteInstr::NOT_USED => None,
            ByteInstr::CALL_NC_a16 => Some(OperandType::A16),
            ByteInstr::PUSH_DE => None,
            ByteInstr::SUB_d8 => Some(OperandType::D8),
            ByteInstr::RST_10H => None,
            ByteInstr::RET_C => None,
            ByteInstr::RETI => None,
            ByteInstr::JP_C_a16 => Some(OperandType::A16),
            ByteInstr::NOT_USED_0 => None,
            ByteInstr::CALL_C_a16 => Some(OperandType::A16),
            ByteInstr::NOT_USED_1 => None,
            ByteInstr::SBC_A_d8 => Some(OperandType::D8),
            ByteInstr::RST_18H => None,
            ByteInstr::LDH_xa8x_A => Some(OperandType::A8),
            ByteInstr::POP_HL => None,
            ByteInstr::LD_xCx_A => None,
            ByteInstr::NOT_USED_2 => None,
            ByteInstr::NOT_USED_3 => None,
            ByteInstr::PUSH_HL => None,
            ByteInstr::AND_d8 => Some(OperandType::D8),
            ByteInstr::RST_20H => None,
            ByteInstr::ADD_SP_r8 => Some(OperandType::R8),
            ByteInstr::JP_xHLx => None,
            ByteInstr::LD_xa16x_A => Some(OperandType::A16),
            ByteInstr::NOT_USED_4 => None,
            ByteInstr::NOT_USED_5 => None,
            ByteInstr::NOT_USED_6 => None,
            ByteInstr::XOR_d8 => Some(OperandType::D8),
            ByteInstr::RST_28H => None,
            ByteInstr::LDH_A_xa8x => Some(OperandType::A8),
            ByteInstr::POP_AF => None,
            ByteInstr::LD_A_xCx => None,
            ByteInstr::DI => None,
            ByteInstr::NOT_USED_7 => None,
            ByteInstr::PUSH_AF => None,
            ByteInstr::OR_d8 => Some(OperandType::D8),
            ByteInstr::RST_30H => None,
            ByteInstr::LD_HL_SPpr8 => Some(OperandType::R8),
            ByteInstr::LD_SP_HL => None,
            ByteInstr::LD_A_xa16x => Some(OperandType::A16),
            ByteInstr::EI => None,
            ByteInstr::NOT_USED_8 => None,
            ByteInstr::NOT_USED_9 => None,
            ByteInstr::CP_d8 => Some(OperandType::D8),
            ByteInstr::RST_38H => None,
        }
    }

    /// Whether the instruction may continue somewhere else than after itself.
    pub fn is_control_flow_change(&self) -> (r: bool)
        ensures
            r == self.semantics().changes_control_flow(),
    {
        match self {
            // Unconditional
            ByteInstr::JR_r8 => true,
            ByteInstr::JP_a16 => true,
            ByteInstr::JP_xHLx => true,
            ByteInstr::RET => true,
            ByteInstr::RETI => true,
            ByteInstr::CALL_a16 => true,
            ByteInstr::RST_00H => true,
            ByteInstr::RST_08H => true,
            ByteInstr::RST_10H => true,
            ByteInstr::RST_18H => true,
            ByteInstr::RST_20H => true,
            ByteInstr::RST_28H => true,
            ByteInstr::RST_30H => true,
            ByteInstr::RST_38H => true,
            // Conditional
            ByteInstr::JR_NZ_r8 => true,
            ByteInstr::JR_Z_r8 => true,
            ByteInstr::JR_NC_r8 => true,
            ByteInstr::JR_C_r8 => true,
            ByteInstr::RET_NZ => true,
            ByteInstr::RET_Z => true,
            ByteInstr::RET_NC => true,
            ByteInstr::RET_C => true,
            ByteInstr::JP_NZ_a16 => true,
            ByteInstr::JP_Z_a16 => true,
            ByteInstr::JP_NC_a16 => true,
            ByteInstr::JP_C_a16 => true,
            ByteInstr::CALL_NZ_a16 => true,
            ByteInstr::CALL_Z_a16 => true,
            ByteInstr::CALL_NC_a16 => true,
            ByteInstr::CALL_C_a16 => true,
            _ => false,
        }
    }
}

/// The instructions behind the 0xCB prefix, by opcode.
#[allow(non_camel_case_types)]
#[derive(Copy, Clone, Debug, PartialEq, Eq, Structural)]
pub enum CBByteInstr {
    RLC_B,
    RLC_C,
    RLC_D,
    RLC_E,
    RLC_H,
    RLC_L,
    RLC_xHLx,
    RLC_A,
    RRC_B,
    RRC_C,
    RRC_D,
    RRC_E,
    RRC_H,
    RRC_L,
    RRC_xHLx,
    RRC_A,
    RL_B,
    RL_C,
    RL_D,
    RL_E,
    RL_H,
    RL_L,
    RL_xHLx,
    RL_A,
    RR_B,
    RR_C,
    RR_D,
    RR_E,
    RR_H,
    RR_L,
    RR_xHLx,
    RR_A,
    SLA_B,
    SLA_C,
    SLA_D,
    SLA_E,
    SLA_H,
    SLA_L,
    SLA_xHLx,
    SLA_A,
    SRA_B,
    SRA_C,
    SRA_D,
    SRA_E,
    SRA_H,
    SRA_L,
    SRA_xHLx,
    SRA_A,
    SWAP_B,
    SWAP_C,
    SWAP_D,
    SWAP_E,
    SWAP_H,
    SWAP_L,
    SWAP_xHLx,
    SWAP_A,
    SRL_B,
    SRL_C,
    SRL_D,
    SRL_E,
    SRL_H,
    SRL_L,
    SRL_xHLx,
    SRL_A,
    BIT_0_B,
    BIT_0_C,
    BIT_0_D,
    BIT_0_E,
    BIT_0_H,
    BIT_0_L,
    BIT_0_xHLx,
    BIT_0_A,
    BIT_1_B,
    BIT_1_C,
    BIT_1_D,
    BIT_1_E,
    BIT_1_H,
    BIT_1_L,
    BIT_1_xHLx,
    BIT_1_A,
    BIT_2_B,
    BIT_2_C,
    BIT_2_D,
    BIT_2_E,
    BIT_2_H,
    BIT_2_L,
    BIT_2_xHLx,
    BIT_2_A,
    BIT_3_B,
    BIT_3_C,
    BIT_3_D,
    BIT_3_E,
    BIT_3_H,
    BIT_3_L,
    BIT_3_xHLx,
    BIT_3_A,
    BIT_4_B,
    BIT_4_C,
    BIT_4_D,
    BIT_4_E,
    BIT_4_H,
    BIT_4_L,
    BIT_4_xHLx,
    BIT_4_A,
    BIT_5_B,
    BIT_5_C,
    BIT_5_D,
    BIT_5_E,
    BIT_5_H,
    BIT_5_L,
    BIT_5_xHLx,
    BIT_5_A,
    BIT_6_B,
    BIT_6_C,
    BIT_6_D,
    BIT_6_E,
    BIT_6_H,
    BIT_6_L,
    BIT_6_xHLx,
    BIT_6_A,
    BIT_7_B,
    BIT_7_C,
    BIT_7_D,
    BIT_7_E,
    BIT_7_H,
    BIT_7_L,
    BIT_7_xHLx,
    BIT_7_A,
    RES_0_B,
    RES_0_C,
    RES_0_D,
    RES_0_E,
    RES_0_H,
    RES_0_L,
    RES_0_xHLx,
    RES_0_A,
    RES_1_B,
    RES_1_C,
    RES_1_D,
    RES_1_E,
    RES_1_H,
    RES_1_L,
    RES_1_xHLx,
    RES_1_A,
    RES_2_B,
    RES_2_C,
    RES_2_D,
    RES_2_E,
    RES_2_H,
    RES_2_L,
    RES_2_xHLx,
    RES_2_A,
    RES_3_B,
    RES_3_C,
    RES_3_D,
    RES_3_E,
    RES_3_H,
    RES_3_L,
    RES_3_xHLx,
    RES_3_A,
    RES_4_B,
    RES_4_C,
    RES_4_D,
    RES_4_E,
    RES_4_H,
    RES_4_L,
    RES_4_xHLx,
    RES_4_A,
    RES_5_B,
    RES_5_C,
    RES_5_D,
    RES_5_E,
    RES_5_H,
    RES_5_L,
    RES_5_xHLx,
    RES_5_A,
    RES_6_B,
    RES_6_C,
    RES_6_D,
    RES_6_E,
    RES_6_H,
    RES_6_L,
    RES_6_xHLx,
    RES_6_A,
    RES_7_B,
    RES_7_C,
    RES_7_D,
    RES_7_E,
    RES_7_H,
    RES_7_L,
    RES_7_xHLx,
    RES_7_A,
    SET_0_B,
    SET_0_C,
    SET_0_D,
    SET_0_E,
    SET_0_H,
    SET_0_L,
    SET_0_xHLx,
    SET_0_A,
    SET_1_B,
    SET_1_C,
    SET_1_D,
    SET_1_E,
    SET_1_H,
    SET_1_L,
    SET_1_xHLx,
    SET_1_A,
    SET_2_B,
    SET_2_C,
    SET_2_D,
    SET_2_E,
    SET_2_H,
    SET_2_L,
    SET_2_xHLx,
    SET_2_A,
    SET_3_B,
    SET_3_C,
    SET_3_D,
    SET_3_E,
    SET_3_H,
    SET_3_L,
    SET_3_xHLx,
    SET_3_A,
    SET_4_B,
    SET_4_C,
    SET_4_D,
    SET_4_E,
    SET_4_H,
    SET_4_L,
    SET_4_xHLx,
    SET_4_A,
    SET_5_B,
    SET_5_C,
    SET_5_D,
    SET_5_E,
    SET_5_H,
    SET_5_L,
    SET_5_xHLx,
    SET_5_A,
    SET_6_B,
    SET_6_C,
    SET_6_D,
    SET_6_E,
    SET_6_H,
    SET_6_L,
    SET_6_xHLx,
    SET_6_A,
    SET_7_B,
    SET_7_C,
    SET_7_D,
    SET_7_E,
    SET_7_H,
    SET_7_L,
    SET_7_xHLx,
    SET_7_A,
}

impl CBByteInstr {
    /// The instruction with opcode `b` (after the prefix).
    pub open spec fn decode(b: u8) -> CBByteInstr {
        match b {
            0x00 => CBByteInstr::RLC_B,
            0x01 => CBByteInstr::RLC_C,
            0x02 => CBByteInstr::RLC_D,
            0x03 => CBByteInstr::RLC_E,
            0x04 => CBByteInstr::RLC_H,
            0x05 => CBByteInstr::RLC_L,
            0x06 => CBByteInstr::RLC_xHLx,
            0x07 => CBByteInstr::RLC_A,
            0x08 => CBByteInstr::RRC_B,
            0x09 => CBByteInstr::RRC_C,
            0x0A => CBByteInstr::RRC_D,
            0x0B => CBByteInstr::RRC_E,
            0x0C => CBByteInstr::RRC_H,
            0x0D => CBByteInstr::RRC_L,
            0x0E => CBByteInstr::RRC_xHLx,
            0x0F => CBByteInstr::RRC_A,
            0x10 => CBByteInstr::RL_B,
            0x11 => CBByteInstr::RL_C,
            0x12 => CBByteInstr::RL_D,
            0x13 => CBByteInstr::RL_E,
            0x14 => CBByteInstr::RL_H,
            0x15 => CBByteInstr::RL_L,
            0x16 => CBByteInstr::RL_xHLx,
            0x17 => CBByteInstr::RL_A,
            0x18 => CBByteInstr::RR_B,
            0x19 => CBByteInstr::RR_C,
            0x1A => CBByteInstr::RR_D,
            0x1B => CBByteInstr::RR_E,
            0x1C => CBByteInstr::RR_H,
            0x1D => CBByteInstr::RR_L,
            0x1E => CBByteInstr::RR_xHLx,
            0x1F => CBByteInstr::RR_A,
            0x20 => CBByteInstr::SLA_B,
            0x21 => CBByteInstr::SLA_C,
            0x22 => CBByteInstr::SLA_D,
            0x23 => CBByteInstr::SLA_E,
            0x24 => CBByteInstr::SLA_H,
            0x25 => CBByteInstr::SLA_L,
            0x26 => CBByteInstr::SLA_xHLx,
            0x27 => CBByteInstr::SLA_A,
            0x28 => CBByteInstr::SRA_B,
            0x29 => CBByteInstr::SRA_C,
            0x2A => CBByteInstr::SRA_D,
            0x2B => CBByteInstr::SRA_E,
            0x2C => CBByteInstr::SRA_H,
            0x2D => CBByteInstr::SRA_L,
            0x2E => CBByteInstr::SRA_xHLx,
            0x2F => CBByteInstr::SRA_A,
            0x30 => CBByteInstr::SWAP_B,
            0x31 => CBByteInstr::SWAP_C,
            0x32 => CBByteInstr::SWAP_D,
            0x33 => CBByteInstr::SWAP_E,
            0x34 => CBByteInstr::SWAP_H,
            0x35 => CBByteInstr::SWAP_L,
            0x36 => CBByteInstr::SWAP_xHLx,
            0x37 => CBByteInstr::SWAP_A,
            0x38 => CBByteInstr::SRL_B,
            0x39 => CBByteInstr::SRL_C,
            0x3A => CBByteInstr::SRL_D,
            0x3B => CBByteInstr::SRL_E,
            0x3C => CBByteInstr::SRL_H,
            0x3D => CBByteInstr::SRL_L,
            0x3E => CBByteInstr::SRL_xHLx,
            0x3F => CBByteInstr::SRL_A,
            0x40 => CBByteInstr::BIT_0_B,
            0x41 => CBByteInstr::BIT_0_C,
            0x42 => CBByteInstr::BIT_0_D,
            0x43 => CBByteInstr::BIT_0_E,
            0x44 => CBByteInstr::BIT_0_H,
            0x45 => CBByteInstr::BIT_0_L,
            0x46 => CBByteInstr::BIT_0_xHLx,
            0x47 => CBByteInstr::BIT_0_A,
            0x48 => CBByteInstr::BIT_1_B,
            0x49 => CBByteInstr::BIT_1_C,
            0x4A => CBByteInstr::BIT_1_D,
            0x4B => CBByteInstr::BIT_1_E,
            0x4C => CBByteInstr::BIT_1_H,
            0x4D => CBByteInstr::BIT_1_L,
            0x4E => CBByteInstr::BIT_1_xHLx,
            0x4F => CBByteInstr::BIT_1_A,
            0x50 => CBByteInstr::BIT_2_B,
            0x51 => CBByteInstr::BIT_2_C,
            0x52 => CBByteInstr::BIT_2_D,
            0x53 => CBByteInstr::BIT_2_E,
            0x54 => CBByteInstr::BIT_2_H,
            0x55 => CBByteInstr::BIT_2_L,
            0x56 => CBByteInstr::BIT_2_xHLx,
            0x57 => CBByteInstr::BIT_2_A,
            0x58 => CBByteInstr::BIT_3_B,
            0x59 => CBByteInstr::BIT_3_C,
            0x5A => CBByteInstr::BIT_3_D,
            0x5B => CBByteInstr::BIT_3_E,
            0x5C => CBByteInstr::BIT_3_H,
            0x5D => CBByteInstr::BIT_3_L,
            0x5E => CBByteInstr::BIT_3_xHLx,
            0x5F => CBByteInstr::BIT_3_A,
            0x60 => CBByteInstr::BIT_4_B,
            0x61 => CBByteInstr::BIT_4_C,
            0x62 => CBByteInstr::BIT_4_D,
            0x63 => CBByteInstr::BIT_4_E,
            0x64 => CBByteInstr::BIT_4_H,
            0x65 => CBByteInstr::BIT_4_L,
            0x66 => CBByteInstr::BIT_4_xHLx,
            0x67 => CBByteInstr::BIT_4_A,
            0x68 => CBByteInstr::BIT_5_B,
            0x69 => CBByteInstr::BIT_5_C,
            0x6A => CBByteInstr::BIT_5_D,
            0x6B => CBByteInstr::BIT_5_E,
            0x6C => CBByteInstr::BIT_5_H,
            0x6D => CBByteInstr::BIT_5_L,
            0x6E => CBByteInstr::BIT_5_xHLx,
            0x6F => CBByteInstr::BIT_5_A,
            0x70 => CBByteInstr::BIT_6_B,
            0x71 => CBByteInstr::BIT_6_C,
            0x72 => CBByteInstr::BIT_6_D,
            0x73 => CBByteInstr::BIT_6_E,
            0x74 => CBByteInstr::BIT_6_H,
            0x75 => CBByteInstr::BIT_6_L,
            0x76 => CBByteInstr::BIT_6_xHLx,
            0x77 => CBByteInstr::BIT_6_A,
            0x78 => CBByteInstr::BIT_7_B,
            0x79 => CBByteInstr::BIT_7_C,
            0x7A => CBByteInstr::BIT_7_D,
            0x7B => CBByteInstr::BIT_7_E,
            0x7C => CBByteInstr::BIT_7_H,
            0x7D => CBByteInstr::BIT_7_L,
            0x7E => CBByteInstr::BIT_7_xHLx,
            0x7F => CBByteInstr::BIT_7_A,
            0x80 => CBByteInstr::RES_0_B,
            0x81 => CBByteInstr::RES_0_C,
            0x82 => CBByteInstr::RES_0_D,
            0x83 => CBByteInstr::RES_0_E,
            0x84 => CBByteInstr::RES_0_H,
            0x85 => CBByteInstr::RES_0_L,
            0x86 => CBByteInstr::RES_0_xHLx,
            0x87 => CBByteInstr::RES_0_A,
            0x88 => CBByteInstr::RES_1_B,
            0x89 => CBByteInstr::RES_1_C,
            0x8A => CBByteInstr::RES_1_D,
            0x8B => CBByteInstr::RES_1_E,
            0x8C => CBByteInstr::RES_1_H,
            0x8D => CBByteInstr::RES_1_L,
            0x8E => CBByteInstr::RES_1_xHLx,
            0x8F => CBByteInstr::RES_1_A,
            0x90 => CBByteInstr::RES_2_B,
            0x91 => CBByteInstr::RES_2_C,
            0x92 => CBByteInstr::RES_2_D,
            0x93 => CBByteInstr::RES_2_E,
            0x94 => CBByteInstr::RES_2_H,
            0x95 => CBByteInstr::RES_2_L,
            0x96 => CBByteInstr::RES_2_xHLx,
            0x97 => CBByteInstr::RES_2_A,
            0x98 => CBByteInstr::RES_3_B,
            0x99 => CBByteInstr::RES_3_C,
            0x9A => CBByteInstr::RES_3_D,
            0x9B => CBByteInstr::RES_3_E,
            0x9C => CBByteInstr::RES_3_H,
            0x9D => CBByteInstr::RES_3_L,
            0x9E => CBByteInstr::RES_3_xHLx,
            0x9F => CBByteInstr::RES_3_A,
            0xA0 => CBByteInstr::RES_4_B,
            0xA1 => CBByteInstr::RES_4_C,
            0xA2 => CBByteInstr::RES_4_D,
            0xA3 => CBByteInstr::RES_4_E,
            0xA4 => CBByteInstr::RES_4_H,
            0xA5 => CBByteInstr::RES_4_L,
            0xA6 => CBByteInstr::RES_4_xHLx,
            0xA7 => CBByteInstr::RES_4_A,
            0xA8 => CBByteInstr::RES_5_B,
            0xA9 => CBByteInstr::RES_5_C,
            0xAA => CBByteInstr::RES_5_D,
            0xAB => CBByteInstr::RES_5_E,
            0xAC => CBByteInstr::RES_5_H,
            0xAD => CBByteInstr::RES_5_L,
            0xAE => CBByteInstr::RES_5_xHLx,
            0xAF => CBByteInstr::RES_5_A,
            0xB0 => CBByteInstr::RES_6_B,
            0xB1 => CBByteInstr::RES_6_C,
            0xB2 => CBByteInstr::RES_6_D,
            0xB3 => CBByteInstr::RES_6_E,
            0xB4 => CBByteInstr::RES_6_H,
            0xB5 => CBByteInstr::RES_6_L,
            0xB6 => CBByteInstr::RES_6_xHLx,
            0xB7 => CBByteInstr::RES_6_A,
            0xB8 => CBByteInstr::RES_7_B,
            0xB9 => CBByteInstr::RES_7_C,
            0xBA => CBByteInstr::RES_7_D,
            0xBB => CBByteInstr::RES_7_E,
            0xBC => CBByteInstr::RES_7_H,
            0xBD => CBByteInstr::RES_7_L,
            0xBE => CBByteInstr::RES_7_xHLx,
            0xBF => CBByteInstr::RES_7_A,
            0xC0 => CBByteInstr::SET_0_B,
            0xC1 => CBByteInstr::SET_0_C,
            0xC2 => CBByteInstr::SET_0_D,
            0xC3 => CBByteInstr::SET_0_E,
            0xC4 => CBByteInstr::SET_0_H,
            0xC5 => CBByteInstr::SET_0_L,
            0xC6 => CBByteInstr::SET_0_xHLx,
            0xC7 => CBByteInstr::SET_0_A,
            0xC8 => CBByteInstr::SET_1_B,
            0xC9 => CBByteInstr::SET_1_C,
            0xCA => CBByteInstr::SET_1_D,
            0xCB => CBByteInstr::SET_1_E,
            0xCC => CBByteInstr::SET_1_H,
            0xCD => CBByteInstr::SET_1_L,
            0xCE => CBByteInstr::SET_1_xHLx,
            0xCF => CBByteInstr::SET_1_A,
            0xD0 => CBByteInstr::SET_2_B,
            0xD1 => CBByteInstr::SET_2_C,
            0xD2 => CBByteInstr::SET_2_D,
            0xD3 => CBByteInstr::SET_2_E,
            0xD4 => CBByteInstr::SET_2_H,
            0xD5 => CBByteInstr::SET_2_L,
            0xD6 => CBByteInstr::SET_2_xHLx,
            0xD7 => CBByteInstr::SET_2_A,
            0xD8 => CBByteInstr::SET_3_B,
            0xD9 => CBByteInstr::SET_3_C,
            0xDA => CBByteInstr::SET_3_D,
            0xDB => CBByteInstr::SET_3_E,
            0xDC => CBByteInstr::SET_3_H,
            0xDD => CBByteInstr::SET_3_L,
            0xDE => CBByteInstr::SET_3_xHLx,
            0xDF => CBByteInstr::SET_3_A,
            0xE0 => CBByteInstr::SET_4_B,
            0xE1 => CBByteInstr::SET_4_C,
            0xE2 => CBByteInstr::SET_4_D,
            0xE3 => CBByteInstr::SET_4_E,
            0xE4 => CBByteInstr::SET_4_H,
            0xE5 => CBByteInstr::SET_4_L,
            0xE6 => CBByteInstr::SET_4_xHLx,
            0xE7 => CBByteInstr::SET_4_A,
            0xE8 => CBByteInstr::SET_5_B,
            0xE9 => CBByteInstr::SET_5_C,
            0xEA => CBByteInstr::SET_5_D,
            0xEB => CBByteInstr::SET_5_E,
            0xEC => CBByteInstr::SET_5_H,
            0xED => CBByteInstr::SET_5_L,
            0xEE => CBByteInstr::SET_5_xHLx,
            0xEF => CBByteInstr::SET_5_A,
            0xF0 => CBByteInstr::SET_6_B,
            0xF1 => CBByteInstr::SET_6_C,
            0xF2 => CBByteInstr::SET_6_D,
            0xF3 => CBByteInstr::SET_6_E,
            0xF4 => CBByteInstr::SET_6_H,
            0xF5 => CBByteInstr::SET_6_L,
            0xF6 => CBByteInstr::SET_6_xHLx,
            0xF7 => CBByteInstr::SET_6_A,
            0xF8 => CBByteInstr::SET_7_B,
            0xF9 => CBByteInstr::SET_7_C,
            0xFA => CBByteInstr::SET_7_D,
            0xFB => CBByteInstr::SET_7_E,
            0xFC => CBByteInstr::SET_7_H,
            0xFD => CBByteInstr::SET_7_L,
            0xFE => CBByteInstr::SET_7_xHLx,
            _ => CBByteInstr::SET_7_A,
        }
    }

    pub fn from_u8(b: u8) -> (r: CBByteInstr)
        ensures
            r == CBByteInstr::decode(b),
    {
        match b {
            0x00 => CBByteInstr::RLC_B,
            0x01 => CBByteInstr::RLC_C,
            0x02 => CBByteInstr::RLC_D,
            0x03 => CBByteInstr::RLC_E,
            0x04 => CBByteInstr::RLC_H,
            0x05 => CBByteInstr::RLC_L,
            0x06 => CBByteInstr::RLC_xHLx,
            0x07 => CBByteInstr::RLC_A,
            0x08 => CBByteInstr::RRC_B,
            0x09 => CBByteInstr::RRC_C,
            0x0A => CBByteInstr::RRC_D,
            0x0B => CBByteInstr::RRC_E,
            0x0C => CBByteInstr::RRC_H,
            0x0D => CBByteInstr::RRC_L,
            0x0E => CBByteInstr::RRC_xHLx,
            0x0F => CBByteInstr::RRC_A,
            0x10 => CBByteInstr::RL_B,
            0x11 => CBByteInstr::RL_C,
            0x12 => CBByteInstr::RL_D,
            0x13 => CBByteInstr::RL_E,
            0x14 => CBByteInstr::RL_H,
            0x15 => CBByteInstr::RL_L,
            0x16 => CBByteInstr::RL_xHLx,
            0x17 => CBByteInstr::RL_A,
            0x18 => CBByteInstr::RR_B,
            0x19 => CBByteInstr::RR_C,
            0x1A => CBByteInstr::RR_D,
            0x1B => CBByteInstr::RR_E,
            0x1C => CBByteInstr::RR_H,
            0x1D => CBByteInstr::RR_L,
            0x1E => CBByteInstr::RR_xHLx,
            0x1F => CBByteInstr::RR_A,
            0x20 => CBByteInstr::SLA_B,
            0x21 => CBByteInstr::SLA_C,
            0x22 => CBByteInstr::SLA_D,
            0x23 => CBByteInstr::SLA_E,
            0x24 => CBByteInstr::SLA_H,
            0x25 => CBByteInstr::SLA_L,
            0x26 => CBByteInstr::SLA_xHLx,
            0x27 => CBByteInstr::SLA_A,
            0x28 => CBByteInstr::SRA_B,
            0x29 => CBByteInstr::SRA_C,
            0x2A => CBByteInstr::SRA_D,
            0x2B => CBByteInstr::SRA_E,
            0x2C => CBByteInstr::SRA_H,
            0x2D => CBByteInstr::SRA_L,
            0x2E => CBByteInstr::SRA_xHLx,
            0x2F => CBByteInstr::SRA_A,
            0x30 => CBByteInstr::SWAP_B,
            0x31 => CBByteInstr::SWAP_C,
            0x32 => CBByteInstr::SWAP_D,
            0x33 => CBByteInstr::SWAP_E,
            0x34 => CBByteInstr::SWAP_H,
            0x35 => CBByteInstr::SWAP_L,
            0x36 => CBByteInstr::SWAP_xHLx,
            0x37 => CBByteInstr::SWAP_A,
            0x38 => CBByteInstr::SRL_B,
            0x39 => CBByteInstr::SRL_C,
            0x3A => CBByteInstr::SRL_D,
            0x3B => CBByteInstr::SRL_E,
            0x3C => CBByteInstr::SRL_H,
            0x3D => CBByteInstr::SRL_L,
            0x3E => CBByteInstr::SRL_xHLx,
            0x3F => CBByteInstr::SRL_A,
            0x40 => CBByteInstr::BIT_0_B,
            0x41 => CBByteInstr::BIT_0_C,
            0x42 => CBByteInstr::BIT_0_D,
            0x43 => CBByteInstr::BIT_0_E,
            0x44 => CBByteInstr::BIT_0_H,
            0x45 => CBByteInstr::BIT_0_L,
            0x46 => CBByteInstr::BIT_0_xHLx,
            0x47 => CBByteInstr::BIT_0_A,
            0x48 => CBByteInstr::BIT_1_B,
            0x49 => CBByteInstr::BIT_1_C,
            0x4A => CBByteInstr::BIT_1_D,
            0x4B => CBByteInstr::BIT_1_E,
            0x4C => CBByteInstr::BIT_1_H,
            0x4D => CBByteInstr::BIT_1_L,
            0x4E => CBByteInstr::BIT_1_xHLx,
            0x4F => CBByteInstr::BIT_1_A,
            0x50 => CBByteInstr::BIT_2_B,
            0x51 => CBByteInstr::BIT_2_C,
            0x52 => CBByteInstr::BIT_2_D,
            0x53 => CBByteInstr::BIT_2_E,
            0x54 => CBByteInstr::BIT_2_H,
            0x55 => CBByteInstr::BIT_2_L,
            0x56 => CBByteInstr::BIT_2_xHLx,
            0x57 => CBByteInstr::BIT_2_A,
            0x58 => CBByteInstr::BIT_3_B,
            0x59 => CBByteInstr::BIT_3_C,
            0x5A => CBByteInstr::BIT_3_D,
            0x5B => CBByteInstr::BIT_3_E,
            0x5C => CBByteInstr::BIT_3_H,
            0x5D => CBByteInstr::BIT_3_L,
            0x5E => CBByteInstr::BIT_3_xHLx,
            0x5F => CBByteInstr::BIT_3_A,
            0x60 => CBByteInstr::BIT_4_B,
            0x61 => CBByteInstr::BIT_4_C,
            0x62 => CBByteInstr::BIT_4_D,
            0x63 => CBByteInstr::BIT_4_E,
            0x64 => CBByteInstr::BIT_4_H,
            0x65 => CBByteInstr::BIT_4_L,
            0x66 => CBByteInstr::BIT_4_xHLx,
            0x67 => CBByteInstr::BIT_4_A,
            0x68 => CBByteInstr::BIT_5_B,
            0x69 => CBByteInstr::BIT_5_C,
            0x6A => CBByteInstr::BIT_5_D,
            0x6B => CBByteInstr::BIT_5_E,
            0x6C => CBByteInstr::BIT_5_H,
            0x6D => CBByteInstr::BIT_5_L,
            0x6E => CBByteInstr::BIT_5_xHLx,
            0x6F => CBByteInstr::BIT_5_A,
            0x70 => CBByteInstr::BIT_6_B,
            0x71 => CBByteInstr::BIT_6_C,
            0x72 => CBByteInstr::BIT_6_D,
            0x73 => CBByteInstr::BIT_6_E,
            0x74 => CBByteInstr::BIT_6_H,
            0x75 => CBByteInstr::BIT_6_L,
            0x76 => CBByteInstr::BIT_6_xHLx,
            0x77 => CBByteInstr::BIT_6_A,
            0x78 => CBByteInstr::BIT_7_B,
            0x79 => CBByteInstr::BIT_7_C,
            0x7A => CBByteInstr::BIT_7_D,
            0x7B => CBByteInstr::BIT_7_E,
            0x7C => CBByteInstr::BIT_7_H,
            0x7D => CBByteInstr::BIT_7_L,
            0x7E => CBByteInstr::BIT_7_xHLx,
            0x7F => CBByteInstr::BIT_7_A,
            0x80 => CBByteInstr::RES_0_B,
            0x81 => CBByteInstr::RES_0_C,
            0x82 => CBByteInstr::RES_0_D,
            0x83 => CBByteInstr::RES_0_E,
            0x84 => CBByteInstr::RES_0_H,
            0x85 => CBByteInstr::RES_0_L,
            0x86 => CBByteInstr::RES_0_xHLx,
            0x87 => CBByteInstr::RES_0_A,
            0x88 => CBByteInstr::RES_1_B,
            0x89 => CBByteInstr::RES_1_C,
            0x8A => CBByteInstr::RES_1_D,
            0x8B => CBByteInstr::RES_1_E,
            0x8C => CBByteInstr::RES_1_H,
            0x8D => CBByteInstr::RES_1_L,
            0x8E => CBByteInstr::RES_1_xHLx,
            0x8F => CBByteInstr::RES_1_A,
            0x90 => CBByteInstr::RES_2_B,
            0x91 => CBByteInstr::RES_2_C,
            0x92 => CBByteInstr::RES_2_D,
            0x93 => CBByteInstr::RES_2_E,
            0x94 => CBByteInstr::RES_2_H,
            0x95 => CBByteInstr::RES_2_L,
            0x96 => CBByteInstr::RES_2_xHLx,
            0x97 => CBByteInstr::RES_2_A,
            0x98 => CBByteInstr::RES_3_B,
            0x99 => CBByteInstr::RES_3_C,
            0x9A => CBByteInstr::RES_3_D,
            0x9B => CBByteInstr::RES_3_E,
            0x9C => CBByteInstr::RES_3_H,
            0x9D => CBByteInstr::RES_3_L,
            0x9E => CBByteInstr::RES_3_xHLx,
            0x9F => CBByteInstr::RES_3_A,
            0xA0 => CBByteInstr::RES_4_B,
            0xA1 => CBByteInstr::RES_4_C,
            0xA2 => CBByteInstr::RES_4_D,
            0xA3 => CBByteInstr::RES_4_E,
            0xA4 => CBByteInstr::RES_4_H,
            0xA5 => CBByteInstr::RES_4_L,
            0xA6 => CBByteInstr::RES_4_xHLx,
            0xA7 => CBByteInstr::RES_4_A,
            0xA8 => CBByteInstr::RES_5_B,
            0xA9 => CBByteInstr::RES_5_C,
            0xAA => CBByteInstr::RES_5_D,
            0xAB => CBByteInstr::RES_5_E,
            0xAC => CBByteInstr::RES_5_H,
            0xAD => CBByteInstr::RES_5_L,
            0xAE => CBByteInstr::RES_5_xHLx,
            0xAF => CBByteInstr::RES_5_A,
            0xB0 => CBByteInstr::RES_6_B,
            0xB1 => CBByteInstr::RES_6_C,
            0xB2 => CBByteInstr::RES_6_D,
            0xB3 => CBByteInstr::RES_6_E,
            0xB4 => CBByteInstr::RES_6_H,
            0xB5 => CBByteInstr::RES_6_L,
            0xB6 => CBByteInstr::RES_6_xHLx,
            0xB7 => CBByteInstr::RES_6_A,
            0xB8 => CBByteInstr::RES_7_B,
            0xB9 => CBByteInstr::RES_7_C,
            0xBA => CBByteInstr::RES_7_D,
            0xBB => CBByteInstr::RES_7_E,
            0xBC => CBByteInstr::RES_7_H,
            0xBD => CBByteInstr::RES_7_L,
            0xBE => CBByteInstr::RES_7_xHLx,
            0xBF => CBByteInstr::RES_7_A,
            0xC0 => CBByteInstr::SET_0_B,
            0xC1 => CBByteInstr::SET_0_C,
            0xC2 => CBByteInstr::SET_0_D,
            0xC3 => CBByteInstr::SET_0_E,
            0xC4 => CBByteInstr::SET_0_H,
            0xC5 => CBByteInstr::SET_0_L,
            0xC6 => CBByteInstr::SET_0_xHLx,
            0xC7 => CBByteInstr::SET_0_A,
            0xC8 => CBByteInstr::SET_1_B,
            0xC9 => CBByteInstr::SET_1_C,
            0xCA => CBByteInstr::SET_1_D,
            0xCB => CBByteInstr::SET_1_E,
            0xCC => CBByteInstr::SET_1_H,
            0xCD => CBByteInstr::SET_1_L,
            0xCE => CBByteInstr::SET_1_xHLx,
            0xCF => CBByteInstr::SET_1_A,
            0xD0 => CBByteInstr::SET_2_B,
            0xD1 => CBByteInstr::SET_2_C,
            0xD2 => CBByteInstr::SET_2_D,
            0xD3 => CBByteInstr::SET_2_E,
            0xD4 => CBByteInstr::SET_2_H,
            0xD5 => CBByteInstr::SET_2_L,
            0xD6 => CBByteInstr::SET_2_xHLx,
            0xD7 => CBByteInstr::SET_2_A,
            0xD8 => CBByteInstr::SET_3_B,
            0xD9 => CBByteInstr::SET_3_C,
            0xDA => CBByteInstr::SET_3_D,
            0xDB => CBByteInstr::SET_3_E,
            0xDC => CBByteInstr::SET_3_H,
            0xDD => CBByteInstr::SET_3_L,
            0xDE => CBByteInstr::SET_3_xHLx,
            0xDF => CBByteInstr::SET_3_A,
            0xE0 => CBByteInstr::SET_4_B,
            0xE1 => CBByteInstr::SET_4_C,
            0xE2 => CBByteInstr::SET_4_D,
            0xE3 => CBByteInstr::SET_4_E,
            0xE4 => CBByteInstr::SET_4_H,
            0xE5 => CBByteInstr::SET_4_L,
            0xE6 => CBByteInstr::SET_4_xHLx,
            0xE7 => CBByteInstr::SET_4_A,
            0xE8 => CBByteInstr::SET_5_B,
            0xE9 => CBByteInstr::SET_5_C,
            0xEA => CBByteInstr::SET_5_D,
            0xEB => CBByteInstr::SET_5_E,
            0xEC => CBByteInstr::SET_5_H,
            0xED => CBByteInstr::SET_5_L,
            0xEE => CBByteInstr::SET_5_xHLx,
            0xEF => CBByteInstr::SET_5_A,
            0xF0 => CBByteInstr::SET_6_B,
            0xF1 => CBByteInstr::SET_6_C,
            0xF2 => CBByteInstr::SET_6_D,
            0xF3 => CBByteInstr::SET_6_E,
            0xF4 => CBByteInstr::SET_6_H,
            0xF5 => CBByteInstr::SET_6_L,
            0xF6 => CBByteInstr::SET_6_xHLx,
            0xF7 => CBByteInstr::SET_6_A,
            0xF8 => CBByteInstr::SET_7_B,
            0xF9 => CBByteInstr::SET_7_C,
            0xFA => CBByteInstr::SET_7_D,
            0xFB => CBByteInstr::SET_7_E,
            0xFC => CBByteInstr::SET_7_H,
            0xFD => CBByteInstr::SET_7_L,
            0xFE => CBByteInstr::SET_7_xHLx,
            _ => CBByteInstr::SET_7_A,
        }
    }

    /// What the instruction does, and to which operand.
    pub open spec fn semantics(self) -> (CbOp, Operand8) {
        match self {
            CBByteInstr::RLC_B => (CbOp::Rlc, Operand8::Reg(R8::B)),
            CBByteInstr::RLC_C => (CbOp::Rlc, Operand8::Reg(R8::C)),
            CBByteInstr::RLC_D => (CbOp::Rlc, Operand8::Reg(R8::D)),
            CBByteInstr::RLC_E => (CbOp::Rlc, Operand8::Reg(R8::E)),
            CBByteInstr::RLC_H => (CbOp::Rlc, Operand8::Reg(R8::H)),
            CBByteInstr::RLC_L => (CbOp::Rlc, Operand8::Reg(R8::L)),
            CBByteInstr::RLC_xHLx => (CbOp::Rlc, Operand8::Ind(R16::HL)),
            CBByteInstr::RLC_A => (CbOp::Rlc, Operand8::Reg(R8::A)),
            CBByteInstr::RRC_B => (CbOp::Rrc, Operand8::Reg(R8::B)),
            CBByteInstr::RRC_C => (CbOp::Rrc, Operand8::Reg(R8::C)),
            CBByteInstr::RRC_D => (CbOp::Rrc, Operand8::Reg(R8::D)),
            CBByteInstr::RRC_E => (CbOp::Rrc, Operand8::Reg(R8::E)),
            CBByteInstr::RRC_H => (CbOp::Rrc, Operand8::Reg(R8::H)),
            CBByteInstr::RRC_L => (CbOp::Rrc, Operand8::Reg(R8::L)),
            CBByteInstr::RRC_xHLx => (CbOp::Rrc, Operand8::Ind(R16::HL)),
            CBByteInstr::RRC_A => (CbOp::Rrc, Operand8::Reg(R8::A)),
            CBByteInstr::RL_B => (CbOp::Rl, Operand8::Reg(R8::B)),
            CBByteInstr::RL_C => (CbOp::Rl, Operand8::Reg(R8::C)),
            CBByteInstr::RL_D => (CbOp::Rl, Operand8::Reg(R8::D)),
            CBByteInstr::RL_E => (CbOp::Rl, Operand8::Reg(R8::E)),
            CBByteInstr::RL_H => (CbOp::Rl, Operand8::Reg(R8::H)),
            CBByteInstr::RL_L => (CbOp::Rl, Operand8::Reg(R8::L)),
            CBByteInstr::RL_xHLx => (CbOp::Rl, Operand8::Ind(R16::HL)),
            CBByteInstr::RL_A => (CbOp::Rl, Operand8::Reg(R8::A)),
            CBByteInstr::RR_B => (CbOp::Rr, Operand8::Reg(R8::B)),
            CBByteInstr::RR_C => (CbOp::Rr, Operand8::Reg(R8::C)),
            CBByteInstr::RR_D => (CbOp::Rr, Operand8::Reg(R8::D)),
            CBByteInstr::RR_E => (CbOp::Rr, Operand8::Reg(R8::E)),
            CBByteInstr::RR_H => (CbOp::Rr, Operand8::Reg(R8::H)),
            CBByteInstr::RR_L => (CbOp::Rr, Operand8::Reg(R8::L)),
            CBByteInstr::RR_xHLx => (CbOp::Rr, Operand8::Ind(R16::HL)),
            CBByteInstr::RR_A => (CbOp::Rr, Operand8::Reg(R8::A)),
            CBByteInstr::SLA_B => (CbOp::Sla, Operand8::Reg(R8::B)),
            CBByteInstr::SLA_C => (CbOp::Sla, Operand8::Reg(R8::C)),
            CBByteInstr::SLA_D => (CbOp::Sla, Operand8::Reg(R8::D)),
            CBByteInstr::SLA_E => (CbOp::Sla, Operand8::Reg(R8::E)),
            CBByteInstr::SLA_H => (CbOp::Sla, Operand8::Reg(R8::H)),
            CBByteInstr::SLA_L => (CbOp::Sla, Operand8::Reg(R8::L)),
            CBByteInstr::SLA_xHLx => (CbOp::Sla, Operand8::Ind(R16::HL)),
            CBByteInstr::SLA_A => (CbOp::Sla, Operand8::Reg(R8::A)),
            CBByteInstr::SRA_B => (CbOp::Sra, Operand8::Reg(R8::B)),
            CBByteInstr::SRA_C => (CbOp::Sra, Operand8::Reg(R8::C)),
            CBByteInstr::SRA_D => (CbOp::Sra, Operand8::Reg(R8::D)),
            CBByteInstr::SRA_E => (CbOp::Sra, Operand8::Reg(R8::E)),
            CBByteInstr::SRA_H => (CbOp::Sra, Operand8::Reg(R8::H)),
            CBByteInstr::SRA_L => (CbOp::Sra, Operand8::Reg(R8::L)),
            CBByteInstr::SRA_xHLx => (CbOp::Sra, Operand8::Ind(R16::HL)),
            CBByteInstr::SRA_A => (CbOp::Sra, Operand8::Reg(R8::A)),
            CBByteInstr::SWAP_B => (CbOp::Swap, Operand8::Reg(R8::B)),
            CBByteInstr::SWAP_C => (CbOp::Swap, Operand8::Reg(R8::C)),
            CBByteInstr::SWAP_D => (CbOp::Swap, Operand8::Reg(R8::D)),
            CBByteInstr::SWAP_E => (CbOp::Swap, Operand8::Reg(R8::E)),
            CBByteInstr::SWAP_H => (CbOp::Swap, Operand8::Reg(R8::H)),
            CBByteInstr::SWAP_L => (CbOp::Swap, Operand8::Reg(R8::L)),
            CBByteInstr::SWAP_xHLx => (CbOp::Swap, Operand8::Ind(R16::HL)),
            CBByteInstr::SWAP_A => (CbOp::Swap, Operand8::Reg(R8::A)),
            CBByteInstr::SRL_B => (CbOp::Srl, Operand8::Reg(R8::B)),
            CBByteInstr::SRL_C => (CbOp::Srl, Operand8::Reg(R8::C)),
            CBByteInstr::SRL_D => (CbOp::Srl, Operand8::Reg(R8::D)),
            CBByteInstr::SRL_E => (CbOp::Srl, Operand8::Reg(R8::E)),
            CBByteInstr::SRL_H => (CbOp::Srl, Operand8::Reg(R8::H)),
            CBByteInstr::SRL_L => (CbOp::Srl, Operand8::Reg(R8::L)),
            CBByteInstr::SRL_xHLx => (CbOp::Srl, Operand8::Ind(R16::HL)),
            CBByteInstr::SRL_A => (CbOp::Srl, Operand8::Reg(R8::A)),
            CBByteInstr::BIT_0_B => (CbOp::Bit(0), Operand8::Reg(R8::B)),
            CBByteInstr::BIT_0_C => (CbOp::Bit(0), Operand8::Reg(R8::C)),
            CBByteInstr::BIT_0_D => (CbOp::Bit(0), Operand8::Reg(R8::D)),
            CBByteInstr::BIT_0_E => (CbOp::Bit(0), Operand8::Reg(R8::E)),
            CBByteInstr::BIT_0_H => (CbOp::Bit(0), Operand8::Reg(R8::H)),
            CBByteInstr::BIT_0_L => (CbOp::Bit(0), Operand8::Reg(R8::L)),
            CBByteInstr::BIT_0_xHLx => (CbOp::Bit(0), Operand8::Ind(R16::HL)),
            CBByteInstr::BIT_0_A => (CbOp::Bit(0), Operand8::Reg(R8::A)),
            CBByteInstr::BIT_1_B => (CbOp::Bit(1), Operand8::Reg(R8::B)),
            CBByteInstr::BIT_1_C => (CbOp::Bit(1), Operand8::Reg(R8::C)),
            CBByteInstr::BIT_1_D => (CbOp::Bit(1), Operand8::Reg(R8::D)),
            CBByteInstr::BIT_1_E => (CbOp::Bit(1), Operand8::Reg(R8::E)),
            CBByteInstr::BIT_1_H => (CbOp::Bit(1), Operand8::Reg(R8::H)),
            CBByteInstr::BIT_1_L => (CbOp::Bit(1), Operand8::Reg(R8::L)),
            CBByteInstr::BIT_1_xHLx => (CbOp::Bit(1), Operand8::Ind(R16::HL)),
            CBByteInstr::BIT_1_A => (CbOp::Bit(1), Operand8::Reg(R8::A)),
            CBByteInstr::BIT_2_B => (CbOp::Bit(2), Operand8::Reg(R8::B)),
            CBByteInstr::BIT_2_C => (CbOp::Bit(2), Operand8::Reg(R8::C)),
            CBByteInstr::BIT_2_D => (CbOp::Bit(2), Operand8::Reg(R8::D)),
            CBByteInstr::BIT_2_E => (CbOp::Bit(2), Operand8::Reg(R8::E)),
            CBByteInstr::BIT_2_H => (CbOp::Bit(2), Operand8::Reg(R8::H)),
            CBByteInstr::BIT_2_L => (CbOp::Bit(2), Operand8::Reg(R8::L)),
            CBByteInstr::BIT_2_xHLx => (CbOp::Bit(2), Operand8::Ind(R16::HL)),
            CBByteInstr::BIT_2_A => (CbOp::Bit(2), Operand8::Reg(R8::A)),
            CBByteInstr::BIT_3_B => (CbOp::Bit(3), Operand8::Reg(R8::B)),
            CBByteInstr::BIT_3_C => (CbOp::Bit(3), Operand8::Reg(R8::C)),
            CBByteInstr::BIT_3_D => (CbOp::Bit(3), Operand8::Reg(R8::D)),
            CBByteInstr::BIT_3_E => (CbOp::Bit(3), Operand8::Reg(R8::E)),
            CBByteInstr::BIT_3_H => (CbOp::Bit(3), Operand8::Reg(R8::H)),
            CBByteInstr::BIT_3_L => (CbOp::Bit(3), Operand8::Reg(R8::L)),
            CBByteInstr::BIT_3_xHLx => (CbOp::Bit(3), Operand8::Ind(R16::HL)),
            CBByteInstr::BIT_3_A => (CbOp::Bit(3), Operand8::Reg(R8::A)),
            CBByteInstr::BIT_4_B => (CbOp::Bit(4), Operand8::Reg(R8::B)),
            CBByteInstr::BIT_4_C => (CbOp::Bit(4), Operand8::Reg(R8::C)),
            CBByteInstr::BIT_4_D => (CbOp::Bit(4), Operand8::Reg(R8::D)),
            CBByteInstr::BIT_4_E => (CbOp::Bit(4), Operand8::Reg(R8::E)),
            CBByteInstr::BIT_4_H => (CbOp::Bit(4), Operand8::Reg(R8::H)),
            CBByteInstr::BIT_4_L => (CbOp::Bit(4), Operand8::Reg(R8::L)),
            CBByteInstr::BIT_4_xHLx => (CbOp::Bit(4), Operand8::Ind(R16::HL)),
            CBByteInstr::BIT_4_A => (CbOp::Bit(4), Operand8::Reg(R8::A)),
            CBByteInstr::BIT_5_B => (CbOp::Bit(5), Operand8::Reg(R8::B)),
            CBByteInstr::BIT_5_C => (CbOp::Bit(5), Operand8::Reg(R8::C)),
            CBByteInstr::BIT_5_D => (CbOp::Bit(5), Operand8::Reg(R8::D)),
            CBByteInstr::BIT_5_E => (CbOp::Bit(5), Operand8::Reg(R8::E)),
            CBByteInstr::BIT_5_H => (CbOp::Bit(5), Operand8::Reg(R8::H)),
            CBByteInstr::BIT_5_L => (CbOp::Bit(5), Operand8::Reg(R8::L)),
            CBByteInstr::BIT_5_xHLx => (CbOp::Bit(5), Operand8::Ind(R16::HL)),
            CBByteInstr::BIT_5_A => (CbOp::Bit(5), Operand8::Reg(R8::A)),
            CBByteInstr::BIT_6_B => (CbOp::Bit(6), Operand8::Reg(R8::B)),
            CBByteInstr::BIT_6_C => (CbOp::Bit(6), Operand8::Reg(R8::C)),
            CBByteInstr::BIT_6_D => (CbOp::Bit(6), Operand8::Reg(R8::D)),
            CBByteInstr::BIT_6_E => (CbOp::Bit(6), Operand8::Reg(R8::E)),
            CBByteInstr::BIT_6_H => (CbOp::Bit(6), Operand8::Reg(R8::H)),
            CBByteInstr::BIT_6_L => (CbOp::Bit(6), Operand8::Reg(R8::L)),
            CBByteInstr::BIT_6_xHLx => (CbOp::Bit(6), Operand8::Ind(R16::HL)),
            CBByteInstr::BIT_6_A => (CbOp::Bit(6), Operand8::Reg(R8::A)),
            CBByteInstr::BIT_7_B => (CbOp::Bit(7), Operand8::Reg(R8::B)),
            CBByteInstr::BIT_7_C => (CbOp::Bit(7), Operand8::Reg(R8::C)),
            CBByteInstr::BIT_7_D => (CbOp::Bit(7), Operand8::Reg(R8::D)),
            CBByteInstr::BIT_7_E => (CbOp::Bit(7), Operand8::Reg(R8::E)),
            CBByteInstr::BIT_7_H => (CbOp::Bit(7), Operand8::Reg(R8::H)),
            CBByteInstr::BIT_7_L => (CbOp::Bit(7), Operand8::Reg(R8::L)),
            CBByteInstr::BIT_7_xHLx => (CbOp::Bit(7), Operand8::Ind(R16::HL)),
            CBByteInstr::BIT_7_A => (CbOp::Bit(7), Operand8::Reg(R8::A)),
            CBByteInstr::RES_0_B => (CbOp::Res(0), Operand8::Reg(R8::B)),
            CBByteInstr::RES_0_C => (CbOp::Res(0), Operand8::Reg(R8::C)),
            CBByteInstr::RES_0_D => (CbOp::Res(0), Operand8::Reg(R8::D)),
            CBByteInstr::RES_0_E => (CbOp::Res(0), Operand8::Reg(R8::E)),
            CBByteInstr::RES_0_H => (CbOp::Res(0), Operand8::Reg(R8::H)),
            CBByteInstr::RES_0_L => (CbOp::Res(0), Operand8::Reg(R8::L)),
            CBByteInstr::RES_0_xHLx => (CbOp::Res(0), Operand8::Ind(R16::HL)),
            CBByteInstr::RES_0_A => (CbOp::Res(0), Operand8::Reg(R8::A)),
            CBByteInstr::RES_1_B => (CbOp::Res(1), Operand8::Reg(R8::B)),
            CBByteInstr::RES_1_C => (CbOp::Res(1), Operand8::Reg(R8::C)),
            CBByteInstr::RES_1_D => (CbOp::Res(1), Operand8::Reg(R8::D)),
            CBByteInstr::RES_1_E => (CbOp::Res(1), Operand8::Reg(R8::E)),
            CBByteInstr::RES_1_H => (CbOp::Res(1), Operand8::Reg(R8::H)),
            CBByteInstr::RES_1_L => (CbOp::Res(1), Operand8::Reg(R8::L)),
            CBByteInstr::RES_1_xHLx => (CbOp::Res(1), Operand8::Ind(R16::HL)),
            CBByteInstr::RES_1_A => (CbOp::Res(1), Operand8::Reg(R8::A)),
            CBByteInstr::RES_2_B => (CbOp::Res(2), Operand8::Reg(R8::B)),
            CBByteInstr::RES_2_C => (CbOp::Res(2), Operand8::Reg(R8::C)),
            CBByteInstr::RES_2_D => (CbOp::Res(2), Operand8::Reg(R8::D)),
            CBByteInstr::RES_2_E => (CbOp::Res(2), Operand8::Reg(R8::E)),
            CBByteInstr::RES_2_H => (CbOp::Res(2), Operand8::Reg(R8::H)),
            CBByteInstr::RES_2_L => (CbOp::Res(2), Operand8::Reg(R8::L)),
            CBByteInstr::RES_2_xHLx => (CbOp::Res(2), Operand8::Ind(R16::HL)),
            CBByteInstr::RES_2_A => (CbOp::Res(2), Operand8::Reg(R8::A)),
            CBByteInstr::RES_3_B => (CbOp::Res(3), Operand8::Reg(R8::B)),
            CBByteInstr::RES_3_C => (CbOp::Res(3), Operand8::Reg(R8::C)),
            CBByteInstr::RES_3_D => (CbOp::Res(3), Operand8::Reg(R8::D)),
            CBByteInstr::RES_3_E => (CbOp::Res(3), Operand8::Reg(R8::E)),
            CBByteInstr::RES_3_H => (CbOp::Res(3), Operand8::Reg(R8::H)),
            CBByteInstr::RES_3_L => (CbOp::Res(3), Operand8::Reg(R8::L)),
            CBByteInstr::RES_3_xHLx => (CbOp::Res(3), Operand8::Ind(R16::HL)),
            CBByteInstr::RES_3_A => (CbOp::Res(3), Operand8::Reg(R8::A)),
            CBByteInstr::RES_4_B => (CbOp::Res(4), Operand8::Reg(R8::B)),
            CBByteInstr::RES_4_C => (CbOp::Res(4), Operand8::Reg(R8::C)),
            CBByteInstr::RES_4_D => (CbOp::Res(4), Operand8::Reg(R8::D)),
            CBByteInstr::RES_4_E => (CbOp::Res(4), Operand8::Reg(R8::E)),
            CBByteInstr::RES_4_H => (CbOp::Res(4), Operand8::Reg(R8::H)),
            CBByteInstr::RES_4_L => (CbOp::Res(4), Operand8::Reg(R8::L)),
            CBByteInstr::RES_4_xHLx => (CbOp::Res(4), Operand8::Ind(R16::HL)),
            CBByteInstr::RES_4_A => (CbOp::Res(4), Operand8::Reg(R8::A)),
            CBByteInstr::RES_5_B => (CbOp::Res(5), Operand8::Reg(R8::B)),
            CBByteInstr::RES_5_C => (CbOp::Res(5), Operand8::Reg(R8::C)),
            CBByteInstr::RES_5_D => (CbOp::Res(5), Operand8::Reg(R8::D)),
            CBByteInstr::RES_5_E => (CbOp::Res(5), Operand8::Reg(R8::E)),
            CBByteInstr::RES_5_H => (CbOp::Res(5), Operand8::Reg(R8::H)),
            CBByteInstr::RES_5_L => (CbOp::Res(5), Operand8::Reg(R8::L)),
            CBByteInstr::RES_5_xHLx => (CbOp::Res(5), Operand8::Ind(R16::HL)),
            CBByteInstr::RES_5_A => (CbOp::Res(5), Operand8::Reg(R8::A)),
            CBByteInstr::RES_6_B => (CbOp::Res(6), Operand8::Reg(R8::B)),
            CBByteInstr::RES_6_C => (CbOp::Res(6), Operand8::Reg(R8::C)),
            CBByteInstr::RES_6_D => (CbOp::Res(6), Operand8::Reg(R8::D)),
            CBByteInstr::RES_6_E => (CbOp::Res(6), Operand8::Reg(R8::E)),
            CBByteInstr::RES_6_H => (CbOp::Res(6), Operand8::Reg(R8::H)),
            CBByteInstr::RES_6_L => (CbOp::Res(6), Operand8::Reg(R8::L)),
            CBByteInstr::RES_6_xHLx => (CbOp::Res(6), Operand8::Ind(R16::HL)),
            CBByteInstr::RES_6_A => (CbOp::Res(6), Operand8::Reg(R8::A)),
            CBByteInstr::RES_7_B => (CbOp::Res(7), Operand8::Reg(R8::B)),
            CBByteInstr::RES_7_C => (CbOp::Res(7), Operand8::Reg(R8::C)),
            CBByteInstr::RES_7_D => (CbOp::Res(7), Operand8::Reg(R8::D)),
            CBByteInstr::RES_7_E => (CbOp::Res(7), Operand8::Reg(R8::E)),
            CBByteInstr::RES_7_H => (CbOp::Res(7), Operand8::Reg(R8::H)),
            CBByteInstr::RES_7_L => (CbOp::Res(7), Operand8::Reg(R8::L)),
            CBByteInstr::RES_7_xHLx => (CbOp::Res(7), Operand8::Ind(R16::HL)),
            CBByteInstr::RES_7_A => (CbOp::Res(7), Operand8::Reg(R8::A)),
            CBByteInstr::SET_0_B => (CbOp::SetBit(0), Operand8::Reg(R8::B)),
            CBByteInstr::SET_0_C => (CbOp::SetBit(0), Operand8::Reg(R8::C)),
            CBByteInstr::SET_0_D => (CbOp::SetBit(0), Operand8::Reg(R8::D)),
            CBByteInstr::SET_0_E => (CbOp::SetBit(0), Operand8::Reg(R8::E)),
            CBByteInstr::SET_0_H => (CbOp::SetBit(0), Operand8::Reg(R8::H)),
            CBByteInstr::SET_0_L => (CbOp::SetBit(0), Operand8::Reg(R8::L)),
            CBByteInstr::SET_0_xHLx => (CbOp::SetBit(0), Operand8::Ind(R16::HL)),
            CBByteInstr::SET_0_A => (CbOp::SetBit(0), Operand8::Reg(R8::A)),
            CBByteInstr::SET_1_B => (CbOp::SetBit(1), Operand8::Reg(R8::B)),
            CBByteInstr::SET_1_C => (CbOp::SetBit(1), Operand8::Reg(R8::C)),
            CBByteInstr::SET_1_D => (CbOp::SetBit(1), Operand8::Reg(R8::D)),
            CBByteInstr::SET_1_E => (CbOp::SetBit(1), Operand8::Reg(R8::E)),
            CBByteInstr::SET_1_H => (CbOp::SetBit(1), Operand8::Reg(R8::H)),
            CBByteInstr::SET_1_L => (CbOp::SetBit(1), Operand8::Reg(R8::L)),
            CBByteInstr::SET_1_xHLx => (CbOp::SetBit(1), Operand8::Ind(R16::HL)),
            CBByteInstr::SET_1_A => (CbOp::SetBit(1), Operand8::Reg(R8::A)),
            CBByteInstr::SET_2_B => (CbOp::SetBit(2), Operand8::Reg(R8::B)),
            CBByteInstr::SET_2_C => (CbOp::SetBit(2), Operand8::Reg(R8::C)),
            CBByteInstr::SET_2_D => (CbOp::SetBit(2), Operand8::Reg(R8::D)),
            CBByteInstr::SET_2_E => (CbOp::SetBit(2), Operand8::Reg(R8::E)),
            CBByteInstr::SET_2_H => (CbOp::SetBit(2), Operand8::Reg(R8::H)),
            CBByteInstr::SET_2_L => (CbOp::SetBit(2), Operand8::Reg(R8::L)),
            CBByteInstr::SET_2_xHLx => (CbOp::SetBit(2), Operand8::Ind(R16::HL)),
            CBByteInstr::SET_2_A => (CbOp::SetBit(2), Operand8::Reg(R8::A)),
            CBByteInstr::SET_3_B => (CbOp::SetBit(3), Operand8::Reg(R8::B)),
            CBByteInstr::SET_3_C => (CbOp::SetBit(3), Operand8::Reg(R8::C)),
            CBByteInstr::SET_3_D => (CbOp::SetBit(3), Operand8::Reg(R8::D)),
            CBByteInstr::SET_3_E => (CbOp::SetBit(3), Operand8::Reg(R8::E)),
            CBByteInstr::SET_3_H => (CbOp::SetBit(3), Operand8::Reg(R8::H)),
            CBByteInstr::SET_3_L => (CbOp::SetBit(3), Operand8::Reg(R8::L)),
            CBByteInstr::SET_3_xHLx => (CbOp::SetBit(3), Operand8::Ind(R16::HL)),
            CBByteInstr::SET_3_A => (CbOp::SetBit(3), Operand8::Reg(R8::A)),
            CBByteInstr::SET_4_B => (CbOp::SetBit(4), Operand8::Reg(R8::B)),
            CBByteInstr::SET_4_C => (CbOp::SetBit(4), Operand8::Reg(R8::C)),
            CBByteInstr::SET_4_D => (CbOp::SetBit(4), Operand8::Reg(R8::D)),
            CBByteInstr::SET_4_E => (CbOp::SetBit(4), Operand8::Reg(R8::E)),
            CBByteInstr::SET_4_H => (CbOp::SetBit(4), Operand8::Reg(R8::H)),
            CBByteInstr::SET_4_L => (CbOp::SetBit(4), Operand8::Reg(R8::L)),
            CBByteInstr::SET_4_xHLx => (CbOp::SetBit(4), Operand8::Ind(R16::HL)),
            CBByteInstr::SET_4_A => (CbOp::SetBit(4), Operand8::Reg(R8::A)),
            CBByteInstr::SET_5_B => (CbOp::SetBit(5), Operand8::Reg(R8::B)),
            CBByteInstr::SET_5_C => (CbOp::SetBit(5), Operand8::Reg(R8::C)),
            CBByteInstr::SET_5_D => (CbOp::SetBit(5), Operand8::Reg(R8::D)),
            CBByteInstr::SET_5_E => (CbOp::SetBit(5), Operand8::Reg(R8::E)),
            CBByteInstr::SET_5_H => (CbOp::SetBit(5), Operand8::Reg(R8::H)),
            CBByteInstr::SET_5_L => (CbOp::SetBit(5), Operand8::Reg(R8::L)),
            CBByteInstr::SET_5_xHLx => (CbOp::SetBit(5), Operand8::Ind(R16::HL)),
            CBByteInstr::SET_5_A => (CbOp::SetBit(5), Operand8::Reg(R8::A)),
            CBByteInstr::SET_6_B => (CbOp::SetBit(6), Operand8::Reg(R8::B)),
            CBByteInstr::SET_6_C => (CbOp::SetBit(6), Operand8::Reg(R8::C)),
            CBByteInstr::SET_6_D => (CbOp::SetBit(6), Operand8::Reg(R8::D)),
            CBByteInstr::SET_6_E => (CbOp::SetBit(6), Operand8::Reg(R8::E)),
            CBByteInstr::SET_6_H => (CbOp::SetBit(6), Operand8::Reg(R8::H)),
            CBByteInstr::SET_6_L => (CbOp::SetBit(6), Operand8::Reg(R8::L)),
            CBByteInstr::SET_6_xHLx => (CbOp::SetBit(6), Operand8::Ind(R16::HL)),
            CBByteInstr::SET_6_A => (CbOp::SetBit(6), Operand8::Reg(R8::A)),
            CBByteInstr::SET_7_B => (CbOp::SetBit(7), Operand8::Reg(R8::B)),
            CBByteInstr::SET_7_C => (CbOp::SetBit(7), Operand8::Reg(R8::C)),
            CBByteInstr::SET_7_D => (CbOp::SetBit(7), Operand8::Reg(R8::D)),
            CBByteInstr::SET_7_E => (CbOp::SetBit(7), Operand8::Reg(R8::E)),
            CBByteInstr::SET_7_H => (CbOp::SetBit(7), Operand8::Reg(R8::H)),
            CBByteInstr::SET_7_L => (CbOp::SetBit(7), Operand8::Reg(R8::L)),
            CBByteInstr::SET_7_xHLx => (CbOp::SetBit(7), Operand8::Ind(R16::HL)),
            CBByteInstr::SET_7_A => (CbOp::SetBit(7), Operand8::Reg(R8::A)),
        }
    }
}

} // verus!
