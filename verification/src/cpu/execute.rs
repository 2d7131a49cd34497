use vstd::prelude::*;
use super::CPU;
use super::alu::{
    znhc, set_znhc, add8_post, adc8_post, sub8_post, sbc8_post, and8_post, xor8_post, or8_post, cp8_post,
    inc8_post, dec8_post, rlc_post, rrc_post, rl_post, rr_post, sla_post, sra_post, swap_post, srl_post,
    bit_post, rlca_post, rrca_post, rla_post, rra_post, daa_post, cpl_post, scf_post, ccf_post,
    add8_value, adc8_value, sub8_value, sbc8_value, and8_value, xor8_value, or8_value, cp8_value,
    inc8_value, dec8_value, rlc_value, rrc_value, rl_value, rr_value, sla_value, sra_value, swap_value,
    srl_value, bit_value, res_value, set_value,
};
use super::instruction::{AluOp, CbOp, Cond, Op, Operand8, OperandType};
use super::operands::{add16, operand_read, operand_written, with_reg};
use super::registers::{Flag, Flags, Registers, R16, R8};
use crate::board::{Board, next_addr};
use crate::cartridge::CartridgeMem;
use crate::debug::CpuEvt;

verus! {

/// A byte taken as a two's complement offset.
pub open spec fn sext(off: u8) -> int {
    if off >= 128 {
        off - 256
    } else {
        off as int
    }
}

/// The CPU with flags `f`.
pub open spec fn with_flags(c: CPU, f: Flags) -> CPU {
    CPU { reg: Registers { f, ..c.reg }, ..c }
}

/// Operands that an instruction both reads and writes back.
pub open spec fn rw_target(t: Operand8) -> bool {
    t is Reg || t == Operand8::Ind(R16::HL)
}

/// The flags of adding an offset to SP: Z and N clear, carries out of bit 3 and 7.
pub open spec fn sp_offset_flags(f: Flags, old: Flags, sp: u16, off: u8) -> bool {
    znhc(f, old, false, false, sp % 16 + off % 16 > 15, sp % 256 + off > 255)
}

/// What the arithmetic and logic operation `op` on A with `v` makes of `c0`.
pub open spec fn alu_post(op: AluOp, c0: CPU, v: u8, c1: CPU) -> bool {
    match op {
        AluOp::Add => add8_post(c0, v, c1),
        AluOp::Adc => adc8_post(c0, v, c1),
        AluOp::Sub => sub8_post(c0, v, c1),
        AluOp::Sbc => sbc8_post(c0, v, c1),
        AluOp::And => and8_post(c0, v, c1),
        AluOp::Xor => xor8_post(c0, v, c1),
        AluOp::Or => or8_post(c0, v, c1),
        AluOp::Cp => cp8_post(c0, v, c1, ((c0.reg.a - v) % 256) as u8),
    }
}

/// What the shift or rotation `op` of a value `v` does: the flags of `c1`
/// and the value `w` written back.
pub open spec fn shift_post(op: CbOp, c0: CPU, v: u8, c1: CPU, w: u8) -> bool {
    match op {
        CbOp::Rlc => rlc_post(c0, v, c1, w),
        CbOp::Rrc => rrc_post(c0, v, c1, w),
        CbOp::Rl => rl_post(c0, v, c1, w),
        CbOp::Rr => rr_post(c0, v, c1, w),
        CbOp::Sla => sla_post(c0, v, c1, w),
        CbOp::Sra => sra_post(c0, v, c1, w),
        CbOp::Swap => swap_post(c0, v, c1, w),
        CbOp::Srl => srl_post(c0, v, c1, w),
        _ => false,
    }
}

/// The bus side of pushing `val`: one idle cycle, then the word is written
/// below `sp`.
pub open spec fn pushed<C: CartridgeMem>(b0: Board<C>, sp: u16, val: u16, b1: Board<C>) -> bool {
    exists|bm: Board<C>| #[trigger] Board::ticked(b0, bm) && Board::write16_post(bm, add16(sp, 0xFFFE), val, b1)
}

/// PUSH rr: SP moves down by two, then rr is written there.
pub open spec fn push_post<C: CartridgeMem>(rr: R16, c0: CPU, b0: Board<C>, c1: CPU, b1: Board<C>) -> bool {
    let r = c0.reg;
    let sp2 = add16(r.sp, 0xFFFE);
    pushed(b0, r.sp, r.with16(R16::SP, sp2).get16(rr), b1) && c1 == with_reg(c0, r.with16(R16::SP, sp2))
}

/// POP rr: rr is read from SP, then SP moves up by two.
pub open spec fn pop_post<C: CartridgeMem>(rr: R16, c0: CPU, b0: Board<C>, c1: CPU, b1: Board<C>) -> bool {
    let r = c0.reg;
    exists|v: u16|
        #[trigger] Board::read16_post(b0, r.sp, b1, v) && c1 == with_reg(c0, r.with16(rr, v).with16(R16::SP, add16(r.with16(rr, v).sp, 2)))
}

/// POP AF: like POP, but the lower four bits of F always read as zero.
pub open spec fn pop_af_post<C: CartridgeMem>(c0: CPU, b0: Board<C>, c1: CPU, b1: Board<C>) -> bool {
    let r = c0.reg;
    exists|v: u16|
        #[trigger] Board::read16_post(b0, r.sp, b1, v) && c1 == with_reg(c0, r.with16(R16::AF, (v - v % 16) as u16).with16(R16::SP, add16(r.sp, 2)))
}

/// RET: pops PC, enables interrupts if `enable_ime`, then one idle cycle.
pub open spec fn ret_post<C: CartridgeMem>(c0: CPU, b0: Board<C>, enable_ime: bool, c1: CPU, b1: Board<C>) -> bool {
    exists|cm: CPU, bm: Board<C>|
        #[trigger] pop_post(R16::PC, c0, b0, cm, bm) && Board::ticked(bm, b1) && c1 == (CPU { ime: cm.ime || enable_ime, ..cm })
}

/// JR: the offset is read; if `take`, one more cycle and the jump.
pub open spec fn jr_post<C: CartridgeMem>(take: bool, c0: CPU, b0: Board<C>, c1: CPU, b1: Board<C>) -> bool {
    let r = c0.reg;
    let pc1 = next_addr(r.pc);
    exists|bm: Board<C>, off: u8|
        #[trigger] Board::read8_post(b0, r.pc, bm, off) && if take {
            Board::ticked(bm, b1) && c1 == with_reg(c0, r.with16(R16::PC, add16(pc1, sext(off))))
        } else {
            b1 == bm && c1 == with_reg(c0, r.with16(R16::PC, pc1))
        }
}

/// JP: the target is read; if `take`, one more cycle and the jump.
pub open spec fn jp_post<C: CartridgeMem>(take: bool, c0: CPU, b0: Board<C>, c1: CPU, b1: Board<C>) -> bool {
    let r = c0.reg;
    exists|bm: Board<C>, target: u16|
        #[trigger] Board::read16_post(b0, r.pc, bm, target) && if take {
            Board::ticked(bm, b1) && c1 == with_reg(c0, r.with16(R16::PC, target))
        } else {
            b1 == bm && c1 == with_reg(c0, r.with16(R16::PC, add16(r.pc, 2)))
        }
}

/// CALL: the target is read; if `take`, PC is pushed and the target goes to PC.
pub open spec fn call_post<C: CartridgeMem>(take: bool, c0: CPU, b0: Board<C>, c1: CPU, b1: Board<C>) -> bool {
    let r = c0.reg;
    let after = with_reg(c0, r.with16(R16::PC, add16(r.pc, 2)));
    exists|bm: Board<C>, target: u16|
        #[trigger] Board::read16_post(b0, r.pc, bm, target) && if take {
            exists|cm: CPU| #[trigger] push_post(R16::PC, after, bm, cm, b1) && c1 == with_reg(cm, cm.reg.with16(R16::PC, target))
        } else {
            b1 == bm && c1 == after
        }
}

/// A conditional RET: one cycle to check the condition, then RET if `take`.
pub open spec fn ret_cond_post<C: CartridgeMem>(take: bool, c0: CPU, b0: Board<C>, c1: CPU, b1: Board<C>) -> bool {
    exists|bm: Board<C>|
        #[trigger] Board::ticked(b0, bm) && if take {
            ret_post(c0, bm, false, c1, b1)
        } else {
            b1 == bm && c1 == c0
        }
}

/// What an instruction behind the 0xCB prefix does to `c0` and `b0`.
pub open spec fn cb_post<C: CartridgeMem>(op: (CbOp, Operand8), c0: CPU, b0: Board<C>, c1: CPU, b1: Board<C>) -> bool {
    let t = op.1;
    match op.0 {
        CbOp::Bit(n) => exists|bm: Board<C>, v: u8|
            #[trigger] operand_read(c0, b0, t, c0, bm, v) && bit_post(c0, n, v, c1) && b1 == bm,
        CbOp::Res(n) => exists|bm: Board<C>, v: u8|
            #[trigger] operand_read(c0, b0, t, c0, bm, v) && operand_written(c0, bm, t, v & !(1u8 << n), c1, b1),
        CbOp::SetBit(n) => exists|bm: Board<C>, v: u8|
            #[trigger] operand_read(c0, b0, t, c0, bm, v) && operand_written(c0, bm, t, v | (1u8 << n), c1, b1),
        _ => exists|bm: Board<C>, v: u8, w: u8|
            #![trigger operand_read(c0, b0, t, c0, bm, v), shift_post(op.0, c0, v, with_flags(c0, c1.reg.f), w)]
            operand_read(c0, b0, t, c0, bm, v) && shift_post(op.0, c0, v, with_flags(c0, c1.reg.f), w)
                && operand_written(c0, bm, t, w, with_flags(c1, c0.reg.f), b1),
    }
}

/// LD dst, src: the source is read, then the value is written to the destination.
pub open spec fn ld8_post<C: CartridgeMem>(dst: Operand8, src: Operand8, c0: CPU, b0: Board<C>, c1: CPU, b1: Board<C>) -> bool {
    exists|cm: CPU, bm: Board<C>, v: u8|
        #[trigger] operand_read(c0, b0, src, cm, bm, v) && operand_written(cm, bm, dst, v, c1, b1)
}

/// LD rr, d16: the word after the opcode goes to `rr`.
pub open spec fn ld_rr_d16_post<C: CartridgeMem>(rr: R16, c0: CPU, b0: Board<C>, c1: CPU, b1: Board<C>) -> bool {
    let r = c0.reg;
    exists|v: u16|
        #[trigger] Board::read16_post(b0, r.pc, b1, v) && c1 == with_reg(c0, r.with16(R16::PC, add16(r.pc, 2)).with16(rr, v))
}

/// LD (a16), SP: SP is written to the address after the opcode.
pub open spec fn ld_a16_sp_post<C: CartridgeMem>(c0: CPU, b0: Board<C>, c1: CPU, b1: Board<C>) -> bool {
    let r = c0.reg;
    exists|bm: Board<C>, a: u16|
        #[trigger] Board::read16_post(b0, r.pc, bm, a) && Board::write16_post(bm, a, r.sp, b1)
            && c1 == with_reg(c0, r.with16(R16::PC, add16(r.pc, 2)))
}

/// LD HL, SP+r8: the signed offset after the opcode is added to SP into HL.
pub open spec fn ld_hl_sp_r8_post<C: CartridgeMem>(c0: CPU, b0: Board<C>, c1: CPU, b1: Board<C>) -> bool {
    let r = c0.reg;
    exists|bm: Board<C>, off: u8|
        #[trigger] Board::read8_post(b0, r.pc, bm, off) && Board::ticked(bm, b1)
            && with_flags(c1, r.f) == with_reg(c0, r.with16(R16::PC, next_addr(r.pc)).with16(R16::HL, add16(r.sp, sext(off))))
            && sp_offset_flags(c1.reg.f, r.f, r.sp, off)
}

/// INC of an 8-bit operand.
pub open spec fn inc8_op_post<C: CartridgeMem>(t: Operand8, c0: CPU, b0: Board<C>, c1: CPU, b1: Board<C>) -> bool {
    exists|bm: Board<C>, v: u8|
        #[trigger] operand_read(c0, b0, t, c0, bm, v) && inc8_post(c0, v, with_flags(c0, c1.reg.f), ((v + 1) % 256) as u8)
            && operand_written(c0, bm, t, ((v + 1) % 256) as u8, with_flags(c1, c0.reg.f), b1)
}

/// DEC of an 8-bit operand.
pub open spec fn dec8_op_post<C: CartridgeMem>(t: Operand8, c0: CPU, b0: Board<C>, c1: CPU, b1: Board<C>) -> bool {
    exists|bm: Board<C>, v: u8|
        #[trigger] operand_read(c0, b0, t, c0, bm, v) && dec8_post(c0, v, with_flags(c0, c1.reg.f), ((v - 1) % 256) as u8)
            && operand_written(c0, bm, t, ((v - 1) % 256) as u8, with_flags(c1, c0.reg.f), b1)
}

/// ADD HL, rr.
pub open spec fn add_hl_rr_post<C: CartridgeMem>(rr: R16, c0: CPU, b0: Board<C>, c1: CPU, b1: Board<C>) -> bool {
    let r = c0.reg;
    let x = r.get16(rr);
    let hl = r.get16(R16::HL);
    let new = add16(hl, x as int);
    &&& Board::ticked(b0, b1)
    &&& with_flags(c1, r.f) == with_reg(c0, r.with16(R16::HL, new))
    &&& znhc(c1.reg.f, r.f, r.f.get(Flag::Z), false, hl % 0x1000 + x % 0x1000 > 0xFFF, hl + x > 0xFFFF)
}

/// ADD SP, r8.
pub open spec fn add_sp_r8_post<C: CartridgeMem>(c0: CPU, b0: Board<C>, c1: CPU, b1: Board<C>) -> bool {
    let r = c0.reg;
    exists|off: u8|
        #[trigger] Board::read8_post(b0, r.pc, b1, off)
            && with_flags(c1, r.f) == with_reg(c0, r.with16(R16::PC, next_addr(r.pc)).with16(R16::SP, add16(r.sp, sext(off))))
            && sp_offset_flags(c1.reg.f, r.f, r.sp, off)
}

/// An ALU operation on A with operand `src`.
pub open spec fn alu8_post<C: CartridgeMem>(aop: AluOp, src: Operand8, c0: CPU, b0: Board<C>, c1: CPU, b1: Board<C>) -> bool {
    exists|cm: CPU, bm: Board<C>, v: u8|
        #[trigger] operand_read(c0, b0, src, cm, bm, v) && alu_post(aop, cm, v, c1) && b1 == bm
}

/// RST: PC is pushed, then `target` goes to PC.
pub open spec fn rst_post<C: CartridgeMem>(target: u16, c0: CPU, b0: Board<C>, c1: CPU, b1: Board<C>) -> bool {
    exists|cm: CPU| #[trigger] push_post(R16::PC, c0, b0, cm, b1) && c1 == with_reg(cm, cm.reg.with16(R16::PC, target))
}

/// The 0xCB prefix: the next opcode is fetched, logged as `ExecCB`, and its
/// instruction executed.
pub open spec fn prefix_cb_post<C: CartridgeMem>(c0: CPU, b0: Board<C>, c1: CPU, b1: Board<C>) -> bool {
    let r = c0.reg;
    exists|bm: Board<C>, b: u8|
        #[trigger] Board::read8_post(b0, r.pc, bm, b) && exists|be: Board<C>|
            #[trigger] Board::evt_pushed(bm, CpuEvt::ExecCB(super::instruction::CBByteInstr::decode(b)), be)
                && cb_post(super::instruction::CBByteInstr::decode(b).semantics(), with_reg(c0, r.with16(R16::PC, next_addr(r.pc))), be, c1, b1)
}

/// What an instruction doing `op` does to the CPU (`c0` to `c1`) and the
/// board (`b0` to `b1`), the opcode already fetched.
#[verifier::opaque]
pub open spec fn op_post<C: CartridgeMem>(op: Op, c0: CPU, b0: Board<C>, c1: CPU, b1: Board<C>) -> bool {
    let r = c0.reg;
    match op {
        Op::Nop => c1 == c0 && b1 == b0,
        Op::Ld8(dst, src) => ld8_post(dst, src, c0, b0, c1, b1),
        Op::LdRrD16(rr) => ld_rr_d16_post(rr, c0, b0, c1, b1),
        Op::LdA16Sp => ld_a16_sp_post(c0, b0, c1, b1),
        Op::LdSpHl => Board::ticked(b0, b1) && c1 == with_reg(c0, r.with16(R16::SP, r.get16(R16::HL))),
        Op::LdHlSpR8 => ld_hl_sp_r8_post(c0, b0, c1, b1),
        Op::Inc8(t) => inc8_op_post(t, c0, b0, c1, b1),
        Op::Dec8(t) => dec8_op_post(t, c0, b0, c1, b1),
        Op::IncRr(rr) => Board::ticked(b0, b1) && c1 == with_reg(c0, r.with16(rr, next_addr(r.get16(rr)))),
        Op::DecRr(rr) => Board::ticked(b0, b1) && c1 == with_reg(c0, r.with16(rr, add16(r.get16(rr), 0xFFFF))),
        Op::AddHlRr(rr) => add_hl_rr_post(rr, c0, b0, c1, b1),
        Op::AddSpR8 => add_sp_r8_post(c0, b0, c1, b1),
        Op::Rlca => rlca_post(c0, c1) && b1 == b0,
        Op::Rrca => rrca_post(c0, c1) && b1 == b0,
        Op::Rla => rla_post(c0, c1) && b1 == b0,
        Op::Rra => rra_post(c0, c1) && b1 == b0,
        Op::Daa => daa_post(c0, c1) && b1 == b0,
        Op::Cpl => cpl_post(c0, c1) && b1 == b0,
        Op::Scf => scf_post(c0, c1) && b1 == b0,
        Op::Ccf => ccf_post(c0, c1) && b1 == b0,
        Op::Alu(aop, src) => alu8_post(aop, src, c0, b0, c1, b1),
        Op::Jr(cond) => jr_post(cond.holds(r.f), c0, b0, c1, b1),
        Op::Jp(cond) => jp_post(cond.holds(r.f), c0, b0, c1, b1),
        Op::JpHl => b1 == b0 && c1 == with_reg(c0, r.with16(R16::PC, r.get16(R16::HL))),
        Op::Call(cond) => call_post(cond.holds(r.f), c0, b0, c1, b1),
        Op::Ret => ret_post(c0, b0, false, c1, b1),
        Op::Reti => ret_post(c0, b0, true, c1, b1),
        Op::RetCond(cond) => ret_cond_post(cond.holds(r.f), c0, b0, c1, b1),
        Op::Rst(target) => rst_post(target, c0, b0, c1, b1),
        Op::Push(rr) => push_post(rr, c0, b0, c1, b1),
        Op::Pop(rr) => pop_post(rr, c0, b0, c1, b1),
        Op::PopAf => pop_af_post(c0, b0, c1, b1),
        Op::Halt => Board::evt_pushed(b0, CpuEvt::EnterHalt(super::HaltState::Halted), b1)
            && c1 == (CPU { halt_state: super::HaltState::Halted, ..c0 }),
        Op::Stop => Board::evt_pushed(b0, CpuEvt::EnterHalt(super::HaltState::Stopped), b1)
            && c1 == (CPU { halt_state: super::HaltState::Stopped, ..c0 }),
        Op::Stuck => Board::evt_pushed(b0, CpuEvt::EnterHalt(super::HaltState::Stuck), b1)
            && c1 == (CPU { halt_state: super::HaltState::Stuck, ..c0 }),
        Op::Di => Board::evt_pushed(b0, CpuEvt::IrDisable, b1) && c1 == (CPU { ime: false, ..c0 }),
        Op::Ei => Board::evt_pushed(b0, CpuEvt::IrEnable, b1) && c1 == (CPU { ime: true, ..c0 }),
        Op::PrefixCb => prefix_cb_post(c0, b0, c1, b1),
    }
}

pub fn ld8<C: CartridgeMem>(cpu: &mut CPU, board: &mut Board<C>, dst: Operand8, src: Operand8)
    requires
        old(board).wf(),
        !(dst is Imm8),
    ensures
        final(board).wf(),
        op_post(Op::Ld8(dst, src), *old(cpu), *old(board), *final(cpu), *final(board)),
{
    proof {
        reveal(op_post);
    }
    let ghost c0 = *cpu;
    let ghost b0 = *board;
    let val = cpu.read_operand(board, src);
    let ghost cm = *cpu;
    let ghost bm = *board;
    cpu.write_operand(board, dst, val);
    assert(operand_read(c0, b0, src, cm, bm, val));
}

pub fn ld_rr_d16<C: CartridgeMem>(cpu: &mut CPU, board: &mut Board<C>, rr: R16)
    requires
        old(board).wf(),
    ensures
        final(board).wf(),
        op_post(Op::LdRrD16(rr), *old(cpu), *old(board), *final(cpu), *final(board)),
{
    proof {
        reveal(op_post);
    }
    let v = cpu.read16i(board);
    cpu.reg.set_r16(rr, v);
}

pub fn ld_a16_sp<C: CartridgeMem>(cpu: &mut CPU, board: &mut Board<C>)
    requires
        old(board).wf(),
    ensures
        final(board).wf(),
        op_post(Op::LdA16Sp, *old(cpu), *old(board), *final(cpu), *final(board)),
{
    proof {
        reveal(op_post);
    }
    let ghost b0 = *board;
    let ghost pc = cpu.reg.pc;
    let addr = cpu.read16i(board);
    let ghost bm = *board;
    board.write16(addr, cpu.reg.sp());
    assert(Board::read16_post(b0, pc, bm, addr));
}

pub fn ld_sp_hl<C: CartridgeMem>(cpu: &mut CPU, board: &mut Board<C>)
    requires
        old(board).wf(),
    ensures
        final(board).wf(),
        op_post(Op::LdSpHl, *old(cpu), *old(board), *final(cpu), *final(board)),
{
    proof {
        reveal(op_post);
    }
    cpu.reg.sp = cpu.reg.hl();
    board.advance_mcycle();
}

/// The flags of adding the offset `off` to `sp`.
fn sp_offset_carries(sp: u16, off: u8) -> (r: (bool, bool))
    ensures
        r.0 == (sp % 16 + off % 16 > 15),
        r.1 == (sp % 256 + off > 255),
{
    assert(sp & 0xF == sp % 16 && sp & 0xFF == sp % 256 && off & 0xF == off % 16) by (bit_vector);
    ((sp & 0xF) + (off as u16 & 0xF) > 0xF, (sp & 0xFF) + (off as u16) > 0xFF)
}

/// `sp` moved by the signed offset `off`.
fn offset_sp(sp: u16, off: u8) -> (r: u16)
    ensures
        r == add16(sp, sext(off)),
{
    if off >= 128 {
        sp.wrapping_add(off as u16).wrapping_sub(256)
    } else {
        sp.wrapping_add(off as u16)
    }
}

pub fn ld_hl_sp_r8<C: CartridgeMem>(cpu: &mut CPU, board: &mut Board<C>)
    requires
        old(board).wf(),
    ensures
        final(board).wf(),
        op_post(Op::LdHlSpR8, *old(cpu), *old(board), *final(cpu), *final(board)),
{
    proof {
        reveal(op_post);
    }
    let ghost b0 = *board;
    let ghost pc = cpu.reg.pc;
    let offset = cpu.read8i(board);
    let ghost bm = *board;
    let sp = cpu.reg.sp();
    cpu.reg.set_hl(offset_sp(sp, offset));
    let (h, c) = sp_offset_carries(sp, offset);
    set_znhc(&mut cpu.reg.f, false, false, h, c);
    board.advance_mcycle();
    assert(Board::read8_post(b0, pc, bm, offset));
}

pub fn jr_cond<C: CartridgeMem>(cpu: &mut CPU, board: &mut Board<C>, cond: Cond)
    requires
        old(board).wf(),
    ensures
        final(board).wf(),
        op_post(Op::Jr(cond), *old(cpu), *old(board), *final(cpu), *final(board)),
{
    proof {
        reveal(op_post);
    }
    let cond = cond.check(&cpu.reg.f);
    let ghost b0 = *board;
    let ghost pc = cpu.reg.pc;
    let offset = cpu.read8i(board);
    let ghost bm = *board;
    if cond {
        cpu.reg.pc = offset_sp(cpu.reg.pc(), offset);
        board.advance_mcycle();
    }
    assert(Board::read8_post(b0, pc, bm, offset));
}

pub fn jp_cond<C: CartridgeMem>(cpu: &mut CPU, board: &mut Board<C>, cond: Cond)
    requires
        old(board).wf(),
    ensures
        final(board).wf(),
        op_post(Op::Jp(cond), *old(cpu), *old(board), *final(cpu), *final(board)),
{
    proof {
        reveal(op_post);
    }
    let cond = cond.check(&cpu.reg.f);
    let ghost b0 = *board;
    let ghost pc = cpu.reg.pc;
    let target = cpu.read16i(board);
    let ghost bm = *board;
    if cond {
        cpu.reg.pc = target;
        board.advance_mcycle();
    }
    assert(Board::read16_post(b0, pc, bm, target));
}

pub fn jp_hl(cpu: &mut CPU)
    ensures
        *final(cpu) == with_reg(*old(cpu), old(cpu).reg.with16(R16::PC, old(cpu).reg.get16(R16::HL))),
{
    cpu.reg.pc = cpu.reg.hl();
}

#[verifier::spinoff_prover]
pub fn pop<C: CartridgeMem>(cpu: &mut CPU, board: &mut Board<C>, rr: R16)
    requires
        old(board).wf(),
    ensures
        final(board).wf(),
        pop_post(rr, *old(cpu), *old(board), *final(cpu), *final(board)),
        op_post(Op::Pop(rr), *old(cpu), *old(board), *final(cpu), *final(board)),
{
    let ghost b0 = *board;
    let ghost c0 = *cpu;
    let sp = cpu.reg.sp();
    let v = board.read16(sp);
    cpu.reg.set_r16(rr, v);
    cpu.reg.sp = cpu.reg.sp().wrapping_add(2);
    assert(Board::read16_post(b0, sp, *board, v));
    assert(pop_post(rr, c0, b0, *cpu, *board));
    assert(op_post(Op::Pop(rr), c0, b0, *cpu, *board)) by {
        reveal(op_post);
    }
}

/// POP AF: the lower four bits of F always read as zero.
pub fn pop_af<C: CartridgeMem>(cpu: &mut CPU, board: &mut Board<C>)
    requires
        old(board).wf(),
    ensures
        final(board).wf(),
        pop_af_post(*old(cpu), *old(board), *final(cpu), *final(board)),
        op_post(Op::PopAf, *old(cpu), *old(board), *final(cpu), *final(board)),
{
    proof {
        reveal(op_post);
    }
    let v = board.read16(cpu.reg.sp());
    assert(v & 0xFFF0 == (v - v % 16) as u16) by (bit_vector);
    cpu.reg.set_r16(R16::AF, v & 0xFFF0);
    cpu.reg.sp = cpu.reg.sp().wrapping_add(2);
}

pub fn push<C: CartridgeMem>(cpu: &mut CPU, board: &mut Board<C>, rr: R16)
    requires
        old(board).wf(),
    ensures
        final(board).wf(),
        push_post(rr, *old(cpu), *old(board), *final(cpu), *final(board)),
        op_post(Op::Push(rr), *old(cpu), *old(board), *final(cpu), *final(board)),
{
    proof {
        reveal(op_post);
    }
    let ghost b0 = *board;
    cpu.reg.sp = cpu.reg.sp().wrapping_sub(2);
    board.advance_mcycle();
    let ghost bm = *board;
    let sp = cpu.reg.sp();
    let v = cpu.reg.r16(rr);
    board.write16(sp, v);
    assert(Board::ticked(b0, bm));
}

pub fn rst<C: CartridgeMem>(cpu: &mut CPU, board: &mut Board<C>, target: u16)
    requires
        old(board).wf(),
    ensures
        final(board).wf(),
        op_post(Op::Rst(target), *old(cpu), *old(board), *final(cpu), *final(board)),
{
    proof {
        reveal(op_post);
    }
    let ghost c0 = *cpu;
    let ghost b0 = *board;
    push(cpu, board, R16::PC);
    let ghost cm = *cpu;
    cpu.reg.pc = target;
    assert(push_post(R16::PC, c0, b0, cm, *board));
}

/// RET, and RETI when `enable_ime`. Due to timing differences, this cannot
/// be expressed as `ret_cond(.., true)`.
pub fn ret<C: CartridgeMem>(cpu: &mut CPU, board: &mut Board<C>, enable_ime: bool)
    requires
        old(board).wf(),
    ensures
        final(board).wf(),
        ret_post(*old(cpu), *old(board), enable_ime, *final(cpu), *final(board)),
        op_post(if enable_ime { Op::Reti } else { Op::Ret }, *old(cpu), *old(board), *final(cpu), *final(board)),
{
    proof {
        reveal(op_post);
    }
    let ghost c0 = *cpu;
    let ghost b0 = *board;
    pop(cpu, board, R16::PC);
    let ghost cm = *cpu;
    let ghost bm = *board;
    cpu.ime = cpu.ime || enable_ime;
    board.advance_mcycle();
    assert(pop_post(R16::PC, c0, b0, cm, bm));
}

pub fn ret_cond<C: CartridgeMem>(cpu: &mut CPU, board: &mut Board<C>, cond: Cond)
    requires
        old(board).wf(),
    ensures
        final(board).wf(),
        op_post(Op::RetCond(cond), *old(cpu), *old(board), *final(cpu), *final(board)),
{
    proof {
        reveal(op_post);
    }
    let cond = cond.check(&cpu.reg.f);
    let ghost b0 = *board;
    board.advance_mcycle();
    let ghost bm = *board;
    if cond {
        ret(cpu, board, false);
    }
    assert(Board::ticked(b0, bm));
}

/// CALL. The target address ends up in SP, not in PC.
pub fn call_cond<C: CartridgeMem>(cpu: &mut CPU, board: &mut Board<C>, cond: Cond)
    requires
        old(board).wf(),
    ensures
        final(board).wf(),
        op_post(Op::Call(cond), *old(cpu), *old(board), *final(cpu), *final(board)),
{
    proof {
        reveal(op_post);
    }
    let cond = cond.check(&cpu.reg.f);
    let ghost b0 = *board;
    let ghost pc = cpu.reg.pc;
    let target = cpu.read16i(board);
    let ghost c1 = *cpu;
    let ghost bm = *board;
    if cond {
        push(cpu, board, R16::PC);
        let ghost cm = *cpu;
        cpu.reg.pc = target;
        assert(push_post(R16::PC, c1, bm, cm, *board));
    }
    assert(Board::read16_post(b0, pc, bm, target));
}

/// The sum of two words and the flags ADD HL sets from it: H on a carry out
/// of bit 11, C on a carry out of bit 15.
fn add_words(hl: u16, x: u16) -> (r: (u16, bool, bool))
    ensures
        r.0 == add16(hl, x as int),
        r.1 == (hl % 0x1000 + x % 0x1000 > 0xFFF),
        r.2 == (hl + x > 0xFFFF),
{
    let new = hl.wrapping_add(x);
    let carry = hl as u32 + x as u32 > 0xFFFF;
    let half = hl % 0x1000 + x % 0x1000 > 0xFFF;
    (new, half, carry)
}

pub fn add_hl_rr<C: CartridgeMem>(cpu: &mut CPU, board: &mut Board<C>, rr: R16)
    requires
        old(board).wf(),
    ensures
        final(board).wf(),
        op_post(Op::AddHlRr(rr), *old(cpu), *old(board), *final(cpu), *final(board)),
{
    proof {
        reveal(op_post);
    }
    let addend = cpu.reg.r16(rr);
    let hl = cpu.reg.hl();
    let (new, half, carry) = add_words(hl, addend);
    cpu.reg.set_hl(new);
    let z = cpu.reg.f.contains(Flag::Z);
    set_znhc(&mut cpu.reg.f, z, false, half, carry);
    board.advance_mcycle();
}

pub fn add_sp_r8<C: CartridgeMem>(cpu: &mut CPU, board: &mut Board<C>)
    requires
        old(board).wf(),
    ensures
        final(board).wf(),
        op_post(Op::AddSpR8, *old(cpu), *old(board), *final(cpu), *final(board)),
{
    proof {
        reveal(op_post);
    }
    let offset = cpu.read8i(board);
    let sp = cpu.reg.sp();
    cpu.reg.sp = offset_sp(sp, offset);
    let (h, c) = sp_offset_carries(sp, offset);
    set_znhc(&mut cpu.reg.f, false, false, h, c);
}

pub fn inc_rr<C: CartridgeMem>(cpu: &mut CPU, board: &mut Board<C>, rr: R16)
    requires
        old(board).wf(),
    ensures
        final(board).wf(),
        op_post(Op::IncRr(rr), *old(cpu), *old(board), *final(cpu), *final(board)),
{
    proof {
        reveal(op_post);
    }
    let v = cpu.reg.r16(rr);
    cpu.reg.set_r16(rr, v.wrapping_add(1));
    board.advance_mcycle();
}

pub fn dec_rr<C: CartridgeMem>(cpu: &mut CPU, board: &mut Board<C>, rr: R16)
    requires
        old(board).wf(),
    ensures
        final(board).wf(),
        op_post(Op::DecRr(rr), *old(cpu), *old(board), *final(cpu), *final(board)),
{
    proof {
        reveal(op_post);
    }
    let v = cpu.reg.r16(rr);
    cpu.reg.set_r16(rr, v.wrapping_sub(1));
    board.advance_mcycle();
}

pub fn inc8<C: CartridgeMem>(cpu: &mut CPU, board: &mut Board<C>, target: Operand8)
    requires
        old(board).wf(),
        rw_target(target),
    ensures
        final(board).wf(),
        op_post(Op::Inc8(target), *old(cpu), *old(board), *final(cpu), *final(board)),
{
    proof {
        reveal(op_post);
    }
    let ghost c0 = *cpu;
    let ghost b0 = *board;
    let old = cpu.read_operand(board, target);
    let ghost bm = *board;
    let new = inc8_value(cpu, old);
    let ghost cf = *cpu;
    cpu.write_operand(board, target, new);
    assert(operand_read(c0, b0, target, c0, bm, old));
    assert(with_flags(c0, cf.reg.f) == cf);
}

pub fn dec8<C: CartridgeMem>(cpu: &mut CPU, board: &mut Board<C>, target: Operand8)
    requires
        old(board).wf(),
        rw_target(target),
    ensures
        final(board).wf(),
        op_post(Op::Dec8(target), *old(cpu), *old(board), *final(cpu), *final(board)),
{
    proof {
        reveal(op_post);
    }
    let ghost c0 = *cpu;
    let ghost b0 = *board;
    let old = cpu.read_operand(board, target);
    let ghost bm = *board;
    let new = dec8_value(cpu, old);
    let ghost cf = *cpu;
    cpu.write_operand(board, target, new);
    assert(operand_read(c0, b0, target, c0, bm, old));
    assert(with_flags(c0, cf.reg.f) == cf);
}

/// The ALU operation `op` on A with operand `src`.
fn alu8<C: CartridgeMem>(cpu: &mut CPU, board: &mut Board<C>, op: AluOp, src: Operand8)
    requires
        old(board).wf(),
    ensures
        final(board).wf(),
        op_post(Op::Alu(op, src), *old(cpu), *old(board), *final(cpu), *final(board)),
{
    proof {
        reveal(op_post);
    }
    let ghost c0 = *cpu;
    let ghost b0 = *board;
    let v = cpu.read_operand(board, src);
    let ghost cm = *cpu;
    match op {
        AluOp::Add => add8_value(cpu, v),
        AluOp::Adc => adc8_value(cpu, v),
        AluOp::Sub => sub8_value(cpu, v),
        AluOp::Sbc => sbc8_value(cpu, v),
        AluOp::And => and8_value(cpu, v),
        AluOp::Xor => xor8_value(cpu, v),
        AluOp::Or => or8_value(cpu, v),
        AluOp::Cp => {
            cp8_value(cpu, v);
        },
    }
    assert(operand_read(c0, b0, src, cm, *board, v));
}

pub fn add8<C: CartridgeMem>(cpu: &mut CPU, board: &mut Board<C>, src: Operand8)
    requires
        old(board).wf(),
    ensures
        final(board).wf(),
        op_post(Op::Alu(AluOp::Add, src), *old(cpu), *old(board), *final(cpu), *final(board)),
{
    alu8(cpu, board, AluOp::Add, src);
}

/// ADC: A := A + operand + carry.
pub fn adc8<C: CartridgeMem>(cpu: &mut CPU, board: &mut Board<C>, src: Operand8)
    requires
        old(board).wf(),
    ensures
        final(board).wf(),
        op_post(Op::Alu(AluOp::Adc, src), *old(cpu), *old(board), *final(cpu), *final(board)),
{
    alu8(cpu, board, AluOp::Adc, src);
}

pub fn sub8<C: CartridgeMem>(cpu: &mut CPU, board: &mut Board<C>, src: Operand8)
    requires
        old(board).wf(),
    ensures
        final(board).wf(),
        op_post(Op::Alu(AluOp::Sub, src), *old(cpu), *old(board), *final(cpu), *final(board)),
{
    alu8(cpu, board, AluOp::Sub, src);
}

pub fn sbc8<C: CartridgeMem>(cpu: &mut CPU, board: &mut Board<C>, src: Operand8)
    requires
        old(board).wf(),
    ensures
        final(board).wf(),
        op_post(Op::Alu(AluOp::Sbc, src), *old(cpu), *old(board), *final(cpu), *final(board)),
{
    alu8(cpu, board, AluOp::Sbc, src);
}

pub fn cp8<C: CartridgeMem>(cpu: &mut CPU, board: &mut Board<C>, src: Operand8)
    requires
        old(board).wf(),
    ensures
        final(board).wf(),
        op_post(Op::Alu(AluOp::Cp, src), *old(cpu), *old(board), *final(cpu), *final(board)),
{
    alu8(cpu, board, AluOp::Cp, src);
}

pub fn and8<C: CartridgeMem>(cpu: &mut CPU, board: &mut Board<C>, src: Operand8)
    requires
        old(board).wf(),
    ensures
        final(board).wf(),
        op_post(Op::Alu(AluOp::And, src), *old(cpu), *old(board), *final(cpu), *final(board)),
{
    alu8(cpu, board, AluOp::And, src);
}

pub fn xor8<C: CartridgeMem>(cpu: &mut CPU, board: &mut Board<C>, src: Operand8)
    requires
        old(board).wf(),
    ensures
        final(board).wf(),
        op_post(Op::Alu(AluOp::Xor, src), *old(cpu), *old(board), *final(cpu), *final(board)),
{
    alu8(cpu, board, AluOp::Xor, src);
}

pub fn or8<C: CartridgeMem>(cpu: &mut CPU, board: &mut Board<C>, src: Operand8)
    requires
        old(board).wf(),
    ensures
        final(board).wf(),
        op_post(Op::Alu(AluOp::Or, src), *old(cpu), *old(board), *final(cpu), *final(board)),
{
    alu8(cpu, board, AluOp::Or, src);
}

// Instructions behind the 0xCB prefix

/// The shift or rotation `op` of `target`.
fn shift8<C: CartridgeMem>(cpu: &mut CPU, board: &mut Board<C>, op: CbOp, target: Operand8)
    requires
        old(board).wf(),
        rw_target(target),
        !(op is Bit) && !(op is Res) && !(op is SetBit),
    ensures
        final(board).wf(),
        cb_post((op, target), *old(cpu), *old(board), *final(cpu), *final(board)),
{
    let ghost c0 = *cpu;
    let ghost b0 = *board;
    let old = cpu.read_operand(board, target);
    let ghost bm = *board;
    let new = match op {
        CbOp::Rlc => rlc_value(cpu, old),
        CbOp::Rrc => rrc_value(cpu, old),
        CbOp::Rl => rl_value(cpu, old),
        CbOp::Rr => rr_value(cpu, old),
        CbOp::Sla => sla_value(cpu, old),
        CbOp::Sra => sra_value(cpu, old),
        CbOp::Swap => swap_value(cpu, old),
        _ => srl_value(cpu, old),
    };
    let ghost cf = *cpu;
    cpu.write_operand(board, target, new);
    assert(operand_read(c0, b0, target, c0, bm, old));
    assert(with_flags(c0, cf.reg.f) == cf);
    assert(shift_post(op, c0, old, with_flags(c0, cpu.reg.f), new));
}

pub fn rlc<C: CartridgeMem>(cpu: &mut CPU, board: &mut Board<C>, target: Operand8)
    requires
        old(board).wf(),
        rw_target(target),
    ensures
        final(board).wf(),
        cb_post((CbOp::Rlc, target), *old(cpu), *old(board), *final(cpu), *final(board)),
{
    shift8(cpu, board, CbOp::Rlc, target);
}

pub fn rrc<C: CartridgeMem>(cpu: &mut CPU, board: &mut Board<C>, target: Operand8)
    requires
        old(board).wf(),
        rw_target(target),
    ensures
        final(board).wf(),
        cb_post((CbOp::Rrc, target), *old(cpu), *old(board), *final(cpu), *final(board)),
{
    shift8(cpu, board, CbOp::Rrc, target);
}

pub fn rl<C: CartridgeMem>(cpu: &mut CPU, board: &mut Board<C>, target: Operand8)
    requires
        old(board).wf(),
        rw_target(target),
    ensures
        final(board).wf(),
        cb_post((CbOp::Rl, target), *old(cpu), *old(board), *final(cpu), *final(board)),
{
    shift8(cpu, board, CbOp::Rl, target);
}

pub fn rr<C: CartridgeMem>(cpu: &mut CPU, board: &mut Board<C>, target: Operand8)
    requires
        old(board).wf(),
        rw_target(target),
    ensures
        final(board).wf(),
        cb_post((CbOp::Rr, target), *old(cpu), *old(board), *final(cpu), *final(board)),
{
    shift8(cpu, board, CbOp::Rr, target);
}

pub fn sla<C: CartridgeMem>(cpu: &mut CPU, board: &mut Board<C>, target: Operand8)
    requires
        old(board).wf(),
        rw_target(target),
    ensures
        final(board).wf(),
        cb_post((CbOp::Sla, target), *old(cpu), *old(board), *final(cpu), *final(board)),
{
    shift8(cpu, board, CbOp::Sla, target);
}

pub fn sra<C: CartridgeMem>(cpu: &mut CPU, board: &mut Board<C>, target: Operand8)
    requires
        old(board).wf(),
        rw_target(target),
    ensures
        final(board).wf(),
        cb_post((CbOp::Sra, target), *old(cpu), *old(board), *final(cpu), *final(board)),
{
    shift8(cpu, board, CbOp::Sra, target);
}

pub fn swap<C: CartridgeMem>(cpu: &mut CPU, board: &mut Board<C>, target: Operand8)
    requires
        old(board).wf(),
        rw_target(target),
    ensures
        final(board).wf(),
        cb_post((CbOp::Swap, target), *old(cpu), *old(board), *final(cpu), *final(board)),
{
    shift8(cpu, board, CbOp::Swap, target);
}

pub fn srl<C: CartridgeMem>(cpu: &mut CPU, board: &mut Board<C>, target: Operand8)
    requires
        old(board).wf(),
        rw_target(target),
    ensures
        final(board).wf(),
        cb_post((CbOp::Srl, target), *old(cpu), *old(board), *final(cpu), *final(board)),
{
    shift8(cpu, board, CbOp::Srl, target);
}

pub fn bit<C: CartridgeMem>(cpu: &mut CPU, board: &mut Board<C>, n: u8, src: Operand8)
    requires
        old(board).wf(),
        rw_target(src),
        n < 8,
    ensures
        final(board).wf(),
        cb_post((CbOp::Bit(n), src), *old(cpu), *old(board), *final(cpu), *final(board)),
{
    let ghost c0 = *cpu;
    let ghost b0 = *board;
    let v = cpu.read_operand(board, src);
    bit_value(cpu, n, v);
    assert(operand_read(c0, b0, src, c0, *board, v));
}

pub fn res<C: CartridgeMem>(cpu: &mut CPU, board: &mut Board<C>, n: u8, target: Operand8)
    requires
        old(board).wf(),
        rw_target(target),
        n < 8,
    ensures
        final(board).wf(),
        cb_post((CbOp::Res(n), target), *old(cpu), *old(board), *final(cpu), *final(board)),
{
    let ghost c0 = *cpu;
    let ghost b0 = *board;
    let v = cpu.read_operand(board, target);
    let ghost bm = *board;
    let new = res_value(n, v);
    cpu.write_operand(board, target, new);
    assert(operand_read(c0, b0, target, c0, bm, v));
}

pub fn set<C: CartridgeMem>(cpu: &mut CPU, board: &mut Board<C>, n: u8, target: Operand8)
    requires
        old(board).wf(),
        rw_target(target),
        n < 8,
    ensures
        final(board).wf(),
        cb_post((CbOp::SetBit(n), target), *old(cpu), *old(board), *final(cpu), *final(board)),
{
    let ghost c0 = *cpu;
    let ghost b0 = *board;
    let v = cpu.read_operand(board, target);
    let ghost bm = *board;
    let new = set_value(n, v);
    cpu.write_operand(board, target, new);
    assert(operand_read(c0, b0, target, c0, bm, v));
}

/// How many operand bytes follow an opcode whose operand is `t`.
pub open spec fn operand_len(t: Option<OperandType>) -> int {
    match t {
        Some(o) => o.byte_len() as int,
        None => 0,
    }
}

/// Reading an operand moves PC past the operand bytes it takes.
proof fn lemma_operand_read_pc<C: CartridgeMem>(c0: CPU, b0: Board<C>, op: Operand8, c1: CPU, b1: Board<C>, v: u8)
    requires
        operand_read(c0, b0, op, c1, b1, v),
    ensures
        c1.reg.pc == add16(c0.reg.pc, operand_len(op.immediate())),
{
}

/// Writing an operand moves PC past the operand bytes it takes.
proof fn lemma_operand_written_pc<C: CartridgeMem>(c0: CPU, b0: Board<C>, op: Operand8, val: u8, c1: CPU, b1: Board<C>)
    requires
        operand_written(c0, b0, op, val, c1, b1),
    ensures
        c1.reg.pc == add16(c0.reg.pc, operand_len(op.immediate())),
{
}

proof fn lemma_alu_keeps_pc(op: AluOp, c0: CPU, v: u8, c1: CPU)
    requires
        alu_post(op, c0, v, c1),
    ensures
        c1.reg.pc == c0.reg.pc,
{
}

/// The operations of the instructions that go on with the next instruction,
/// with the operands the instruction table gives them.
pub open spec fn straight_line(op: Op) -> bool {
    match op {
        Op::Ld8(d, s) => !(d.immediate() is Some && s.immediate() is Some),
        Op::Inc8(t) | Op::Dec8(t) => rw_target(t),
        Op::LdRrD16(rr) | Op::IncRr(rr) | Op::DecRr(rr) | Op::Pop(rr) => rr != R16::PC,
        Op::Jr(_) | Op::Jp(_) | Op::JpHl | Op::Call(_) | Op::Ret | Op::Reti | Op::RetCond(_) | Op::Rst(_) => false,
        Op::Stop | Op::PrefixCb => false,
        _ => true,
    }
}

/// An instruction that goes on with the next one moves PC past exactly the
/// operand bytes that the debugger counts for it (`ByteInstr::operand_type`
/// gives `op.operand()` for the instruction doing `op`).
#[verifier::spinoff_prover]
#[verifier::rlimit(60)]
pub proof fn law_straight_line_pc<C: CartridgeMem>(op: Op, c0: CPU, b0: Board<C>, c1: CPU, b1: Board<C>)
    requires
        op_post(op, c0, b0, c1, b1),
        straight_line(op),
    ensures
        c1.reg.pc == add16(c0.reg.pc, operand_len(op.operand())),
{
    reveal(op_post);
    match op {
        Op::Ld8(d, s) => {
            assert(ld8_post(d, s, c0, b0, c1, b1));
            let (cm, bm, v) = choose|cm: CPU, bm: Board<C>, v: u8|
                #[trigger] operand_read(c0, b0, s, cm, bm, v) && operand_written(cm, bm, d, v, c1, b1);
            lemma_operand_read_pc(c0, b0, s, cm, bm, v);
            lemma_operand_written_pc(cm, bm, d, v, c1, b1);
        },
        Op::Inc8(t) => {
            assert(inc8_op_post(t, c0, b0, c1, b1));
            let (bm, v) = choose|bm: Board<C>, v: u8|
                #[trigger] operand_read(c0, b0, t, c0, bm, v) && inc8_post(c0, v, with_flags(c0, c1.reg.f), ((v + 1) % 256) as u8)
                    && operand_written(c0, bm, t, ((v + 1) % 256) as u8, with_flags(c1, c0.reg.f), b1);
            lemma_operand_written_pc(c0, bm, t, ((v + 1) % 256) as u8, with_flags(c1, c0.reg.f), b1);
        },
        Op::Dec8(t) => {
            assert(dec8_op_post(t, c0, b0, c1, b1));
            let (bm, v) = choose|bm: Board<C>, v: u8|
                #[trigger] operand_read(c0, b0, t, c0, bm, v) && dec8_post(c0, v, with_flags(c0, c1.reg.f), ((v - 1) % 256) as u8)
                    && operand_written(c0, bm, t, ((v - 1) % 256) as u8, with_flags(c1, c0.reg.f), b1);
            lemma_operand_written_pc(c0, bm, t, ((v - 1) % 256) as u8, with_flags(c1, c0.reg.f), b1);
        },
        Op::Alu(aop, src) => {
            assert(alu8_post(aop, src, c0, b0, c1, b1));
            let (cm, bm, v) = choose|cm: CPU, bm: Board<C>, v: u8|
                #[trigger] operand_read(c0, b0, src, cm, bm, v) && alu_post(aop, cm, v, c1) && b1 == bm;
            lemma_operand_read_pc(c0, b0, src, cm, bm, v);
            lemma_alu_keeps_pc(aop, cm, v, c1);
        },
        _ => {},
    }
}


/// A byte stored to work RAM with `LD (HL), src` is what a following
/// `LD dst, (HL)` loads back.
pub proof fn law_store_load_roundtrip<C: CartridgeMem>(
    src: R8,
    dst: R8,
    c0: CPU,
    b0: Board<C>,
    c1: CPU,
    b1: Board<C>,
    c2: CPU,
    b2: Board<C>,
)
    requires
        b0.wf(),
        0xC000 <= c0.reg.get16(R16::HL) < 0xE000,
        op_post(Op::Ld8(Operand8::Ind(R16::HL), Operand8::Reg(src)), c0, b0, c1, b1),
        op_post(Op::Ld8(Operand8::Reg(dst), Operand8::Ind(R16::HL)), c1, b1, c2, b2),
    ensures
        c2.reg.get8(dst) == c0.reg.get8(src),
        c2.reg == c0.reg.with8(dst, c0.reg.get8(src)),
{
    reveal(op_post);
    let hl = c0.reg.get16(R16::HL);
    let (cm, bm, v) = choose|cm: CPU, bm: Board<C>, v: u8|
        #[trigger] operand_read(c0, b0, Operand8::Reg(src), cm, bm, v)
            && operand_written(cm, bm, Operand8::Ind(R16::HL), v, c1, b1);
    let (cn, bn, w) = choose|cn: CPU, bn: Board<C>, w: u8|
        #[trigger] operand_read(c1, b1, Operand8::Ind(R16::HL), cn, bn, w)
            && operand_written(cn, bn, Operand8::Reg(dst), w, c2, b2);
    crate::board::law_bus_wram_write_read(b0, hl, v, b1, hl, bn, w);
}

/// A register pair pushed to a stack in RAM is what the next POP takes
/// back, and SP is where it was before.
#[verifier::spinoff_prover]
#[verifier::rlimit(50)]
pub proof fn law_push_pop_roundtrip<C: CartridgeMem>(
    rr: R16,
    rr2: R16,
    c0: CPU,
    b0: Board<C>,
    c1: CPU,
    b1: Board<C>,
    c2: CPU,
    b2: Board<C>,
)
    requires
        b0.wf(),
        rr != R16::SP,
        rr2 != R16::SP,
        crate::board::ram_addr(add16(c0.reg.sp, 0xFFFE)),
        crate::board::ram_addr(add16(c0.reg.sp, 0xFFFF)),
        op_post(Op::Push(rr), c0, b0, c1, b1),
        op_post(Op::Pop(rr2), c1, b1, c2, b2),
    ensures
        c2.reg.get16(rr2) == c0.reg.get16(rr),
        c2.reg.sp == c0.reg.sp,
{
    assert(push_post(rr, c0, b0, c1, b1) && pop_post(rr2, c1, b1, c2, b2)) by {
        reveal(op_post);
    }
    let sp2 = add16(c0.reg.sp, 0xFFFE);
    let val = c0.reg.with16(R16::SP, sp2).get16(rr);
    let bm = choose|bm: Board<C>| #[trigger] Board::ticked(b0, bm) && Board::write16_post(bm, sp2, val, b1);
    crate::board::lemma_ticked_keeps(b0, bm);
    let v = choose|v: u16|
        #[trigger] Board::read16_post(b1, c1.reg.sp, b2, v)
            && c2 == with_reg(c1, c1.reg.with16(rr2, v).with16(R16::SP, add16(c1.reg.with16(rr2, v).sp, 2)));
    assert(next_addr(sp2) == add16(c0.reg.sp, 0xFFFF));
    crate::board::law_bus_ram_word_roundtrip(bm, sp2, val, b1, b2, v);
}

/// CP and SUB with any operand: the operand `n` is read as for any ALU
/// instruction; Z is set when A equals `n`, N is set, H and C are the
/// borrows of A - `n`. CP leaves A as it is, SUB stores A - `n` (mod 256);
/// nothing else changes beyond what reading the operand does.
pub proof fn law_cp_sub<C: CartridgeMem>(aop: AluOp, src: Operand8, c0: CPU, b0: Board<C>, c1: CPU, b1: Board<C>)
    requires
        aop == AluOp::Cp || aop == AluOp::Sub,
        op_post(Op::Alu(aop, src), c0, b0, c1, b1),
    ensures
        exists|cm: CPU, n: u8|
            #[trigger] operand_read(c0, b0, src, cm, b1, n) && {
                &&& c1.reg.f.get(Flag::Z) == (c0.reg.a == n)
                &&& c1.reg.f.get(Flag::N)
                &&& c1.reg.f.get(Flag::H) == (c0.reg.a % 16 < n % 16)
                &&& c1.reg.f.get(Flag::C) == (c0.reg.a < n)
                &&& aop == AluOp::Cp ==> c1.reg.a == c0.reg.a
                &&& aop == AluOp::Sub ==> c1.reg.a == (c0.reg.a - n) % 256
                &&& c1 == (CPU { reg: Registers { a: c1.reg.a, f: c1.reg.f, ..cm.reg }, ..cm })
            },
{
    reveal(op_post);
    assert(alu8_post(aop, src, c0, b0, c1, b1));
    let (cm, bm, v) = choose|cm: CPU, bm: Board<C>, v: u8|
        #[trigger] operand_read(c0, b0, src, cm, bm, v) && alu_post(aop, cm, v, c1) && b1 == bm;
    assert(cm.reg.a == c0.reg.a);
    assert(operand_read(c0, b0, src, cm, b1, v));
}

/// The 0xCB-prefixed SWAP A: the byte after the prefix is read and logged;
/// when it is 0x37, A's nibbles are exchanged, Z is set for A == 0 and N, H,
/// C are cleared, PC moves past it and nothing else changes.
pub proof fn law_cb_swap_a<C: CartridgeMem>(c0: CPU, b0: Board<C>, c1: CPU, b1: Board<C>)
    requires
        op_post(Op::PrefixCb, c0, b0, c1, b1),
    ensures
        exists|bm: Board<C>, b: u8|
            #[trigger] Board::read8_post(b0, c0.reg.pc, bm, b) && (b == 0x37 ==> {
                &&& Board::evt_pushed(bm, CpuEvt::ExecCB(super::instruction::CBByteInstr::SWAP_A), b1)
                &&& c1.reg.a == (c0.reg.a % 16) * 16 + c0.reg.a / 16
                &&& c1.reg.f.get(Flag::Z) == (c0.reg.a == 0)
                &&& !c1.reg.f.get(Flag::N)
                &&& !c1.reg.f.get(Flag::H)
                &&& !c1.reg.f.get(Flag::C)
                &&& c1 == (CPU { reg: Registers { a: c1.reg.a, f: c1.reg.f, pc: next_addr(c0.reg.pc), ..c0.reg }, ..c0 })
            }),
{
    reveal(op_post);
    assert(prefix_cb_post(c0, b0, c1, b1));
    let r = c0.reg;
    let (bm, b) = choose|bm: Board<C>, b: u8|
        #[trigger] Board::read8_post(b0, r.pc, bm, b) && exists|be: Board<C>|
            #[trigger] Board::evt_pushed(bm, CpuEvt::ExecCB(super::instruction::CBByteInstr::decode(b)), be)
                && cb_post(super::instruction::CBByteInstr::decode(b).semantics(), with_reg(c0, r.with16(R16::PC, next_addr(r.pc))), be, c1, b1);
    if b == 0x37 {
        assert(super::instruction::CBByteInstr::decode(b) == super::instruction::CBByteInstr::SWAP_A);
        let be = choose|be: Board<C>|
            #[trigger] Board::evt_pushed(bm, CpuEvt::ExecCB(super::instruction::CBByteInstr::decode(b)), be)
                && cb_post(super::instruction::CBByteInstr::decode(b).semantics(), with_reg(c0, r.with16(R16::PC, next_addr(r.pc))), be, c1, b1);
        let c0p = with_reg(c0, r.with16(R16::PC, next_addr(r.pc)));
        let t = Operand8::Reg(R8::A);
        let (bx, v, w) = choose|bx: Board<C>, v: u8, w: u8|
            operand_read(c0p, be, t, c0p, bx, v) && shift_post(CbOp::Swap, c0p, v, with_flags(c0p, c1.reg.f), w)
                && operand_written(c0p, bx, t, w, with_flags(c1, c0p.reg.f), b1);
        assert(v == c0.reg.a);
    }
    assert(Board::read8_post(b0, c0.reg.pc, bm, b));
}

} // verus!
