pub mod alu;
pub mod execute;
pub mod instruction;
pub mod opcode_map;
pub mod operands;
pub mod registers;

use vstd::prelude::*;
use registers::{Registers, R16, R8};
use instruction::{ByteInstr, CBByteInstr, Cond, Op, Operand8};
use operands::with_reg;
use alu::{rlca, rrca, rla, rra, daa, cpl, scf, ccf};
use execute::{
    op_post, push_post, ld8, ld_rr_d16, ld_a16_sp, ld_sp_hl, ld_hl_sp_r8, jr_cond, jp_cond, jp_hl,
    pop, pop_af, push, rst, ret, ret_cond, call_cond, add_hl_rr, add_sp_r8, inc_rr, dec_rr, inc8, dec8,
    add8, adc8, sub8, sbc8, cp8, and8, xor8, or8, rlc, rrc, rl, rr, sla, sra, swap, srl, bit, res,
};
use crate::board::{Board, next_addr};
use crate::cartridge::CartridgeMem;
use crate::debug::CpuEvt;
use crate::interrupt_system::{Interrupt, InterruptSystem, highest_priority};

verus! {

/// Whether the CPU executes instructions.
#[derive(Copy, Clone, Debug, PartialEq, Eq, Structural)]
pub enum HaltState {
    Running,
    /// Reached after encountering a HALT instruction
    Halted,
    /// Reached after encountering a STOP instruction
    Stopped,
    /// Reached after encountering one of the unused instructions. There is
    /// no way to recover from this state.
    Stuck,
}

pub struct CPU {
    /// Shared memory for all 8 and 16 bit registers, including SP
    pub reg: Registers,
    /// Interrupt Master Enable: whether the CPU jumps to the interrupt
    /// routines when an enabled interrupt is requested.
    pub ime: bool,
    /// HALT and STOP suspend instruction execution until an interrupt occurs.
    pub halt_state: HaltState,
}

impl CPU {
    /// Everything but registers A and F is the same in `self` and `other`.
    pub open spec fn same_but_af(self, other: CPU) -> bool {
        &&& self.reg == Registers { a: self.reg.a, f: self.reg.f, ..other.reg }
        &&& self.ime == other.ime
        &&& self.halt_state == other.halt_state
    }

    /// Everything but register F is the same in `self` and `other`.
    pub open spec fn same_but_f(self, other: CPU) -> bool {
        &&& self.reg == Registers { f: self.reg.f, ..other.reg }
        &&& self.ime == other.ime
        &&& self.halt_state == other.halt_state
    }

    pub fn new() -> (r: CPU)
        ensures
            r.reg == Registers::all_zero(),
            !r.ime,
            r.halt_state == HaltState::Running,
    {
        CPU { reg: Registers::new(), ime: false, halt_state: HaltState::Running }
    }

    /// Taking interrupt `ir`: `HandleIR` and `IrDisable` are logged, IME is
    /// cleared, its request in IF is cleared, one idle cycle, PC is pushed
    /// and the handler's address goes to PC.
    pub open spec fn interrupt_post<C: CartridgeMem>(ir: Interrupt, c0: CPU, b0: Board<C>, c1: CPU, b1: Board<C>) -> bool {
        exists|bh: Board<C>, bd: Board<C>|
            #![trigger Board::evt_pushed(b0, CpuEvt::HandleIR(ir), bh), Board::evt_pushed(bh, CpuEvt::IrDisable, bd)]
            Board::evt_pushed(b0, CpuEvt::HandleIR(ir), bh) && Board::evt_pushed(bh, CpuEvt::IrDisable, bd) && {
                let bi = Board { ir_system: InterruptSystem { if_reg: bd.ir_system.if_reg & !ir.mask(), ..bd.ir_system }, ..bd };
                exists|bm: Board<C>, cm: CPU|
                    #![trigger Board::ticked(bi, bm), push_post(R16::PC, CPU { ime: false, ..c0 }, bm, cm, b1)]
                    Board::ticked(bi, bm) && push_post(R16::PC, CPU { ime: false, ..c0 }, bm, cm, b1)
                        && c1 == with_reg(cm, cm.reg.with16(R16::PC, ir.handler()))
            }
    }

    /// The opcode at PC is fetched, logged as `Exec` with its address, and its
    /// instruction executed, from `c0` (with PC not yet moved past the opcode).
    pub open spec fn fetch_execute_post<C: CartridgeMem>(c0: CPU, b0: Board<C>, c1: CPU, b1: Board<C>) -> bool {
        exists|bm: Board<C>, b: u8|
            #[trigger] Board::read8_post(b0, c0.reg.pc, bm, b) && exists|be: Board<C>|
                #[trigger] Board::evt_pushed(bm, CpuEvt::Exec(c0.reg.pc, ByteInstr::decode(b)), be)
                    && op_post(ByteInstr::decode(b).semantics(), with_reg(c0, c0.reg.with16(R16::PC, next_addr(c0.reg.pc))), be, c1, b1)
    }

    /// One step of the CPU: taking an interrupt, idling while halted, or
    /// executing one instruction (which ends a halt, logged as
    /// `EnterHalt(Running)`, if an interrupt is requested but not taken).
    pub open spec fn step_post<C: CartridgeMem>(c0: CPU, b0: Board<C>, c1: CPU, b1: Board<C>) -> bool {
        let irq = highest_priority(b0.ir_system.pending());
        if irq is Some && c0.ime {
            CPU::interrupt_post(irq->0, c0, b0, c1, b1)
        } else if irq is None && c0.halt_state == HaltState::Halted {
            Board::ticked(b0, b1) && c1 == c0
        } else if c0.halt_state == HaltState::Halted {
            exists|bh: Board<C>|
                #[trigger] Board::evt_pushed(b0, CpuEvt::EnterHalt(HaltState::Running), bh)
                    && CPU::fetch_execute_post(CPU { halt_state: HaltState::Running, ..c0 }, bh, c1, b1)
        } else {
            CPU::fetch_execute_post(c0, b0, c1, b1)
        }
    }

    pub fn step_instr<C: CartridgeMem>(&mut self, board: &mut Board<C>)
        requires
            old(board).wf(),
        ensures
            final(board).wf(),
            CPU::step_post(*old(self), *old(board), *final(self), *final(board)),
    {
        let irq = board.query_interrupt_request_instant();
        match irq {
            Some(interrupt) if self.ime => self.jmp_to_interrupt_handler(board, interrupt),
            // Interrupt flags are ONLY cleared if we take the jump
            None if matches!(self.halt_state, HaltState::Halted) => {
                // Just idle until we get an interrupt
                board.advance_mcycle();
            },
            Some(_) if matches!(self.halt_state, HaltState::Halted) => {
                let ghost b0 = *board;
                self.set_halt_state(board, HaltState::Running);
                let ghost bh = *board;
                self.fetch_execute(board);
                assert(Board::evt_pushed(b0, CpuEvt::EnterHalt(HaltState::Running), bh));
            },
            _ => {
                self.fetch_execute(board);
            },
        }
    }

    fn fetch_execute<C: CartridgeMem>(&mut self, board: &mut Board<C>)
        requires
            old(board).wf(),
        ensures
            final(board).wf(),
            CPU::fetch_execute_post(*old(self), *old(board), *final(self), *final(board)),
    {
        let ghost b0 = *board;
        let ghost pc = self.reg.pc;
        let instr_pc = self.reg.pc;
        let instr = self.prefetch(board);
        let ghost bm = *board;
        let ghost b = choose|b: u8| Board::read8_post(b0, pc, bm, b) && instr == ByteInstr::decode(b);
        board.push_cpu_evt(CpuEvt::Exec(instr_pc, instr));
        let ghost be = *board;
        self.execute(board, instr);
        assert(Board::read8_post(b0, pc, bm, b));
        assert(Board::evt_pushed(bm, CpuEvt::Exec(pc, ByteInstr::decode(b)), be));
    }

    fn jmp_to_interrupt_handler<C: CartridgeMem>(&mut self, board: &mut Board<C>, interrupt: Interrupt)
        requires
            old(board).wf(),
        ensures
            final(board).wf(),
            CPU::interrupt_post(interrupt, *old(self), *old(board), *final(self), *final(board)),
    {
        let ghost b0 = *board;
        board.push_cpu_evt(CpuEvt::HandleIR(interrupt));
        let ghost bh = *board;
        self.set_ime(board, false);
        let ghost bd = *board;
        // Clear the interrupt request in the IF register
        let old_if = board.read_if_instant();
        board.write_if_instant(old_if & !interrupt.bit_mask());
        let ghost bi = *board;
        // The entire thing takes 5 machine cycles; the last one is spent
        // during the next prefetch
        board.advance_mcycle();
        let ghost bm = *board;
        let ghost cm0 = *self;
        push(self, board, R16::PC);
        let ghost cm = *self;
        self.reg.pc = match interrupt {
            Interrupt::VBlank => 0x40,
            Interrupt::LcdStat => 0x48,
            Interrupt::Timer => 0x50,
            Interrupt::Serial => 0x58,
            Interrupt::Joypad => 0x60,
        };
        assert(Board::ticked(bi, bm) && push_post(R16::PC, cm0, bm, cm, *board));
        assert(Board::evt_pushed(b0, CpuEvt::HandleIR(interrupt), bh) && Board::evt_pushed(bh, CpuEvt::IrDisable, bd));
    }

    /// Enters `halt_state`, logged as `EnterHalt`.
    pub fn set_halt_state<C: CartridgeMem>(&mut self, board: &mut Board<C>, halt_state: HaltState)
        requires
            old(board).wf(),
        ensures
            final(board).wf(),
            *final(self) == (CPU { halt_state, ..*old(self) }),
            Board::evt_pushed(*old(board), CpuEvt::EnterHalt(halt_state), *final(board)),
    {
        board.push_cpu_evt(CpuEvt::EnterHalt(halt_state));
        self.halt_state = halt_state;
    }

    /// Sets IME, logged as `IrEnable` or `IrDisable`.
    pub fn set_ime<C: CartridgeMem>(&mut self, board: &mut Board<C>, ime: bool)
        requires
            old(board).wf(),
        ensures
            final(board).wf(),
            *final(self) == (CPU { ime, ..*old(self) }),
            Board::evt_pushed(*old(board), if ime { CpuEvt::IrEnable } else { CpuEvt::IrDisable }, *final(board)),
    {
        self.ime = ime;
        if ime {
            board.push_cpu_evt(CpuEvt::IrEnable);
        } else {
            board.push_cpu_evt(CpuEvt::IrDisable);
        }
    }

    /// Fetches the opcode at PC.
    fn prefetch<C: CartridgeMem>(&mut self, board: &mut Board<C>) -> (r: ByteInstr)
        requires
            old(board).wf(),
        ensures
            final(board).wf(),
            exists|b: u8| #[trigger] Board::read8_post(*old(board), old(self).reg.pc, *final(board), b) && r == ByteInstr::decode(b),
            *final(self) == with_reg(*old(self), old(self).reg.with16(R16::PC, next_addr(old(self).reg.pc))),
    {
        let b = self.read8i(board);
        ByteInstr::from_u8(b)
    }

    /// Fetches the opcode following the 0xCB prefix.
    fn fetch_cb<C: CartridgeMem>(&mut self, board: &mut Board<C>) -> (r: (CBByteInstr, u8))
        requires
            old(board).wf(),
        ensures
            final(board).wf(),
            Board::read8_post(*old(board), old(self).reg.pc, *final(board), r.1),
            r.0 == CBByteInstr::decode(r.1),
            *final(self) == with_reg(*old(self), old(self).reg.with16(R16::PC, next_addr(old(self).reg.pc))),
    {
        let b = self.read8i(board);
        (CBByteInstr::from_u8(b), b)
    }

    #[verifier::rlimit(100)]
    pub fn execute<C: CartridgeMem>(&mut self, board: &mut Board<C>, instr: ByteInstr)
        requires
            old(board).wf(),
        ensures
            final(board).wf(),
            op_post(instr.semantics(), *old(self), *old(board), *final(self), *final(board)),
    {
        let ghost c0 = *self;
        let ghost b0 = *board;
        match instr {
            ByteInstr::NOP => {
                assert(op_post(Op::Nop, c0, b0, *self, *board)) by {
                    reveal(op_post);
                }
            },
            ByteInstr::LD_BC_d16 => ld_rr_d16(self, board, R16::BC),
            ByteInstr::LD_xBCx_A => ld8(self, board, Operand8::Ind(R16::BC), Operand8::Reg(R8::A)),
            ByteInstr::INC_BC => inc_rr(self, board, R16::BC),
            ByteInstr::INC_B => inc8(self, board, Operand8::Reg(R8::B)),
            ByteInstr::DEC_B => dec8(self, board, Operand8::Reg(R8::B)),
            ByteInstr::LD_B_d8 => ld8(self, board, Operand8::Reg(R8::B), Operand8::Imm8),
            ByteInstr::RLCA => {
                rlca(self);
                assert(op_post(Op::Rlca, c0, b0, *self, *board)) by {
                    reveal(op_post);
                }
            },
            ByteInstr::LD_xa16x_SP => ld_a16_sp(self, board),
            ByteInstr::ADD_HL_BC => add_hl_rr(self, board, R16::BC),
            ByteInstr::LD_A_xBCx => ld8(self, board, Operand8::Reg(R8::A), Operand8::Ind(R16::BC)),
            ByteInstr::DEC_BC => dec_rr(self, board, R16::BC),
            ByteInstr::INC_C => inc8(self, board, Operand8::Reg(R8::C)),
            ByteInstr::DEC_C => dec8(self, board, Operand8::Reg(R8::C)),
            ByteInstr::LD_C_d8 => ld8(self, board, Operand8::Reg(R8::C), Operand8::Imm8),
            ByteInstr::RRCA => {
                rrca(self);
                assert(op_post(Op::Rrca, c0, b0, *self, *board)) by {
                    reveal(op_post);
                }
            },
            ByteInstr::STOP => {
                self.set_halt_state(board, HaltState::Stopped);
                assert(op_post(Op::Stop, c0, b0, *self, *board)) by {
                    reveal(op_post);
                }
            },
            ByteInstr::LD_DE_d16 => ld_rr_d16(self, board, R16::DE),
            ByteInstr::LD_xDEx_A => ld8(self, board, Operand8::Ind(R16::DE), Operand8::Reg(R8::A)),
            ByteInstr::INC_DE => inc_rr(self, board, R16::DE),
            ByteInstr::INC_D => inc8(self, board, Operand8::Reg(R8::D)),
            ByteInstr::DEC_D => dec8(self, board, Operand8::Reg(R8::D)),
            ByteInstr::LD_D_d8 => ld8(self, board, Operand8::Reg(R8::D), Operand8::Imm8),
            ByteInstr::RLA => {
                rla(self);
                assert(op_post(Op::Rla, c0, b0, *self, *board)) by {
                    reveal(op_post);
                }
            },
            ByteInstr::JR_r8 => jr_cond(self, board, Cond::Always),
            ByteInstr::ADD_HL_DE => add_hl_rr(self, board, R16::DE),
            ByteInstr::LD_A_xDEx => ld8(self, board, Operand8::Reg(R8::A), Operand8::Ind(R16::DE)),
            ByteInstr::DEC_DE => dec_rr(self, board, R16::DE),
            ByteInstr::INC_E => inc8(self, board, Operand8::Reg(R8::E)),
            ByteInstr::DEC_E => dec8(self, board, Operand8::Reg(R8::E)),
            ByteInstr::LD_E_d8 => ld8(self, board, Operand8::Reg(R8::E), Operand8::Imm8),
            ByteInstr::RRA => {
                rra(self);
                assert(op_post(Op::Rra, c0, b0, *self, *board)) by {
                    reveal(op_post);
                }
            },
            ByteInstr::JR_NZ_r8 => jr_cond(self, board, Cond::NZ),
            ByteInstr::LD_HL_d16 => ld_rr_d16(self, board, R16::HL),
            ByteInstr::LD_xHLix_A => ld8(self, board, Operand8::HLi, Operand8::Reg(R8::A)),
            ByteInstr::INC_HL => inc_rr(self, board, R16::HL),
            ByteInstr::INC_H => inc8(self, board, Operand8::Reg(R8::H)),
            ByteInstr::DEC_H => dec8(self, board, Operand8::Reg(R8::H)),
            ByteInstr::LD_H_d8 => ld8(self, board, Operand8::Reg(R8::H), Operand8::Imm8),
            ByteInstr::DAA => {
                daa(self);
                assert(op_post(Op::Daa, c0, b0, *self, *board)) by {
                    reveal(op_post);
                }
            },
            ByteInstr::JR_Z_r8 => jr_cond(self, board, Cond::Z),
            ByteInstr::ADD_HL_HL => add_hl_rr(self, board, R16::HL),
            ByteInstr::LD_A_xHLix => ld8(self, board, Operand8::Reg(R8::A), Operand8::HLi),
            ByteInstr::DEC_HL => dec_rr(self, board, R16::HL),
            ByteInstr::INC_L => inc8(self, board, Operand8::Reg(R8::L)),
            ByteInstr::DEC_L => dec8(self, board, Operand8::Reg(R8::L)),
            ByteInstr::LD_L_d8 => ld8(self, board, Operand8::Reg(R8::L), Operand8::Imm8),
            ByteInstr::CPL => {
                cpl(self);
                assert(op_post(Op::Cpl, c0, b0, *self, *board)) by {
                    reveal(op_post);
                }
            },
            ByteInstr::JR_NC_r8 => jr_cond(self, board, Cond::NC),
            ByteInstr::LD_SP_d16 => ld_rr_d16(self, board, R16::SP),
            ByteInstr::LD_xHLdx_A => ld8(self, board, Operand8::HLd, Operand8::Reg(R8::A)),
            ByteInstr::INC_SP => inc_rr(self, board, R16::SP),
            ByteInstr::INC_xHLx => inc8(self, board, Operand8::Ind(R16::HL)),
            ByteInstr::DEC_xHLx => dec8(self, board, Operand8::Ind(R16::HL)),
            ByteInstr::LD_xHLx_d8 => ld8(self, board, Operand8::Ind(R16::HL), Operand8::Imm8),
            ByteInstr::SCF => {
                scf(self);
                assert(op_post(Op::Scf, c0, b0, *self, *board)) by {
                    reveal(op_post);
                }
            },
            ByteInstr::JR_C_r8 => jr_cond(self, board, Cond::C),
            ByteInstr::ADD_HL_SP => add_hl_rr(self, board, R16::SP),
            ByteInstr::LD_A_xHLdx => ld8(self, board, Operand8::Reg(R8::A), Operand8::HLd),
            ByteInstr::DEC_SP => dec_rr(self, board, R16::SP),
            ByteInstr::INC_A => inc8(self, board, Operand8::Reg(R8::A)),
            ByteInstr::DEC_A => dec8(self, board, Operand8::Reg(R8::A)),
            ByteInstr::LD_A_d8 => ld8(self, board, Operand8::Reg(R8::A), Operand8::Imm8),
            ByteInstr::CCF => {
                ccf(self);
                assert(op_post(Op::Ccf, c0, b0, *self, *board)) by {
                    reveal(op_post);
                }
            },
            ByteInstr::LD_B_B => ld8(self, board, Operand8::Reg(R8::B), Operand8::Reg(R8::B)),
            ByteInstr::LD_B_C => ld8(self, board, Operand8::Reg(R8::B), Operand8::Reg(R8::C)),
            ByteInstr::LD_B_D => ld8(self, board, Operand8::Reg(R8::B), Operand8::Reg(R8::D)),
            ByteInstr::LD_B_E => ld8(self, board, Operand8::Reg(R8::B), Operand8::Reg(R8::E)),
            ByteInstr::LD_B_H => ld8(self, board, Operand8::Reg(R8::B), Operand8::Reg(R8::H)),
            ByteInstr::LD_B_L => ld8(self, board, Operand8::Reg(R8::B), Operand8::Reg(R8::L)),
            ByteInstr::LD_B_xHLx => ld8(self, board, Operand8::Reg(R8::B), Operand8::Ind(R16::HL)),
            ByteInstr::LD_B_A => ld8(self, board, Operand8::Reg(R8::B), Operand8::Reg(R8::A)),
            ByteInstr::LD_C_B => ld8(self, board, Operand8::Reg(R8::C), Operand8::Reg(R8::B)),
            ByteInstr::LD_C_C => ld8(self, board, Operand8::Reg(R8::C), Operand8::Reg(R8::C)),
            ByteInstr::LD_C_D => ld8(self, board, Operand8::Reg(R8::C), Operand8::Reg(R8::D)),
            ByteInstr::LD_C_E => ld8(self, board, Operand8::Reg(R8::C), Operand8::Reg(R8::E)),
            ByteInstr::LD_C_H => ld8(self, board, Operand8::Reg(R8::C), Operand8::Reg(R8::H)),
            ByteInstr::LD_C_L => ld8(self, board, Operand8::Reg(R8::C), Operand8::Reg(R8::L)),
            ByteInstr::LD_C_xHLx => ld8(self, board, Operand8::Reg(R8::C), Operand8::Ind(R16::HL)),
            ByteInstr::LD_C_A => ld8(self, board, Operand8::Reg(R8::C), Operand8::Reg(R8::A)),
            ByteInstr::LD_D_B => ld8(self, board, Operand8::Reg(R8::D), Operand8::Reg(R8::B)),
            ByteInstr::LD_D_C => ld8(self, board, Operand8::Reg(R8::D), Operand8::Reg(R8::C)),
            ByteInstr::LD_D_D => ld8(self, board, Operand8::Reg(R8::D), Operand8::Reg(R8::D)),
            ByteInstr::LD_D_E => ld8(self, board, Operand8::Reg(R8::D), Operand8::Reg(R8::E)),
            ByteInstr::LD_D_H => ld8(self, board, Operand8::Reg(R8::D), Operand8::Reg(R8::H)),
            ByteInstr::LD_D_L => ld8(self, board, Operand8::Reg(R8::D), Operand8::Reg(R8::L)),
            ByteInstr::LD_D_xHLx => ld8(self, board, Operand8::Reg(R8::D), Operand8::Ind(R16::HL)),
            ByteInstr::LD_D_A => ld8(self, board, Operand8::Reg(R8::D), Operand8::Reg(R8::A)),
            ByteInstr::LD_E_B => ld8(self, board, Operand8::Reg(R8::E), Operand8::Reg(R8::B)),
            ByteInstr::LD_E_C => ld8(self, board, Operand8::Reg(R8::E), Operand8::Reg(R8::C)),
            ByteInstr::LD_E_D => ld8(self, board, Operand8::Reg(R8::E), Operand8::Reg(R8::D)),
            ByteInstr::LD_E_E => ld8(self, board, Operand8::Reg(R8::E), Operand8::Reg(R8::E)),
            ByteInstr::LD_E_H => ld8(self, board, Operand8::Reg(R8::E), Operand8::Reg(R8::H)),
            ByteInstr::LD_E_L => ld8(self, board, Operand8::Reg(R8::E), Operand8::Reg(R8::L)),
            ByteInstr::LD_E_xHLx => ld8(self, board, Operand8::Reg(R8::E), Operand8::Ind(R16::HL)),
            ByteInstr::LD_E_A => ld8(self, board, Operand8::Reg(R8::E), Operand8::Reg(R8::A)),
            ByteInstr::LD_H_B => ld8(self, board, Operand8::Reg(R8::H), Operand8::Reg(R8::B)),
            ByteInstr::LD_H_C => ld8(self, board, Operand8::Reg(R8::H), Operand8::Reg(R8::C)),
            ByteInstr::LD_H_D => ld8(self, board, Operand8::Reg(R8::H), Operand8::Reg(R8::D)),
            ByteInstr::LD_H_E => ld8(self, board, Operand8::Reg(R8::H), Operand8::Reg(R8::E)),
            ByteInstr::LD_H_H => ld8(self, board, Operand8::Reg(R8::H), Operand8::Reg(R8::H)),
            ByteInstr::LD_H_L => ld8(self, board, Operand8::Reg(R8::H), Operand8::Reg(R8::L)),
            ByteInstr::LD_H_xHLx => ld8(self, board, Operand8::Reg(R8::H), Operand8::Ind(R16::HL)),
            ByteInstr::LD_H_A => ld8(self, board, Operand8::Reg(R8::H), Operand8::Reg(R8::A)),
            ByteInstr::LD_L_B => ld8(self, board, Operand8::Reg(R8::L), Operand8::Reg(R8::B)),
            ByteInstr::LD_L_C => ld8(self, board, Operand8::Reg(R8::L), Operand8::Reg(R8::C)),
            ByteInstr::LD_L_D => ld8(self, board, Operand8::Reg(R8::L), Operand8::Reg(R8::D)),
            ByteInstr::LD_L_E => ld8(self, board, Operand8::Reg(R8::L), Operand8::Reg(R8::E)),
            ByteInstr::LD_L_H => ld8(self, board, Operand8::Reg(R8::L), Operand8::Reg(R8::H)),
            ByteInstr::LD_L_L => ld8(self, board, Operand8::Reg(R8::L), Operand8::Reg(R8::L)),
            ByteInstr::LD_L_xHLx => ld8(self, board, Operand8::Reg(R8::L), Operand8::Ind(R16::HL)),
            ByteInstr::LD_L_A => ld8(self, board, Operand8::Reg(R8::L), Operand8::Reg(R8::A)),
            ByteInstr::LD_xHLx_B => ld8(self, board, Operand8::Ind(R16::HL), Operand8::Reg(R8::B)),
            ByteInstr::LD_xHLx_C => ld8(self, board, Operand8::Ind(R16::HL), Operand8::Reg(R8::C)),
            ByteInstr::LD_xHLx_D => ld8(self, board, Operand8::Ind(R16::HL), Operand8::Reg(R8::D)),
            ByteInstr::LD_xHLx_E => ld8(self, board, Operand8::Ind(R16::HL), Operand8::Reg(R8::E)),
            ByteInstr::LD_xHLx_H => ld8(self, board, Operand8::Ind(R16::HL), Operand8::Reg(R8::H)),
            ByteInstr::LD_xHLx_L => ld8(self, board, Operand8::Ind(R16::HL), Operand8::Reg(R8::L)),
            ByteInstr::HALT => {
                self.set_halt_state(board, HaltState::Halted);
                assert(op_post(Op::Halt, c0, b0, *self, *board)) by {
                    reveal(op_post);
                }
            },
            ByteInstr::LD_xHLx_A => ld8(self, board, Operand8::Ind(R16::HL), Operand8::Reg(R8::A)),
            ByteInstr::LD_A_B => ld8(self, board, Operand8::Reg(R8::A), Operand8::Reg(R8::B)),
            ByteInstr::LD_A_C => ld8(self, board, Operand8::Reg(R8::A), Operand8::Reg(R8::C)),
            ByteInstr::LD_A_D => ld8(self, board, Operand8::Reg(R8::A), Operand8::Reg(R8::D)),
            ByteInstr::LD_A_E => ld8(self, board, Operand8::Reg(R8::A), Operand8::Reg(R8::E)),
            ByteInstr::LD_A_H => ld8(self, board, Operand8::Reg(R8::A), Operand8::Reg(R8::H)),
            ByteInstr::LD_A_L => ld8(self, board, Operand8::Reg(R8::A), Operand8::Reg(R8::L)),
            ByteInstr::LD_A_xHLx => ld8(self, board, Operand8::Reg(R8::A), Operand8::Ind(R16::HL)),
            ByteInstr::LD_A_A => ld8(self, board, Operand8::Reg(R8::A), Operand8::Reg(R8::A)),
            ByteInstr::ADD_A_B => add8(self, board, Operand8::Reg(R8::B)),
            ByteInstr::ADD_A_C => add8(self, board, Operand8::Reg(R8::C)),
            ByteInstr::ADD_A_D => add8(self, board, Operand8::Reg(R8::D)),
            ByteInstr::ADD_A_E => add8(self, board, Operand8::Reg(R8::E)),
            ByteInstr::ADD_A_H => add8(self, board, Operand8::Reg(R8::H)),
            ByteInstr::ADD_A_L => add8(self, board, Operand8::Reg(R8::L)),
            ByteInstr::ADD_A_xHLx => add8(self, board, Operand8::Ind(R16::HL)),
            ByteInstr::ADD_A_A => add8(self, board, Operand8::Reg(R8::A)),
            ByteInstr::ADC_A_B => adc8(self, board, Operand8::Reg(R8::B)),
            ByteInstr::ADC_A_C => adc8(self, board, Operand8::Reg(R8::C)),
            ByteInstr::ADC_A_D => adc8(self, board, Operand8::Reg(R8::D)),
            ByteInstr::ADC_A_E => adc8(self, board, Operand8::Reg(R8::E)),
            ByteInstr::ADC_A_H => adc8(self, board, Operand8::Reg(R8::H)),
            ByteInstr::ADC_A_L => adc8(self, board, Operand8::Reg(R8::L)),
            ByteInstr::ADC_A_xHLx => adc8(self, board, Operand8::Ind(R16::HL)),
            ByteInstr::ADC_A_A => adc8(self, board, Operand8::Reg(R8::A)),
            ByteInstr::SUB_B => sub8(self, board, Operand8::Reg(R8::B)),
            ByteInstr::SUB_C => sub8(self, board, Operand8::Reg(R8::C)),
            ByteInstr::SUB_D => sub8(self, board, Operand8::Reg(R8::D)),
            ByteInstr::SUB_E => sub8(self, board, Operand8::Reg(R8::E)),
            ByteInstr::SUB_H => sub8(self, board, Operand8::Reg(R8::H)),
            ByteInstr::SUB_L => sub8(self, board, Operand8::Reg(R8::L)),
            ByteInstr::SUB_xHLx => sub8(self, board, Operand8::Ind(R16::HL)),
            ByteInstr::SUB_A => sub8(self, board, Operand8::Reg(R8::A)),
            ByteInstr::SBC_A_B => sbc8(self, board, Operand8::Reg(R8::B)),
            ByteInstr::SBC_A_C => sbc8(self, board, Operand8::Reg(R8::C)),
            ByteInstr::SBC_A_D => sbc8(self, board, Operand8::Reg(R8::D)),
            ByteInstr::SBC_A_E => sbc8(self, board, Operand8::Reg(R8::E)),
            ByteInstr::SBC_A_H => sbc8(self, board, Operand8::Reg(R8::H)),
            ByteInstr::SBC_A_L => sbc8(self, board, Operand8::Reg(R8::L)),
            ByteInstr::SBC_A_xHLx => sbc8(self, board, Operand8::Ind(R16::HL)),
            ByteInstr::SBC_A_A => sbc8(self, board, Operand8::Reg(R8::A)),
            ByteInstr::AND_B => and8(self, board, Operand8::Reg(R8::B)),
            ByteInstr::AND_C => and8(self, board, Operand8::Reg(R8::C)),
            ByteInstr::AND_D => and8(self, board, Operand8::Reg(R8::D)),
            ByteInstr::AND_E => and8(self, board, Operand8::Reg(R8::E)),
            ByteInstr::AND_H => and8(self, board, Operand8::Reg(R8::H)),
            ByteInstr::AND_L => and8(self, board, Operand8::Reg(R8::L)),
            ByteInstr::AND_xHLx => and8(self, board, Operand8::Ind(R16::HL)),
            ByteInstr::AND_A => and8(self, board, Operand8::Reg(R8::A)),
            ByteInstr::XOR_B => xor8(self, board, Operand8::Reg(R8::B)),
            ByteInstr::XOR_C => xor8(self, board, Operand8::Reg(R8::C)),
            ByteInstr::XOR_D => xor8(self, board, Operand8::Reg(R8::D)),
            ByteInstr::XOR_E => xor8(self, board, Operand8::Reg(R8::E)),
            ByteInstr::XOR_H => xor8(self, board, Operand8::Reg(R8::H)),
            ByteInstr::XOR_L => xor8(self, board, Operand8::Reg(R8::L)),
            ByteInstr::XOR_xHLx => xor8(self, board, Operand8::Ind(R16::HL)),
            ByteInstr::XOR_A => xor8(self, board, Operand8::Reg(R8::A)),
            ByteInstr::OR_B => or8(self, board, Operand8::Reg(R8::B)),
            ByteInstr::OR_C => or8(self, board, Operand8::Reg(R8::C)),
            ByteInstr::OR_D => or8(self, board, Operand8::Reg(R8::D)),
            ByteInstr::OR_E => or8(self, board, Operand8::Reg(R8::E)),
            ByteInstr::OR_H => or8(self, board, Operand8::Reg(R8::H)),
            ByteInstr::OR_L => or8(self, board, Operand8::Reg(R8::L)),
            ByteInstr::OR_xHLx => or8(self, board, Operand8::Ind(R16::HL)),
            ByteInstr::OR_A => or8(self, board, Operand8::Reg(R8::A)),
            ByteInstr::CP_B => cp8(self, board, Operand8::Reg(R8::B)),
            ByteInstr::CP_C => cp8(self, board, Operand8::Reg(R8::C)),
            ByteInstr::CP_D => cp8(self, board, Operand8::Reg(R8::D)),
            ByteInstr::CP_E => cp8(self, board, Operand8::Reg(R8::E)),
            ByteInstr::CP_H => cp8(self, board, Operand8::Reg(R8::H)),
            ByteInstr::CP_L => cp8(self, board, Operand8::Reg(R8::L)),
            ByteInstr::CP_xHLx => cp8(self, board, Operand8::Ind(R16::HL)),
            ByteInstr::CP_A => cp8(self, board, Operand8::Reg(R8::A)),
            ByteInstr::RET_NZ => ret_cond(self, board, Cond::NZ),
            ByteInstr::POP_BC => pop(self, board, R16::BC),
            ByteInstr::JP_NZ_a16 => jp_cond(self, board, Cond::NZ),
            ByteInstr::JP_a16 => jp_cond(self, board, Cond::Always),
            ByteInstr::CALL_NZ_a16 => call_cond(self, board, Cond::NZ),
            ByteInstr::PUSH_BC => push(self, board, R16::BC),
            ByteInstr::ADD_A_d8 => add8(self, board, Operand8::Imm8),
            ByteInstr::RST_00H => rst(self, board, 0x00),
            ByteInstr::RET_Z => ret_cond(self, board, Cond::Z),
            ByteInstr::RET => ret(self, board, false),
            ByteInstr::JP_Z_a16 => jp_cond(self, board, Cond::Z),
            ByteInstr::PREFIX_CB => self.fetch_execute_cb(board),
            ByteInstr::CALL_Z_a16 => call_cond(self, board, Cond::Z),
            ByteInstr::CALL_a16 => call_cond(self, board, Cond::Always),
            ByteInstr::ADC_A_d8 => adc8(self, board, Operand8::Imm8),
            ByteInstr::RST_08H => rst(self, board, 0x08),
            ByteInstr::RET_NC => ret_cond(self, board, Cond::NC),
            ByteInstr::POP_DE => pop(self, board, R16::DE),
            ByteInstr::JP_NC_a16 => jp_cond(self, board, Cond::NC),
            ByteInstr::NOT_USED => {
                self.set_halt_state(board, HaltState::Stuck);
                assert(op_post(Op::Stuck, c0, b0, *self, *board)) by {
                    reveal(op_post);
                }
            },
            ByteInstr::CALL_NC_a16 => call_cond(self, board, Cond::NC),
            ByteInstr::PUSH_DE => push(self, board, R16::DE),
            ByteInstr::SUB_d8 => sub8(self, board, Operand8::Imm8),
            ByteInstr::RST_10H => rst(self, board, 0x10),
            ByteInstr::RET_C => ret_cond(self, board, Cond::C),
            ByteInstr::RETI => ret(self, board, true),
            ByteInstr::JP_C_a16 => jp_cond(self, board, Cond::C),
            ByteInstr::NOT_USED_0 => {
                self.set_halt_state(board, HaltState::Stuck);
                assert(op_post(Op::Stuck, c0, b0, *self, *board)) by {
                    reveal(op_post);
                }
            },
            ByteInstr::CALL_C_a16 => call_cond(self, board, Cond::C),
            ByteInstr::NOT_USED_1 => {
                self.set_halt_state(board, HaltState::Stuck);
                assert(op_post(Op::Stuck, c0, b0, *self, *board)) by {
                    reveal(op_post);
                }
            },
            ByteInstr::SBC_A_d8 => sbc8(self, board, Operand8::Imm8),
            ByteInstr::RST_18H => rst(self, board, 0x18),
            ByteInstr::LDH_xa8x_A => ld8(self, board, Operand8::HighImm8, Operand8::Reg(R8::A)),
            ByteInstr::POP_HL => pop(self, board, R16::HL),
            ByteInstr::LD_xCx_A => ld8(self, board, Operand8::HighC, Operand8::Reg(R8::A)),
            ByteInstr::NOT_USED_2 => {
                self.set_halt_state(board, HaltState::Stuck);
                assert(op_post(Op::Stuck, c0, b0, *self, *board)) by {
                    reveal(op_post);
                }
            },
            ByteInstr::NOT_USED_3 => {
                self.set_halt_state(board, HaltState::Stuck);
                assert(op_post(Op::Stuck, c0, b0, *self, *board)) by {
                    reveal(op_post);
                }
            },
            ByteInstr::PUSH_HL => push(self, board, R16::HL),
            ByteInstr::AND_d8 => and8(self, board, Operand8::Imm8),
            ByteInstr::RST_20H => rst(self, board, 0x20),
            ByteInstr::ADD_SP_r8 => add_sp_r8(self, board),
            ByteInstr::JP_xHLx => {
                jp_hl(self);
                assert(op_post(Op::JpHl, c0, b0, *self, *board)) by {
                    reveal(op_post);
                }
            },
            ByteInstr::LD_xa16x_A => ld8(self, board, Operand8::ImmAddr, Operand8::Reg(R8::A)),
            ByteInstr::NOT_USED_4 => {
                self.set_halt_state(board, HaltState::Stuck);
                assert(op_post(Op::Stuck, c0, b0, *self, *board)) by {
                    reveal(op_post);
                }
            },
            ByteInstr::NOT_USED_5 => {
                self.set_halt_state(board, HaltState::Stuck);
                assert(op_post(Op::Stuck, c0, b0, *self, *board)) by {
                    reveal(op_post);
                }
            },
            ByteInstr::NOT_USED_6 => {
                self.set_halt_state(board, HaltState::Stuck);
                assert(op_post(Op::Stuck, c0, b0, *self, *board)) by {
                    reveal(op_post);
                }
            },
            ByteInstr::XOR_d8 => xor8(self, board, Operand8::Imm8),
            ByteInstr::RST_28H => rst(self, board, 0x28),
            ByteInstr::LDH_A_xa8x => ld8(self, board, Operand8::Reg(R8::A), Operand8::HighImm8),
            ByteInstr::POP_AF => pop_af(self, board),
            ByteInstr::LD_A_xCx => ld8(self, board, Operand8::Reg(R8::A), Operand8::HighC),
            ByteInstr::DI => {
                self.set_ime(board, false);
                assert(op_post(Op::Di, c0, b0, *self, *board)) by {
                    reveal(op_post);
                }
            },
            ByteInstr::NOT_USED_7 => {
                self.set_halt_state(board, HaltState::Stuck);
                assert(op_post(Op::Stuck, c0, b0, *self, *board)) by {
                    reveal(op_post);
                }
            },
            ByteInstr::PUSH_AF => push(self, board, R16::AF),
            ByteInstr::OR_d8 => or8(self, board, Operand8::Imm8),
            ByteInstr::RST_30H => rst(self, board, 0x30),
            ByteInstr::LD_HL_SPpr8 => ld_hl_sp_r8(self, board),
            ByteInstr::LD_SP_HL => ld_sp_hl(self, board),
            ByteInstr::LD_A_xa16x => ld8(self, board, Operand8::Reg(R8::A), Operand8::ImmAddr),
            ByteInstr::EI => {
                self.set_ime(board, true);
                assert(op_post(Op::Ei, c0, b0, *self, *board)) by {
                    reveal(op_post);
                }
            },
            ByteInstr::NOT_USED_8 => {
                self.set_halt_state(board, HaltState::Stuck);
                assert(op_post(Op::Stuck, c0, b0, *self, *board)) by {
                    reveal(op_post);
                }
            },
            ByteInstr::NOT_USED_9 => {
                self.set_halt_state(board, HaltState::Stuck);
                assert(op_post(Op::Stuck, c0, b0, *self, *board)) by {
                    reveal(op_post);
                }
            },
            ByteInstr::CP_d8 => cp8(self, board, Operand8::Imm8),
            ByteInstr::RST_38H => rst(self, board, 0x38),
        }
    }

    #[verifier::rlimit(100)]
    pub fn fetch_execute_cb<C: CartridgeMem>(&mut self, board: &mut Board<C>)
        requires
            old(board).wf(),
        ensures
            final(board).wf(),
            op_post(instruction::Op::PrefixCb, *old(self), *old(board), *final(self), *final(board)),
    {
        let ghost c0 = *self;
        let ghost b0 = *board;
        let ghost pc = self.reg.pc;
        let (instr, b) = self.fetch_cb(board);
        let ghost bm = *board;
        board.push_cpu_evt(CpuEvt::ExecCB(instr));
        let ghost be = *board;
        match instr {
            CBByteInstr::RLC_B => rlc(self, board, Operand8::Reg(R8::B)),
            CBByteInstr::RLC_C => rlc(self, board, Operand8::Reg(R8::C)),
            CBByteInstr::RLC_D => rlc(self, board, Operand8::Reg(R8::D)),
            CBByteInstr::RLC_E => rlc(self, board, Operand8::Reg(R8::E)),
            CBByteInstr::RLC_H => rlc(self, board, Operand8::Reg(R8::H)),
            CBByteInstr::RLC_L => rlc(self, board, Operand8::Reg(R8::L)),
            CBByteInstr::RLC_xHLx => rlc(self, board, Operand8::Ind(R16::HL)),
            CBByteInstr::RLC_A => rlc(self, board, Operand8::Reg(R8::A)),
            CBByteInstr::RRC_B => rrc(self, board, Operand8::Reg(R8::B)),
            CBByteInstr::RRC_C => rrc(self, board, Operand8::Reg(R8::C)),
            CBByteInstr::RRC_D => rrc(self, board, Operand8::Reg(R8::D)),
            CBByteInstr::RRC_E => rrc(self, board, Operand8::Reg(R8::E)),
            CBByteInstr::RRC_H => rrc(self, board, Operand8::Reg(R8::H)),
            CBByteInstr::RRC_L => rrc(self, board, Operand8::Reg(R8::L)),
            CBByteInstr::RRC_xHLx => rrc(self, board, Operand8::Ind(R16::HL)),
            CBByteInstr::RRC_A => rrc(self, board, Operand8::Reg(R8::A)),
            CBByteInstr::RL_B => rl(self, board, Operand8::Reg(R8::B)),
            CBByteInstr::RL_C => rl(self, board, Operand8::Reg(R8::C)),
            CBByteInstr::RL_D => rl(self, board, Operand8::Reg(R8::D)),
            CBByteInstr::RL_E => rl(self, board, Operand8::Reg(R8::E)),
            CBByteInstr::RL_H => rl(self, board, Operand8::Reg(R8::H)),
            CBByteInstr::RL_L => rl(self, board, Operand8::Reg(R8::L)),
            CBByteInstr::RL_xHLx => rl(self, board, Operand8::Ind(R16::HL)),
            CBByteInstr::RL_A => rl(self, board, Operand8::Reg(R8::A)),
            CBByteInstr::RR_B => rr(self, board, Operand8::Reg(R8::B)),
            CBByteInstr::RR_C => rr(self, board, Operand8::Reg(R8::C)),
            CBByteInstr::RR_D => rr(self, board, Operand8::Reg(R8::D)),
            CBByteInstr::RR_E => rr(self, board, Operand8::Reg(R8::E)),
            CBByteInstr::RR_H => rr(self, board, Operand8::Reg(R8::H)),
            CBByteInstr::RR_L => rr(self, board, Operand8::Reg(R8::L)),
            CBByteInstr::RR_xHLx => rr(self, board, Operand8::Ind(R16::HL)),
            CBByteInstr::RR_A => rr(self, board, Operand8::Reg(R8::A)),
            CBByteInstr::SLA_B => sla(self, board, Operand8::Reg(R8::B)),
            CBByteInstr::SLA_C => sla(self, board, Operand8::Reg(R8::C)),
            CBByteInstr::SLA_D => sla(self, board, Operand8::Reg(R8::D)),
            CBByteInstr::SLA_E => sla(self, board, Operand8::Reg(R8::E)),
            CBByteInstr::SLA_H => sla(self, board, Operand8::Reg(R8::H)),
            CBByteInstr::SLA_L => sla(self, board, Operand8::Reg(R8::L)),
            CBByteInstr::SLA_xHLx => sla(self, board, Operand8::Ind(R16::HL)),
            CBByteInstr::SLA_A => sla(self, board, Operand8::Reg(R8::A)),
            CBByteInstr::SRA_B => sra(self, board, Operand8::Reg(R8::B)),
            CBByteInstr::SRA_C => sra(self, board, Operand8::Reg(R8::C)),
            CBByteInstr::SRA_D => sra(self, board, Operand8::Reg(R8::D)),
            CBByteInstr::SRA_E => sra(self, board, Operand8::Reg(R8::E)),
            CBByteInstr::SRA_H => sra(self, board, Operand8::Reg(R8::H)),
            CBByteInstr::SRA_L => sra(self, board, Operand8::Reg(R8::L)),
            CBByteInstr::SRA_xHLx => sra(self, board, Operand8::Ind(R16::HL)),
            CBByteInstr::SRA_A => sra(self, board, Operand8::Reg(R8::A)),
            CBByteInstr::SWAP_B => swap(self, board, Operand8::Reg(R8::B)),
            CBByteInstr::SWAP_C => swap(self, board, Operand8::Reg(R8::C)),
            CBByteInstr::SWAP_D => swap(self, board, Operand8::Reg(R8::D)),
            CBByteInstr::SWAP_E => swap(self, board, Operand8::Reg(R8::E)),
            CBByteInstr::SWAP_H => swap(self, board, Operand8::Reg(R8::H)),
            CBByteInstr::SWAP_L => swap(self, board, Operand8::Reg(R8::L)),
            CBByteInstr::SWAP_xHLx => swap(self, board, Operand8::Ind(R16::HL)),
            CBByteInstr::SWAP_A => swap(self, board, Operand8::Reg(R8::A)),
            CBByteInstr::SRL_B => srl(self, board, Operand8::Reg(R8::B)),
            CBByteInstr::SRL_C => srl(self, board, Operand8::Reg(R8::C)),
            CBByteInstr::SRL_D => srl(self, board, Operand8::Reg(R8::D)),
            CBByteInstr::SRL_E => srl(self, board, Operand8::Reg(R8::E)),
            CBByteInstr::SRL_H => srl(self, board, Operand8::Reg(R8::H)),
            CBByteInstr::SRL_L => srl(self, board, Operand8::Reg(R8::L)),
            CBByteInstr::SRL_xHLx => srl(self, board, Operand8::Ind(R16::HL)),
            CBByteInstr::SRL_A => srl(self, board, Operand8::Reg(R8::A)),
            CBByteInstr::BIT_0_B => bit(self, board, 0, Operand8::Reg(R8::B)),
            CBByteInstr::BIT_0_C => bit(self, board, 0, Operand8::Reg(R8::C)),
            CBByteInstr::BIT_0_D => bit(self, board, 0, Operand8::Reg(R8::D)),
            CBByteInstr::BIT_0_E => bit(self, board, 0, Operand8::Reg(R8::E)),
            CBByteInstr::BIT_0_H => bit(self, board, 0, Operand8::Reg(R8::H)),
            CBByteInstr::BIT_0_L => bit(self, board, 0, Operand8::Reg(R8::L)),
            CBByteInstr::BIT_0_xHLx => bit(self, board, 0, Operand8::Ind(R16::HL)),
            CBByteInstr::BIT_0_A => bit(self, board, 0, Operand8::Reg(R8::A)),
            CBByteInstr::BIT_1_B => bit(self, board, 1, Operand8::Reg(R8::B)),
            CBByteInstr::BIT_1_C => bit(self, board, 1, Operand8::Reg(R8::C)),
            CBByteInstr::BIT_1_D => bit(self, board, 1, Operand8::Reg(R8::D)),
            CBByteInstr::BIT_1_E => bit(self, board, 1, Operand8::Reg(R8::E)),
            CBByteInstr::BIT_1_H => bit(self, board, 1, Operand8::Reg(R8::H)),
            CBByteInstr::BIT_1_L => bit(self, board, 1, Operand8::Reg(R8::L)),
            CBByteInstr::BIT_1_xHLx => bit(self, board, 1, Operand8::Ind(R16::HL)),
            CBByteInstr::BIT_1_A => bit(self, board, 1, Operand8::Reg(R8::A)),
            CBByteInstr::BIT_2_B => bit(self, board, 2, Operand8::Reg(R8::B)),
            CBByteInstr::BIT_2_C => bit(self, board, 2, Operand8::Reg(R8::C)),
            CBByteInstr::BIT_2_D => bit(self, board, 2, Operand8::Reg(R8::D)),
            CBByteInstr::BIT_2_E => bit(self, board, 2, Operand8::Reg(R8::E)),
            CBByteInstr::BIT_2_H => bit(self, board, 2, Operand8::Reg(R8::H)),
            CBByteInstr::BIT_2_L => bit(self, board, 2, Operand8::Reg(R8::L)),
            CBByteInstr::BIT_2_xHLx => bit(self, board, 2, Operand8::Ind(R16::HL)),
            CBByteInstr::BIT_2_A => bit(self, board, 2, Operand8::Reg(R8::A)),
            CBByteInstr::BIT_3_B => bit(self, board, 3, Operand8::Reg(R8::B)),
            CBByteInstr::BIT_3_C => bit(self, board, 3, Operand8::Reg(R8::C)),
            CBByteInstr::BIT_3_D => bit(self, board, 3, Operand8::Reg(R8::D)),
            CBByteInstr::BIT_3_E => bit(self, board, 3, Operand8::Reg(R8::E)),
            CBByteInstr::BIT_3_H => bit(self, board, 3, Operand8::Reg(R8::H)),
            CBByteInstr::BIT_3_L => bit(self, board, 3, Operand8::Reg(R8::L)),
            CBByteInstr::BIT_3_xHLx => bit(self, board, 3, Operand8::Ind(R16::HL)),
            CBByteInstr::BIT_3_A => bit(self, board, 3, Operand8::Reg(R8::A)),
            CBByteInstr::BIT_4_B => bit(self, board, 4, Operand8::Reg(R8::B)),
            CBByteInstr::BIT_4_C => bit(self, board, 4, Operand8::Reg(R8::C)),
            CBByteInstr::BIT_4_D => bit(self, board, 4, Operand8::Reg(R8::D)),
            CBByteInstr::BIT_4_E => bit(self, board, 4, Operand8::Reg(R8::E)),
            CBByteInstr::BIT_4_H => bit(self, board, 4, Operand8::Reg(R8::H)),
            CBByteInstr::BIT_4_L => bit(self, board, 4, Operand8::Reg(R8::L)),
            CBByteInstr::BIT_4_xHLx => bit(self, board, 4, Operand8::Ind(R16::HL)),
            CBByteInstr::BIT_4_A => bit(self, board, 4, Operand8::Reg(R8::A)),
            CBByteInstr::BIT_5_B => bit(self, board, 5, Operand8::Reg(R8::B)),
            CBByteInstr::BIT_5_C => bit(self, board, 5, Operand8::Reg(R8::C)),
            CBByteInstr::BIT_5_D => bit(self, board, 5, Operand8::Reg(R8::D)),
            CBByteInstr::BIT_5_E => bit(self, board, 5, Operand8::Reg(R8::E)),
            CBByteInstr::BIT_5_H => bit(self, board, 5, Operand8::Reg(R8::H)),
            CBByteInstr::BIT_5_L => bit(self, board, 5, Operand8::Reg(R8::L)),
            CBByteInstr::BIT_5_xHLx => bit(self, board, 5, Operand8::Ind(R16::HL)),
            CBByteInstr::BIT_5_A => bit(self, board, 5, Operand8::Reg(R8::A)),
            CBByteInstr::BIT_6_B => bit(self, board, 6, Operand8::Reg(R8::B)),
            CBByteInstr::BIT_6_C => bit(self, board, 6, Operand8::Reg(R8::C)),
            CBByteInstr::BIT_6_D => bit(self, board, 6, Operand8::Reg(R8::D)),
            CBByteInstr::BIT_6_E => bit(self, board, 6, Operand8::Reg(R8::E)),
            CBByteInstr::BIT_6_H => bit(self, board, 6, Operand8::Reg(R8::H)),
            CBByteInstr::BIT_6_L => bit(self, board, 6, Operand8::Reg(R8::L)),
            CBByteInstr::BIT_6_xHLx => bit(self, board, 6, Operand8::Ind(R16::HL)),
            CBByteInstr::BIT_6_A => bit(self, board, 6, Operand8::Reg(R8::A)),
            CBByteInstr::BIT_7_B => bit(self, board, 7, Operand8::Reg(R8::B)),
            CBByteInstr::BIT_7_C => bit(self, board, 7, Operand8::Reg(R8::C)),
            CBByteInstr::BIT_7_D => bit(self, board, 7, Operand8::Reg(R8::D)),
            CBByteInstr::BIT_7_E => bit(self, board, 7, Operand8::Reg(R8::E)),
            CBByteInstr::BIT_7_H => bit(self, board, 7, Operand8::Reg(R8::H)),
            CBByteInstr::BIT_7_L => bit(self, board, 7, Operand8::Reg(R8::L)),
            CBByteInstr::BIT_7_xHLx => bit(self, board, 7, Operand8::Ind(R16::HL)),
            CBByteInstr::BIT_7_A => bit(self, board, 7, Operand8::Reg(R8::A)),
            CBByteInstr::RES_0_B => res(self, board, 0, Operand8::Reg(R8::B)),
            CBByteInstr::RES_0_C => res(self, board, 0, Operand8::Reg(R8::C)),
            CBByteInstr::RES_0_D => res(self, board, 0, Operand8::Reg(R8::D)),
            CBByteInstr::RES_0_E => res(self, board, 0, Operand8::Reg(R8::E)),
            CBByteInstr::RES_0_H => res(self, board, 0, Operand8::Reg(R8::H)),
            CBByteInstr::RES_0_L => res(self, board, 0, Operand8::Reg(R8::L)),
            CBByteInstr::RES_0_xHLx => res(self, board, 0, Operand8::Ind(R16::HL)),
            CBByteInstr::RES_0_A => res(self, board, 0, Operand8::Reg(R8::A)),
            CBByteInstr::RES_1_B => res(self, board, 1, Operand8::Reg(R8::B)),
            CBByteInstr::RES_1_C => res(self, board, 1, Operand8::Reg(R8::C)),
            CBByteInstr::RES_1_D => res(self, board, 1, Operand8::Reg(R8::D)),
            CBByteInstr::RES_1_E => res(self, board, 1, Operand8::Reg(R8::E)),
            CBByteInstr::RES_1_H => res(self, board, 1, Operand8::Reg(R8::H)),
            CBByteInstr::RES_1_L => res(self, board, 1, Operand8::Reg(R8::L)),
            CBByteInstr::RES_1_xHLx => res(self, board, 1, Operand8::Ind(R16::HL)),
            CBByteInstr::RES_1_A => res(self, board, 1, Operand8::Reg(R8::A)),
            CBByteInstr::RES_2_B => res(self, board, 2, Operand8::Reg(R8::B)),
            CBByteInstr::RES_2_C => res(self, board, 2, Operand8::Reg(R8::C)),
            CBByteInstr::RES_2_D => res(self, board, 2, Operand8::Reg(R8::D)),
            CBByteInstr::RES_2_E => res(self, board, 2, Operand8::Reg(R8::E)),
            CBByteInstr::RES_2_H => res(self, board, 2, Operand8::Reg(R8::H)),
            CBByteInstr::RES_2_L => res(self, board, 2, Operand8::Reg(R8::L)),
            CBByteInstr::RES_2_xHLx => res(self, board, 2, Operand8::Ind(R16::HL)),
            CBByteInstr::RES_2_A => res(self, board, 2, Operand8::Reg(R8::A)),
            CBByteInstr::RES_3_B => res(self, board, 3, Operand8::Reg(R8::B)),
            CBByteInstr::RES_3_C => res(self, board, 3, Operand8::Reg(R8::C)),
            CBByteInstr::RES_3_D => res(self, board, 3, Operand8::Reg(R8::D)),
            CBByteInstr::RES_3_E => res(self, board, 3, Operand8::Reg(R8::E)),
            CBByteInstr::RES_3_H => res(self, board, 3, Operand8::Reg(R8::H)),
            CBByteInstr::RES_3_L => res(self, board, 3, Operand8::Reg(R8::L)),
            CBByteInstr::RES_3_xHLx => res(self, board, 3, Operand8::Ind(R16::HL)),
            CBByteInstr::RES_3_A => res(self, board, 3, Operand8::Reg(R8::A)),
            CBByteInstr::RES_4_B => res(self, board, 4, Operand8::Reg(R8::B)),
            CBByteInstr::RES_4_C => res(self, board, 4, Operand8::Reg(R8::C)),
            CBByteInstr::RES_4_D => res(self, board, 4, Operand8::Reg(R8::D)),
            CBByteInstr::RES_4_E => res(self, board, 4, Operand8::Reg(R8::E)),
            CBByteInstr::RES_4_H => res(self, board, 4, Operand8::Reg(R8::H)),
            CBByteInstr::RES_4_L => res(self, board, 4, Operand8::Reg(R8::L)),
            CBByteInstr::RES_4_xHLx => res(self, board, 4, Operand8::Ind(R16::HL)),
            CBByteInstr::RES_4_A => res(self, board, 4, Operand8::Reg(R8::A)),
            CBByteInstr::RES_5_B => res(self, board, 5, Operand8::Reg(R8::B)),
            CBByteInstr::RES_5_C => res(self, board, 5, Operand8::Reg(R8::C)),
            CBByteInstr::RES_5_D => res(self, board, 5, Operand8::Reg(R8::D)),
            CBByteInstr::RES_5_E => res(self, board, 5, Operand8::Reg(R8::E)),
            CBByteInstr::RES_5_H => res(self, board, 5, Operand8::Reg(R8::H)),
            CBByteInstr::RES_5_L => res(self, board, 5, Operand8::Reg(R8::L)),
            CBByteInstr::RES_5_xHLx => res(self, board, 5, Operand8::Ind(R16::HL)),
            CBByteInstr::RES_5_A => res(self, board, 5, Operand8::Reg(R8::A)),
            CBByteInstr::RES_6_B => res(self, board, 6, Operand8::Reg(R8::B)),
            CBByteInstr::RES_6_C => res(self, board, 6, Operand8::Reg(R8::C)),
            CBByteInstr::RES_6_D => res(self, board, 6, Operand8::Reg(R8::D)),
            CBByteInstr::RES_6_E => res(self, board, 6, Operand8::Reg(R8::E)),
            CBByteInstr::RES_6_H => res(self, board, 6, Operand8::Reg(R8::H)),
            CBByteInstr::RES_6_L => res(self, board, 6, Operand8::Reg(R8::L)),
            CBByteInstr::RES_6_xHLx => res(self, board, 6, Operand8::Ind(R16::HL)),
            CBByteInstr::RES_6_A => res(self, board, 6, Operand8::Reg(R8::A)),
            CBByteInstr::RES_7_B => res(self, board, 7, Operand8::Reg(R8::B)),
            CBByteInstr::RES_7_C => res(self, board, 7, Operand8::Reg(R8::C)),
            CBByteInstr::RES_7_D => res(self, board, 7, Operand8::Reg(R8::D)),
            CBByteInstr::RES_7_E => res(self, board, 7, Operand8::Reg(R8::E)),
            CBByteInstr::RES_7_H => res(self, board, 7, Operand8::Reg(R8::H)),
            CBByteInstr::RES_7_L => res(self, board, 7, Operand8::Reg(R8::L)),
            CBByteInstr::RES_7_xHLx => res(self, board, 7, Operand8::Ind(R16::HL)),
            CBByteInstr::RES_7_A => res(self, board, 7, Operand8::Reg(R8::A)),
            CBByteInstr::SET_0_B => execute::set(self, board, 0, Operand8::Reg(R8::B)),
            CBByteInstr::SET_0_C => execute::set(self, board, 0, Operand8::Reg(R8::C)),
            CBByteInstr::SET_0_D => execute::set(self, board, 0, Operand8::Reg(R8::D)),
            CBByteInstr::SET_0_E => execute::set(self, board, 0, Operand8::Reg(R8::E)),
            CBByteInstr::SET_0_H => execute::set(self, board, 0, Operand8::Reg(R8::H)),
            CBByteInstr::SET_0_L => execute::set(self, board, 0, Operand8::Reg(R8::L)),
            CBByteInstr::SET_0_xHLx => execute::set(self, board, 0, Operand8::Ind(R16::HL)),
            CBByteInstr::SET_0_A => execute::set(self, board, 0, Operand8::Reg(R8::A)),
            CBByteInstr::SET_1_B => execute::set(self, board, 1, Operand8::Reg(R8::B)),
            CBByteInstr::SET_1_C => execute::set(self, board, 1, Operand8::Reg(R8::C)),
            CBByteInstr::SET_1_D => execute::set(self, board, 1, Operand8::Reg(R8::D)),
            CBByteInstr::SET_1_E => execute::set(self, board, 1, Operand8::Reg(R8::E)),
            CBByteInstr::SET_1_H => execute::set(self, board, 1, Operand8::Reg(R8::H)),
            CBByteInstr::SET_1_L => execute::set(self, board, 1, Operand8::Reg(R8::L)),
            CBByteInstr::SET_1_xHLx => execute::set(self, board, 1, Operand8::Ind(R16::HL)),
            CBByteInstr::SET_1_A => execute::set(self, board, 1, Operand8::Reg(R8::A)),
            CBByteInstr::SET_2_B => execute::set(self, board, 2, Operand8::Reg(R8::B)),
            CBByteInstr::SET_2_C => execute::set(self, board, 2, Operand8::Reg(R8::C)),
            CBByteInstr::SET_2_D => execute::set(self, board, 2, Operand8::Reg(R8::D)),
            CBByteInstr::SET_2_E => execute::set(self, board, 2, Operand8::Reg(R8::E)),
            CBByteInstr::SET_2_H => execute::set(self, board, 2, Operand8::Reg(R8::H)),
            CBByteInstr::SET_2_L => execute::set(self, board, 2, Operand8::Reg(R8::L)),
            CBByteInstr::SET_2_xHLx => execute::set(self, board, 2, Operand8::Ind(R16::HL)),
            CBByteInstr::SET_2_A => execute::set(self, board, 2, Operand8::Reg(R8::A)),
            CBByteInstr::SET_3_B => execute::set(self, board, 3, Operand8::Reg(R8::B)),
            CBByteInstr::SET_3_C => execute::set(self, board, 3, Operand8::Reg(R8::C)),
            CBByteInstr::SET_3_D => execute::set(self, board, 3, Operand8::Reg(R8::D)),
            CBByteInstr::SET_3_E => execute::set(self, board, 3, Operand8::Reg(R8::E)),
            CBByteInstr::SET_3_H => execute::set(self, board, 3, Operand8::Reg(R8::H)),
            CBByteInstr::SET_3_L => execute::set(self, board, 3, Operand8::Reg(R8::L)),
            CBByteInstr::SET_3_xHLx => execute::set(self, board, 3, Operand8::Ind(R16::HL)),
            CBByteInstr::SET_3_A => execute::set(self, board, 3, Operand8::Reg(R8::A)),
            CBByteInstr::SET_4_B => execute::set(self, board, 4, Operand8::Reg(R8::B)),
            CBByteInstr::SET_4_C => execute::set(self, board, 4, Operand8::Reg(R8::C)),
            CBByteInstr::SET_4_D => execute::set(self, board, 4, Operand8::Reg(R8::D)),
            CBByteInstr::SET_4_E => execute::set(self, board, 4, Operand8::Reg(R8::E)),
            CBByteInstr::SET_4_H => execute::set(self, board, 4, Operand8::Reg(R8::H)),
            CBByteInstr::SET_4_L => execute::set(self, board, 4, Operand8::Reg(R8::L)),
            CBByteInstr::SET_4_xHLx => execute::set(self, board, 4, Operand8::Ind(R16::HL)),
            CBByteInstr::SET_4_A => execute::set(self, board, 4, Operand8::Reg(R8::A)),
            CBByteInstr::SET_5_B => execute::set(self, board, 5, Operand8::Reg(R8::B)),
            CBByteInstr::SET_5_C => execute::set(self, board, 5, Operand8::Reg(R8::C)),
            CBByteInstr::SET_5_D => execute::set(self, board, 5, Operand8::Reg(R8::D)),
            CBByteInstr::SET_5_E => execute::set(self, board, 5, Operand8::Reg(R8::E)),
            CBByteInstr::SET_5_H => execute::set(self, board, 5, Operand8::Reg(R8::H)),
            CBByteInstr::SET_5_L => execute::set(self, board, 5, Operand8::Reg(R8::L)),
            CBByteInstr::SET_5_xHLx => execute::set(self, board, 5, Operand8::Ind(R16::HL)),
            CBByteInstr::SET_5_A => execute::set(self, board, 5, Operand8::Reg(R8::A)),
            CBByteInstr::SET_6_B => execute::set(self, board, 6, Operand8::Reg(R8::B)),
            CBByteInstr::SET_6_C => execute::set(self, board, 6, Operand8::Reg(R8::C)),
            CBByteInstr::SET_6_D => execute::set(self, board, 6, Operand8::Reg(R8::D)),
            CBByteInstr::SET_6_E => execute::set(self, board, 6, Operand8::Reg(R8::E)),
            CBByteInstr::SET_6_H => execute::set(self, board, 6, Operand8::Reg(R8::H)),
            CBByteInstr::SET_6_L => execute::set(self, board, 6, Operand8::Reg(R8::L)),
            CBByteInstr::SET_6_xHLx => execute::set(self, board, 6, Operand8::Ind(R16::HL)),
            CBByteInstr::SET_6_A => execute::set(self, board, 6, Operand8::Reg(R8::A)),
            CBByteInstr::SET_7_B => execute::set(self, board, 7, Operand8::Reg(R8::B)),
            CBByteInstr::SET_7_C => execute::set(self, board, 7, Operand8::Reg(R8::C)),
            CBByteInstr::SET_7_D => execute::set(self, board, 7, Operand8::Reg(R8::D)),
            CBByteInstr::SET_7_E => execute::set(self, board, 7, Operand8::Reg(R8::E)),
            CBByteInstr::SET_7_H => execute::set(self, board, 7, Operand8::Reg(R8::H)),
            CBByteInstr::SET_7_L => execute::set(self, board, 7, Operand8::Reg(R8::L)),
            CBByteInstr::SET_7_xHLx => execute::set(self, board, 7, Operand8::Ind(R16::HL)),
            CBByteInstr::SET_7_A => execute::set(self, board, 7, Operand8::Reg(R8::A)),
        }
        assert(op_post(Op::PrefixCb, c0, b0, *self, *board)) by {
            reveal(op_post);
            assert(Board::read8_post(b0, pc, bm, b));
            assert(Board::evt_pushed(bm, CpuEvt::ExecCB(CBByteInstr::decode(b)), be));
        }
    }
}

/// When IME is set and an enabled interrupt is requested, a step jumps to
/// the handler of the requested interrupt of highest priority, with IME
/// cleared and the return address pushed.
pub proof fn law_interrupt_taken<C: CartridgeMem>(c0: CPU, b0: Board<C>, c1: CPU, b1: Board<C>)
    requires
        CPU::step_post(c0, b0, c1, b1),
        c0.ime,
        b0.ir_system.pending() != 0,
    ensures
        highest_priority(b0.ir_system.pending()) is Some,
        c1.reg.pc == highest_priority(b0.ir_system.pending())->0.handler(),
        !c1.ime,
        c1.reg.sp == operands::add16(c0.reg.sp, 0xFFFE),
        c1.halt_state == c0.halt_state,
{
    crate::interrupt_system::law_interrupt_priority(b0.ir_system);
}

/// While halted with no enabled interrupt requested, a step only lets one
/// machine cycle pass.
pub proof fn law_halt_idles<C: CartridgeMem>(c0: CPU, b0: Board<C>, c1: CPU, b1: Board<C>)
    requires
        CPU::step_post(c0, b0, c1, b1),
        c0.halt_state == HaltState::Halted,
        b0.ir_system.pending() == 0,
    ensures
        c1 == c0,
        Board::ticked(b0, b1),
{
    crate::interrupt_system::law_interrupt_priority(b0.ir_system);
}

/// POP AF leaves the lower four bits of F clear, whatever was on the stack.
pub proof fn law_pop_af_low_flags<C: CartridgeMem>(c0: CPU, b0: Board<C>, c1: CPU, b1: Board<C>)
    requires
        execute::pop_af_post(c0, b0, c1, b1),
    ensures
        c1.reg.f.low() == 0,
{
    let v = choose|v: u16| #[trigger] Board::read16_post(b0, c0.reg.sp, b1, v)
        && c1 == with_reg(c0, c0.reg.with16(R16::AF, (v - v % 16) as u16).with16(R16::SP, operands::add16(c0.reg.sp, 2)));
    let w = (v - v % 16) as u16;
    assert(w % 16 == 0);
    let x = (w % 256) as u8;
    alu::lemma_byte_ops(x);
    assert(x % 16 == 0);
}

} // verus!
