use vstd::prelude::*;
use crate::address::Addr;
use crate::board::lemma_decode_mem_ok;
use crate::cartridge::CartridgeMem;
use crate::cpu::instruction::ByteInstr;
use crate::cpu::operands::add16;
use crate::emulator::Emulator;

verus! {

/// A breakpoint at an address.
#[derive(Copy, Clone, Debug, PartialEq, Eq, Structural)]
pub struct BreakPoint(pub u16);

/// A debugger that never breaks.
pub struct NoDebugger;

/// Decides when the emulation stops for the debugger: on request, after a
/// number of instructions, or when the next instruction covers a breakpoint.
pub struct CpuDebugger {
    pub breakpoints: Vec<u16>,
    pub break_in: Option<u16>,
}

/// Some breakpoint lies in `start ..= end`.
pub open spec fn breakpoint_hit(bps: Seq<u16>, start: u16, end: u16) -> bool {
    exists|i: int| 0 <= i < bps.len() && start <= #[trigger] bps[i] && bps[i] <= end
}

/// The last address the instruction at `pc` of `emu` occupies (as far as
/// the debugger counts it).
pub open spec fn instr_end<C: CartridgeMem>(emu: Emulator<C>, pc: u16) -> u16 {
    let op = ByteInstr::decode(emu.board.peek8(pc)).semantics().operand();
    add16(pc, if op is Some { op->0.byte_len() as int } else { 0 })
}

impl CpuDebugger {
    pub fn new() -> (r: CpuDebugger)
        ensures
            r.breakpoints@ == Seq::<u16>::empty(),
            r.break_in is None,
    {
        CpuDebugger { breakpoints: Vec::new(), break_in: None }
    }

    /// Break before the next instruction.
    pub fn request_break(&mut self)
        ensures
            final(self).break_in == Some(0u16),
            final(self).breakpoints == old(self).breakpoints,
    {
        self.break_in(0);
    }

    /// Break after `steps` more instructions.
    pub fn break_in(&mut self, steps: u16)
        ensures
            final(self).break_in == Some(steps),
            final(self).breakpoints == old(self).breakpoints,
    {
        self.break_in = Some(steps);
    }

    /// Whether to stop before the next instruction of `emu`; call it once
    /// per instruction, before `Emulator::emulate_step`.
    pub fn break_cond_met<C: CartridgeMem>(&mut self, emu: &Emulator<C>) -> (r: bool)
        requires
            emu.wf(),
        ensures
            final(self).breakpoints == old(self).breakpoints,
            old(self).break_in == Some(0u16) ==> r && final(self).break_in is None,
            old(self).break_in != Some(0u16) ==> {
                &&& final(self).break_in == match old(self).break_in {
                    Some(n) => Some((n - 1) as u16),
                    None => None,
                }
                &&& r == breakpoint_hit(old(self).breakpoints@, emu.cpu.reg.pc, instr_end(*emu, emu.cpu.reg.pc))
            },
    {
        if let Some(steps) = self.break_in {
            if steps == 0 {
                self.break_in = None;
                return true;
            } else {
                self.break_in = Some(steps - 1);
            }
        }
        let instr_start = emu.cpu.reg.pc();
        let instr_end = next_instr_end(emu);
        any_breakpoint_in(&self.breakpoints, instr_start, instr_end)
    }
}

/// The last address the instruction at PC occupies.
fn next_instr_end<C: CartridgeMem>(emu: &Emulator<C>) -> (r: u16)
    requires
        emu.wf(),
    ensures
        r == instr_end(*emu, emu.cpu.reg.pc),
{
    let instr_start = emu.cpu.reg.pc();
    proof {
        lemma_decode_mem_ok(instr_start);
    }
    let instr = ByteInstr::from_u8(emu.board.read8_instant(Addr::from(instr_start)));
    let len: u8 = match instr.operand_type() {
        Some(o) => o.len(),
        None => 0,
    };
    instr_start.wrapping_add(len as u16)
}

fn any_breakpoint_in(breakpoints: &Vec<u16>, start: u16, end: u16) -> (r: bool)
    ensures
        r == breakpoint_hit(breakpoints@, start, end),
{
    let mut i: usize = 0;
    while i < breakpoints.len()
        invariant
            i <= breakpoints@.len(),
            forall|j: int| 0 <= j < i ==> !(start <= #[trigger] breakpoints@[j] && breakpoints@[j] <= end),
        decreases breakpoints@.len() - i,
    {
        let bp = breakpoints[i];
        if bp >= start && bp <= end {
            assert(start <= breakpoints@[i as int] && breakpoints@[i as int] <= end);
            return true;
        }
        i = i + 1;
    }
    false
}

} // verus!
