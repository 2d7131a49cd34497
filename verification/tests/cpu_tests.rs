use maboy::cartridge::cram::NoCRAM;
use maboy::cartridge::mbc::NoMBC;
use maboy::cartridge::Cartridge;
use maboy::cpu::alu::{
    adc8_value, add8_value, and8_value, cp8_value, daa, dec8_value, inc8_value, or8_value, res_value, rl_value,
    rlc_value, rr_value, sbc8_value, set_value, sla_value, sra_value, srl_value, sub8_value, swap_value, xor8_value,
};
use maboy::cpu::instruction::{ByteInstr, CBByteInstr, OperandType};
use maboy::cpu::registers::{Flag, Registers, R16, R8};
use maboy::cpu::{HaltState, CPU};
use maboy::debug::CpuEvt;
use maboy::emulator::Emulator;
use maboy::interrupt_system::Interrupt;

type Emu = Emulator<Cartridge<NoMBC<NoCRAM>>>;

/// An emulator with the boot ROM unmapped, running `program` from 0xC000.
fn emu_with_program(program: &[u8]) -> Emu {
    let cart = Cartridge::new(NoMBC::new(vec![0u8; 0x8000], NoCRAM));
    let mut emu = Emulator::new(cart);
    emu.board.mem.boot_rom_active = false;
    for (i, b) in program.iter().enumerate() {
        emu.board.mem.internal.wram[i] = *b;
    }
    emu.cpu.reg.pc = 0xC000;
    emu.cpu.reg.sp = 0xFFFE;
    emu
}

fn flags(cpu: &CPU) -> (bool, bool, bool, bool) {
    (
        cpu.reg.f.contains(Flag::Z),
        cpu.reg.f.contains(Flag::N),
        cpu.reg.f.contains(Flag::H),
        cpu.reg.f.contains(Flag::C),
    )
}

#[test]
fn add_sets_carry_and_zero() {
    let mut cpu = CPU::new();
    cpu.reg.a = 0xF0;
    add8_value(&mut cpu, 0x10);
    assert_eq!(cpu.reg.a, 0x00);
    assert_eq!(flags(&cpu), (true, false, false, true));
}

#[test]
fn add_half_carry_is_the_carry_out_of_bit_3() {
    let mut cpu = CPU::new();
    cpu.reg.a = 0x0F;
    add8_value(&mut cpu, 0x01);
    assert_eq!(cpu.reg.a, 0x10);
    assert_eq!(flags(&cpu), (false, false, true, false));
    cpu.reg.a = 0x00;
    add8_value(&mut cpu, 0x0F);
    assert_eq!(cpu.reg.a, 0x0F);
    assert_eq!(flags(&cpu), (false, false, false, false));
}

#[test]
fn adc_adds_the_value_and_the_carry() {
    let mut cpu = CPU::new();
    cpu.reg.a = 0x01;
    cpu.reg.f.set(Flag::C, true);
    adc8_value(&mut cpu, 0xD8);
    assert_eq!(cpu.reg.a, 0xDA);
    assert_eq!(flags(&cpu), (false, false, false, false));
    cpu.reg.a = 0xFF;
    cpu.reg.f.set(Flag::C, true);
    adc8_value(&mut cpu, 0x00);
    assert_eq!(cpu.reg.a, 0x00);
    assert_eq!(flags(&cpu), (true, false, true, true));
    cpu.reg.a = 0x0E;
    cpu.reg.f.set(Flag::C, false);
    adc8_value(&mut cpu, 0x01);
    assert_eq!(cpu.reg.a, 0x0F);
    assert_eq!(flags(&cpu), (false, false, false, false));
}

#[test]
fn sub_sets_borrow() {
    let mut cpu = CPU::new();
    cpu.reg.a = 0x10;
    sub8_value(&mut cpu, 0x20);
    assert_eq!(cpu.reg.a, 0xF0);
    assert_eq!(flags(&cpu), (false, true, false, true));
    cpu.reg.a = 0x10;
    sub8_value(&mut cpu, 0x01);
    assert_eq!(cpu.reg.a, 0x0F);
    assert_eq!(flags(&cpu), (false, true, true, false));
}

#[test]
fn sbc_subtracts_the_carry() {
    let mut cpu = CPU::new();
    cpu.reg.a = 0x00;
    cpu.reg.f.set(Flag::C, true);
    sbc8_value(&mut cpu, 0x00);
    assert_eq!(cpu.reg.a, 0xFF);
    assert_eq!(flags(&cpu), (false, true, true, true));
    cpu.reg.a = 0x05;
    cpu.reg.f.set(Flag::C, true);
    sbc8_value(&mut cpu, 0x04);
    assert_eq!(cpu.reg.a, 0x00);
    assert_eq!(flags(&cpu), (true, true, false, false));
}

#[test]
fn cp_compares_without_storing() {
    let mut cpu = CPU::new();
    cpu.reg.a = 0x42;
    let r = cp8_value(&mut cpu, 0x42);
    assert_eq!(r, 0);
    assert_eq!(cpu.reg.a, 0x42);
    assert_eq!(flags(&cpu), (true, true, false, false));
}

#[test]
fn logic_ops() {
    let mut cpu = CPU::new();
    cpu.reg.a = 0b1100_1010;
    and8_value(&mut cpu, 0b1010_0110);
    assert_eq!(cpu.reg.a, 0b1000_0010);
    assert_eq!(flags(&cpu), (false, false, true, false));
    xor8_value(&mut cpu, 0b1000_0010);
    assert_eq!(cpu.reg.a, 0);
    assert_eq!(flags(&cpu), (true, false, false, false));
    or8_value(&mut cpu, 0x81);
    assert_eq!(cpu.reg.a, 0x81);
    assert_eq!(flags(&cpu), (false, false, false, false));
}

#[test]
fn inc_dec_keep_carry() {
    let mut cpu = CPU::new();
    cpu.reg.f.set(Flag::C, true);
    assert_eq!(inc8_value(&mut cpu, 0xFF), 0x00);
    assert_eq!(flags(&cpu), (true, false, true, true));
    assert_eq!(dec8_value(&mut cpu, 0x00), 0xFF);
    assert_eq!(flags(&cpu), (false, true, true, true));
    assert_eq!(dec8_value(&mut cpu, 0x01), 0x00);
    assert_eq!(flags(&cpu), (true, true, false, true));
}

#[test]
fn rotations_and_shifts() {
    let mut cpu = CPU::new();
    assert_eq!(rlc_value(&mut cpu, 0x85), 0x0B);
    assert!(cpu.reg.f.contains(Flag::C));
    cpu.reg.f.set(Flag::C, false);
    assert_eq!(rl_value(&mut cpu, 0x80), 0x00);
    assert_eq!(flags(&cpu), (true, false, false, true));
    assert_eq!(rr_value(&mut cpu, 0x02), 0x81);
    assert!(!cpu.reg.f.contains(Flag::C));
    assert_eq!(sla_value(&mut cpu, 0xC1), 0x82);
    assert!(cpu.reg.f.contains(Flag::C));
    assert_eq!(sra_value(&mut cpu, 0x81), 0xC0);
    assert!(cpu.reg.f.contains(Flag::C));
    assert_eq!(srl_value(&mut cpu, 0x81), 0x40);
    assert_eq!(swap_value(&mut cpu, 0xAB), 0xBA);
    assert_eq!(flags(&cpu), (false, false, false, false));
    assert_eq!(res_value(7, 0xFF), 0x7F);
    assert_eq!(set_value(0, 0x10), 0x11);
}

#[test]
fn daa_adjusts_after_addition() {
    let mut cpu = CPU::new();
    cpu.reg.a = 0x09;
    add8_value(&mut cpu, 0x01);
    daa(&mut cpu);
    assert_eq!(cpu.reg.a, 0x10);
    cpu.reg.a = 0x99;
    add8_value(&mut cpu, 0x01);
    daa(&mut cpu);
    assert_eq!(cpu.reg.a, 0x00);
    assert!(cpu.reg.f.contains(Flag::Z));
    assert!(cpu.reg.f.contains(Flag::C));
}

#[test]
fn register_pairs_round_trip() {
    let mut reg = Registers::new();
    reg.set_r16(R16::BC, 0x1234);
    assert_eq!(reg.r8(R8::B), 0x12);
    assert_eq!(reg.r8(R8::C), 0x34);
    assert_eq!(reg.r16(R16::BC), 0x1234);
    reg.set_r16(R16::AF, 0xABCD);
    assert_eq!(reg.r16(R16::AF), 0xABCD);
    reg.set_r8(R8::L, 0x77);
    reg.set_r8(R8::H, 0x66);
    assert_eq!(reg.hl(), 0x6677);
}

#[test]
fn opcodes_decode() {
    assert_eq!(ByteInstr::from_u8(0x00), ByteInstr::NOP);
    assert_eq!(ByteInstr::from_u8(0x06), ByteInstr::LD_B_d8);
    assert_eq!(ByteInstr::from_u8(0x76), ByteInstr::HALT);
    assert_eq!(ByteInstr::from_u8(0xCB), ByteInstr::PREFIX_CB);
    assert_eq!(ByteInstr::from_u8(0xFF), ByteInstr::RST_38H);
    assert_eq!(CBByteInstr::from_u8(0x00), CBByteInstr::RLC_B);
    assert_eq!(CBByteInstr::from_u8(0x7C), CBByteInstr::BIT_7_H);
    assert_eq!(CBByteInstr::from_u8(0xFF), CBByteInstr::SET_7_A);
}

#[test]
fn operand_types_for_the_debugger() {
    assert_eq!(ByteInstr::NOP.operand_type(), None);
    assert_eq!(ByteInstr::LD_BC_d16.operand_type(), Some(OperandType::D16));
    assert_eq!(ByteInstr::LDH_xa8x_A.operand_type(), Some(OperandType::A8));
    assert_eq!(ByteInstr::JR_NZ_r8.operand_type(), Some(OperandType::R8));
    assert_eq!(ByteInstr::CALL_a16.operand_type(), Some(OperandType::A16));
    assert_eq!(ByteInstr::PREFIX_CB.operand_type(), Some(OperandType::PrefixInstr));
    assert_eq!(ByteInstr::STOP.operand_type(), Some(OperandType::StopOperand));
    assert_eq!(OperandType::D16.len(), 2);
    assert_eq!(OperandType::R8.len(), 1);
    assert!(ByteInstr::RET_C.is_control_flow_change());
    assert!(ByteInstr::JP_xHLx.is_control_flow_change());
    assert!(!ByteInstr::LD_A_d8.is_control_flow_change());
}

#[test]
fn load_and_add_program() {
    // LD B,0x42 ; LD A,0x0F ; ADD A,B
    let mut emu = emu_with_program(&[0x06, 0x42, 0x3E, 0x0F, 0x80]);
    emu.emulate_step();
    assert_eq!(emu.cpu.reg.b, 0x42);
    assert_eq!(emu.cpu.reg.pc, 0xC002);
    emu.emulate_step();
    emu.emulate_step();
    assert_eq!(emu.cpu.reg.a, 0x51);
    assert_eq!(emu.cpu.reg.pc, 0xC005);
}

#[test]
fn memory_operands() {
    // LD HL,0xC100 ; LD (HL+),A ; LD (HL-),A ; LD A,(0xC100) ; LDH (0x80),A
    let mut emu = emu_with_program(&[0x21, 0x00, 0xC1, 0x22, 0x32, 0xFA, 0x00, 0xC1, 0xE0, 0x80]);
    emu.cpu.reg.a = 0x5A;
    emu.emulate_step();
    assert_eq!(emu.cpu.reg.hl(), 0xC100);
    emu.emulate_step();
    assert_eq!(emu.board.mem.internal.wram[0x100], 0x5A);
    assert_eq!(emu.cpu.reg.hl(), 0xC101);
    emu.emulate_step();
    assert_eq!(emu.board.mem.internal.wram[0x101], 0x5A);
    assert_eq!(emu.cpu.reg.hl(), 0xC100);
    emu.cpu.reg.a = 0;
    emu.emulate_step();
    assert_eq!(emu.cpu.reg.a, 0x5A);
    emu.emulate_step();
    assert_eq!(emu.board.mem.internal.hram[0], 0x5A);
}

#[test]
fn relative_jump() {
    // JR +2 ; NOP ; NOP ; LD A,0x01
    let mut emu = emu_with_program(&[0x18, 0x02, 0x00, 0x00, 0x3E, 0x01]);
    emu.emulate_step();
    assert_eq!(emu.cpu.reg.pc, 0xC004);
    emu.emulate_step();
    assert_eq!(emu.cpu.reg.a, 0x01);
    // JR -2 jumps back onto itself
    let mut emu = emu_with_program(&[0x18, 0xFE]);
    emu.emulate_step();
    assert_eq!(emu.cpu.reg.pc, 0xC000);
}

#[test]
fn call_jumps_to_the_target() {
    // CALL 0x1234
    let mut emu = emu_with_program(&[0xCD, 0x34, 0x12]);
    emu.emulate_step();
    assert_eq!(emu.cpu.reg.pc, 0x1234);
    assert_eq!(emu.cpu.reg.sp, 0xFFFC);
    assert_eq!(emu.board.mem.internal.hram[0x7C], 0x03);
    assert_eq!(emu.board.mem.internal.hram[0x7D], 0xC0);
}

#[test]
fn push_pop_and_pop_af() {
    // PUSH BC ; POP DE ; PUSH BC ; POP AF
    let mut emu = emu_with_program(&[0xC5, 0xD1, 0xC5, 0xF1]);
    emu.cpu.reg.b = 0x12;
    emu.cpu.reg.c = 0xFF;
    emu.emulate_step();
    assert_eq!(emu.cpu.reg.sp, 0xFFFC);
    emu.emulate_step();
    assert_eq!(emu.cpu.reg.r16(R16::DE), 0x12FF);
    assert_eq!(emu.cpu.reg.sp, 0xFFFE);
    emu.emulate_step();
    emu.emulate_step();
    assert_eq!(emu.cpu.reg.a, 0x12);
    assert_eq!(emu.cpu.reg.f.bits(), 0xF0);
}

#[test]
fn rst_and_ret() {
    // RST 38H
    let mut emu = emu_with_program(&[0xFF]);
    emu.emulate_step();
    assert_eq!(emu.cpu.reg.pc, 0x0038);
    assert_eq!(emu.cpu.reg.sp, 0xFFFC);
    // RETI pops the address back and enables interrupts
    let mut emu = emu_with_program(&[0xC5, 0xD9]);
    emu.cpu.reg.set_r16(R16::BC, 0xC123);
    emu.emulate_step();
    emu.emulate_step();
    assert_eq!(emu.cpu.reg.pc, 0xC123);
    assert!(emu.cpu.ime);
}

#[test]
fn cb_prefixed_instructions() {
    // SWAP A ; BIT 7,A ; SET 0,(HL)
    let mut emu = emu_with_program(&[0xCB, 0x37, 0xCB, 0x7F, 0xCB, 0xC6]);
    emu.cpu.reg.a = 0x1F;
    emu.cpu.reg.set_hl(0xC200);
    emu.emulate_step();
    assert_eq!(emu.cpu.reg.a, 0xF1);
    emu.cpu.reg.f.set(Flag::C, true);
    emu.emulate_step();
    assert!(!emu.cpu.reg.f.contains(Flag::Z));
    assert!(!emu.cpu.reg.f.contains(Flag::N));
    assert!(emu.cpu.reg.f.contains(Flag::H));
    assert!(emu.cpu.reg.f.contains(Flag::C));
    emu.emulate_step();
    assert_eq!(emu.board.mem.internal.wram[0x200], 0x01);
    assert_eq!(emu.cpu.reg.pc, 0xC006);
}

#[test]
fn enabled_interrupt_is_taken() {
    let mut emu = emu_with_program(&[0x00]);
    emu.cpu.ime = true;
    emu.board.ir_system.ie_reg = 0x05;
    emu.board.ir_system.if_reg = 0x04;
    emu.emulate_step();
    assert_eq!(emu.cpu.reg.pc, 0x50);
    assert!(!emu.cpu.ime);
    assert_eq!(emu.board.ir_system.if_reg, 0x00);
    assert_eq!(emu.cpu.reg.sp, 0xFFFC);
    assert_eq!(emu.board.mem.internal.hram[0x7C], 0x00);
    assert_eq!(emu.board.mem.internal.hram[0x7D], 0xC0);
}

#[test]
fn interrupt_priority_prefers_vblank() {
    let mut emu = emu_with_program(&[0x00]);
    emu.cpu.ime = true;
    emu.board.ir_system.ie_reg = 0x1F;
    emu.board.ir_system.if_reg = 0x11;
    emu.emulate_step();
    assert_eq!(emu.cpu.reg.pc, 0x40);
    assert_eq!(emu.board.ir_system.if_reg, 0x10);
}

#[test]
fn halt_idles_until_an_interrupt() {
    // HALT ; LD A,0x07
    let mut emu = emu_with_program(&[0x76, 0x3E, 0x07]);
    emu.emulate_step();
    assert_eq!(emu.cpu.halt_state, HaltState::Halted);
    emu.emulate_step();
    emu.emulate_step();
    assert_eq!(emu.cpu.reg.pc, 0xC001);
    // A requested but disabled-by-IME interrupt ends the halt
    emu.board.ir_system.ie_reg = 0x01;
    emu.board.ir_system.if_reg = 0x01;
    emu.emulate_step();
    assert_eq!(emu.cpu.halt_state, HaltState::Running);
    assert_eq!(emu.cpu.reg.a, 0x07);
}

#[test]
fn di_ei_and_unused_opcodes() {
    // EI ; DI ; unused 0xD3
    let mut emu = emu_with_program(&[0xFB, 0xF3, 0xD3]);
    emu.emulate_step();
    assert!(emu.cpu.ime);
    emu.emulate_step();
    assert!(!emu.cpu.ime);
    emu.emulate_step();
    assert_eq!(emu.cpu.halt_state, HaltState::Stuck);
}

#[test]
fn straight_line_instructions_skip_their_operands() {
    for b in 0..=255u8 {
        let instr = ByteInstr::from_u8(b);
        if instr.is_control_flow_change() || instr == ByteInstr::STOP {
            continue;
        }
        let mut emu = emu_with_program(&[b, 0x00, 0x00]);
        emu.emulate_step();
        let len = instr.operand_type().map(|o| o.len()).unwrap_or(0) as u16;
        assert_eq!(emu.cpu.reg.pc, 0xC001 + len, "opcode {:#04X}", b);
    }
}

#[test]
fn stop_does_not_fetch_its_second_byte() {
    let mut emu = emu_with_program(&[0x10, 0x00]);
    emu.emulate_step();
    assert_eq!(emu.cpu.reg.pc, 0xC001);
    assert_eq!(emu.cpu.halt_state, HaltState::Stopped);
}

#[test]
fn add_hl_half_carry_is_the_carry_out_of_bit_11() {
    // LD HL,0x0FFF ; LD BC,0x0001 ; ADD HL,BC ; ADD HL,BC
    let mut emu = emu_with_program(&[0x21, 0xFF, 0x0F, 0x01, 0x01, 0x00, 0x09, 0x09]);
    emu.emulate_step();
    emu.emulate_step();
    emu.emulate_step();
    assert_eq!(emu.cpu.reg.hl(), 0x1000);
    assert!(emu.cpu.reg.f.contains(Flag::H));
    assert!(!emu.cpu.reg.f.contains(Flag::C));
    emu.emulate_step();
    assert_eq!(emu.cpu.reg.hl(), 0x1001);
    assert!(!emu.cpu.reg.f.contains(Flag::H));
}

#[test]
fn steps_log_their_events() {
    // DI ; EI ; SWAP A ; HALT
    let mut emu = emu_with_program(&[0xF3, 0xFB, 0xCB, 0x37, 0x76]);
    for _ in 0..4 {
        emu.emulate_step();
    }
    let e = emu.board.cpu_evts.evts();
    assert_eq!(e.len(), 8);
    assert!(matches!(e[0], CpuEvt::Exec(0xC000, ByteInstr::DI)));
    assert!(matches!(e[1], CpuEvt::IrDisable));
    assert!(matches!(e[2], CpuEvt::Exec(0xC001, ByteInstr::EI)));
    assert!(matches!(e[3], CpuEvt::IrEnable));
    assert!(matches!(e[4], CpuEvt::Exec(0xC002, ByteInstr::PREFIX_CB)));
    assert!(matches!(e[5], CpuEvt::ExecCB(CBByteInstr::SWAP_A)));
    assert!(matches!(e[6], CpuEvt::Exec(0xC004, ByteInstr::HALT)));
    assert!(matches!(e[7], CpuEvt::EnterHalt(HaltState::Halted)));
}

#[test]
fn taking_an_interrupt_is_logged() {
    let mut emu = emu_with_program(&[0x00]);
    emu.cpu.ime = true;
    emu.board.ir_system.ie_reg = 0x04;
    emu.board.ir_system.if_reg = 0x04;
    emu.emulate_step();
    let e = emu.board.cpu_evts.evts();
    assert_eq!(e.len(), 2);
    assert!(matches!(e[0], CpuEvt::HandleIR(Interrupt::Timer)));
    assert!(matches!(e[1], CpuEvt::IrDisable));
}

#[test]
fn the_event_log_keeps_the_last_fifty() {
    let mut emu = emu_with_program(&[0x00; 60]);
    for _ in 0..60 {
        emu.emulate_step();
    }
    let e = emu.board.cpu_evts.evts();
    assert_eq!(e.len(), 50);
    assert!(matches!(e[0], CpuEvt::Exec(0xC00A, ByteInstr::NOP)));
    assert!(matches!(e[49], CpuEvt::Exec(0xC03B, ByteInstr::NOP)));
}
