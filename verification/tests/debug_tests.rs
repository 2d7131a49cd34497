use maboy::cartridge::cram::NoCRAM;
use maboy::cartridge::mbc::NoMBC;
use maboy::cartridge::Cartridge;
use maboy::debug::cpu_debugger::CpuDebugger;
use maboy::debug::{CpuEvt, DbgEvtLogger, DbgEvtSrc, NoDbgLogger, MAX_EVTS_LOGGED};
use maboy::emulator::Emulator;

#[test]
fn logger_keeps_the_last_events() {
    let mut log: DbgEvtLogger<u16> = DbgEvtLogger::new();
    assert!(log.evts().is_empty());
    for i in 0..(MAX_EVTS_LOGGED as u16 + 7) {
        log.push(i);
    }
    let evts = log.evts();
    assert_eq!(evts.len(), MAX_EVTS_LOGGED);
    assert_eq!(evts[0], 7);
    assert_eq!(evts[MAX_EVTS_LOGGED - 1], MAX_EVTS_LOGGED as u16 + 6);
    let mut none = NoDbgLogger;
    none.push(CpuEvt::IrEnable);
}

#[test]
fn breakpoints_cover_the_operands() {
    let cart = Cartridge::new(NoMBC::new(vec![0u8; 0x8000], NoCRAM));
    let mut emu = Emulator::new(cart);
    emu.board.mem.boot_rom_active = false;
    // LD BC,d16 at 0xC000 takes three bytes
    emu.board.mem.internal.wram[0] = 0x01;
    emu.cpu.reg.pc = 0xC000;
    let mut dbg = CpuDebugger::new();
    assert!(!dbg.break_cond_met(&emu));
    dbg.breakpoints.push(0xC002);
    assert!(dbg.break_cond_met(&emu));
    dbg.breakpoints.clear();
    dbg.breakpoints.push(0xC003);
    assert!(!dbg.break_cond_met(&emu));
}

#[test]
fn requested_break_comes_once() {
    let cart = Cartridge::new(NoMBC::new(vec![0u8; 0x8000], NoCRAM));
    let emu = Emulator::new(cart);
    let mut dbg = CpuDebugger::new();
    dbg.request_break();
    assert!(dbg.break_cond_met(&emu));
    assert!(!dbg.break_cond_met(&emu));
    dbg.break_in(2);
    assert!(!dbg.break_cond_met(&emu));
    assert!(!dbg.break_cond_met(&emu));
    assert!(dbg.break_cond_met(&emu));
}
