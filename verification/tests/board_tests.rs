use maboy::ppu::Mode;
use maboy::address::{Addr, VideoMemAddr};
use maboy::cartridge::cram::NoCRAM;
use maboy::cartridge::mbc::NoMBC;
use maboy::cartridge::Cartridge;
use maboy::emulator::Emulator;
use maboy::joypad::{Buttons, BUTTON_A, BUTTON_START};

type Emu = Emulator<Cartridge<NoMBC<NoCRAM>>>;

fn emu_with_rom(rom: Vec<u8>) -> Emu {
    Emulator::new(Cartridge::new(NoMBC::new(rom, NoCRAM)))
}

fn emu() -> Emu {
    let mut rom = vec![0u8; 0x8000];
    rom[0] = 0xAA;
    rom[0x100] = 0xBB;
    emu_with_rom(rom)
}

#[test]
fn wram_write_is_read_back_and_mirrored() {
    let mut emu = emu();
    emu.board.write8(0xC123, 0x42);
    assert_eq!(emu.board.read8(0xC123), 0x42);
    assert_eq!(emu.board.read8(0xE123), 0x42);
    emu.board.write8(0xF000, 0x17);
    assert_eq!(emu.board.read8(0xD000), 0x17);
}

#[test]
fn hram_and_interrupt_registers() {
    let mut emu = emu();
    emu.board.write8(0xFF90, 0x99);
    assert_eq!(emu.board.read8(0xFF90), 0x99);
    emu.board.write8(0xFFFF, 0x1F);
    assert_eq!(emu.board.ir_system.ie_reg, 0x1F);
    assert_eq!(emu.board.read8(0xFFFF), 0x1F);
    emu.board.write8(0xFF0F, 0x03);
    assert_eq!(emu.board.read_if_instant(), 0x03);
}

#[test]
fn words_are_little_endian() {
    let mut emu = emu();
    emu.board.write16(0xC010, 0xBEEF);
    assert_eq!(emu.board.mem.internal.wram[0x10], 0xEF);
    assert_eq!(emu.board.mem.internal.wram[0x11], 0xBE);
    assert_eq!(emu.board.read16(0xC010), 0xBEEF);
}

#[test]
fn boot_rom_is_mapped_until_disabled() {
    let mut emu = emu();
    assert_eq!(emu.board.read8(0x0000), 0x31);
    assert_eq!(emu.board.read8(0x00FF), 0x50);
    assert_eq!(emu.board.read8(0x0100), 0xBB);
    emu.board.write8(0xFF50, 0x00);
    assert_eq!(emu.board.read8(0x0000), 0x31);
    emu.board.write8(0xFF50, 0x01);
    assert_eq!(emu.board.read8(0x0000), 0xAA);
    emu.board.write8(0xFF50, 0x00);
    assert_eq!(emu.board.read8(0x0000), 0xAA);
}

#[test]
fn rom_writes_do_not_change_rom() {
    let mut emu = emu();
    emu.board.write8(0xFF50, 0x01);
    emu.board.write8(0x0000, 0x12);
    assert_eq!(emu.board.read8(0x0000), 0xAA);
}

#[test]
fn unusable_area_reads_zero_and_unimplemented_io_reads_ff() {
    let mut emu = emu();
    emu.board.write8(0xFEA0, 0x55);
    assert_eq!(emu.board.read8(0xFEA0), 0x00);
    assert_eq!(emu.board.read8(0xFF10), 0xFF);
    assert_eq!(emu.board.read8(0xFF02), 0xFF);
}

#[test]
fn serial_port_sends_bytes_out() {
    let mut emu = emu();
    emu.board.write8(0xFF01, b'H');
    emu.board.write8(0xFF02, 0x81);
    emu.board.write8(0xFF01, b'i');
    emu.board.write8(0xFF02, 0x80);
    emu.board.write8(0xFF02, 0x81);
    assert_eq!(emu.board.read8(0xFF01), b'i');
    assert_eq!(emu.take_serial_output(), vec![b'H', b'i']);
    assert!(emu.take_serial_output().is_empty());
}

#[test]
fn div_counts_machine_cycles() {
    let mut emu = emu();
    for _ in 0..63 {
        emu.board.advance_mcycle();
    }
    // The read itself takes the 64th cycle
    assert_eq!(emu.board.read8(0xFF04), 1);
    emu.board.write8(0xFF04, 0x77);
    assert_eq!(emu.board.timer.div_reg, 0);
}

#[test]
fn timer_overflow_requests_interrupt() {
    let mut emu = emu();
    // Fastest frequency (every 4 machine cycles), reload value 0x20, TIMA at 0xFF
    emu.board.write8(0xFF07, 0x05);
    emu.board.write8(0xFF06, 0x20);
    emu.board.write8(0xFF05, 0xFF);
    assert_eq!(emu.board.ir_system.if_reg & 0x04, 0);
    let mut cycles = 0;
    while emu.board.ir_system.if_reg & 0x04 == 0 && cycles < 32 {
        emu.board.advance_mcycle();
        cycles += 1;
    }
    assert_eq!(cycles, 2);
    assert_eq!(emu.board.timer.tima_reg, 0x20);
}

#[test]
fn tac_write_can_bump_tima() {
    let mut emu = emu();
    emu.board.write8(0xFF05, 0xFF);
    emu.board.advance_mcycle();
    // DIV bit 3 is set now: enabling the fastest frequency counts once
    assert_eq!(emu.board.timer.div_reg, 8);
    emu.board.write8(0xFF07, 0x05);
    assert_eq!(emu.board.timer.tima_reg, 0x00);
    assert_eq!(emu.board.ir_system.if_reg & 0x04, 0x04);
}

#[test]
fn joypad_register_and_buttons() {
    let mut emu = emu();
    emu.board.write8(0xFF00, 0x00);
    assert_eq!(emu.board.read8(0xFF00), 0xCF);
    emu.notify_buttons_pressed(Buttons(BUTTON_A));
    assert_eq!(emu.board.ir_system.if_reg & 0x10, 0x10);
    emu.board.ir_system.if_reg = 0;
    emu.notify_buttons_pressed(Buttons(BUTTON_A));
    assert_eq!(emu.board.ir_system.if_reg, 0);
    emu.notify_buttons_pressed(Buttons(BUTTON_START));
    assert_eq!(emu.board.joypad.pressed.0, BUTTON_A | BUTTON_START);
    emu.notify_buttons_released(Buttons(BUTTON_A));
    assert_eq!(emu.board.joypad.pressed.0, BUTTON_START);
    emu.notify_buttons_state(Buttons(BUTTON_A));
    assert_eq!(emu.board.joypad.pressed.0, BUTTON_A);
}

#[test]
fn oam_dma_copies_a_page() {
    let mut emu = emu();
    for i in 0..0xA0usize {
        emu.board.mem.internal.wram[i] = i as u8 ^ 0x5A;
    }
    emu.board.write8(0xFF46, 0xC0);
    assert!(emu.board.oam_dma.is_active());
    assert_eq!(emu.board.read8(0xFF46), 0xC0);
    // OAM reads give 0xFF while the transfer runs
    assert_eq!(emu.board.read8(0xFE00), 0xFF);
    for _ in 0..160 {
        emu.board.advance_mcycle();
    }
    assert!(!emu.board.oam_dma.is_active());
    for i in 0..0xA0u16 {
        assert_eq!(emu.board.ppu.read_video_mem(VideoMemAddr::OAM(i)), (i as u8) ^ 0x5A);
    }
    assert_eq!(emu.board.read8(0xFE05), 0x05 ^ 0x5A);
}

#[test]
fn oam_dma_refuses_high_pages() {
    let mut emu = emu();
    emu.board.write8(0xFF46, 0xF2);
    assert!(!emu.board.oam_dma.is_active());
    assert_eq!(emu.board.read8(0xFF46), 0xF2);
}

#[test]
fn address_decoding() {
    assert!(matches!(Addr::from(0xC000u16), Addr::Mem(_)));
    assert!(matches!(Addr::from(0x8000u16), Addr::VideoMem(VideoMemAddr::TileData(0))));
    assert!(matches!(Addr::from(0x9800u16), Addr::VideoMem(VideoMemAddr::TileMaps(0))));
    assert!(matches!(Addr::from(0xFE9Fu16), Addr::VideoMem(VideoMemAddr::OAM(0x9F))));
    assert!(matches!(Addr::from(0xFEA0u16), Addr::Unusable));
    assert!(matches!(Addr::from(0xFFFFu16), Addr::IE));
}

#[test]
fn vram_reads_and_writes() {
    let mut emu = emu();
    emu.board.write8(0x8010, 0x3C);
    assert_eq!(emu.board.read8(0x8010), 0x3C);
    emu.board.write8(0x9C00, 0x07);
    assert_eq!(emu.board.read8(0x9C00), 0x07);
}

#[test]
fn tac_keeps_only_its_low_bits() {
    let mut emu = emu();
    emu.board.write8(0xFF07, 0x00);
    assert_eq!(emu.board.read8(0xFF07), 0xF8);
    emu.board.write8(0xFF07, 0xFF);
    assert_eq!(emu.board.read8(0xFF07), 0xFF);
}

#[test]
fn vram_is_blocked_during_pixel_transfer() {
    let mut emu = emu();
    emu.board.write8(0x8000, 0x42);
    emu.board.write8(0xFF40, 0x91);
    let mut cycles = 0;
    while emu.board.ppu.mode != Mode::PixelTransfer && cycles < 200 {
        emu.board.advance_mcycle();
        cycles += 1;
    }
    assert_eq!(emu.board.ppu.mode, Mode::PixelTransfer);
    assert_eq!(emu.board.read8_instant(Addr::from(0x8000u16)), 0xFF);
    emu.board.ppu.write_video_mem(VideoMemAddr::TileData(0), 0x13);
    assert_eq!(emu.board.ppu.tile_data.read(0), 0x42);
}

#[test]
fn power_on_state() {
    let emu = emu();
    assert!(matches!(emu.board.ppu.mode, Mode::LCDOff));
    assert_eq!(emu.board.ppu.reg.lcds.0, 0x80);
    assert_eq!(emu.board.timer.div_reg, 0);
    assert_eq!(emu.board.timer.tac_reg, 0xF8);
    assert_eq!(emu.board.ir_system.if_reg, 0);
    assert_eq!(emu.board.ir_system.ie_reg, 0);
    assert_eq!(emu.board.joypad.p1_reg, 0xFF);
    assert!(!emu.board.oam_dma.is_active());
    assert!(emu.board.mem.internal.wram.iter().all(|b| *b == 0));
    assert!(emu.board.cpu_evts.evts().is_empty());
}

#[test]
fn turning_the_timer_off_counts_once_then_stops() {
    let mut emu = emu();
    // Fastest frequency on, TIMA at 0x10
    emu.board.write8(0xFF07, 0x05);
    emu.board.write8(0xFF05, 0x10);
    // Run until DIV bit 3 is set
    while emu.board.timer.div_reg & 0x08 == 0 {
        emu.board.advance_mcycle();
    }
    let tima = emu.board.timer.tima_reg;
    emu.board.timer.write_reg(&mut emu.board.ir_system, maboy::address::TimerReg::TAC, 0x01);
    assert_eq!(emu.board.timer.tima_reg, tima + 1);
    assert_eq!(emu.board.timer.tac_reg, 0xF9);
    for _ in 0..100 {
        emu.board.advance_mcycle();
    }
    assert_eq!(emu.board.timer.tima_reg, tima + 1);
}

#[test]
fn div_reads_its_upper_byte_after_k_cycles() {
    let mut emu = emu();
    for _ in 0..63 {
        emu.board.advance_mcycle();
    }
    assert_eq!(emu.board.timer.read_reg(maboy::address::TimerReg::DIV), 0);
    emu.board.advance_mcycle();
    assert_eq!(emu.board.timer.read_reg(maboy::address::TimerReg::DIV), 1);
    for _ in 0..(64 * 255) {
        emu.board.advance_mcycle();
    }
    assert_eq!(emu.board.timer.read_reg(maboy::address::TimerReg::DIV), 0);
}
