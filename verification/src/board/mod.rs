pub mod oam_dma;

use vstd::prelude::*;
use crate::address::{decode, Addr, IOReg, SerialReg, VideoMemAddr};
use crate::cartridge::CartridgeMem;
use crate::interrupt_system::{Interrupt, InterruptSystem, highest_priority};
use crate::joypad::{Buttons, JoyPad, P1_MASK};
use crate::memory::{Memory, mem_addr_ok};
use crate::ppu::{VideoFrameStatus, PPU, FrameReady};
use crate::serial_port::SerialPort;
use crate::timer::Timer;
use crate::cpu::registers::{word, hi_byte, lo_byte, make_word, split_word};
use crate::debug::{CpuEvt, DbgEvtLogger, DbgEvtSrc, logged_after};
use oam_dma::OamDma;

verus! {

/// Everything the CPU talks to over the bus.
pub struct Board<C> {
    pub mem: Memory<C>,
    pub ppu: PPU,
    pub ir_system: InterruptSystem,
    pub joypad: JoyPad,
    pub oam_dma: OamDma,
    pub timer: Timer,
    pub serial_port: SerialPort,
    /// Bytes sent out over the serial port, not yet taken by the frontend
    pub serial_out: Vec<u8>,
    /// The last events of the CPU, for the debugger
    pub cpu_evts: DbgEvtLogger<CpuEvt>,
}

/// The address after `a`, wrapping around at the end of the address space.
pub open spec fn next_addr(a: u16) -> u16 {
    ((a + 1) % 0x10000) as u16
}

/// Decoded memory addresses always lie within their area.
pub proof fn lemma_decode_mem_ok(addr: u16)
    ensures
        decode(addr) matches Addr::Mem(m) ==> mem_addr_ok(m),
{
}

impl<C: CartridgeMem> Board<C> {
    pub open spec fn wf(&self) -> bool {
        &&& self.mem.inv()
        &&& self.ppu.wf()
        &&& self.oam_dma.wf()
        &&& self.timer.wf()
        &&& self.cpu_evts.wf()
    }

    /// `t` is `s` with the CPU event `evt` logged.
    pub open spec fn evt_pushed(s: Board<C>, evt: CpuEvt, t: Board<C>) -> bool {
        &&& t.cpu_evts.view() == logged_after(s.cpu_evts.view(), evt)
        &&& t == Board { cpu_evts: t.cpu_evts, ..s }
    }

    /// The byte a read of `a` returns (reading takes no time here).
    pub open spec fn peek(&self, a: Addr) -> u8 {
        match a {
            Addr::Mem(m) => self.mem.value(m),
            Addr::VideoMem(v) => if (v is OAM) && self.oam_dma.active() {
                0xff
            } else {
                self.ppu.video_mem_value(v)
            },
            Addr::Unusable => 0,
            Addr::IO(reg) => match reg {
                IOReg::P1 => self.joypad.p1_reg,
                IOReg::Serial(SerialReg::SB) => self.serial_port.sb_reg,
                IOReg::Timer(r) => self.timer.reg_value(r),
                IOReg::Ppu(r) => self.ppu.reg.value(r),
                IOReg::OamDma => self.oam_dma.reg,
                IOReg::IF => self.ir_system.if_reg,
                _ => 0xff,
            },
            Addr::IE => self.ir_system.ie_reg,
        }
    }

    /// The byte the CPU reads at `addr`.
    pub open spec fn peek8(&self, addr: u16) -> u8 {
        self.peek(decode(addr))
    }

    /// `t` is what a write of `val` to `a` makes of `s`.
    #[verifier::opaque]
    pub open spec fn written(s: Board<C>, a: Addr, val: u8, t: Board<C>) -> bool {
        match a {
            Addr::Mem(m) => s.mem.written(&t.mem, m, val) && t == Board { mem: t.mem, ..s },
            Addr::VideoMem(v) => if (v is OAM) && s.oam_dma.active() {
                t == s
            } else {
                PPU::video_written(&s.ppu, v, val, &t.ppu) && t == Board { ppu: t.ppu, ..s }
            },
            Addr::Unusable => t == s,
            Addr::IO(reg) => match reg {
                IOReg::P1 => t == Board {
                    joypad: JoyPad { p1_reg: (s.joypad.p1_reg & !P1_MASK) | (val & P1_MASK), ..s.joypad },
                    ..s
                },
                IOReg::Serial(SerialReg::SB) => t == Board { serial_port: SerialPort { sb_reg: val }, ..s },
                IOReg::Serial(SerialReg::SC) => {
                    &&& t.serial_out@ == if val == 0x81 {
                        s.serial_out@.push(s.serial_port.sb_reg)
                    } else {
                        s.serial_out@
                    }
                    &&& t == Board { serial_out: t.serial_out, ..s }
                },
                IOReg::Timer(r) => {
                    &&& (t.timer, t.ir_system) == s.timer.after_write(s.ir_system, r, val)
                    &&& t == Board { timer: t.timer, ir_system: t.ir_system, ..s }
                },
                IOReg::Ppu(r) => {
                    &&& PPU::reg_written(&s.ppu, s.ir_system, r, val, &t.ppu, t.ir_system)
                    &&& t == Board { ppu: t.ppu, ir_system: t.ir_system, ..s }
                },
                IOReg::OamDma => t == Board { oam_dma: s.oam_dma.after_write(val), ..s },
                IOReg::BootRomDisable => t == Board {
                    mem: Memory { boot_rom_active: s.mem.boot_rom_active && val != 1, ..s.mem },
                    ..s
                },
                IOReg::IF => t == Board { ir_system: InterruptSystem { if_reg: val, ..s.ir_system }, ..s },
                _ => t == s,
            },
            Addr::IE => t == Board { ir_system: InterruptSystem { ie_reg: val, ..s.ir_system }, ..s },
        }
    }

    /// The timer and then the PPU advance by one machine cycle.
    pub open spec fn timer_ppu_stepped(s: Board<C>, m: Board<C>) -> bool {
        let (tm, ir) = s.timer.after_mcycle(s.ir_system);
        &&& m.timer == tm
        &&& m.ppu.wf()
        &&& PPU::mcycle_post(&s.ppu, ir, &m.ppu, m.ir_system)
        &&& m == Board { timer: m.timer, ppu: m.ppu, ir_system: m.ir_system, ..s }
    }

    /// One machine cycle of OAM DMA: the byte read in the cycle before goes
    /// to OAM (except in the first cycle), then the next byte is read.
    pub open spec fn dma_stepped(m: Board<C>, t: Board<C>) -> bool {
        let d = m.oam_dma;
        if !d.active() {
            t == m
        } else {
            let writes = d.src_addr % 0x100 != 0;
            let dst: u8 = if writes { (d.oam_dst_idx + 1) as u8 } else { d.oam_dst_idx };
            &&& if writes {
                PPU::video_written(&m.ppu, VideoMemAddr::OAM(d.oam_dst_idx as u16), d.read_buf, &t.ppu)
            } else {
                t.ppu == m.ppu
            }
            &&& t.oam_dma == OamDma {
                reg: d.reg,
                src_addr: (d.src_addr + 1) as u16,
                oam_dst_idx: dst,
                read_buf: t.oam_dma.read_buf,
            }
            &&& t.oam_dma.read_buf == t.peek8(d.src_addr)
            &&& t == Board { ppu: t.ppu, oam_dma: t.oam_dma, ..m }
        }
    }

    /// `t` is `s` one machine cycle later.
    #[verifier::opaque]
    pub open spec fn ticked(s: Board<C>, t: Board<C>) -> bool {
        &&& t.wf()
        &&& t.mem == s.mem
        &&& t.joypad == s.joypad
        &&& t.serial_port == s.serial_port
        &&& t.serial_out == s.serial_out
        &&& exists|m: Board<C>| #[trigger] Board::timer_ppu_stepped(s, m) && Board::dma_stepped(m, t)
    }

    /// A read of `addr`: one machine cycle passes, then the byte is read.
    pub open spec fn read8_post(s: Board<C>, addr: u16, t: Board<C>, v: u8) -> bool {
        Board::ticked(s, t) && v == t.peek8(addr)
    }

    /// A write of `val` to `addr`: one machine cycle passes, then the byte is written.
    pub open spec fn write8_post(s: Board<C>, addr: u16, val: u8, t: Board<C>) -> bool {
        &&& t.wf()
        &&& exists|m: Board<C>| #[trigger] Board::ticked(s, m) && Board::written(m, decode(addr), val, t)
    }

    /// A little-endian 16-bit read: two byte reads, at `addr` and the address after it.
    pub open spec fn read16_post(s: Board<C>, addr: u16, t: Board<C>, v: u16) -> bool {
        exists|m: Board<C>|
            #[trigger] Board::read8_post(s, addr, m, m.peek8(addr)) && Board::read8_post(m, next_addr(addr), t, t.peek8(next_addr(addr)))
                && v == word(t.peek8(next_addr(addr)), m.peek8(addr))
    }

    /// A little-endian 16-bit write: the low byte to `addr`, then the high
    /// byte to the address after it.
    pub open spec fn write16_post(s: Board<C>, addr: u16, val: u16, t: Board<C>) -> bool {
        exists|m: Board<C>|
            #[trigger] Board::write8_post(s, addr, lo_byte(val), m) && Board::write8_post(m, next_addr(addr), hi_byte(val), t)
    }

    /// Everything but the PPU's frame flag is as in `other`.
    pub open spec fn same_but_frame_ready(&self, other: &Board<C>) -> bool {
        &&& self.ppu.same_but_frame_ready(&other.ppu)
        &&& self.ppu.mem_frame == other.ppu.mem_frame
        &&& *self == Board { ppu: self.ppu, ..*other }
    }

    pub fn new(mem: Memory<C>) -> (r: Board<C>)
        requires
            mem.inv(),
        ensures
            r.wf(),
            r.mem == mem,
            r.ppu.mode == crate::ppu::Mode::LCDOff,
            r.ir_system == (InterruptSystem { if_reg: 0, ie_reg: 0 }),
            r.joypad.p1_reg == 0xff && r.joypad.pressed.0 == 0,
            !r.oam_dma.active(),
            r.serial_port.sb_reg == 0,
            r.serial_out@ == Seq::<u8>::empty(),
            r.cpu_evts.view() == Seq::<CpuEvt>::empty(),
            r.ppu.powered_on(),
            r.timer.powered_on(),
            r.oam_dma.reg == 0,
    {
        Board {
            mem,
            ppu: PPU::new(),
            ir_system: InterruptSystem::new(),
            joypad: JoyPad::new(),
            oam_dma: OamDma::new(),
            timer: Timer::new(),
            serial_port: SerialPort::new(),
            serial_out: Vec::new(),
            cpu_evts: DbgEvtLogger::new(),
        }
    }

    /// Logs an event of the CPU for the debugger.
    pub fn push_cpu_evt(&mut self, evt: CpuEvt)
        requires
            old(self).wf(),
        ensures
            final(self).wf(),
            Board::evt_pushed(*old(self), evt, *final(self)),
    {
        self.cpu_evts.push(evt);
    }

    /// One machine cycle of the timer, the PPU and OAM DMA.
    pub fn advance_mcycle(&mut self)
        requires
            old(self).wf(),
        ensures
            final(self).wf(),
            Board::ticked(*old(self), *final(self)),
    {
        let ghost s = *self;
        proof {
            reveal(Board::ticked);
        }
        self.timer.advance_mcycle(&mut self.ir_system);
        self.ppu.advance_mcycle(&mut self.ir_system);
        let ghost m = *self;
        assert(Board::timer_ppu_stepped(s, m));
        OamDma::advance_mcycle(self);
    }

    /// Necessary for implementing OAM DMA. Doesn't consume any cycles.
    pub fn read8_instant(&self, addr: Addr) -> (r: u8)
        requires
            self.mem.inv(),
            self.ppu.wf(),
            (addr matches Addr::Mem(m) ==> mem_addr_ok(m)),
        ensures
            r == self.peek(addr),
    {
        match addr {
            Addr::Mem(mem_addr) => self.mem.read8(mem_addr),
            Addr::VideoMem(vid_mem_addr) => {
                if matches!(vid_mem_addr, VideoMemAddr::OAM(_)) && self.oam_dma.is_active() {
                    // OAM is unavailable during OAM DMA
                    0xff
                } else {
                    self.ppu.read_video_mem(vid_mem_addr)
                }
            },
            // Reads from here curiously return 0 on DMG systems
            Addr::Unusable => 0,
            Addr::IO(reg) => match reg {
                IOReg::P1 => self.joypad.read_p1(),
                IOReg::Serial(SerialReg::SB) => self.serial_port.read_reg(SerialReg::SB),
                IOReg::Timer(timer_reg) => self.timer.read_reg(timer_reg),
                IOReg::Ppu(ppu_reg) => self.ppu.read_reg(ppu_reg),
                IOReg::OamDma => self.oam_dma.read_ff46(),
                IOReg::IF => self.ir_system.read_if(),
                // Not implemented: reads give 0xff
                _ => 0xff,
            },
            Addr::IE => self.ir_system.read_ie(),
        }
    }

    pub fn read8(&mut self, addr: u16) -> (r: u8)
        requires
            old(self).wf(),
        ensures
            final(self).wf(),
            Board::read8_post(*old(self), addr, *final(self), r),
    {
        proof {
            lemma_decode_mem_ok(addr);
        }
        let a = Addr::from(addr);
        self.advance_mcycle();
        self.read8_instant(a)
    }

    pub fn write8(&mut self, addr: u16, val: u8)
        requires
            old(self).wf(),
        ensures
            Board::write8_post(*old(self), addr, val, *final(self)),
    {
        proof {
            lemma_decode_mem_ok(addr);
        }
        let a = Addr::from(addr);
        self.advance_mcycle();
        let ghost m = *self;
        match a {
            Addr::Mem(mem_addr) => self.mem.write8(mem_addr, val),
            Addr::VideoMem(vid_mem_addr) => {
                if matches!(vid_mem_addr, VideoMemAddr::OAM(_)) && self.oam_dma.is_active() {
                    // OAM is unavailable during OAM DMA
                } else {
                    self.ppu.write_video_mem(vid_mem_addr, val);
                }
            },
            // Writes to here are ignored by DMG systems
            Addr::Unusable => {},
            Addr::IO(reg) => match reg {
                IOReg::P1 => self.joypad.write_p1(val),
                IOReg::Serial(serial_reg) => {
                    if let Some(byte) = self.serial_port.write_reg(serial_reg, val) {
                        self.serial_out.push(byte);
                    }
                },
                IOReg::Timer(timer_reg) => self.timer.write_reg(&mut self.ir_system, timer_reg, val),
                IOReg::Ppu(ppu_reg) => self.ppu.write_reg(&mut self.ir_system, ppu_reg, val),
                IOReg::OamDma => self.oam_dma.write_ff46(val),
                IOReg::BootRomDisable => self.mem.write_ff50(val),
                IOReg::IF => self.ir_system.write_if(val),
                // Not implemented: writes are dropped
                _ => {},
            },
            Addr::IE => self.ir_system.write_ie(val),
        }
        assert(Board::written(m, decode(addr), val, *self)) by {
            reveal(Board::written);
        }
    }

    pub fn read16(&mut self, addr: u16) -> (r: u16)
        requires
            old(self).wf(),
        ensures
            final(self).wf(),
            Board::read16_post(*old(self), addr, *final(self), r),
    {
        let ghost s0 = *self;
        let lo = self.read8(addr);
        let ghost m = *self;
        let hi = self.read8(addr.wrapping_add(1));
        let r = make_word(hi, lo);
        proof {
            assert(Board::read8_post(s0, addr, m, m.peek8(addr)));
            assert(Board::read8_post(m, next_addr(addr), *self, self.peek8(next_addr(addr))));
        }
        r
    }

    pub fn write16(&mut self, addr: u16, val: u16)
        requires
            old(self).wf(),
        ensures
            final(self).wf(),
            Board::write16_post(*old(self), addr, val, *final(self)),
    {
        let (hi, lo) = split_word(val);
        let ghost s0 = *self;
        self.write8(addr, lo);
        let ghost m = *self;
        self.write8(addr.wrapping_add(1), hi);
        proof {
            assert(Board::write8_post(s0, addr, lo_byte(val), m));
        }
    }

    /// Takes the frame that is ready, if any.
    pub fn query_video_frame_status(&mut self) -> (r: VideoFrameStatus)
        ensures
            final(self).ppu.frame_ready is None,
            old(self).ppu.frame_ready == Some(FrameReady::VideoFrame) ==> (r matches VideoFrameStatus::Ready(d)
                && d@ == old(self).ppu.mem_frame.data@),
            old(self).ppu.frame_ready == Some(FrameReady::LcdOffFrame) ==> r is LcdTurnedOff,
            old(self).ppu.frame_ready is None ==> r is NotReady,
            final(self).same_but_frame_ready(old(self)),
    {
        self.ppu.query_frame_status()
    }

    pub fn notify_buttons_pressed(&mut self, buttons: Buttons)
        ensures
            final(self).joypad.pressed.0 == old(self).joypad.pressed.0 | buttons.0,
            final(self).joypad.p1_reg == old(self).joypad.p1_reg,
            final(self).ir_system == if buttons.0 & !old(self).joypad.pressed.0 != 0 {
                old(self).ir_system.scheduled(Interrupt::Joypad)
            } else {
                old(self).ir_system
            },
            *final(self) == (Board { joypad: final(self).joypad, ir_system: final(self).ir_system, ..*old(self) }),
    {
        self.joypad.notify_buttons_pressed(&mut self.ir_system, buttons);
    }

    pub fn notify_buttons_released(&mut self, buttons: Buttons)
        ensures
            final(self).joypad.pressed.0 == old(self).joypad.pressed.0 & !buttons.0,
            final(self).joypad.p1_reg == old(self).joypad.p1_reg,
            *final(self) == (Board { joypad: final(self).joypad, ..*old(self) }),
    {
        self.joypad.notify_buttons_released(buttons);
    }

    pub fn notify_buttons_state(&mut self, buttons: Buttons)
        ensures
            final(self).joypad.pressed == buttons,
            final(self).joypad.p1_reg == old(self).joypad.p1_reg,
            final(self).ir_system == if buttons.0 & !old(self).joypad.pressed.0 != 0 {
                old(self).ir_system.scheduled(Interrupt::Joypad)
            } else {
                old(self).ir_system
            },
            *final(self) == (Board { joypad: final(self).joypad, ir_system: final(self).ir_system, ..*old(self) }),
    {
        self.joypad.notify_buttons_state(&mut self.ir_system, buttons);
    }

    // The following methods don't consume cycles, unlike other memory
    // access operations. The postfix "_instant" denotes this behaviour.

    pub fn query_interrupt_request_instant(&self) -> (r: Option<Interrupt>)
        ensures
            r == highest_priority(self.ir_system.pending()),
    {
        self.ir_system.query_interrupt_request()
    }

    pub fn read_if_instant(&self) -> (r: u8)
        ensures
            r == self.ir_system.if_reg,
    {
        self.ir_system.read_if()
    }

    pub fn write_if_instant(&mut self, val: u8)
        ensures
            *final(self) == (Board { ir_system: InterruptSystem { if_reg: val, ..old(self).ir_system }, ..*old(self) }),
    {
        self.ir_system.write_if(val);
    }

    /// Hands out the bytes sent over the serial port since the last call.
    pub fn take_serial_output(&mut self) -> (r: Vec<u8>)
        ensures
            r@ == old(self).serial_out@,
            final(self).serial_out@ == Seq::<u8>::empty(),
            *final(self) == (Board { serial_out: final(self).serial_out, ..*old(self) }),
    {
        let mut out: Vec<u8> = Vec::new();
        std::mem::swap(&mut out, &mut self.serial_out);
        out
    }
}

/// A machine cycle leaves memory, the joypad and the serial port alone.
pub proof fn lemma_ticked_keeps<C: CartridgeMem>(s: Board<C>, t: Board<C>)
    requires
        Board::ticked(s, t),
    ensures
        t.wf(),
        t.mem == s.mem,
        t.joypad == s.joypad,
        t.serial_port == s.serial_port,
        t.serial_out == s.serial_out,
{
    reveal(Board::ticked);
}

/// A byte written over the bus to work RAM (0xC000 - 0xDFFF) is what the
/// next read of that address, or of its mirror in echo RAM, gives back.
pub proof fn law_bus_wram_write_read<C: CartridgeMem>(
    s: Board<C>,
    addr: u16,
    val: u8,
    t: Board<C>,
    read_addr: u16,
    u: Board<C>,
    r: u8,
)
    requires
        s.wf(),
        0xC000 <= addr < 0xE000,
        read_addr == addr || (addr < 0xDE00 && read_addr == addr + 0x2000),
        Board::write8_post(s, addr, val, t),
        Board::read8_post(t, read_addr, u, r),
    ensures
        r == val,
{
    let m = choose|m: Board<C>| #[trigger] Board::ticked(s, m) && Board::written(m, decode(addr), val, t);
    lemma_ticked_keeps(s, m);
    lemma_ticked_keeps(t, u);
    reveal(Board::written);
}

/// A byte written over the bus to high RAM (0xFF80 - 0xFFFE) is what the
/// next read of that address gives back.
pub proof fn law_bus_hram_write_read<C: CartridgeMem>(s: Board<C>, addr: u16, val: u8, t: Board<C>, u: Board<C>, r: u8)
    requires
        s.wf(),
        0xFF80 <= addr < 0xFFFF,
        Board::write8_post(s, addr, val, t),
        Board::read8_post(t, addr, u, r),
    ensures
        r == val,
{
    let m = choose|m: Board<C>| #[trigger] Board::ticked(s, m) && Board::written(m, decode(addr), val, t);
    lemma_ticked_keeps(s, m);
    lemma_ticked_keeps(t, u);
    reveal(Board::written);
}

/// Once the boot ROM is unmapped, no bus access maps it again.
pub proof fn law_boot_rom_stays_unmapped<C: CartridgeMem>(s: Board<C>, addr: u16, val: u8, t: Board<C>, u: Board<C>, r: u8)
    requires
        s.wf(),
        !s.mem.boot_rom_active,
    ensures
        Board::write8_post(s, addr, val, t) ==> !t.mem.boot_rom_active,
        Board::read8_post(s, addr, u, r) ==> !u.mem.boot_rom_active,
{
    if Board::write8_post(s, addr, val, t) {
        let m = choose|m: Board<C>| #[trigger] Board::ticked(s, m) && Board::written(m, decode(addr), val, t);
        lemma_ticked_keeps(s, m);
        reveal(Board::written);
    }
    if Board::read8_post(s, addr, u, r) {
        lemma_ticked_keeps(s, u);
    }
}

/// While OAM DMA runs, the CPU reads 0xFF from OAM and its writes there are
/// dropped.
pub proof fn law_oam_blocked_during_dma<C: CartridgeMem>(s: Board<C>, o: u16, val: u8, t: Board<C>)
    requires
        s.oam_dma.active(),
    ensures
        s.peek(Addr::VideoMem(VideoMemAddr::OAM(o))) == 0xff,
        Board::written(s, Addr::VideoMem(VideoMemAddr::OAM(o)), val, t) ==> t == s,
{
    reveal(Board::written);
}

/// Work RAM (0xC000 - 0xDFFF) and high RAM (0xFF80 - 0xFFFE).
pub open spec fn ram_addr(a: u16) -> bool {
    0xC000 <= a < 0xE000 || 0xFF80 <= a < 0xFFFF
}

/// A write over the bus to RAM stores the byte there and leaves the rest
/// of RAM alone.
pub proof fn lemma_ram_write<C: CartridgeMem>(s: Board<C>, a: u16, val: u8, t: Board<C>, b: u16)
    requires
        s.wf(),
        ram_addr(a),
        ram_addr(b),
        Board::write8_post(s, a, val, t),
    ensures
        t.peek8(b) == if b == a { val } else { s.peek8(b) },
{
    let m = choose|m: Board<C>| #[trigger] Board::ticked(s, m) && Board::written(m, decode(a), val, t);
    lemma_ticked_keeps(s, m);
    reveal(Board::written);
}

/// A read over the bus from RAM gives the byte there and leaves RAM alone.
pub proof fn lemma_ram_read<C: CartridgeMem>(s: Board<C>, a: u16, t: Board<C>, r: u8, b: u16)
    requires
        ram_addr(a),
        ram_addr(b),
        Board::read8_post(s, a, t, r),
    ensures
        r == s.peek8(a),
        t.peek8(b) == s.peek8(b),
{
    lemma_ticked_keeps(s, t);
}

/// A word written over the bus to RAM is what the next word read from the
/// same address gives back.
pub proof fn law_bus_ram_word_roundtrip<C: CartridgeMem>(s: Board<C>, a: u16, val: u16, t: Board<C>, u: Board<C>, r: u16)
    requires
        s.wf(),
        ram_addr(a),
        ram_addr(next_addr(a)),
        Board::write16_post(s, a, val, t),
        Board::read16_post(t, a, u, r),
    ensures
        r == val,
{
    let a1 = next_addr(a);
    let m = choose|m: Board<C>|
        #[trigger] Board::write8_post(s, a, lo_byte(val), m) && Board::write8_post(m, a1, hi_byte(val), t);
    lemma_ram_write(s, a, lo_byte(val), m, a);
    lemma_ram_write(m, a1, hi_byte(val), t, a);
    lemma_ram_write(m, a1, hi_byte(val), t, a1);
    let n = choose|n: Board<C>|
        #[trigger] Board::read8_post(t, a, n, n.peek8(a)) && Board::read8_post(n, a1, u, u.peek8(a1))
            && r == word(u.peek8(a1), n.peek8(a));
    lemma_ram_read(t, a, n, n.peek8(a), a1);
    lemma_ram_read(n, a1, u, u.peek8(a1), a1);
}

/// `bs` are the board in consecutive machine cycles, nothing written in
/// between.
pub open spec fn board_run<C: CartridgeMem>(bs: Seq<Board<C>>) -> bool {
    forall|i: int| 0 <= i < bs.len() - 1 ==> #[trigger] Board::ticked(bs[i], bs[i + 1])
}

/// The first `k` cycles of an OAM DMA transfer from page `page`: the source
/// address and OAM index move on one per cycle (the first cycle only
/// reads), the byte read last waits in the buffer, and the bytes before it
/// are in OAM.
proof fn lemma_dma_prefix<C: CartridgeMem>(bs: Seq<Board<C>>, page: u8, k: int)
    requires
        board_run(bs),
        bs.len() == 162,
        bs[0].wf(),
        page <= 0xF1,
        bs[0].oam_dma.src_addr == page as u16 * 0x100,
        bs[0].oam_dma.oam_dst_idx == 0,
        forall|i: int| 0 < i < 162 ==> (#[trigger] bs[i]).ppu.oam_open(),
        forall|i: int, a: int|
            0 <= i < 162 && page * 0x100 <= a < page * 0x100 + 0xA0 ==> (#[trigger] bs[i].peek8(a as u16)) == bs[0].peek8(a as u16),
        0 <= k <= 161,
    ensures
        k == 0 ==> bs[k].oam_dma.src_addr == page * 0x100 && bs[k].oam_dma.oam_dst_idx == 0,
        k > 0 ==> {
            &&& bs[k].oam_dma.src_addr == page * 0x100 + k
            &&& bs[k].oam_dma.oam_dst_idx == k - 1
            &&& k <= 0xA0 ==> bs[k].oam_dma.read_buf == bs[0].peek8((page * 0x100 + k - 1) as u16)
            &&& forall|j: int| 0 <= j < k - 1 ==> #[trigger] bs[k].ppu.oam.mem@[j] == bs[0].peek8((page * 0x100 + j) as u16)
        },
        bs[k].wf(),
    decreases k,
{
    if k > 0 {
        let i = k - 1;
        lemma_dma_prefix(bs, page, i);
        assert(Board::ticked(bs[i], bs[i + 1]));
        let s = bs[i];
        let t = bs[k];
        reveal(Board::ticked);
        let m = choose|m: Board<C>| #[trigger] Board::timer_ppu_stepped(s, m) && Board::dma_stepped(m, t);
        crate::ppu::lemma_mcycle_keeps_oam(&s.ppu, s.timer.after_mcycle(s.ir_system).1, &m.ppu, m.ir_system);
        let d = m.oam_dma;
        assert(d == s.oam_dma);
        assert(d.active());
        assert(d.src_addr % 0x100 == i);
        if i < 0xA0 {
            let a: int = page * 0x100 + i;
            assert(a as u16 == d.src_addr);
            assert(bs[k].peek8(a as u16) == bs[0].peek8(a as u16));
        }
        if i > 0 {
            assert forall|j: int| 0 <= j < k - 1 implies #[trigger] t.ppu.oam.mem@[j] == bs[0].peek8((page * 0x100 + j) as u16) by {
                let a = VideoMemAddr::OAM(j as u16);
                assert(t.ppu.video_mem_value(a) == t.ppu.oam.mem@[j]);
                assert(m.ppu.video_mem_value(a) == m.ppu.oam.mem@[j]);
                assert(m.ppu.mode == t.ppu.mode);
            }
        }
    }
}

/// An OAM DMA transfer started from page `page` (0x00 - 0xF1) runs for 160
/// machine cycles and is over after the 161st; OAM then holds the 0xA0
/// bytes from `page00` on, provided they do not change meanwhile and the
/// PPU leaves OAM open to it throughout.
pub proof fn law_oam_dma_transfer<C: CartridgeMem>(bs: Seq<Board<C>>, page: u8)
    requires
        board_run(bs),
        bs.len() == 162,
        bs[0].wf(),
        page <= 0xF1,
        bs[0].oam_dma == bs[0].oam_dma.after_write(page),
        forall|i: int| 0 < i < 162 ==> (#[trigger] bs[i]).ppu.oam_open(),
        forall|i: int, a: int|
            0 <= i < 162 && page * 0x100 <= a < page * 0x100 + 0xA0 ==> (#[trigger] bs[i].peek8(a as u16)) == bs[0].peek8(a as u16),
    ensures
        forall|k: int| 0 <= k <= 160 ==> (#[trigger] bs[k]).oam_dma.active(),
        !bs[161].oam_dma.active(),
        forall|j: int| 0 <= j < 0xA0 ==> #[trigger] bs[161].ppu.video_mem_value(VideoMemAddr::OAM(j as u16)) == bs[0].peek8((page * 0x100 + j) as u16),
{
    assert forall|k: int| 0 <= k <= 160 implies (#[trigger] bs[k]).oam_dma.active() by {
        lemma_dma_prefix(bs, page, k);
    }
    lemma_dma_prefix(bs, page, 161);
    assert forall|j: int| 0 <= j < 0xA0 implies #[trigger] bs[161].ppu.video_mem_value(VideoMemAddr::OAM(j as u16)) == bs[0].peek8((page * 0x100 + j) as u16) by {
        assert(bs[161].ppu.oam.mem@[j] == bs[0].peek8((page * 0x100 + j) as u16));
    }
}

} // verus!
