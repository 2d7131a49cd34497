pub mod color;
pub mod lcdc;
pub mod lcds;
pub mod mem_frame;
pub mod oam;
pub mod palette;
pub mod pixel_queue;
pub mod ppu_registers;
pub mod sprite;
pub mod tile_data;
pub mod tile_maps;

use vstd::prelude::*;
use crate::bit_ops::u8_bit;

verus! {

#[derive(Copy, Clone, Debug, PartialEq, Eq, Structural)]
pub enum Mode {
    LCDOff,
    /// Mode 0
    HBlank,
    /// Mode 1
    VBlank,
    /// Mode 2
    OAMSearch,
    /// Mode 3
    PixelTransfer,
}

impl Mode {
    /// The number of the mode as shown in STAT (4 for LCD off).
    pub open spec fn code(self) -> u8 {
        match self {
            Mode::LCDOff => 4,
            Mode::HBlank => 0,
            Mode::VBlank => 1,
            Mode::OAMSearch => 2,
            Mode::PixelTransfer => 3,
        }
    }

    pub fn code_u8(self) -> (r: u8)
        ensures
            r == self.code(),
    {
        match self {
            Mode::LCDOff => 4,
            Mode::HBlank => 0,
            Mode::VBlank => 1,
            Mode::OAMSearch => 2,
            Mode::PixelTransfer => 3,
        }
    }
}

} // verus!

use crate::address::{PpuReg, VideoMemAddr};
use crate::interrupt_system::{Interrupt, InterruptSystem};
use mem_frame::{MemFrame, MemPixel, WIDTH, HEIGHT};
use oam::{OAM, OAM_LEN};
use pixel_queue::{PixelQueue, PixelQuad, QUAD_COUNT};
use ppu_registers::PPURegisters;
use tile_data::{TileData, TILE_DATA_LEN};
use tile_maps::{TileMaps, TILE_MAPS_LEN};
use lcds::LCDS;
use lcdc::SpriteSize;

verus! {

/// A frame waiting to be taken by the frontend.
#[derive(Copy, Clone, Debug, PartialEq, Eq, Structural)]
pub enum FrameReady {
    VideoFrame,
    LcdOffFrame,
}

/// What the frontend gets when it asks for a frame.
pub enum VideoFrameStatus<'a> {
    NotReady,
    LcdTurnedOff,
    Ready(&'a [MemPixel]),
}

/// STAT and IF after the PPU switches to `mode`: the STAT interrupt is
/// requested when the mode's interrupt is enabled and no STAT condition
/// held before.
pub open spec fn mode_switched(reg: PPURegisters, ir: InterruptSystem, mode: Mode) -> (PPURegisters, InterruptSystem) {
    let fire = !reg.lcds.conditions_met() && match mode {
        Mode::OAMSearch => reg.lcds.flag(5),
        Mode::VBlank => reg.lcds.flag(4),
        Mode::HBlank => reg.lcds.flag(3),
        _ => false,
    };
    (
        PPURegisters { lcds: reg.lcds.with_mode(mode), ..reg },
        if fire { ir.scheduled(Interrupt::LcdStat) } else { ir },
    )
}

/// STAT and IF after comparing `ly` with LYC: the STAT interrupt is
/// requested on a match when the coincidence interrupt is enabled and no
/// STAT condition held before.
pub open spec fn lyc_compared(reg: PPURegisters, ir: InterruptSystem, ly: u8) -> (PPURegisters, InterruptSystem) {
    let eq = ly == reg.lyc;
    let fire = eq && reg.lcds.flag(6) && !reg.lcds.conditions_met();
    (
        PPURegisters { lcds: reg.lcds.with_lyc_equals_ly(eq), ..reg },
        if fire { ir.scheduled(Interrupt::LcdStat) } else { ir },
    )
}

/// The timing part of the PPU state: position in the frame and registers.
pub struct PpuClock {
    pub mode: Mode,
    pub reg: PPURegisters,
    pub ir: InterruptSystem,
    pub sprite_delay: u8,
}

/// Mode, registers, interrupts and sprite delay after machine cycle `n` of
/// line `line`; `num_sprites` is the number of sprites found on the line
/// when pixel transfer starts.
pub open spec fn clock_after(c: PpuClock, line: u8, n: u8, num_sprites: nat) -> PpuClock {
    let upd_mode = |m: Mode| {
        let (reg, ir) = mode_switched(c.reg, c.ir, m);
        PpuClock { mode: m, reg, ir, ..c }
    };
    let upd_lyc = |cc: PpuClock, l: u8| {
        let (reg, ir) = lyc_compared(cc.reg, cc.ir, l);
        PpuClock { reg, ir, ..cc }
    };
    let lyc_clear = |l: u8| PpuClock {
        reg: PPURegisters { ly: l, lcds: c.reg.lcds.with_lyc_equals_ly(false), ..c.reg },
        ..c
    };
    if line == 0 || line < 144 {
        if n == 0 {
            if line == 0 {
                PpuClock {
                    mode: Mode::HBlank,
                    reg: PPURegisters { ly: 0, lcds: c.reg.lcds.with_mode(Mode::HBlank), ..c.reg },
                    ..c
                }
            } else {
                lyc_clear(line)
            }
        } else if n == 1 {
            if line == 0 {
                upd_mode(Mode::OAMSearch)
            } else {
                upd_lyc(upd_mode(Mode::OAMSearch), line)
            }
        } else if n == 21 {
            PpuClock { sprite_delay: (num_sprites * 2) as u8, ..upd_mode(Mode::PixelTransfer) }
        } else if 21 < n <= 61 {
            c
        } else if n == 64 + c.sprite_delay {
            upd_mode(Mode::HBlank)
        } else {
            c
        }
    } else if line == 144 {
        if n == 0 {
            lyc_clear(144)
        } else if n == 1 {
            let cc = PpuClock { ir: c.ir.scheduled(Interrupt::VBlank), ..c };
            let cc2 = upd_lyc(cc, 144);
            let (reg, ir) = mode_switched(cc2.reg, cc2.ir, Mode::VBlank);
            PpuClock { mode: Mode::VBlank, reg, ir, ..cc2 }
        } else {
            c
        }
    } else if line == 153 {
        if n == 0 {
            lyc_clear(153)
        } else if n == 1 {
            upd_lyc(PpuClock { reg: PPURegisters { ly: 0, ..c.reg }, ..c }, 153)
        } else if n == 2 {
            PpuClock { reg: PPURegisters { lcds: c.reg.lcds.with_lyc_equals_ly(false), ..c.reg }, ..c }
        } else if n == 3 {
            upd_lyc(c, 0)
        } else {
            c
        }
    } else {
        if n == 0 {
            lyc_clear(line)
        } else if n == 1 {
            upd_lyc(c, line)
        } else {
            c
        }
    }
}

/// The picture processing unit.
pub struct PPU {
    pub scanline_mcycle: u8,
    /// How many mcycles mode 0 is delayed due to sprites in the current scanline
    pub scanline_sprite_delay: u8,
    pub mode: Mode,
    pub reg: PPURegisters,
    /// Internal copy of LY (LY reads differ on line 153)
    pub ly: u8,
    /// WY as latched at the start of the frame
    pub wy: u8,
    pub tile_data: TileData,
    pub tile_maps: TileMaps,
    pub oam: OAM,
    pub pixel_queue: PixelQueue,
    pub mem_frame: MemFrame,
    pub frame_ready: Option<FrameReady>,
}

impl PPU {
    pub open spec fn wf(&self) -> bool {
        &&& self.tile_data.wf()
        &&& self.tile_maps.wf()
        &&& self.oam.wf()
        &&& self.pixel_queue.wf()
        &&& self.mem_frame.wf()
        &&& self.ly < 154
        &&& self.scanline_mcycle < 114
        &&& self.scanline_sprite_delay <= 20
        &&& self.mode == Mode::LCDOff ==> self.ly == 0 && self.scanline_mcycle == 0
        &&& (self.mode != Mode::LCDOff && self.ly < 144 && 22 <= self.scanline_mcycle <= 63)
            ==> self.mode == Mode::PixelTransfer && !self.tile_data.is_dirty
    }

    pub open spec fn clock(&self, ir: InterruptSystem) -> PpuClock {
        PpuClock { mode: self.mode, reg: self.reg, ir, sprite_delay: self.scanline_sprite_delay }
    }

    pub open spec fn vram_open(&self) -> bool {
        self.mode != Mode::PixelTransfer
    }

    pub open spec fn oam_open(&self) -> bool {
        self.mode != Mode::OAMSearch && self.mode != Mode::PixelTransfer
    }

    /// The byte a read of video memory returns.
    pub open spec fn video_mem_value(&self, addr: VideoMemAddr) -> u8 {
        match addr {
            VideoMemAddr::TileData(a) => if self.vram_open() && (a as nat) < TILE_DATA_LEN {
                self.tile_data.raw_mem@[a as int]
            } else {
                0xff
            },
            VideoMemAddr::TileMaps(a) => if self.vram_open() && (a as nat) < TILE_MAPS_LEN {
                self.tile_maps.mem@[a as int]
            } else {
                0xff
            },
            VideoMemAddr::OAM(a) => if self.oam_open() && (a as nat) < OAM_LEN {
                self.oam.mem@[a as int]
            } else {
                0xff
            },
        }
    }

    /// Everything but the video memory is the same in `self` and `other`.
    pub open spec fn same_but_video_mem(&self, other: &PPU) -> bool {
        &&& self.scanline_mcycle == other.scanline_mcycle
        &&& self.scanline_sprite_delay == other.scanline_sprite_delay
        &&& self.mode == other.mode
        &&& self.reg == other.reg
        &&& self.ly == other.ly
        &&& self.wy == other.wy
        &&& self.pixel_queue == other.pixel_queue
        &&& self.mem_frame == other.mem_frame
        &&& self.frame_ready == other.frame_ready
    }

    /// What one machine cycle does to the PPU and the interrupt registers.
    pub open spec fn mcycle_post(s: &PPU, ir: InterruptSystem, t: &PPU, ir2: InterruptSystem) -> bool {
        if s.mode == Mode::LCDOff {
            *t == *s && ir2 == ir
        } else {
            let n = s.scanline_mcycle;
            let line = s.ly;
            let end_of_line = n + 1 == 114;
            let end_of_frame = end_of_line && line + 1 == 154;
            let drawing = line < 144;
            let num_sprites: nat = if s.reg.lcdc.flag(1) {
                t.oam.line_sprites(s.reg.ly).len()
            } else {
                0
            };
            let c = clock_after(s.clock(ir), line, n, num_sprites);
            &&& t.mode == c.mode
            &&& t.reg == c.reg
            &&& ir2 == c.ir
            &&& t.scanline_sprite_delay == c.sprite_delay
            &&& t.scanline_mcycle == if end_of_line { 0 } else { (n + 1) as u8 }
            &&& t.ly == if end_of_frame { 0 } else if end_of_line { (line + 1) as u8 } else { line }
            &&& t.wy == if end_of_frame { s.reg.wy } else { s.wy }
            &&& t.frame_ready == if end_of_frame { Some(FrameReady::VideoFrame) } else { s.frame_ready }
            &&& t.tile_maps == s.tile_maps
            &&& if drawing && n == 21 {
                &&& t.pixel_queue.quads@ == PixelQueue::scanline_quads(&t.reg, &t.tile_maps, &t.tile_data, &t.oam)
                &&& t.tile_data.raw_mem@ == s.tile_data.raw_mem@
                &&& !t.tile_data.is_dirty
                &&& t.oam.mem == s.oam.mem
                &&& t.oam.sorted_visible()
                &&& !t.oam.is_dirty
                &&& t.mem_frame == s.mem_frame
            } else if drawing && 21 < n <= 61 {
                &&& t.tile_data == s.tile_data
                &&& t.oam == s.oam
                &&& t.pixel_queue == s.pixel_queue
                &&& forall|i: int|
                    0 <= i < WIDTH * HEIGHT && !(WIDTH * line + 4 * (n - 22) <= i < WIDTH * line + 4 * (n - 22) + 4)
                        ==> #[trigger] t.mem_frame.data@[i] == s.mem_frame.data@[i]
                &&& forall|sub: nat|
                    sub < 4 ==> #[trigger] t.mem_frame.data@[WIDTH * line + 4 * (n - 22) + sub]
                        == PixelQueue::quad_pixel(
                        s.pixel_queue.quads@[n - 22],
                        sub,
                        &s.tile_data,
                        &s.tile_maps,
                        &c.reg,
                        line,
                        (n - 22) as u8,
                    )
            } else {
                &&& t.tile_data == s.tile_data
                &&& t.oam == s.oam
                &&& t.pixel_queue == s.pixel_queue
                &&& t.mem_frame == s.mem_frame
            }
        }
    }

    /// The PPU at power-on: LCD off, counters and registers cleared (STAT
    /// bit 7 reads set), all video memory cleared and the frame blank.
    pub open spec fn powered_on(&self) -> bool {
        &&& self.mode == Mode::LCDOff
        &&& self.frame_ready is None
        &&& self.scanline_mcycle == 0 && self.scanline_sprite_delay == 0
        &&& self.ly == 0 && self.wy == 0
        &&& self.reg.lcdc.0 == 0
        &&& self.reg.lcds.0 == 0b1000_0000
        &&& self.reg.scy == 0 && self.reg.scx == 0 && self.reg.ly == 0 && self.reg.lyc == 0 && self.reg.wy == 0 && self.reg.wx == 0
        &&& self.reg.bgp.0 == 0 && self.reg.obp0.0 == 0 && self.reg.obp1.0 == 0
        &&& self.tile_data.is_dirty
        &&& forall|i: int| 0 <= i < TILE_DATA_LEN ==> #[trigger] self.tile_data.raw_mem@[i] == 0
        &&& self.tile_maps.lcdc.0 == 0
        &&& forall|i: int| 0 <= i < TILE_MAPS_LEN ==> #[trigger] self.tile_maps.mem@[i] == 0
        &&& self.oam.is_dirty
        &&& forall|i: int| 0 <= i < OAM_LEN ==> #[trigger] self.oam.mem@[i] == 0
        &&& forall|i: int| 0 <= i < QUAD_COUNT ==> #[trigger] self.pixel_queue.quads@[i] == (PixelQuad { pixel_col: 0, pixel_src: 0 })
        &&& forall|i: int| 0 <= i < WIDTH * HEIGHT ==> #[trigger] self.mem_frame.data@[i] == MemPixel::clear()
    }

    pub fn new() -> (r: PPU)
        ensures
            r.wf(),
            r.powered_on(),
    {
        PPU {
            scanline_mcycle: 0,
            scanline_sprite_delay: 0,
            mode: Mode::LCDOff,
            reg: PPURegisters::new(),
            ly: 0,
            wy: 0,
            tile_data: TileData::new(),
            tile_maps: TileMaps::new(),
            oam: OAM::new(),
            pixel_queue: PixelQueue::new(),
            mem_frame: MemFrame::new(),
            frame_ready: None,
        }
    }

    fn start_pixel_transfer(&mut self, ir_system: &mut InterruptSystem)
        requires
            old(self).wf(),
            old(self).mode != Mode::LCDOff,
            old(self).ly < 144,
            old(self).scanline_mcycle == 21,
        ensures
            final(self).wf(),
            final(self).mode == Mode::PixelTransfer,
            ({
                let (reg, ir) = mode_switched(old(self).reg, *old(ir_system), Mode::PixelTransfer);
                &&& final(self).reg == reg
                &&& *final(ir_system) == ir
            }),
            final(self).scanline_sprite_delay == 2 * (if old(self).reg.lcdc.flag(1) {
                final(self).oam.line_sprites(old(self).reg.ly).len()
            } else {
                0
            }),
            final(self).tile_data.raw_mem@ == old(self).tile_data.raw_mem@,
            !final(self).tile_data.is_dirty,
            final(self).oam.mem == old(self).oam.mem,
            final(self).oam.sorted_visible(),
            !final(self).oam.is_dirty,
            final(self).mem_frame == old(self).mem_frame,
            final(self).tile_maps == old(self).tile_maps,
            final(self).scanline_mcycle == old(self).scanline_mcycle,
            final(self).ly == old(self).ly,
            final(self).wy == old(self).wy,
            final(self).frame_ready == old(self).frame_ready,
            final(self).pixel_queue.quads@ == PixelQueue::scanline_quads(
                &final(self).reg,
                &final(self).tile_maps,
                &final(self).tile_data,
                &final(self).oam,
            ),
    {
        self.update_mode(ir_system, Mode::PixelTransfer);
        self.oam.rebuild();
        self.tile_data.rebuild();
        let num_sprites = self.pixel_queue.push_scanline(&self.reg, &self.tile_maps, &self.tile_data, &self.oam);
        self.scanline_sprite_delay = num_sprites * 2;
    }

    /// One machine cycle of the PPU.
    #[verifier::rlimit(60)]
    pub fn advance_mcycle(&mut self, ir_system: &mut InterruptSystem)
        requires
            old(self).wf(),
        ensures
            final(self).wf(),
            PPU::mcycle_post(old(self), *old(ir_system), final(self), *final(ir_system)),
    {
        if matches!(self.mode, Mode::LCDOff) {
            return;
        }
        let n = self.scanline_mcycle;
        let line = self.ly;
        if line == 0 || line < 144 {
            if n == 0 {
                if line == 0 {
                    self.reg.ly = 0;
                    self.mode = Mode::HBlank;
                    self.reg.lcds.set_mode(Mode::HBlank);
                } else {
                    self.reg.ly = line;
                    self.reg.lcds.set_lyc_equals_ly(false);
                }
            } else if n == 1 {
                self.update_mode(ir_system, Mode::OAMSearch);
                if line != 0 {
                    self.update_lyc_equals_ly(ir_system, line);
                }
            } else if n == 21 {
                self.start_pixel_transfer(ir_system);
            } else if n > 21 && n <= 61 {
                self.pixel_queue.pop_pixel_quad(
                    &self.tile_data,
                    &self.tile_maps,
                    &self.reg,
                    &mut self.mem_frame,
                    line,
                    n - 22,
                );
            } else if n == 64 + self.scanline_sprite_delay {
                self.update_mode(ir_system, Mode::HBlank);
            }
        } else if line == 144 {
            if n == 0 {
                self.reg.ly = 144;
                self.reg.lcds.set_lyc_equals_ly(false);
            } else if n == 1 {
                ir_system.schedule_interrupt(Interrupt::VBlank);
                self.update_lyc_equals_ly(ir_system, 144);
                self.update_mode(ir_system, Mode::VBlank);
            }
        } else if line == 153 {
            if n == 0 {
                self.reg.ly = 153;
                self.reg.lcds.set_lyc_equals_ly(false);
            } else if n == 1 {
                self.reg.ly = 0;
                self.update_lyc_equals_ly(ir_system, 153);
            } else if n == 2 {
                self.reg.lcds.set_lyc_equals_ly(false);
            } else if n == 3 {
                self.update_lyc_equals_ly(ir_system, 0);
            }
        } else {
            if n == 0 {
                self.reg.ly = line;
                self.reg.lcds.set_lyc_equals_ly(false);
            } else if n == 1 {
                self.update_lyc_equals_ly(ir_system, line);
            }
        }

        self.scanline_mcycle = self.scanline_mcycle + 1;
        if self.scanline_mcycle == 114 {
            self.scanline_mcycle = 0;
            self.ly = self.ly + 1;
            if self.ly == 154 {
                self.wy = self.reg.wy;
                self.ly = 0;
                self.frame_ready = Some(FrameReady::VideoFrame);
            }
        }
    }

    /// Takes the frame that is ready, if any.
    pub fn query_frame_status(&mut self) -> (r: VideoFrameStatus)
        ensures
            final(self).frame_ready is None,
            old(self).frame_ready == Some(FrameReady::VideoFrame) ==> (r matches VideoFrameStatus::Ready(d) && d@ == old(self).mem_frame.data@),
            old(self).frame_ready == Some(FrameReady::LcdOffFrame) ==> r is LcdTurnedOff,
            old(self).frame_ready is None ==> r is NotReady,
            final(self).same_but_frame_ready(old(self)),
    {
        let ready = self.frame_ready;
        self.frame_ready = None;
        match ready {
            Some(FrameReady::VideoFrame) => VideoFrameStatus::Ready(self.mem_frame.data()),
            Some(FrameReady::LcdOffFrame) => VideoFrameStatus::LcdTurnedOff,
            None => VideoFrameStatus::NotReady,
        }
    }

    pub open spec fn same_but_frame_ready(&self, other: &PPU) -> bool {
        &&& self.scanline_mcycle == other.scanline_mcycle
        &&& self.scanline_sprite_delay == other.scanline_sprite_delay
        &&& self.mode == other.mode
        &&& self.reg == other.reg
        &&& self.ly == other.ly
        &&& self.wy == other.wy
        &&& self.tile_data == other.tile_data
        &&& self.tile_maps == other.tile_maps
        &&& self.oam == other.oam
        &&& self.pixel_queue == other.pixel_queue
        &&& self.mem_frame == other.mem_frame
    }

    pub fn read_reg(&self, reg: PpuReg) -> (r: u8)
        ensures
            r == self.reg.value(reg),
    {
        self.reg.cpu_read(reg)
    }

    /// What a write of `val` to register `reg` makes of the PPU (`t`) and the
    /// interrupt registers (`ir2`).
    /// The PPU after LCDC took its new value `s.reg.lcdc`: the tile maps follow
    /// it, turning the LCD on starts a frame in HBlank (latching WY), turning
    /// it off hands out a blank frame and resets LY; nothing else changes.
    pub open spec fn lcdc_applied(s: &PPU, ir: InterruptSystem, t: &PPU, ir2: InterruptSystem) -> bool {
        let lcdc = s.reg.lcdc;
        &&& t.tile_maps.lcdc == lcdc
        &&& t.tile_maps.mem == s.tile_maps.mem
        &&& t.tile_data == s.tile_data
        &&& t.oam == s.oam
        &&& t.pixel_queue == s.pixel_queue
        &&& t.mem_frame == s.mem_frame
        &&& t.scanline_sprite_delay == s.scanline_sprite_delay
        &&& if lcdc.flag(7) && s.mode == Mode::LCDOff {
            let (r, irc) = mode_switched(s.reg, ir, Mode::HBlank);
            &&& t.mode == Mode::HBlank
            &&& t.reg == r
            &&& ir2 == irc
            &&& t.wy == s.reg.wy
            &&& t.ly == s.ly
            &&& t.scanline_mcycle == s.scanline_mcycle
            &&& t.frame_ready == s.frame_ready
        } else if !lcdc.flag(7) && s.mode != Mode::LCDOff {
            let (r, irc) = mode_switched(PPURegisters { ly: 0, ..s.reg }, ir, Mode::LCDOff);
            &&& t.mode == Mode::LCDOff
            &&& t.reg == r
            &&& ir2 == irc
            &&& t.wy == s.wy
            &&& t.ly == 0
            &&& t.scanline_mcycle == 0
            &&& t.frame_ready == Some(FrameReady::LcdOffFrame)
        } else {
            &&& t.mode == s.mode
            &&& t.reg == s.reg
            &&& ir2 == ir
            &&& t.wy == s.wy
            &&& t.ly == s.ly
            &&& t.scanline_mcycle == s.scanline_mcycle
            &&& t.frame_ready == s.frame_ready
        }
    }

    pub open spec fn reg_written(s: &PPU, ir: InterruptSystem, reg: PpuReg, val: u8, t: &PPU, ir2: InterruptSystem) -> bool {
        &&& t.wf()
        &&& reg != PpuReg::LCDC && reg != PpuReg::LYC ==> (t.reg == s.reg.written(reg, val)
            && ir2 == ir && t.same_but_regs(s))
        &&& reg == PpuReg::LYC ==> ({
            let (r, irc) = lyc_compared(s.reg.written(reg, val), ir, s.reg.ly);
            &&& t.reg == r
            &&& ir2 == irc
            &&& t.same_but_regs(s)
        })
        &&& reg == PpuReg::LCDC ==> t.reg.lcdc.0 == val && t.tile_maps.lcdc.0 == val
        &&& reg == PpuReg::LCDC ==> PPU::lcdc_applied(&PPU { reg: s.reg.written(reg, val), ..*s }, ir, t, ir2)
        &&& reg == PpuReg::LCDC && u8_bit(val, 7) && s.mode == Mode::LCDOff ==> t.mode == Mode::HBlank && t.wy == s.reg.wy
        &&& reg == PpuReg::LCDC && !u8_bit(val, 7) && s.mode != Mode::LCDOff ==> t.mode == Mode::LCDOff
            && t.frame_ready == Some(FrameReady::LcdOffFrame) && t.reg.ly == 0 && t.ly == 0
        &&& reg == PpuReg::LCDC && (u8_bit(val, 7) == (s.mode != Mode::LCDOff)) ==> t.mode == s.mode
    }

    /// Writes a PPU register. Writing LCDC may switch the LCD on or off;
    /// writing LYC compares it with LY.
    pub fn write_reg(&mut self, ir_system: &mut InterruptSystem, reg: PpuReg, val: u8)
        requires
            old(self).wf(),
        ensures
            PPU::reg_written(old(self), *old(ir_system), reg, val, final(self), *final(ir_system)),
    {
        self.reg.cpu_write(reg, val);
        match reg {
            PpuReg::LCDC => self.notify_lcdc_changed(ir_system),
            PpuReg::LYC => {
                let ly = self.reg.ly;
                self.update_lyc_equals_ly(ir_system, ly);
            },
            _ => {},
        }
    }

    pub open spec fn same_but_regs(&self, other: &PPU) -> bool {
        &&& self.scanline_mcycle == other.scanline_mcycle
        &&& self.scanline_sprite_delay == other.scanline_sprite_delay
        &&& self.mode == other.mode
        &&& self.ly == other.ly
        &&& self.wy == other.wy
        &&& self.tile_data == other.tile_data
        &&& self.tile_maps == other.tile_maps
        &&& self.oam == other.oam
        &&& self.pixel_queue == other.pixel_queue
        &&& self.mem_frame == other.mem_frame
        &&& self.frame_ready == other.frame_ready
    }

    pub fn read_video_mem(&self, addr: VideoMemAddr) -> (r: u8)
        requires
            self.wf(),
        ensures
            r == self.video_mem_value(addr),
    {
        match addr {
            VideoMemAddr::TileData(a) => if self.vram_accessible() && (a as usize) < TILE_DATA_LEN {
                self.tile_data.read(a)
            } else {
                0xff
            },
            VideoMemAddr::TileMaps(a) => if self.vram_accessible() && (a as usize) < TILE_MAPS_LEN {
                self.tile_maps.mem[a as usize]
            } else {
                0xff
            },
            VideoMemAddr::OAM(a) => if self.oam_accessible() && (a as usize) < OAM_LEN {
                self.oam.read(a)
            } else {
                0xff
            },
        }
    }

    /// What a write of `val` to video memory address `addr` makes of the PPU:
    /// the byte is stored where the PPU lets the CPU in, and nothing else changes.
    pub open spec fn video_written(s: &PPU, addr: VideoMemAddr, val: u8, t: &PPU) -> bool {
        &&& t.wf()
        &&& t.same_but_video_mem(s)
        &&& t.tile_maps.lcdc == s.tile_maps.lcdc
        &&& forall|a: VideoMemAddr| #[trigger] t.video_mem_value(a) == if a == addr && s.video_mem_value(addr) != 0xff || (a == addr && match a {
            VideoMemAddr::TileData(o) => s.vram_open() && (o as nat) < TILE_DATA_LEN,
            VideoMemAddr::TileMaps(o) => s.vram_open() && (o as nat) < TILE_MAPS_LEN,
            VideoMemAddr::OAM(o) => s.oam_open() && (o as nat) < OAM_LEN,
        }) {
            val
        } else {
            s.video_mem_value(a)
        }
    }

    /// Writes video memory; writes are dropped while the PPU uses it.
    pub fn write_video_mem(&mut self, addr: VideoMemAddr, val: u8)
        requires
            old(self).wf(),
        ensures
            PPU::video_written(old(self), addr, val, final(self)),
    {
        match addr {
            VideoMemAddr::TileData(a) => if self.vram_accessible() && (a as usize) < TILE_DATA_LEN {
                self.tile_data.write(a, val);
            },
            VideoMemAddr::TileMaps(a) => if self.vram_accessible() && (a as usize) < TILE_MAPS_LEN {
                self.tile_maps.mem.set(a as usize, val);
            },
            VideoMemAddr::OAM(a) => if self.oam_accessible() && (a as usize) < OAM_LEN {
                self.oam.write(a, val);
            },
        }
    }

    fn vram_accessible(&self) -> (r: bool)
        ensures
            r == self.vram_open(),
    {
        !matches!(self.mode, Mode::PixelTransfer)
    }

    fn oam_accessible(&self) -> (r: bool)
        ensures
            r == self.oam_open(),
    {
        !matches!(self.mode, Mode::OAMSearch | Mode::PixelTransfer)
    }

    fn notify_lcdc_changed(&mut self, ir_system: &mut InterruptSystem)
        requires
            old(self).wf(),
        ensures
            final(self).wf(),
            final(self).reg.lcdc == old(self).reg.lcdc,
            final(self).tile_maps.lcdc == old(self).reg.lcdc,
            old(self).reg.lcdc.flag(7) && old(self).mode == Mode::LCDOff ==> final(self).mode == Mode::HBlank && final(self).wy == old(self).reg.wy,
            !old(self).reg.lcdc.flag(7) && old(self).mode != Mode::LCDOff ==> final(self).mode == Mode::LCDOff
                && final(self).frame_ready == Some(FrameReady::LcdOffFrame) && final(self).reg.ly == 0 && final(self).ly == 0,
            (old(self).reg.lcdc.flag(7) == (old(self).mode != Mode::LCDOff)) ==> final(self).mode == old(self).mode,
            PPU::lcdc_applied(old(self), *old(ir_system), final(self), *final(ir_system)),
    {
        let lcdc = self.reg.lcdc;
        self.tile_maps.notify_lcdc_changed(lcdc);
        // Large sprites are not supported: with 8 x 16 selected, sprites are
        // still drawn 8 x 8
        if matches!(lcdc.sprite_size(), SpriteSize::W8H8) {
            self.oam.notify_lcdc_changed(lcdc);
        }

        if lcdc.lcd_enabled() {
            if matches!(self.mode, Mode::LCDOff) {
                // Turn LCD on
                self.update_mode(ir_system, Mode::HBlank);
                // Save value of WY register for the duration of a frame
                self.wy = self.reg.wy;
            }
        } else {
            if !matches!(self.mode, Mode::LCDOff) {
                // Turn LCD off
                self.frame_ready = Some(FrameReady::LcdOffFrame);
                self.reg.ly = 0;
                self.ly = 0;
                self.scanline_mcycle = 0;
                self.update_mode(ir_system, Mode::LCDOff);
            }
        }
    }

    fn update_lyc_equals_ly(&mut self, ir_system: &mut InterruptSystem, ly: u8)
        ensures
            ({
                let (reg, ir) = lyc_compared(old(self).reg, *old(ir_system), ly);
                &&& final(self).reg == reg
                &&& *final(ir_system) == ir
            }),
            final(self).same_but_regs(old(self)),
    {
        let ly_lyc_equal = ly == self.reg.lyc;
        if ly_lyc_equal && self.reg.lcds.ly_coincidence_interrupt() && (!self.reg.lcds.any_conditions_met()) {
            ir_system.schedule_interrupt(Interrupt::LcdStat);
        }
        self.reg.lcds.set_lyc_equals_ly(ly_lyc_equal);
    }

    fn update_mode(&mut self, ir_system: &mut InterruptSystem, mode: Mode)
        ensures
            final(self).mode == mode,
            ({
                let (reg, ir) = mode_switched(old(self).reg, *old(ir_system), mode);
                &&& final(self).reg == reg
                &&& *final(ir_system) == ir
            }),
            final(self).scanline_mcycle == old(self).scanline_mcycle,
            final(self).scanline_sprite_delay == old(self).scanline_sprite_delay,
            final(self).ly == old(self).ly,
            final(self).wy == old(self).wy,
            final(self).tile_data == old(self).tile_data,
            final(self).tile_maps == old(self).tile_maps,
            final(self).oam == old(self).oam,
            final(self).pixel_queue == old(self).pixel_queue,
            final(self).mem_frame == old(self).mem_frame,
            final(self).frame_ready == old(self).frame_ready,
    {
        self.mode = mode;
        if !self.reg.lcds.any_conditions_met() {
            match mode {
                Mode::OAMSearch => if self.reg.lcds.oam_search_interrupt() {
                    ir_system.schedule_interrupt(Interrupt::LcdStat)
                },
                Mode::VBlank => if self.reg.lcds.v_blank_interrupt() {
                    ir_system.schedule_interrupt(Interrupt::LcdStat);
                },
                Mode::HBlank => if self.reg.lcds.h_blank_interrupt() {
                    ir_system.schedule_interrupt(Interrupt::LcdStat)
                },
                _ => (),
            }
        }
        self.reg.lcds.set_mode(mode);
    }
}

/// While the PPU transfers pixels, the CPU reads 0xFF from all of video
/// memory, and its writes there change nothing.
pub proof fn law_video_mem_blocked_in_pixel_transfer(s: PPU, addr: VideoMemAddr, val: u8, t: PPU, other: VideoMemAddr)
    requires
        s.mode == Mode::PixelTransfer,
    ensures
        s.video_mem_value(addr) == 0xff,
        PPU::video_written(&s, addr, val, &t) ==> t.video_mem_value(other) == s.video_mem_value(other),
{
}

/// A byte the CPU writes to video memory while the PPU lets it in is read back.
pub proof fn law_video_mem_write_read(s: PPU, addr: VideoMemAddr, val: u8, t: PPU)
    requires
        PPU::video_written(&s, addr, val, &t),
        match addr {
            VideoMemAddr::TileData(o) => s.vram_open() && (o as nat) < TILE_DATA_LEN,
            VideoMemAddr::TileMaps(o) => s.vram_open() && (o as nat) < TILE_MAPS_LEN,
            VideoMemAddr::OAM(o) => s.oam_open() && (o as nat) < OAM_LEN,
        },
    ensures
        t.video_mem_value(addr) == val,
{
}

/// `ppus` are the PPU in consecutive machine cycles, `irs` the interrupt
/// registers with them, with no register written in between.
pub open spec fn ppu_run(ppus: Seq<PPU>, irs: Seq<InterruptSystem>) -> bool {
    &&& ppus.len() == irs.len()
    &&& forall|i: int| 0 <= i < ppus.len() - 1 ==> #[trigger] PPU::mcycle_post(&ppus[i], irs[i], &ppus[i + 1], irs[i + 1])
}

/// Machine cycles of a frame: 154 lines of 114 cycles.
pub const FRAME_MCYCLES: usize = 17556;

/// A machine cycle of a running LCD leaves it running.
proof fn lemma_clock_keeps_lcd_on(c: PpuClock, line: u8, n: u8, num_sprites: nat)
    requires
        c.mode != Mode::LCDOff,
    ensures
        clock_after(c, line, n, num_sprites).mode != Mode::LCDOff,
{
}

proof fn lemma_frame_prefix(ppus: Seq<PPU>, irs: Seq<InterruptSystem>, k: int)
    requires
        ppu_run(ppus, irs),
        ppus.len() == FRAME_MCYCLES + 1,
        ppus[0].mode != Mode::LCDOff,
        ppus[0].ly == 0,
        ppus[0].scanline_mcycle == 0,
        ppus[0].frame_ready is None,
        0 <= k < FRAME_MCYCLES,
    ensures
        forall|i: int|
            0 <= i <= k ==> {
                &&& (#[trigger] ppus[i]).ly == i / 114
                &&& ppus[i].scanline_mcycle == i % 114
                &&& ppus[i].frame_ready is None
                &&& ppus[i].mode != Mode::LCDOff
            },
    decreases k,
{
    if k > 0 {
        lemma_frame_prefix(ppus, irs, k - 1);
        let j = k - 1;
        assert(PPU::mcycle_post(&ppus[j], irs[j], &ppus[j + 1], irs[j + 1]));
        let s = ppus[j];
        let num_sprites: nat = if s.reg.lcdc.flag(1) { ppus[k].oam.line_sprites(s.reg.ly).len() } else { 0 };
        lemma_clock_keeps_lcd_on(s.clock(irs[j]), s.ly, s.scanline_mcycle, num_sprites);
        assert(j / 114 < 154) by (nonlinear_arith)
            requires
                0 <= j < 17555,
        ;
        if j % 114 == 113 {
            assert(k / 114 == j / 114 + 1 && k % 114 == 0) by (nonlinear_arith)
                requires
                    k == j + 1,
                    j % 114 == 113,
                    j >= 0,
            ;
            assert(j / 114 + 1 < 154) by (nonlinear_arith)
                requires
                    0 <= j < 17555,
                    j % 114 == 113,
            ;
        } else {
            assert(k / 114 == j / 114 && k % 114 == j % 114 + 1) by (nonlinear_arith)
                requires
                    k == j + 1,
                    j % 114 != 113,
                    j >= 0,
            ;
        }
    }
}

/// A frame takes 17556 machine cycles: from the start of a frame with the
/// LCD on, line `i / 114` is at cycle `i % 114` after `i` cycles, no frame is
/// handed out before, and the next frame is ready after exactly 17556
/// cycles, back at line 0. The step that requests VBlank (line 144, cycle 1)
/// comes exactly once, after 16417 cycles.
pub proof fn law_frame_timing(ppus: Seq<PPU>, irs: Seq<InterruptSystem>)
    requires
        ppu_run(ppus, irs),
        ppus.len() == FRAME_MCYCLES + 1,
        ppus[0].mode != Mode::LCDOff,
        ppus[0].ly == 0,
        ppus[0].scanline_mcycle == 0,
        ppus[0].frame_ready is None,
    ensures
        forall|i: int|
            0 <= i < FRAME_MCYCLES ==> {
                &&& (#[trigger] ppus[i]).ly == i / 114
                &&& ppus[i].scanline_mcycle == i % 114
                &&& ppus[i].frame_ready is None
                &&& ppus[i].mode != Mode::LCDOff
            },
        forall|i: int|
            0 <= i < FRAME_MCYCLES ==> ((#[trigger] ppus[i]).ly == 144 && ppus[i].scanline_mcycle == 1 <==> i == 16417),
        ppus[FRAME_MCYCLES as int].frame_ready == Some(FrameReady::VideoFrame),
        ppus[FRAME_MCYCLES as int].ly == 0,
        ppus[FRAME_MCYCLES as int].scanline_mcycle == 0,
{
    lemma_frame_prefix(ppus, irs, 17555);
    let j: int = 17555;
    assert(PPU::mcycle_post(&ppus[j], irs[j], &ppus[j + 1], irs[j + 1]));
    assert(17555int / 114 == 153 && 17555int % 114 == 113);
    assert forall|i: int| 0 <= i < FRAME_MCYCLES implies ((#[trigger] ppus[i]).ly == 144 && ppus[i].scanline_mcycle == 1 <==> i == 16417) by {
        assert(ppus[i].ly == i / 114 && ppus[i].scanline_mcycle == i % 114);
        assert((i / 114 == 144 && i % 114 == 1) <==> i == 16417) by (nonlinear_arith)
            requires
                0 <= i,
        ;
    }
}

/// A machine cycle of the PPU leaves the bytes of OAM as they are.
pub(crate) proof fn lemma_mcycle_keeps_oam(s: &PPU, ir: InterruptSystem, t: &PPU, ir2: InterruptSystem)
    requires
        PPU::mcycle_post(s, ir, t, ir2),
    ensures
        t.oam.mem == s.oam.mem,
{
}

} // verus!
