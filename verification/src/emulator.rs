use vstd::prelude::*;
use crate::board::Board;
use crate::cartridge::CartridgeMem;
use crate::cpu::CPU;
use crate::joypad::Buttons;
use crate::memory::{InternalMem, Memory};
use crate::ppu::{FrameReady, VideoFrameStatus};

verus! {

/// The whole console: the CPU and everything on the board.
pub struct Emulator<C> {
    pub cpu: CPU,
    pub board: Board<C>,
}

impl<C: CartridgeMem> Emulator<C> {
    pub open spec fn wf(&self) -> bool {
        self.board.wf()
    }

    /// The console at power-on, with the cartridge plugged in and the boot
    /// ROM mapped.
    pub fn new(cartridge_mem: C) -> (r: Emulator<C>)
        requires
            cartridge_mem.inv(),
        ensures
            r.wf(),
            r.cpu.reg == crate::cpu::registers::Registers::all_zero(),
            !r.cpu.ime,
            r.cpu.halt_state == crate::cpu::HaltState::Running,
            r.board.mem.cartridge == cartridge_mem,
            r.board.mem.boot_rom_active,
            forall|i: int| 0 <= i < crate::memory::WRAM_LEN ==> #[trigger] r.board.mem.internal.wram@[i] == 0,
            forall|i: int| 0 <= i < crate::memory::HRAM_LEN ==> #[trigger] r.board.mem.internal.hram@[i] == 0,
            r.board.ppu.powered_on(),
            r.board.timer.powered_on(),
            r.board.ir_system == (crate::interrupt_system::InterruptSystem { if_reg: 0, ie_reg: 0 }),
            r.board.joypad.p1_reg == 0xff && r.board.joypad.pressed.0 == 0,
            !r.board.oam_dma.active() && r.board.oam_dma.reg == 0,
            r.board.serial_port.sb_reg == 0,
            r.board.serial_out@ == Seq::<u8>::empty(),
            r.board.cpu_evts.view() == Seq::<crate::debug::CpuEvt>::empty(),
    {
        let mem = Memory::new(InternalMem::new(), cartridge_mem);
        Emulator { cpu: CPU::new(), board: Board::new(mem) }
    }

    /// One step of the CPU (an instruction, an interrupt jump, or an idle
    /// cycle while halted), with the board running alongside.
    pub fn emulate_step(&mut self)
        requires
            old(self).wf(),
        ensures
            final(self).wf(),
            CPU::step_post(old(self).cpu, old(self).board, final(self).cpu, final(self).board),
    {
        self.cpu.step_instr(&mut self.board);
    }

    pub fn query_video_frame_status(&mut self) -> (r: VideoFrameStatus)
        ensures
            final(self).board.ppu.frame_ready is None,
            old(self).board.ppu.frame_ready == Some(FrameReady::VideoFrame) ==> (r matches VideoFrameStatus::Ready(d)
                && d@ == old(self).board.ppu.mem_frame.data@),
            old(self).board.ppu.frame_ready == Some(FrameReady::LcdOffFrame) ==> r is LcdTurnedOff,
            old(self).board.ppu.frame_ready is None ==> r is NotReady,
            final(self).board.same_but_frame_ready(&old(self).board),
            final(self).cpu == old(self).cpu,
    {
        self.board.query_video_frame_status()
    }

    /// Call this if the frontend encounters a KEY_DOWN event (or sth
    /// equivalent). The other buttons remain unchanged.
    pub fn notify_buttons_pressed(&mut self, buttons: Buttons)
        ensures
            final(self).board.joypad.pressed.0 == old(self).board.joypad.pressed.0 | buttons.0,
            final(self).board.joypad.p1_reg == old(self).board.joypad.p1_reg,
            final(self).board.ir_system == if buttons.0 & !old(self).board.joypad.pressed.0 != 0 {
                old(self).board.ir_system.scheduled(crate::interrupt_system::Interrupt::Joypad)
            } else {
                old(self).board.ir_system
            },
            final(self).board == (Board {
                joypad: final(self).board.joypad,
                ir_system: final(self).board.ir_system,
                ..old(self).board
            }),
            final(self).cpu == old(self).cpu,
    {
        self.board.notify_buttons_pressed(buttons);
    }

    /// Call this if the frontend encounters a KEY_UP event (or sth
    /// equivalent). The other buttons remain unchanged.
    pub fn notify_buttons_released(&mut self, buttons: Buttons)
        ensures
            final(self).board.joypad.pressed.0 == old(self).board.joypad.pressed.0 & !buttons.0,
            final(self).board.joypad.p1_reg == old(self).board.joypad.p1_reg,
            final(self).board == (Board { joypad: final(self).board.joypad, ..old(self).board }),
            final(self).cpu == old(self).cpu,
    {
        self.board.notify_buttons_released(buttons);
    }

    /// Alternative for frontends without KEY_UP and KEY_DOWN events:
    /// exactly `buttons` are pressed.
    pub fn notify_buttons_state(&mut self, buttons: Buttons)
        ensures
            final(self).board.joypad.pressed == buttons,
            final(self).board.joypad.p1_reg == old(self).board.joypad.p1_reg,
            final(self).board.ir_system == if buttons.0 & !old(self).board.joypad.pressed.0 != 0 {
                old(self).board.ir_system.scheduled(crate::interrupt_system::Interrupt::Joypad)
            } else {
                old(self).board.ir_system
            },
            final(self).board == (Board {
                joypad: final(self).board.joypad,
                ir_system: final(self).board.ir_system,
                ..old(self).board
            }),
            final(self).cpu == old(self).cpu,
    {
        self.board.notify_buttons_state(buttons);
    }

    /// The bytes sent over the serial port since the last call.
    pub fn take_serial_output(&mut self) -> (r: Vec<u8>)
        ensures
            r@ == old(self).board.serial_out@,
            final(self).board.serial_out@ == Seq::<u8>::empty(),
            final(self).board == (Board { serial_out: final(self).board.serial_out, ..old(self).board }),
            final(self).cpu == old(self).cpu,
    {
        self.board.take_serial_output()
    }
}

} // verus!
