use vstd::prelude::*;
use super::Board;
use crate::address::{Addr, VideoMemAddr};
use crate::cartridge::CartridgeMem;

verus! {

/// OAM DMA: copies 0xA0 bytes from `XX00 - XX9F` into OAM, one byte per
/// machine cycle, after a write of `XX` to register 0xFF46.
pub struct OamDma {
    pub reg: u8,
    pub src_addr: u16,
    pub oam_dst_idx: u8,
    pub read_buf: u8,
}

impl OamDma {
    pub open spec fn active(&self) -> bool {
        self.oam_dst_idx < 0xA0
    }

    /// While a transfer runs, the source address lies in the page the
    /// transfer started in, one past the OAM index (or at the very start).
    pub open spec fn wf(&self) -> bool {
        self.active() ==> {
            let j = self.src_addr % 0x100;
            &&& self.src_addr / 0x100 <= 0xF1
            &&& j <= 0xA0
            &&& self.oam_dst_idx == if j == 0 { 0 } else { j - 1 }
        }
    }

    /// The transfer state after a write of `val` to 0xFF46.
    pub open spec fn after_write(self, val: u8) -> OamDma {
        if val > 0xf1 {
            OamDma { reg: val, ..self }
        } else {
            OamDma { reg: val, src_addr: (val as u16 * 0x100) as u16, oam_dst_idx: 0, read_buf: self.read_buf }
        }
    }

    pub fn new() -> (r: OamDma)
        ensures
            r.wf(),
            !r.active(),
            r.reg == 0,
    {
        OamDma { reg: 0, src_addr: 0, oam_dst_idx: 0xFF, read_buf: 0 }
    }

    pub fn is_active(&self) -> (r: bool)
        ensures
            r == self.active(),
    {
        self.oam_dst_idx < 0xA0
    }

    pub fn read_ff46(&self) -> (r: u8)
        ensures
            r == self.reg,
    {
        self.reg
    }

    /// Starts a transfer from page `val` (a transfer that runs starts over);
    /// pages above 0xF1 are refused.
    pub fn write_ff46(&mut self, val: u8)
        requires
            old(self).wf(),
        ensures
            final(self).wf(),
            *final(self) == old(self).after_write(val),
    {
        self.reg = val;
        if val > 0xf1 {
            return;
        }
        self.src_addr = (val as u16) * 0x100;
        self.oam_dst_idx = 0;
    }

    /// One machine cycle of a running transfer. In the very first cycle the
    /// read buffer is only filled; in all others it is first written out to
    /// OAM, then the next byte is fetched.
    pub fn advance_mcycle<C: CartridgeMem>(board: &mut Board<C>)
        requires
            old(board).wf(),
        ensures
            final(board).wf(),
            Board::dma_stepped(*old(board), *final(board)),
    {
        if board.oam_dma.is_active() {
            let s0 = board.oam_dma.src_addr;
            assert(s0 & 0xff == s0 % 0x100) by (bit_vector);
            if s0 & 0xff != 0 {
                // Write most recently read byte
                board.ppu.write_video_mem(
                    VideoMemAddr::OAM(board.oam_dma.oam_dst_idx as u16),
                    board.oam_dma.read_buf,
                );
                board.oam_dma.oam_dst_idx = board.oam_dma.oam_dst_idx + 1;
            }
            // Read next byte (one too many is read at the very end)
            let src = board.oam_dma.src_addr;
            proof {
                super::lemma_decode_mem_ok(src);
            }
            board.oam_dma.read_buf = board.read8_instant(Addr::from(src));
            board.oam_dma.src_addr = src + 1;
        }
    }
}

} // verus!
