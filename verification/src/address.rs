use vstd::prelude::*;

verus! {

pub const VRAM_START_ADDR: u16 = 0x8000;

/// A CPU address, decoded into the component that answers it.
#[derive(Copy, Clone, Debug, PartialEq, Eq, Structural)]
pub enum Addr {
    Mem(MemAddr),
    VideoMem(VideoMemAddr),
    /// 0xFEA0 - 0xFEFF
    Unusable,
    /// 0xFF00 - 0xFF7F
    IO(IOReg),
    /// 0xFFFF
    IE,
}

/// Plain memory, with the offset into the area.
#[derive(Copy, Clone, Debug, PartialEq, Eq, Structural)]
pub enum MemAddr {
    /// 0x0000 - 0x7FFF
    CROM(CRomAddr),
    /// 0xA000 - 0xBFFF
    CRAM(CRamAddr),
    /// 0xC000 - 0xDFFF
    WRAM(u16),
    /// 0xE000 - 0xFDFF
    ECHO(u16),
    /// 0xFF80 - 0xFFFE
    HRAM(u16),
}

#[derive(Copy, Clone, Debug, PartialEq, Eq, Structural)]
pub enum CRomAddr {
    /// 0x0000 - 0x3FFF
    CROM0(u16),
    /// 0x4000 - 0x7FFF, as an offset from 0x4000
    CROMn(u16),
}

/// Offset into cartridge RAM (0xA000 - 0xBFFF)
#[derive(Copy, Clone, Debug, PartialEq, Eq, Structural)]
pub struct CRamAddr(pub u16);

#[derive(Copy, Clone, Debug, PartialEq, Eq, Structural)]
pub enum VideoMemAddr {
    /// 0x8000 - 0x97FF
    TileData(u16),
    /// 0x9800 - 0x9FFF
    TileMaps(u16),
    /// 0xFE00 - 0xFE9F
    OAM(u16),
}

/// Registers in 0xFF00 - 0xFF7F
#[derive(Copy, Clone, Debug, PartialEq, Eq, Structural)]
pub enum IOReg {
    /// 0xFF00
    P1,
    Serial(SerialReg),
    Timer(TimerReg),
    /// 0xFF0F
    IF,
    Apu(ApuReg),
    Ppu(PpuReg),
    /// 0xFF46
    OamDma,
    /// 0xFF50
    BootRomDisable,
    /// Any other address of the IO area
    Unimplemented(u16),
}

#[derive(Copy, Clone, Debug, PartialEq, Eq, Structural)]
pub enum SerialReg {
    /// 0xFF01
    SB,
    /// 0xFF02
    SC,
}

#[derive(Copy, Clone, Debug, PartialEq, Eq, Structural)]
pub enum ApuReg {
    /// 0xFF14
    NR14,
    /// 0xFF24
    NR50,
    /// 0xFF25
    NR51,
    /// 0xFF26
    NR52,
}

#[derive(Copy, Clone, Debug, PartialEq, Eq, Structural)]
pub enum PpuReg {
    /// 0xFF40
    LCDC,
    /// 0xFF41
    LCDS,
    /// 0xFF42
    SCY,
    /// 0xFF43
    SCX,
    /// 0xFF44
    LY,
    /// 0xFF45
    LYC,
    /// 0xFF47
    BGP,
    /// 0xFF48
    OBP0,
    /// 0xFF49
    OBP1,
    /// 0xFF4A
    WY,
    /// 0xFF4B
    WX,
}

#[derive(Copy, Clone, Debug, PartialEq, Eq, Structural)]
pub enum TimerReg {
    /// 0xFF04
    DIV,
    /// 0xFF05
    TIMA,
    /// 0xFF06
    TMA,
    /// 0xFF07
    TAC,
}

/// The register at `addr`, for the registers that have a name.
pub open spec fn named_io_reg(addr: u16) -> Option<IOReg> {
    if addr == 0xFF00 {
        Some(IOReg::P1)
    } else if addr == 0xFF01 {
        Some(IOReg::Serial(SerialReg::SB))
    } else if addr == 0xFF02 {
        Some(IOReg::Serial(SerialReg::SC))
    } else if addr == 0xFF04 {
        Some(IOReg::Timer(TimerReg::DIV))
    } else if addr == 0xFF05 {
        Some(IOReg::Timer(TimerReg::TIMA))
    } else if addr == 0xFF06 {
        Some(IOReg::Timer(TimerReg::TMA))
    } else if addr == 0xFF07 {
        Some(IOReg::Timer(TimerReg::TAC))
    } else if addr == 0xFF0F {
        Some(IOReg::IF)
    } else if addr == 0xFF14 {
        Some(IOReg::Apu(ApuReg::NR14))
    } else if addr == 0xFF24 {
        Some(IOReg::Apu(ApuReg::NR50))
    } else if addr == 0xFF25 {
        Some(IOReg::Apu(ApuReg::NR51))
    } else if addr == 0xFF26 {
        Some(IOReg::Apu(ApuReg::NR52))
    } else if addr == 0xFF40 {
        Some(IOReg::Ppu(PpuReg::LCDC))
    } else if addr == 0xFF41 {
        Some(IOReg::Ppu(PpuReg::LCDS))
    } else if addr == 0xFF42 {
        Some(IOReg::Ppu(PpuReg::SCY))
    } else if addr == 0xFF43 {
        Some(IOReg::Ppu(PpuReg::SCX))
    } else if addr == 0xFF44 {
        Some(IOReg::Ppu(PpuReg::LY))
    } else if addr == 0xFF45 {
        Some(IOReg::Ppu(PpuReg::LYC))
    } else if addr == 0xFF46 {
        Some(IOReg::OamDma)
    } else if addr == 0xFF47 {
        Some(IOReg::Ppu(PpuReg::BGP))
    } else if addr == 0xFF48 {
        Some(IOReg::Ppu(PpuReg::OBP0))
    } else if addr == 0xFF49 {
        Some(IOReg::Ppu(PpuReg::OBP1))
    } else if addr == 0xFF4A {
        Some(IOReg::Ppu(PpuReg::WY))
    } else if addr == 0xFF4B {
        Some(IOReg::Ppu(PpuReg::WX))
    } else if addr == 0xFF50 {
        Some(IOReg::BootRomDisable)
    } else {
        None
    }
}

/// The IO register at `addr`: the named one, any other address of
/// 0xFF00 - 0xFF7F as `Unimplemented`, nothing outside that area.
pub open spec fn io_reg_at(addr: u16) -> Option<IOReg> {
    match named_io_reg(addr) {
        Some(r) => Some(r),
        None => if 0xFF00 <= addr <= 0xFF7F {
            Some(IOReg::Unimplemented(addr))
        } else {
            None
        },
    }
}

/// The address of an IO register.
pub open spec fn io_reg_addr(reg: IOReg) -> u16 {
    match reg {
        IOReg::P1 => 0xFF00,
        IOReg::Serial(SerialReg::SB) => 0xFF01,
        IOReg::Serial(SerialReg::SC) => 0xFF02,
        IOReg::Timer(TimerReg::DIV) => 0xFF04,
        IOReg::Timer(TimerReg::TIMA) => 0xFF05,
        IOReg::Timer(TimerReg::TMA) => 0xFF06,
        IOReg::Timer(TimerReg::TAC) => 0xFF07,
        IOReg::IF => 0xFF0F,
        IOReg::Apu(ApuReg::NR14) => 0xFF14,
        IOReg::Apu(ApuReg::NR50) => 0xFF24,
        IOReg::Apu(ApuReg::NR51) => 0xFF25,
        IOReg::Apu(ApuReg::NR52) => 0xFF26,
        IOReg::Ppu(PpuReg::LCDC) => 0xFF40,
        IOReg::Ppu(PpuReg::LCDS) => 0xFF41,
        IOReg::Ppu(PpuReg::SCY) => 0xFF42,
        IOReg::Ppu(PpuReg::SCX) => 0xFF43,
        IOReg::Ppu(PpuReg::LY) => 0xFF44,
        IOReg::Ppu(PpuReg::LYC) => 0xFF45,
        IOReg::OamDma => 0xFF46,
        IOReg::Ppu(PpuReg::BGP) => 0xFF47,
        IOReg::Ppu(PpuReg::OBP0) => 0xFF48,
        IOReg::Ppu(PpuReg::OBP1) => 0xFF49,
        IOReg::Ppu(PpuReg::WY) => 0xFF4A,
        IOReg::Ppu(PpuReg::WX) => 0xFF4B,
        IOReg::BootRomDisable => 0xFF50,
        IOReg::Unimplemented(a) => a,
    }
}

impl IOReg {
    /// Decodes an address of the IO area; fails outside 0xFF00 - 0xFF7F.
    pub fn try_from(addr: u16) -> (r: Result<IOReg, ()>)
        ensures
            r is Ok <==> io_reg_at(addr) is Some,
            r matches Ok(reg) ==> io_reg_at(addr) == Some(reg),
    {
        Ok(
            match addr {
                0xFF00 => IOReg::P1,
                0xFF01 => IOReg::Serial(SerialReg::SB),
                0xFF02 => IOReg::Serial(SerialReg::SC),
                0xFF04 => IOReg::Timer(TimerReg::DIV),
                0xFF05 => IOReg::Timer(TimerReg::TIMA),
                0xFF06 => IOReg::Timer(TimerReg::TMA),
                0xFF07 => IOReg::Timer(TimerReg::TAC),
                0xFF0F => IOReg::IF,
                0xFF14 => IOReg::Apu(ApuReg::NR14),
                0xFF24 => IOReg::Apu(ApuReg::NR50),
                0xFF25 => IOReg::Apu(ApuReg::NR51),
                0xFF26 => IOReg::Apu(ApuReg::NR52),
                0xFF40 => IOReg::Ppu(PpuReg::LCDC),
                0xFF41 => IOReg::Ppu(PpuReg::LCDS),
                0xFF42 => IOReg::Ppu(PpuReg::SCY),
                0xFF43 => IOReg::Ppu(PpuReg::SCX),
                0xFF44 => IOReg::Ppu(PpuReg::LY),
                0xFF45 => IOReg::Ppu(PpuReg::LYC),
                0xFF46 => IOReg::OamDma,
                0xFF47 => IOReg::Ppu(PpuReg::BGP),
                0xFF48 => IOReg::Ppu(PpuReg::OBP0),
                0xFF49 => IOReg::Ppu(PpuReg::OBP1),
                0xFF4A => IOReg::Ppu(PpuReg::WY),
                0xFF4B => IOReg::Ppu(PpuReg::WX),
                0xFF50 => IOReg::BootRomDisable,
                _ => {
                    if addr >= 0xFF00 && addr <= 0xFF7F {
                        IOReg::Unimplemented(addr)
                    } else {
                        return Err(());
                    }
                },
            },
        )
    }
}

/// What the CPU reaches at `addr`.
pub open spec fn decode(addr: u16) -> Addr {
    if addr < 0x4000 {
        Addr::Mem(MemAddr::CROM(CRomAddr::CROM0(addr)))
    } else if addr < 0x8000 {
        Addr::Mem(MemAddr::CROM(CRomAddr::CROMn((addr - 0x4000) as u16)))
    } else if addr < 0x9800 {
        Addr::VideoMem(VideoMemAddr::TileData((addr - 0x8000) as u16))
    } else if addr < 0xA000 {
        Addr::VideoMem(VideoMemAddr::TileMaps((addr - 0x9800) as u16))
    } else if addr < 0xC000 {
        Addr::Mem(MemAddr::CRAM(CRamAddr((addr - 0xA000) as u16)))
    } else if addr < 0xE000 {
        Addr::Mem(MemAddr::WRAM((addr - 0xC000) as u16))
    } else if addr < 0xFE00 {
        Addr::Mem(MemAddr::ECHO((addr - 0xE000) as u16))
    } else if addr < 0xFEA0 {
        Addr::VideoMem(VideoMemAddr::OAM((addr - 0xFE00) as u16))
    } else if addr < 0xFF00 {
        Addr::Unusable
    } else if addr < 0xFF80 {
        Addr::IO(io_reg_at(addr).unwrap())
    } else if addr < 0xFFFF {
        Addr::Mem(MemAddr::HRAM((addr - 0xFF80) as u16))
    } else {
        Addr::IE
    }
}

/// The address a decoded address stands for (the first one for `Unusable`).
pub open spec fn encode(a: Addr) -> u16 {
    match a {
        Addr::Mem(MemAddr::CROM(CRomAddr::CROM0(o))) => o,
        Addr::Mem(MemAddr::CROM(CRomAddr::CROMn(o))) => (o + 0x4000) as u16,
        Addr::VideoMem(VideoMemAddr::TileData(o)) => (o + 0x8000) as u16,
        Addr::VideoMem(VideoMemAddr::TileMaps(o)) => (o + 0x9800) as u16,
        Addr::Mem(MemAddr::CRAM(CRamAddr(o))) => (o + 0xA000) as u16,
        Addr::Mem(MemAddr::WRAM(o)) => (o + 0xC000) as u16,
        Addr::Mem(MemAddr::ECHO(o)) => (o + 0xE000) as u16,
        Addr::VideoMem(VideoMemAddr::OAM(o)) => (o + 0xFE00) as u16,
        Addr::Unusable => 0xFEA0,
        Addr::IO(reg) => io_reg_addr(reg),
        Addr::Mem(MemAddr::HRAM(o)) => (o + 0xFF80) as u16,
        Addr::IE => 0xFFFF,
    }
}

proof fn lemma_page(addr: u16)
    ensures
        addr & 0xF000 == (addr / 0x1000) * 0x1000,
        addr & 0xF000 <= addr,
        addr < (addr & 0xF000) + 0x1000,
{
    assert(addr & 0xF000 == (addr / 0x1000) * 0x1000) by (bit_vector);
    assert(addr & 0xF000 <= addr) by (bit_vector);
    assert(addr < (addr & 0xF000) + 0x1000) by (bit_vector);
}

impl From<u16> for Addr {
    fn from(addr: u16) -> (r: Addr) {
        proof {
            lemma_page(addr);
        }
        match addr & 0xF000 {
            0x0000 => Addr::Mem(MemAddr::CROM(CRomAddr::CROM0(addr))),
            0x1000 => Addr::Mem(MemAddr::CROM(CRomAddr::CROM0(addr))),
            0x2000 => Addr::Mem(MemAddr::CROM(CRomAddr::CROM0(addr))),
            0x3000 => Addr::Mem(MemAddr::CROM(CRomAddr::CROM0(addr))),
            0x4000 => Addr::Mem(MemAddr::CROM(CRomAddr::CROMn(addr - 0x4000))),
            0x5000 => Addr::Mem(MemAddr::CROM(CRomAddr::CROMn(addr - 0x4000))),
            0x6000 => Addr::Mem(MemAddr::CROM(CRomAddr::CROMn(addr - 0x4000))),
            0x7000 => Addr::Mem(MemAddr::CROM(CRomAddr::CROMn(addr - 0x4000))),
            0x8000 => Addr::VideoMem(VideoMemAddr::TileData(addr - 0x8000)),
            0x9000 => {
                if addr < 0x9800 {
                    Addr::VideoMem(VideoMemAddr::TileData(addr - 0x8000))
                } else {
                    Addr::VideoMem(VideoMemAddr::TileMaps(addr - 0x9800))
                }
            },
            0xA000 => Addr::Mem(MemAddr::CRAM(CRamAddr(addr - 0xA000))),
            0xB000 => Addr::Mem(MemAddr::CRAM(CRamAddr(addr - 0xA000))),
            0xC000 => Addr::Mem(MemAddr::WRAM(addr - 0xC000)),
            0xD000 => Addr::Mem(MemAddr::WRAM(addr - 0xC000)),
            0xE000 => Addr::Mem(MemAddr::ECHO(addr - 0xE000)),
            _ => {
                if addr == 0xFFFF {
                    Addr::IE
                } else if addr >= 0xFF80 {
                    Addr::Mem(MemAddr::HRAM(addr - 0xFF80))
                } else if addr >= 0xFF00 {
                    match IOReg::try_from(addr) {
                        Ok(reg) => Addr::IO(reg),
                        Err(_) => Addr::Unusable,
                    }
                } else if addr >= 0xFEA0 {
                    Addr::Unusable
                } else if addr >= 0xFE00 {
                    Addr::VideoMem(VideoMemAddr::OAM(addr - 0xFE00))
                } else {
                    Addr::Mem(MemAddr::ECHO(addr - 0xE000))
                }
            },
        }
    }
}

impl vstd::std_specs::convert::FromSpecImpl<u16> for Addr {
    open spec fn obeys_from_spec() -> bool {
        true
    }

    open spec fn from_spec(addr: u16) -> Addr {
        decode(addr)
    }
}

/// Decoding an address and encoding the result gives the address back, for
/// every address but those of the unusable area, which all decode alike.
pub proof fn law_decode_encode_roundtrip(addr: u16)
    requires
        !(0xFEA0 <= addr < 0xFF00),
    ensures
        encode(decode(addr)) == addr,
{
}

} // verus!
