use vstd::prelude::*;
use super::Cartridge;
use super::cram::{NoCRAM, CRAMUnbanked};
use super::desc::{CartridgeDesc, CartridgeType, RomSize, RamSize, checksum_over};
use super::mbc::{NoMBC, MBC1, MBC1Mode, CartridgeMBC};

verus! {

/// The cartridges that can be emulated.
pub enum CartridgeVariant {
    RomOnly(Cartridge<NoMBC<NoCRAM>>),
    MBC1NoRam(Cartridge<MBC1<NoCRAM>>),
    MBC1UnbankedRamNoBat(Cartridge<MBC1<CRAMUnbanked>>),
    MBC1UnbankedRamBat(Cartridge<MBC1<CRAMUnbanked>>),
}

/// Why a ROM image is not accepted.
#[derive(Copy, Clone, Debug, PartialEq, Eq, Structural)]
pub enum CartridgeParseError {
    /// Size is not a multiple of 0x4000 (or smaller than 0x8000)
    InvalidSize,
    /// Header checksum is incorrect
    InvalidChecksum,
    /// Header declares unknown cartridge type
    InvalidCartridgeType,
    /// Header declares unknown ROM size
    InvalidRomSize,
    /// Header declares unknown RAM size
    InvalidRamSize,
    /// Header MIGHT be valid, but this combination of cartridge type, ROM
    /// size and RAM size is currently not supported.
    Unsupported(CartridgeType, RomSize, RamSize),
}

/// Which variant a ROM image becomes.
#[derive(Copy, Clone, Debug, PartialEq, Eq, Structural)]
pub enum VariantKind {
    RomOnly,
    MBC1NoRam,
    MBC1UnbankedRamNoBat,
    MBC1UnbankedRamBat,
}

pub open spec fn size_ok(rom: Seq<u8>) -> bool {
    rom.len() >= 0x8000 && rom.len() % 0x4000 == 0
}

pub open spec fn header_of(rom: Seq<u8>) -> Seq<u8> {
    rom.subrange(0x100, 0x150)
}

pub open spec fn checksum_ok(rom: Seq<u8>) -> bool {
    header_of(rom)[0x4D] == checksum_over(header_of(rom), 0x34, 0x4D)
}

pub open spec fn is_rom_only(t: CartridgeType) -> bool {
    t == CartridgeType::ROM_ONLY || t == CartridgeType::ROM_RAM || t == CartridgeType::ROM_RAM_BATTERY
}

pub open spec fn is_mbc1_ram(t: CartridgeType) -> bool {
    t == CartridgeType::MBC1_RAM || t == CartridgeType::MBC1_RAM_BATTERY
}

/// The outcome of reading a ROM image: the variant or the error.
pub open spec fn parse_outcome(rom: Seq<u8>) -> Result<VariantKind, CartridgeParseError> {
    if !size_ok(rom) {
        Err(CartridgeParseError::InvalidSize)
    } else if !checksum_ok(rom) {
        Err(CartridgeParseError::InvalidChecksum)
    } else {
        let h = header_of(rom);
        match CartridgeType::of_code(h[0x47]) {
            None => Err(CartridgeParseError::InvalidCartridgeType),
            Some(ctype) => match RomSize::of_code(h[0x48]) {
                None => Err(CartridgeParseError::InvalidRomSize),
                Some(rom_size) => match RamSize::of_code(h[0x49]) {
                    None => Err(CartridgeParseError::InvalidRamSize),
                    Some(ram_size) => {
                        let err = Err(CartridgeParseError::Unsupported(ctype, rom_size, ram_size));
                        if is_rom_only(ctype) {
                            Ok(VariantKind::RomOnly)
                        } else if ctype == CartridgeType::MBC1 {
                            if ram_size == RamSize::RamNone {
                                Ok(VariantKind::MBC1NoRam)
                            } else {
                                err
                            }
                        } else if ctype == CartridgeType::MBC1_RAM {
                            if ram_size == RamSize::RamNone {
                                err
                            } else {
                                Ok(VariantKind::MBC1UnbankedRamNoBat)
                            }
                        } else if ctype == CartridgeType::MBC1_RAM_BATTERY {
                            if ram_size == RamSize::RamNone {
                                err
                            } else {
                                Ok(VariantKind::MBC1UnbankedRamBat)
                            }
                        } else {
                            err
                        }
                    },
                },
            },
        }
    }
}

/// Images whose header declares a combination that is not implemented:
/// ROM-only cartridges with RAM, and MBC1 cartridges with 32 KiB of RAM.
pub open spec fn unimplemented_combination(rom: Seq<u8>) -> bool {
    &&& parse_outcome(rom) is Ok
    &&& {
        let h = header_of(rom);
        let ctype = CartridgeType::of_code(h[0x47]).unwrap();
        let ram_size = RamSize::of_code(h[0x49]).unwrap();
        ||| is_rom_only(ctype) && ram_size != RamSize::RamNone
        ||| is_mbc1_ram(ctype) && ram_size == RamSize::Ram32Kb
    }
}

/// An MBC1 in its start state: bank 1, ROM banking mode, RAM disabled.
pub open spec fn mbc1_fresh<CRAM>(m: MBC1<CRAM>) -> bool {
    &&& m.mapped_bank_index == 1
    &&& m.mode == MBC1Mode::RomBanking
    &&& !m.ram_enabled
}

/// Cartridge RAM of `size` bytes, all zero.
pub open spec fn cram_fresh(c: CRAMUnbanked, size: RamSize) -> bool {
    &&& c.mem@.len() == size.bytes()
    &&& forall|i: int| 0 <= i < c.mem@.len() ==> #[trigger] c.mem@[i] == 0
}

impl CartridgeVariant {
    pub open spec fn kind(&self) -> VariantKind {
        match self {
            CartridgeVariant::RomOnly(_) => VariantKind::RomOnly,
            CartridgeVariant::MBC1NoRam(_) => VariantKind::MBC1NoRam,
            CartridgeVariant::MBC1UnbankedRamNoBat(_) => VariantKind::MBC1UnbankedRamNoBat,
            CartridgeVariant::MBC1UnbankedRamBat(_) => VariantKind::MBC1UnbankedRamBat,
        }
    }

    pub open spec fn rom(&self) -> Seq<u8> {
        match self {
            CartridgeVariant::RomOnly(c) => c.0.rom@,
            CartridgeVariant::MBC1NoRam(c) => c.0.rom@,
            CartridgeVariant::MBC1UnbankedRamNoBat(c) => c.0.rom@,
            CartridgeVariant::MBC1UnbankedRamBat(c) => c.0.rom@,
        }
    }

    /// The cartridge as plugged in: an MBC1 maps bank 1 in ROM banking mode
    /// with its RAM disabled, and cartridge RAM is `ram_size` of zeros.
    pub open spec fn fresh(&self, ram_size: RamSize) -> bool {
        match self {
            CartridgeVariant::RomOnly(_) => true,
            CartridgeVariant::MBC1NoRam(c) => mbc1_fresh(c.0),
            CartridgeVariant::MBC1UnbankedRamNoBat(c) => mbc1_fresh(c.0) && cram_fresh(c.0.cram, ram_size),
            CartridgeVariant::MBC1UnbankedRamBat(c) => mbc1_fresh(c.0) && cram_fresh(c.0.cram, ram_size),
        }
    }

    pub open spec fn inv(&self) -> bool {
        match self {
            CartridgeVariant::RomOnly(c) => c.0.inv(),
            CartridgeVariant::MBC1NoRam(c) => c.0.inv(),
            CartridgeVariant::MBC1UnbankedRamNoBat(c) => c.0.inv(),
            CartridgeVariant::MBC1UnbankedRamBat(c) => c.0.inv(),
        }
    }

    /// Whether the header of `rom` declares a combination that is not
    /// implemented (`from_rom` must not be given such an image).
    pub fn is_unimplemented(rom: &Vec<u8>) -> (r: bool)
        ensures
            r == unimplemented_combination(rom@),
    {
        match Self::checked_header(rom) {
            Ok((ctype, _rom_size, ram_size)) => {
                (matches!(ctype, CartridgeType::ROM_ONLY | CartridgeType::ROM_RAM | CartridgeType::ROM_RAM_BATTERY)
                    && !matches!(ram_size, RamSize::RamNone))
                    || (matches!(ctype, CartridgeType::MBC1_RAM | CartridgeType::MBC1_RAM_BATTERY)
                    && matches!(ram_size, RamSize::Ram32Kb))
            },
            Err(_) => false,
        }
    }

    /// Size, checksum and the three header codes of `rom`.
    fn checked_header(rom: &Vec<u8>) -> (r: Result<(CartridgeType, RomSize, RamSize), CartridgeParseError>)
        ensures
            ({
                let h = header_of(rom@);
                match r {
                    Ok((t, rs, ms)) => {
                        &&& size_ok(rom@)
                        &&& checksum_ok(rom@)
                        &&& CartridgeType::of_code(h[0x47]) == Some(t)
                        &&& RomSize::of_code(h[0x48]) == Some(rs)
                        &&& RamSize::of_code(h[0x49]) == Some(ms)
                    },
                    Err(e) => {
                        &&& parse_outcome(rom@) == Err::<VariantKind, CartridgeParseError>(e)
                        &&& !(e is Unsupported)
                    },
                }
            }),
    {
        // This condition sets up an important invariant that a lot of code relies upon,
        // for example the MBC code.
        if rom.len() < 0x8000 || rom.len() % 0x4000 != 0 {
            return Err(CartridgeParseError::InvalidSize);
        }
        let header = CartridgeDesc::from_rom(rom);
        if !header.has_valid_header() {
            return Err(CartridgeParseError::InvalidChecksum);
        }
        let ctype = match header.cartridge_type() {
            Some(t) => t,
            None => return Err(CartridgeParseError::InvalidCartridgeType),
        };
        let rom_size = match header.rom_size() {
            Some(s) => s,
            None => return Err(CartridgeParseError::InvalidRomSize),
        };
        let ram_size = match header.ram_size() {
            Some(s) => s,
            None => return Err(CartridgeParseError::InvalidRamSize),
        };
        Ok((ctype, rom_size, ram_size))
    }

    /// Reads a ROM image into the variant its header declares.
    pub fn from_rom(rom: Vec<u8>) -> (r: Result<CartridgeVariant, CartridgeParseError>)
        requires
            !unimplemented_combination(rom@),
        ensures
            r is Ok <==> parse_outcome(rom@) is Ok,
            r matches Ok(v) ==> (Ok::<VariantKind, CartridgeParseError>(v.kind()) == parse_outcome(rom@)
                && v.rom() == rom@ && v.inv()),
            r matches Ok(v) ==> v.fresh(RamSize::of_code(header_of(rom@)[0x49]).unwrap()),
            r matches Err(e) ==> Err::<VariantKind, CartridgeParseError>(e) == parse_outcome(rom@),
    {
        let (ctype, rom_size, ram_size) = match Self::checked_header(&rom) {
            Ok(h) => h,
            Err(e) => return Err(e),
        };
        let err = Err(CartridgeParseError::Unsupported(ctype, rom_size, ram_size));
        match ctype {
            CartridgeType::ROM_ONLY | CartridgeType::ROM_RAM | CartridgeType::ROM_RAM_BATTERY => {
                Ok(CartridgeVariant::RomOnly(Cartridge::new(NoMBC::new(rom, NoCRAM))))
            },
            CartridgeType::MBC1 => match ram_size {
                RamSize::RamNone => Ok(CartridgeVariant::MBC1NoRam(Cartridge::new(MBC1::new(rom, NoCRAM)))),
                _ => err,
            },
            CartridgeType::MBC1_RAM => match ram_size {
                RamSize::RamNone => err,
                _ => Ok(
                    CartridgeVariant::MBC1UnbankedRamNoBat(
                        Cartridge::new(MBC1::new(rom, CRAMUnbanked::new(ram_size))),
                    ),
                ),
            },
            CartridgeType::MBC1_RAM_BATTERY => match ram_size {
                RamSize::RamNone => err,
                _ => Ok(
                    CartridgeVariant::MBC1UnbankedRamBat(
                        Cartridge::new(MBC1::new(rom, CRAMUnbanked::new(ram_size))),
                    ),
                ),
            },
            _ => err,
        }
    }
}

} // verus!
