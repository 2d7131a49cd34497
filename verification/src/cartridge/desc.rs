use vstd::prelude::*;

verus! {

/// Length of the cartridge header (0x100 - 0x14F).
pub const HEADER_LEN: usize = 0x50;

/// The cartridge header, 0x100 - 0x14F of the ROM.
pub struct CartridgeDesc {
    pub header: Vec<u8>,
}

/// The header checksum over bytes `from..to`: starting from 0, each byte
/// and one more are subtracted (mod 256).
pub open spec fn checksum_over(h: Seq<u8>, from: int, to: int) -> int
    decreases to - from,
{
    if to <= from {
        0
    } else {
        (checksum_over(h, from, to - 1) - h[to - 1] - 1) % 256
    }
}

/// The bytes of the title: up to 16 bytes from 0x34, ending at the first zero.
pub open spec fn title_len(h: Seq<u8>, k: nat) -> nat
    decreases 16 - k,
{
    if k >= 16 || h[0x34 + k as int] == 0 {
        k
    } else {
        title_len(h, k + 1)
    }
}

/// `String::from_utf8_lossy`, as text: the decoded characters of `bytes`,
/// with each invalid sequence replaced by U+FFFD.
pub uninterp spec fn utf8_lossy(bytes: Seq<u8>) -> Seq<char>;

/// `String::from_utf8_lossy(bytes).into_owned()`.
#[verifier::external_body]
fn string_from_utf8_lossy(bytes: &[u8]) -> (r: String)
    ensures
        r@ == utf8_lossy(bytes@),
{
    String::from_utf8_lossy(bytes).into_owned()
}

impl CartridgeDesc {
    pub open spec fn wf(&self) -> bool {
        self.header.len() == HEADER_LEN
    }

    /// The header held in `rom` (which must hold it).
    pub fn from_rom(rom: &Vec<u8>) -> (r: CartridgeDesc)
        requires
            rom.len() >= 0x150,
        ensures
            r.wf(),
            r.header@ == rom@.subrange(0x100, 0x150),
    {
        let mut header: Vec<u8> = Vec::new();
        let mut i: usize = 0x100;
        while i < 0x150
            invariant
                0x100 <= i <= 0x150,
                rom.len() >= 0x150,
                header@ == rom@.subrange(0x100, i as int),
            decreases 0x150 - i,
        {
            header.push(rom[i]);
            i = i + 1;
        }
        CartridgeDesc { header }
    }

    pub fn header(&self) -> (r: &[u8])
        ensures
            r@ == self.header@,
    {
        self.header.as_slice()
    }

    /// The bytes of the title (the title is only null-terminated when
    /// shorter than 16 bytes).
    pub fn title_bytes(&self) -> (r: Vec<u8>)
        requires
            self.wf(),
        ensures
            r@ == self.header@.subrange(0x34, 0x34 + title_len(self.header@, 0) as int),
    {
        let mut r: Vec<u8> = Vec::new();
        let mut k: usize = 0;
        while k < 16 && self.header[0x34 + k] != 0
            invariant
                self.wf(),
                k <= 16,
                title_len(self.header@, 0) == title_len(self.header@, k as nat),
                r@ == self.header@.subrange(0x34, 0x34 + k),
            decreases 16 - k,
        {
            r.push(self.header[0x34 + k]);
            k = k + 1;
        }
        r
    }

    /// The title, read as UTF-8 (ASCII titles read as themselves).
    pub fn title(&self) -> (r: String)
        requires
            self.wf(),
        ensures
            r@ == utf8_lossy(self.header@.subrange(0x34, 0x34 + title_len(self.header@, 0) as int)),
    {
        let bytes = self.title_bytes();
        string_from_utf8_lossy(bytes.as_slice())
    }

    pub fn cartridge_type(&self) -> (r: Option<CartridgeType>)
        requires
            self.wf(),
        ensures
            r == CartridgeType::of_code(self.header@[0x47]),
    {
        CartridgeType::from_code(self.header[0x47])
    }

    pub fn rom_size(&self) -> (r: Option<RomSize>)
        requires
            self.wf(),
        ensures
            r == RomSize::of_code(self.header@[0x48]),
    {
        RomSize::from_code(self.header[0x48])
    }

    pub fn ram_size(&self) -> (r: Option<RamSize>)
        requires
            self.wf(),
        ensures
            r == RamSize::of_code(self.header@[0x49]),
    {
        RamSize::from_code(self.header[0x49])
    }

    /// Whether the header checksum (0x14D) matches bytes 0x134 - 0x14C.
    pub fn has_valid_header(&self) -> (r: bool)
        requires
            self.wf(),
        ensures
            r == (self.header@[0x4D] == checksum_over(self.header@, 0x34, 0x4D)),
    {
        let mut checksum: u8 = 0;
        let mut i: usize = 0x34;
        while i <= 0x4C
            invariant
                self.wf(),
                0x34 <= i <= 0x4D,
                checksum == checksum_over(self.header@, 0x34, i as int),
            decreases 0x4D - i,
        {
            checksum = checksum.wrapping_sub(self.header[i]).wrapping_sub(1);
            i = i + 1;
        }
        self.header[0x4D] == checksum
    }
}

#[allow(non_camel_case_types)]
#[derive(Copy, Clone, Debug, PartialEq, Eq, Structural)]
pub enum CartridgeType {
    ROM_ONLY,
    MBC1,
    MBC1_RAM,
    MBC1_RAM_BATTERY,
    MBC2,
    MBC2_BATTERY,
    ROM_RAM,
    ROM_RAM_BATTERY,
    MMM01,
    MMM01_RAM,
    MMM01_RAM_BATTERY,
    MBC3_TIMER_BATTERY,
    MBC3_TIMER_RAM_BATTERY,
    MBC3,
    MBC3_RAM,
    MBC3_RAM_BATTERY,
    MBC4,
    MBC4_RAM,
    MBC4_RAM_BATTERY,
    MBC5,
    MBC5_RAM,
    MBC5_RAM_BATTERY,
    MBC5_RUMBLE,
    MBC5_RUMBLE_RAM,
    MBC5_RUMBLE_RAM_BATTERY,
    POCKET_CAMERA,
    BANDAI_TAMA5,
    HuC3,
    HuC1_RAM_BATTERY,
}

impl CartridgeType {
    /// The header code of each cartridge type.
    pub open spec fn code(self) -> u8 {
        match self {
            CartridgeType::ROM_ONLY => 0x00,
            CartridgeType::MBC1 => 0x01,
            CartridgeType::MBC1_RAM => 0x02,
            CartridgeType::MBC1_RAM_BATTERY => 0x03,
            CartridgeType::MBC2 => 0x05,
            CartridgeType::MBC2_BATTERY => 0x06,
            CartridgeType::ROM_RAM => 0x08,
            CartridgeType::ROM_RAM_BATTERY => 0x09,
            CartridgeType::MMM01 => 0x0B,
            CartridgeType::MMM01_RAM => 0x0C,
            CartridgeType::MMM01_RAM_BATTERY => 0x0D,
            CartridgeType::MBC3_TIMER_BATTERY => 0x0F,
            CartridgeType::MBC3_TIMER_RAM_BATTERY => 0x10,
            CartridgeType::MBC3 => 0x11,
            CartridgeType::MBC3_RAM => 0x12,
            CartridgeType::MBC3_RAM_BATTERY => 0x13,
            CartridgeType::MBC4 => 0x15,
            CartridgeType::MBC4_RAM => 0x16,
            CartridgeType::MBC4_RAM_BATTERY => 0x17,
            CartridgeType::MBC5 => 0x19,
            CartridgeType::MBC5_RAM => 0x1A,
            CartridgeType::MBC5_RAM_BATTERY => 0x1B,
            CartridgeType::MBC5_RUMBLE => 0x1C,
            CartridgeType::MBC5_RUMBLE_RAM => 0x1D,
            CartridgeType::MBC5_RUMBLE_RAM_BATTERY => 0x1E,
            CartridgeType::POCKET_CAMERA => 0xFC,
            CartridgeType::BANDAI_TAMA5 => 0xFD,
            CartridgeType::HuC3 => 0xFE,
            CartridgeType::HuC1_RAM_BATTERY => 0xFF,
        }
    }

    /// The cartridge type with header code `v`, if there is one.
    pub open spec fn of_code(v: u8) -> Option<CartridgeType> {
        if exists|t: CartridgeType| t.code() == v {
            Some(choose|t: CartridgeType| t.code() == v)
        } else {
            None
        }
    }

    pub fn from_code(v: u8) -> (r: Option<CartridgeType>)
        ensures
            r == CartridgeType::of_code(v),
    {
        let r = match v {
            0x00 => Some(CartridgeType::ROM_ONLY),
            0x01 => Some(CartridgeType::MBC1),
            0x02 => Some(CartridgeType::MBC1_RAM),
            0x03 => Some(CartridgeType::MBC1_RAM_BATTERY),
            0x05 => Some(CartridgeType::MBC2),
            0x06 => Some(CartridgeType::MBC2_BATTERY),
            0x08 => Some(CartridgeType::ROM_RAM),
            0x09 => Some(CartridgeType::ROM_RAM_BATTERY),
            0x0B => Some(CartridgeType::MMM01),
            0x0C => Some(CartridgeType::MMM01_RAM),
            0x0D => Some(CartridgeType::MMM01_RAM_BATTERY),
            0x0F => Some(CartridgeType::MBC3_TIMER_BATTERY),
            0x10 => Some(CartridgeType::MBC3_TIMER_RAM_BATTERY),
            0x11 => Some(CartridgeType::MBC3),
            0x12 => Some(CartridgeType::MBC3_RAM),
            0x13 => Some(CartridgeType::MBC3_RAM_BATTERY),
            0x15 => Some(CartridgeType::MBC4),
            0x16 => Some(CartridgeType::MBC4_RAM),
            0x17 => Some(CartridgeType::MBC4_RAM_BATTERY),
            0x19 => Some(CartridgeType::MBC5),
            0x1A => Some(CartridgeType::MBC5_RAM),
            0x1B => Some(CartridgeType::MBC5_RAM_BATTERY),
            0x1C => Some(CartridgeType::MBC5_RUMBLE),
            0x1D => Some(CartridgeType::MBC5_RUMBLE_RAM),
            0x1E => Some(CartridgeType::MBC5_RUMBLE_RAM_BATTERY),
            0xFC => Some(CartridgeType::POCKET_CAMERA),
            0xFD => Some(CartridgeType::BANDAI_TAMA5),
            0xFE => Some(CartridgeType::HuC3),
            0xFF => Some(CartridgeType::HuC1_RAM_BATTERY),
            _ => None,
        };
        proof {
            match r {
                Some(t) => {
                    assert(t.code() == v);
                    assert forall|u: CartridgeType| u.code() == v implies u == t by {
                    }
                },
                None => {
                    assert forall|u: CartridgeType| u.code() != v by {
                    }
                },
            }
        }
        r
    }
}

#[derive(Copy, Clone, Debug, PartialEq, Eq, Structural)]
pub enum RomSize {
    RomNoBanking,
    Rom4Banks,
    Rom8Banks,
    Rom16Banks,
    Rom32Banks,
    /// only 63 banks used by MBC1
    Rom64Banks,
    /// only 125 banks used by MBC1
    Rom128Banks,
    Rom256Banks,
    Rom72Banks,
    Rom80Banks,
    Rom96Banks,
}

impl RomSize {
    pub open spec fn code(self) -> u8 {
        match self {
            RomSize::RomNoBanking => 0x00,
            RomSize::Rom4Banks => 0x01,
            RomSize::Rom8Banks => 0x02,
            RomSize::Rom16Banks => 0x03,
            RomSize::Rom32Banks => 0x04,
            RomSize::Rom64Banks => 0x05,
            RomSize::Rom128Banks => 0x06,
            RomSize::Rom256Banks => 0x07,
            RomSize::Rom72Banks => 0x52,
            RomSize::Rom80Banks => 0x53,
            RomSize::Rom96Banks => 0x54,
        }
    }

    pub open spec fn of_code(v: u8) -> Option<RomSize> {
        if exists|t: RomSize| t.code() == v {
            Some(choose|t: RomSize| t.code() == v)
        } else {
            None
        }
    }

    pub fn from_code(v: u8) -> (r: Option<RomSize>)
        ensures
            r == RomSize::of_code(v),
    {
        let r = match v {
            0x00 => Some(RomSize::RomNoBanking),
            0x01 => Some(RomSize::Rom4Banks),
            0x02 => Some(RomSize::Rom8Banks),
            0x03 => Some(RomSize::Rom16Banks),
            0x04 => Some(RomSize::Rom32Banks),
            0x05 => Some(RomSize::Rom64Banks),
            0x06 => Some(RomSize::Rom128Banks),
            0x07 => Some(RomSize::Rom256Banks),
            0x52 => Some(RomSize::Rom72Banks),
            0x53 => Some(RomSize::Rom80Banks),
            0x54 => Some(RomSize::Rom96Banks),
            _ => None,
        };
        proof {
            match r {
                Some(t) => {
                    assert(t.code() == v);
                    assert forall|u: RomSize| u.code() == v implies u == t by {
                    }
                },
                None => {
                    assert forall|u: RomSize| u.code() != v by {
                    }
                },
            }
        }
        r
    }
}

#[derive(Copy, Clone, Debug, PartialEq, Eq, Structural)]
pub enum RamSize {
    RamNone,
    Ram2Kb,
    Ram8Kb,
    /// 4 banks of 8 KBytes each
    Ram32Kb,
}

impl RamSize {
    pub open spec fn code(self) -> u8 {
        match self {
            RamSize::RamNone => 0x00,
            RamSize::Ram2Kb => 0x01,
            RamSize::Ram8Kb => 0x02,
            RamSize::Ram32Kb => 0x03,
        }
    }

    /// Size in bytes.
    pub open spec fn bytes(self) -> nat {
        match self {
            RamSize::RamNone => 0,
            RamSize::Ram2Kb => 0x800,
            RamSize::Ram8Kb => 0x2000,
            RamSize::Ram32Kb => 0x8000,
        }
    }

    pub fn byte_len(self) -> (r: usize)
        ensures
            r == self.bytes(),
    {
        match self {
            RamSize::RamNone => 0,
            RamSize::Ram2Kb => 0x800,
            RamSize::Ram8Kb => 0x2000,
            RamSize::Ram32Kb => 0x8000,
        }
    }

    pub open spec fn of_code(v: u8) -> Option<RamSize> {
        if v == 0 {
            Some(RamSize::RamNone)
        } else if v == 1 {
            Some(RamSize::Ram2Kb)
        } else if v == 2 {
            Some(RamSize::Ram8Kb)
        } else if v == 3 {
            Some(RamSize::Ram32Kb)
        } else {
            None
        }
    }

    pub fn from_code(v: u8) -> (r: Option<RamSize>)
        ensures
            r == RamSize::of_code(v),
            r matches Some(s) ==> s.code() == v,
    {
        match v {
            0x00 => Some(RamSize::RamNone),
            0x01 => Some(RamSize::Ram2Kb),
            0x02 => Some(RamSize::Ram8Kb),
            0x03 => Some(RamSize::Ram32Kb),
            _ => None,
        }
    }
}

} // verus!
