use maboy::cartridge::desc::{CartridgeDesc, CartridgeType, RamSize, RomSize};
use maboy::cartridge::variant::{CartridgeParseError, CartridgeVariant};
use maboy::emulator::Emulator;

/// A ROM image of `len` bytes with a header declaring `ctype`, `rom_size`
/// and `ram_size` and a correct checksum. The first byte of every bank
/// holds the bank's number.
fn rom_image(len: usize, ctype: u8, rom_size: u8, ram_size: u8) -> Vec<u8> {
    let mut rom = vec![0u8; len];
    for bank in 0..len / 0x4000 {
        rom[bank * 0x4000] = bank as u8;
    }
    for (i, b) in b"TESTGAME".iter().enumerate() {
        rom[0x134 + i] = *b;
    }
    rom[0x147] = ctype;
    rom[0x148] = rom_size;
    rom[0x149] = ram_size;
    let mut checksum = 0u8;
    for i in 0x134..=0x14C {
        checksum = checksum.wrapping_sub(rom[i]).wrapping_sub(1);
    }
    rom[0x14D] = checksum;
    rom
}

#[test]
fn rom_only_cartridge_is_accepted() {
    let rom = rom_image(0x8000, 0x00, 0x00, 0x00);
    assert!(!CartridgeVariant::is_unimplemented(&rom));
    assert!(matches!(CartridgeVariant::from_rom(rom), Ok(CartridgeVariant::RomOnly(_))));
}

#[test]
fn mbc1_cartridges_are_accepted() {
    let rom = rom_image(0x10000, 0x01, 0x01, 0x00);
    assert!(matches!(CartridgeVariant::from_rom(rom), Ok(CartridgeVariant::MBC1NoRam(_))));
    let rom = rom_image(0x10000, 0x02, 0x01, 0x02);
    assert!(matches!(CartridgeVariant::from_rom(rom), Ok(CartridgeVariant::MBC1UnbankedRamNoBat(_))));
    let rom = rom_image(0x10000, 0x03, 0x01, 0x01);
    assert!(matches!(CartridgeVariant::from_rom(rom), Ok(CartridgeVariant::MBC1UnbankedRamBat(_))));
}

#[test]
fn parse_errors() {
    let rom = rom_image(0x8000, 0x00, 0x00, 0x00);
    let short = rom[..0x6000].to_vec();
    assert_eq!(CartridgeVariant::from_rom(short).err(), Some(CartridgeParseError::InvalidSize));
    let mut odd = rom.clone();
    odd.push(0);
    assert_eq!(CartridgeVariant::from_rom(odd).err(), Some(CartridgeParseError::InvalidSize));
    let mut bad = rom.clone();
    bad[0x14D] = bad[0x14D].wrapping_add(1);
    assert_eq!(CartridgeVariant::from_rom(bad).err(), Some(CartridgeParseError::InvalidChecksum));
    let rom = rom_image(0x8000, 0x04, 0x00, 0x00);
    assert_eq!(CartridgeVariant::from_rom(rom).err(), Some(CartridgeParseError::InvalidCartridgeType));
    let rom = rom_image(0x8000, 0x00, 0x20, 0x00);
    assert_eq!(CartridgeVariant::from_rom(rom).err(), Some(CartridgeParseError::InvalidRomSize));
    let rom = rom_image(0x8000, 0x00, 0x00, 0x07);
    assert_eq!(CartridgeVariant::from_rom(rom).err(), Some(CartridgeParseError::InvalidRamSize));
}

#[test]
fn unsupported_combinations() {
    let rom = rom_image(0x8000, 0x05, 0x00, 0x00);
    assert_eq!(
        CartridgeVariant::from_rom(rom).err(),
        Some(CartridgeParseError::Unsupported(CartridgeType::MBC2, RomSize::RomNoBanking, RamSize::RamNone))
    );
    let rom = rom_image(0x10000, 0x01, 0x01, 0x02);
    assert_eq!(
        CartridgeVariant::from_rom(rom).err(),
        Some(CartridgeParseError::Unsupported(CartridgeType::MBC1, RomSize::Rom4Banks, RamSize::Ram8Kb))
    );
    let rom = rom_image(0x10000, 0x02, 0x01, 0x00);
    assert_eq!(
        CartridgeVariant::from_rom(rom).err(),
        Some(CartridgeParseError::Unsupported(CartridgeType::MBC1_RAM, RomSize::Rom4Banks, RamSize::RamNone))
    );
}

#[test]
fn unimplemented_combinations_are_reported() {
    assert!(CartridgeVariant::is_unimplemented(&rom_image(0x8000, 0x08, 0x00, 0x02)));
    assert!(CartridgeVariant::is_unimplemented(&rom_image(0x10000, 0x02, 0x01, 0x03)));
    assert!(!CartridgeVariant::is_unimplemented(&rom_image(0x10000, 0x02, 0x01, 0x02)));
    assert!(!CartridgeVariant::is_unimplemented(&rom_image(0x7000, 0x08, 0x00, 0x02)));
}

#[test]
fn header_fields() {
    let rom = rom_image(0x10000, 0x01, 0x01, 0x00);
    let desc = CartridgeDesc::from_rom(&rom);
    assert!(desc.has_valid_header());
    assert_eq!(desc.title(), "TESTGAME");
    assert_eq!(desc.title_bytes(), b"TESTGAME".to_vec());
    assert_eq!(desc.cartridge_type(), Some(CartridgeType::MBC1));
    assert_eq!(desc.rom_size(), Some(RomSize::Rom4Banks));
    assert_eq!(desc.ram_size(), Some(RamSize::RamNone));
    assert_eq!(CartridgeType::from_code(0x13), Some(CartridgeType::MBC3_RAM_BATTERY));
    assert_eq!(CartridgeType::from_code(0x04), None);
    assert_eq!(RamSize::Ram32Kb.byte_len(), 0x8000);
}

#[test]
fn mbc1_switches_banks_and_skips_bank_zero() {
    let rom = rom_image(0x10000, 0x01, 0x01, 0x00);
    let cart = match CartridgeVariant::from_rom(rom) {
        Ok(CartridgeVariant::MBC1NoRam(c)) => c,
        _ => panic!("not an MBC1 cartridge"),
    };
    let mut emu = Emulator::new(cart);
    emu.board.write8(0xFF50, 0x01);
    assert_eq!(emu.board.read8(0x4000), 1);
    emu.board.write8(0x2000, 0x03);
    assert_eq!(emu.board.read8(0x4000), 3);
    emu.board.write8(0x2000, 0x00);
    assert_eq!(emu.board.read8(0x4000), 1);
    emu.board.write8(0x2000, 0x02);
    assert_eq!(emu.board.read8(0x4000), 2);
    assert_eq!(emu.board.read8(0x0000), 0);
}

#[test]
fn mbc1_upper_bank_bits_come_from_0x4000() {
    let rom = rom_image(0x100000, 0x01, 0x05, 0x00);
    let cart = match CartridgeVariant::from_rom(rom) {
        Ok(CartridgeVariant::MBC1NoRam(c)) => c,
        _ => panic!("not an MBC1 cartridge"),
    };
    let mut emu = Emulator::new(cart);
    emu.board.write8(0xFF50, 0x01);
    assert_eq!(emu.board.read8(0x4000), 1);
    emu.board.write8(0x4000, 0x01);
    assert_eq!(emu.board.read8(0x4000), 0x21);
    emu.board.write8(0x2000, 0x05);
    assert_eq!(emu.board.read8(0x4000), 0x25);
    emu.board.write8(0x2000, 0x00);
    assert_eq!(emu.board.read8(0x4000), 0x21);
}

#[test]
fn mbc1_cartridge_ram_keeps_bytes() {
    let rom = rom_image(0x10000, 0x02, 0x01, 0x02);
    let cart = match CartridgeVariant::from_rom(rom) {
        Ok(CartridgeVariant::MBC1UnbankedRamNoBat(c)) => c,
        _ => panic!("not an MBC1 cartridge with RAM"),
    };
    let mut emu = Emulator::new(cart);
    emu.board.write8(0x0000, 0x0A);
    emu.board.write8(0xA000, 0x12);
    emu.board.write8(0xBFFF, 0x34);
    assert_eq!(emu.board.read8(0xA000), 0x12);
    assert_eq!(emu.board.read8(0xBFFF), 0x34);
}

#[test]
fn mbc1_starts_at_bank_one_with_cleared_disabled_ram() {
    let rom = rom_image(0x10000, 0x02, 0x01, 0x02);
    match CartridgeVariant::from_rom(rom) {
        Ok(CartridgeVariant::MBC1UnbankedRamNoBat(c)) => {
            let m = &c.0;
            assert_eq!(m.mapped_bank_index, 1);
            assert!(matches!(m.mode, maboy::cartridge::mbc::MBC1Mode::RomBanking));
            assert!(!m.ram_enabled);
            assert_eq!(m.cram.mem.len(), RamSize::Ram8Kb.byte_len());
            assert!(m.cram.mem.iter().all(|b| *b == 0));
        }
        _ => panic!("not an MBC1 cartridge with RAM"),
    }
}
