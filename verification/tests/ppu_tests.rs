use maboy::cartridge::cram::NoCRAM;
use maboy::cartridge::mbc::NoMBC;
use maboy::cartridge::Cartridge;
use maboy::emulator::Emulator;
use maboy::ppu::mem_frame::{MemPixel, WIDTH};
use maboy::ppu::VideoFrameStatus;
use maboy::ppu::color::Color;
use maboy::ppu::lcdc::LCDC;
use maboy::ppu::lcds::LCDS;
use maboy::ppu::oam::OAM;
use maboy::ppu::palette::Palette;
use maboy::ppu::tile_data::{TileData, TileRow, TileRowAddr};

#[test]
fn palette_maps_colors_to_shades() {
    let p = Palette(0b11_10_01_00);
    assert_eq!(p.apply(0).into_raw(), 0);
    assert_eq!(p.apply(1).into_raw(), 1);
    assert_eq!(p.apply(2).into_raw(), 2);
    assert_eq!(p.apply(3).into_raw(), 3);
    let q = Palette(0b00_01_10_11);
    assert_eq!(q.apply(0).into_raw(), 3);
    assert_eq!(q.apply(3).into_raw(), 0);
}

#[test]
fn lcdc_flags() {
    let lcdc = LCDC(0b1001_0001);
    assert!(lcdc.lcd_enabled());
    assert!(lcdc.bg_enabled());
    assert!(!lcdc.window_enabled());
    assert!(!lcdc.sprites_enabled());
    // Addresses are offsets into video memory (0x8000)
    assert_eq!(lcdc.bg_window_tile_data_addr(), 0x0000);
    assert_eq!(lcdc.bg_tile_map_addr(), 0x1800);
    assert_eq!(lcdc.window_tile_map_addr(), 0x1800);
    let lcdc = LCDC(0b0110_1000);
    assert!(!lcdc.lcd_enabled());
    assert_eq!(lcdc.window_tile_map_addr(), 0x1C00);
    assert_eq!(lcdc.bg_tile_map_addr(), 0x1C00);
    assert_eq!(lcdc.bg_window_tile_data_addr(), 0x0800);
}

#[test]
fn lcds_write_keeps_read_only_bits() {
    let mut lcds = LCDS::from_raw(0b0000_0110);
    lcds.write(0xFF);
    // Bit 7 always reads as set
    assert_eq!(lcds.read(), 0b1111_1110);
    assert!(lcds.ly_coincidence_interrupt());
    assert!(lcds.oam_search_interrupt());
    assert!(lcds.v_blank_interrupt());
    assert!(lcds.h_blank_interrupt());
    assert!(lcds.lyc_equals_ly());
    lcds.set_lyc_equals_ly(false);
    assert!(!lcds.lyc_equals_ly());
}

#[test]
fn colors() {
    assert!(Color::from_u8_lsb(0b1111_1100).is_zero());
    assert_eq!(Color::from_u8_lsb(0b1111_1110).into_raw(), 2);
}

#[test]
fn tile_rows_are_decoded_after_rebuild() {
    let mut tiles = TileData::new();
    // Row 0 of tile 1: low bits 0b1010_0000, high bits 0b1100_0000
    tiles.write(16, 0b1010_0000);
    tiles.write(17, 0b1100_0000);
    assert_eq!(tiles.read(16), 0b1010_0000);
    tiles.rebuild();
    let mut row = tiles.get_row(TileRowAddr::from_sprite_tile_id(1, 0));
    let colors: Vec<u8> = (0..8).map(|_| row.pop_leftmost().into_raw()).collect();
    assert_eq!(colors, vec![3, 2, 1, 0, 0, 0, 0, 0]);
    let mut rev = tiles.get_row_reverse(TileRowAddr::from_sprite_tile_id(1, 0));
    let colors: Vec<u8> = (0..8).map(|_| rev.pop_leftmost().into_raw()).collect();
    assert_eq!(colors, vec![0, 0, 0, 0, 0, 1, 2, 3]);
}

#[test]
fn rewritten_tiles_are_decoded_again() {
    let mut tiles = TileData::new();
    tiles.write(0, 0xFF);
    tiles.rebuild();
    tiles.write(0, 0x00);
    tiles.write(1, 0xFF);
    tiles.rebuild();
    let mut row = tiles.get_row(TileRowAddr::from_sprite_tile_id(0, 0));
    assert_eq!(row.pop_leftmost().into_raw(), 2);
}

#[test]
fn a_frame_shows_the_background_tile() {
    let mut emu = Emulator::new(Cartridge::new(NoMBC::new(vec![0u8; 0x8000], NoCRAM)));
    // Row 0 of tile 0: color 1 everywhere; all other rows color 0
    emu.board.write8(0x8000, 0xFF);
    emu.board.write8(0x8001, 0x00);
    // Identity palette, LCD and background on, tiles at 0x8000, map at 0x9800
    emu.board.write8(0xFF47, 0b11_10_01_00);
    emu.board.write8(0xFF40, 0x91);
    let mut frame: Option<Vec<MemPixel>> = None;
    for _ in 0..(154 * 114 * 2) {
        emu.board.advance_mcycle();
        if let VideoFrameStatus::Ready(data) = emu.query_video_frame_status() {
            frame = Some(data.to_vec());
            break;
        }
    }
    let frame = frame.expect("no frame after two frames' worth of cycles");
    let light = MemPixel::new(239, 255, 222, 255);
    let shade1 = MemPixel::new(173, 215, 148, 255);
    assert_eq!(frame[0], shade1);
    assert_eq!(frame[WIDTH - 1], shade1);
    assert_eq!(frame[8 * WIDTH], shade1);
    assert_eq!(frame[WIDTH], light);
    assert_eq!(frame[7 * WIDTH + 3], light);
}

fn put_sprite(oam: &mut OAM, index: u16, y: u8, x: u8, tile: u8) {
    oam.write(index * 4, y);
    oam.write(index * 4 + 1, x);
    oam.write(index * 4 + 2, tile);
    oam.write(index * 4 + 3, 0);
}

#[test]
fn sprites_in_line_come_by_x_then_by_index() {
    let mut oam = OAM::new();
    put_sprite(&mut oam, 3, 20, 50, 7);
    put_sprite(&mut oam, 1, 20, 50, 9);
    put_sprite(&mut oam, 0, 20, 30, 5);
    // Off the line looked at (covers lines 24..32).
    put_sprite(&mut oam, 2, 40, 10, 1);
    oam.rebuild();
    let tiles: Vec<u8> = oam.sprites_in_line(4).iter().map(|s| s.id).collect();
    assert_eq!(tiles, vec![5, 9, 7]);
    assert!(oam.sprites_in_line(12).is_empty());
}

#[test]
fn at_most_ten_sprites_per_line() {
    let mut oam = OAM::new();
    for i in 0..12u16 {
        put_sprite(&mut oam, i, 20, 100 - i as u8, i as u8);
    }
    oam.rebuild();
    let tiles: Vec<u8> = oam.sprites_in_line(10).iter().map(|s| s.id).collect();
    assert_eq!(tiles, vec![11, 10, 9, 8, 7, 6, 5, 4, 3, 2]);
}
