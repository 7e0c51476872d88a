use rust_gbc_emu::lcd::{Color, Lcd, Palette};
use rust_gbc_emu::ppu::{ColorIndex, PictureProcessingUnit, TileAddressingMethod};

#[test]
fn test_tile_pixel_decoding() {
    let mut ppu = PictureProcessingUnit::default();
    // One row: low byte 0b11001010, high byte 0b01010011.
    ppu.write_video_ram(0, 0b11001010);
    ppu.write_video_ram(1, 0b01010011);
    let tile = ppu.video_ram.read_tile(TileAddressingMethod::From8000(0));
    let expected = [0b01u8, 0b11, 0b00, 0b10, 0b01, 0b00, 0b11, 0b10];
    for x in 0..8u8 {
        assert_eq!(tile.get_color(x, 0).to_u8(), expected[x as usize]);
    }
}

#[test]
fn test_deinterleave_matches_get_color() {
    let mut ppu = PictureProcessingUnit::default();
    for i in 0..16u16 {
        ppu.write_video_ram(i, (i as u8).wrapping_mul(37).wrapping_add(11));
    }
    let tile = ppu.video_ram.read_tile(TileAddressingMethod::From8000(0));
    let colors = tile.deinterleave();
    assert_eq!(colors.len(), 64);
    for y in 0..8u8 {
        for x in 0..8u8 {
            assert_eq!(
                colors[(y * 8 + x) as usize].to_u8(),
                tile.get_color(x, y).to_u8()
            );
        }
    }
}

#[test]
fn test_signed_tile_addressing() {
    let mut ppu = PictureProcessingUnit::default();
    // Tile -1 under signed addressing lives at 0x1000 - 16 = 0x0ff0.
    ppu.write_video_ram(0x0ff0, 0xff);
    ppu.write_video_ram(0x0ff1, 0xff);
    let tile = ppu.video_ram.read_tile(TileAddressingMethod::From9000(-1));
    assert_eq!(tile.get_color(0, 0).to_u8(), 3);
    // Tile 2 under signed addressing lives at 0x1020.
    ppu.write_video_ram(0x1020, 0xff);
    ppu.write_video_ram(0x1021, 0x00);
    let tile2 = ppu.video_ram.read_tile(TileAddressingMethod::From9000(2));
    assert_eq!(tile2.get_color(0, 0).to_u8(), 1);
}

#[test]
fn test_vram_locked_while_lcd_owns_it() {
    let mut ppu = PictureProcessingUnit::default();
    ppu.write_video_ram(0x123, 0x42);
    ppu.set_in_use_by_lcd(true);
    assert_eq!(ppu.read_video_ram(0x123), 0xff);
    ppu.write_video_ram(0x123, 0x99);
    assert_eq!(ppu.read_object_attribute_memory(0), 0xff);
    ppu.set_in_use_by_lcd(false);
    assert_eq!(ppu.read_video_ram(0x123), 0x42);
}

#[test]
fn test_palette_round_trip() {
    let palette = Palette::from_byte(0b11100100);
    assert!(matches!(palette.get_color(&ColorIndex::Color0), Color::White));
    assert!(matches!(
        palette.get_color(&ColorIndex::Color1),
        Color::LightGray
    ));
    assert!(matches!(
        palette.get_color(&ColorIndex::Color2),
        Color::DarkGray
    ));
    assert!(matches!(palette.get_color(&ColorIndex::Color3), Color::Black));
    assert_eq!(palette.to_u8(), 0b11100100);
}

#[test]
fn test_lcd_line_progression() {
    let mut lcd = Lcd::default();
    assert_eq!(lcd.get_ly(), 0);
    assert_eq!(lcd.get_lx(), -80);
    // One full line is 456 dots.
    for _ in 0..456 {
        lcd.tick();
    }
    assert_eq!(lcd.get_ly(), 1);
    assert_eq!(lcd.get_lx(), -80);
    // 143 more lines reach the first VBlank line.
    let mut vblanks = 0;
    for _ in 0..143 * 456 {
        let (vb, _) = lcd.tick();
        if vb {
            vblanks += 1;
        }
    }
    assert_eq!(lcd.get_ly(), 144);
    assert_eq!(vblanks, 1);
    // STAT mode reads back as VBlank while ly >= 144.
    assert_eq!(lcd.read_u8(1) & 0x3, 1);
    // The remaining ten lines wrap the frame.
    for _ in 0..10 * 456 {
        lcd.tick();
    }
    assert_eq!(lcd.get_ly(), 0);
}

#[test]
fn test_checkerboard_frame() {
    // A checkerboard tile at map position (0,0) of background map 0,
    // unsigned addressing, no scroll: after the visible frame the
    // top-left 8x8 pixels alternate BGP color 3 and color 0.
    let mut ppu = PictureProcessingUnit::default();
    let mut lcd = Lcd::default();
    // LCD on, background on, tile data from 0x8000, map 0.
    lcd.write_u8(0x0, 0b10010001);
    // BGP: index 3 -> Black, index 0 -> White.
    lcd.write_u8(0x7, 0b11100100);
    // The checkerboard: even rows light pixels at even x.
    for y in 0..8u16 {
        let pattern: u8 = if y % 2 == 0 { 0b10101010 } else { 0b01010101 };
        ppu.write_video_ram(2 * y, pattern);
        ppu.write_video_ram(2 * y + 1, pattern);
    }
    // Map 0 entry (0,0) selects tile 0; every other entry points at
    // the blank tile 1.
    ppu.write_video_ram(0x1800, 0);
    for i in 1..0x400u16 {
        ppu.write_video_ram(0x1800 + i, 1);
    }
    // Run the 144 visible lines.
    ppu.tick(456 * 144, &mut lcd);
    let frame = ppu.get_current_framebuffer();
    for y in 0..8usize {
        for x in 0..8usize {
            let pixel = frame[y * 160 + x];
            if (x ^ y) & 1 == 0 {
                assert!(matches!(pixel, Color::Black), "pixel ({}, {})", x, y);
            } else {
                assert!(matches!(pixel, Color::White), "pixel ({}, {})", x, y);
            }
        }
    }
    // Pixels under the blank tile show color 0.
    assert!(matches!(frame[20], Color::White));
}

#[test]
fn test_sprite_cache_orders_by_x_then_slot() {
    let mut ppu = PictureProcessingUnit::default();
    // Three sprites on line 0 (sprite y = 16): slots 0, 1, 2 at
    // x = 40, 20, 20.
    let entries = [(0u16, 40u8), (1, 20), (2, 20)];
    for &(slot, x) in &entries {
        ppu.write_object_attribute_memory(4 * slot, 16);
        ppu.write_object_attribute_memory(4 * slot + 1, x);
    }
    ppu.get_sprites_for_line(0, rust_gbc_emu::lcd::SpriteSize::Small);
    let cache = &ppu.sprites_this_line;
    assert_eq!(cache.len(), 3);
    assert_eq!((cache[0].x, cache[0].oam_index), (20, 1));
    assert_eq!((cache[1].x, cache[1].oam_index), (20, 2));
    assert_eq!((cache[2].x, cache[2].oam_index), (40, 0));
}

#[test]
fn test_scan_locks_follow_mode() {
    let mut ppu = PictureProcessingUnit::default();
    let mut lcd = Lcd::default();
    ppu.write_video_ram(0, 0x42);
    ppu.write_object_attribute_memory(0, 0x24);
    // One dot into the line: OAM scan owns OAM, video RAM is open.
    ppu.tick(1, &mut lcd);
    assert_eq!(ppu.read_object_attribute_memory(0), 0xff);
    assert_eq!(ppu.read_video_ram(0), 0x42);
    // Into the transfer window: both memories read as 0xff and CPU
    // writes are dropped.
    ppu.tick(100, &mut lcd);
    assert!(lcd.get_lx() >= 0 && lcd.get_lx() < 160);
    assert_eq!(ppu.read_video_ram(0), 0xff);
    assert_eq!(ppu.read_object_attribute_memory(0), 0xff);
    ppu.write_video_ram(0, 0x99);
    // Past the visible window: HBlank releases both.
    ppu.tick(300, &mut lcd);
    assert!(lcd.get_lx() >= 160);
    assert_eq!(ppu.read_video_ram(0), 0x42);
    assert_eq!(ppu.read_object_attribute_memory(0), 0x24);
}

#[test]
fn test_window_overlays_background() {
    // Background blank; the window starts at (WX=7, WY=0) showing a
    // solid color-3 tile: the top-left pixels take the window color.
    let mut ppu = PictureProcessingUnit::default();
    let mut lcd = Lcd::default();
    // LCD on, bg on, window on, window map at 0x9c00, data from
    // 0x8000.
    lcd.write_u8(0x0, 0b11110001);
    lcd.write_u8(0x7, 0b11100100);
    lcd.write_u8(0xb, 7); // WX
    lcd.write_u8(0xa, 0); // WY
    // Tile 1 solid color 3; window map entry (0,0) selects it.
    for i in 0..16u16 {
        ppu.write_video_ram(16 + i, 0xff);
    }
    ppu.write_video_ram(0x1c00, 1);
    // The background map stays on the blank tile 0 everywhere.
    ppu.tick(456 * 144, &mut lcd);
    let frame = ppu.get_current_framebuffer();
    for x in 0..8usize {
        assert!(matches!(frame[x], Color::Black), "pixel ({}, 0)", x);
    }
}
