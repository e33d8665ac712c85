use nes_rs::cartridge::{Cartridge, CartridgeHeader, Mirroring};
use nes_rs::ppu::{palette_slot, reverse_bits, LoopyRegister, PpuQueryItem};

fn setup(mirroring: Mirroring) -> PpuQueryItem {
    let cart_header = CartridgeHeader::with_mirroring(mirroring);
    let cart = Cartridge::testing(Some(cart_header));
    let mut query = PpuQueryItem::default();
    query.cartridge = Some(cart);
    query
}

#[test]
fn loopy_registers() {
    let mut register = LoopyRegister::default();
    assert_eq!(register.0, 0x0000);

    register.set_nametable_x(true as u16);
    assert_eq!(register.0, 0x0400);

    register.set_coarse_x(0x1F);
    assert_eq!(register.0, 0x041F);

    register.set_coarse_x(0xFF);
    assert_eq!(register.0, 0x041F);

    register.set_coarse_y(0x0E);
    assert_eq!(register.0, 0x05DF);
}

#[test]
fn horizontal_nametable_mirroring() {
    let mut query = setup(Mirroring::Horizontal);

    assert_eq!(query.ppu_read(0x2000), 0x00);
    assert_eq!(query.ppu_read(0x2400), 0x00);
    assert_eq!(query.ppu_read(0x2800), 0x00);
    assert_eq!(query.ppu_read(0x2C00), 0x00);

    query.ppu_write(0x2000, 0x01);
    assert_eq!(query.ppu_read(0x2000), 0x01);
    assert_eq!(query.ppu_read(0x2400), 0x01);
    assert_eq!(query.ppu_read(0x2800), 0x00);
    assert_eq!(query.ppu_read(0x2C00), 0x00);

    query.ppu_write(0x23FF, 0x02);
    assert_eq!(query.ppu_read(0x23FF), 0x02);
    assert_eq!(query.ppu_read(0x27FF), 0x02);
    assert_eq!(query.ppu_read(0x2BFF), 0x00);
    assert_eq!(query.ppu_read(0x2FFF), 0x00);

    query.ppu_write(0x2800, 0x03);
    assert_eq!(query.ppu_read(0x2000), 0x01);
    assert_eq!(query.ppu_read(0x2400), 0x01);
    assert_eq!(query.ppu_read(0x2800), 0x03);
    assert_eq!(query.ppu_read(0x2C00), 0x03);

    query.ppu_write(0x2FFF, 0x04);
    assert_eq!(query.ppu_read(0x23FF), 0x02);
    assert_eq!(query.ppu_read(0x27FF), 0x02);
    assert_eq!(query.ppu_read(0x2BFF), 0x04);
    assert_eq!(query.ppu_read(0x2FFF), 0x04);
}

#[test]
fn vertical_nametable_mirroring() {
    let mut query = setup(Mirroring::Vertical);

    assert_eq!(query.ppu_read(0x2000), 0x00);
    assert_eq!(query.ppu_read(0x2800), 0x00);
    assert_eq!(query.ppu_read(0x2400), 0x00);
    assert_eq!(query.ppu_read(0x2C00), 0x00);

    query.ppu_write(0x2000, 0x01);
    assert_eq!(query.ppu_read(0x2000), 0x01);
    assert_eq!(query.ppu_read(0x2800), 0x01);
    assert_eq!(query.ppu_read(0x2400), 0x00);
    assert_eq!(query.ppu_read(0x2C00), 0x00);

    query.ppu_write(0x23FF, 0x02);
    assert_eq!(query.ppu_read(0x23FF), 0x02);
    assert_eq!(query.ppu_read(0x2BFF), 0x02);
    assert_eq!(query.ppu_read(0x27FF), 0x00);
    assert_eq!(query.ppu_read(0x2FFF), 0x00);

    query.ppu_write(0x2C00, 0x03);
    assert_eq!(query.ppu_read(0x2000), 0x01);
    assert_eq!(query.ppu_read(0x2800), 0x01);
    assert_eq!(query.ppu_read(0x2400), 0x03);
    assert_eq!(query.ppu_read(0x2C00), 0x03);

    query.ppu_write(0x27FF, 0x04);
    assert_eq!(query.ppu_read(0x23FF), 0x02);
    assert_eq!(query.ppu_read(0x2BFF), 0x02);
    assert_eq!(query.ppu_read(0x27FF), 0x04);
    assert_eq!(query.ppu_read(0x2FFF), 0x04);
}

#[test]
fn one_screen_mirroring_folds_all_four_tables() {
    let mut lo = setup(Mirroring::OneScreenLo);
    lo.ppu_write(0x2C05, 0x11);
    assert_eq!(lo.ppu_read(0x2005), 0x11);
    assert_eq!(lo.ppu_read(0x2405), 0x11);
    assert_eq!(lo.ppu_read(0x2805), 0x11);
    assert_eq!(lo.ppu.name_table[0].read(5), 0x11);
    assert_eq!(lo.ppu.name_table[1].read(5), 0x00);

    let mut hi = setup(Mirroring::OneScreenHi);
    hi.ppu_write(0x2005, 0x22);
    assert_eq!(hi.ppu_read(0x2C05), 0x22);
    assert_eq!(hi.ppu.name_table[0].read(5), 0x00);
    assert_eq!(hi.ppu.name_table[1].read(5), 0x22);
}

#[test]
fn name_tables_without_a_cartridge_are_horizontal() {
    let mut query = PpuQueryItem::default();
    query.ppu_write(0x2001, 0x5A);
    assert_eq!(query.ppu_read(0x2401), 0x5A);
    assert_eq!(query.ppu_read(0x2801), 0x00);
    assert_eq!(query.ppu_read(0x0001), 0x00);
}

#[test]
fn palette_mirroring() {
    let mut query = setup(Mirroring::Horizontal);
    query.ppu_write(0x3F10, 0x21);
    assert_eq!(query.ppu_read(0x3F00), 0x21);
    query.ppu_write(0x3F04, 0x22);
    assert_eq!(query.ppu_read(0x3F14), 0x22);
    query.ppu_write(0x3F18, 0x23);
    assert_eq!(query.ppu_read(0x3F08), 0x23);
    query.ppu_write(0x3F0C, 0x24);
    assert_eq!(query.ppu_read(0x3F1C), 0x24);
    query.ppu_write(0x3F11, 0x25);
    assert_eq!(query.ppu_read(0x3F01), 0x00);
    assert_eq!(query.ppu_read(0x3F31), 0x25);
    assert_eq!(palette_slot(0x3F10), 0);
    assert_eq!(palette_slot(0x3F1D), 0x1D);
}

#[test]
fn reads_outside_the_mapped_ranges_give_zero() {
    let mut query = setup(Mirroring::Horizontal);
    query.ppu_write(0x2000, 0x7E);
    query.ppu_write(0x3000, 0x7F);
    assert_eq!(query.ppu_read(0x3000), 0x00);
    assert_eq!(query.ppu_read(0x2000), 0x7E);
    assert_eq!(query.ppu_read(0x4000), 0x00);
}

#[test]
fn reverse_bits_turns_the_byte_round() {
    assert_eq!(reverse_bits(0b0000_0001), 0b1000_0000);
    assert_eq!(reverse_bits(0b1101_0010), 0b0100_1011);
    assert_eq!(reverse_bits(0xFF), 0xFF);
    for v in 0..=255u8 {
        assert_eq!(reverse_bits(v), v.reverse_bits());
    }
}

#[test]
fn loopy_fields_read_back() {
    let mut register = LoopyRegister(0xFFFF);
    register.set_fine_y(0x0A);
    assert_eq!(register.fine_y(), 2);
    assert_eq!(register.0, 0xAFFF);
    register.set_nametable_y(0);
    assert_eq!(register.nametable_y(), 0);
    assert_eq!(register.nametable_x(), 1);
    assert_eq!(register.coarse_y(), 31);
    assert_eq!(register.coarse_x(), 31);
    assert_eq!(register.0, 0xA7FF);
}

#[test]
fn status_read_clears_vblank_and_latch() {
    let mut query = setup(Mirroring::Horizontal);
    query.ppu.registers.status.0 = 0xE0;
    query.ppu.data_buffer = 0x1F;
    query.ppu.addr_latch = true;
    assert_eq!(query.cpu_read(0x2002), Some(0xFF));
    assert_eq!(query.ppu.registers.status.0, 0x60);
    assert!(!query.ppu.addr_latch);
    assert_eq!(query.cpu_read(0x2002), Some(0x7F));
}

#[test]
fn ppuaddr_and_ppudata_write_and_read_back_through_the_buffer() {
    let mut query = setup(Mirroring::Horizontal);
    query.cpu_write(0x2006, 0x21);
    assert!(query.ppu.addr_latch);
    assert_eq!(query.ppu.tram_addr.0, 0x2100);
    query.cpu_write(0x2006, 0x08);
    assert!(!query.ppu.addr_latch);
    assert_eq!(query.ppu.vram_addr.0, 0x2108);
    query.cpu_write(0x2007, 0x99);
    assert_eq!(query.ppu.vram_addr.0, 0x2109);
    assert_eq!(query.ppu_read(0x2108), 0x99);

    query.cpu_write(0x2006, 0x21);
    query.cpu_write(0x2006, 0x08);
    assert_eq!(query.cpu_read(0x2007), Some(0x00));
    assert_eq!(query.cpu_read(0x2007), Some(0x99));
    assert_eq!(query.ppu.vram_addr.0, 0x210A);
}

#[test]
fn ppuaddr_first_write_clears_the_top_bits() {
    let mut query = setup(Mirroring::Horizontal);
    query.cpu_write(0x2006, 0xFF);
    assert_eq!(query.ppu.tram_addr.0, 0x3F00);
    query.cpu_write(0x2006, 0x10);
    assert_eq!(query.ppu.vram_addr.0, 0x3F10);
    query.cpu_write(0x2007, 0x2C);
    assert_eq!(query.ppu.palette_table[0], 0x2C);
    query.cpu_write(0x2006, 0x3F);
    query.cpu_write(0x2006, 0x00);
    assert_eq!(query.cpu_read(0x2007), Some(0x2C));
}

#[test]
fn ppudata_steps_by_thirty_two_in_increment_mode() {
    let mut query = setup(Mirroring::Horizontal);
    query.cpu_write(0x2000, 0x04);
    query.cpu_write(0x2006, 0x20);
    query.cpu_write(0x2006, 0x00);
    query.cpu_write(0x2007, 0x01);
    assert_eq!(query.ppu.vram_addr.0, 0x2020);
}

#[test]
fn ppuctrl_copies_the_name_table_bits() {
    let mut query = setup(Mirroring::Horizontal);
    query.cpu_write(0x2000, 0x03);
    assert_eq!(query.ppu.registers.ctrl.0, 0x03);
    assert_eq!(query.ppu.tram_addr.0, 0x0C00);
    query.cpu_write(0x2000, 0x81);
    assert_eq!(query.ppu.tram_addr.0, 0x0400);
    assert!(query.ppu.registers.ctrl.nmi());
}

#[test]
fn ppuscroll_takes_two_writes() {
    let mut query = setup(Mirroring::Horizontal);
    query.cpu_write(0x2005, 0b1010_1101);
    assert_eq!(query.ppu.fine_x, 0b101);
    assert_eq!(query.ppu.tram_addr.coarse_x(), 0b10101);
    assert!(query.ppu.addr_latch);
    query.cpu_write(0x2005, 0b0110_0011);
    assert_eq!(query.ppu.tram_addr.fine_y(), 0b011);
    assert_eq!(query.ppu.tram_addr.coarse_y(), 0b01100);
    assert!(!query.ppu.addr_latch);
}

#[test]
fn write_only_registers_read_as_the_buffer() {
    let mut query = setup(Mirroring::Horizontal);
    query.ppu.data_buffer = 0x42;
    query.cpu_write(0x2001, 0x18);
    query.cpu_write(0x2003, 0x07);
    query.cpu_write(0x2004, 0x09);
    assert_eq!(query.ppu.registers.mask.0, 0x18);
    assert_eq!(query.ppu.registers.oam_addr, 0x07);
    assert_eq!(query.ppu.registers.oam_data, 0x09);
    assert_eq!(query.cpu_read(0x2000), Some(0x42));
    assert_eq!(query.cpu_read(0x3FF9), Some(0x42));
    assert_eq!(query.cpu_read(0x4000), None);
}

#[test]
fn frame_completes_once_every_89342_ticks() {
    let mut query = setup(Mirroring::Horizontal);
    let mut raised = 0;
    let mut last = 0u32;
    let mut ticks = 0u32;
    while raised < 3 {
        query.tick();
        ticks += 1;
        if query.frame_complete() {
            raised += 1;
            if raised == 1 {
                assert_eq!(ticks, 89342 - 341);
            } else {
                assert_eq!(ticks - last, 89342);
            }
            last = ticks;
        }
    }
    assert!(!query.frame_complete());
    assert_eq!(query.ppu.scanline, -1);
    assert_eq!(query.ppu.cycle, 0);
}

#[test]
fn idle_dot_is_passed_over_with_rendering_on() {
    let mut query = setup(Mirroring::Horizontal);
    query.cpu_write(0x2001, 0x08);
    query.tick();
    assert_eq!(query.ppu.cycle, 2);
    assert_eq!(query.ppu.scanline, 0);
    let mut ticks = 1u32;
    while !query.frame_complete() {
        query.tick();
        ticks += 1;
    }
    assert_eq!(ticks, 89342 - 341 - 1);
}

#[test]
fn vblank_flag_and_nmi_line() {
    let mut query = setup(Mirroring::Horizontal);
    query.cpu_write(0x2000, 0x80);
    for _ in 0..(241 * 341 + 1) {
        query.tick();
        assert!(!query.ppu.nmi);
    }
    assert!(!query.ppu.registers.status.vblank());
    query.tick();
    assert!(query.ppu.registers.status.vblank());
    assert!(query.nmi());
    assert!(!query.nmi());
    while query.ppu.scanline != -1 {
        query.tick();
    }
    assert!(query.ppu.registers.status.vblank());
    query.tick();
    query.tick();
    assert!(!query.ppu.registers.status.vblank());
}

#[test]
fn sprite_evaluation_takes_eight_and_flags_the_ninth() {
    let mut query = setup(Mirroring::Horizontal);
    for i in 0..9u8 {
        query.oam_write(i * 4, 10);
        query.oam_write(i * 4 + 1, i);
        query.oam_write(i * 4 + 3, i * 8);
    }
    for i in 9..64u8 {
        query.oam_write(i * 4, 200);
    }
    query.ppu.scanline = 12;
    query.ppu.evaluate_sprites();
    assert_eq!(query.ppu.scanline_sprites.length, 8);
    assert!(query.ppu.registers.status.sprite_overflow());
    for i in 0..8usize {
        assert_eq!(query.ppu.scanline_sprites.sprites[i].tile_id(), i as u8);
    }

    query.ppu.scanline = 18;
    query.ppu.evaluate_sprites();
    assert_eq!(query.ppu.scanline_sprites.length, 0);
    assert!(!query.ppu.registers.status.sprite_overflow());
    assert_eq!(query.ppu.scanline_sprites.sprites[0].0, 0xFFFF_FFFF);

    query.ppu.registers.ctrl.0 = 0x20;
    query.ppu.evaluate_sprites();
    assert_eq!(query.ppu.scanline_sprites.length, 8);
}

#[test]
fn sprite_pattern_address() {
    let mut query = setup(Mirroring::Horizontal);
    query.ppu.scanline = 13;
    let plain = nes_rs::ppu::oam::OamEntry(0x0000_050A);
    assert_eq!(query.ppu.sprite_pattern_addr(plain), 0x0053);
    let flipped = nes_rs::ppu::oam::OamEntry(0x0080_050A);
    assert_eq!(query.ppu.sprite_pattern_addr(flipped), 0x0054);
    query.ppu.registers.ctrl.0 = 0x08;
    assert_eq!(query.ppu.sprite_pattern_addr(plain), 0x1053);
    query.ppu.registers.ctrl.0 = 0x20;
    query.ppu.scanline = 20;
    assert_eq!(query.ppu.sprite_pattern_addr(plain), 0x1052);
    assert_eq!(query.ppu.sprite_pattern_addr(flipped), 0x1045);
}

#[test]
fn pixel_mux_follows_priority() {
    let mut query = setup(Mirroring::Horizontal);
    query.ppu_write(0x3F00, 0x0F);
    query.ppu_write(0x3F05, 0x16);
    query.ppu_write(0x3F19, 0x2A);
    query.ppu.registers.mask.0 = 0x18;
    query.ppu.scanline = 5;
    query.ppu.cycle = 9;
    query.ppu.bg_shifter_pattern_lo = 0x8000;
    query.ppu.bg_shifter_attrib_lo = 0x8000;
    query.output();
    assert_eq!(query.ppu.screen_buffer[5][8], 0x16);

    query.ppu.scanline_sprites.length = 1;
    query.ppu.scanline_sprites.sprites[0] = nes_rs::ppu::oam::OamEntry(0x0002_0000);
    query.ppu.sprite_shifter_pattern_lo[0] = 0x80;
    query.output();
    assert_eq!(query.ppu.screen_buffer[5][8], 0x2A);

    query.ppu.scanline_sprites.sprites[0] = nes_rs::ppu::oam::OamEntry(0x0022_0000);
    query.output();
    assert_eq!(query.ppu.screen_buffer[5][8], 0x16);

    query.ppu.bg_shifter_pattern_lo = 0;
    query.output();
    assert_eq!(query.ppu.screen_buffer[5][8], 0x2A);

    query.ppu.sprite_shifter_pattern_lo[0] = 0;
    query.output();
    assert_eq!(query.ppu.screen_buffer[5][8], 0x0F);
}

#[test]
fn scroll_increments_wrap_and_flip() {
    let mut query = setup(Mirroring::Horizontal);
    query.ppu.registers.mask.0 = 0x08;
    query.ppu.vram_addr = LoopyRegister(0x001F);
    query.ppu.increment_scroll_x();
    assert_eq!(query.ppu.vram_addr.0, 0x0400);
    query.ppu.vram_addr = LoopyRegister(0x7000 | (29 << 5));
    query.ppu.increment_scroll_y();
    assert_eq!(query.ppu.vram_addr.0, 0x0800);
    query.ppu.vram_addr = LoopyRegister(0x7000 | (31 << 5));
    query.ppu.increment_scroll_y();
    assert_eq!(query.ppu.vram_addr.0, 0x0000);
    query.ppu.vram_addr = LoopyRegister(0x1005);
    query.ppu.increment_scroll_y();
    assert_eq!(query.ppu.vram_addr.0, 0x2005);
    query.ppu.registers.mask.0 = 0x00;
    query.ppu.increment_scroll_x();
    query.ppu.increment_scroll_y();
    assert_eq!(query.ppu.vram_addr.0, 0x2005);
}

#[test]
fn reset_clears_control_registers() {
    let mut query = setup(Mirroring::Horizontal);
    query.cpu_write(0x2000, 0xFF);
    query.cpu_write(0x2001, 0xFF);
    query.cpu_write(0x2005, 0x12);
    query.ppu.data_buffer = 9;
    query.reset();
    assert_eq!(query.ppu.registers.ctrl.0, 0);
    assert_eq!(query.ppu.registers.mask.0, 0);
    assert_eq!(query.ppu.data_buffer, 0);
    assert!(!query.ppu.addr_latch);
}

#[test]
fn peek_changes_nothing() {
    let mut query = setup(Mirroring::Horizontal);
    query.cpu_write(0x2000, 0x81);
    query.ppu.registers.status.0 = 0x80;
    query.ppu.addr_latch = true;
    assert_eq!(query.peek(0x2000), 0x81);
    assert_eq!(query.peek(0x2002), 0x80);
    assert_eq!(query.peek_register(0x3FFA), 0x80);
    assert_eq!(query.ppu.registers.status.0, 0x80);
    assert!(query.ppu.addr_latch);
    query.cpu_write(0x8000, 0x5D);
    assert_eq!(query.peek(0x8000), 0x5D);
    assert_eq!(query.peek(0x1000), 0);
    assert_eq!(PpuQueryItem::default().peek(0x8000), 0);
}

#[test]
fn palette_from_bytes() {
    let bytes: Vec<u8> = (0..192u32).map(|i| i as u8).collect();
    let palette = nes_rs::ppu::palette::Palette::from_bytes(&bytes).unwrap();
    assert_eq!(palette.colors[0], (0, 1, 2));
    assert_eq!(palette.colors[63], (189, 190, 191));
    assert_eq!(palette.get_color(1), Some((3, 4, 5)));
    assert_eq!(palette.get_color(0x41), Some((3, 4, 5)));
    assert_eq!(
        nes_rs::ppu::palette::Palette::from_bytes(&bytes[..191]),
        Err(nes_rs::ppu::palette::PaletteLoaderError::UnexpectedEof)
    );
}

#[test]
fn pattern_buffer_draws_the_tiles() {
    let mut image = vec![0u8; 16 + 0x4000 + 0x2000];
    image[4] = 1;
    image[5] = 1;
    let chr = 16 + 0x4000;
    // Tile 0x12 of table 1, row 3: low byte 0b1000_0001, high byte 0b1100_0000.
    let at = chr + 0x1000 + 0x12 * 16 + 3;
    image[at] = 0b1000_0001;
    image[at + 8] = 0b1100_0000;
    let mut query = PpuQueryItem::default();
    query.cartridge = Some(Cartridge::from_rom(&image).ok().unwrap());
    let drawn = query.pattern_buffer(1);
    assert_eq!(drawn.table_id, 1);
    let row = (8 + 3) * 128 + 2 * 8;
    assert_eq!(&drawn.buffer[row..row + 8], &[2, 1, 0, 0, 0, 0, 0, 1]);
    assert_eq!(query.pattern_pixel(1, 16, 11), 2);
    assert_eq!(query.pattern_pixel(0, 16, 11), 0);
    assert_eq!(drawn.buffer.iter().map(|v| *v as u32).sum::<u32>(), 4);
}
