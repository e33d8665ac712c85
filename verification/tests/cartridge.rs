use nes_rs::cartridge::mapper::mmc1::Mmc1;
use nes_rs::cartridge::mapper::nrom::{Nrom128, Nrom256};
use nes_rs::cartridge::mapper::uxrom::Uxrom;
use nes_rs::cartridge::mapper::{build_mapper, Mapper};
use nes_rs::cartridge::{Cartridge, CartridgeHeader, ConsoleType, HeaderError, Mirroring};
use nes_rs::mem::Mem;

fn rom(flags6: u8, flags7: u8, prg: u8, chr: u8, fill: u8) -> Vec<u8> {
    let mut bytes = vec![0x4E, 0x45, 0x53, 0x1A, prg, chr, flags6, flags7, 0, 0, 0, 0, 0, 0, 0, 0];
    if flags6 & 0x04 != 0 {
        bytes.extend(std::iter::repeat(0xEE).take(512));
    }
    for bank in 0..prg as usize {
        bytes.extend(std::iter::repeat(fill.wrapping_add(bank as u8)).take(0x4000));
    }
    for bank in 0..chr as usize {
        bytes.extend(std::iter::repeat(0xC0u8.wrapping_add(bank as u8)).take(0x2000));
    }
    bytes
}

fn prg_bank(fill: u8) -> Mem<0x4000> {
    Mem::from_slice(&vec![fill; 0x4000], 0)
}

#[test]
fn header_fields() {
    let mut bytes = [0u8; 16];
    bytes[4] = 2;
    bytes[5] = 1;
    bytes[6] = 0x1F;
    bytes[7] = 0x21;
    bytes[8] = 3;
    let header = CartridgeHeader::from_bytes(&bytes).unwrap();
    assert_eq!(header.prg_rom_banks, 2);
    assert_eq!(header.chr_rom_banks, 1);
    assert_eq!(header.prg_ram_banks, 3);
    assert_eq!(header.mapper_id, 0x21);
    assert!(header.four_screen);
    assert!(header.trainer);
    assert!(header.battery);
    assert_eq!(header.mirroring, Mirroring::Vertical);
    assert_eq!(header.console_type, ConsoleType::VsSystem);

    bytes[6] = 0x00;
    bytes[7] = 0x02;
    let header = CartridgeHeader::from_bytes(&bytes).unwrap();
    assert!(!header.battery);
    assert!(!header.trainer);
    assert_eq!(header.mirroring, Mirroring::Horizontal);
    assert_eq!(header.console_type, ConsoleType::Playchoice);
    assert_eq!(header.mapper_id, 0);
}

#[test]
fn nes2_header_is_rejected() {
    let mut bytes = [0u8; 16];
    bytes[7] = 0x08;
    assert_eq!(CartridgeHeader::from_bytes(&bytes), Err(HeaderError::Nes2Unsupported));
    bytes[7] = 0x0C;
    assert!(CartridgeHeader::from_bytes(&bytes).is_ok());
}

#[test]
fn default_header() {
    let header = CartridgeHeader::default();
    assert_eq!(header.mirroring, Mirroring::Horizontal);
    assert_eq!(header.console_type, ConsoleType::Nes);
    assert_eq!(CartridgeHeader::with_mirroring(Mirroring::OneScreenHi).mirroring, Mirroring::OneScreenHi);
    assert_eq!(Mirroring::default(), Mirroring::Horizontal);
}

#[test]
fn mirroring_codes() {
    for m in [Mirroring::Horizontal, Mirroring::Vertical, Mirroring::OneScreenLo, Mirroring::OneScreenHi] {
        assert_eq!(Mirroring::from_bits(m.bits()), m);
    }
    assert_eq!(Mirroring::Horizontal.bits(), 3);
    assert_eq!(Mirroring::Vertical.bits(), 2);
    assert_eq!(Mirroring::from_bits(0x1D), Mirroring::OneScreenHi);
    assert_eq!(Mirroring::Vertical.bank(0x2400), 1);
    assert_eq!(Mirroring::Horizontal.bank(0x2400), 0);
}

#[test]
fn nrom128_read() {
    let image = rom(0x00, 0x00, 1, 1, 0xAA);
    let cart = Cartridge::from_rom(&image).ok().unwrap();
    assert_eq!(cart.cpu_read(0x8000), Some(0xAA));
    assert_eq!(cart.cpu_read(0xC000), Some(0xAA));
    assert_eq!(cart.cpu_read(0xFFFF), Some(0xAA));
    assert_eq!(cart.cpu_read(0x7FFF), None);
    assert_eq!(cart.ppu_read(0x0000), Some(0xC0));
    assert_eq!(cart.ppu_read(0x1FFF), Some(0xC0));
    assert_eq!(cart.ppu_read(0x2000), None);
    assert_eq!(cart.mirroring(), Mirroring::Horizontal);
}

#[test]
fn nrom128_ignores_writes() {
    let image = rom(0x01, 0x00, 1, 1, 0xAA);
    let mut cart = Cartridge::from_rom(&image).ok().unwrap();
    assert!(!cart.cpu_write(0x8000, 0x55));
    assert_eq!(cart.cpu_read(0x8000), Some(0xAA));
    assert!(cart.ppu_write(0x0010, 0x55));
    assert!(!cart.ppu_write(0x2010, 0x55));
    assert_eq!(cart.ppu_read(0x0010), Some(0xC0));
    assert_eq!(cart.mirroring(), Mirroring::Vertical);
}

#[test]
fn nrom256_banks() {
    let image = rom(0x00, 0x00, 2, 1, 0x10);
    let cart = Cartridge::from_rom(&image).ok().unwrap();
    assert_eq!(cart.cpu_read(0x8000), Some(0x10));
    assert_eq!(cart.cpu_read(0xBFFF), Some(0x10));
    assert_eq!(cart.cpu_read(0xC000), Some(0x11));
    assert_eq!(cart.cpu_read(0xFFFF), Some(0x11));
    assert!(matches!(cart.mapper, Mapper::Nrom256(_)));
}

#[test]
fn nrom_from_reader_takes_prg_then_chr() {
    let mut bytes = vec![0u8; 3];
    bytes.extend((0..0x6000u32).map(|i| (i >> 8) as u8));
    let nrom = Nrom128::from_reader(&bytes, 3);
    assert_eq!(nrom.cpu_map_read(0x8100), Some(0x01));
    assert_eq!(nrom.cpu_map_read(0xC100), Some(0x01));
    assert_eq!(nrom.ppu_map_read(0x0100), Some(0x41));

    let mut bytes = vec![0u8; 1];
    bytes.extend((0..0xA000u32).map(|i| (i >> 8) as u8));
    let nrom = Nrom256::from_reader(&bytes, 1);
    assert_eq!(nrom.cpu_map_read(0xC100), Some(0x41));
    assert_eq!(nrom.ppu_map_read(0x0100), Some(0x81));
    assert_eq!(nrom.mirroring(), None);
}

#[test]
fn trainer_is_passed_over() {
    let image = rom(0x04, 0x00, 1, 1, 0x3C);
    let cart = Cartridge::from_rom(&image).ok().unwrap();
    assert!(cart.header.trainer);
    assert_eq!(cart.cpu_read(0x8000), Some(0x3C));
}

#[test]
fn load_errors() {
    assert_eq!(Cartridge::from_rom(&[0u8; 15]).err(), Some(HeaderError::UnexpectedEof));
    let mut short = rom(0x00, 0x00, 1, 1, 0);
    short.pop();
    assert_eq!(Cartridge::from_rom(&short).err(), Some(HeaderError::UnexpectedEof));
    let trainer_only = rom(0x04, 0x00, 0, 0, 0);
    assert_eq!(Cartridge::from_rom(&trainer_only[..100]).err(), Some(HeaderError::UnexpectedEof));
    let unknown = rom(0x40, 0x00, 1, 1, 0);
    assert_eq!(Cartridge::from_rom(&unknown).err(), Some(HeaderError::UnsupportedMapper(4)));
    let three_banks = rom(0x00, 0x00, 3, 1, 0);
    assert_eq!(Cartridge::from_rom(&three_banks).err(), Some(HeaderError::UnsupportedMapper(0)));
    let nes2 = rom(0x00, 0x08, 1, 1, 0);
    assert_eq!(Cartridge::from_rom(&nes2).err(), Some(HeaderError::Nes2Unsupported));
    let mmc1_short = rom(0x10, 0x00, 2, 1, 0);
    assert_eq!(
        Cartridge::from_rom(&mmc1_short[..mmc1_short.len() - 1]).err(),
        Some(HeaderError::UnexpectedEof)
    );
    let header = CartridgeHeader::default();
    assert_eq!(build_mapper(&header, &[], 0).err(), Some(HeaderError::UnsupportedMapper(0)));
}

#[test]
fn testing_cartridge_is_plain_memory() {
    let mut cart = Cartridge::testing(None);
    assert_eq!(cart.header, CartridgeHeader::default());
    assert_eq!(cart.cpu_read(0x1234), Some(0));
    assert!(cart.cpu_write(0x9234, 0x77));
    assert_eq!(cart.cpu_read(0x1234), Some(0x77));
    assert_eq!(cart.ppu_read(0x0000), None);
    assert!(!cart.ppu_write(0x0000, 1));
    assert_eq!(cart.mirroring(), Mirroring::Horizontal);
}

#[test]
fn uxrom_bank_select() {
    let image = rom(0x20, 0x00, 4, 0, 0x50);
    let mut cart = Cartridge::from_rom(&image).ok().unwrap();
    assert!(matches!(cart.mapper, Mapper::Uxrom(_)));
    assert_eq!(cart.cpu_read(0x8000), Some(0x50));
    assert_eq!(cart.cpu_read(0xC000), Some(0x53));
    assert!(cart.cpu_write(0x8000, 0x0A));
    assert_eq!(cart.cpu_read(0x8000), Some(0x52));
    assert_eq!(cart.cpu_read(0xFFFF), Some(0x53));
    assert!(cart.cpu_write(0xFFFF, 0x07));
    assert_eq!(cart.cpu_read(0x8000), None);
    assert_eq!(cart.cpu_read(0x6000), None);
    assert!(!cart.cpu_write(0x6000, 1));
    assert!(!cart.cpu_write(0x5000, 1));
    assert!(cart.ppu_write(0x0123, 0x99));
    assert_eq!(cart.ppu_read(0x0123), Some(0x99));
    assert_eq!(cart.ppu_read(0x2123), None);
}

#[test]
fn uxrom_work_ram() {
    let banks = vec![prg_bank(1), prg_bank(2)];
    let mut uxrom = Uxrom::new(banks, Mem::default(), Some(Mem::default()));
    assert_eq!(uxrom.bank_select, 0);
    assert!(uxrom.cpu_map_write(0x6010, 0x42));
    assert_eq!(uxrom.cpu_map_read(0x6010), Some(0x42));
    assert_eq!(uxrom.cpu_map_read(0x8000), Some(1));
    assert_eq!(uxrom.cpu_map_read(0xC000), Some(2));
}

#[test]
fn mmc1_prg_bank_write() {
    let banks = vec![prg_bank(0xA0), prg_bank(0xA1), prg_bank(0xA2), prg_bank(0xA3)];
    let mut mmc1 = Mmc1::new(banks, vec![Mem::default()], None, Mirroring::Horizontal);
    assert_eq!(mmc1.control_register.prg_mode(), 3);
    assert_eq!(mmc1.cpu_map_read(0x8000), Some(0xA0));
    assert_eq!(mmc1.cpu_map_read(0xC000), Some(0xA3));
    // The first bit written is the lowest: 1,0,0,0,0 makes the value 1.
    for bit in [0x01u8, 0x00, 0x00, 0x00, 0x00] {
        assert!(mmc1.cpu_map_write(0xE000, bit));
    }
    assert_eq!(mmc1.prg_bank, 1);
    assert_eq!(mmc1.shift_count, 0);
    assert_eq!(mmc1.shift_register, 0);
    assert_eq!(mmc1.cpu_map_read(0x8000), Some(0xA1));
    assert_eq!(mmc1.cpu_map_read(0xC000), Some(0xA3));
    // 0,0,0,0,1 makes the value 16, of which the bank register keeps four bits.
    for bit in [0x00u8, 0x00, 0x00, 0x00, 0x01] {
        assert!(mmc1.cpu_map_write(0xE000, bit));
    }
    assert_eq!(mmc1.prg_bank, 0);
    assert_eq!(mmc1.cpu_map_read(0x8000), Some(0xA0));
}

#[test]
fn mmc1_serial_load_commits_on_the_fifth_write() {
    let banks = vec![prg_bank(0), prg_bank(1)];
    let mut mmc1 = Mmc1::new(banks, Vec::new(), Some(Mem::default()), Mirroring::Vertical);
    assert_eq!(mmc1.control_register.0, 0x1E);
    assert_eq!(mmc1.mirroring(), Some(Mirroring::Vertical));
    for (n, bit) in [1u8, 0, 1, 0].iter().enumerate() {
        assert!(mmc1.cpu_map_write(0x8000, *bit));
        assert_eq!(mmc1.shift_count, n as u8 + 1);
        assert_eq!(mmc1.control_register.0, 0x1E);
    }
    assert!(mmc1.cpu_map_write(0x9FFF, 0));
    assert_eq!(mmc1.control_register.0, 0b00101);
    assert_eq!(mmc1.mirroring(), Some(Mirroring::OneScreenHi));
    assert_eq!(mmc1.control_register.prg_mode(), 1);
    assert_eq!(mmc1.control_register.chr_mode(), 0);

    for bit in [1u8, 1, 1, 1, 1] {
        mmc1.cpu_map_write(0xA000, bit);
    }
    assert_eq!(mmc1.chr_bank_lo, 0x1F);
    for bit in [0u8, 1, 0, 0, 0] {
        mmc1.cpu_map_write(0xC000, bit);
    }
    assert_eq!(mmc1.chr_bank_hi, 2);
}

#[test]
fn mmc1_reset_write() {
    let banks = vec![prg_bank(0), prg_bank(1)];
    let mut mmc1 = Mmc1::new(banks, Vec::new(), Some(Mem::default()), Mirroring::Horizontal);
    for bit in [0u8, 0, 0, 0, 0] {
        mmc1.cpu_map_write(0x8000, bit);
    }
    assert_eq!(mmc1.control_register.0, 0);
    mmc1.cpu_map_write(0x8000, 1);
    mmc1.cpu_map_write(0x8000, 1);
    assert_eq!(mmc1.shift_count, 2);
    assert!(mmc1.cpu_map_write(0xFFFF, 0x80));
    assert_eq!(mmc1.shift_count, 0);
    assert_eq!(mmc1.shift_register, 0);
    assert_eq!(mmc1.control_register.0, 0x0C);
    assert_eq!(mmc1.control_register.prg_mode(), 3);
    assert_eq!(mmc1.load_shift_register(1), 0x10);
}

#[test]
fn mmc1_prg_modes() {
    let banks = vec![prg_bank(0xB0), prg_bank(0xB1), prg_bank(0xB2), prg_bank(0xB3)];
    let mut mmc1 = Mmc1::new(banks, Vec::new(), Some(Mem::default()), Mirroring::Horizontal);
    mmc1.prg_bank = 3;
    mmc1.control_register.0 = 0x00;
    assert_eq!(mmc1.cpu_map_read(0x8000), Some(0xB2));
    assert_eq!(mmc1.cpu_map_read(0xC000), Some(0xB3));
    mmc1.control_register.0 = 0x08;
    assert_eq!(mmc1.cpu_map_read(0x8000), Some(0xB0));
    assert_eq!(mmc1.cpu_map_read(0xC000), Some(0xB3));
    mmc1.prg_bank = 1;
    assert_eq!(mmc1.cpu_map_read(0xC000), Some(0xB1));
    mmc1.control_register.0 = 0x0C;
    mmc1.prg_bank = 9;
    assert_eq!(mmc1.cpu_map_read(0x8000), None);
    assert_eq!(mmc1.cpu_map_read(0xC000), Some(0xB3));
    assert!(mmc1.cpu_map_write(0x6001, 0x5A));
    assert_eq!(mmc1.cpu_map_read(0x6001), Some(0x5A));
    assert_eq!(mmc1.cpu_map_read(0x5FFF), None);
    assert!(!mmc1.cpu_map_write(0x5FFF, 0));
}

#[test]
fn mmc1_chr_modes() {
    let mut image = rom(0x10, 0x00, 1, 2, 0);
    let chr_start = 16 + 0x4000;
    for i in 0..0x4000usize {
        image[chr_start + i] = (i / 0x1000) as u8 * 0x10 + 1;
    }
    let mut cart = Cartridge::from_rom(&image).ok().unwrap();
    let mmc1 = match &mut cart.mapper {
        Mapper::Mmc1(m) => m,
        _ => panic!("expected the MMC1 board"),
    };
    assert_eq!(mmc1.control_register.chr_mode(), 1);
    mmc1.chr_bank_lo = 3;
    mmc1.chr_bank_hi = 0;
    assert_eq!(mmc1.ppu_map_read(0x0000), Some(0x31));
    assert_eq!(mmc1.ppu_map_read(0x1000), Some(0x01));
    mmc1.control_register.0 = 0x0C;
    assert_eq!(mmc1.ppu_map_read(0x0000), Some(0x21));
    assert_eq!(mmc1.ppu_map_read(0x1FFF), Some(0x31));
    mmc1.chr_bank_lo = 4;
    assert_eq!(mmc1.ppu_map_read(0x0000), None);
    assert_eq!(mmc1.ppu_map_read(0x2000), None);
    assert!(!mmc1.ppu_map_write(0x0000, 1));
}

#[test]
fn mmc1_chr_ram() {
    let image = rom(0x10, 0x00, 2, 0, 0x60);
    let mut cart = Cartridge::from_rom(&image).ok().unwrap();
    assert!(cart.ppu_write(0x1ABC, 0x3D));
    assert_eq!(cart.ppu_read(0x1ABC), Some(0x3D));
    assert_eq!(cart.ppu_read(0x0ABC), Some(0x00));
    assert!(!cart.ppu_write(0x2ABC, 0x3D));
    assert_eq!(cart.mirroring(), Mirroring::Horizontal);
    assert_eq!(cart.cpu_read(0xC000), Some(0x61));
}
