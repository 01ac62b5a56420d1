// The iNES parser: each rejection on an input that earns it, and the
// fields of an accepted image.

use nesrs::cartridge::{Cartridge, MirroringMode, NesError};

fn valid_rom(prg_banks: u8, chr_banks: u8) -> Vec<u8> {
    let mut rom = vec![0u8; 16 + (prg_banks as usize) * 16384 + (chr_banks as usize) * 8192];
    rom[0] = 0x4e;
    rom[1] = 0x45;
    rom[2] = 0x53;
    rom[3] = 0x1a;
    rom[4] = prg_banks;
    rom[5] = chr_banks;
    rom
}

#[test]
fn parse_rejects_short_buffer() {
    let rom = vec![0x4e, 0x45, 0x53, 0x1a];
    assert_eq!(Cartridge::parse(&rom).err(), Some(NesError::InvalidHeader));
}

#[test]
fn parse_rejects_bad_magic() {
    let mut rom = valid_rom(1, 1);
    rom[3] = 0x00;
    assert_eq!(Cartridge::parse(&rom).err(), Some(NesError::InvalidHeader));
}

#[test]
fn parse_rejects_empty_program() {
    let mut rom = valid_rom(1, 0);
    rom[4] = 0;
    assert_eq!(Cartridge::parse(&rom).err(), Some(NesError::InvalidHeader));
}

#[test]
fn parse_rejects_truncated_image() {
    let mut rom = valid_rom(1, 1);
    rom.truncate(16 + 16384 + 100);
    assert_eq!(Cartridge::parse(&rom).err(), Some(NesError::TruncatedRom));
}

#[test]
fn parse_rejects_unsupported_mapper() {
    let mut rom = valid_rom(1, 1);
    rom[6] = 0x40;
    assert_eq!(Cartridge::parse(&rom).err(), Some(NesError::UnsupportedMapper(4)));
    let mut rom = valid_rom(1, 1);
    rom[7] = 0x10;
    assert_eq!(Cartridge::parse(&rom).err(), Some(NesError::UnsupportedMapper(16)));
}

#[test]
fn parse_accepts_nrom() {
    let mut rom = valid_rom(2, 1);
    rom[6] = 0x01;
    rom[16] = 0xaa;
    rom[16 + 2 * 16384 - 1] = 0xbb;
    rom[16 + 2 * 16384] = 0xcc;
    let cart = Cartridge::parse(&rom).unwrap();
    assert_eq!(cart.header().prg_rom_chunks, 2);
    assert_eq!(cart.header().chr_rom_chunks, 1);
    assert!(matches!(cart.mirroring(), MirroringMode::Vertical));
    assert_eq!(cart.prg_rom()[0], 0xaa);
    assert_eq!(cart.prg_rom()[2 * 16384 - 1], 0xbb);
    assert_eq!(cart.chr_rom()[0], 0xcc);
}

#[test]
fn parse_skips_trainer() {
    let mut rom = vec![0u8; 16 + 512 + 16384];
    rom[0] = 0x4e;
    rom[1] = 0x45;
    rom[2] = 0x53;
    rom[3] = 0x1a;
    rom[4] = 1;
    rom[5] = 0;
    rom[6] = 0x04;
    rom[16 + 512] = 0x77;
    let cart = Cartridge::parse(&rom).unwrap();
    assert_eq!(cart.prg_rom()[0], 0x77);
    assert!(matches!(cart.mirroring(), MirroringMode::Horizontal));
}

#[test]
fn mapper_routing() {
    // reads of the mirrored single-bank program space
    let mut rom = valid_rom(1, 0);
    rom[16 + 0x3ffc] = 0x34;
    rom[16 + 0x3ffd] = 0x12;
    let mut cart = Cartridge::parse(&rom).unwrap();
    assert_eq!(cart.read(0xfffc, true), 0x34);
    assert_eq!(cart.read(0xbffc, true), 0x34);
    assert_eq!(cart.read(0xfffd, true), 0x12);
    // board RAM accepts reads and writes
    cart.write(0x6123, 0x5a);
    assert_eq!(cart.read(0x6123, true), 0x5a);
    // below the board nothing answers
    assert_eq!(cart.read(0x4020, true), 0);
    assert_eq!(cart.use_cartridge_data(), false);
}
