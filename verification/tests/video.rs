// The picture unit through its registers: palette aliasing, the data-port
// round trip with its buffer and auto-increment, and vertical blank with
// its interrupt.

use nesrs::bus::Bus;
use nesrs::cartridge::Cartridge;

fn test_rom() -> Vec<u8> {
    let mut rom = vec![0u8; 16 + 16384];
    rom[0] = 0x4e;
    rom[1] = 0x45;
    rom[2] = 0x53;
    rom[3] = 0x1a;
    rom[4] = 1;
    rom[5] = 0;
    rom[16 + 0x3ffc] = 0x00;
    rom[16 + 0x3ffd] = 0x80;
    rom
}

fn nes_with_program(program: &[u8]) -> Bus {
    let mut rom = test_rom();
    for (i, b) in program.iter().enumerate() {
        rom[16 + i] = *b;
    }
    let cart = Cartridge::parse(&rom).unwrap();
    Bus::new(cart)
}

#[test]
fn palette_alias_write_sprite_read_background() {
    let mut nes = nes_with_program(&[0xea]);
    let memory = nes.memory();
    for k in [0x10usize, 0x14, 0x18, 0x1c] {
        let value = (0xa0 + k) as u8;
        memory.write(0x2006, 0x3f);
        memory.write(0x2006, k as u8);
        memory.write(0x2007, value);
        memory.write(0x2006, 0x3f);
        memory.write(0x2006, (k - 0x10) as u8);
        assert_eq!(memory.read(0x2007, false), value);
    }
}

#[test]
fn palette_mirror() {
    let mut nes = nes_with_program(&[0xea]);
    let memory = nes.memory();
    memory.write(0x2006, 0x3f);
    memory.write(0x2006, 0x00);
    for i in 0..32 {
        memory.write(0x2007, i as u8);
    }
    memory.write(0x2006, 0x3f);
    memory.write(0x2006, 0x00);
    let mut values = [0u8; 32];
    for i in 0..32 {
        values[i] = memory.read(0x2007, false);
    }
    assert_eq!(values[0x10], values[0x00]);
    assert_eq!(values[0x14], values[0x04]);
    assert_eq!(values[0x18], values[0x08]);
    assert_eq!(values[0x1c], values[0x0c]);
    // the shared cells saw both writes; the later one stands
    assert_eq!(values[0x00], 0x10);
    assert_eq!(values[0x04], 0x14);
    // unaliased cells keep their own bytes
    assert_eq!(values[0x01], 0x01);
    assert_eq!(values[0x11], 0x11);
}

#[test]
fn vram_round_trip() {
    let mut nes = nes_with_program(&[0xea]);
    let memory = nes.memory();
    let bytes = [0x11u8, 0x22, 0x33, 0x44];
    memory.write(0x2006, 0x20);
    memory.write(0x2006, 0x40);
    for b in bytes {
        memory.write(0x2007, b);
    }
    memory.write(0x2006, 0x20);
    memory.write(0x2006, 0x40);
    // the first read only primes the buffer
    let _ = memory.read(0x2007, false);
    for b in bytes {
        assert_eq!(memory.read(0x2007, false), b);
    }
}

#[test]
fn vram_round_trip_with_increment_32() {
    let mut nes = nes_with_program(&[0xea]);
    let memory = nes.memory();
    // select the 32-byte step
    memory.write(0x2000, 0x04);
    let bytes = [0x99u8, 0x88, 0x77];
    memory.write(0x2006, 0x20);
    memory.write(0x2006, 0x10);
    for b in bytes {
        memory.write(0x2007, b);
    }
    memory.write(0x2006, 0x20);
    memory.write(0x2006, 0x10);
    let _ = memory.read(0x2007, false);
    for b in bytes {
        assert_eq!(memory.read(0x2007, false), b);
    }
}

#[test]
fn status_read_clears_vblank_and_latch() {
    let mut nes = nes_with_program(&[0xea]);
    // run to the first dot of the vertical-blank line
    for _ in 0..4_000_000u64 {
        nes.clock();
        let ppu = &nes.memory_mapper.ppu;
        if ppu.scanline() == 241 && ppu.cycle() == 2 {
            break;
        }
    }
    assert_eq!(nes.memory_mapper.ppu.scanline(), 241);
    let memory = nes.memory();
    let first = memory.read(0x2002, false);
    assert_eq!(first & 0x80, 0x80);
    let second = memory.read(0x2002, false);
    assert_eq!(second & 0x80, 0x00);
}

#[test]
fn vbl_nmi() {
    let mut nes = nes_with_program(&[0xea]);
    // point the interrupt vector at the top half of the bank
    let mut rom = test_rom();
    for i in 0..16384 {
        rom[16 + i] = 0xea;
    }
    rom[16 + 0x3ffa] = 0x00;
    rom[16 + 0x3ffb] = 0x90;
    rom[16 + 0x3ffc] = 0x00;
    rom[16 + 0x3ffd] = 0x80;
    let cart = Cartridge::parse(&rom).unwrap();
    nes = Bus::new(cart);
    nes.reset();
    // let the reset sequence finish, then enable the interrupt
    for _ in 0..30 {
        nes.clock();
    }
    nes.memory().write(0x2000, 0x80);
    let mut onset_cycles = 0u64;
    for _ in 0..200_000u64 {
        nes.clock();
        let ppu = &nes.memory_mapper.ppu;
        if ppu.scanline() == 241 && ppu.cycle() == 2 {
            onset_cycles = nes.cpu_total_cycles();
            break;
        }
    }
    assert_eq!(nes.memory_mapper.ppu.scanline(), 241);
    assert_eq!(nes.memory().read(0x2002, true) & 0x80, 0x80);
    // the processor takes the vector within the current instruction plus
    // the seven-cycle interrupt sequence
    let mut vectored = false;
    for _ in 0..40 {
        nes.clock();
        if nes.cpu.regs.pc == 0x9000 {
            vectored = true;
            break;
        }
    }
    assert!(vectored);
    assert!(nes.cpu_total_cycles() - onset_cycles <= 9);
}

#[test]
fn pattern_table_debug_views() {
    let mut rom = test_rom();
    rom[5] = 1;
    rom.extend(vec![0u8; 8192]);
    // tile zero, top row: both edge pixels lit in the low plane
    rom[16 + 16384] = 0x81;
    let mut cart = nesrs::cartridge::Cartridge::parse(&rom).unwrap();
    let mut ppu = nesrs::ppu::PPU::new();
    // colour one of the background palette entries
    ppu.write_register(&mut cart, 0x2006, 0x3f);
    ppu.write_register(&mut cart, 0x2006, 0x01);
    ppu.write_register(&mut cart, 0x2007, 0x20);

    let tile = ppu.debug_pattern(&mut cart, 0, 0, 0);
    assert_eq!(tile.len(), 64);
    let lit = nesrs::utils::ppu_color(0x20);
    let dark = nesrs::utils::ppu_color(0x00);
    assert_eq!(tile[0], lit);
    assert_eq!(tile[7], lit);
    assert_eq!(tile[1], dark);
    assert_eq!(tile[8], dark);

    ppu.set_debug_pattern_screen(&mut cart, 0, 0);
    let canvas = &ppu.screen_debug_pattern[0];
    let image = canvas.image();
    // the first pixel of the canvas is the tile's lit corner
    assert_eq!(image[0], lit.0);
    assert_eq!(image[1], lit.1);
    assert_eq!(image[2], lit.2);
    // its right-hand neighbour is unlit
    assert_eq!(image[4], dark.0);
}
