// The small parts on their own: the split sixteen-bit address, the loopy
// scroll word, the opcode table, the arithmetic unit, sprite memory, the
// pseudo-random source and the frame buffer.

use nesrs::cpu::{alu_adc, Int16};
use nesrs::opcodes::opcode_entry;
use nesrs::cpu::{AddressMode, Opcode};
use nesrs::ppu::{PPUAddress, OAMS};
use nesrs::utils::{ppu_color, Screen, XORShiftRand};

#[test]
fn int16_round_trip() {
    let v = Int16::new_from_16(0xabcd);
    assert_eq!(v.lo, 0xcd);
    assert_eq!(v.hi, 0xab);
    assert_eq!(v.to_u16(), 0xabcd);
    assert_eq!(v.to_usize(), 0xabcd);
}

#[test]
fn int16_carry() {
    let mut v = Int16::new(0xff, 0x12);
    v.add_offset(1);
    assert_eq!(v.lo, 0x00);
    assert_eq!(v.hi, 0x12);
    assert!(v.has_carry());
    v.add_hi_from_carry();
    assert_eq!(v.hi, 0x13);
    assert!(!v.has_carry());
}

#[test]
fn loopy_word_round_trip() {
    let mut a = PPUAddress::new();
    a.set_address(0x7fff);
    assert_eq!(a.coarse_x(), 31);
    assert_eq!(a.coarse_y(), 31);
    assert_eq!(a.nametable_select_x(), 1);
    assert_eq!(a.nametable_select_y(), 1);
    assert_eq!(a.fine_y(), 7);
    assert_eq!(a.address(), 0x7fff);
    a.set_address(0x2400);
    assert_eq!(a.address(), 0x2400);
    assert_eq!(a.nametable_select_x(), 1);
}

#[test]
fn loopy_word_stepping() {
    let mut a = PPUAddress::new();
    a.set_coarse_x(31);
    a.increase_coarse_x();
    assert_eq!(a.coarse_x(), 0);
    assert_eq!(a.nametable_select_x(), 1);
    let mut b = PPUAddress::new();
    b.set_fine_y(7);
    b.set_coarse_y(29);
    b.increase_coarse_y();
    assert_eq!(b.fine_y(), 0);
    assert_eq!(b.coarse_y(), 0);
    assert_eq!(b.nametable_select_y(), 1);
    let mut c = PPUAddress::new();
    c.set_fine_y(3);
    c.increase_coarse_y();
    assert_eq!(c.fine_y(), 4);
    assert_eq!(c.coarse_y(), 0);
}

#[test]
fn opcode_table_spot_checks() {
    assert_eq!(opcode_entry(0x00), (AddressMode::Imp, Opcode::Brk, 7));
    assert_eq!(opcode_entry(0xa9), (AddressMode::Imm, Opcode::Lda, 2));
    assert_eq!(opcode_entry(0x6c), (AddressMode::Ind, Opcode::Jmp, 5));
    assert_eq!(opcode_entry(0x91), (AddressMode::Izy, Opcode::Sta, 6));
    assert_eq!(opcode_entry(0x1e), (AddressMode::Abx, Opcode::Asl, 7));
    assert_eq!(opcode_entry(0x02), (AddressMode::Imp, Opcode::Xxx, 2));
}

#[test]
fn adder_flags() {
    // carry out without signed overflow
    assert_eq!(alu_adc(0xff, 0x01, false), (0x00, true, false));
    // signed overflow without carry
    assert_eq!(alu_adc(0x50, 0x50, false), (0xa0, false, true));
    // the incoming carry participates
    assert_eq!(alu_adc(0x10, 0x20, true), (0x31, false, false));
    // both negative operands overflowing back to positive
    assert_eq!(alu_adc(0x80, 0x80, false), (0x00, true, true));
}

#[test]
fn sprite_table_bytes() {
    let mut oams = OAMS::new(64);
    oams.write_byte(9, 0x42);
    assert_eq!(oams.read_byte(9), 0x42);
    assert_eq!(oams.get(2).id, 0x42);
    assert_eq!(oams.read_byte(8), 0xff);
    oams.reset();
    assert_eq!(oams.read_byte(9), 0xff);
}

#[test]
fn pseudo_random_is_deterministic() {
    let mut a = XORShiftRand::new(0x1234_5678_9abc_def0);
    let mut b = XORShiftRand::new(0x1234_5678_9abc_def0);
    let mut c = XORShiftRand::new(1);
    let va = a.rand();
    assert_eq!(va, b.rand());
    assert_ne!(va, c.rand());
    assert_ne!(a.rand(), va);
}

#[test]
fn screen_pixels() {
    let mut screen = Screen::new(4, 2);
    assert_eq!(screen.width(), 4);
    assert_eq!(screen.height(), 2);
    screen.set_pixel(1, 1, (10, 20, 30));
    let image = screen.image();
    let base = (4 * 1 + 1) * 4;
    assert_eq!(image[base], 10);
    assert_eq!(image[base + 1], 20);
    assert_eq!(image[base + 2], 30);
    assert_eq!(image[base + 3], 255);
}

#[test]
fn palette_colors() {
    assert_eq!(ppu_color(0), (84, 84, 84));
    assert_eq!(ppu_color(0x20), (236, 238, 236));
    assert_eq!(ppu_color(0x40), (84, 84, 84));
}
