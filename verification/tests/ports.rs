// The controller ports: strobe latching and the serial order of the
// shift-out, through the console bus and on a bare controller.

use nesrs::bus::Bus;
use nesrs::cartridge::Cartridge;
use nesrs::controller::{
    Controller, BUTTON_A, BUTTON_B, BUTTON_DOWN, BUTTON_LEFT, BUTTON_RIGHT, BUTTON_SELECT,
    BUTTON_START, BUTTON_UP,
};

fn test_rom() -> Vec<u8> {
    let mut rom = vec![0u8; 16 + 16384];
    rom[0] = 0x4e;
    rom[1] = 0x45;
    rom[2] = 0x53;
    rom[3] = 0x1a;
    rom[4] = 1;
    rom[5] = 0;
    rom[16 + 0x3ffc] = 0x00;
    rom[16 + 0x3ffd] = 0x80;
    rom
}

#[test]
fn controller_shift_all_buttons() {
    let rom = test_rom();
    let cart = Cartridge::parse(&rom).unwrap();
    let mut nes = Bus::new(cart);
    let all = BUTTON_A | BUTTON_B | BUTTON_SELECT | BUTTON_START | BUTTON_UP | BUTTON_DOWN
        | BUTTON_LEFT | BUTTON_RIGHT;
    nes.press_controller_button(0, all, true);
    let memory = nes.memory();
    memory.write(0x4016, 1);
    memory.write(0x4016, 0);
    for _ in 0..8 {
        assert_eq!(memory.read(0x4016, false), 1);
    }
    // the ninth read comes after the register has drained
    assert_eq!(memory.read(0x4016, false), 0);
}

#[test]
fn controller_shift_order() {
    let rom = test_rom();
    let cart = Cartridge::parse(&rom).unwrap();
    let mut nes = Bus::new(cart);
    nes.press_controller_button(0, BUTTON_A, true);
    nes.press_controller_button(0, BUTTON_START, true);
    nes.press_controller_button(0, BUTTON_LEFT, true);
    let memory = nes.memory();
    memory.write(0x4016, 1);
    memory.write(0x4016, 0);
    let expected = [1, 0, 0, 1, 0, 0, 1, 0];
    for i in 0..8 {
        assert_eq!(memory.read(0x4016, false), expected[i]);
    }
}

#[test]
fn controller_second_port() {
    let rom = test_rom();
    let cart = Cartridge::parse(&rom).unwrap();
    let mut nes = Bus::new(cart);
    nes.press_controller_button(1, BUTTON_B, true);
    let memory = nes.memory();
    memory.write(0x4016, 1);
    memory.write(0x4016, 0);
    assert_eq!(memory.read(0x4017, false), 0);
    assert_eq!(memory.read(0x4017, false), 1);
    assert_eq!(memory.read(0x4017, false), 0);
}

#[test]
fn controller_strobe_high_repeats_first_button() {
    let mut pad = Controller::new();
    pad.set_button_status(BUTTON_A, true);
    pad.write(1);
    assert_eq!(pad.read(), 1);
    assert_eq!(pad.read(), 1);
    assert_eq!(pad.read(), 1);
    pad.set_button_status(BUTTON_A, false);
    assert_eq!(pad.read(), 0);
}

#[test]
fn controller_release_clears_bit() {
    let mut pad = Controller::new();
    pad.set_button_status(BUTTON_UP, true);
    pad.set_button_status(BUTTON_UP, false);
    pad.write(1);
    pad.write(0);
    for _ in 0..8 {
        assert_eq!(pad.read(), 0);
    }
}
