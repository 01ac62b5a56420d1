// Cycle accounting: branch timing with and without a page crossing, the
// sprite-memory block transfer's stall, the master-clock ratio over whole
// frames, and the one-bus-access-per-tick pairing.

use nesrs::bus::Bus;
use nesrs::cartridge::Cartridge;
use nesrs::cpu::{CPU, INTERRUPT_RESET};
use nesrs::memory::{Memory, RAM};

fn set_reset(mem: &mut RAM, address: u16) {
    mem.write(INTERRUPT_RESET as usize, (address & 0xff) as u8);
    mem.write(INTERRUPT_RESET as usize + 1, (address >> 8) as u8);
}

fn run_instruction(cpu: &mut CPU, mem: &mut RAM) {
    loop {
        cpu.clock(mem);
        if cpu.done() {
            break;
        }
    }
}

fn test_rom() -> Vec<u8> {
    let mut rom = vec![0u8; 16 + 16384];
    rom[0] = 0x4e;
    rom[1] = 0x45;
    rom[2] = 0x53;
    rom[3] = 0x1a;
    rom[4] = 1;
    rom[5] = 0;
    rom[16 + 0x3ffc] = 0x00;
    rom[16 + 0x3ffd] = 0x80;
    rom
}

fn nes_with_program(program: &[u8]) -> Bus {
    let mut rom = test_rom();
    for (i, b) in program.iter().enumerate() {
        rom[16 + i] = *b;
    }
    let cart = Cartridge::parse(&rom).unwrap();
    Bus::new(cart)
}

#[test]
fn branch_taken_same_page() {
    let mut cpu = CPU::new();
    let mut memory = RAM::new();
    set_reset(&mut memory, 0x8000);
    cpu.reset();
    run_instruction(&mut cpu, &mut memory);

    // BPL +2 with the negative flag clear
    memory.write(0x8000, 0x10);
    memory.write(0x8001, 0x02);
    let prev = cpu.total_cycles;
    run_instruction(&mut cpu, &mut memory);

    assert_eq!(cpu.regs.pc, 0x8004);
    assert_eq!(cpu.total_cycles - prev, 3);
}

#[test]
fn branch_taken_page_cross() {
    let mut cpu = CPU::new();
    let mut memory = RAM::new();
    set_reset(&mut memory, 0x80fc);
    cpu.reset();
    run_instruction(&mut cpu, &mut memory);

    // relocated so the displaced target leaves the page
    memory.write(0x80fc, 0x10);
    memory.write(0x80fd, 0x02);
    let prev = cpu.total_cycles;
    run_instruction(&mut cpu, &mut memory);

    assert_eq!(cpu.regs.pc, 0x8100);
    assert_eq!(cpu.total_cycles - prev, 4);
}

#[test]
fn branch_not_taken() {
    let mut cpu = CPU::new();
    let mut memory = RAM::new();
    set_reset(&mut memory, 0x8000);
    cpu.reset();
    run_instruction(&mut cpu, &mut memory);

    // BMI with the negative flag clear falls through
    memory.write(0x8000, 0x30);
    memory.write(0x8001, 0x02);
    let prev = cpu.total_cycles;
    run_instruction(&mut cpu, &mut memory);

    assert_eq!(cpu.regs.pc, 0x8002);
    assert_eq!(cpu.total_cycles - prev, 2);
}

fn run_dma(nes: &mut Bus) -> u64 {
    // fill the page the transfer reads from
    for i in 0..256usize {
        let value = ((i * 3 + 1) % 256) as u8;
        nes.memory().write(0x0700 + i, value);
    }
    nes.reset();
    let mut started = false;
    for _ in 0..40_000u64 {
        nes.clock();
        if nes.memory_mapper.do_oam_dma {
            started = true;
        }
        if started && !nes.memory_mapper.do_oam_dma {
            break;
        }
    }
    assert!(started);
    assert!(!nes.memory_mapper.do_oam_dma);
    for i in 0..256usize {
        let expected = ((i * 3 + 1) % 256) as u8;
        assert_eq!(nes.memory_mapper.ppu.oams.read_byte(i), expected);
    }
    nes.dma_ticks
}

#[test]
fn oam_dma_timing_even() {
    // LDA #$07, STA $4014: the trigger write lands on an even cycle
    let mut nes = nes_with_program(&[0xa9, 0x07, 0x8d, 0x14, 0x40, 0xea, 0xea, 0xea]);
    let stall = run_dma(&mut nes);
    assert_eq!(stall, 513);
}

#[test]
fn oam_dma_timing_odd() {
    // LDA $00, LDA #$07, STA $4014: one cycle later, an odd trigger
    let mut nes = nes_with_program(&[0xa5, 0x00, 0xa9, 0x07, 0x8d, 0x14, 0x40, 0xea, 0xea]);
    let stall = run_dma(&mut nes);
    assert_eq!(stall, 514);
}

#[test]
fn master_clock_ratio_over_frames() {
    let mut nes = nes_with_program(&[0xea]);
    nes.reset();
    for expected in 1..=3u64 {
        nes.clock_until_frame_done();
        assert_eq!(nes.total_frames, expected);
        let shares = nes.cpu_total_cycles() + nes.dma_ticks;
        assert!(3 * shares <= nes.ppu_total_cycles() + 2);
        assert!(nes.ppu_total_cycles() <= 3 * shares);
    }
}

#[test]
fn one_bus_access_per_tick() {
    let mut cpu = CPU::new();
    let mut memory = RAM::new();
    set_reset(&mut memory, 0x8000);
    // a mix of loads, stores, read-modify-writes, stack and branch work
    let program = [
        0xa9, 0x41, 0x8d, 0x00, 0x02, 0xee, 0x00, 0x02, 0x48, 0x68, 0x20, 0x20, 0x80, 0xea, 0x60,
        0x10, 0xf0,
    ];
    for (i, b) in program.iter().enumerate() {
        memory.write(0x8000 + i, *b);
    }
    cpu.reset();
    for _ in 0..200 {
        cpu.clock(&mut memory);
        assert_eq!(cpu.accesses, cpu.total_cycles);
    }
}

#[test]
fn frame_lengths_alternate_when_rendering() {
    // with the background enabled, odd frames drop one dot
    let mut nes = nes_with_program(&[0xea]);
    nes.reset();
    nes.memory().write(0x2001, 0x08);
    nes.clock_until_frame_done();
    let t1 = nes.ppu_total_cycles();
    nes.clock_until_frame_done();
    let t2 = nes.ppu_total_cycles();
    nes.clock_until_frame_done();
    let t3 = nes.ppu_total_cycles();
    let first = t2 - t1;
    let second = t3 - t2;
    assert_eq!(first + second, 89341 + 89342);
    assert_ne!(first, second);
}
