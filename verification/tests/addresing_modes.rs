// Addressing-mode timing exercised through the reset sequence: the
// processor is reset to a program placed at 0x8001 and runs one
// instruction at a time.

use nesrs::cpu::{CPU, INTERRUPT_RESET};
use nesrs::memory::{Memory, RAM};

fn set_reset(mem: &mut RAM, address: u16) {
    mem.write(INTERRUPT_RESET as usize, (address & 0xff) as u8);
    mem.write(INTERRUPT_RESET as usize + 1, (address >> 8) as u8);
}

fn run_instruction(cpu: &mut CPU, mem: &mut RAM) {
    loop {
        cpu.clock(mem);
        if cpu.done() {
            break;
        }
    }
}

#[test]
fn addresing_modes_it_can_fetch_imm() {
    let mut cpu = CPU::new();
    let mut memory = RAM::new();
    set_reset(&mut memory, 0x8001);
    cpu.reset();
    run_instruction(&mut cpu, &mut memory);

    let prev_cycle = cpu.total_cycles;
    memory.write(0x8001, 0xa9);
    memory.write(0x8002, 0x55);
    run_instruction(&mut cpu, &mut memory);

    assert_eq!(cpu.regs.a, 0x55);
    assert_eq!(cpu.total_cycles - prev_cycle, 2);
}

#[test]
fn addresing_modes_it_can_fetch_abs() {
    let mut cpu = CPU::new();
    let mut memory = RAM::new();
    set_reset(&mut memory, 0x8001);
    cpu.reset();
    run_instruction(&mut cpu, &mut memory);

    let prev_cycle = cpu.total_cycles;
    memory.write(0x5455, 0xaa);
    memory.write(0x8001, 0xad);
    memory.write(0x8002, 0x55);
    memory.write(0x8003, 0x54);
    run_instruction(&mut cpu, &mut memory);

    assert_eq!(cpu.regs.a, 0xaa);
    assert_eq!(cpu.total_cycles - prev_cycle, 4);
}

#[test]
fn addresing_modes_it_can_fetch_abx() {
    let mut cpu = CPU::new();
    let mut memory = RAM::new();
    set_reset(&mut memory, 0x8001);
    cpu.reset();
    run_instruction(&mut cpu, &mut memory);

    let prev_cycle = cpu.total_cycles;
    let offset = 0x10;
    memory.write(0x5455, 0xaa);
    memory.write(0x5455 + offset, 0x01);
    cpu.regs.x = offset as u8;

    // no page crossing case
    memory.write(0x8001, 0xbd);
    memory.write(0x8002, 0x55);
    memory.write(0x8003, 0x54);
    run_instruction(&mut cpu, &mut memory);

    assert_eq!(cpu.regs.a, 0x01);
    assert_eq!(cpu.total_cycles - prev_cycle, 4);

    // page crossing case
    cpu.reset();
    run_instruction(&mut cpu, &mut memory);

    let prev_cycle = cpu.total_cycles;
    memory.write(0x54f5, 0xaa);
    memory.write(0x54f5 + offset, 0x02);
    cpu.regs.x = offset as u8;

    memory.write(0x8001, 0xbd);
    memory.write(0x8002, 0xf5);
    memory.write(0x8003, 0x54);
    run_instruction(&mut cpu, &mut memory);

    assert_eq!(cpu.regs.a, 0x02);
    assert_eq!(cpu.total_cycles - prev_cycle, 5);
}

#[test]
fn addresing_modes_it_can_fetch_aby() {
    let mut cpu = CPU::new();
    let mut memory = RAM::new();
    set_reset(&mut memory, 0x8001);
    cpu.reset();
    run_instruction(&mut cpu, &mut memory);

    let prev_cycle = cpu.total_cycles;
    let offset = 0x10;
    memory.write(0x5455, 0xaa);
    memory.write(0x5455 + offset, 0x01);
    cpu.regs.y = offset as u8;

    // no page crossing case
    memory.write(0x8001, 0xb9);
    memory.write(0x8002, 0x55);
    memory.write(0x8003, 0x54);
    run_instruction(&mut cpu, &mut memory);

    assert_eq!(cpu.regs.a, 0x01);
    assert_eq!(cpu.total_cycles - prev_cycle, 4);

    // page crossing case
    cpu.reset();
    run_instruction(&mut cpu, &mut memory);

    let prev_cycle = cpu.total_cycles;
    memory.write(0x54f5, 0xaa);
    memory.write(0x54f5 + offset, 0x02);
    cpu.regs.y = offset as u8;

    memory.write(0x8001, 0xb9);
    memory.write(0x8002, 0xf5);
    memory.write(0x8003, 0x54);
    run_instruction(&mut cpu, &mut memory);

    assert_eq!(cpu.regs.a, 0x02);
    assert_eq!(cpu.total_cycles - prev_cycle, 5);
}

#[test]
fn addresing_modes_it_can_fetch_zp0() {
    let mut cpu = CPU::new();
    let mut memory = RAM::new();
    set_reset(&mut memory, 0x8001);
    cpu.reset();
    run_instruction(&mut cpu, &mut memory);

    let prev_cycle = cpu.total_cycles;
    memory.write(0x55, 0xaa);
    memory.write(0x8001, 0xa5);
    memory.write(0x8002, 0x55);
    run_instruction(&mut cpu, &mut memory);

    assert_eq!(cpu.regs.a, 0xaa);
    assert_eq!(cpu.total_cycles - prev_cycle, 3);
}

#[test]
fn it_can_fetch_zpx() {
    let mut cpu = CPU::new();
    let offset = 0x10;
    let mut memory = RAM::new();
    set_reset(&mut memory, 0x8001);
    cpu.reset();
    run_instruction(&mut cpu, &mut memory);
    cpu.regs.x = offset as u8;

    let prev_cycle = cpu.total_cycles;
    memory.write(0x55 + offset, 0xaa);
    memory.write(0x8001, 0xb5);
    memory.write(0x8002, 0x55);
    run_instruction(&mut cpu, &mut memory);

    assert_eq!(cpu.regs.a, 0xaa);
    assert_eq!(cpu.total_cycles - prev_cycle, 4);
}

#[test]
fn it_can_fetch_zpy() {
    let mut cpu = CPU::new();
    let offset = 0x10;
    let mut memory = RAM::new();
    set_reset(&mut memory, 0x8001);
    cpu.reset();
    run_instruction(&mut cpu, &mut memory);
    cpu.regs.y = offset as u8;

    let prev_cycle = cpu.total_cycles;
    memory.write(0x55 + offset, 0xaa);
    memory.write(0x8001, 0xb6);
    memory.write(0x8002, 0x55);
    run_instruction(&mut cpu, &mut memory);

    assert_eq!(cpu.regs.x, 0xaa);
    assert_eq!(cpu.total_cycles - prev_cycle, 4);
}
