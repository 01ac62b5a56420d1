// The arithmetic shift left in its accumulator and read-modify-write
// forms, with its carry, zero and negative flags.

use nesrs::cpu::{CPU, INTERRUPT_RESET, STATUS_C, STATUS_N, STATUS_Z};
use nesrs::memory::{Memory, RAM};

fn set_reset(mem: &mut RAM, address: u16) {
    mem.write(INTERRUPT_RESET as usize, (address & 0xff) as u8);
    mem.write(INTERRUPT_RESET as usize + 1, (address >> 8) as u8);
}

fn run_instruction(cpu: &mut CPU, mem: &mut RAM) {
    loop {
        cpu.clock(mem);
        if cpu.done() {
            break;
        }
    }
}

#[test]
fn it_can_fetch_acc() {
    let mut cpu = CPU::new();
    let mut memory = RAM::new();
    set_reset(&mut memory, 0x8001);
    cpu.reset();
    run_instruction(&mut cpu, &mut memory);

    let prev_cycle = cpu.total_cycles;
    cpu.regs.a = 0x55;
    let expected = ((0x55 << 1) & 0xff) as u8;

    memory.write(0x8001, 0x0a);
    run_instruction(&mut cpu, &mut memory);

    assert_eq!(cpu.regs.a, expected);
    assert_eq!(cpu.total_cycles - prev_cycle, 2);
}

#[test]
fn asl_it_can_fetch_zp0() {
    let mut cpu = CPU::new();
    let mut memory = RAM::new();
    set_reset(&mut memory, 0x8001);
    cpu.reset();
    run_instruction(&mut cpu, &mut memory);

    let prev_cycle = cpu.total_cycles;
    let loc = 0x0000;
    memory.write(loc, 0x55);
    let expected = ((0x55 << 1) & 0xff) as u8;

    memory.write(0x8001, 0x06);
    memory.write(0x8002, 0x00);
    run_instruction(&mut cpu, &mut memory);

    assert_eq!(memory.ram[loc], expected);
    assert_eq!(cpu.total_cycles - prev_cycle, 5);
}

#[test]
fn asl_it_can_fetch_abs() {
    let mut cpu = CPU::new();
    let mut memory = RAM::new();
    set_reset(&mut memory, 0x8001);
    cpu.reset();
    run_instruction(&mut cpu, &mut memory);

    let prev_cycle = cpu.total_cycles;
    let loc = 0x5000;
    memory.write(loc, 0x55);
    let expected = ((0x55 << 1) & 0xff) as u8;

    memory.write(0x8001, 0x0e);
    memory.write(0x8002, 0x00);
    memory.write(0x8003, 0x50);
    run_instruction(&mut cpu, &mut memory);

    assert_eq!(memory.ram[loc], expected);
    assert_eq!(cpu.total_cycles - prev_cycle, 6);
}

#[test]
fn asl_it_can_fetch_abx() {
    let mut cpu = CPU::new();
    let offset = 0x10;
    let mut memory = RAM::new();
    set_reset(&mut memory, 0x8001);
    cpu.reset();
    run_instruction(&mut cpu, &mut memory);

    let prev_cycle = cpu.total_cycles;
    let loc = 0x5000 + offset;
    cpu.regs.x = offset as u8;
    memory.write(loc, 0x55);
    let expected = ((0x55 << 1) & 0xff) as u8;

    memory.write(0x8001, 0x1e);
    memory.write(0x8002, 0x00);
    memory.write(0x8003, 0x50);
    run_instruction(&mut cpu, &mut memory);

    assert_eq!(memory.ram[loc], expected);
    assert_eq!(cpu.total_cycles - prev_cycle, 7);
}

#[test]
fn asl_it_can_set_flags() {
    let mut cpu = CPU::new();
    let mut memory = RAM::new();
    set_reset(&mut memory, 0x8001);
    cpu.reset();
    run_instruction(&mut cpu, &mut memory);

    cpu.regs.a = 0x00;
    memory.write(0x8001, 0x0a);
    run_instruction(&mut cpu, &mut memory);

    assert_eq!(cpu.regs.a, 0x00);
    assert_eq!(cpu.regs.p.contains(STATUS_Z), true);
    assert_eq!(cpu.regs.p.contains(STATUS_C), false);

    cpu.reset();
    run_instruction(&mut cpu, &mut memory);
    cpu.regs.a = 0x80;
    run_instruction(&mut cpu, &mut memory);
    assert_eq!(cpu.regs.a, 0x00);
    assert_eq!(cpu.regs.p.contains(STATUS_C), true);

    cpu.reset();
    run_instruction(&mut cpu, &mut memory);
    cpu.regs.a = 0x7f;
    let expected = ((0x7f << 1) & 0xff) as u8;
    run_instruction(&mut cpu, &mut memory);
    assert_eq!(cpu.regs.a, expected);
    assert_eq!(cpu.regs.p.contains(STATUS_N), true);
}
