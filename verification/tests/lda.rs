// The load-accumulator instruction across its addressing modes, with its
// zero and negative flags.

use nesrs::cpu::{CPU, INTERRUPT_RESET, STATUS_N, STATUS_Z};
use nesrs::memory::{Memory, RAM};

fn set_reset(mem: &mut RAM, address: u16) {
    mem.write(INTERRUPT_RESET as usize, (address & 0xff) as u8);
    mem.write(INTERRUPT_RESET as usize + 1, (address >> 8) as u8);
}

fn run_instruction(cpu: &mut CPU, mem: &mut RAM) {
    loop {
        cpu.clock(mem);
        if cpu.done() {
            break;
        }
    }
}

#[test]
fn lda_it_can_fetch_imm() {
    let mut cpu = CPU::new();
    let mut memory = RAM::new();
    set_reset(&mut memory, 0x8001);
    cpu.reset();
    run_instruction(&mut cpu, &mut memory);

    let prev_cycle = cpu.total_cycles;
    memory.write(0x8001, 0xa9);
    memory.write(0x8002, 0x55);
    run_instruction(&mut cpu, &mut memory);

    assert_eq!(cpu.regs.a, 0x55);
    assert_eq!(cpu.total_cycles - prev_cycle, 2);
}

#[test]
fn lda_it_can_fetch_abs() {
    let mut cpu = CPU::new();
    let mut memory = RAM::new();
    set_reset(&mut memory, 0x8001);
    cpu.reset();
    run_instruction(&mut cpu, &mut memory);

    let prev_cycle = cpu.total_cycles;
    memory.write(0x5455, 0xaa);
    memory.write(0x8001, 0xad);
    memory.write(0x8002, 0x55);
    memory.write(0x8003, 0x54);
    run_instruction(&mut cpu, &mut memory);

    assert_eq!(cpu.regs.a, 0xaa);
    assert_eq!(cpu.total_cycles - prev_cycle, 4);
}

#[test]
fn lda_it_can_fetch_abx() {
    let mut cpu = CPU::new();
    let mut memory = RAM::new();
    set_reset(&mut memory, 0x8001);
    cpu.reset();
    run_instruction(&mut cpu, &mut memory);

    let prev_cycle = cpu.total_cycles;
    let offset = 0x10;
    memory.write(0x5455, 0xaa);
    memory.write(0x5455 + offset, 0x01);
    cpu.regs.x = offset as u8;

    // no page crossing case
    memory.write(0x8001, 0xbd);
    memory.write(0x8002, 0x55);
    memory.write(0x8003, 0x54);
    run_instruction(&mut cpu, &mut memory);

    assert_eq!(cpu.regs.a, 0x01);
    assert_eq!(cpu.total_cycles - prev_cycle, 4);

    // page crossing case
    cpu.reset();
    run_instruction(&mut cpu, &mut memory);

    let prev_cycle = cpu.total_cycles;
    memory.write(0x54f5, 0xaa);
    memory.write(0x54f5 + offset, 0x02);
    cpu.regs.x = offset as u8;

    memory.write(0x8001, 0xbd);
    memory.write(0x8002, 0xf5);
    memory.write(0x8003, 0x54);
    run_instruction(&mut cpu, &mut memory);

    assert_eq!(cpu.regs.a, 0x02);
    assert_eq!(cpu.total_cycles - prev_cycle, 5);
}

#[test]
fn lda_it_can_fetch_aby() {
    let mut cpu = CPU::new();
    let mut memory = RAM::new();
    set_reset(&mut memory, 0x8001);
    cpu.reset();
    run_instruction(&mut cpu, &mut memory);

    let prev_cycle = cpu.total_cycles;
    let offset = 0x10;
    memory.write(0x5455, 0xaa);
    memory.write(0x5455 + offset, 0x01);
    cpu.regs.y = offset as u8;

    // no page crossing case
    memory.write(0x8001, 0xb9);
    memory.write(0x8002, 0x55);
    memory.write(0x8003, 0x54);
    run_instruction(&mut cpu, &mut memory);

    assert_eq!(cpu.regs.a, 0x01);
    assert_eq!(cpu.total_cycles - prev_cycle, 4);

    // page crossing case
    cpu.reset();
    run_instruction(&mut cpu, &mut memory);

    let prev_cycle = cpu.total_cycles;
    memory.write(0x54f5, 0xaa);
    memory.write(0x54f5 + offset, 0x02);
    cpu.regs.y = offset as u8;

    memory.write(0x8001, 0xb9);
    memory.write(0x8002, 0xf5);
    memory.write(0x8003, 0x54);
    run_instruction(&mut cpu, &mut memory);

    assert_eq!(cpu.regs.a, 0x02);
    assert_eq!(cpu.total_cycles - prev_cycle, 5);
}

#[test]
fn lda_it_can_set_flags() {
    let mut cpu = CPU::new();
    let mut memory = RAM::new();
    set_reset(&mut memory, 0x8001);
    cpu.reset();
    run_instruction(&mut cpu, &mut memory);

    memory.write(0x8001, 0xa9);
    memory.write(0x8002, 0x00);
    run_instruction(&mut cpu, &mut memory);

    assert_eq!(cpu.regs.a, 0x00);
    assert_eq!(cpu.regs.p.contains(STATUS_Z), true);

    cpu.reset();
    run_instruction(&mut cpu, &mut memory);

    memory.write(0x8001, 0xa9);
    memory.write(0x8002, 0x88);
    run_instruction(&mut cpu, &mut memory);

    assert_eq!(cpu.regs.a, 0x88);
    assert_eq!(cpu.regs.p.contains(STATUS_N), true);
}
