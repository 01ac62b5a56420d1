// The reset sequence and the non-maskable interrupt round trip.

use nesrs::cpu::{CPU, INTERRUPT_RESET, STATUS_I};
use nesrs::memory::{Memory, RAM};

fn set_reset(mem: &mut RAM, address: u16) {
    mem.write(INTERRUPT_RESET as usize, (address & 0xff) as u8);
    mem.write(INTERRUPT_RESET as usize + 1, (address >> 8) as u8);
}

fn run_instruction(cpu: &mut CPU, mem: &mut RAM) {
    loop {
        cpu.clock(mem);
        if cpu.done() {
            break;
        }
    }
}

#[test]
fn it_can_reset() {
    let mut cpu = CPU::new();
    let mut memory = RAM::new();
    set_reset(&mut memory, 0x8001);

    cpu.reset();
    run_instruction(&mut cpu, &mut memory);

    assert_eq!(cpu.total_cycles, 7);
    assert_eq!(cpu.regs.pc, 0x8001);
    assert_eq!(cpu.regs.sp, 0xfd);
    assert_eq!(cpu.regs.p.bits(), 0x24);
}

#[test]
fn it_can_interrupt_nmi_and_rti() {
    let mut cpu = CPU::new();
    let mut memory = RAM::new();
    set_reset(&mut memory, 0x8001);

    memory.write(0xfffe, 0x00);
    memory.write(0xffff, 0x60);

    memory.write(0xfffa, 0x00);
    memory.write(0xfffb, 0xc0);

    memory.write(0xc000, 0x40);
    memory.write(0xc001, 0x40);

    cpu.reset();
    run_instruction(&mut cpu, &mut memory);

    let prev_cycle = cpu.total_cycles;

    cpu.regs.p.insert(STATUS_I);
    cpu.nmi();

    let pc = cpu.regs.pc;
    run_instruction(&mut cpu, &mut memory);

    assert_eq!(cpu.regs.pc, 0xc000);
    assert_eq!(cpu.total_cycles - prev_cycle, 7);

    let prev_cycle = cpu.total_cycles;
    run_instruction(&mut cpu, &mut memory);

    assert_eq!(cpu.regs.pc, pc);
    assert_eq!(cpu.total_cycles - prev_cycle, 6);
}

#[test]
fn it_can_interrupt_and_rti() {
    let mut cpu = CPU::new();
    let mut memory = RAM::new();
    set_reset(&mut memory, 0x8001);

    memory.write(0xfffe, 0x00);
    memory.write(0xffff, 0x60);

    memory.write(0xfffa, 0x00);
    memory.write(0xfffb, 0xc0);

    memory.write(0x6000, 0x40);
    memory.write(0x8001, 0xea);

    cpu.reset();
    run_instruction(&mut cpu, &mut memory);

    let prev_cycle = cpu.total_cycles;

    cpu.regs.p.insert(STATUS_I);
    cpu.irq();

    run_instruction(&mut cpu, &mut memory);

    assert_ne!(cpu.regs.pc, 0x6000);
    assert_ne!(cpu.total_cycles - prev_cycle, 7);

    let prev_cycle = cpu.total_cycles;
    cpu.regs.p.remove(STATUS_I);
    cpu.irq();

    let pc = cpu.regs.pc;
    run_instruction(&mut cpu, &mut memory);

    assert_eq!(cpu.regs.pc, 0x6000);
    assert_eq!(cpu.total_cycles - prev_cycle, 7);

    let prev_cycle = cpu.total_cycles;
    run_instruction(&mut cpu, &mut memory);

    assert_eq!(cpu.regs.pc, pc);
    assert_eq!(cpu.total_cycles - prev_cycle, 6);
}
