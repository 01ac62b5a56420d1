// The load-X instruction and its zero and negative flags, run on a flat
// memory from power-on at address zero.

use nesrs::cpu::{CPU, STATUS_N, STATUS_Z};
use nesrs::memory::RAM;

fn run_instruction(cpu: &mut CPU, mem: &mut RAM) {
    loop {
        cpu.clock(mem);
        if cpu.done() {
            break;
        }
    }
}

#[test]
fn ldx() {
    let mut bus = RAM::new();
    let mut cpu = CPU::new();
    bus.ram[0x0000] = 0xa2;
    bus.ram[0x0001] = 0xff;

    run_instruction(&mut cpu, &mut bus);

    assert_eq!(cpu.regs.x, 0xff);
    assert_eq!(cpu.total_cycles, 2);
}

#[test]
fn ldx_set_z() {
    let mut bus = RAM::new();
    let mut cpu = CPU::new();
    bus.ram[0x0000] = 0xae;
    bus.ram[0x0001] = 0x00;
    bus.ram[0x0002] = 0x01;
    bus.ram[0x0100] = 0x00;

    run_instruction(&mut cpu, &mut bus);

    assert_eq!(cpu.regs.x, 0x00);
    assert_eq!(cpu.regs.p.contains(STATUS_Z), true);
}

#[test]
fn ldx_set_n() {
    let mut bus = RAM::new();
    let mut cpu = CPU::new();
    bus.ram[0x0000] = 0xae;
    bus.ram[0x0001] = 0x00;
    bus.ram[0x0002] = 0x01;
    bus.ram[0x0100] = 0x81;

    run_instruction(&mut cpu, &mut bus);

    assert_eq!(cpu.regs.x, 0x81);
    assert_eq!(cpu.regs.p.contains(STATUS_N), true);
}
