// The increment-memory instruction: its double write, its flags, and the
// always-taken extra cycle of its indexed form.

use nesrs::cpu::{CPU, STATUS_N, STATUS_Z};
use nesrs::memory::RAM;

fn run_instruction(cpu: &mut CPU, mem: &mut RAM) {
    loop {
        cpu.clock(mem);
        if cpu.done() {
            break;
        }
    }
}

#[test]
fn inc_abs() {
    let mut bus = RAM::new();
    let mut cpu = CPU::new();
    bus.ram[0x0000] = 0xee;
    bus.ram[0x0001] = 0x00;
    bus.ram[0x0002] = 0x01;
    bus.ram[0x0100] = 0x10;

    run_instruction(&mut cpu, &mut bus);

    assert_eq!(bus.ram[0x0100], 0x11);
    assert_eq!(cpu.total_cycles, 6);
}

#[test]
fn inc_set_z() {
    let mut bus = RAM::new();
    let mut cpu = CPU::new();
    bus.ram[0x0000] = 0xee;
    bus.ram[0x0001] = 0x00;
    bus.ram[0x0002] = 0x01;
    bus.ram[0x0100] = 0xff;

    run_instruction(&mut cpu, &mut bus);

    assert_eq!(bus.ram[0x0100], 0x00);
    assert_eq!(cpu.regs.p.contains(STATUS_Z), true);
}

#[test]
fn inc_set_n() {
    let mut bus = RAM::new();
    let mut cpu = CPU::new();
    bus.ram[0x0000] = 0xee;
    bus.ram[0x0001] = 0x00;
    bus.ram[0x0002] = 0x01;
    bus.ram[0x0100] = 0x7f;

    run_instruction(&mut cpu, &mut bus);

    assert_eq!(bus.ram[0x0100], 0x80);
    assert_eq!(cpu.regs.p.contains(STATUS_N), true);
}

#[test]
fn inc_abx() {
    let mut bus = RAM::new();
    let mut cpu = CPU::new();
    bus.ram[0x0000] = 0xfe;
    bus.ram[0x0001] = 0x00;
    bus.ram[0x0002] = 0x01;
    bus.ram[0x0101] = 0x10;
    cpu.regs.x = 0x01;

    run_instruction(&mut cpu, &mut bus);

    assert_eq!(bus.ram[0x0101], 0x11);
    assert_eq!(cpu.total_cycles, 7);
}
