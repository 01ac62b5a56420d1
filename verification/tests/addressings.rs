// Instruction timing and addressing behaviour of the processor run on a
// flat memory, one instruction from power-on at address zero.

use nesrs::cpu::CPU;
use nesrs::memory::RAM;

fn run_instruction(cpu: &mut CPU, mem: &mut RAM) {
    loop {
        cpu.clock(mem);
        if cpu.done() {
            break;
        }
    }
}

#[test]
fn lda_imm() {
    let mut bus = RAM::new();
    let mut cpu = CPU::new();
    bus.ram[0x0000] = 0xa9;
    bus.ram[0x0001] = 0xff;

    run_instruction(&mut cpu, &mut bus);

    assert_eq!(cpu.regs.a, 0xff);
    assert_eq!(cpu.total_cycles, 2);
}

#[test]
fn lda_abs() {
    let mut bus = RAM::new();
    let mut cpu = CPU::new();
    bus.ram[0x0000] = 0xad;
    bus.ram[0x0001] = 0x00;
    bus.ram[0x0002] = 0x01;
    bus.ram[0x0100] = 0xff;

    run_instruction(&mut cpu, &mut bus);

    assert_eq!(cpu.regs.a, 0xff);
    assert_eq!(cpu.total_cycles, 4);
}

#[test]
fn lda_zp0() {
    let mut bus = RAM::new();
    let mut cpu = CPU::new();
    bus.ram[0x0000] = 0xa5;
    bus.ram[0x0001] = 0x00;

    run_instruction(&mut cpu, &mut bus);

    assert_eq!(cpu.regs.a, 0xa5);
    assert_eq!(cpu.total_cycles, 3);
}

#[test]
fn lda_zpx() {
    let mut bus = RAM::new();
    let mut cpu = CPU::new();
    bus.ram[0x0000] = 0xb5;
    bus.ram[0x0001] = 0x00;
    bus.ram[0x0002] = 0xff;
    cpu.regs.x = 0x02;

    run_instruction(&mut cpu, &mut bus);

    assert_eq!(cpu.regs.a, 0xff);
    assert_eq!(cpu.total_cycles, 4);
}

#[test]
fn lda_zpx_wrap() {
    let mut bus = RAM::new();
    let mut cpu = CPU::new();
    bus.ram[0x0000] = 0xb5;
    bus.ram[0x0001] = 0x80;
    bus.ram[0x007f] = 0xff;
    cpu.regs.x = 0xff;

    run_instruction(&mut cpu, &mut bus);

    assert_eq!(cpu.regs.a, 0xff);
}

#[test]
fn lda_izx() {
    let mut bus = RAM::new();
    let mut cpu = CPU::new();
    bus.ram[0x0000] = 0xa1;
    bus.ram[0x0001] = 0x01;
    bus.ram[0x0002] = 0x00;
    bus.ram[0x0003] = 0x00;
    bus.ram[0x0004] = 0x80;
    bus.ram[0x8000] = 0xff;
    cpu.regs.x = 0x02;

    run_instruction(&mut cpu, &mut bus);

    assert_eq!(cpu.regs.a, 0xff);
    assert_eq!(cpu.total_cycles, 6);
}

#[test]
fn lda_izy_no_cross() {
    let mut bus = RAM::new();
    let mut cpu = CPU::new();
    bus.ram[0x0000] = 0xb1;
    bus.ram[0x0001] = 0x02;
    bus.ram[0x0002] = 0x00;
    bus.ram[0x0003] = 0x80;
    bus.ram[0x8002] = 0xff;
    cpu.regs.y = 0x02;

    run_instruction(&mut cpu, &mut bus);

    assert_eq!(cpu.regs.a, 0xff);
    assert_eq!(cpu.total_cycles, 5);
}

#[test]
fn lda_izy_crosspage() {
    let mut bus = RAM::new();
    let mut cpu = CPU::new();
    bus.ram[0x0000] = 0xb1;
    bus.ram[0x0001] = 0x02;
    bus.ram[0x0002] = 0x01;
    bus.ram[0x0003] = 0x80;
    bus.ram[0x8100] = 0xff;
    cpu.regs.y = 0xff;

    run_instruction(&mut cpu, &mut bus);

    assert_eq!(cpu.regs.a, 0xff);
    assert_eq!(cpu.total_cycles, 6);
}

#[test]
fn lda_abx_no_cross_page() {
    let mut bus = RAM::new();
    let mut cpu = CPU::new();
    bus.ram[0x0000] = 0xbd;
    bus.ram[0x0001] = 0x00;
    bus.ram[0x0002] = 0x01;
    bus.ram[0x0101] = 0xff;
    cpu.regs.x = 0x01;

    run_instruction(&mut cpu, &mut bus);

    assert_eq!(cpu.regs.a, 0xff);
    assert_eq!(cpu.total_cycles, 4);
}

#[test]
fn lda_abx_with_cross_page() {
    let mut bus = RAM::new();
    let mut cpu = CPU::new();
    bus.ram[0x0000] = 0xbd;
    bus.ram[0x0001] = 0x01;
    bus.ram[0x0002] = 0x01;
    bus.ram[0x0101 + 0xff] = 0xff;
    cpu.regs.x = 0xff;

    run_instruction(&mut cpu, &mut bus);

    assert_eq!(cpu.regs.a, 0xff);
    assert_eq!(cpu.total_cycles, 5);
}

#[test]
fn lda_aby_no_cross_page() {
    let mut bus = RAM::new();
    let mut cpu = CPU::new();
    bus.ram[0x0000] = 0xb9;
    bus.ram[0x0001] = 0x00;
    bus.ram[0x0002] = 0x01;
    bus.ram[0x0101] = 0xff;
    cpu.regs.y = 0x01;

    run_instruction(&mut cpu, &mut bus);

    assert_eq!(cpu.regs.a, 0xff);
    assert_eq!(cpu.total_cycles, 4);
}

#[test]
fn lda_aby_with_cross_page() {
    let mut bus = RAM::new();
    let mut cpu = CPU::new();
    bus.ram[0x0000] = 0xb9;
    bus.ram[0x0001] = 0x01;
    bus.ram[0x0002] = 0x01;
    bus.ram[0x0101 + 0xff] = 0xff;
    cpu.regs.y = 0xff;

    run_instruction(&mut cpu, &mut bus);

    assert_eq!(cpu.regs.a, 0xff);
    assert_eq!(cpu.total_cycles, 5);
}

#[test]
fn ldx_zpy() {
    let mut bus = RAM::new();
    let mut cpu = CPU::new();
    bus.ram[0x0000] = 0xb6;
    bus.ram[0x0001] = 0x00;
    bus.ram[0x0002] = 0xff;
    cpu.regs.y = 0x02;

    run_instruction(&mut cpu, &mut bus);

    assert_eq!(cpu.regs.x, 0xff);
    assert_eq!(cpu.total_cycles, 4);
}

#[test]
fn ldx_zpy_wrap() {
    let mut bus = RAM::new();
    let mut cpu = CPU::new();
    bus.ram[0x0000] = 0xb6;
    bus.ram[0x0001] = 0x80;
    bus.ram[0x007f] = 0xff;
    cpu.regs.y = 0xff;

    run_instruction(&mut cpu, &mut bus);

    assert_eq!(cpu.regs.x, 0xff);
}
