use emu6502::cpu::CPU;
use emu6502::register::Status;

#[test]
fn test_cpu_default() {
    let cpu = CPU::default();
    assert_eq!(cpu.ra.0, 0);
}

#[test]
fn test_cpu_reset_zeroes_registers_and_parks_pc() {
    let mut cpu = CPU::new();
    cpu.ra.0 = 0x11;
    cpu.rx.0 = 0x22;
    cpu.ry.0 = 0x33;
    cpu.status.0 = 0xFF;
    cpu.pc.0 = 0x1234;
    cpu.reset();
    assert_eq!(cpu.ra.0, 0);
    assert_eq!(cpu.rx.0, 0);
    assert_eq!(cpu.ry.0, 0);
    assert_eq!(cpu.status.bits(), 0);
    assert_eq!(cpu.pc.0, 0xFFFC);
}

#[test]
fn test_update_registers_follows_accumulator() {
    let mut cpu = CPU::new();
    cpu.ra.0 = 0;
    cpu.update_registers();
    assert!(cpu.status.contains(Status::ZERO));
    assert!(!cpu.status.contains(Status::NEGATIVE));
    cpu.ra.0 = 0x80;
    cpu.update_registers();
    assert!(!cpu.status.contains(Status::ZERO));
    assert!(cpu.status.contains(Status::NEGATIVE));
}

#[test]
fn test_status_set_touches_only_its_mask() {
    let mut status = Status(0);
    status.set(Status::CARRY, true);
    status.set(Status::OVERFLOW, true);
    assert_eq!(status.bits(), Status::CARRY | Status::OVERFLOW);
    status.set(Status::CARRY, false);
    assert_eq!(status.bits(), Status::OVERFLOW);
    assert!(status.contains(Status::OVERFLOW));
    assert!(!status.contains(Status::CARRY));
}

#[test]
fn test_program_counter_step_wraps() {
    let mut cpu = CPU::new();
    cpu.pc.0 = 0xFFFF;
    cpu.pc.step();
    assert_eq!(cpu.pc.0, 0x0000);
    cpu.pc.0 = 0xFFF0;
    cpu.pc.step_n(0x20);
    assert_eq!(cpu.pc.0, 0x0010);
}
