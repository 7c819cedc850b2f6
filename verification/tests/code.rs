use emu6502::code::{handle_inx, handle_lda, handle_tax, Code};
use emu6502::cpu::CPU;
use emu6502::register::Status;

#[test]
fn test_handle_lda_loads_and_flags() {
    let mut cpu = CPU::new();
    let program = [0x80];
    handle_lda(&mut cpu, &program);
    assert_eq!(cpu.ra.0, 0x80);
    assert_eq!(cpu.pc.0, 1);
    assert!(!cpu.status.contains(Status::ZERO));
    assert!(cpu.status.contains(Status::NEGATIVE));
}

#[test]
fn test_handle_tax_copies_and_flags_follow_x() {
    let mut cpu = CPU::new();
    cpu.ra.0 = 0x00;
    cpu.rx.0 = 0x55;
    handle_tax(&mut cpu);
    assert_eq!(cpu.rx.0, 0x00);
    assert!(cpu.status.contains(Status::ZERO));
    assert!(!cpu.status.contains(Status::NEGATIVE));
}

#[test]
fn test_handle_inx_wraps_and_flags_follow_x() {
    let mut cpu = CPU::new();
    cpu.rx.0 = 0xFF;
    handle_inx(&mut cpu);
    assert_eq!(cpu.rx.0, 0x00);
    assert!(cpu.status.contains(Status::ZERO));
    assert!(!cpu.status.contains(Status::NEGATIVE));
    handle_inx(&mut cpu);
    assert_eq!(cpu.rx.0, 0x01);
    assert!(!cpu.status.contains(Status::ZERO));
    assert!(!cpu.status.contains(Status::NEGATIVE));
}

#[test]
fn test_code_execute_dispatches_each_variant() {
    let mut cpu = CPU::new();
    let program = [0x05];
    Code::LDA.execute(&mut cpu, &program);
    assert_eq!(cpu.ra.0, 0x05);
    assert_eq!(cpu.pc.0, 1);

    Code::TAX.execute(&mut cpu, &program);
    assert_eq!(cpu.rx.0, 0x05);

    Code::INX.execute(&mut cpu, &program);
    assert_eq!(cpu.rx.0, 0x06);

    let before_pc = cpu.pc.0;
    Code::BRK.execute(&mut cpu, &program);
    assert_eq!(cpu.ra.0, 0x05);
    assert_eq!(cpu.rx.0, 0x06);
    assert_eq!(cpu.pc.0, before_pc);
}
