use emu6502::system::{EmuError, StepState, System};

#[test]
fn test_0xa9_lda_immediate_load_data() {
    let mut system = System::new();
    system.load_and_run(vec![0xa9, 0x05, 0x00]).unwrap();
    let cpu = system.cpu;
    assert_eq!(cpu.ra.0, 0x05);
    assert!(cpu.status.bits() & 0b0000_0010 == 0b00);
    assert!(cpu.status.bits() & 0b1000_0000 == 0);
}

#[test]
fn test_0xa9_lda_zero_flag() {
    let mut system = System::new();
    system.load_and_run(vec![0xa9, 0x00, 0x00]).unwrap();

    let cpu = &system.cpu;
    assert!(cpu.status.bits() & 0b0000_0010 == 0b10);
}

#[test]
fn test_0xaa_tax_move_a_to_x() {
    let mut system = System::new();
    system.load_and_run(vec![0xa9, 0x0A, 0xaa, 0x00]).unwrap();

    let cpu = &system.cpu;
    assert_eq!(cpu.rx.0, 10);
}

#[test]
fn test_5_ops_working_together() {
    let mut system = System::new();
    system.load_and_run(vec![0xa9, 0xc0, 0xaa, 0xe8, 0x00]).unwrap();

    let cpu = &system.cpu;
    assert_eq!(cpu.rx.0, 0xc1)
}

#[test]
fn test_inx_overflow() {
    let mut system = System::new();
    system.load_and_run(vec![0xa9, 0xff, 0xaa, 0xe8, 0xe8, 0x00]).unwrap();

    let cpu = &system.cpu;
    assert_eq!(cpu.rx.0, 1)
}

#[test]
fn test_lda_from_memory() {
    let mut system = System::new();
    system.mem.write(0x10, 0x55);
    system.load_and_run(vec![0xa5, 0x10, 0x00]).unwrap();
    assert_eq!(system.cpu.ra.0, 0x55);
}

#[test]
fn test_lda_immediate_boundary_bytes() {
    // 0x00: Zero set, Negative clear
    let mut system = System::new();
    system.load_and_run(vec![0xa9, 0x00, 0x00]).unwrap();
    assert_eq!(system.cpu.ra.0, 0x00);
    assert!(system.cpu.status.bits() & 0b0000_0010 != 0);
    assert!(system.cpu.status.bits() & 0b1000_0000 == 0);

    // 0x80: Zero clear, Negative set
    let mut system = System::new();
    system.load_and_run(vec![0xa9, 0x80, 0x00]).unwrap();
    assert_eq!(system.cpu.ra.0, 0x80);
    assert!(system.cpu.status.bits() & 0b0000_0010 == 0);
    assert!(system.cpu.status.bits() & 0b1000_0000 != 0);

    // 0xFF: Zero clear, Negative set
    let mut system = System::new();
    system.load_and_run(vec![0xa9, 0xff, 0x00]).unwrap();
    assert_eq!(system.cpu.ra.0, 0xff);
    assert!(system.cpu.status.bits() & 0b0000_0010 == 0);
    assert!(system.cpu.status.bits() & 0b1000_0000 != 0);
}

#[test]
fn test_inx_wraparound_sets_zero_then_clears_it() {
    // X = 0xFF, one INX: X == 0, Zero set, Negative clear
    let mut system = System::new();
    system.load_and_run(vec![0xa9, 0xff, 0xaa, 0xe8, 0x00]).unwrap();
    assert_eq!(system.cpu.rx.0, 0x00);
    assert!(system.cpu.status.bits() & 0b0000_0010 != 0);
    assert!(system.cpu.status.bits() & 0b1000_0000 == 0);

    // a second INX: X == 1, both clear
    let mut system = System::new();
    system.load_and_run(vec![0xa9, 0xff, 0xaa, 0xe8, 0xe8, 0x00]).unwrap();
    assert_eq!(system.cpu.rx.0, 0x01);
    assert!(system.cpu.status.bits() & 0b0000_0010 == 0);
    assert!(system.cpu.status.bits() & 0b1000_0000 == 0);
}

#[test]
fn test_tax_derives_flags_from_new_x_value() {
    // A == 0 copied into X: Zero follows the new X, not the old one
    let mut system = System::new();
    system.load_and_run(vec![0xa9, 0x00, 0xaa, 0x00]).unwrap();
    assert_eq!(system.cpu.rx.0, 0x00);
    assert!(system.cpu.status.bits() & 0b0000_0010 != 0);

    // A == 0x90 copied into X: Negative follows the new X
    let mut system = System::new();
    system.load_and_run(vec![0xa9, 0x90, 0xaa, 0x00]).unwrap();
    assert_eq!(system.cpu.rx.0, 0x90);
    assert!(system.cpu.status.bits() & 0b0000_0010 == 0);
    assert!(system.cpu.status.bits() & 0b1000_0000 != 0);
}

#[test]
fn test_brk_first_byte_halts_without_mutation() {
    let mut system = System::new();
    system.load_and_run(vec![0x00]).unwrap();
    assert_eq!(system.cpu.ra.0, 0);
    assert_eq!(system.cpu.rx.0, 0);
    assert_eq!(system.cpu.ry.0, 0);
    assert_eq!(system.cpu.status.bits(), 0);
    // exactly one fetch happened: the counter moved past the halt opcode
    assert_eq!(system.pc(), 0x8001);
}

#[test]
fn test_unknown_opcode_is_reported_with_byte_and_address() {
    let mut system = System::new();
    let r = system.load_and_run(vec![0xff, 0x00]);
    assert_eq!(r, Err(EmuError::UnknownOpcode { opcode: 0xff, addr: 0x8000 }));
}

#[test]
fn test_lda_absolute_reads_through_word_operand() {
    let mut system = System::new();
    system.mem.write(0x0210, 0x42);
    system.load_and_run(vec![0xad, 0x10, 0x02, 0x00]).unwrap();
    assert_eq!(system.cpu.ra.0, 0x42);
    // opcode + two operand bytes + the halt opcode
    assert_eq!(system.pc(), 0x8004);
}

#[test]
fn test_load_places_program_and_reset_vector() {
    let mut system = System::new();
    system.load(vec![1, 2, 3]);
    assert_eq!(system.mem.read(0x8000), 1);
    assert_eq!(system.mem.read(0x8001), 2);
    assert_eq!(system.mem.read(0x8002), 3);
    assert_eq!(system.mem.read_u16(0xFFFC), 0x8000);
}

#[test]
fn test_reset_follows_the_reset_vector() {
    let mut system = System::new();
    system.mem.write_u16(0xFFFC, 0x1234);
    system.reset();
    assert_eq!(system.pc(), 0x1234);
    assert_eq!(system.cpu.ra.0, 0);
    assert_eq!(system.cpu.status.bits(), 0);
}

#[test]
fn test_fetch_and_execute_one_steps_then_halts() {
    let mut system = System::new();
    system.load(vec![0xa9, 0x05, 0x00]);
    system.reset();
    assert_eq!(system.pc(), 0x8000);
    assert_eq!(system.fetch_and_execute_one(), Ok(StepState::Continuing));
    assert_eq!(system.cpu.ra.0, 0x05);
    assert_eq!(system.pc(), 0x8002);
    assert_eq!(system.fetch_and_execute_one(), Ok(StepState::Halted));
    assert_eq!(system.pc(), 0x8003);
}

#[test]
fn test_fetch_advances_past_the_byte() {
    let mut system = System::new();
    system.mem.write(0x0000, 0xAB);
    let code = system.fetch();
    assert_eq!(code, 0xAB);
    assert_eq!(system.pc(), 1);
}

#[test]
fn test_fetch_from_reads_elsewhere_but_steps_pc() {
    let mut system = System::new();
    system.mem.write(0x0300, 0x7F);
    let code = system.fetch_from(0x0300);
    assert_eq!(code, 0x7F);
    assert_eq!(system.pc(), 1);
}
