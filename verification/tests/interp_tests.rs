//! Tests of the minimal interpreter.

use nes_core::interp::CPU;

#[test]
fn test_0xa9_lda_immediate_load_data() {
    let mut cpu = CPU::new();
    cpu.interpret(vec![0xa9, 0x05, 0x00]);
    assert_eq!(cpu.register_a, 0x05);
    assert!(cpu.status & 0b0000_0010 == 0b00);
    assert!(cpu.status & 0b1000_0000 == 0);
}

#[test]
fn test_0xa9_lda_zero_flag() {
    let mut cpu = CPU::new();
    cpu.interpret(vec![0xa9, 0x00, 0x00]);
    assert!(cpu.status & 0b0000_0010 == 0b10);
}

#[test]
fn test_0xaa_tax_move_a_to_x() {
    let mut cpu = CPU::new();
    cpu.register_a = 10;
    cpu.interpret(vec![0xaa, 0x00]);
    assert_eq!(cpu.register_x, 10);
}

#[test]
fn test_lda_negative_flag() {
    let mut cpu = CPU::new();
    cpu.interpret(vec![0xa9, 0x80, 0x00]);
    assert_eq!(cpu.register_a, 0x80);
    assert!(cpu.status & 0b1000_0000 != 0);
    assert!(cpu.status & 0b0000_0010 == 0);
}

#[test]
fn test_lda_then_tax_chain() {
    let mut cpu = CPU::new();
    cpu.interpret(vec![0xa9, 0x2a, 0xaa, 0x00]);
    assert_eq!(cpu.register_a, 0x2a);
    assert_eq!(cpu.register_x, 0x2a);
    assert_eq!(cpu.program_counter, 4);
}
