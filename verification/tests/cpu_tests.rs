//! Tests of the full processor: the specified scenario programs, the
//! addressing-mode quirks, the stack discipline, and an exhaustive-sample
//! check of add-with-carry against the specification formula.

use std::cell::Cell;
use nes_core::bus::{Bus, RunError};
use nes_core::cartridge::Rom;
use nes_core::cpu::{Memory, CPU};

const CARRY: u8 = 0x01;
const ZERO: u8 = 0x02;
const BREAK: u8 = 0x10;
const BREAK2: u8 = 0x20;
const OVERFLOW: u8 = 0x40;
const NEGATIVE: u8 = 0x80;

fn test_rom() -> Rom {
    let mut raw: Vec<u8> = vec![0x4E, 0x45, 0x53, 0x1A, 0x02, 0x01, 0x00, 0x00];
    raw.resize(16 + 0x8000 + 0x2000, 0);
    Rom::new(&raw).unwrap()
}

fn fresh_cpu() -> CPU {
    CPU::new(Bus::new(test_rom()))
}

#[test]
fn test_lda_immediate_nonzero() {
    let mut cpu = fresh_cpu();
    cpu.load_and_run(vec![0xa9, 0x05, 0x00]).unwrap();
    assert_eq!(cpu.register_a, 0x05);
    assert!(cpu.status & ZERO == 0);
    assert!(cpu.status & NEGATIVE == 0);
}

#[test]
fn test_lda_immediate_zero() {
    let mut cpu = fresh_cpu();
    cpu.load_and_run(vec![0xa9, 0x00, 0x00]).unwrap();
    assert_eq!(cpu.register_a, 0x00);
    assert!(cpu.status & ZERO != 0);
    assert!(cpu.status & NEGATIVE == 0);
}

#[test]
fn test_lda_from_memory() {
    let mut cpu = fresh_cpu();
    cpu.mem_write(0x10, 0x55).unwrap();
    cpu.load_and_run(vec![0xa5, 0x10, 0x00]).unwrap();
    assert_eq!(cpu.register_a, 0x55);
}

#[test]
fn test_tax_moves_a_to_x() {
    let mut cpu = fresh_cpu();
    cpu.load_and_run(vec![0xa9, 0x0a, 0xaa, 0x00]).unwrap();
    assert_eq!(cpu.register_x, 0x0a);
}

#[test]
fn test_inx_overflow() {
    let mut cpu = fresh_cpu();
    cpu.load_and_run(vec![0xa9, 0xff, 0xaa, 0xe8, 0xe8, 0x00]).unwrap();
    assert_eq!(cpu.register_x, 0x01);
}

#[test]
fn test_five_ops_working_together() {
    let mut cpu = fresh_cpu();
    cpu.load_and_run(vec![0xa9, 0xc0, 0xaa, 0xe8, 0x00]).unwrap();
    assert_eq!(cpu.register_x, 0xc1);
}

#[test]
fn test_run_is_deterministic() {
    let program = vec![0xa9, 0x13, 0x69, 0x29, 0xaa, 0xc8, 0x48, 0x00];
    let mut first = fresh_cpu();
    first.load_and_run(program.clone()).unwrap();
    let mut second = fresh_cpu();
    second.load_and_run(program).unwrap();
    assert_eq!(first.register_a, second.register_a);
    assert_eq!(first.register_x, second.register_x);
    assert_eq!(first.register_y, second.register_y);
    assert_eq!(first.status, second.status);
    assert_eq!(first.program_counter, second.program_counter);
    assert_eq!(first.stack_pointer, second.stack_pointer);
}

#[test]
fn test_zero_page_x_wraps_in_zero_page() {
    let mut cpu = fresh_cpu();
    // $FF + X=2 wraps to $0001, not $0101
    cpu.mem_write(0x0001, 0x77).unwrap();
    cpu.mem_write(0x0101, 0x13).unwrap();
    cpu.load_and_run(vec![0xa2, 0x02, 0xb5, 0xff, 0x00]).unwrap();
    assert_eq!(cpu.register_a, 0x77);
}

#[test]
fn test_indirect_x_pointer_high_byte_wraps() {
    let mut cpu = fresh_cpu();
    // pointer $F0 + X=$0F = $FF: low byte from $FF, high byte from $00
    cpu.mem_write(0x00ff, 0x34).unwrap();
    cpu.mem_write(0x0000, 0x02).unwrap();
    cpu.mem_write(0x0234, 0x99).unwrap();
    cpu.load_and_run(vec![0xa2, 0x0f, 0xa1, 0xf0, 0x00]).unwrap();
    assert_eq!(cpu.register_a, 0x99);
}

#[test]
fn test_jmp_indirect_page_wrap_defect() {
    let mut cpu = fresh_cpu();
    // pointer at $02FF: low byte from $02FF, high byte from $0200 (not $0300)
    cpu.mem_write(0x02ff, 0x05).unwrap();
    cpu.mem_write(0x0200, 0x06).unwrap();
    cpu.mem_write(0x0300, 0x07).unwrap();
    // $0600: JMP ($02FF); $0603-$0604: halt padding; $0605: LDA #$42, halt
    cpu.load_and_run(vec![0x6c, 0xff, 0x02, 0x00, 0x00, 0xa9, 0x42, 0x00]).unwrap();
    assert_eq!(cpu.register_a, 0x42);
}

#[test]
fn test_php_pushes_break_bits_set() {
    let mut cpu = fresh_cpu();
    cpu.load_and_run(vec![0x08, 0x00]).unwrap();
    let pushed = cpu.bus.read8(0x01fd);
    assert!(pushed & BREAK != 0);
    assert!(pushed & BREAK2 != 0);
    // reset status is $24, so the pushed copy is $34
    assert_eq!(pushed, 0x34);
}

#[test]
fn test_plp_clears_bit4_sets_bit5() {
    let mut cpu = fresh_cpu();
    // push $FF, pull it into status
    cpu.load_and_run(vec![0xa9, 0xff, 0x48, 0x28, 0x00]).unwrap();
    assert!(cpu.status & BREAK == 0);
    assert!(cpu.status & BREAK2 != 0);
    assert_eq!(cpu.status, 0xef);
}

#[test]
fn test_jsr_rts_round_trip() {
    let mut cpu = fresh_cpu();
    // $0600: JSR $0605; $0603: INY; $0604: halt; $0605: LDX #$07, RTS
    cpu.load_and_run(vec![0x20, 0x05, 0x06, 0xc8, 0x00, 0xa2, 0x07, 0x60]).unwrap();
    assert_eq!(cpu.register_x, 0x07);
    // RTS resumed at the popped word plus one, so INY ran before the halt
    assert_eq!(cpu.register_y, 0x01);
    assert_eq!(cpu.stack_pointer, 0xfd);
    assert_eq!(cpu.program_counter, 0x0605);
}

#[test]
fn test_rti_uses_popped_word_exactly() {
    let mut cpu = fresh_cpu();
    // push $06 (high), $0a (low), then a zero status; RTI must land on
    // $060A exactly (no +1), where X is loaded before the halt
    cpu.load_and_run(vec![
        0xa9, 0x06, 0x48, 0xa9, 0x0a, 0x48, 0xa9, 0x00, 0x48, 0x40, 0xa2, 0x31, 0x00,
    ])
    .unwrap();
    assert_eq!(cpu.register_x, 0x31);
    // the popped status comes back with bit 4 clear and bit 5 set
    assert_eq!(cpu.status & (BREAK | BREAK2), BREAK2);
}

#[test]
fn test_sbc_with_carry_set_is_plain_subtraction() {
    let mut cpu = fresh_cpu();
    cpu.load_and_run(vec![0xa9, 0x50, 0x38, 0xe9, 0x10, 0x00]).unwrap();
    assert_eq!(cpu.register_a, 0x40);
    assert!(cpu.status & CARRY != 0);
}

#[test]
fn test_sbc_with_carry_clear_subtracts_borrow() {
    let mut cpu = fresh_cpu();
    cpu.load_and_run(vec![0xa9, 0x50, 0x18, 0xe9, 0x10, 0x00]).unwrap();
    assert_eq!(cpu.register_a, 0x3f);
}

#[test]
fn test_nz_flags_track_result_byte() {
    let mut cpu = fresh_cpu();
    cpu.load_and_run(vec![0xa9, 0x80, 0x00]).unwrap();
    assert!(cpu.status & NEGATIVE != 0);
    assert!(cpu.status & ZERO == 0);
    let mut cpu = fresh_cpu();
    // $7F + 1 = $80: negative set, zero clear, overflow set
    cpu.load_and_run(vec![0xa9, 0x7f, 0x69, 0x01, 0x00]).unwrap();
    assert_eq!(cpu.register_a, 0x80);
    assert!(cpu.status & NEGATIVE != 0);
    assert!(cpu.status & ZERO == 0);
    assert!(cpu.status & OVERFLOW != 0);
    let mut cpu = fresh_cpu();
    // $FF + 1 wraps to zero: zero and carry set, negative clear
    cpu.load_and_run(vec![0xa9, 0xff, 0x38, 0x69, 0x00, 0x00]).unwrap();
    assert_eq!(cpu.register_a, 0x00);
    assert!(cpu.status & ZERO != 0);
    assert!(cpu.status & NEGATIVE == 0);
    assert!(cpu.status & CARRY != 0);
}

#[test]
fn test_dcp_compares_after_decrement() {
    let mut cpu = fresh_cpu();
    cpu.mem_write(0x10, 0x05).unwrap();
    // SEC; LDA #$03; DCP $10: the byte decrements to 4, which exceeds A,
    // so the compare clears the carry that SEC had set
    cpu.load_and_run(vec![0x38, 0xa9, 0x03, 0xc7, 0x10, 0x00]).unwrap();
    assert_eq!(cpu.bus.read8(0x10), 0x04);
    assert!(cpu.status & CARRY == 0);
    // A - 4 wraps to $FF: negative set, zero clear
    assert!(cpu.status & NEGATIVE != 0);
    assert!(cpu.status & ZERO == 0);
    // the compare leaves the accumulator alone
    assert_eq!(cpu.register_a, 0x03);
    let mut cpu = fresh_cpu();
    cpu.mem_write(0x20, 0x05).unwrap();
    // CLC; LDA #$10; DCP $20: 4 is at most A, so carry is set
    cpu.load_and_run(vec![0x18, 0xa9, 0x10, 0xc7, 0x20, 0x00]).unwrap();
    assert_eq!(cpu.bus.read8(0x20), 0x04);
    assert!(cpu.status & CARRY != 0);
    assert_eq!(cpu.register_a, 0x10);
}

#[test]
fn test_axs_compares_against_a_and_x() {
    let mut cpu = fresh_cpu();
    // SEC; LDA #$0F; LDX #$07; AXS #$09: (A AND X) = 7 borrows against 9,
    // so carry is cleared and X wraps to $FE
    cpu.load_and_run(vec![0x38, 0xa9, 0x0f, 0xa2, 0x07, 0xcb, 0x09, 0x00]).unwrap();
    assert_eq!(cpu.register_x, 0xfe);
    assert!(cpu.status & CARRY == 0);
    assert!(cpu.status & NEGATIVE != 0);
    let mut cpu = fresh_cpu();
    // CLC; LDA #$FF; LDX #$0F; AXS #$05: 5 is at most (A AND X) = $0F,
    // so carry is set and X = $0A
    cpu.load_and_run(vec![0x18, 0xa9, 0xff, 0xa2, 0x0f, 0xcb, 0x05, 0x00]).unwrap();
    assert_eq!(cpu.register_x, 0x0a);
    assert!(cpu.status & CARRY != 0);
    assert!(cpu.status & NEGATIVE == 0);
}

#[test]
fn test_write_to_rom_aborts_the_run() {
    let mut cpu = fresh_cpu();
    // STA $8000 is a store into cartridge ROM
    let r = cpu.load_and_run(vec![0xa9, 0x01, 0x8d, 0x00, 0x80, 0x00]);
    assert_eq!(r, Err(RunError::WriteToRom));
}

#[test]
fn test_unsupported_mode_has_no_stored_address() {
    let cpu = fresh_cpu();
    let r = cpu.get_absolute_address(&nes_core::cpu::AddressingMode::NoneAddressing, 0x0600);
    assert_eq!(r, Err(RunError::UnsupportedMode));
    let r = cpu.get_absolute_address(&nes_core::cpu::AddressingMode::Immediate, 0x0600);
    assert_eq!(r, Err(RunError::UnsupportedMode));
}

#[test]
fn test_stack_wraps_silently() {
    let mut cpu = fresh_cpu();
    // 256 pushes wrap the stack pointer back to where it started
    let mut program: Vec<u8> = vec![0xa9, 0x11];
    for _ in 0..256 {
        program.push(0x48);
    }
    program.push(0x00);
    cpu.load_and_run(program).unwrap();
    assert_eq!(cpu.stack_pointer, 0xfd);
    assert_eq!(cpu.bus.read8(0x0100), 0x11);
    assert_eq!(cpu.bus.read8(0x01ff), 0x11);
}

/// The add-with-carry formula from the specification: the 9-bit sum, its
/// low byte, and the four flags.
fn adc_formula(a: u8, m: u8, carry_in: bool) -> (u8, bool, bool, bool, bool) {
    let sum = a as u16 + m as u16 + if carry_in { 1 } else { 0 };
    let result = (sum & 0xff) as u8;
    let carry = sum > 0xff;
    let overflow = (m ^ result) & (result ^ a) & 0x80 != 0;
    (result, carry, overflow, result == 0, result & 0x80 != 0)
}

#[test]
fn test_adc_matches_specification_formula() {
    // a small linear-congruential generator picks the triples
    let mut seed: u32 = 0x2a03;
    for _ in 0..300 {
        seed = seed.wrapping_mul(1664525).wrapping_add(1013904223);
        let a = (seed >> 8) as u8;
        let m = (seed >> 16) as u8;
        let carry_in = seed & 1 == 1;
        let (result, carry, overflow, zero, negative) = adc_formula(a, m, carry_in);
        let mut cpu = fresh_cpu();
        let carry_op = if carry_in { 0x38 } else { 0x18 };
        cpu.load_and_run(vec![0xa9, a, carry_op, 0x69, m, 0x00]).unwrap();
        assert_eq!(cpu.register_a, result);
        assert_eq!(cpu.status & CARRY != 0, carry);
        assert_eq!(cpu.status & OVERFLOW != 0, overflow);
        assert_eq!(cpu.status & ZERO != 0, zero);
        assert_eq!(cpu.status & NEGATIVE != 0, negative);
    }
}

#[test]
fn test_run_with_callback_observes_each_fetch() {
    let count = Cell::new(0u32);
    let mut cpu = fresh_cpu();
    cpu.load(vec![0xa9, 0x05, 0xaa, 0x00]);
    cpu.reset();
    cpu.run_with_callback(|_c: &CPU| {
        count.set(count.get() + 1);
    })
    .unwrap();
    assert_eq!(cpu.register_x, 0x05);
    // LDA, TAX and the break opcode: three fetches observed
    assert_eq!(count.get(), 3);
}
