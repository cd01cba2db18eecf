//! The instruction-set semantics, as pure functions on `CpuModel`.
//!
//! Every instruction family has a transition function here; `op_spec` maps
//! an opcode byte to the transition it performs, `step_spec` is one whole
//! fetch-decode-execute step, and `run_outcome` iterates steps until the
//! program-break opcode or a fault. The executable processor in `cpu` is
//! verified to follow these functions exactly.

use vstd::prelude::*;
use crate::bus::RunError;
use crate::cpu::AddressingMode;
use crate::model::{CpuModel, BREAK, BREAK2, CARRY, DECIMAL_MODE, INTERRUPT_DISABLE, NEGATIVE, OVERFLOW, STACK, ZERO, can_write, combine16, hi8, lo8, mem_get, mem_get16, mem_set, update_nz, wadd16, wadd8, wsub16, wsub8};
use crate::opcode::table;

verus! {

// ---------------------------------------------------------------------------
// Addressing
// ---------------------------------------------------------------------------

/// The effective address an addressing mode yields when its operand bytes
/// are read at `at`. The zero-page indexed and indirect forms wrap inside
/// the zero page; the absolute indexed forms wrap modulo 65536. The
/// implicit tag has no effective address and resolves to zero here; the
/// executable resolver rejects it before this function is consulted.
pub open spec fn resolve_addr(s: CpuModel, mode: AddressingMode, at: u16) -> u16 {
    match mode {
        AddressingMode::Immediate => at,
        AddressingMode::ZeroPage => mem_get(s.bus, at) as u16,
        AddressingMode::Absolute => mem_get16(s.bus, at),
        AddressingMode::ZeroPage_X => wadd8(mem_get(s.bus, at), s.x) as u16,
        AddressingMode::ZeroPage_Y => wadd8(mem_get(s.bus, at), s.y) as u16,
        AddressingMode::Absolute_X => wadd16(mem_get16(s.bus, at), s.x as u16),
        AddressingMode::Absolute_Y => wadd16(mem_get16(s.bus, at), s.y as u16),
        AddressingMode::Indirect_X => {
            let p = wadd8(mem_get(s.bus, at), s.x);
            combine16(mem_get(s.bus, p as u16), mem_get(s.bus, wadd8(p, 1) as u16))
        },
        AddressingMode::Indirect_Y => {
            let p = mem_get(s.bus, at);
            let base = combine16(mem_get(s.bus, p as u16), mem_get(s.bus, wadd8(p, 1) as u16));
            wadd16(base, s.y as u16)
        },
        AddressingMode::NoneAddressing => 0,
    }
}

/// The effective address of the current instruction's operand: its operand
/// bytes sit at the program counter (the opcode byte has been consumed).
pub open spec fn operand_addr(s: CpuModel, mode: AddressingMode) -> u16 {
    resolve_addr(s, mode, s.pc)
}

/// The operand byte itself.
pub open spec fn operand(s: CpuModel, mode: AddressingMode) -> u8 {
    mem_get(s.bus, operand_addr(s, mode))
}

// ---------------------------------------------------------------------------
// Register and flag helpers
// ---------------------------------------------------------------------------

/// A status byte with one flag forced on or off.
pub open spec fn set_flag(st: u8, flag: u8, on: bool) -> u8 {
    if on {
        st | flag
    } else {
        st & !flag
    }
}

/// Whether the carry flag is set.
pub open spec fn carry_set(st: u8) -> bool {
    st & CARRY != 0
}

/// The accumulator loaded with `v`, Zero and Negative updated from it.
pub open spec fn with_a(s: CpuModel, v: u8) -> CpuModel {
    CpuModel { a: v, status: update_nz(s.status, v), ..s }
}

/// The X register loaded with `v`, Zero and Negative updated from it.
pub open spec fn with_x(s: CpuModel, v: u8) -> CpuModel {
    CpuModel { x: v, status: update_nz(s.status, v), ..s }
}

/// The Y register loaded with `v`, Zero and Negative updated from it.
pub open spec fn with_y(s: CpuModel, v: u8) -> CpuModel {
    CpuModel { y: v, status: update_nz(s.status, v), ..s }
}

// ---------------------------------------------------------------------------
// The stack
// ---------------------------------------------------------------------------

/// One byte pushed: stored at $0100 + SP, then SP wraps down by one.
pub open spec fn push8(s: CpuModel, v: u8) -> CpuModel {
    CpuModel {
        bus: mem_set(s.bus, (STACK + s.sp as u16) as u16, v),
        sp: wsub8(s.sp, 1),
        ..s
    }
}

/// A word pushed: high byte first, then low.
pub open spec fn push16(s: CpuModel, v: u16) -> CpuModel {
    push8(push8(s, hi8(v)), lo8(v))
}

/// The byte the next pop returns: SP wraps up by one, then the byte at
/// $0100 + SP is read.
pub open spec fn popped(s: CpuModel) -> u8 {
    mem_get(s.bus, (STACK + wadd8(s.sp, 1) as u16) as u16)
}

/// The state after one pop (only SP moves; memory is not erased).
pub open spec fn pop8(s: CpuModel) -> CpuModel {
    CpuModel { sp: wadd8(s.sp, 1), ..s }
}

/// The word the next 16-bit pop returns: low byte first, then high.
pub open spec fn popped16(s: CpuModel) -> u16 {
    combine16(popped(s), popped(pop8(s)))
}

/// The state after a 16-bit pop.
pub open spec fn pop16(s: CpuModel) -> CpuModel {
    pop8(pop8(s))
}

// ---------------------------------------------------------------------------
// Arithmetic core
// ---------------------------------------------------------------------------

/// The 9-bit intermediate of add-with-carry.
pub open spec fn adc_sum(a: u8, data: u8, carry_in: bool) -> u16 {
    (a as u16 + data as u16 + (if carry_in {
        1u16
    } else {
        0u16
    })) as u16
}

/// Add-with-carry into the accumulator: the low 8 bits of the intermediate
/// become A; Carry is whether the intermediate exceeded $FF; Overflow is the
/// signed-wraparound test; Zero and Negative follow the result. Subtraction
/// reuses this with the operand's bitwise complement.
pub open spec fn add_to_a(s: CpuModel, data: u8) -> CpuModel {
    let sum = adc_sum(s.a, data, carry_set(s.status));
    let result = sum as u8;
    let st1 = set_flag(s.status, CARRY, sum > 0xff);
    let st2 = set_flag(st1, OVERFLOW, (data ^ result) & (result ^ s.a) & 0x80 != 0);
    CpuModel { a: result, status: update_nz(st2, result), ..s }
}

// ---------------------------------------------------------------------------
// Loads, stores, transfers
// ---------------------------------------------------------------------------

pub open spec fn lda_spec(s: CpuModel, mode: AddressingMode) -> CpuModel {
    with_a(s, operand(s, mode))
}

pub open spec fn ldx_spec(s: CpuModel, mode: AddressingMode) -> CpuModel {
    with_x(s, operand(s, mode))
}

pub open spec fn ldy_spec(s: CpuModel, mode: AddressingMode) -> CpuModel {
    with_y(s, operand(s, mode))
}

/// STA stores the accumulator; no flags move (likewise STX, STY, SAX).
pub open spec fn sta_spec(s: CpuModel, mode: AddressingMode) -> CpuModel {
    CpuModel { bus: mem_set(s.bus, operand_addr(s, mode), s.a), ..s }
}

pub open spec fn stx_spec(s: CpuModel, mode: AddressingMode) -> CpuModel {
    CpuModel { bus: mem_set(s.bus, operand_addr(s, mode), s.x), ..s }
}

pub open spec fn sty_spec(s: CpuModel, mode: AddressingMode) -> CpuModel {
    CpuModel { bus: mem_set(s.bus, operand_addr(s, mode), s.y), ..s }
}

// ---------------------------------------------------------------------------
// Arithmetic and logic on the accumulator
// ---------------------------------------------------------------------------

pub open spec fn adc_spec(s: CpuModel, mode: AddressingMode) -> CpuModel {
    add_to_a(s, operand(s, mode))
}

/// SBC is ADC of the operand's bitwise complement: Carry then carries the
/// borrow sense.
pub open spec fn sbc_spec(s: CpuModel, mode: AddressingMode) -> CpuModel {
    add_to_a(s, operand(s, mode) ^ 0xFF)
}

pub open spec fn and_spec(s: CpuModel, mode: AddressingMode) -> CpuModel {
    with_a(s, operand(s, mode) & s.a)
}

pub open spec fn eor_spec(s: CpuModel, mode: AddressingMode) -> CpuModel {
    with_a(s, operand(s, mode) ^ s.a)
}

pub open spec fn ora_spec(s: CpuModel, mode: AddressingMode) -> CpuModel {
    with_a(s, s.a | operand(s, mode))
}

/// CMP family: Carry says the register is at least the operand; Zero and
/// Negative follow the wrapped difference. The register is unchanged.
pub open spec fn compare_spec(s: CpuModel, mode: AddressingMode, with: u8) -> CpuModel {
    let d = operand(s, mode);
    let st1 = set_flag(s.status, CARRY, d <= with);
    CpuModel { status: update_nz(st1, wsub8(with, d)), ..s }
}

/// BIT: Zero from (A AND operand); Negative and Overflow copied from bits 7
/// and 6 of the operand itself.
pub open spec fn bit_spec(s: CpuModel, mode: AddressingMode) -> CpuModel {
    let d = operand(s, mode);
    let st1 = set_flag(s.status, ZERO, s.a & d == 0);
    let st2 = set_flag(st1, NEGATIVE, d & 0b10000000 > 0);
    let st3 = set_flag(st2, OVERFLOW, d & 0b01000000 > 0);
    CpuModel { status: st3, ..s }
}

// ---------------------------------------------------------------------------
// Shifts and rotates
// ---------------------------------------------------------------------------

pub open spec fn asl_val(d: u8) -> u8 {
    d << 1
}

pub open spec fn lsr_val(d: u8) -> u8 {
    d >> 1
}

pub open spec fn rol_val(st: u8, d: u8) -> u8 {
    if carry_set(st) {
        (d << 1) | 1
    } else {
        d << 1
    }
}

pub open spec fn ror_val(st: u8, d: u8) -> u8 {
    if carry_set(st) {
        (d >> 1) | 0b10000000
    } else {
        d >> 1
    }
}

pub open spec fn asl_acc_spec(s: CpuModel) -> CpuModel {
    let st1 = set_flag(s.status, CARRY, s.a >> 7 == 1);
    with_a(CpuModel { status: st1, ..s }, asl_val(s.a))
}

pub open spec fn lsr_acc_spec(s: CpuModel) -> CpuModel {
    let st1 = set_flag(s.status, CARRY, s.a & 1 == 1);
    with_a(CpuModel { status: st1, ..s }, lsr_val(s.a))
}

pub open spec fn rol_acc_spec(s: CpuModel) -> CpuModel {
    let st1 = set_flag(s.status, CARRY, s.a >> 7 == 1);
    with_a(CpuModel { status: st1, ..s }, rol_val(s.status, s.a))
}

pub open spec fn ror_acc_spec(s: CpuModel) -> CpuModel {
    let st1 = set_flag(s.status, CARRY, s.a & 1 == 1);
    with_a(CpuModel { status: st1, ..s }, ror_val(s.status, s.a))
}

/// A read-modify-write instruction: the rewritten byte `r` lands at the
/// effective address, Carry is set as the family says, Zero and Negative
/// follow `r`.
pub open spec fn rmw(s: CpuModel, mode: AddressingMode, r: u8, carry: bool) -> CpuModel {
    CpuModel {
        bus: mem_set(s.bus, operand_addr(s, mode), r),
        status: update_nz(set_flag(s.status, CARRY, carry), r),
        ..s
    }
}

pub open spec fn asl_mem_spec(s: CpuModel, mode: AddressingMode) -> CpuModel {
    rmw(s, mode, asl_val(operand(s, mode)), operand(s, mode) >> 7 == 1)
}

pub open spec fn lsr_mem_spec(s: CpuModel, mode: AddressingMode) -> CpuModel {
    rmw(s, mode, lsr_val(operand(s, mode)), operand(s, mode) & 1 == 1)
}

pub open spec fn rol_mem_spec(s: CpuModel, mode: AddressingMode) -> CpuModel {
    rmw(s, mode, rol_val(s.status, operand(s, mode)), operand(s, mode) >> 7 == 1)
}

pub open spec fn ror_mem_spec(s: CpuModel, mode: AddressingMode) -> CpuModel {
    rmw(s, mode, ror_val(s.status, operand(s, mode)), operand(s, mode) & 1 == 1)
}

// ---------------------------------------------------------------------------
// Increment / decrement
// ---------------------------------------------------------------------------

/// INC and DEC keep Carry; only Zero and Negative follow the result.
pub open spec fn inc_dec(s: CpuModel, mode: AddressingMode, r: u8) -> CpuModel {
    CpuModel {
        bus: mem_set(s.bus, operand_addr(s, mode), r),
        status: update_nz(s.status, r),
        ..s
    }
}

pub open spec fn inc_spec(s: CpuModel, mode: AddressingMode) -> CpuModel {
    inc_dec(s, mode, wadd8(operand(s, mode), 1))
}

pub open spec fn dec_spec(s: CpuModel, mode: AddressingMode) -> CpuModel {
    inc_dec(s, mode, wsub8(operand(s, mode), 1))
}

// ---------------------------------------------------------------------------
// Control flow
// ---------------------------------------------------------------------------

/// A taken branch sign-extends the displacement byte at PC and adds it to
/// the address after the displacement; an untaken branch changes nothing
/// here (the run loop then skips the displacement byte).
pub open spec fn branch_spec(s: CpuModel, condition: bool) -> CpuModel {
    if condition {
        CpuModel {
            pc: wadd16(wadd16(s.pc, 1), (mem_get(s.bus, s.pc) as i8) as u16),
            ..s
        }
    } else {
        s
    }
}

pub open spec fn jmp_abs_spec(s: CpuModel) -> CpuModel {
    CpuModel { pc: mem_get16(s.bus, s.pc), ..s }
}

/// JMP indirect reproduces the documented page-wrap defect: a pointer whose
/// low byte sits at $xxFF takes its high byte from $xx00.
pub open spec fn jmp_ind_spec(s: CpuModel) -> CpuModel {
    let mem_address = mem_get16(s.bus, s.pc);
    let indirect_ref = if mem_address & 0x00FF == 0x00FF {
        combine16(mem_get(s.bus, mem_address), mem_get(s.bus, mem_address & 0xFF00))
    } else {
        mem_get16(s.bus, mem_address)
    };
    CpuModel { pc: indirect_ref, ..s }
}

/// JSR pushes the address of its last operand byte (return point minus
/// one), then jumps; the target is read after the push.
pub open spec fn jsr_spec(s: CpuModel) -> CpuModel {
    let s2 = push16(s, wadd16(s.pc, 1));
    CpuModel { pc: mem_get16(s2.bus, s2.pc), ..s2 }
}

/// RTS pops a word and resumes one byte past it.
pub open spec fn rts_spec(s: CpuModel) -> CpuModel {
    CpuModel { pc: wadd16(popped16(s), 1), ..pop16(s) }
}

/// The status byte as PLP and RTI install it: bit 4 (B) forced clear,
/// bit 5 (B2) forced set.
pub open spec fn plp_apply(v: u8) -> u8 {
    (v & !BREAK) | BREAK2
}

/// RTI pops status (with the B / B2 masking), then pops PC exactly
/// (without the +1 of RTS).
pub open spec fn rti_spec(s: CpuModel) -> CpuModel {
    let s1 = CpuModel { status: plp_apply(popped(s)), ..pop8(s) };
    CpuModel { pc: popped16(s1), ..pop16(s1) }
}

// ---------------------------------------------------------------------------
// Stack and flag instructions
// ---------------------------------------------------------------------------

pub open spec fn pha_spec(s: CpuModel) -> CpuModel {
    push8(s, s.a)
}

/// PHP pushes the status byte with both B and B2 forced set.
pub open spec fn php_spec(s: CpuModel) -> CpuModel {
    push8(s, s.status | BREAK | BREAK2)
}

pub open spec fn pla_spec(s: CpuModel) -> CpuModel {
    with_a(pop8(s), popped(s))
}

pub open spec fn plp_spec(s: CpuModel) -> CpuModel {
    CpuModel { status: plp_apply(popped(s)), ..pop8(s) }
}

// ---------------------------------------------------------------------------
// Undocumented instructions
// ---------------------------------------------------------------------------

/// DCP: decrement memory, then compare the result with A. As in CMP,
/// Carry says the decremented byte is at most A, set or cleared.
pub open spec fn dcp_spec(s: CpuModel, mode: AddressingMode) -> CpuModel {
    let d = wsub8(operand(s, mode), 1);
    let st1 = set_flag(s.status, CARRY, d <= s.a);
    CpuModel {
        bus: mem_set(s.bus, operand_addr(s, mode), d),
        status: update_nz(st1, wsub8(s.a, d)),
        ..s
    }
}

/// RLA: rotate memory left, then AND the accumulator with the result.
pub open spec fn rla_spec(s: CpuModel, mode: AddressingMode) -> CpuModel {
    let s1 = rol_mem_spec(s, mode);
    with_a(s1, rol_val(s.status, operand(s, mode)) & s1.a)
}

/// SLO: shift memory left, then OR the accumulator with the result.
pub open spec fn slo_spec(s: CpuModel, mode: AddressingMode) -> CpuModel {
    let s1 = asl_mem_spec(s, mode);
    with_a(s1, s1.a | asl_val(operand(s, mode)))
}

/// SRE: shift memory right, then XOR the accumulator with the result.
pub open spec fn sre_spec(s: CpuModel, mode: AddressingMode) -> CpuModel {
    let s1 = lsr_mem_spec(s, mode);
    with_a(s1, lsr_val(operand(s, mode)) ^ s1.a)
}

/// RRA: rotate memory right, then add the result to A with carry.
pub open spec fn rra_spec(s: CpuModel, mode: AddressingMode) -> CpuModel {
    let s1 = ror_mem_spec(s, mode);
    add_to_a(s1, ror_val(s.status, operand(s, mode)))
}

/// ISB: increment memory, then subtract the result from A with borrow.
pub open spec fn isb_spec(s: CpuModel, mode: AddressingMode) -> CpuModel {
    let s1 = inc_spec(s, mode);
    add_to_a(s1, wadd8(operand(s, mode), 1) ^ 0xFF)
}

/// LAX loads A and X together.
pub open spec fn lax_spec(s: CpuModel, mode: AddressingMode) -> CpuModel {
    let s1 = with_a(s, operand(s, mode));
    CpuModel { x: s1.a, ..s1 }
}

/// SAX stores A AND X; no flags move.
pub open spec fn sax_spec(s: CpuModel, mode: AddressingMode) -> CpuModel {
    CpuModel { bus: mem_set(s.bus, operand_addr(s, mode), s.a & s.x), ..s }
}

/// AXS: X := (A AND X) - operand. As in the compare family, Carry says no
/// borrow was needed, set or cleared.
pub open spec fn asx_spec(s: CpuModel, mode: AddressingMode) -> CpuModel {
    let d = operand(s, mode);
    let x_and_a = s.x & s.a;
    let result = wsub8(x_and_a, d);
    let st1 = set_flag(s.status, CARRY, d <= x_and_a);
    CpuModel { x: result, status: update_nz(st1, result), ..s }
}

/// ARR: AND with A, rotate A right, then set Carry from bit 6 and Overflow
/// from bit 5 XOR bit 6 of the rotated value.
pub open spec fn arr_spec(s: CpuModel, mode: AddressingMode) -> CpuModel {
    let s2 = ror_acc_spec(with_a(s, operand(s, mode) & s.a));
    let result = s2.a;
    let bit_5 = (result >> 5) & 1;
    let bit_6 = (result >> 6) & 1;
    let st1 = set_flag(s2.status, CARRY, bit_6 == 1);
    let st2 = set_flag(st1, OVERFLOW, bit_5 ^ bit_6 == 1);
    CpuModel { status: update_nz(st2, result), ..s2 }
}

/// ANC: AND with A, then copy the Negative flag into Carry.
pub open spec fn anc_spec(s: CpuModel, mode: AddressingMode) -> CpuModel {
    let s1 = with_a(s, operand(s, mode) & s.a);
    CpuModel { status: set_flag(s1.status, CARRY, s1.status & NEGATIVE != 0), ..s1 }
}

/// ALR: AND with A, then shift A right.
pub open spec fn alr_spec(s: CpuModel, mode: AddressingMode) -> CpuModel {
    lsr_acc_spec(with_a(s, operand(s, mode) & s.a))
}

/// LXA: load A, then transfer to X (one chosen behavior of an unstable
/// instruction).
pub open spec fn lxa_spec(s: CpuModel, mode: AddressingMode) -> CpuModel {
    let s1 = lda_spec(s, mode);
    with_x(s1, s1.a)
}

/// XAA: A := X, then AND with the operand (one chosen behavior).
pub open spec fn xaa_spec(s: CpuModel, mode: AddressingMode) -> CpuModel {
    let s1 = with_a(s, s.x);
    with_a(s1, operand(s1, mode) & s1.a)
}

/// LAS: A, X and SP all take operand AND SP (one chosen behavior).
pub open spec fn las_spec(s: CpuModel, mode: AddressingMode) -> CpuModel {
    let d = operand(s, mode) & s.sp;
    CpuModel { a: d, x: d, sp: d, status: update_nz(s.status, d), ..s }
}

/// The target of the absolute-Y-indexed stores of the unstable group.
pub open spec fn abs_y_target(s: CpuModel) -> u16 {
    wadd16(mem_get16(s.bus, s.pc), s.y as u16)
}

/// TAS: SP := A AND X, then store SP AND (target high byte + 1) at the
/// Y-indexed absolute target (one chosen behavior).
pub open spec fn tas_spec(s: CpuModel) -> CpuModel {
    let sp = s.a & s.x;
    let mem_address = abs_y_target(s);
    let data = wadd8(hi8(mem_address), 1) & sp;
    CpuModel { sp: sp, bus: mem_set(s.bus, mem_address, data), ..s }
}

/// AHX, indirect-Y form: store A AND X AND (target high byte) through the
/// zero-page pointer at PC, Y-indexed (one chosen behavior). The pointer
/// word is read without the zero-page wrap of the official indirect mode.
pub open spec fn ahx_ind_y_spec(s: CpuModel) -> CpuModel {
    let pos = mem_get(s.bus, s.pc);
    let mem_address = wadd16(mem_get16(s.bus, pos as u16), s.y as u16);
    let data = s.a & s.x & hi8(mem_address);
    CpuModel { bus: mem_set(s.bus, mem_address, data), ..s }
}

/// AHX, absolute-Y form (one chosen behavior).
pub open spec fn ahx_abs_y_spec(s: CpuModel) -> CpuModel {
    let mem_address = abs_y_target(s);
    let data = s.a & s.x & hi8(mem_address);
    CpuModel { bus: mem_set(s.bus, mem_address, data), ..s }
}

/// SHX: store X AND (target high byte + 1) at the Y-indexed absolute
/// target (one chosen behavior).
pub open spec fn shx_spec(s: CpuModel) -> CpuModel {
    let mem_address = abs_y_target(s);
    let data = s.x & wadd8(hi8(mem_address), 1);
    CpuModel { bus: mem_set(s.bus, mem_address, data), ..s }
}

/// SHY: store Y AND (target high byte + 1) at the X-indexed absolute
/// target (one chosen behavior).
pub open spec fn shy_spec(s: CpuModel) -> CpuModel {
    let mem_address = wadd16(mem_get16(s.bus, s.pc), s.x as u16);
    let data = s.y & wadd8(hi8(mem_address), 1);
    CpuModel { bus: mem_set(s.bus, mem_address, data), ..s }
}

// ---------------------------------------------------------------------------
// One instruction
// ---------------------------------------------------------------------------

/// What executing one (non-break) instruction does: either the next state,
/// or a fault.
pub ghost enum OpStep {
    Next(CpuModel),
    Fail(RunError),
}

/// A transition that stores one byte: it goes through only where the target
/// accepts writes; a store into program ROM is fatal.
pub open spec fn write_op(target: u16, result: CpuModel) -> OpStep {
    if can_write(target) {
        OpStep::Next(result)
    } else {
        OpStep::Fail(RunError::WriteToRom)
    }
}

/// The transition of the instruction with opcode byte `code`, from the
/// state in which PC points at the instruction's first operand byte.
pub open spec fn op_spec(s: CpuModel, code: u8) -> OpStep {
    let mode = table(code).mode;
    match code {
        // ADC
        0x69 | 0x65 | 0x75 | 0x6d | 0x7d | 0x79 | 0x61 | 0x71 => OpStep::Next(adc_spec(s, mode)),
        // AND
        0x29 | 0x25 | 0x35 | 0x2d | 0x3d | 0x39 | 0x21 | 0x31 => OpStep::Next(and_spec(s, mode)),
        // ASL
        0x0a => OpStep::Next(asl_acc_spec(s)),
        0x06 | 0x16 | 0x0e | 0x1e => write_op(operand_addr(s, mode), asl_mem_spec(s, mode)),
        // branches
        0x90 => OpStep::Next(branch_spec(s, !carry_set(s.status))),
        0xb0 => OpStep::Next(branch_spec(s, carry_set(s.status))),
        0xf0 => OpStep::Next(branch_spec(s, s.status & ZERO != 0)),
        0xd0 => OpStep::Next(branch_spec(s, !(s.status & ZERO != 0))),
        0x30 => OpStep::Next(branch_spec(s, s.status & NEGATIVE != 0)),
        0x10 => OpStep::Next(branch_spec(s, !(s.status & NEGATIVE != 0))),
        0x50 => OpStep::Next(branch_spec(s, !(s.status & OVERFLOW != 0))),
        0x70 => OpStep::Next(branch_spec(s, s.status & OVERFLOW != 0)),
        // BIT
        0x24 | 0x2c => OpStep::Next(bit_spec(s, mode)),
        // flag clears and sets
        0x18 => OpStep::Next(CpuModel { status: s.status & !CARRY, ..s }),
        0xd8 => OpStep::Next(CpuModel { status: s.status & !DECIMAL_MODE, ..s }),
        0x58 => OpStep::Next(CpuModel { status: s.status & !INTERRUPT_DISABLE, ..s }),
        0xb8 => OpStep::Next(CpuModel { status: s.status & !OVERFLOW, ..s }),
        0x38 => OpStep::Next(CpuModel { status: s.status | CARRY, ..s }),
        0xf8 => OpStep::Next(CpuModel { status: s.status | DECIMAL_MODE, ..s }),
        0x78 => OpStep::Next(CpuModel { status: s.status | INTERRUPT_DISABLE, ..s }),
        // CMP, CPX, CPY
        0xc9 | 0xc5 | 0xd5 | 0xcd | 0xdd | 0xd9 | 0xc1 | 0xd1 => OpStep::Next(
            compare_spec(s, mode, s.a),
        ),
        0xe0 | 0xe4 | 0xec => OpStep::Next(compare_spec(s, mode, s.x)),
        0xc0 | 0xc4 | 0xcc => OpStep::Next(compare_spec(s, mode, s.y)),
        // DEC, DEX, DEY
        0xc6 | 0xd6 | 0xce | 0xde => write_op(operand_addr(s, mode), dec_spec(s, mode)),
        0xca => OpStep::Next(with_x(s, wsub8(s.x, 1))),
        0x88 => OpStep::Next(with_y(s, wsub8(s.y, 1))),
        // EOR
        0x49 | 0x45 | 0x55 | 0x4d | 0x5d | 0x59 | 0x41 | 0x51 => OpStep::Next(eor_spec(s, mode)),
        // INC, INX, INY
        0xe6 | 0xf6 | 0xee | 0xfe => write_op(operand_addr(s, mode), inc_spec(s, mode)),
        0xe8 => OpStep::Next(with_x(s, wadd8(s.x, 1))),
        0xc8 => OpStep::Next(with_y(s, wadd8(s.y, 1))),
        // JMP
        0x4c => OpStep::Next(jmp_abs_spec(s)),
        0x6c => OpStep::Next(jmp_ind_spec(s)),
        // JSR, RTS, RTI
        0x20 => OpStep::Next(jsr_spec(s)),
        0x60 => OpStep::Next(rts_spec(s)),
        0x40 => OpStep::Next(rti_spec(s)),
        // LDA, LDX, LDY
        0xa9 | 0xa5 | 0xb5 | 0xad | 0xbd | 0xb9 | 0xa1 | 0xb1 => OpStep::Next(lda_spec(s, mode)),
        0xa2 | 0xa6 | 0xb6 | 0xae | 0xbe => OpStep::Next(ldx_spec(s, mode)),
        0xa0 | 0xa4 | 0xb4 | 0xac | 0xbc => OpStep::Next(ldy_spec(s, mode)),
        // LSR
        0x4a => OpStep::Next(lsr_acc_spec(s)),
        0x46 | 0x56 | 0x4e | 0x5e => write_op(operand_addr(s, mode), lsr_mem_spec(s, mode)),
        // ORA
        0x09 | 0x05 | 0x15 | 0x0d | 0x1d | 0x19 | 0x01 | 0x11 => OpStep::Next(ora_spec(s, mode)),
        // stack
        0x48 => OpStep::Next(pha_spec(s)),
        0x08 => OpStep::Next(php_spec(s)),
        0x68 => OpStep::Next(pla_spec(s)),
        0x28 => OpStep::Next(plp_spec(s)),
        // ROL, ROR
        0x2a => OpStep::Next(rol_acc_spec(s)),
        0x26 | 0x36 | 0x2e | 0x3e => write_op(operand_addr(s, mode), rol_mem_spec(s, mode)),
        0x6a => OpStep::Next(ror_acc_spec(s)),
        0x66 | 0x76 | 0x6e | 0x7e => write_op(operand_addr(s, mode), ror_mem_spec(s, mode)),
        // SBC
        0xe9 | 0xe5 | 0xf5 | 0xed | 0xfd | 0xf9 | 0xe1 | 0xf1 => OpStep::Next(sbc_spec(s, mode)),
        // STA, STX, STY
        0x85 | 0x95 | 0x8d | 0x9d | 0x99 | 0x81 | 0x91 => write_op(
            operand_addr(s, mode),
            sta_spec(s, mode),
        ),
        0x86 | 0x96 | 0x8e => write_op(operand_addr(s, mode), stx_spec(s, mode)),
        0x84 | 0x94 | 0x8c => write_op(operand_addr(s, mode), sty_spec(s, mode)),
        // transfers
        0xaa => OpStep::Next(with_x(s, s.a)),
        0xa8 => OpStep::Next(with_y(s, s.a)),
        0xba => OpStep::Next(with_x(s, s.sp)),
        0x8a => OpStep::Next(with_a(s, s.x)),
        0x9a => OpStep::Next(CpuModel { sp: s.x, ..s }),
        0x98 => OpStep::Next(with_a(s, s.y)),
        // NOP
        0xea => OpStep::Next(s),
        // undocumented: DCP, RLA, SLO, SRE, RRA, ISB
        0xc7 | 0xd7 | 0xcf | 0xdf | 0xdb | 0xd3 | 0xc3 => write_op(
            operand_addr(s, mode),
            dcp_spec(s, mode),
        ),
        0x27 | 0x37 | 0x2f | 0x3f | 0x3b | 0x33 | 0x23 => write_op(
            operand_addr(s, mode),
            rla_spec(s, mode),
        ),
        0x07 | 0x17 | 0x0f | 0x1f | 0x1b | 0x03 | 0x13 => write_op(
            operand_addr(s, mode),
            slo_spec(s, mode),
        ),
        0x47 | 0x57 | 0x4f | 0x5f | 0x5b | 0x43 | 0x53 => write_op(
            operand_addr(s, mode),
            sre_spec(s, mode),
        ),
        0x67 | 0x77 | 0x6f | 0x7f | 0x7b | 0x63 | 0x73 => write_op(
            operand_addr(s, mode),
            rra_spec(s, mode),
        ),
        0xe7 | 0xf7 | 0xef | 0xff | 0xfb | 0xe3 | 0xf3 => write_op(
            operand_addr(s, mode),
            isb_spec(s, mode),
        ),
        // undocumented: immediate-operand group
        0xcb => OpStep::Next(asx_spec(s, mode)),
        0x6b => OpStep::Next(arr_spec(s, mode)),
        0xeb => OpStep::Next(sbc_spec(s, mode)),
        0x0b | 0x2b => OpStep::Next(anc_spec(s, mode)),
        0x4b => OpStep::Next(alr_spec(s, mode)),
        0xab => OpStep::Next(lxa_spec(s, mode)),
        0x8b => OpStep::Next(xaa_spec(s, mode)),
        // undocumented: LAX, SAX
        0xa7 | 0xb7 | 0xaf | 0xbf | 0xa3 | 0xb3 => OpStep::Next(lax_spec(s, mode)),
        0x87 | 0x97 | 0x8f | 0x83 => write_op(operand_addr(s, mode), sax_spec(s, mode)),
        // undocumented: LAS, TAS, AHX, SHX, SHY
        0xbb => OpStep::Next(las_spec(s, mode)),
        0x9b => write_op(abs_y_target(s), tas_spec(s)),
        0x93 => write_op(
            wadd16(mem_get16(s.bus, mem_get(s.bus, s.pc) as u16), s.y as u16),
            ahx_ind_y_spec(s),
        ),
        0x9f => write_op(abs_y_target(s), ahx_abs_y_spec(s)),
        0x9e => write_op(abs_y_target(s), shx_spec(s)),
        0x9c => write_op(
            wadd16(mem_get16(s.bus, s.pc), s.x as u16),
            shy_spec(s),
        ),
        // NOPs that read their operand and drop it
        0x04 | 0x44 | 0x64 | 0x14 | 0x34 | 0x54 | 0x74 | 0xd4 | 0xf4 | 0x0c | 0x1c | 0x3c
            | 0x5c | 0x7c | 0xdc | 0xfc => OpStep::Next(s),
        // two-byte NOPs with an immediate operand
        0x80 | 0x82 | 0x89 | 0xc2 | 0xe2 => OpStep::Next(s),
        // one-byte NOPs
        _ => OpStep::Next(s),
    }
}

/// How the executable dispatch relates to `op_spec`: success lands exactly
/// on the specified next state; an error is the specified fault, with the
/// state untouched.
pub open spec fn op_matches(s1: CpuModel, code: u8, s2: CpuModel, r: Result<(), RunError>) -> bool {
    match r {
        Ok(()) => op_spec(s1, code) == OpStep::Next(s2),
        Err(e) => op_spec(s1, code) == OpStep::Fail(e) && s2 == s1,
    }
}

// ---------------------------------------------------------------------------
// Reset and the loader
// ---------------------------------------------------------------------------

/// Reset: A and X cleared, status at its reset byte, SP at $FD, PC reloaded
/// from the reset vector. Work RAM is not cleared and Y is kept.
pub open spec fn reset_spec(s: CpuModel) -> CpuModel {
    CpuModel {
        a: 0,
        x: 0,
        status: crate::model::STATUS_RESET,
        sp: crate::model::STACK_RESET,
        pc: mem_get16(s.bus, crate::model::RESET_VECTOR),
        ..s
    }
}

/// The loader: the program image in work RAM at $0600 and the reset vector
/// pointed at it. Registers do not move.
pub open spec fn load_spec(s: CpuModel, prog: Seq<u8>) -> CpuModel {
    CpuModel {
        bus: crate::model::set_vector_spec(crate::model::load_ram_spec(s.bus, prog), 0x0600),
        ..s
    }
}

/// Load then reset: the state in which a loaded program starts to run.
pub open spec fn boot_spec(s: CpuModel, prog: Seq<u8>) -> CpuModel {
    reset_spec(load_spec(s, prog))
}

// ---------------------------------------------------------------------------
// One step, and whole runs
// ---------------------------------------------------------------------------

/// One fetch-decode-execute step from `s`.
pub ghost enum StepResult {
    /// The program-break opcode was fetched; the run ends in this state.
    Halt(CpuModel),
    /// An instruction ran; this is the state at the next instruction
    /// boundary.
    Next(CpuModel),
    /// The instruction faulted; this is the state at the fault (nothing of
    /// the faulting instruction was applied).
    Fail(CpuModel, RunError),
}

/// One whole step: fetch the opcode at PC and advance PC past it; the
/// program-break opcode halts; otherwise the instruction runs, and if it
/// left PC alone, PC advances over the operand bytes.
pub open spec fn step_spec(s: CpuModel) -> StepResult {
    let code = mem_get(s.bus, s.pc);
    let s1 = CpuModel { pc: wadd16(s.pc, 1), ..s };
    if code == 0x00 {
        StepResult::Halt(s1)
    } else {
        match op_spec(s1, code) {
            OpStep::Fail(e) => StepResult::Fail(s1, e),
            OpStep::Next(s2) => StepResult::Next(
                if s2.pc == s1.pc {
                    CpuModel { pc: wadd16(s2.pc, wsub16(table(code).length as u16, 1)), ..s2 }
                } else {
                    s2
                },
            ),
        }
    }
}

/// A whole run, fuel-bounded: the state at the halt, the state and error at
/// a fault, or still running after `fuel` further instruction boundaries.
pub ghost enum RunOutcome {
    Halted(CpuModel),
    Faulted(CpuModel, RunError),
    Running(CpuModel),
}

/// Iterate `step_spec` until it halts or faults, at most `fuel` steps past
/// the first.
pub open spec fn run_outcome(s: CpuModel, fuel: nat) -> RunOutcome
    decreases fuel,
{
    match step_spec(s) {
        StepResult::Halt(s1) => RunOutcome::Halted(s1),
        StepResult::Fail(s1, e) => RunOutcome::Faulted(s1, e),
        StepResult::Next(s1) => if fuel == 0 {
            RunOutcome::Running(s1)
        } else {
            run_outcome(s1, (fuel - 1) as nat)
        },
    }
}

/// The processor, started at `s`, reaches the program-break opcode or a
/// fault within `fuel` steps.
pub open spec fn halts_within(s: CpuModel, fuel: nat) -> bool
    decreases fuel,
{
    match step_spec(s) {
        StepResult::Halt(_) => true,
        StepResult::Fail(_, _) => true,
        StepResult::Next(s1) => fuel > 0 && halts_within(s1, (fuel - 1) as nat),
    }
}

} // verus!
