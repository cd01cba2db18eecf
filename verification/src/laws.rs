//! The architectural invariants of the instruction set, stated and proved
//! against the semantics in `model` and `step`.

use vstd::prelude::*;
use crate::cpu::AddressingMode;
use crate::model::{BREAK, BREAK2, CpuModel, RESET_VECTOR, STACK_RESET, STATUS_RESET, bus_wf, lemma_combine_split, lemma_vram_slot_bounds, NEGATIVE, ZERO, combine16, mem_get, mem_get16, update_nz, wadd16, wadd8, wsub8};
use crate::step::{add_to_a, adc_sum, boot_spec, load_spec, carry_set, halts_within, jmp_ind_spec, operand_addr, php_spec, plp_spec, pop8, popped, popped16, push8, rti_spec, rts_spec, run_outcome, step_spec, StepResult};

verus! {

/// Executing from a given state is deterministic: however much fuel two
/// terminating runs are granted, they end in the same outcome. (Each single
/// step is a pure function of the state; no step reads anything undefined.)
pub proof fn lemma_run_deterministic(s: CpuModel, n1: nat, n2: nat)
    requires
        halts_within(s, n1),
        halts_within(s, n2),
    ensures
        run_outcome(s, n1) == run_outcome(s, n2),
    decreases n1,
{
    match step_spec(s) {
        StepResult::Halt(_) => {},
        StepResult::Fail(_, _) => {},
        StepResult::Next(s1) => {
            lemma_run_deterministic(s1, (n1 - 1) as nat, (n2 - 1) as nat);
        },
    }
}

/// For every addressing mode with an effective address, the resolver
/// produces an address within the 16-bit space.
pub proof fn lemma_resolver_in_range(s: CpuModel, mode: AddressingMode)
    requires
        !(mode is NoneAddressing),
    ensures
        0 <= operand_addr(s, mode) < 0x10000,
{
}

/// Zero-page indexed effective addresses stay inside the zero page.
pub proof fn lemma_zero_page_indexed_bounded(s: CpuModel, mode: AddressingMode)
    requires
        mode is ZeroPage_X || mode is ZeroPage_Y,
    ensures
        operand_addr(s, mode) < 256,
{
}

/// The indirect-X pointer wraps entirely within the zero page: the high
/// byte of the effective address is read from (pointer + 1) mod 256, never
/// from the next page.
pub proof fn lemma_indirect_x_pointer_wrap(s: CpuModel)
    ensures
        ({
            let p = wadd8(mem_get(s.bus, s.pc), s.x);
            operand_addr(s, AddressingMode::Indirect_X) == combine16(
                mem_get(s.bus, p as u16),
                mem_get(s.bus, (((p as int) + 1) % 256) as u16),
            )
        }),
{
    let p = wadd8(mem_get(s.bus, s.pc), s.x);
    assert(wadd8(p, 1) == (((p as int) + 1) % 256) as u8);
}

/// JMP indirect reproduces the page-wrap defect: a pointer whose low byte
/// sits at $xxFF takes its high byte from $xx00, not from $(xx+1)00.
pub proof fn lemma_jmp_indirect_page_wrap(s: CpuModel)
    requires
        mem_get16(s.bus, s.pc) & 0x00FF == 0x00FF,
    ensures
        ({
            let ptr = mem_get16(s.bus, s.pc);
            jmp_ind_spec(s).pc == combine16(mem_get(s.bus, ptr), mem_get(s.bus, ptr & 0xFF00))
        }),
{
}

/// PHP pushes a status byte with bits 4 and 5 (B and B2) both set; PLP
/// installs the popped byte with bit 4 cleared and bit 5 set.
pub proof fn lemma_php_plp_break_bits(s: CpuModel)
    ensures
        php_spec(s) == push8(s, s.status | BREAK | BREAK2),
        (s.status | BREAK | BREAK2) & BREAK != 0,
        (s.status | BREAK | BREAK2) & BREAK2 != 0,
        plp_spec(s).status & BREAK == 0,
        plp_spec(s).status & BREAK2 != 0,
{
    let st = s.status;
    assert((st | BREAK | BREAK2) & BREAK != 0 && (st | BREAK | BREAK2) & BREAK2 != 0)
        by (bit_vector);
    let v = popped(s);
    assert(((v & !BREAK) | BREAK2) & BREAK == 0 && ((v & !BREAK) | BREAK2) & BREAK2 != 0)
        by (bit_vector);
}

/// RTS resumes one byte past the popped word; RTI resumes at the popped
/// word exactly (the word popped after the status byte).
pub proof fn lemma_return_addresses(s: CpuModel)
    ensures
        rts_spec(s).pc == wadd16(popped16(s), 1),
        rts_spec(s).pc == ((popped16(s) + 1) % 0x10000) as u16,
        rti_spec(s).pc == popped16(pop8(s)),
{
}

/// The low byte of a word is the word reduced modulo 256.
proof fn lemma_u16_low_byte(w: u16)
    by (bit_vector)
    ensures
        (w as u8) as int == (w as int) % 256,
{
}

/// The bitwise complement of a byte is 255 minus it.
proof fn lemma_complement(d: u8)
    by (bit_vector)
    ensures
        (d ^ 0xFF) as int == 255 - d,
{
}

/// Subtraction with borrow: with Carry set, SBC's accumulator result is the
/// plain wrapping difference; with Carry clear it subtracts one more (the
/// borrow).
pub proof fn lemma_sbc_is_borrow_subtraction(s: CpuModel, d: u8)
    ensures
        carry_set(s.status) ==> add_to_a(s, d ^ 0xFF).a == wsub8(s.a, d),
        !carry_set(s.status) ==> add_to_a(s, d ^ 0xFF).a == wsub8(wsub8(s.a, d), 1),
{
    let a = s.a;
    lemma_complement(d);
    if carry_set(s.status) {
        let sum = adc_sum(a, d ^ 0xFF, true);
        assert(sum == a + 256 - d);
        lemma_u16_low_byte(sum);
        assert(add_to_a(s, d ^ 0xFF).a == wsub8(a, d));
    } else {
        let sum = adc_sum(a, d ^ 0xFF, false);
        assert(sum == a + 255 - d);
        lemma_u16_low_byte(sum);
        assert(add_to_a(s, d ^ 0xFF).a == wsub8(wsub8(a, d), 1));
    }
}

/// The loader and reset hand the processor a deterministic starting state:
/// execution begins at $0600, the program image lies there byte for byte,
/// the rest of work RAM is untouched, and the registers hold their reset
/// values.
pub proof fn lemma_boot_state(s: CpuModel, prog: Seq<u8>)
    requires
        bus_wf(s.bus),
        prog.len() <= 0x0200,
    ensures
        boot_spec(s, prog).pc == 0x0600,
        boot_spec(s, prog).a == 0,
        boot_spec(s, prog).x == 0,
        boot_spec(s, prog).y == s.y,
        boot_spec(s, prog).sp == STACK_RESET,
        boot_spec(s, prog).status == STATUS_RESET,
        forall|i: int|
            0 <= i < prog.len() ==> mem_get(boot_spec(s, prog).bus, (0x0600 + i) as u16)
                == prog[i],
        forall|slot: int|
            0 <= slot < 2048 && !(0x0600 <= slot < 0x0600 + prog.len())
                ==> boot_spec(s, prog).bus.vram[slot] == s.bus.vram[slot],
{
    let loaded = load_spec(s, prog).bus;
    lemma_combine_split(0x0600);
    assert(mem_get16(loaded, RESET_VECTOR) == 0x0600);
    assert forall|i: int| 0 <= i < prog.len() implies mem_get(
        boot_spec(s, prog).bus,
        (0x0600 + i) as u16,
    ) == prog[i] by {
        lemma_vram_slot_bounds((0x0600 + i) as u16);
    }
}

/// After any update of the Zero and Negative flags from a result byte,
/// Zero holds exactly when the byte is zero and Negative holds exactly when
/// its bit 7 is set. Every instruction that touches these flags goes
/// through this one function.
pub proof fn lemma_nz_flags(st: u8, v: u8)
    by (bit_vector)
    ensures
        (update_nz(st, v) & ZERO != 0) <==> v == 0,
        (update_nz(st, v) & NEGATIVE != 0) <==> (v & 0x80 != 0),
{
}

} // verus!
