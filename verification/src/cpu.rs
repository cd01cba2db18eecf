//! The 2A03 processor: registers, the addressing-mode resolver, every
//! instruction handler, and the fetch-decode-execute loop.
//!
//! Each handler is verified against its transition function in `step`; the
//! run loop is verified to follow `step_spec` at every instruction boundary,
//! so the contract of `run` pins the final registers and memory as a pure
//! function of the starting state.

use vstd::prelude::*;
use vstd::pervasive::unreached;
use crate::bus::{Bus, RunError};
use crate::opcode::{lookup, table};
use crate::model::{BusModel, CpuModel, BREAK, BREAK2, CARRY, DECIMAL_MODE, INTERRUPT_DISABLE, NEGATIVE, OVERFLOW, RESET_VECTOR, STACK, STACK_RESET, STATUS_RESET, ZERO, can_write, mem_get, mem_get16, mem_set, mem_set16, update_nz, wadd16, wadd8, wsub8, lemma_vram_slot_bounds, load_ram_spec};
use crate::step::{StepResult, RunOutcome, boot_spec, load_spec, op_matches, reset_spec, abs_y_target, adc_spec, add_to_a, ahx_abs_y_spec, ahx_ind_y_spec, alr_spec, anc_spec, and_spec, arr_spec, asl_acc_spec, asl_mem_spec, asl_val, asx_spec, bit_spec, branch_spec, compare_spec, dcp_spec, dec_spec, eor_spec, halts_within, inc_spec, isb_spec, jmp_ind_spec, jsr_spec, las_spec, lax_spec, lda_spec, ldx_spec, ldy_spec, lsr_acc_spec, lsr_mem_spec, lsr_val, lxa_spec, operand, operand_addr, ora_spec, pha_spec, php_spec, pla_spec, plp_spec, pop16, pop8, popped, popped16, push16, push8, resolve_addr, rla_spec, rol_acc_spec, rol_mem_spec, rol_val, ror_acc_spec, ror_mem_spec, ror_val, rra_spec, rti_spec, rts_spec, run_outcome, sax_spec, sbc_spec, shx_spec, shy_spec, slo_spec, sre_spec, sta_spec, step_spec, stx_spec, sty_spec, tas_spec, with_a, with_x, with_y, xaa_spec};

verus! {

/// How the byte(s) after an opcode are turned into an operand.
#[allow(non_camel_case_types)]
#[derive(Debug, Clone, Copy, PartialEq, Eq, Structural)]
pub enum AddressingMode {
    Immediate,
    ZeroPage,
    ZeroPage_X,
    ZeroPage_Y,
    Absolute,
    Absolute_X,
    Absolute_Y,
    Indirect_X,
    Indirect_Y,
    NoneAddressing,
}

/// A byte-addressable 16-bit memory space. Both the bus itself and the
/// processor (which forwards every access to its bus) present this
/// interface; its meaning is given by the `mem_get` / `mem_set` model on
/// the implementor's `mem_view`.
pub trait Memory {
    /// The memory contents seen through this interface.
    spec fn mem_view(&self) -> BusModel;

    /// What the accessors need of the implementor.
    spec fn mem_wf(&self) -> bool;

    /// Read one byte.
    fn mem_read(&self, addr: u16) -> (r: u8)
        requires
            self.mem_wf(),
        ensures
            r == mem_get(self.mem_view(), addr),
    ;

    /// Write one byte; storing into program ROM is refused.
    fn mem_write(&mut self, addr: u16, data: u8) -> (r: Result<(), RunError>)
        requires
            old(self).mem_wf(),
        ensures
            final(self).mem_wf(),
            (match r {
                Ok(()) => can_write(addr) && final(self).mem_view() == mem_set(
                    old(self).mem_view(),
                    addr,
                    data,
                ),
                Err(e) => e == RunError::WriteToRom && !can_write(addr) && final(self).mem_view()
                    == old(self).mem_view(),
            }),
    ;

    /// Read a little-endian word, low byte first.
    fn mem_read_u16(&self, pos: u16) -> (r: u16)
        requires
            self.mem_wf(),
        ensures
            r == mem_get16(self.mem_view(), pos),
    ;

    /// Write a little-endian word, low byte first; if either byte would land
    /// in program ROM, nothing is written.
    fn mem_write_u16(&mut self, pos: u16, data: u16) -> (r: Result<(), RunError>)
        requires
            old(self).mem_wf(),
        ensures
            final(self).mem_wf(),
            (match r {
                Ok(()) => can_write(pos) && can_write(wadd16(pos, 1)) && final(self).mem_view()
                    == mem_set16(old(self).mem_view(), pos, data),
                Err(e) => e == RunError::WriteToRom && !(can_write(pos) && can_write(
                    wadd16(pos, 1),
                )) && final(self).mem_view() == old(self).mem_view(),
            }),
    ;
}

/// The processor: the six architectural registers around the bus.
pub struct CPU {
    pub register_a: u8,
    pub register_x: u8,
    pub register_y: u8,
    pub status: u8,
    pub program_counter: u16,
    pub stack_pointer: u8,
    pub bus: Bus,
}

impl View for CPU {
    type V = CpuModel;

    open spec fn view(&self) -> CpuModel {
        CpuModel {
            a: self.register_a,
            x: self.register_x,
            y: self.register_y,
            sp: self.stack_pointer,
            pc: self.program_counter,
            status: self.status,
            bus: self.bus@,
        }
    }
}

impl Memory for CPU {
    open spec fn mem_view(&self) -> BusModel {
        self.bus@
    }

    open spec fn mem_wf(&self) -> bool {
        self.wf()
    }

    fn mem_read(&self, addr: u16) -> (r: u8) {
        self.bus.read8(addr)
    }

    /// Beyond the trait's promise about memory, an access through the
    /// processor leaves every register alone.
    fn mem_write(&mut self, addr: u16, data: u8) -> (r: Result<(), RunError>)
        ensures
            final(self)@ == (CpuModel { bus: final(self)@.bus, ..old(self)@ }),
    {
        self.bus.write8(addr, data)
    }

    fn mem_read_u16(&self, pos: u16) -> (r: u16) {
        self.bus.read16(pos)
    }

    /// Beyond the trait's promise about memory, an access through the
    /// processor leaves every register alone.
    fn mem_write_u16(&mut self, pos: u16, data: u16) -> (r: Result<(), RunError>)
        ensures
            final(self)@ == (CpuModel { bus: final(self)@.bus, ..old(self)@ }),
    {
        self.bus.write16(pos, data)
    }
}

impl CPU {
    /// All the processor asks of its state: a well-formed bus.
    pub open spec fn wf(&self) -> bool {
        self.bus.wf()
    }

    /// A fresh processor around a bus: registers cleared, status at its
    /// power-up value, the stack pointer at $FD.
    pub fn new(bus: Bus) -> (cpu: CPU)
        requires
            bus.wf(),
        ensures
            cpu.wf(),
            cpu@ == (CpuModel {
                a: 0,
                x: 0,
                y: 0,
                sp: STACK_RESET,
                pc: 0,
                status: STATUS_RESET,
                bus: bus@,
            }),
    {
        CPU {
            register_a: 0,
            register_x: 0,
            register_y: 0,
            status: STATUS_RESET,
            program_counter: 0,
            stack_pointer: STACK_RESET,
            bus: bus,
        }
    }

    // ------------------------------------------------------------------
    // Addressing modes
    // ------------------------------------------------------------------

    /// The effective address that `mode` yields when its operand bytes are
    /// read at `addr`. The immediate and implicit tags have no stored
    /// operand address and are rejected.
    pub fn get_absolute_address(&self, mode: &AddressingMode, addr: u16) -> (r: Result<
        u16,
        RunError,
    >)
        requires
            self.wf(),
        ensures
            (match r {
                Ok(a) => !(*mode is Immediate) && !(*mode is NoneAddressing) && a == resolve_addr(
                    self@,
                    *mode,
                    addr,
                ),
                Err(e) => e == RunError::UnsupportedMode && (*mode is Immediate
                    || *mode is NoneAddressing),
            }),
    {
        match mode {
            AddressingMode::ZeroPage => Ok(self.bus.read8(addr) as u16),
            AddressingMode::Absolute => Ok(self.bus.read16(addr)),
            AddressingMode::ZeroPage_X => {
                let pos = self.bus.read8(addr);
                Ok(pos.wrapping_add(self.register_x) as u16)
            },
            AddressingMode::ZeroPage_Y => {
                let pos = self.bus.read8(addr);
                Ok(pos.wrapping_add(self.register_y) as u16)
            },
            AddressingMode::Absolute_X => {
                let base = self.bus.read16(addr);
                Ok(base.wrapping_add(self.register_x as u16))
            },
            AddressingMode::Absolute_Y => {
                let base = self.bus.read16(addr);
                Ok(base.wrapping_add(self.register_y as u16))
            },
            AddressingMode::Indirect_X => {
                let base = self.bus.read8(addr);
                let ptr: u8 = base.wrapping_add(self.register_x);
                let lo = self.bus.read8(ptr as u16);
                let hi = self.bus.read8(ptr.wrapping_add(1) as u16);
                Ok(((hi as u16) << 8) | (lo as u16))
            },
            AddressingMode::Indirect_Y => {
                let base = self.bus.read8(addr);
                let lo = self.bus.read8(base as u16);
                let hi = self.bus.read8(base.wrapping_add(1) as u16);
                let deref_base = ((hi as u16) << 8) | (lo as u16);
                Ok(deref_base.wrapping_add(self.register_y as u16))
            },
            _ => Err(RunError::UnsupportedMode),
        }
    }

    /// The effective address of the current instruction's operand; its
    /// operand bytes sit at the program counter.
    fn get_operand_address(&self, mode: &AddressingMode) -> (r: u16)
        requires
            self.wf(),
            !(*mode is NoneAddressing),
        ensures
            r == operand_addr(self@, *mode),
    {
        match mode {
            AddressingMode::Immediate => self.program_counter,
            AddressingMode::NoneAddressing => unreached(),
            _ => {
                match self.get_absolute_address(mode, self.program_counter) {
                    Ok(a) => a,
                    Err(_) => unreached(),
                }
            },
        }
    }

    // ------------------------------------------------------------------
    // Flag and register helpers
    // ------------------------------------------------------------------

    /// Zero tracks whether `result` is zero; Negative tracks its bit 7.
    fn update_zero_and_negative_flags(&mut self, result: u8)
        ensures
            final(self)@ == (CpuModel { status: update_nz(old(self)@.status, result), ..old(self)@ }),
    {
        if result == 0 {
            self.status = self.status | ZERO;
        } else {
            self.status = self.status & !ZERO;
        }
        if result & 0b1000_0000 != 0 {
            self.status = self.status | NEGATIVE;
        } else {
            self.status = self.status & !NEGATIVE;
        }
    }

    fn set_carry_flag(&mut self)
        ensures
            final(self)@ == (CpuModel { status: old(self)@.status | CARRY, ..old(self)@ }),
    {
        self.status = self.status | CARRY;
    }

    fn clear_carry_flag(&mut self)
        ensures
            final(self)@ == (CpuModel { status: old(self)@.status & !CARRY, ..old(self)@ }),
    {
        self.status = self.status & !CARRY;
    }

    /// Load the accumulator and update Zero and Negative from it.
    fn set_register_a(&mut self, value: u8)
        ensures
            final(self)@ == with_a(old(self)@, value),
    {
        self.register_a = value;
        self.update_zero_and_negative_flags(value);
    }

    /// Add with carry into the accumulator: Carry from the 9-bit
    /// intermediate, Overflow from the signed test, Zero and Negative from
    /// the result.
    fn add_to_register_a(&mut self, data: u8)
        ensures
            final(self)@ == add_to_a(old(self)@, data),
    {
        let carry_in: u16 = if self.status & CARRY != 0 {
            1
        } else {
            0
        };
        let sum: u16 = self.register_a as u16 + data as u16 + carry_in;
        let result = sum as u8;
        if sum > 0xff {
            self.set_carry_flag();
        } else {
            self.clear_carry_flag();
        }
        if (data ^ result) & (result ^ self.register_a) & 0x80 != 0 {
            self.status = self.status | OVERFLOW;
        } else {
            self.status = self.status & !OVERFLOW;
        }
        self.set_register_a(result);
    }

    /// Subtract with borrow: add the operand's bitwise complement.
    fn sub_from_register_a(&mut self, data: u8)
        ensures
            final(self)@ == add_to_a(old(self)@, data ^ 0xFF),
    {
        self.add_to_register_a(data ^ 0xFF);
    }

    fn and_with_register_a(&mut self, data: u8)
        ensures
            final(self)@ == with_a(old(self)@, data & old(self)@.a),
    {
        self.set_register_a(data & self.register_a);
    }

    fn xor_with_register_a(&mut self, data: u8)
        ensures
            final(self)@ == with_a(old(self)@, data ^ old(self)@.a),
    {
        self.set_register_a(data ^ self.register_a);
    }

    fn or_with_register_a(&mut self, data: u8)
        ensures
            final(self)@ == with_a(old(self)@, old(self)@.a | data),
    {
        self.set_register_a(self.register_a | data);
    }

    // ------------------------------------------------------------------
    // The stack
    // ------------------------------------------------------------------

    /// Push one byte at $0100 + SP, then wrap SP down.
    fn stack_push(&mut self, data: u8)
        requires
            old(self).wf(),
        ensures
            final(self).wf(),
            final(self)@ == push8(old(self)@, data),
    {
        self.bus.write8_low(STACK + self.stack_pointer as u16, data);
        self.stack_pointer = self.stack_pointer.wrapping_sub(1);
    }

    /// Push a word, high byte first.
    fn stack_push_u16(&mut self, data: u16)
        requires
            old(self).wf(),
        ensures
            final(self).wf(),
            final(self)@ == push16(old(self)@, data),
    {
        let hi = (data >> 8) as u8;
        let lo = (data & 0xff) as u8;
        self.stack_push(hi);
        self.stack_push(lo);
    }

    /// Wrap SP up, then read the byte at $0100 + SP.
    fn stack_pop(&mut self) -> (r: u8)
        requires
            old(self).wf(),
        ensures
            final(self).wf(),
            r == popped(old(self)@),
            final(self)@ == pop8(old(self)@),
    {
        self.stack_pointer = self.stack_pointer.wrapping_add(1);
        self.bus.read8(STACK + self.stack_pointer as u16)
    }

    /// Pop a word, low byte first.
    fn stack_pop_u16(&mut self) -> (r: u16)
        requires
            old(self).wf(),
        ensures
            final(self).wf(),
            r == popped16(old(self)@),
            final(self)@ == pop16(old(self)@),
    {
        let lo = self.stack_pop() as u16;
        let hi = self.stack_pop() as u16;
        (hi << 8) | lo
    }
}

// ---------------------------------------------------------------------------
// Instruction handlers. Each is verified to produce exactly the transition
// that its function in `step` describes; the ones that store a byte return
// an error, leaving the state untouched, when the target is program ROM.
// ---------------------------------------------------------------------------
impl CPU {
    fn lda(&mut self, mode: &AddressingMode)
        requires
            old(self).wf(),
            !(*mode is NoneAddressing),
        ensures
            final(self).wf(),
            final(self)@ == lda_spec(old(self)@, *mode),
    {
        let addr = self.get_operand_address(mode);
        let value = self.bus.read8(addr);
        self.register_a = value;
        self.update_zero_and_negative_flags(value);
    }

    fn ldx(&mut self, mode: &AddressingMode)
        requires
            old(self).wf(),
            !(*mode is NoneAddressing),
        ensures
            final(self).wf(),
            final(self)@ == ldx_spec(old(self)@, *mode),
    {
        let addr = self.get_operand_address(mode);
        let value = self.bus.read8(addr);
        self.register_x = value;
        self.update_zero_and_negative_flags(value);
    }

    fn ldy(&mut self, mode: &AddressingMode)
        requires
            old(self).wf(),
            !(*mode is NoneAddressing),
        ensures
            final(self).wf(),
            final(self)@ == ldy_spec(old(self)@, *mode),
    {
        let addr = self.get_operand_address(mode);
        let value = self.bus.read8(addr);
        self.register_y = value;
        self.update_zero_and_negative_flags(value);
    }

    fn sta(&mut self, mode: &AddressingMode) -> (r: Result<(), RunError>)
        requires
            old(self).wf(),
            !(*mode is NoneAddressing),
        ensures
            final(self).wf(),
            (match r {
                Ok(()) => can_write(operand_addr(old(self)@, *mode)) && final(self)@ == sta_spec(
                    old(self)@,
                    *mode,
                ),
                Err(e) => e == RunError::WriteToRom && !can_write(operand_addr(old(self)@, *mode))
                    && final(self)@ == old(self)@,
            }),
    {
        let addr = self.get_operand_address(mode);
        self.bus.write8(addr, self.register_a)
    }

    fn stx(&mut self, mode: &AddressingMode) -> (r: Result<(), RunError>)
        requires
            old(self).wf(),
            !(*mode is NoneAddressing),
        ensures
            final(self).wf(),
            (match r {
                Ok(()) => can_write(operand_addr(old(self)@, *mode)) && final(self)@ == stx_spec(
                    old(self)@,
                    *mode,
                ),
                Err(e) => e == RunError::WriteToRom && !can_write(operand_addr(old(self)@, *mode))
                    && final(self)@ == old(self)@,
            }),
    {
        let addr = self.get_operand_address(mode);
        self.bus.write8(addr, self.register_x)
    }

    fn sty(&mut self, mode: &AddressingMode) -> (r: Result<(), RunError>)
        requires
            old(self).wf(),
            !(*mode is NoneAddressing),
        ensures
            final(self).wf(),
            (match r {
                Ok(()) => can_write(operand_addr(old(self)@, *mode)) && final(self)@ == sty_spec(
                    old(self)@,
                    *mode,
                ),
                Err(e) => e == RunError::WriteToRom && !can_write(operand_addr(old(self)@, *mode))
                    && final(self)@ == old(self)@,
            }),
    {
        let addr = self.get_operand_address(mode);
        self.bus.write8(addr, self.register_y)
    }

    fn adc(&mut self, mode: &AddressingMode)
        requires
            old(self).wf(),
            !(*mode is NoneAddressing),
        ensures
            final(self).wf(),
            final(self)@ == adc_spec(old(self)@, *mode),
    {
        let addr = self.get_operand_address(mode);
        let value = self.bus.read8(addr);
        self.add_to_register_a(value);
    }

    fn sbc(&mut self, mode: &AddressingMode)
        requires
            old(self).wf(),
            !(*mode is NoneAddressing),
        ensures
            final(self).wf(),
            final(self)@ == sbc_spec(old(self)@, *mode),
    {
        let addr = self.get_operand_address(mode);
        let data = self.bus.read8(addr);
        self.sub_from_register_a(data);
    }

    fn and(&mut self, mode: &AddressingMode)
        requires
            old(self).wf(),
            !(*mode is NoneAddressing),
        ensures
            final(self).wf(),
            final(self)@ == and_spec(old(self)@, *mode),
    {
        let addr = self.get_operand_address(mode);
        let value = self.bus.read8(addr);
        self.and_with_register_a(value);
    }

    fn eor(&mut self, mode: &AddressingMode)
        requires
            old(self).wf(),
            !(*mode is NoneAddressing),
        ensures
            final(self).wf(),
            final(self)@ == eor_spec(old(self)@, *mode),
    {
        let addr = self.get_operand_address(mode);
        let data = self.bus.read8(addr);
        self.xor_with_register_a(data);
    }

    fn ora(&mut self, mode: &AddressingMode)
        requires
            old(self).wf(),
            !(*mode is NoneAddressing),
        ensures
            final(self).wf(),
            final(self)@ == ora_spec(old(self)@, *mode),
    {
        let addr = self.get_operand_address(mode);
        let data = self.bus.read8(addr);
        self.or_with_register_a(data);
    }

    /// CMP, CPX and CPY against the given register value.
    fn compare(&mut self, mode: &AddressingMode, compare_with: u8)
        requires
            old(self).wf(),
            !(*mode is NoneAddressing),
        ensures
            final(self).wf(),
            final(self)@ == compare_spec(old(self)@, *mode, compare_with),
    {
        let addr = self.get_operand_address(mode);
        let data = self.bus.read8(addr);
        if data <= compare_with {
            self.set_carry_flag();
        } else {
            self.clear_carry_flag();
        }
        self.update_zero_and_negative_flags(compare_with.wrapping_sub(data));
    }

    fn bit(&mut self, mode: &AddressingMode)
        requires
            old(self).wf(),
            !(*mode is NoneAddressing),
        ensures
            final(self).wf(),
            final(self)@ == bit_spec(old(self)@, *mode),
    {
        let addr = self.get_operand_address(mode);
        let data = self.bus.read8(addr);
        let and = self.register_a & data;
        if and == 0 {
            self.status = self.status | ZERO;
        } else {
            self.status = self.status & !ZERO;
        }
        if data & 0b10000000 > 0 {
            self.status = self.status | NEGATIVE;
        } else {
            self.status = self.status & !NEGATIVE;
        }
        if data & 0b01000000 > 0 {
            self.status = self.status | OVERFLOW;
        } else {
            self.status = self.status & !OVERFLOW;
        }
    }

    /// All eight conditional branches: on a met condition, PC moves to the
    /// instruction after the displacement byte plus the sign-extended
    /// displacement.
    fn branch(&mut self, condition: bool)
        requires
            old(self).wf(),
        ensures
            final(self).wf(),
            final(self)@ == branch_spec(old(self)@, condition),
    {
        if condition {
            let jump = self.bus.read8(self.program_counter) as i8;
            let jump_addr = self.program_counter.wrapping_add(1).wrapping_add(jump as u16);
            self.program_counter = jump_addr;
        }
    }

    fn asl_accumulator(&mut self)
        ensures
            final(self)@ == asl_acc_spec(old(self)@),
    {
        let data = self.register_a;
        if data >> 7 == 1 {
            self.set_carry_flag();
        } else {
            self.clear_carry_flag();
        }
        self.set_register_a(data << 1);
    }

    fn lsr_accumulator(&mut self)
        ensures
            final(self)@ == lsr_acc_spec(old(self)@),
    {
        let data = self.register_a;
        if data & 1 == 1 {
            self.set_carry_flag();
        } else {
            self.clear_carry_flag();
        }
        self.set_register_a(data >> 1);
    }

    fn rol_accumulator(&mut self)
        ensures
            final(self)@ == rol_acc_spec(old(self)@),
    {
        let data = self.register_a;
        let previous_carry = self.status & CARRY != 0;
        if data >> 7 == 1 {
            self.set_carry_flag();
        } else {
            self.clear_carry_flag();
        }
        let mut result = data << 1;
        if previous_carry {
            result = result | 1;
        }
        self.set_register_a(result);
    }

    fn ror_accumulator(&mut self)
        ensures
            final(self)@ == ror_acc_spec(old(self)@),
    {
        let data = self.register_a;
        let previous_carry = self.status & CARRY != 0;
        if data & 1 == 1 {
            self.set_carry_flag();
        } else {
            self.clear_carry_flag();
        }
        let mut result = data >> 1;
        if previous_carry {
            result = result | 0b10000000;
        }
        self.set_register_a(result);
    }

    fn asl(&mut self, mode: &AddressingMode) -> (r: Result<u8, RunError>)
        requires
            old(self).wf(),
            !(*mode is NoneAddressing),
        ensures
            final(self).wf(),
            (match r {
                Ok(v) => can_write(operand_addr(old(self)@, *mode)) && final(self)@ == asl_mem_spec(
                    old(self)@,
                    *mode,
                ) && v == asl_val(operand(old(self)@, *mode)),
                Err(e) => e == RunError::WriteToRom && !can_write(operand_addr(old(self)@, *mode))
                    && final(self)@ == old(self)@,
            }),
    {
        let addr = self.get_operand_address(mode);
        let data = self.bus.read8(addr);
        let mut st = self.status;
        if data >> 7 == 1 {
            st = st | CARRY;
        } else {
            st = st & !CARRY;
        }
        let result = data << 1;
        match self.bus.write8(addr, result) {
            Ok(()) => {
                self.status = st;
                self.update_zero_and_negative_flags(result);
                Ok(result)
            },
            Err(e) => Err(e),
        }
    }

    fn lsr(&mut self, mode: &AddressingMode) -> (r: Result<u8, RunError>)
        requires
            old(self).wf(),
            !(*mode is NoneAddressing),
        ensures
            final(self).wf(),
            (match r {
                Ok(v) => can_write(operand_addr(old(self)@, *mode)) && final(self)@ == lsr_mem_spec(
                    old(self)@,
                    *mode,
                ) && v == lsr_val(operand(old(self)@, *mode)),
                Err(e) => e == RunError::WriteToRom && !can_write(operand_addr(old(self)@, *mode))
                    && final(self)@ == old(self)@,
            }),
    {
        let addr = self.get_operand_address(mode);
        let data = self.bus.read8(addr);
        let mut st = self.status;
        if data & 1 == 1 {
            st = st | CARRY;
        } else {
            st = st & !CARRY;
        }
        let result = data >> 1;
        match self.bus.write8(addr, result) {
            Ok(()) => {
                self.status = st;
                self.update_zero_and_negative_flags(result);
                Ok(result)
            },
            Err(e) => Err(e),
        }
    }

    fn rol(&mut self, mode: &AddressingMode) -> (r: Result<u8, RunError>)
        requires
            old(self).wf(),
            !(*mode is NoneAddressing),
        ensures
            final(self).wf(),
            (match r {
                Ok(v) => can_write(operand_addr(old(self)@, *mode)) && final(self)@ == rol_mem_spec(
                    old(self)@,
                    *mode,
                ) && v == rol_val(old(self)@.status, operand(old(self)@, *mode)),
                Err(e) => e == RunError::WriteToRom && !can_write(operand_addr(old(self)@, *mode))
                    && final(self)@ == old(self)@,
            }),
    {
        let addr = self.get_operand_address(mode);
        let data = self.bus.read8(addr);
        let previous_carry = self.status & CARRY != 0;
        let mut st = self.status;
        if data >> 7 == 1 {
            st = st | CARRY;
        } else {
            st = st & !CARRY;
        }
        let mut result = data << 1;
        if previous_carry {
            result = result | 1;
        }
        match self.bus.write8(addr, result) {
            Ok(()) => {
                self.status = st;
                self.update_zero_and_negative_flags(result);
                Ok(result)
            },
            Err(e) => Err(e),
        }
    }

    fn ror(&mut self, mode: &AddressingMode) -> (r: Result<u8, RunError>)
        requires
            old(self).wf(),
            !(*mode is NoneAddressing),
        ensures
            final(self).wf(),
            (match r {
                Ok(v) => can_write(operand_addr(old(self)@, *mode)) && final(self)@ == ror_mem_spec(
                    old(self)@,
                    *mode,
                ) && v == ror_val(old(self)@.status, operand(old(self)@, *mode)),
                Err(e) => e == RunError::WriteToRom && !can_write(operand_addr(old(self)@, *mode))
                    && final(self)@ == old(self)@,
            }),
    {
        let addr = self.get_operand_address(mode);
        let data = self.bus.read8(addr);
        let previous_carry = self.status & CARRY != 0;
        let mut st = self.status;
        if data & 1 == 1 {
            st = st | CARRY;
        } else {
            st = st & !CARRY;
        }
        let mut result = data >> 1;
        if previous_carry {
            result = result | 0b10000000;
        }
        match self.bus.write8(addr, result) {
            Ok(()) => {
                self.status = st;
                self.update_zero_and_negative_flags(result);
                Ok(result)
            },
            Err(e) => Err(e),
        }
    }

    fn inc(&mut self, mode: &AddressingMode) -> (r: Result<u8, RunError>)
        requires
            old(self).wf(),
            !(*mode is NoneAddressing),
        ensures
            final(self).wf(),
            (match r {
                Ok(v) => can_write(operand_addr(old(self)@, *mode)) && final(self)@ == inc_spec(
                    old(self)@,
                    *mode,
                ) && v == wadd8(operand(old(self)@, *mode), 1),
                Err(e) => e == RunError::WriteToRom && !can_write(operand_addr(old(self)@, *mode))
                    && final(self)@ == old(self)@,
            }),
    {
        let addr = self.get_operand_address(mode);
        let data = self.bus.read8(addr);
        let result = data.wrapping_add(1);
        match self.bus.write8(addr, result) {
            Ok(()) => {
                self.update_zero_and_negative_flags(result);
                Ok(result)
            },
            Err(e) => Err(e),
        }
    }

    fn dec(&mut self, mode: &AddressingMode) -> (r: Result<u8, RunError>)
        requires
            old(self).wf(),
            !(*mode is NoneAddressing),
        ensures
            final(self).wf(),
            (match r {
                Ok(v) => can_write(operand_addr(old(self)@, *mode)) && final(self)@ == dec_spec(
                    old(self)@,
                    *mode,
                ) && v == wsub8(operand(old(self)@, *mode), 1),
                Err(e) => e == RunError::WriteToRom && !can_write(operand_addr(old(self)@, *mode))
                    && final(self)@ == old(self)@,
            }),
    {
        let addr = self.get_operand_address(mode);
        let data = self.bus.read8(addr);
        let result = data.wrapping_sub(1);
        match self.bus.write8(addr, result) {
            Ok(()) => {
                self.update_zero_and_negative_flags(result);
                Ok(result)
            },
            Err(e) => Err(e),
        }
    }

    fn inx(&mut self)
        ensures
            final(self)@ == with_x(old(self)@, wadd8(old(self)@.x, 1)),
    {
        self.register_x = self.register_x.wrapping_add(1);
        let v = self.register_x;
        self.update_zero_and_negative_flags(v);
    }

    fn iny(&mut self)
        ensures
            final(self)@ == with_y(old(self)@, wadd8(old(self)@.y, 1)),
    {
        self.register_y = self.register_y.wrapping_add(1);
        let v = self.register_y;
        self.update_zero_and_negative_flags(v);
    }

    fn dex(&mut self)
        ensures
            final(self)@ == with_x(old(self)@, wsub8(old(self)@.x, 1)),
    {
        self.register_x = self.register_x.wrapping_sub(1);
        let v = self.register_x;
        self.update_zero_and_negative_flags(v);
    }

    fn dey(&mut self)
        ensures
            final(self)@ == with_y(old(self)@, wsub8(old(self)@.y, 1)),
    {
        self.register_y = self.register_y.wrapping_sub(1);
        let v = self.register_y;
        self.update_zero_and_negative_flags(v);
    }

    fn tax(&mut self)
        ensures
            final(self)@ == with_x(old(self)@, old(self)@.a),
    {
        self.register_x = self.register_a;
        let v = self.register_x;
        self.update_zero_and_negative_flags(v);
    }

    fn tay(&mut self)
        ensures
            final(self)@ == with_y(old(self)@, old(self)@.a),
    {
        self.register_y = self.register_a;
        let v = self.register_y;
        self.update_zero_and_negative_flags(v);
    }

    fn tsx(&mut self)
        ensures
            final(self)@ == with_x(old(self)@, old(self)@.sp),
    {
        self.register_x = self.stack_pointer;
        let v = self.register_x;
        self.update_zero_and_negative_flags(v);
    }

    fn txa(&mut self)
        ensures
            final(self)@ == with_a(old(self)@, old(self)@.x),
    {
        self.register_a = self.register_x;
        let v = self.register_a;
        self.update_zero_and_negative_flags(v);
    }

    /// TXS copies X into SP and, alone among the transfers, moves no flags.
    fn txs(&mut self)
        ensures
            final(self)@ == (CpuModel { sp: old(self)@.x, ..old(self)@ }),
    {
        self.stack_pointer = self.register_x;
    }

    fn tya(&mut self)
        ensures
            final(self)@ == with_a(old(self)@, old(self)@.y),
    {
        self.register_a = self.register_y;
        let v = self.register_a;
        self.update_zero_and_negative_flags(v);
    }

    /// JMP indirect, with the documented page-wrap defect.
    fn jmp(&mut self)
        requires
            old(self).wf(),
        ensures
            final(self).wf(),
            final(self)@ == jmp_ind_spec(old(self)@),
    {
        let mem_address = self.bus.read16(self.program_counter);
        let indirect_ref = if mem_address & 0x00FF == 0x00FF {
            let lo = self.bus.read8(mem_address);
            let hi = self.bus.read8(mem_address & 0xFF00);
            ((hi as u16) << 8) | (lo as u16)
        } else {
            self.bus.read16(mem_address)
        };
        self.program_counter = indirect_ref;
    }

    fn jsr(&mut self)
        requires
            old(self).wf(),
        ensures
            final(self).wf(),
            final(self)@ == jsr_spec(old(self)@),
    {
        self.stack_push_u16(self.program_counter.wrapping_add(1));
        let target_address = self.bus.read16(self.program_counter);
        self.program_counter = target_address;
    }

    fn rts(&mut self)
        requires
            old(self).wf(),
        ensures
            final(self).wf(),
            final(self)@ == rts_spec(old(self)@),
    {
        let v = self.stack_pop_u16();
        self.program_counter = v.wrapping_add(1);
    }

    fn rti(&mut self)
        requires
            old(self).wf(),
        ensures
            final(self).wf(),
            final(self)@ == rti_spec(old(self)@),
    {
        let st = self.stack_pop();
        self.status = (st & !BREAK) | BREAK2;
        let pc = self.stack_pop_u16();
        self.program_counter = pc;
    }

    fn pha(&mut self)
        requires
            old(self).wf(),
        ensures
            final(self).wf(),
            final(self)@ == pha_spec(old(self)@),
    {
        self.stack_push(self.register_a);
    }

    /// PHP pushes the status with both B and B2 forced set.
    fn php(&mut self)
        requires
            old(self).wf(),
        ensures
            final(self).wf(),
            final(self)@ == php_spec(old(self)@),
    {
        let flags = self.status | BREAK | BREAK2;
        self.stack_push(flags);
    }

    fn pla(&mut self)
        requires
            old(self).wf(),
        ensures
            final(self).wf(),
            final(self)@ == pla_spec(old(self)@),
    {
        let data = self.stack_pop();
        self.set_register_a(data);
    }

    /// PLP installs the popped byte with B forced clear and B2 forced set.
    fn plp(&mut self)
        requires
            old(self).wf(),
        ensures
            final(self).wf(),
            final(self)@ == plp_spec(old(self)@),
    {
        let st = self.stack_pop();
        self.status = (st & !BREAK) | BREAK2;
    }

    fn clc(&mut self)
        ensures
            final(self)@ == (CpuModel { status: old(self)@.status & !CARRY, ..old(self)@ }),
    {
        self.clear_carry_flag();
    }

    fn cld(&mut self)
        ensures
            final(self)@ == (CpuModel { status: old(self)@.status & !DECIMAL_MODE, ..old(self)@ }),
    {
        self.status = self.status & !DECIMAL_MODE;
    }

    fn cli(&mut self)
        ensures
            final(self)@ == (CpuModel {
                status: old(self)@.status & !INTERRUPT_DISABLE,
                ..old(self)@
            }),
    {
        self.status = self.status & !INTERRUPT_DISABLE;
    }

    fn clv(&mut self)
        ensures
            final(self)@ == (CpuModel { status: old(self)@.status & !OVERFLOW, ..old(self)@ }),
    {
        self.status = self.status & !OVERFLOW;
    }

    fn sec(&mut self)
        ensures
            final(self)@ == (CpuModel { status: old(self)@.status | CARRY, ..old(self)@ }),
    {
        self.set_carry_flag();
    }

    fn sed(&mut self)
        ensures
            final(self)@ == (CpuModel { status: old(self)@.status | DECIMAL_MODE, ..old(self)@ }),
    {
        self.status = self.status | DECIMAL_MODE;
    }

    fn sei(&mut self)
        ensures
            final(self)@ == (CpuModel {
                status: old(self)@.status | INTERRUPT_DISABLE,
                ..old(self)@
            }),
    {
        self.status = self.status | INTERRUPT_DISABLE;
    }
}

// ---------------------------------------------------------------------------
// Undocumented instructions. Each is the composition of official pieces
// that its transition function in `step` describes; the unstable ones
// (LXA, XAA, LAS, TAS, AHX, SHX, SHY) implement one chosen behavior.
// ---------------------------------------------------------------------------
impl CPU {
    /// DCP: decrement memory, then compare with the accumulator.
    fn dcp(&mut self, mode: &AddressingMode) -> (r: Result<(), RunError>)
        requires
            old(self).wf(),
            !(*mode is NoneAddressing),
        ensures
            final(self).wf(),
            (match r {
                Ok(()) => can_write(operand_addr(old(self)@, *mode)) && final(self)@ == dcp_spec(
                    old(self)@,
                    *mode,
                ),
                Err(e) => e == RunError::WriteToRom && !can_write(operand_addr(old(self)@, *mode))
                    && final(self)@ == old(self)@,
            }),
    {
        let addr = self.get_operand_address(mode);
        let data = self.bus.read8(addr);
        let result = data.wrapping_sub(1);
        match self.bus.write8(addr, result) {
            Ok(()) => {
                if result <= self.register_a {
                    self.set_carry_flag();
                } else {
                    self.clear_carry_flag();
                }
                self.update_zero_and_negative_flags(self.register_a.wrapping_sub(result));
                Ok(())
            },
            Err(e) => Err(e),
        }
    }

    /// RLA: rotate memory left, then AND the accumulator with the result.
    fn rla(&mut self, mode: &AddressingMode) -> (r: Result<(), RunError>)
        requires
            old(self).wf(),
            !(*mode is NoneAddressing),
        ensures
            final(self).wf(),
            (match r {
                Ok(()) => can_write(operand_addr(old(self)@, *mode)) && final(self)@ == rla_spec(
                    old(self)@,
                    *mode,
                ),
                Err(e) => e == RunError::WriteToRom && !can_write(operand_addr(old(self)@, *mode))
                    && final(self)@ == old(self)@,
            }),
    {
        match self.rol(mode) {
            Ok(data) => {
                self.and_with_register_a(data);
                Ok(())
            },
            Err(e) => Err(e),
        }
    }

    /// SLO: shift memory left, then OR the accumulator with the result.
    fn slo(&mut self, mode: &AddressingMode) -> (r: Result<(), RunError>)
        requires
            old(self).wf(),
            !(*mode is NoneAddressing),
        ensures
            final(self).wf(),
            (match r {
                Ok(()) => can_write(operand_addr(old(self)@, *mode)) && final(self)@ == slo_spec(
                    old(self)@,
                    *mode,
                ),
                Err(e) => e == RunError::WriteToRom && !can_write(operand_addr(old(self)@, *mode))
                    && final(self)@ == old(self)@,
            }),
    {
        match self.asl(mode) {
            Ok(data) => {
                self.or_with_register_a(data);
                Ok(())
            },
            Err(e) => Err(e),
        }
    }

    /// SRE: shift memory right, then XOR the accumulator with the result.
    fn sre(&mut self, mode: &AddressingMode) -> (r: Result<(), RunError>)
        requires
            old(self).wf(),
            !(*mode is NoneAddressing),
        ensures
            final(self).wf(),
            (match r {
                Ok(()) => can_write(operand_addr(old(self)@, *mode)) && final(self)@ == sre_spec(
                    old(self)@,
                    *mode,
                ),
                Err(e) => e == RunError::WriteToRom && !can_write(operand_addr(old(self)@, *mode))
                    && final(self)@ == old(self)@,
            }),
    {
        match self.lsr(mode) {
            Ok(data) => {
                self.xor_with_register_a(data);
                Ok(())
            },
            Err(e) => Err(e),
        }
    }

    /// RRA: rotate memory right, then add the result to A with carry.
    fn rra(&mut self, mode: &AddressingMode) -> (r: Result<(), RunError>)
        requires
            old(self).wf(),
            !(*mode is NoneAddressing),
        ensures
            final(self).wf(),
            (match r {
                Ok(()) => can_write(operand_addr(old(self)@, *mode)) && final(self)@ == rra_spec(
                    old(self)@,
                    *mode,
                ),
                Err(e) => e == RunError::WriteToRom && !can_write(operand_addr(old(self)@, *mode))
                    && final(self)@ == old(self)@,
            }),
    {
        match self.ror(mode) {
            Ok(data) => {
                self.add_to_register_a(data);
                Ok(())
            },
            Err(e) => Err(e),
        }
    }

    /// ISB: increment memory, then subtract the result from A with borrow.
    fn isb(&mut self, mode: &AddressingMode) -> (r: Result<(), RunError>)
        requires
            old(self).wf(),
            !(*mode is NoneAddressing),
        ensures
            final(self).wf(),
            (match r {
                Ok(()) => can_write(operand_addr(old(self)@, *mode)) && final(self)@ == isb_spec(
                    old(self)@,
                    *mode,
                ),
                Err(e) => e == RunError::WriteToRom && !can_write(operand_addr(old(self)@, *mode))
                    && final(self)@ == old(self)@,
            }),
    {
        match self.inc(mode) {
            Ok(data) => {
                self.sub_from_register_a(data);
                Ok(())
            },
            Err(e) => Err(e),
        }
    }

    /// LAX loads A and X together from memory.
    fn lax(&mut self, mode: &AddressingMode)
        requires
            old(self).wf(),
            !(*mode is NoneAddressing),
        ensures
            final(self).wf(),
            final(self)@ == lax_spec(old(self)@, *mode),
    {
        let addr = self.get_operand_address(mode);
        let data = self.bus.read8(addr);
        self.set_register_a(data);
        self.register_x = self.register_a;
    }

    /// SAX stores A AND X; no flags move.
    fn sax(&mut self, mode: &AddressingMode) -> (r: Result<(), RunError>)
        requires
            old(self).wf(),
            !(*mode is NoneAddressing),
        ensures
            final(self).wf(),
            (match r {
                Ok(()) => can_write(operand_addr(old(self)@, *mode)) && final(self)@ == sax_spec(
                    old(self)@,
                    *mode,
                ),
                Err(e) => e == RunError::WriteToRom && !can_write(operand_addr(old(self)@, *mode))
                    && final(self)@ == old(self)@,
            }),
    {
        let data = self.register_a & self.register_x;
        let addr = self.get_operand_address(mode);
        self.bus.write8(addr, data)
    }

    /// AXS: X := (A AND X) - operand; Carry says no borrow was needed.
    fn asx(&mut self, mode: &AddressingMode)
        requires
            old(self).wf(),
            !(*mode is NoneAddressing),
        ensures
            final(self).wf(),
            final(self)@ == asx_spec(old(self)@, *mode),
    {
        let addr = self.get_operand_address(mode);
        let data = self.bus.read8(addr);
        let x_and_a = self.register_x & self.register_a;
        let result = x_and_a.wrapping_sub(data);
        if data <= x_and_a {
            self.set_carry_flag();
        } else {
            self.clear_carry_flag();
        }
        self.update_zero_and_negative_flags(result);
        self.register_x = result;
    }

    /// ARR: AND with A, rotate A right, then Carry from bit 6 and Overflow
    /// from bit 5 XOR bit 6 of the rotated value.
    fn arr(&mut self, mode: &AddressingMode)
        requires
            old(self).wf(),
            !(*mode is NoneAddressing),
        ensures
            final(self).wf(),
            final(self)@ == arr_spec(old(self)@, *mode),
    {
        let addr = self.get_operand_address(mode);
        let data = self.bus.read8(addr);
        self.and_with_register_a(data);
        self.ror_accumulator();
        let result = self.register_a;
        let bit_5 = (result >> 5) & 1;
        let bit_6 = (result >> 6) & 1;
        if bit_6 == 1 {
            self.set_carry_flag();
        } else {
            self.clear_carry_flag();
        }
        if bit_5 ^ bit_6 == 1 {
            self.status = self.status | OVERFLOW;
        } else {
            self.status = self.status & !OVERFLOW;
        }
        self.update_zero_and_negative_flags(result);
    }

    /// ANC: AND with A, then copy Negative into Carry.
    fn anc(&mut self, mode: &AddressingMode)
        requires
            old(self).wf(),
            !(*mode is NoneAddressing),
        ensures
            final(self).wf(),
            final(self)@ == anc_spec(old(self)@, *mode),
    {
        let addr = self.get_operand_address(mode);
        let data = self.bus.read8(addr);
        self.and_with_register_a(data);
        if self.status & NEGATIVE != 0 {
            self.set_carry_flag();
        } else {
            self.clear_carry_flag();
        }
    }

    /// ALR: AND with A, then shift A right.
    fn alr(&mut self, mode: &AddressingMode)
        requires
            old(self).wf(),
            !(*mode is NoneAddressing),
        ensures
            final(self).wf(),
            final(self)@ == alr_spec(old(self)@, *mode),
    {
        let addr = self.get_operand_address(mode);
        let data = self.bus.read8(addr);
        self.and_with_register_a(data);
        self.lsr_accumulator();
    }

    /// LXA: load A, then transfer to X.
    fn lxa(&mut self, mode: &AddressingMode)
        requires
            old(self).wf(),
            !(*mode is NoneAddressing),
        ensures
            final(self).wf(),
            final(self)@ == lxa_spec(old(self)@, *mode),
    {
        self.lda(mode);
        self.tax();
    }

    /// XAA: A := X, then AND with the operand.
    fn xaa(&mut self, mode: &AddressingMode)
        requires
            old(self).wf(),
            !(*mode is NoneAddressing),
        ensures
            final(self).wf(),
            final(self)@ == xaa_spec(old(self)@, *mode),
    {
        self.register_a = self.register_x;
        let v = self.register_a;
        self.update_zero_and_negative_flags(v);
        let addr = self.get_operand_address(mode);
        let data = self.bus.read8(addr);
        self.and_with_register_a(data);
    }

    /// LAS: A, X and SP all take operand AND SP.
    fn las(&mut self, mode: &AddressingMode)
        requires
            old(self).wf(),
            !(*mode is NoneAddressing),
        ensures
            final(self).wf(),
            final(self)@ == las_spec(old(self)@, *mode),
    {
        let addr = self.get_operand_address(mode);
        let mut data = self.bus.read8(addr);
        data = data & self.stack_pointer;
        self.register_a = data;
        self.register_x = data;
        self.stack_pointer = data;
        self.update_zero_and_negative_flags(data);
    }

    /// TAS: SP := A AND X, then store SP AND (target high byte + 1).
    fn tas(&mut self) -> (r: Result<(), RunError>)
        requires
            old(self).wf(),
        ensures
            final(self).wf(),
            (match r {
                Ok(()) => can_write(abs_y_target(old(self)@)) && final(self)@ == tas_spec(
                    old(self)@,
                ),
                Err(e) => e == RunError::WriteToRom && !can_write(abs_y_target(old(self)@)) && final(self)@
                    == old(self)@,
            }),
    {
        let sp_new = self.register_a & self.register_x;
        let mem_address = self.bus.read16(self.program_counter).wrapping_add(
            self.register_y as u16,
        );
        let data = ((mem_address >> 8) as u8).wrapping_add(1) & sp_new;
        match self.bus.write8(mem_address, data) {
            Ok(()) => {
                self.stack_pointer = sp_new;
                Ok(())
            },
            Err(e) => Err(e),
        }
    }

    /// AHX, indirect-Y form: store A AND X AND (target high byte).
    fn ahx_indirect_y(&mut self) -> (r: Result<(), RunError>)
        requires
            old(self).wf(),
        ensures
            final(self).wf(),
            (match r {
                Ok(()) => can_write(
                    wadd16(
                        mem_get16(old(self)@.bus, mem_get(old(self)@.bus, old(self)@.pc) as u16),
                        old(self)@.y as u16,
                    ),
                ) && final(self)@ == ahx_ind_y_spec(old(self)@),
                Err(e) => e == RunError::WriteToRom && !can_write(
                    wadd16(
                        mem_get16(old(self)@.bus, mem_get(old(self)@.bus, old(self)@.pc) as u16),
                        old(self)@.y as u16,
                    ),
                ) && final(self)@ == old(self)@,
            }),
    {
        let pos = self.bus.read8(self.program_counter);
        let mem_address = self.bus.read16(pos as u16).wrapping_add(self.register_y as u16);
        let data = self.register_a & self.register_x & (mem_address >> 8) as u8;
        self.bus.write8(mem_address, data)
    }

    /// AHX, absolute-Y form: store A AND X AND (target high byte).
    fn ahx_absolute_y(&mut self) -> (r: Result<(), RunError>)
        requires
            old(self).wf(),
        ensures
            final(self).wf(),
            (match r {
                Ok(()) => can_write(abs_y_target(old(self)@)) && final(self)@ == ahx_abs_y_spec(
                    old(self)@,
                ),
                Err(e) => e == RunError::WriteToRom && !can_write(abs_y_target(old(self)@)) && final(self)@
                    == old(self)@,
            }),
    {
        let mem_address = self.bus.read16(self.program_counter).wrapping_add(
            self.register_y as u16,
        );
        let data = self.register_a & self.register_x & (mem_address >> 8) as u8;
        self.bus.write8(mem_address, data)
    }

    /// SHX: store X AND (target high byte + 1).
    fn shx(&mut self) -> (r: Result<(), RunError>)
        requires
            old(self).wf(),
        ensures
            final(self).wf(),
            (match r {
                Ok(()) => can_write(abs_y_target(old(self)@)) && final(self)@ == shx_spec(
                    old(self)@,
                ),
                Err(e) => e == RunError::WriteToRom && !can_write(abs_y_target(old(self)@)) && final(self)@
                    == old(self)@,
            }),
    {
        let mem_address = self.bus.read16(self.program_counter).wrapping_add(
            self.register_y as u16,
        );
        let data = self.register_x & ((mem_address >> 8) as u8).wrapping_add(1);
        self.bus.write8(mem_address, data)
    }

    /// SHY: store Y AND (target high byte + 1), X-indexed.
    fn shy(&mut self) -> (r: Result<(), RunError>)
        requires
            old(self).wf(),
        ensures
            final(self).wf(),
            (match r {
                Ok(()) => can_write(
                    wadd16(mem_get16(old(self)@.bus, old(self)@.pc), old(self)@.x as u16),
                ) && final(self)@ == shy_spec(old(self)@),
                Err(e) => e == RunError::WriteToRom && !can_write(
                    wadd16(mem_get16(old(self)@.bus, old(self)@.pc), old(self)@.x as u16),
                ) && final(self)@ == old(self)@,
            }),
    {
        let mem_address = self.bus.read16(self.program_counter).wrapping_add(
            self.register_x as u16,
        );
        let data = self.register_y & ((mem_address >> 8) as u8).wrapping_add(1);
        self.bus.write8(mem_address, data)
    }

    /// The undocumented NOPs that still resolve and read their operand.
    fn nop_read(&mut self, mode: &AddressingMode)
        requires
            old(self).wf(),
            !(*mode is NoneAddressing),
        ensures
            final(self).wf(),
            final(self)@ == old(self)@,
    {
        let addr = self.get_operand_address(mode);
        let _data = self.bus.read8(addr);
    }
}

/// What one fetch-decode-execute step did.
enum StepOutcome {
    /// An instruction ran; the processor stands at the next boundary.
    Ran,
    /// The program-break opcode was fetched; the run is over.
    Halted,
    /// The instruction faulted; the run aborts.
    Failed(RunError),
}

// ---------------------------------------------------------------------------
// The fetch-decode-execute loop and the loader
// ---------------------------------------------------------------------------
impl CPU {

    /// Dispatch for opcode bytes in [0x00, 0x40).
    #[verifier::rlimit(100)]
    fn dispatch_q0(&mut self, code: u8, mode: &AddressingMode) -> (r: Result<(), RunError>)
        requires
            old(self).wf(),
            0x00 <= code < 0x40,
            *mode == table(code).mode,
        ensures
            final(self).wf(),
            op_matches(old(self)@, code, final(self)@, r),
    {
        let ghost s1 = self@;
        match code {
            // AND
            0x29 | 0x25 | 0x35 | 0x2d | 0x3d | 0x39 | 0x21 | 0x31 => {
                self.and(mode);
                Ok(())
            },
            // ASL
            0x0a => {
                self.asl_accumulator();
                Ok(())
            },
            0x06 | 0x16 | 0x0e | 0x1e => {
                match self.asl(mode) {
                    Ok(_) => Ok(()),
                    Err(e) => Err(e),
                }
            },
            0x30 => {
                self.branch(self.status & NEGATIVE != 0);
                Ok(())
            },
            0x10 => {
                self.branch(self.status & NEGATIVE == 0);
                Ok(())
            },
            // BIT
            0x24 | 0x2c => {
                self.bit(mode);
                Ok(())
            },
            // CLC, CLD, CLI, CLV, SEC, SED, SEI
            0x18 => {
                self.clc();
                Ok(())
            },
            0x38 => {
                self.sec();
                Ok(())
            },
            // JSR, RTS, RTI
            0x20 => {
                self.jsr();
                Ok(())
            },
            // ORA
            0x09 | 0x05 | 0x15 | 0x0d | 0x1d | 0x19 | 0x01 | 0x11 => {
                self.ora(mode);
                Ok(())
            },
            0x08 => {
                self.php();
                Ok(())
            },
            0x28 => {
                self.plp();
                Ok(())
            },
            // ROL, ROR
            0x2a => {
                self.rol_accumulator();
                Ok(())
            },
            0x26 | 0x36 | 0x2e | 0x3e => {
                match self.rol(mode) {
                    Ok(_) => Ok(()),
                    Err(e) => Err(e),
                }
            },
            // RLA
            0x27 | 0x37 | 0x2f | 0x3f | 0x3b | 0x33 | 0x23 => {
                self.rla(mode)
            },
            // SLO
            0x07 | 0x17 | 0x0f | 0x1f | 0x1b | 0x03 | 0x13 => {
                self.slo(mode)
            },
            0x0b | 0x2b => {
                self.anc(mode);
                Ok(())
            },
            0x04 | 0x14 | 0x34 | 0x0c | 0x1c | 0x3c => {
                self.nop_read(mode);
                Ok(())
            },
            // one-byte NOPs (the fetched break byte returned above)
            _ => {
                Ok(())
            },

        }
    }

    /// Dispatch for opcode bytes in [0x40, 0x80).
    #[verifier::rlimit(100)]
    fn dispatch_q1(&mut self, code: u8, mode: &AddressingMode) -> (r: Result<(), RunError>)
        requires
            old(self).wf(),
            0x40 <= code < 0x80,
            *mode == table(code).mode,
        ensures
            final(self).wf(),
            op_matches(old(self)@, code, final(self)@, r),
    {
        let ghost s1 = self@;
        match code {
            // ADC
            0x69 | 0x65 | 0x75 | 0x6d | 0x7d | 0x79 | 0x61 | 0x71 => {
                self.adc(mode);
                Ok(())
            },
            0x50 => {
                self.branch(self.status & OVERFLOW == 0);
                Ok(())
            },
            0x70 => {
                self.branch(self.status & OVERFLOW != 0);
                Ok(())
            },
            0x58 => {
                self.cli();
                Ok(())
            },
            0x78 => {
                self.sei();
                Ok(())
            },
            // EOR
            0x49 | 0x45 | 0x55 | 0x4d | 0x5d | 0x59 | 0x41 | 0x51 => {
                self.eor(mode);
                Ok(())
            },
            // JMP absolute
            0x4c => {
                let mem_address = self.bus.read16(self.program_counter);
                self.program_counter = mem_address;
                Ok(())
            },
            // JMP indirect
            0x6c => {
                self.jmp();
                Ok(())
            },
            0x60 => {
                self.rts();
                Ok(())
            },
            0x40 => {
                self.rti();
                Ok(())
            },
            // LSR
            0x4a => {
                self.lsr_accumulator();
                Ok(())
            },
            0x46 | 0x56 | 0x4e | 0x5e => {
                match self.lsr(mode) {
                    Ok(_) => Ok(()),
                    Err(e) => Err(e),
                }
            },
            // PHA, PHP, PLA, PLP
            0x48 => {
                self.pha();
                Ok(())
            },
            0x68 => {
                self.pla();
                Ok(())
            },
            0x6a => {
                self.ror_accumulator();
                Ok(())
            },
            0x66 | 0x76 | 0x6e | 0x7e => {
                match self.ror(mode) {
                    Ok(_) => Ok(()),
                    Err(e) => Err(e),
                }
            },
            // SRE
            0x47 | 0x57 | 0x4f | 0x5f | 0x5b | 0x43 | 0x53 => {
                self.sre(mode)
            },
            0x6b => {
                self.arr(mode);
                Ok(())
            },
            0x4b => {
                self.alr(mode);
                Ok(())
            },
            0x44 | 0x64 | 0x54 | 0x74 | 0x5c | 0x7c => {
                self.nop_read(mode);
                Ok(())
            },
            // RRA
            0x67 | 0x77 | 0x6f | 0x7f | 0x7b | 0x63 | 0x73 => {
                self.rra(mode)
            },
            // one-byte NOPs (the fetched break byte returned above)
            _ => {
                Ok(())
            },

        }
    }

    /// Dispatch for opcode bytes in [0x80, 0xc0).
    #[verifier::rlimit(100)]
    fn dispatch_q2(&mut self, code: u8, mode: &AddressingMode) -> (r: Result<(), RunError>)
        requires
            old(self).wf(),
            0x80 <= code < 0xc0,
            *mode == table(code).mode,
        ensures
            final(self).wf(),
            op_matches(old(self)@, code, final(self)@, r),
    {
        let ghost s1 = self@;
        match code {
            // BCC, BCS, BEQ, BNE, BMI, BPL, BVC, BVS
            0x90 => {
                self.branch(self.status & CARRY == 0);
                Ok(())
            },
            0xb0 => {
                self.branch(self.status & CARRY != 0);
                Ok(())
            },
            0xb8 => {
                self.clv();
                Ok(())
            },
            0x88 => {
                self.dey();
                Ok(())
            },
            // LDA, LDX, LDY
            0xa9 | 0xa5 | 0xb5 | 0xad | 0xbd | 0xb9 | 0xa1 | 0xb1 => {
                self.lda(mode);
                Ok(())
            },
            0xa2 | 0xa6 | 0xb6 | 0xae | 0xbe => {
                self.ldx(mode);
                Ok(())
            },
            0xa0 | 0xa4 | 0xb4 | 0xac | 0xbc => {
                self.ldy(mode);
                Ok(())
            },
            // STA, STX, STY
            0x85 | 0x95 | 0x8d | 0x9d | 0x99 | 0x81 | 0x91 => {
                self.sta(mode)
            },
            0x86 | 0x96 | 0x8e => {
                self.stx(mode)
            },
            0x84 | 0x94 | 0x8c => {
                self.sty(mode)
            },
            // TAX, TAY, TSX, TXA, TXS, TYA
            0xaa => {
                self.tax();
                Ok(())
            },
            0xa8 => {
                self.tay();
                Ok(())
            },
            0xba => {
                self.tsx();
                Ok(())
            },
            0x8a => {
                self.txa();
                Ok(())
            },
            0x9a => {
                self.txs();
                Ok(())
            },
            0x98 => {
                self.tya();
                Ok(())
            },
            0x80 | 0x82 | 0x89 => {
                Ok(())
            },
            // LAX, SAX
            0xa7 | 0xb7 | 0xaf | 0xbf | 0xa3 | 0xb3 => {
                self.lax(mode);
                Ok(())
            },
            0x87 | 0x97 | 0x8f | 0x83 => {
                self.sax(mode)
            },
            // LXA, XAA, LAS, TAS, AHX, SHX, SHY
            0xab => {
                self.lxa(mode);
                Ok(())
            },
            0x8b => {
                self.xaa(mode);
                Ok(())
            },
            0xbb => {
                self.las(mode);
                Ok(())
            },
            0x9b => {
                self.tas()
            },
            0x93 => {
                self.ahx_indirect_y()
            },
            0x9f => {
                self.ahx_absolute_y()
            },
            0x9e => {
                self.shx()
            },
            0x9c => {
                self.shy()
            },
            // one-byte NOPs (the fetched break byte returned above)
            _ => {
                Ok(())
            },

        }
    }

    /// Dispatch for opcode bytes in [0xc0, 0x100).
    #[verifier::rlimit(100)]
    fn dispatch_q3(&mut self, code: u8, mode: &AddressingMode) -> (r: Result<(), RunError>)
        requires
            old(self).wf(),
            0xc0 <= code < 0x100,
            *mode == table(code).mode,
        ensures
            final(self).wf(),
            op_matches(old(self)@, code, final(self)@, r),
    {
        let ghost s1 = self@;
        match code {
            0xf0 => {
                self.branch(self.status & ZERO != 0);
                Ok(())
            },
            0xd0 => {
                self.branch(self.status & ZERO == 0);
                Ok(())
            },
            0xd8 => {
                self.cld();
                Ok(())
            },
            0xf8 => {
                self.sed();
                Ok(())
            },
            // CMP, CPX, CPY
            0xc9 | 0xc5 | 0xd5 | 0xcd | 0xdd | 0xd9 | 0xc1 | 0xd1 => {
                self.compare(mode, self.register_a);
                Ok(())
            },
            0xe0 | 0xe4 | 0xec => {
                self.compare(mode, self.register_x);
                Ok(())
            },
            0xc0 | 0xc4 | 0xcc => {
                self.compare(mode, self.register_y);
                Ok(())
            },
            // DEC, DEX, DEY
            0xc6 | 0xd6 | 0xce | 0xde => {
                match self.dec(mode) {
                    Ok(_) => Ok(()),
                    Err(e) => Err(e),
                }
            },
            0xca => {
                self.dex();
                Ok(())
            },
            // INC, INX, INY
            0xe6 | 0xf6 | 0xee | 0xfe => {
                match self.inc(mode) {
                    Ok(_) => Ok(()),
                    Err(e) => Err(e),
                }
            },
            0xe8 => {
                self.inx();
                Ok(())
            },
            0xc8 => {
                self.iny();
                Ok(())
            },
            // SBC
            0xe9 | 0xe5 | 0xf5 | 0xed | 0xfd | 0xf9 | 0xe1 | 0xf1 => {
                self.sbc(mode);
                Ok(())
            },
            // NOP
            0xea => {
                Ok(())
            },
            // DCP
            0xc7 | 0xd7 | 0xcf | 0xdf | 0xdb | 0xd3 | 0xc3 => {
                self.dcp(mode)
            },
            0xc2 | 0xe2 => {
                Ok(())
            },
            // AXS, ARR, undocumented SBC, ANC, ALR
            0xcb => {
                self.asx(mode);
                Ok(())
            },
            0xeb => {
                self.sbc(mode);
                Ok(())
            },
            0xd4 | 0xf4 | 0xdc | 0xfc => {
                self.nop_read(mode);
                Ok(())
            },
            // ISB
            0xe7 | 0xf7 | 0xef | 0xff | 0xfb | 0xe3 | 0xf3 => {
                self.isb(mode)
            },
            // one-byte NOPs (the fetched break byte returned above)
            _ => {
                Ok(())
            },

        }
    }

    /// One step of the run loop: fetch the opcode at PC, advance PC past
    /// it, halt on the program-break opcode, otherwise dispatch; if the
    /// handler left PC alone, step it over the operand bytes. The outcome
    /// is exactly `step_spec` of the starting state.
    fn step(&mut self) -> (r: StepOutcome)
        requires
            old(self).wf(),
        ensures
            final(self).wf(),
            (match r {
                StepOutcome::Halted => step_spec(old(self)@) == StepResult::Halt(final(self)@),
                StepOutcome::Ran => step_spec(old(self)@) == StepResult::Next(final(self)@),
                StepOutcome::Failed(e) => step_spec(old(self)@) == StepResult::Fail(
                    final(self)@,
                    e,
                ),
            }),
    {
        let code = self.bus.read8(self.program_counter);
        self.program_counter = self.program_counter.wrapping_add(1);
        if code == 0x00 {
            return StepOutcome::Halted;
        }
        let opcode_entry = lookup(code);
        let program_state = self.program_counter;
        let ghost s1 = self@;
        let result: Result<(), RunError> = if code < 0x40 {
            self.dispatch_q0(code, &opcode_entry.mode)
        } else if code < 0x80 {
            self.dispatch_q1(code, &opcode_entry.mode)
        } else if code < 0xc0 {
            self.dispatch_q2(code, &opcode_entry.mode)
        } else {
            self.dispatch_q3(code, &opcode_entry.mode)
        };
        match result {
            Ok(()) => {
                if self.program_counter == program_state {
                    self.program_counter = self.program_counter.wrapping_add(
                        (opcode_entry.length as u16).wrapping_sub(1),
                    );
                }
                StepOutcome::Ran
            },
            Err(e) => {
                StepOutcome::Failed(e)
            },
        }
    }

    /// Run until the program-break opcode: the final state is exactly what
    /// `run_outcome` yields from the starting state, and an aborted run
    /// reports the fault that `step_spec` names. The processor must be
    /// started on a program that halts or faults; an endless program has no
    /// final state to speak of.
    #[verifier::loop_isolation(false)]
    pub fn run(&mut self) -> (r: Result<(), RunError>)
        requires
            old(self).wf(),
            exists|n: nat| halts_within(old(self)@, n),
        ensures
            final(self).wf(),
            (match r {
                Ok(()) => exists|n: nat|
                    run_outcome(old(self)@, n) == RunOutcome::Halted(final(self)@),
                Err(e) => exists|n: nat|
                    run_outcome(old(self)@, n) == RunOutcome::Faulted(final(self)@, e),
            }),
    {
        let ghost n_total = choose|n: nat| halts_within(old(self)@, n);
        let ghost mut fuel = n_total;
        loop
            invariant
                self.wf(),
                halts_within(self@, fuel),
                run_outcome(old(self)@, n_total) == run_outcome(self@, fuel),
            decreases fuel,
        {
            let ghost prev = self@;
            match self.step() {
                StepOutcome::Halted => {
                    return Ok(());
                },
                StepOutcome::Failed(e) => {
                    return Err(e);
                },
                StepOutcome::Ran => {
                    proof {
                        fuel = (fuel - 1) as nat;
                    }
                },
            }
        }
    }

    /// As `run`, with a callback observing the processor before each fetch;
    /// this is the test-instrumentation hook.
    #[verifier::loop_isolation(false)]
    pub fn run_with_callback<F: Fn(&CPU)>(&mut self, callback: F) -> (r: Result<(), RunError>)
        requires
            old(self).wf(),
            exists|n: nat| halts_within(old(self)@, n),
            forall|c: &CPU| callback.requires((c,)),
        ensures
            final(self).wf(),
            (match r {
                Ok(()) => exists|n: nat|
                    run_outcome(old(self)@, n) == RunOutcome::Halted(final(self)@),
                Err(e) => exists|n: nat|
                    run_outcome(old(self)@, n) == RunOutcome::Faulted(final(self)@, e),
            }),
    {
        let ghost n_total = choose|n: nat| halts_within(old(self)@, n);
        let ghost mut fuel = n_total;
        loop
            invariant
                self.wf(),
                halts_within(self@, fuel),
                run_outcome(old(self)@, n_total) == run_outcome(self@, fuel),
            decreases fuel,
        {
            callback(&*self);
            let ghost prev = self@;
            match self.step() {
                StepOutcome::Halted => {
                    return Ok(());
                },
                StepOutcome::Failed(e) => {
                    return Err(e);
                },
                StepOutcome::Ran => {
                    proof {
                        fuel = (fuel - 1) as nat;
                    }
                },
            }
        }
    }

    /// Reset: clear A and X, restore the reset status byte, set SP to $FD,
    /// and reload PC from the reset vector. Work RAM is not cleared.
    pub fn reset(&mut self)
        requires
            old(self).wf(),
        ensures
            final(self).wf(),
            final(self)@ == reset_spec(old(self)@),
    {
        self.register_a = 0;
        self.register_x = 0;
        self.status = STATUS_RESET;
        self.stack_pointer = STACK_RESET;
        self.program_counter = self.bus.read16(RESET_VECTOR);
    }

    /// Place a program image in work RAM at $0600 and point the reset
    /// vector at it. The image must fit between $0600 and the top of work
    /// RAM, where the test programs live.
    pub fn load(&mut self, program: Vec<u8>)
        requires
            old(self).wf(),
            program@.len() <= 0x0200,
        ensures
            final(self).wf(),
            final(self)@ == load_spec(old(self)@, program@),
    {
        let ghost orig = self@;
        let mut i: usize = 0;
        while i < program.len()
            invariant
                self.wf(),
                i <= program@.len() <= 0x0200,
                self@ == (CpuModel {
                    bus: (BusModel { vram: self@.bus.vram, rom: orig.bus.rom }),
                    ..orig
                }),
                self@.bus.vram =~= Seq::new(
                    2048,
                    |slot: int|
                        if 0x0600 <= slot < 0x0600 + i {
                            program@[slot - 0x0600]
                        } else {
                            orig.bus.vram[slot]
                        },
                ),
            decreases program@.len() - i,
        {
            let b = program[i];
            let addr: u16 = 0x0600 + i as u16;
            proof {
                lemma_vram_slot_bounds(addr);
            }
            self.bus.write8_low(addr, b);
            i = i + 1;
        }
        proof {
            assert(self@.bus.vram =~= load_ram_spec(orig.bus, program@).vram);
        }
        self.bus.set_reset_vector(0x0600);
    }

    /// Load a program, reset, and run it to its program-break opcode.
    pub fn load_and_run(&mut self, program: Vec<u8>) -> (r: Result<(), RunError>)
        requires
            old(self).wf(),
            program@.len() <= 0x0200,
            exists|n: nat| halts_within(boot_spec(old(self)@, program@), n),
        ensures
            final(self).wf(),
            (match r {
                Ok(()) => exists|n: nat|
                    run_outcome(boot_spec(old(self)@, program@), n) == RunOutcome::Halted(
                        final(self)@,
                    ),
                Err(e) => exists|n: nat|
                    run_outcome(boot_spec(old(self)@, program@), n) == RunOutcome::Faulted(
                        final(self)@,
                        e,
                    ),
            }),
    {
        self.load(program);
        self.reset();
        self.run()
    }
}

} // verus!
