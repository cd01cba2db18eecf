//! A minimal, bus-less interpreter: the accumulator-load, transfer and
//! program-break opcodes executed straight out of a program byte string.
//! It exists alongside the full processor as the smallest observable core
//! of the fetch-decode-execute loop; `mini_run` gives its exact semantics.

use vstd::prelude::*;
use vstd::pervasive::unreached;
use crate::model::update_nz;

verus! {

/// Which programs the interpreter accepts from position `pc` on: load
/// immediate (with its operand in bounds), transfer, and the
/// program-break opcode that must end every path.
pub open spec fn mini_valid(prog: Seq<u8>, pc: int) -> bool
    decreases prog.len() - pc,
{
    0 <= pc < prog.len() && {
        let op = prog[pc];
        if op == 0x00 {
            true
        } else if op == 0xA9 {
            pc + 1 < prog.len() && mini_valid(prog, pc + 2)
        } else if op == 0xAA {
            mini_valid(prog, pc + 1)
        } else {
            false
        }
    }
}

/// The interpreter's result on a valid program, from position `pc` with
/// registers `a`, `x` and status `st`: the final accumulator, X register,
/// status, and resting program position (one past the break opcode).
pub open spec fn mini_run(prog: Seq<u8>, pc: int, a: u8, x: u8, st: u8) -> (u8, u8, u8, int)
    decreases prog.len() - pc,
{
    if 0 <= pc < prog.len() {
        let op = prog[pc];
        if op == 0xA9 && pc + 1 < prog.len() {
            mini_run(prog, pc + 2, prog[pc + 1], x, update_nz(st, prog[pc + 1]))
        } else if op == 0xAA {
            mini_run(prog, pc + 1, a, a, update_nz(st, a))
        } else {
            (a, x, st, pc + 1)
        }
    } else {
        (a, x, st, pc + 1)
    }
}

/// The minimal processor: an accumulator, one index register, the status
/// byte, and a program counter into the program byte string itself.
pub struct CPU {
    pub register_a: u8,
    pub register_x: u8,
    pub status: u8,
    pub program_counter: u16,
}

impl CPU {
    /// A fresh interpreter with everything at zero.
    pub fn new() -> (cpu: CPU)
        ensures
            cpu.register_a == 0,
            cpu.register_x == 0,
            cpu.status == 0,
            cpu.program_counter == 0,
    {
        CPU { register_a: 0, register_x: 0, status: 0, program_counter: 0 }
    }

    /// Fetch, decode and execute from the start of `program` until the
    /// program-break opcode: the final registers and status are exactly
    /// `mini_run` of the starting registers, and the program counter rests
    /// one past the break opcode.
    #[verifier::loop_isolation(false)]
    pub fn interpret(&mut self, program: Vec<u8>)
        requires
            mini_valid(program@, 0),
            program@.len() < 0x10000,
        ensures
            final(self).register_a == mini_run(
                program@,
                0,
                old(self).register_a,
                old(self).register_x,
                old(self).status,
            ).0,
            final(self).register_x == mini_run(
                program@,
                0,
                old(self).register_a,
                old(self).register_x,
                old(self).status,
            ).1,
            final(self).status == mini_run(
                program@,
                0,
                old(self).register_a,
                old(self).register_x,
                old(self).status,
            ).2,
            final(self).program_counter as int == mini_run(
                program@,
                0,
                old(self).register_a,
                old(self).register_x,
                old(self).status,
            ).3,
    {
        self.program_counter = 0;
        loop
            invariant
                mini_valid(program@, self.program_counter as int),
                mini_run(program@, 0, old(self).register_a, old(self).register_x, old(self).status)
                    == mini_run(
                    program@,
                    self.program_counter as int,
                    self.register_a,
                    self.register_x,
                    self.status,
                ),
            decreases program@.len() - self.program_counter,
        {
            let opcode = program[self.program_counter as usize];
            self.program_counter = self.program_counter + 1;
            match opcode {
                0xA9 => {
                    let parameter = program[self.program_counter as usize];
                    self.program_counter = self.program_counter + 1;
                    self.register_a = parameter;
                    if self.register_a == 0 {
                        self.status = self.status | 0b0000_0010;
                    } else {
                        self.status = self.status & !0b0000_0010;
                    }
                    if self.register_a & 0b1000_0000 != 0 {
                        self.status = self.status | 0b1000_0000;
                    } else {
                        self.status = self.status & !0b1000_0000;
                    }
                },
                0xAA => {
                    self.register_x = self.register_a;
                    if self.register_x == 0 {
                        self.status = self.status | 0b0000_0010;
                    } else {
                        self.status = self.status & !0b0000_0010;
                    }
                    if self.register_x & 0b1000_0000 != 0 {
                        self.status = self.status | 0b1000_0000;
                    } else {
                        self.status = self.status & !0b1000_0000;
                    }
                },
                0x00 => {
                    return;
                },
                _ => unreached(),
            }
        }
    }
}

} // verus!
