//! Core of a NES-family system: an instruction-level interpreter for the
//! Ricoh 2A03 processor (a MOS 6502 variant without decimal arithmetic),
//! together with the memory-bus arbitration needed to run programs from a
//! cartridge image.
//!
//! The crate is organised around a mathematical model of the machine state
//! (`model`): every bus access and every instruction is specified as a pure
//! function on that model, and the executable code is verified to follow the
//! model step by step (`step`, `cpu`). The `laws` module states and proves
//! the architectural invariants of the instruction set.

pub mod bus;
pub mod cartridge;
pub mod cpu;
pub mod interp;
pub mod laws;
pub mod model;
pub mod opcode;
pub mod step;
