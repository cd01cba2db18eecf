//! The opcode catalog: for each of the 256 opcode bytes, the mnemonic,
//! instruction length in bytes, nominal cycle count, and addressing-mode tag.
//!
//! The catalog exists twice: `table` is the specification (length, cycles
//! and mode as a pure function of the opcode byte), and `lookup` is the
//! executable entry point, verified to agree with `table` on every byte.
//! Both are split into segments of sixteen opcodes to keep each proof
//! small. Page-cross cycle penalties are not modelled.

use vstd::prelude::*;
use vstd::pervasive::unreached;
use crate::cpu::AddressingMode;

verus! {

/// One catalog entry.
pub struct OpCode {
    /// The opcode byte.
    pub opcode: u8,
    /// Mnemonic, for diagnostics; undocumented opcodes are starred.
    pub abbreviation: &'static str,
    /// Total instruction length in bytes, the opcode byte included.
    pub length: u8,
    /// Nominal cycle count.
    pub cycles: u8,
    /// How the operand bytes are interpreted.
    pub mode: AddressingMode,
}

/// The specified part of a catalog entry.
pub struct OpInfo {
    pub length: u8,
    pub cycles: u8,
    pub mode: AddressingMode,
}

impl OpCode {
    fn new(opcode: u8, abbreviation: &'static str, length: u8, cycles: u8, mode: AddressingMode) -> (r: OpCode)
        ensures
            r.opcode == opcode,
            r.abbreviation == abbreviation,
            r.length == length,
            r.cycles == cycles,
            r.mode == mode,
    {
        OpCode { opcode, abbreviation, length, cycles, mode }
    }
}

pub open spec fn table_seg0(code: u8) -> OpInfo {
    match code {
        0x00 => OpInfo { length: 1, cycles: 7, mode: AddressingMode::NoneAddressing },
        0x01 => OpInfo { length: 2, cycles: 6, mode: AddressingMode::Indirect_X },
        0x02 => OpInfo { length: 1, cycles: 2, mode: AddressingMode::NoneAddressing },
        0x03 => OpInfo { length: 2, cycles: 8, mode: AddressingMode::Indirect_X },
        0x04 => OpInfo { length: 2, cycles: 3, mode: AddressingMode::ZeroPage },
        0x05 => OpInfo { length: 2, cycles: 3, mode: AddressingMode::ZeroPage },
        0x06 => OpInfo { length: 2, cycles: 5, mode: AddressingMode::ZeroPage },
        0x07 => OpInfo { length: 2, cycles: 5, mode: AddressingMode::ZeroPage },
        0x08 => OpInfo { length: 1, cycles: 3, mode: AddressingMode::NoneAddressing },
        0x09 => OpInfo { length: 2, cycles: 2, mode: AddressingMode::Immediate },
        0x0a => OpInfo { length: 1, cycles: 2, mode: AddressingMode::NoneAddressing },
        0x0b => OpInfo { length: 2, cycles: 2, mode: AddressingMode::Immediate },
        0x0c => OpInfo { length: 3, cycles: 4, mode: AddressingMode::Absolute },
        0x0d => OpInfo { length: 3, cycles: 4, mode: AddressingMode::Absolute },
        0x0e => OpInfo { length: 3, cycles: 6, mode: AddressingMode::Absolute },
        0x0f => OpInfo { length: 3, cycles: 6, mode: AddressingMode::Absolute },
        _ => OpInfo { length: 1, cycles: 1, mode: AddressingMode::NoneAddressing },
    }
}

pub open spec fn table_seg1(code: u8) -> OpInfo {
    match code {
        0x10 => OpInfo { length: 2, cycles: 2, mode: AddressingMode::NoneAddressing },
        0x11 => OpInfo { length: 2, cycles: 5, mode: AddressingMode::Indirect_Y },
        0x12 => OpInfo { length: 1, cycles: 2, mode: AddressingMode::NoneAddressing },
        0x13 => OpInfo { length: 2, cycles: 8, mode: AddressingMode::Indirect_Y },
        0x14 => OpInfo { length: 2, cycles: 4, mode: AddressingMode::ZeroPage_X },
        0x15 => OpInfo { length: 2, cycles: 4, mode: AddressingMode::ZeroPage_X },
        0x16 => OpInfo { length: 2, cycles: 6, mode: AddressingMode::ZeroPage_X },
        0x17 => OpInfo { length: 2, cycles: 6, mode: AddressingMode::ZeroPage_X },
        0x18 => OpInfo { length: 1, cycles: 2, mode: AddressingMode::NoneAddressing },
        0x19 => OpInfo { length: 3, cycles: 4, mode: AddressingMode::Absolute_Y },
        0x1a => OpInfo { length: 1, cycles: 2, mode: AddressingMode::NoneAddressing },
        0x1b => OpInfo { length: 3, cycles: 7, mode: AddressingMode::Absolute_Y },
        0x1c => OpInfo { length: 3, cycles: 4, mode: AddressingMode::Absolute_X },
        0x1d => OpInfo { length: 3, cycles: 4, mode: AddressingMode::Absolute_X },
        0x1e => OpInfo { length: 3, cycles: 7, mode: AddressingMode::Absolute_X },
        0x1f => OpInfo { length: 3, cycles: 7, mode: AddressingMode::Absolute_X },
        _ => OpInfo { length: 1, cycles: 1, mode: AddressingMode::NoneAddressing },
    }
}

pub open spec fn table_seg2(code: u8) -> OpInfo {
    match code {
        0x20 => OpInfo { length: 3, cycles: 6, mode: AddressingMode::NoneAddressing },
        0x21 => OpInfo { length: 2, cycles: 6, mode: AddressingMode::Indirect_X },
        0x22 => OpInfo { length: 1, cycles: 2, mode: AddressingMode::NoneAddressing },
        0x23 => OpInfo { length: 2, cycles: 8, mode: AddressingMode::Indirect_X },
        0x24 => OpInfo { length: 2, cycles: 3, mode: AddressingMode::ZeroPage },
        0x25 => OpInfo { length: 2, cycles: 3, mode: AddressingMode::ZeroPage },
        0x26 => OpInfo { length: 2, cycles: 5, mode: AddressingMode::ZeroPage },
        0x27 => OpInfo { length: 2, cycles: 5, mode: AddressingMode::ZeroPage },
        0x28 => OpInfo { length: 1, cycles: 4, mode: AddressingMode::NoneAddressing },
        0x29 => OpInfo { length: 2, cycles: 2, mode: AddressingMode::Immediate },
        0x2a => OpInfo { length: 1, cycles: 2, mode: AddressingMode::NoneAddressing },
        0x2b => OpInfo { length: 2, cycles: 2, mode: AddressingMode::Immediate },
        0x2c => OpInfo { length: 3, cycles: 4, mode: AddressingMode::Absolute },
        0x2d => OpInfo { length: 3, cycles: 4, mode: AddressingMode::Absolute },
        0x2e => OpInfo { length: 3, cycles: 6, mode: AddressingMode::Absolute },
        0x2f => OpInfo { length: 3, cycles: 6, mode: AddressingMode::Absolute },
        _ => OpInfo { length: 1, cycles: 1, mode: AddressingMode::NoneAddressing },
    }
}

pub open spec fn table_seg3(code: u8) -> OpInfo {
    match code {
        0x30 => OpInfo { length: 2, cycles: 2, mode: AddressingMode::NoneAddressing },
        0x31 => OpInfo { length: 2, cycles: 5, mode: AddressingMode::Indirect_Y },
        0x32 => OpInfo { length: 1, cycles: 2, mode: AddressingMode::NoneAddressing },
        0x33 => OpInfo { length: 2, cycles: 8, mode: AddressingMode::Indirect_Y },
        0x34 => OpInfo { length: 2, cycles: 4, mode: AddressingMode::ZeroPage_X },
        0x35 => OpInfo { length: 2, cycles: 4, mode: AddressingMode::ZeroPage_X },
        0x36 => OpInfo { length: 2, cycles: 6, mode: AddressingMode::ZeroPage_X },
        0x37 => OpInfo { length: 2, cycles: 6, mode: AddressingMode::ZeroPage_X },
        0x38 => OpInfo { length: 1, cycles: 2, mode: AddressingMode::NoneAddressing },
        0x39 => OpInfo { length: 3, cycles: 4, mode: AddressingMode::Absolute_Y },
        0x3a => OpInfo { length: 1, cycles: 2, mode: AddressingMode::NoneAddressing },
        0x3b => OpInfo { length: 3, cycles: 7, mode: AddressingMode::Absolute_Y },
        0x3c => OpInfo { length: 3, cycles: 4, mode: AddressingMode::Absolute_X },
        0x3d => OpInfo { length: 3, cycles: 4, mode: AddressingMode::Absolute_X },
        0x3e => OpInfo { length: 3, cycles: 7, mode: AddressingMode::Absolute_X },
        0x3f => OpInfo { length: 3, cycles: 7, mode: AddressingMode::Absolute_X },
        _ => OpInfo { length: 1, cycles: 1, mode: AddressingMode::NoneAddressing },
    }
}

pub open spec fn table_seg4(code: u8) -> OpInfo {
    match code {
        0x40 => OpInfo { length: 1, cycles: 6, mode: AddressingMode::NoneAddressing },
        0x41 => OpInfo { length: 2, cycles: 6, mode: AddressingMode::Indirect_X },
        0x42 => OpInfo { length: 1, cycles: 2, mode: AddressingMode::NoneAddressing },
        0x43 => OpInfo { length: 2, cycles: 8, mode: AddressingMode::Indirect_X },
        0x44 => OpInfo { length: 2, cycles: 3, mode: AddressingMode::ZeroPage },
        0x45 => OpInfo { length: 2, cycles: 3, mode: AddressingMode::ZeroPage },
        0x46 => OpInfo { length: 2, cycles: 5, mode: AddressingMode::ZeroPage },
        0x47 => OpInfo { length: 2, cycles: 5, mode: AddressingMode::ZeroPage },
        0x48 => OpInfo { length: 1, cycles: 3, mode: AddressingMode::NoneAddressing },
        0x49 => OpInfo { length: 2, cycles: 2, mode: AddressingMode::Immediate },
        0x4a => OpInfo { length: 1, cycles: 2, mode: AddressingMode::NoneAddressing },
        0x4b => OpInfo { length: 2, cycles: 2, mode: AddressingMode::Immediate },
        0x4c => OpInfo { length: 3, cycles: 3, mode: AddressingMode::NoneAddressing },
        0x4d => OpInfo { length: 3, cycles: 4, mode: AddressingMode::Absolute },
        0x4e => OpInfo { length: 3, cycles: 6, mode: AddressingMode::Absolute },
        0x4f => OpInfo { length: 3, cycles: 6, mode: AddressingMode::Absolute },
        _ => OpInfo { length: 1, cycles: 1, mode: AddressingMode::NoneAddressing },
    }
}

pub open spec fn table_seg5(code: u8) -> OpInfo {
    match code {
        0x50 => OpInfo { length: 2, cycles: 2, mode: AddressingMode::NoneAddressing },
        0x51 => OpInfo { length: 2, cycles: 5, mode: AddressingMode::Indirect_Y },
        0x52 => OpInfo { length: 1, cycles: 2, mode: AddressingMode::NoneAddressing },
        0x53 => OpInfo { length: 2, cycles: 8, mode: AddressingMode::Indirect_Y },
        0x54 => OpInfo { length: 2, cycles: 4, mode: AddressingMode::ZeroPage_X },
        0x55 => OpInfo { length: 2, cycles: 4, mode: AddressingMode::ZeroPage_X },
        0x56 => OpInfo { length: 2, cycles: 6, mode: AddressingMode::ZeroPage_X },
        0x57 => OpInfo { length: 2, cycles: 6, mode: AddressingMode::ZeroPage_X },
        0x58 => OpInfo { length: 1, cycles: 2, mode: AddressingMode::NoneAddressing },
        0x59 => OpInfo { length: 3, cycles: 4, mode: AddressingMode::Absolute_Y },
        0x5a => OpInfo { length: 1, cycles: 2, mode: AddressingMode::NoneAddressing },
        0x5b => OpInfo { length: 3, cycles: 7, mode: AddressingMode::Absolute_Y },
        0x5c => OpInfo { length: 3, cycles: 4, mode: AddressingMode::Absolute_X },
        0x5d => OpInfo { length: 3, cycles: 4, mode: AddressingMode::Absolute_X },
        0x5e => OpInfo { length: 3, cycles: 7, mode: AddressingMode::Absolute_X },
        0x5f => OpInfo { length: 3, cycles: 7, mode: AddressingMode::Absolute_X },
        _ => OpInfo { length: 1, cycles: 1, mode: AddressingMode::NoneAddressing },
    }
}

pub open spec fn table_seg6(code: u8) -> OpInfo {
    match code {
        0x60 => OpInfo { length: 1, cycles: 6, mode: AddressingMode::NoneAddressing },
        0x61 => OpInfo { length: 2, cycles: 6, mode: AddressingMode::Indirect_X },
        0x62 => OpInfo { length: 1, cycles: 2, mode: AddressingMode::NoneAddressing },
        0x63 => OpInfo { length: 2, cycles: 8, mode: AddressingMode::Indirect_X },
        0x64 => OpInfo { length: 2, cycles: 3, mode: AddressingMode::ZeroPage },
        0x65 => OpInfo { length: 2, cycles: 3, mode: AddressingMode::ZeroPage },
        0x66 => OpInfo { length: 2, cycles: 5, mode: AddressingMode::ZeroPage },
        0x67 => OpInfo { length: 2, cycles: 5, mode: AddressingMode::ZeroPage },
        0x68 => OpInfo { length: 1, cycles: 4, mode: AddressingMode::NoneAddressing },
        0x69 => OpInfo { length: 2, cycles: 2, mode: AddressingMode::Immediate },
        0x6a => OpInfo { length: 1, cycles: 2, mode: AddressingMode::NoneAddressing },
        0x6b => OpInfo { length: 2, cycles: 2, mode: AddressingMode::Immediate },
        0x6c => OpInfo { length: 3, cycles: 5, mode: AddressingMode::NoneAddressing },
        0x6d => OpInfo { length: 3, cycles: 4, mode: AddressingMode::Absolute },
        0x6e => OpInfo { length: 3, cycles: 6, mode: AddressingMode::Absolute },
        0x6f => OpInfo { length: 3, cycles: 6, mode: AddressingMode::Absolute },
        _ => OpInfo { length: 1, cycles: 1, mode: AddressingMode::NoneAddressing },
    }
}

pub open spec fn table_seg7(code: u8) -> OpInfo {
    match code {
        0x70 => OpInfo { length: 2, cycles: 2, mode: AddressingMode::NoneAddressing },
        0x71 => OpInfo { length: 2, cycles: 5, mode: AddressingMode::Indirect_Y },
        0x72 => OpInfo { length: 1, cycles: 2, mode: AddressingMode::NoneAddressing },
        0x73 => OpInfo { length: 2, cycles: 8, mode: AddressingMode::Indirect_Y },
        0x74 => OpInfo { length: 2, cycles: 4, mode: AddressingMode::ZeroPage_X },
        0x75 => OpInfo { length: 2, cycles: 4, mode: AddressingMode::ZeroPage_X },
        0x76 => OpInfo { length: 2, cycles: 6, mode: AddressingMode::ZeroPage_X },
        0x77 => OpInfo { length: 2, cycles: 6, mode: AddressingMode::ZeroPage_X },
        0x78 => OpInfo { length: 1, cycles: 2, mode: AddressingMode::NoneAddressing },
        0x79 => OpInfo { length: 3, cycles: 4, mode: AddressingMode::Absolute_Y },
        0x7a => OpInfo { length: 1, cycles: 2, mode: AddressingMode::NoneAddressing },
        0x7b => OpInfo { length: 3, cycles: 7, mode: AddressingMode::Absolute_Y },
        0x7c => OpInfo { length: 3, cycles: 4, mode: AddressingMode::Absolute_X },
        0x7d => OpInfo { length: 3, cycles: 4, mode: AddressingMode::Absolute_X },
        0x7e => OpInfo { length: 3, cycles: 7, mode: AddressingMode::Absolute_X },
        0x7f => OpInfo { length: 3, cycles: 7, mode: AddressingMode::Absolute_X },
        _ => OpInfo { length: 1, cycles: 1, mode: AddressingMode::NoneAddressing },
    }
}

pub open spec fn table_seg8(code: u8) -> OpInfo {
    match code {
        0x80 => OpInfo { length: 2, cycles: 2, mode: AddressingMode::Immediate },
        0x81 => OpInfo { length: 2, cycles: 6, mode: AddressingMode::Indirect_X },
        0x82 => OpInfo { length: 2, cycles: 2, mode: AddressingMode::Immediate },
        0x83 => OpInfo { length: 2, cycles: 6, mode: AddressingMode::Indirect_X },
        0x84 => OpInfo { length: 2, cycles: 3, mode: AddressingMode::ZeroPage },
        0x85 => OpInfo { length: 2, cycles: 3, mode: AddressingMode::ZeroPage },
        0x86 => OpInfo { length: 2, cycles: 3, mode: AddressingMode::ZeroPage },
        0x87 => OpInfo { length: 2, cycles: 3, mode: AddressingMode::ZeroPage },
        0x88 => OpInfo { length: 1, cycles: 2, mode: AddressingMode::NoneAddressing },
        0x89 => OpInfo { length: 2, cycles: 2, mode: AddressingMode::Immediate },
        0x8a => OpInfo { length: 1, cycles: 2, mode: AddressingMode::NoneAddressing },
        0x8b => OpInfo { length: 2, cycles: 3, mode: AddressingMode::Immediate },
        0x8c => OpInfo { length: 3, cycles: 4, mode: AddressingMode::Absolute },
        0x8d => OpInfo { length: 3, cycles: 4, mode: AddressingMode::Absolute },
        0x8e => OpInfo { length: 3, cycles: 4, mode: AddressingMode::Absolute },
        0x8f => OpInfo { length: 3, cycles: 4, mode: AddressingMode::Absolute },
        _ => OpInfo { length: 1, cycles: 1, mode: AddressingMode::NoneAddressing },
    }
}

pub open spec fn table_seg9(code: u8) -> OpInfo {
    match code {
        0x90 => OpInfo { length: 2, cycles: 2, mode: AddressingMode::NoneAddressing },
        0x91 => OpInfo { length: 2, cycles: 6, mode: AddressingMode::Indirect_Y },
        0x92 => OpInfo { length: 1, cycles: 2, mode: AddressingMode::NoneAddressing },
        0x93 => OpInfo { length: 2, cycles: 8, mode: AddressingMode::Indirect_Y },
        0x94 => OpInfo { length: 2, cycles: 4, mode: AddressingMode::ZeroPage_X },
        0x95 => OpInfo { length: 2, cycles: 4, mode: AddressingMode::ZeroPage_X },
        0x96 => OpInfo { length: 2, cycles: 4, mode: AddressingMode::ZeroPage_Y },
        0x97 => OpInfo { length: 2, cycles: 4, mode: AddressingMode::ZeroPage_Y },
        0x98 => OpInfo { length: 1, cycles: 2, mode: AddressingMode::NoneAddressing },
        0x99 => OpInfo { length: 3, cycles: 5, mode: AddressingMode::Absolute_Y },
        0x9a => OpInfo { length: 1, cycles: 2, mode: AddressingMode::NoneAddressing },
        0x9b => OpInfo { length: 3, cycles: 2, mode: AddressingMode::Absolute_Y },
        0x9c => OpInfo { length: 3, cycles: 4, mode: AddressingMode::Absolute_X },
        0x9d => OpInfo { length: 3, cycles: 5, mode: AddressingMode::Absolute_X },
        0x9e => OpInfo { length: 3, cycles: 4, mode: AddressingMode::Absolute_Y },
        0x9f => OpInfo { length: 3, cycles: 4, mode: AddressingMode::Absolute_Y },
        _ => OpInfo { length: 1, cycles: 1, mode: AddressingMode::NoneAddressing },
    }
}

pub open spec fn table_sega(code: u8) -> OpInfo {
    match code {
        0xa0 => OpInfo { length: 2, cycles: 2, mode: AddressingMode::Immediate },
        0xa1 => OpInfo { length: 2, cycles: 6, mode: AddressingMode::Indirect_X },
        0xa2 => OpInfo { length: 2, cycles: 2, mode: AddressingMode::Immediate },
        0xa3 => OpInfo { length: 2, cycles: 6, mode: AddressingMode::Indirect_X },
        0xa4 => OpInfo { length: 2, cycles: 3, mode: AddressingMode::ZeroPage },
        0xa5 => OpInfo { length: 2, cycles: 3, mode: AddressingMode::ZeroPage },
        0xa6 => OpInfo { length: 2, cycles: 3, mode: AddressingMode::ZeroPage },
        0xa7 => OpInfo { length: 2, cycles: 3, mode: AddressingMode::ZeroPage },
        0xa8 => OpInfo { length: 1, cycles: 2, mode: AddressingMode::NoneAddressing },
        0xa9 => OpInfo { length: 2, cycles: 2, mode: AddressingMode::Immediate },
        0xaa => OpInfo { length: 1, cycles: 2, mode: AddressingMode::NoneAddressing },
        0xab => OpInfo { length: 2, cycles: 3, mode: AddressingMode::Immediate },
        0xac => OpInfo { length: 3, cycles: 4, mode: AddressingMode::Absolute },
        0xad => OpInfo { length: 3, cycles: 4, mode: AddressingMode::Absolute },
        0xae => OpInfo { length: 3, cycles: 4, mode: AddressingMode::Absolute },
        0xaf => OpInfo { length: 3, cycles: 4, mode: AddressingMode::Absolute },
        _ => OpInfo { length: 1, cycles: 1, mode: AddressingMode::NoneAddressing },
    }
}

pub open spec fn table_segb(code: u8) -> OpInfo {
    match code {
        0xb0 => OpInfo { length: 2, cycles: 2, mode: AddressingMode::NoneAddressing },
        0xb1 => OpInfo { length: 2, cycles: 5, mode: AddressingMode::Indirect_Y },
        0xb2 => OpInfo { length: 1, cycles: 2, mode: AddressingMode::NoneAddressing },
        0xb3 => OpInfo { length: 2, cycles: 5, mode: AddressingMode::Indirect_Y },
        0xb4 => OpInfo { length: 2, cycles: 4, mode: AddressingMode::ZeroPage_X },
        0xb5 => OpInfo { length: 2, cycles: 4, mode: AddressingMode::ZeroPage_X },
        0xb6 => OpInfo { length: 2, cycles: 4, mode: AddressingMode::ZeroPage_Y },
        0xb7 => OpInfo { length: 2, cycles: 4, mode: AddressingMode::ZeroPage_Y },
        0xb8 => OpInfo { length: 1, cycles: 2, mode: AddressingMode::NoneAddressing },
        0xb9 => OpInfo { length: 3, cycles: 4, mode: AddressingMode::Absolute_Y },
        0xba => OpInfo { length: 1, cycles: 2, mode: AddressingMode::NoneAddressing },
        0xbb => OpInfo { length: 3, cycles: 2, mode: AddressingMode::Absolute_Y },
        0xbc => OpInfo { length: 3, cycles: 4, mode: AddressingMode::Absolute_X },
        0xbd => OpInfo { length: 3, cycles: 4, mode: AddressingMode::Absolute_X },
        0xbe => OpInfo { length: 3, cycles: 4, mode: AddressingMode::Absolute_Y },
        0xbf => OpInfo { length: 3, cycles: 4, mode: AddressingMode::Absolute_Y },
        _ => OpInfo { length: 1, cycles: 1, mode: AddressingMode::NoneAddressing },
    }
}

pub open spec fn table_segc(code: u8) -> OpInfo {
    match code {
        0xc0 => OpInfo { length: 2, cycles: 2, mode: AddressingMode::Immediate },
        0xc1 => OpInfo { length: 2, cycles: 6, mode: AddressingMode::Indirect_X },
        0xc2 => OpInfo { length: 2, cycles: 2, mode: AddressingMode::Immediate },
        0xc3 => OpInfo { length: 2, cycles: 8, mode: AddressingMode::Indirect_X },
        0xc4 => OpInfo { length: 2, cycles: 3, mode: AddressingMode::ZeroPage },
        0xc5 => OpInfo { length: 2, cycles: 3, mode: AddressingMode::ZeroPage },
        0xc6 => OpInfo { length: 2, cycles: 5, mode: AddressingMode::ZeroPage },
        0xc7 => OpInfo { length: 2, cycles: 5, mode: AddressingMode::ZeroPage },
        0xc8 => OpInfo { length: 1, cycles: 2, mode: AddressingMode::NoneAddressing },
        0xc9 => OpInfo { length: 2, cycles: 2, mode: AddressingMode::Immediate },
        0xca => OpInfo { length: 1, cycles: 2, mode: AddressingMode::NoneAddressing },
        0xcb => OpInfo { length: 2, cycles: 2, mode: AddressingMode::Immediate },
        0xcc => OpInfo { length: 3, cycles: 4, mode: AddressingMode::Absolute },
        0xcd => OpInfo { length: 3, cycles: 4, mode: AddressingMode::Absolute },
        0xce => OpInfo { length: 3, cycles: 6, mode: AddressingMode::Absolute },
        0xcf => OpInfo { length: 3, cycles: 6, mode: AddressingMode::Absolute },
        _ => OpInfo { length: 1, cycles: 1, mode: AddressingMode::NoneAddressing },
    }
}

pub open spec fn table_segd(code: u8) -> OpInfo {
    match code {
        0xd0 => OpInfo { length: 2, cycles: 2, mode: AddressingMode::NoneAddressing },
        0xd1 => OpInfo { length: 2, cycles: 5, mode: AddressingMode::Indirect_Y },
        0xd2 => OpInfo { length: 1, cycles: 2, mode: AddressingMode::NoneAddressing },
        0xd3 => OpInfo { length: 2, cycles: 8, mode: AddressingMode::Indirect_Y },
        0xd4 => OpInfo { length: 2, cycles: 4, mode: AddressingMode::ZeroPage_X },
        0xd5 => OpInfo { length: 2, cycles: 4, mode: AddressingMode::ZeroPage_X },
        0xd6 => OpInfo { length: 2, cycles: 6, mode: AddressingMode::ZeroPage_X },
        0xd7 => OpInfo { length: 2, cycles: 6, mode: AddressingMode::ZeroPage_X },
        0xd8 => OpInfo { length: 1, cycles: 2, mode: AddressingMode::NoneAddressing },
        0xd9 => OpInfo { length: 3, cycles: 4, mode: AddressingMode::Absolute_Y },
        0xda => OpInfo { length: 1, cycles: 2, mode: AddressingMode::NoneAddressing },
        0xdb => OpInfo { length: 3, cycles: 7, mode: AddressingMode::Absolute_Y },
        0xdc => OpInfo { length: 3, cycles: 4, mode: AddressingMode::Absolute_X },
        0xdd => OpInfo { length: 3, cycles: 4, mode: AddressingMode::Absolute_X },
        0xde => OpInfo { length: 3, cycles: 7, mode: AddressingMode::Absolute_X },
        0xdf => OpInfo { length: 3, cycles: 7, mode: AddressingMode::Absolute_X },
        _ => OpInfo { length: 1, cycles: 1, mode: AddressingMode::NoneAddressing },
    }
}

pub open spec fn table_sege(code: u8) -> OpInfo {
    match code {
        0xe0 => OpInfo { length: 2, cycles: 2, mode: AddressingMode::Immediate },
        0xe1 => OpInfo { length: 2, cycles: 6, mode: AddressingMode::Indirect_X },
        0xe2 => OpInfo { length: 2, cycles: 2, mode: AddressingMode::Immediate },
        0xe3 => OpInfo { length: 2, cycles: 8, mode: AddressingMode::Indirect_X },
        0xe4 => OpInfo { length: 2, cycles: 3, mode: AddressingMode::ZeroPage },
        0xe5 => OpInfo { length: 2, cycles: 3, mode: AddressingMode::ZeroPage },
        0xe6 => OpInfo { length: 2, cycles: 5, mode: AddressingMode::ZeroPage },
        0xe7 => OpInfo { length: 2, cycles: 5, mode: AddressingMode::ZeroPage },
        0xe8 => OpInfo { length: 1, cycles: 2, mode: AddressingMode::NoneAddressing },
        0xe9 => OpInfo { length: 2, cycles: 2, mode: AddressingMode::Immediate },
        0xea => OpInfo { length: 1, cycles: 2, mode: AddressingMode::NoneAddressing },
        0xeb => OpInfo { length: 2, cycles: 2, mode: AddressingMode::Immediate },
        0xec => OpInfo { length: 3, cycles: 4, mode: AddressingMode::Absolute },
        0xed => OpInfo { length: 3, cycles: 4, mode: AddressingMode::Absolute },
        0xee => OpInfo { length: 3, cycles: 6, mode: AddressingMode::Absolute },
        0xef => OpInfo { length: 3, cycles: 6, mode: AddressingMode::Absolute },
        _ => OpInfo { length: 1, cycles: 1, mode: AddressingMode::NoneAddressing },
    }
}

pub open spec fn table_segf(code: u8) -> OpInfo {
    match code {
        0xf0 => OpInfo { length: 2, cycles: 2, mode: AddressingMode::NoneAddressing },
        0xf1 => OpInfo { length: 2, cycles: 5, mode: AddressingMode::Indirect_Y },
        0xf2 => OpInfo { length: 1, cycles: 2, mode: AddressingMode::NoneAddressing },
        0xf3 => OpInfo { length: 2, cycles: 8, mode: AddressingMode::Indirect_Y },
        0xf4 => OpInfo { length: 2, cycles: 4, mode: AddressingMode::ZeroPage_X },
        0xf5 => OpInfo { length: 2, cycles: 4, mode: AddressingMode::ZeroPage_X },
        0xf6 => OpInfo { length: 2, cycles: 6, mode: AddressingMode::ZeroPage_X },
        0xf7 => OpInfo { length: 2, cycles: 6, mode: AddressingMode::ZeroPage_X },
        0xf8 => OpInfo { length: 1, cycles: 2, mode: AddressingMode::NoneAddressing },
        0xf9 => OpInfo { length: 3, cycles: 4, mode: AddressingMode::Absolute_Y },
        0xfa => OpInfo { length: 1, cycles: 2, mode: AddressingMode::NoneAddressing },
        0xfb => OpInfo { length: 3, cycles: 7, mode: AddressingMode::Absolute_Y },
        0xfc => OpInfo { length: 3, cycles: 4, mode: AddressingMode::Absolute_X },
        0xfd => OpInfo { length: 3, cycles: 4, mode: AddressingMode::Absolute_X },
        0xfe => OpInfo { length: 3, cycles: 7, mode: AddressingMode::Absolute_X },
        0xff => OpInfo { length: 3, cycles: 7, mode: AddressingMode::Absolute_X },
        _ => OpInfo { length: 1, cycles: 1, mode: AddressingMode::NoneAddressing },
    }
}

/// Length, cycles and addressing mode of every opcode byte.
pub open spec fn table(code: u8) -> OpInfo {
    if code < 0x10 {
        table_seg0(code)
    } else if code < 0x20 {
        table_seg1(code)
    } else if code < 0x30 {
        table_seg2(code)
    } else if code < 0x40 {
        table_seg3(code)
    } else if code < 0x50 {
        table_seg4(code)
    } else if code < 0x60 {
        table_seg5(code)
    } else if code < 0x70 {
        table_seg6(code)
    } else if code < 0x80 {
        table_seg7(code)
    } else if code < 0x90 {
        table_seg8(code)
    } else if code < 0xa0 {
        table_seg9(code)
    } else if code < 0xb0 {
        table_sega(code)
    } else if code < 0xc0 {
        table_segb(code)
    } else if code < 0xd0 {
        table_segc(code)
    } else if code < 0xe0 {
        table_segd(code)
    } else if code < 0xf0 {
        table_sege(code)
    } else {
        table_segf(code)
    }
}

fn lookup_seg0(code: u8) -> (r: OpCode)
    requires
        0x00 <= code < 0x10,
    ensures
        r.opcode == code,
        r.length == table(code).length,
        r.cycles == table(code).cycles,
        r.mode == table(code).mode,
{
    match code {
        0x00 => OpCode::new(0x00, "BRK", 1, 7, AddressingMode::NoneAddressing),
        0x01 => OpCode::new(0x01, "ORA", 2, 6, AddressingMode::Indirect_X),
        0x02 => OpCode::new(0x02, "*NOP", 1, 2, AddressingMode::NoneAddressing),
        0x03 => OpCode::new(0x03, "*SLO", 2, 8, AddressingMode::Indirect_X),
        0x04 => OpCode::new(0x04, "*NOP", 2, 3, AddressingMode::ZeroPage),
        0x05 => OpCode::new(0x05, "ORA", 2, 3, AddressingMode::ZeroPage),
        0x06 => OpCode::new(0x06, "ASL", 2, 5, AddressingMode::ZeroPage),
        0x07 => OpCode::new(0x07, "*SLO", 2, 5, AddressingMode::ZeroPage),
        0x08 => OpCode::new(0x08, "PHP", 1, 3, AddressingMode::NoneAddressing),
        0x09 => OpCode::new(0x09, "ORA", 2, 2, AddressingMode::Immediate),
        0x0a => OpCode::new(0x0a, "ASL", 1, 2, AddressingMode::NoneAddressing),
        0x0b => OpCode::new(0x0b, "*ANC", 2, 2, AddressingMode::Immediate),
        0x0c => OpCode::new(0x0c, "*NOP", 3, 4, AddressingMode::Absolute),
        0x0d => OpCode::new(0x0d, "ORA", 3, 4, AddressingMode::Absolute),
        0x0e => OpCode::new(0x0e, "ASL", 3, 6, AddressingMode::Absolute),
        0x0f => OpCode::new(0x0f, "*SLO", 3, 6, AddressingMode::Absolute),
        _ => unreached(),
    }
}

fn lookup_seg1(code: u8) -> (r: OpCode)
    requires
        0x10 <= code < 0x20,
    ensures
        r.opcode == code,
        r.length == table(code).length,
        r.cycles == table(code).cycles,
        r.mode == table(code).mode,
{
    match code {
        0x10 => OpCode::new(0x10, "BPL", 2, 2, AddressingMode::NoneAddressing),
        0x11 => OpCode::new(0x11, "ORA", 2, 5, AddressingMode::Indirect_Y),
        0x12 => OpCode::new(0x12, "*NOP", 1, 2, AddressingMode::NoneAddressing),
        0x13 => OpCode::new(0x13, "*SLO", 2, 8, AddressingMode::Indirect_Y),
        0x14 => OpCode::new(0x14, "*NOP", 2, 4, AddressingMode::ZeroPage_X),
        0x15 => OpCode::new(0x15, "ORA", 2, 4, AddressingMode::ZeroPage_X),
        0x16 => OpCode::new(0x16, "ASL", 2, 6, AddressingMode::ZeroPage_X),
        0x17 => OpCode::new(0x17, "*SLO", 2, 6, AddressingMode::ZeroPage_X),
        0x18 => OpCode::new(0x18, "CLC", 1, 2, AddressingMode::NoneAddressing),
        0x19 => OpCode::new(0x19, "ORA", 3, 4, AddressingMode::Absolute_Y),
        0x1a => OpCode::new(0x1a, "*NOP", 1, 2, AddressingMode::NoneAddressing),
        0x1b => OpCode::new(0x1b, "*SLO", 3, 7, AddressingMode::Absolute_Y),
        0x1c => OpCode::new(0x1c, "*NOP", 3, 4, AddressingMode::Absolute_X),
        0x1d => OpCode::new(0x1d, "ORA", 3, 4, AddressingMode::Absolute_X),
        0x1e => OpCode::new(0x1e, "ASL", 3, 7, AddressingMode::Absolute_X),
        0x1f => OpCode::new(0x1f, "*SLO", 3, 7, AddressingMode::Absolute_X),
        _ => unreached(),
    }
}

fn lookup_seg2(code: u8) -> (r: OpCode)
    requires
        0x20 <= code < 0x30,
    ensures
        r.opcode == code,
        r.length == table(code).length,
        r.cycles == table(code).cycles,
        r.mode == table(code).mode,
{
    match code {
        0x20 => OpCode::new(0x20, "JSR", 3, 6, AddressingMode::NoneAddressing),
        0x21 => OpCode::new(0x21, "AND", 2, 6, AddressingMode::Indirect_X),
        0x22 => OpCode::new(0x22, "*NOP", 1, 2, AddressingMode::NoneAddressing),
        0x23 => OpCode::new(0x23, "*RLA", 2, 8, AddressingMode::Indirect_X),
        0x24 => OpCode::new(0x24, "BIT", 2, 3, AddressingMode::ZeroPage),
        0x25 => OpCode::new(0x25, "AND", 2, 3, AddressingMode::ZeroPage),
        0x26 => OpCode::new(0x26, "ROL", 2, 5, AddressingMode::ZeroPage),
        0x27 => OpCode::new(0x27, "*RLA", 2, 5, AddressingMode::ZeroPage),
        0x28 => OpCode::new(0x28, "PLP", 1, 4, AddressingMode::NoneAddressing),
        0x29 => OpCode::new(0x29, "AND", 2, 2, AddressingMode::Immediate),
        0x2a => OpCode::new(0x2a, "ROL", 1, 2, AddressingMode::NoneAddressing),
        0x2b => OpCode::new(0x2b, "*ANC", 2, 2, AddressingMode::Immediate),
        0x2c => OpCode::new(0x2c, "BIT", 3, 4, AddressingMode::Absolute),
        0x2d => OpCode::new(0x2d, "AND", 3, 4, AddressingMode::Absolute),
        0x2e => OpCode::new(0x2e, "ROL", 3, 6, AddressingMode::Absolute),
        0x2f => OpCode::new(0x2f, "*RLA", 3, 6, AddressingMode::Absolute),
        _ => unreached(),
    }
}

fn lookup_seg3(code: u8) -> (r: OpCode)
    requires
        0x30 <= code < 0x40,
    ensures
        r.opcode == code,
        r.length == table(code).length,
        r.cycles == table(code).cycles,
        r.mode == table(code).mode,
{
    match code {
        0x30 => OpCode::new(0x30, "BMI", 2, 2, AddressingMode::NoneAddressing),
        0x31 => OpCode::new(0x31, "AND", 2, 5, AddressingMode::Indirect_Y),
        0x32 => OpCode::new(0x32, "*NOP", 1, 2, AddressingMode::NoneAddressing),
        0x33 => OpCode::new(0x33, "*RLA", 2, 8, AddressingMode::Indirect_Y),
        0x34 => OpCode::new(0x34, "*NOP", 2, 4, AddressingMode::ZeroPage_X),
        0x35 => OpCode::new(0x35, "AND", 2, 4, AddressingMode::ZeroPage_X),
        0x36 => OpCode::new(0x36, "ROL", 2, 6, AddressingMode::ZeroPage_X),
        0x37 => OpCode::new(0x37, "*RLA", 2, 6, AddressingMode::ZeroPage_X),
        0x38 => OpCode::new(0x38, "SEC", 1, 2, AddressingMode::NoneAddressing),
        0x39 => OpCode::new(0x39, "AND", 3, 4, AddressingMode::Absolute_Y),
        0x3a => OpCode::new(0x3a, "*NOP", 1, 2, AddressingMode::NoneAddressing),
        0x3b => OpCode::new(0x3b, "*RLA", 3, 7, AddressingMode::Absolute_Y),
        0x3c => OpCode::new(0x3c, "*NOP", 3, 4, AddressingMode::Absolute_X),
        0x3d => OpCode::new(0x3d, "AND", 3, 4, AddressingMode::Absolute_X),
        0x3e => OpCode::new(0x3e, "ROL", 3, 7, AddressingMode::Absolute_X),
        0x3f => OpCode::new(0x3f, "*RLA", 3, 7, AddressingMode::Absolute_X),
        _ => unreached(),
    }
}

fn lookup_seg4(code: u8) -> (r: OpCode)
    requires
        0x40 <= code < 0x50,
    ensures
        r.opcode == code,
        r.length == table(code).length,
        r.cycles == table(code).cycles,
        r.mode == table(code).mode,
{
    match code {
        0x40 => OpCode::new(0x40, "RTI", 1, 6, AddressingMode::NoneAddressing),
        0x41 => OpCode::new(0x41, "EOR", 2, 6, AddressingMode::Indirect_X),
        0x42 => OpCode::new(0x42, "*NOP", 1, 2, AddressingMode::NoneAddressing),
        0x43 => OpCode::new(0x43, "*SRE", 2, 8, AddressingMode::Indirect_X),
        0x44 => OpCode::new(0x44, "*NOP", 2, 3, AddressingMode::ZeroPage),
        0x45 => OpCode::new(0x45, "EOR", 2, 3, AddressingMode::ZeroPage),
        0x46 => OpCode::new(0x46, "LSR", 2, 5, AddressingMode::ZeroPage),
        0x47 => OpCode::new(0x47, "*SRE", 2, 5, AddressingMode::ZeroPage),
        0x48 => OpCode::new(0x48, "PHA", 1, 3, AddressingMode::NoneAddressing),
        0x49 => OpCode::new(0x49, "EOR", 2, 2, AddressingMode::Immediate),
        0x4a => OpCode::new(0x4a, "LSR", 1, 2, AddressingMode::NoneAddressing),
        0x4b => OpCode::new(0x4b, "*ALR", 2, 2, AddressingMode::Immediate),
        0x4c => OpCode::new(0x4c, "JMP", 3, 3, AddressingMode::NoneAddressing),
        0x4d => OpCode::new(0x4d, "EOR", 3, 4, AddressingMode::Absolute),
        0x4e => OpCode::new(0x4e, "LSR", 3, 6, AddressingMode::Absolute),
        0x4f => OpCode::new(0x4f, "*SRE", 3, 6, AddressingMode::Absolute),
        _ => unreached(),
    }
}

fn lookup_seg5(code: u8) -> (r: OpCode)
    requires
        0x50 <= code < 0x60,
    ensures
        r.opcode == code,
        r.length == table(code).length,
        r.cycles == table(code).cycles,
        r.mode == table(code).mode,
{
    match code {
        0x50 => OpCode::new(0x50, "BVC", 2, 2, AddressingMode::NoneAddressing),
        0x51 => OpCode::new(0x51, "EOR", 2, 5, AddressingMode::Indirect_Y),
        0x52 => OpCode::new(0x52, "*NOP", 1, 2, AddressingMode::NoneAddressing),
        0x53 => OpCode::new(0x53, "*SRE", 2, 8, AddressingMode::Indirect_Y),
        0x54 => OpCode::new(0x54, "*NOP", 2, 4, AddressingMode::ZeroPage_X),
        0x55 => OpCode::new(0x55, "EOR", 2, 4, AddressingMode::ZeroPage_X),
        0x56 => OpCode::new(0x56, "LSR", 2, 6, AddressingMode::ZeroPage_X),
        0x57 => OpCode::new(0x57, "*SRE", 2, 6, AddressingMode::ZeroPage_X),
        0x58 => OpCode::new(0x58, "CLI", 1, 2, AddressingMode::NoneAddressing),
        0x59 => OpCode::new(0x59, "EOR", 3, 4, AddressingMode::Absolute_Y),
        0x5a => OpCode::new(0x5a, "*NOP", 1, 2, AddressingMode::NoneAddressing),
        0x5b => OpCode::new(0x5b, "*SRE", 3, 7, AddressingMode::Absolute_Y),
        0x5c => OpCode::new(0x5c, "*NOP", 3, 4, AddressingMode::Absolute_X),
        0x5d => OpCode::new(0x5d, "EOR", 3, 4, AddressingMode::Absolute_X),
        0x5e => OpCode::new(0x5e, "LSR", 3, 7, AddressingMode::Absolute_X),
        0x5f => OpCode::new(0x5f, "*SRE", 3, 7, AddressingMode::Absolute_X),
        _ => unreached(),
    }
}

fn lookup_seg6(code: u8) -> (r: OpCode)
    requires
        0x60 <= code < 0x70,
    ensures
        r.opcode == code,
        r.length == table(code).length,
        r.cycles == table(code).cycles,
        r.mode == table(code).mode,
{
    match code {
        0x60 => OpCode::new(0x60, "RTS", 1, 6, AddressingMode::NoneAddressing),
        0x61 => OpCode::new(0x61, "ADC", 2, 6, AddressingMode::Indirect_X),
        0x62 => OpCode::new(0x62, "*NOP", 1, 2, AddressingMode::NoneAddressing),
        0x63 => OpCode::new(0x63, "*RRA", 2, 8, AddressingMode::Indirect_X),
        0x64 => OpCode::new(0x64, "*NOP", 2, 3, AddressingMode::ZeroPage),
        0x65 => OpCode::new(0x65, "ADC", 2, 3, AddressingMode::ZeroPage),
        0x66 => OpCode::new(0x66, "ROR", 2, 5, AddressingMode::ZeroPage),
        0x67 => OpCode::new(0x67, "*RRA", 2, 5, AddressingMode::ZeroPage),
        0x68 => OpCode::new(0x68, "PLA", 1, 4, AddressingMode::NoneAddressing),
        0x69 => OpCode::new(0x69, "ADC", 2, 2, AddressingMode::Immediate),
        0x6a => OpCode::new(0x6a, "ROR", 1, 2, AddressingMode::NoneAddressing),
        0x6b => OpCode::new(0x6b, "*ARR", 2, 2, AddressingMode::Immediate),
        0x6c => OpCode::new(0x6c, "JMP", 3, 5, AddressingMode::NoneAddressing),
        0x6d => OpCode::new(0x6d, "ADC", 3, 4, AddressingMode::Absolute),
        0x6e => OpCode::new(0x6e, "ROR", 3, 6, AddressingMode::Absolute),
        0x6f => OpCode::new(0x6f, "*RRA", 3, 6, AddressingMode::Absolute),
        _ => unreached(),
    }
}

fn lookup_seg7(code: u8) -> (r: OpCode)
    requires
        0x70 <= code < 0x80,
    ensures
        r.opcode == code,
        r.length == table(code).length,
        r.cycles == table(code).cycles,
        r.mode == table(code).mode,
{
    match code {
        0x70 => OpCode::new(0x70, "BVS", 2, 2, AddressingMode::NoneAddressing),
        0x71 => OpCode::new(0x71, "ADC", 2, 5, AddressingMode::Indirect_Y),
        0x72 => OpCode::new(0x72, "*NOP", 1, 2, AddressingMode::NoneAddressing),
        0x73 => OpCode::new(0x73, "*RRA", 2, 8, AddressingMode::Indirect_Y),
        0x74 => OpCode::new(0x74, "*NOP", 2, 4, AddressingMode::ZeroPage_X),
        0x75 => OpCode::new(0x75, "ADC", 2, 4, AddressingMode::ZeroPage_X),
        0x76 => OpCode::new(0x76, "ROR", 2, 6, AddressingMode::ZeroPage_X),
        0x77 => OpCode::new(0x77, "*RRA", 2, 6, AddressingMode::ZeroPage_X),
        0x78 => OpCode::new(0x78, "SEI", 1, 2, AddressingMode::NoneAddressing),
        0x79 => OpCode::new(0x79, "ADC", 3, 4, AddressingMode::Absolute_Y),
        0x7a => OpCode::new(0x7a, "*NOP", 1, 2, AddressingMode::NoneAddressing),
        0x7b => OpCode::new(0x7b, "*RRA", 3, 7, AddressingMode::Absolute_Y),
        0x7c => OpCode::new(0x7c, "*NOP", 3, 4, AddressingMode::Absolute_X),
        0x7d => OpCode::new(0x7d, "ADC", 3, 4, AddressingMode::Absolute_X),
        0x7e => OpCode::new(0x7e, "ROR", 3, 7, AddressingMode::Absolute_X),
        0x7f => OpCode::new(0x7f, "*RRA", 3, 7, AddressingMode::Absolute_X),
        _ => unreached(),
    }
}

fn lookup_seg8(code: u8) -> (r: OpCode)
    requires
        0x80 <= code < 0x90,
    ensures
        r.opcode == code,
        r.length == table(code).length,
        r.cycles == table(code).cycles,
        r.mode == table(code).mode,
{
    match code {
        0x80 => OpCode::new(0x80, "*NOP", 2, 2, AddressingMode::Immediate),
        0x81 => OpCode::new(0x81, "STA", 2, 6, AddressingMode::Indirect_X),
        0x82 => OpCode::new(0x82, "*NOP", 2, 2, AddressingMode::Immediate),
        0x83 => OpCode::new(0x83, "*SAX", 2, 6, AddressingMode::Indirect_X),
        0x84 => OpCode::new(0x84, "STY", 2, 3, AddressingMode::ZeroPage),
        0x85 => OpCode::new(0x85, "STA", 2, 3, AddressingMode::ZeroPage),
        0x86 => OpCode::new(0x86, "STX", 2, 3, AddressingMode::ZeroPage),
        0x87 => OpCode::new(0x87, "*SAX", 2, 3, AddressingMode::ZeroPage),
        0x88 => OpCode::new(0x88, "DEY", 1, 2, AddressingMode::NoneAddressing),
        0x89 => OpCode::new(0x89, "*NOP", 2, 2, AddressingMode::Immediate),
        0x8a => OpCode::new(0x8a, "TXA", 1, 2, AddressingMode::NoneAddressing),
        0x8b => OpCode::new(0x8b, "*XAA", 2, 3, AddressingMode::Immediate),
        0x8c => OpCode::new(0x8c, "STY", 3, 4, AddressingMode::Absolute),
        0x8d => OpCode::new(0x8d, "STA", 3, 4, AddressingMode::Absolute),
        0x8e => OpCode::new(0x8e, "STX", 3, 4, AddressingMode::Absolute),
        0x8f => OpCode::new(0x8f, "*SAX", 3, 4, AddressingMode::Absolute),
        _ => unreached(),
    }
}

fn lookup_seg9(code: u8) -> (r: OpCode)
    requires
        0x90 <= code < 0xa0,
    ensures
        r.opcode == code,
        r.length == table(code).length,
        r.cycles == table(code).cycles,
        r.mode == table(code).mode,
{
    match code {
        0x90 => OpCode::new(0x90, "BCC", 2, 2, AddressingMode::NoneAddressing),
        0x91 => OpCode::new(0x91, "STA", 2, 6, AddressingMode::Indirect_Y),
        0x92 => OpCode::new(0x92, "*NOP", 1, 2, AddressingMode::NoneAddressing),
        0x93 => OpCode::new(0x93, "*AHX", 2, 8, AddressingMode::Indirect_Y),
        0x94 => OpCode::new(0x94, "STY", 2, 4, AddressingMode::ZeroPage_X),
        0x95 => OpCode::new(0x95, "STA", 2, 4, AddressingMode::ZeroPage_X),
        0x96 => OpCode::new(0x96, "STX", 2, 4, AddressingMode::ZeroPage_Y),
        0x97 => OpCode::new(0x97, "*SAX", 2, 4, AddressingMode::ZeroPage_Y),
        0x98 => OpCode::new(0x98, "TYA", 1, 2, AddressingMode::NoneAddressing),
        0x99 => OpCode::new(0x99, "STA", 3, 5, AddressingMode::Absolute_Y),
        0x9a => OpCode::new(0x9a, "TXS", 1, 2, AddressingMode::NoneAddressing),
        0x9b => OpCode::new(0x9b, "*TAS", 3, 2, AddressingMode::Absolute_Y),
        0x9c => OpCode::new(0x9c, "*SHY", 3, 4, AddressingMode::Absolute_X),
        0x9d => OpCode::new(0x9d, "STA", 3, 5, AddressingMode::Absolute_X),
        0x9e => OpCode::new(0x9e, "*SHX", 3, 4, AddressingMode::Absolute_Y),
        0x9f => OpCode::new(0x9f, "*AHX", 3, 4, AddressingMode::Absolute_Y),
        _ => unreached(),
    }
}

fn lookup_sega(code: u8) -> (r: OpCode)
    requires
        0xa0 <= code < 0xb0,
    ensures
        r.opcode == code,
        r.length == table(code).length,
        r.cycles == table(code).cycles,
        r.mode == table(code).mode,
{
    match code {
        0xa0 => OpCode::new(0xa0, "LDY", 2, 2, AddressingMode::Immediate),
        0xa1 => OpCode::new(0xa1, "LDA", 2, 6, AddressingMode::Indirect_X),
        0xa2 => OpCode::new(0xa2, "LDX", 2, 2, AddressingMode::Immediate),
        0xa3 => OpCode::new(0xa3, "*LAX", 2, 6, AddressingMode::Indirect_X),
        0xa4 => OpCode::new(0xa4, "LDY", 2, 3, AddressingMode::ZeroPage),
        0xa5 => OpCode::new(0xa5, "LDA", 2, 3, AddressingMode::ZeroPage),
        0xa6 => OpCode::new(0xa6, "LDX", 2, 3, AddressingMode::ZeroPage),
        0xa7 => OpCode::new(0xa7, "*LAX", 2, 3, AddressingMode::ZeroPage),
        0xa8 => OpCode::new(0xa8, "TAY", 1, 2, AddressingMode::NoneAddressing),
        0xa9 => OpCode::new(0xa9, "LDA", 2, 2, AddressingMode::Immediate),
        0xaa => OpCode::new(0xaa, "TAX", 1, 2, AddressingMode::NoneAddressing),
        0xab => OpCode::new(0xab, "*LXA", 2, 3, AddressingMode::Immediate),
        0xac => OpCode::new(0xac, "LDY", 3, 4, AddressingMode::Absolute),
        0xad => OpCode::new(0xad, "LDA", 3, 4, AddressingMode::Absolute),
        0xae => OpCode::new(0xae, "LDX", 3, 4, AddressingMode::Absolute),
        0xaf => OpCode::new(0xaf, "*LAX", 3, 4, AddressingMode::Absolute),
        _ => unreached(),
    }
}

fn lookup_segb(code: u8) -> (r: OpCode)
    requires
        0xb0 <= code < 0xc0,
    ensures
        r.opcode == code,
        r.length == table(code).length,
        r.cycles == table(code).cycles,
        r.mode == table(code).mode,
{
    match code {
        0xb0 => OpCode::new(0xb0, "BCS", 2, 2, AddressingMode::NoneAddressing),
        0xb1 => OpCode::new(0xb1, "LDA", 2, 5, AddressingMode::Indirect_Y),
        0xb2 => OpCode::new(0xb2, "*NOP", 1, 2, AddressingMode::NoneAddressing),
        0xb3 => OpCode::new(0xb3, "*LAX", 2, 5, AddressingMode::Indirect_Y),
        0xb4 => OpCode::new(0xb4, "LDY", 2, 4, AddressingMode::ZeroPage_X),
        0xb5 => OpCode::new(0xb5, "LDA", 2, 4, AddressingMode::ZeroPage_X),
        0xb6 => OpCode::new(0xb6, "LDX", 2, 4, AddressingMode::ZeroPage_Y),
        0xb7 => OpCode::new(0xb7, "*LAX", 2, 4, AddressingMode::ZeroPage_Y),
        0xb8 => OpCode::new(0xb8, "CLV", 1, 2, AddressingMode::NoneAddressing),
        0xb9 => OpCode::new(0xb9, "LDA", 3, 4, AddressingMode::Absolute_Y),
        0xba => OpCode::new(0xba, "TSX", 1, 2, AddressingMode::NoneAddressing),
        0xbb => OpCode::new(0xbb, "*LAS", 3, 2, AddressingMode::Absolute_Y),
        0xbc => OpCode::new(0xbc, "LDY", 3, 4, AddressingMode::Absolute_X),
        0xbd => OpCode::new(0xbd, "LDA", 3, 4, AddressingMode::Absolute_X),
        0xbe => OpCode::new(0xbe, "LDX", 3, 4, AddressingMode::Absolute_Y),
        0xbf => OpCode::new(0xbf, "*LAX", 3, 4, AddressingMode::Absolute_Y),
        _ => unreached(),
    }
}

fn lookup_segc(code: u8) -> (r: OpCode)
    requires
        0xc0 <= code < 0xd0,
    ensures
        r.opcode == code,
        r.length == table(code).length,
        r.cycles == table(code).cycles,
        r.mode == table(code).mode,
{
    match code {
        0xc0 => OpCode::new(0xc0, "CPY", 2, 2, AddressingMode::Immediate),
        0xc1 => OpCode::new(0xc1, "CMP", 2, 6, AddressingMode::Indirect_X),
        0xc2 => OpCode::new(0xc2, "*NOP", 2, 2, AddressingMode::Immediate),
        0xc3 => OpCode::new(0xc3, "*DCP", 2, 8, AddressingMode::Indirect_X),
        0xc4 => OpCode::new(0xc4, "CPY", 2, 3, AddressingMode::ZeroPage),
        0xc5 => OpCode::new(0xc5, "CMP", 2, 3, AddressingMode::ZeroPage),
        0xc6 => OpCode::new(0xc6, "DEC", 2, 5, AddressingMode::ZeroPage),
        0xc7 => OpCode::new(0xc7, "*DCP", 2, 5, AddressingMode::ZeroPage),
        0xc8 => OpCode::new(0xc8, "INY", 1, 2, AddressingMode::NoneAddressing),
        0xc9 => OpCode::new(0xc9, "CMP", 2, 2, AddressingMode::Immediate),
        0xca => OpCode::new(0xca, "DEX", 1, 2, AddressingMode::NoneAddressing),
        0xcb => OpCode::new(0xcb, "*AXS", 2, 2, AddressingMode::Immediate),
        0xcc => OpCode::new(0xcc, "CPY", 3, 4, AddressingMode::Absolute),
        0xcd => OpCode::new(0xcd, "CMP", 3, 4, AddressingMode::Absolute),
        0xce => OpCode::new(0xce, "DEC", 3, 6, AddressingMode::Absolute),
        0xcf => OpCode::new(0xcf, "*DCP", 3, 6, AddressingMode::Absolute),
        _ => unreached(),
    }
}

fn lookup_segd(code: u8) -> (r: OpCode)
    requires
        0xd0 <= code < 0xe0,
    ensures
        r.opcode == code,
        r.length == table(code).length,
        r.cycles == table(code).cycles,
        r.mode == table(code).mode,
{
    match code {
        0xd0 => OpCode::new(0xd0, "BNE", 2, 2, AddressingMode::NoneAddressing),
        0xd1 => OpCode::new(0xd1, "CMP", 2, 5, AddressingMode::Indirect_Y),
        0xd2 => OpCode::new(0xd2, "*NOP", 1, 2, AddressingMode::NoneAddressing),
        0xd3 => OpCode::new(0xd3, "*DCP", 2, 8, AddressingMode::Indirect_Y),
        0xd4 => OpCode::new(0xd4, "*NOP", 2, 4, AddressingMode::ZeroPage_X),
        0xd5 => OpCode::new(0xd5, "CMP", 2, 4, AddressingMode::ZeroPage_X),
        0xd6 => OpCode::new(0xd6, "DEC", 2, 6, AddressingMode::ZeroPage_X),
        0xd7 => OpCode::new(0xd7, "*DCP", 2, 6, AddressingMode::ZeroPage_X),
        0xd8 => OpCode::new(0xd8, "CLD", 1, 2, AddressingMode::NoneAddressing),
        0xd9 => OpCode::new(0xd9, "CMP", 3, 4, AddressingMode::Absolute_Y),
        0xda => OpCode::new(0xda, "*NOP", 1, 2, AddressingMode::NoneAddressing),
        0xdb => OpCode::new(0xdb, "*DCP", 3, 7, AddressingMode::Absolute_Y),
        0xdc => OpCode::new(0xdc, "*NOP", 3, 4, AddressingMode::Absolute_X),
        0xdd => OpCode::new(0xdd, "CMP", 3, 4, AddressingMode::Absolute_X),
        0xde => OpCode::new(0xde, "DEC", 3, 7, AddressingMode::Absolute_X),
        0xdf => OpCode::new(0xdf, "*DCP", 3, 7, AddressingMode::Absolute_X),
        _ => unreached(),
    }
}

fn lookup_sege(code: u8) -> (r: OpCode)
    requires
        0xe0 <= code < 0xf0,
    ensures
        r.opcode == code,
        r.length == table(code).length,
        r.cycles == table(code).cycles,
        r.mode == table(code).mode,
{
    match code {
        0xe0 => OpCode::new(0xe0, "CPX", 2, 2, AddressingMode::Immediate),
        0xe1 => OpCode::new(0xe1, "SBC", 2, 6, AddressingMode::Indirect_X),
        0xe2 => OpCode::new(0xe2, "*NOP", 2, 2, AddressingMode::Immediate),
        0xe3 => OpCode::new(0xe3, "*ISB", 2, 8, AddressingMode::Indirect_X),
        0xe4 => OpCode::new(0xe4, "CPX", 2, 3, AddressingMode::ZeroPage),
        0xe5 => OpCode::new(0xe5, "SBC", 2, 3, AddressingMode::ZeroPage),
        0xe6 => OpCode::new(0xe6, "INC", 2, 5, AddressingMode::ZeroPage),
        0xe7 => OpCode::new(0xe7, "*ISB", 2, 5, AddressingMode::ZeroPage),
        0xe8 => OpCode::new(0xe8, "INX", 1, 2, AddressingMode::NoneAddressing),
        0xe9 => OpCode::new(0xe9, "SBC", 2, 2, AddressingMode::Immediate),
        0xea => OpCode::new(0xea, "NOP", 1, 2, AddressingMode::NoneAddressing),
        0xeb => OpCode::new(0xeb, "*SBC", 2, 2, AddressingMode::Immediate),
        0xec => OpCode::new(0xec, "CPX", 3, 4, AddressingMode::Absolute),
        0xed => OpCode::new(0xed, "SBC", 3, 4, AddressingMode::Absolute),
        0xee => OpCode::new(0xee, "INC", 3, 6, AddressingMode::Absolute),
        0xef => OpCode::new(0xef, "*ISB", 3, 6, AddressingMode::Absolute),
        _ => unreached(),
    }
}

fn lookup_segf(code: u8) -> (r: OpCode)
    requires
        0xf0 <= code < 0x100,
    ensures
        r.opcode == code,
        r.length == table(code).length,
        r.cycles == table(code).cycles,
        r.mode == table(code).mode,
{
    match code {
        0xf0 => OpCode::new(0xf0, "BEQ", 2, 2, AddressingMode::NoneAddressing),
        0xf1 => OpCode::new(0xf1, "SBC", 2, 5, AddressingMode::Indirect_Y),
        0xf2 => OpCode::new(0xf2, "*NOP", 1, 2, AddressingMode::NoneAddressing),
        0xf3 => OpCode::new(0xf3, "*ISB", 2, 8, AddressingMode::Indirect_Y),
        0xf4 => OpCode::new(0xf4, "*NOP", 2, 4, AddressingMode::ZeroPage_X),
        0xf5 => OpCode::new(0xf5, "SBC", 2, 4, AddressingMode::ZeroPage_X),
        0xf6 => OpCode::new(0xf6, "INC", 2, 6, AddressingMode::ZeroPage_X),
        0xf7 => OpCode::new(0xf7, "*ISB", 2, 6, AddressingMode::ZeroPage_X),
        0xf8 => OpCode::new(0xf8, "SED", 1, 2, AddressingMode::NoneAddressing),
        0xf9 => OpCode::new(0xf9, "SBC", 3, 4, AddressingMode::Absolute_Y),
        0xfa => OpCode::new(0xfa, "*NOP", 1, 2, AddressingMode::NoneAddressing),
        0xfb => OpCode::new(0xfb, "*ISB", 3, 7, AddressingMode::Absolute_Y),
        0xfc => OpCode::new(0xfc, "*NOP", 3, 4, AddressingMode::Absolute_X),
        0xfd => OpCode::new(0xfd, "SBC", 3, 4, AddressingMode::Absolute_X),
        0xfe => OpCode::new(0xfe, "INC", 3, 7, AddressingMode::Absolute_X),
        0xff => OpCode::new(0xff, "*ISB", 3, 7, AddressingMode::Absolute_X),
        _ => unreached(),
    }
}

/// The catalog entry for an opcode byte; every byte has one.
pub fn lookup(code: u8) -> (r: OpCode)
    ensures
        r.opcode == code,
        r.length == table(code).length,
        r.cycles == table(code).cycles,
        r.mode == table(code).mode,
{
    if code < 0x10 {
        lookup_seg0(code)
    } else if code < 0x20 {
        lookup_seg1(code)
    } else if code < 0x30 {
        lookup_seg2(code)
    } else if code < 0x40 {
        lookup_seg3(code)
    } else if code < 0x50 {
        lookup_seg4(code)
    } else if code < 0x60 {
        lookup_seg5(code)
    } else if code < 0x70 {
        lookup_seg6(code)
    } else if code < 0x80 {
        lookup_seg7(code)
    } else if code < 0x90 {
        lookup_seg8(code)
    } else if code < 0xa0 {
        lookup_seg9(code)
    } else if code < 0xb0 {
        lookup_sega(code)
    } else if code < 0xc0 {
        lookup_segb(code)
    } else if code < 0xd0 {
        lookup_segc(code)
    } else if code < 0xe0 {
        lookup_segd(code)
    } else if code < 0xf0 {
        lookup_sege(code)
    } else {
        lookup_segf(code)
    }
}

} // verus!
