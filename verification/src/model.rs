//! Mathematical model of the machine state.
//!
//! `CpuModel` is the value of the six architectural registers together with
//! the bus contents; `BusModel` is the work RAM and the cartridge. All
//! contracts in this crate are stated over these models: `mem_get` and
//! `mem_set` give the exact meaning of a byte access at any of the 65536
//! CPU-side addresses, including RAM mirroring, the stubbed peripheral
//! regions, and the 16 KiB program-ROM mirror.

use vstd::prelude::*;
use crate::cartridge::RomModel;

verus! {

// Status register (P) layout, most significant bit first:
// Negative, Overflow, B2, B, Decimal (unused), Interrupt-Disable, Zero, Carry.
pub const CARRY: u8 = 0x01;
pub const ZERO: u8 = 0x02;
pub const INTERRUPT_DISABLE: u8 = 0x04;
pub const DECIMAL_MODE: u8 = 0x08;
pub const BREAK: u8 = 0x10;
pub const BREAK2: u8 = 0x20;
pub const OVERFLOW: u8 = 0x40;
pub const NEGATIVE: u8 = 0x80;

/// Status byte after a reset: Interrupt-Disable and B2 set, all else clear.
pub const STATUS_RESET: u8 = 0x24;

/// Low byte of the stack pointer after power-up.
pub const STACK_RESET: u8 = 0xfd;

/// Page in which the stack lives.
pub const STACK: u16 = 0x0100;

/// Address of the reset vector.
pub const RESET_VECTOR: u16 = 0xFFFC;

/// The bus as the processor sees it: 2 KiB of work RAM plus the cartridge.
pub ghost struct BusModel {
    pub vram: Seq<u8>,
    pub rom: RomModel,
}

/// The six architectural registers together with the bus.
pub ghost struct CpuModel {
    pub a: u8,
    pub x: u8,
    pub y: u8,
    pub sp: u8,
    pub pc: u16,
    pub status: u8,
    pub bus: BusModel,
}

/// Well-formedness of the bus: the RAM has its fixed size and the program
/// ROM is one or two 16 KiB banks (all that mapper 0 allows).
pub open spec fn bus_wf(b: BusModel) -> bool {
    &&& b.vram.len() == 2048
    &&& (b.rom.prg.len() == 0x4000 || b.rom.prg.len() == 0x8000)
}

/// 8-bit wrapping addition.
pub open spec fn wadd8(a: u8, b: u8) -> u8 {
    vstd::wrapping::u8_specs::wrapping_add(a, b)
}

/// 8-bit wrapping subtraction.
pub open spec fn wsub8(a: u8, b: u8) -> u8 {
    vstd::wrapping::u8_specs::wrapping_sub(a, b)
}

/// 16-bit wrapping addition; effective-address arithmetic wraps modulo 65536.
pub open spec fn wadd16(a: u16, b: u16) -> u16 {
    vstd::wrapping::u16_specs::wrapping_add(a, b)
}

/// 16-bit wrapping subtraction.
pub open spec fn wsub16(a: u16, b: u16) -> u16 {
    vstd::wrapping::u16_specs::wrapping_sub(a, b)
}

/// The work-RAM slot that an address in $0000-$1FFF reaches: the three
/// mirrors alias onto the low 11 bits.
pub open spec fn vram_slot(addr: u16) -> int {
    (addr & 0x07FF) as int
}

/// The program-ROM byte visible at an address in $8000-$FFFF. A single
/// 16 KiB bank is mirrored into both halves of the range.
pub open spec fn prg_at(prg: Seq<u8>, addr: u16) -> u8 {
    if prg.len() == 0x4000 && addr - 0x8000 >= 0x4000 {
        prg[addr - 0x8000 - 0x4000]
    } else {
        prg[addr - 0x8000]
    }
}

/// The byte a read returns, for every address: work RAM (with mirrors) below
/// $2000, stubbed peripheral and cartridge-SRAM regions reading as zero up to
/// $8000, and program ROM above.
pub open spec fn mem_get(b: BusModel, addr: u16) -> u8 {
    if addr < 0x2000 {
        b.vram[vram_slot(addr)]
    } else if addr < 0x8000 {
        0
    } else {
        prg_at(b.rom.prg, addr)
    }
}

/// Whether a write at this address is accepted. Writes into the program-ROM
/// range are fatal; everything below it is accepted (stores into RAM, or is
/// dropped by a stubbed region).
pub open spec fn can_write(addr: u16) -> bool {
    addr < 0x8000
}

/// The bus after an accepted write: RAM stores through the mirror mask, the
/// stubbed regions drop the byte.
pub open spec fn mem_set(b: BusModel, addr: u16, data: u8) -> BusModel {
    if addr < 0x2000 {
        BusModel { vram: b.vram.update(vram_slot(addr), data), ..b }
    } else {
        b
    }
}

/// Little-endian pairing: `hi` is the high byte of the result.
pub open spec fn combine16(lo: u8, hi: u8) -> u16 {
    ((hi as u16) << 8) | (lo as u16)
}

/// The low byte of a word.
pub open spec fn lo8(w: u16) -> u8 {
    (w & 0xff) as u8
}

/// The high byte of a word.
pub open spec fn hi8(w: u16) -> u8 {
    (w >> 8) as u8
}

/// A 16-bit read: two consecutive byte reads, low then high.
pub open spec fn mem_get16(b: BusModel, pos: u16) -> u16 {
    combine16(mem_get(b, pos), mem_get(b, wadd16(pos, 1)))
}

/// A 16-bit write: two consecutive byte writes, low then high.
pub open spec fn mem_set16(b: BusModel, pos: u16, data: u16) -> BusModel {
    mem_set(mem_set(b, pos, lo8(data)), wadd16(pos, 1), hi8(data))
}

/// The status byte after an operation that produced the value `v`:
/// Zero tracks `v == 0`, Negative tracks bit 7 of `v`, all else is kept.
pub open spec fn update_nz(status: u8, v: u8) -> u8 {
    let s1 = if v == 0 {
        status | ZERO
    } else {
        status & !ZERO
    };
    if v & 0x80 != 0 {
        s1 | NEGATIVE
    } else {
        s1 & !NEGATIVE
    }
}

/// The program-ROM image with the reset vector patched to `v`: the two
/// bytes that the processor reads at $FFFC/$FFFD, at their offset within
/// the bank layout.
pub open spec fn vector_patched(prg: Seq<u8>, v: u16) -> Seq<u8> {
    let off: int = if prg.len() == 0x4000 {
        0x3FFC
    } else {
        0x7FFC
    };
    prg.update(off, lo8(v)).update(off + 1, hi8(v))
}

/// The bus with the reset vector patched into the cartridge image.
pub open spec fn set_vector_spec(b: BusModel, v: u16) -> BusModel {
    BusModel { rom: RomModel { prg: vector_patched(b.rom.prg, v), ..b.rom }, ..b }
}

/// The bus after a program image is placed in work RAM at $0600.
pub open spec fn load_ram_spec(b: BusModel, prog: Seq<u8>) -> BusModel {
    BusModel {
        vram: Seq::new(
            2048,
            |slot: int|
                if 0x0600 <= slot < 0x0600 + prog.len() {
                    prog[slot - 0x0600]
                } else {
                    b.vram[slot]
                },
        ),
        ..b
    }
}

/// The RAM mirror mask keeps an address inside the 2 KiB of work RAM.
pub proof fn lemma_vram_slot_bounds(addr: u16)
    by (bit_vector)
    ensures
        addr & 0x07FF < 2048,
        addr & 0x07FF == addr % 2048,
{
}

/// A word is its low byte paired with its high byte.
pub proof fn lemma_combine_split(w: u16)
    by (bit_vector)
    ensures
        combine16(lo8(w), hi8(w)) == w,
{
}

} // verus!
