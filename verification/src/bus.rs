//! The memory bus: the sole path by which the processor touches memory.
//!
//! The bus presents a flat 16-bit address space and multiplexes it onto
//! 2 KiB of work RAM (mirrored four times across $0000-$1FFF), stubbed
//! peripheral regions, and cartridge program ROM at $8000-$FFFF (a single
//! 16 KiB bank is visible in both halves). Every operation is verified
//! against the `mem_get` / `mem_set` model.

use vstd::prelude::*;
use crate::cartridge::Rom;
use crate::cpu::Memory;
use crate::model::{BusModel, bus_wf, can_write, lemma_vram_slot_bounds, mem_get, mem_get16, mem_set, mem_set16, prg_at, set_vector_spec, wadd16};

verus! {

/// A failure while the processor is running.
#[derive(Debug, Clone, Copy, PartialEq, Eq, Structural)]
pub enum RunError {
    /// An instruction tried to store into the program-ROM range
    /// $8000-$FFFF; the program is malformed and the run aborts.
    WriteToRom,
    /// An effective address was asked of an addressing mode that has none
    /// (the implicit-operand tag, or the immediate tag where a stored
    /// address is required).
    UnsupportedMode,
}

/// The memory bus: work RAM plus the cartridge.
pub struct Bus {
    cpu_vram: Vec<u8>,
    rom: Rom,
}

impl View for Bus {
    type V = BusModel;

    closed spec fn view(&self) -> BusModel {
        BusModel { vram: self.cpu_vram@, rom: self.rom@ }
    }
}

impl Bus {
    /// The bus keeps its RAM size and the cartridge bank shape.
    pub open spec fn wf(&self) -> bool {
        bus_wf(self@)
    }

    /// A fresh bus around a cartridge: all work RAM starts at zero.
    pub fn new(rom: Rom) -> (bus: Bus)
        requires
            rom.wf(),
        ensures
            bus.wf(),
            bus@.rom == rom@,
            bus@.vram.len() == 2048,
            forall|i: int| 0 <= i < 2048 ==> bus@.vram[i] == 0,
    {
        let mut vram: Vec<u8> = Vec::new();
        let mut i: usize = 0;
        while i < 2048
            invariant
                i <= 2048,
                vram@.len() == i,
                forall|k: int| 0 <= k < i ==> vram@[k] == 0,
            decreases 2048 - i,
        {
            vram.push(0);
            i = i + 1;
        }
        Bus { cpu_vram: vram, rom }
    }

    /// The program-ROM byte at an address in $8000-$FFFF, applying the
    /// 16 KiB mirror rule for a single-bank cartridge.
    fn read_prg_rom(&self, addr: u16) -> (r: u8)
        requires
            self.wf(),
            0x8000 <= addr,
        ensures
            r == prg_at(self@.rom.prg, addr),
    {
        let mut offset: u16 = addr - 0x8000;
        if self.rom.prg_rom.len() == 0x4000 && offset >= 0x4000 {
            offset = offset - 0x4000;
        }
        self.rom.prg_rom[offset as usize]
    }

    /// Read one byte, decoding the address as the model says.
    pub fn read8(&self, addr: u16) -> (r: u8)
        requires
            self.wf(),
        ensures
            r == mem_get(self@, addr),
    {
        if addr <= 0x1FFF {
            proof {
                lemma_vram_slot_bounds(addr);
            }
            self.cpu_vram[(addr & 0x07FF) as usize]
        } else if addr <= 0x3FFF {
            // picture-unit registers: stubbed, reads return zero
            0
        } else if addr < 0x8000 {
            // audio, input and cartridge SRAM regions: ignored in-core
            0
        } else {
            self.read_prg_rom(addr)
        }
    }

    /// An accepted write (anywhere below the program-ROM range): stores into
    /// RAM through the mirror mask, or is dropped by a stubbed region.
    pub(crate) fn write8_low(&mut self, addr: u16, data: u8)
        requires
            old(self).wf(),
            can_write(addr),
        ensures
            final(self).wf(),
            final(self)@ == mem_set(old(self)@, addr, data),
    {
        if addr <= 0x1FFF {
            proof {
                lemma_vram_slot_bounds(addr);
            }
            self.cpu_vram[(addr & 0x07FF) as usize] = data;
        } else {
            // picture-unit, audio, input and SRAM regions: the byte is dropped
        }
    }

    /// Patch the reset vector into the cartridge image, at the offsets the
    /// processor reads through $FFFC/$FFFD. This is the loader's privilege:
    /// ordinary writes into the program-ROM range stay fatal.
    pub(crate) fn set_reset_vector(&mut self, v: u16)
        requires
            old(self).wf(),
        ensures
            final(self).wf(),
            final(self)@ == set_vector_spec(old(self)@, v),
    {
        let off: usize = if self.rom.prg_rom.len() == 0x4000 {
            0x3FFC
        } else {
            0x7FFC
        };
        self.rom.prg_rom[off] = (v & 0xff) as u8;
        self.rom.prg_rom[off + 1] = (v >> 8) as u8;
    }

    /// Write one byte. Storing into $8000-$FFFF is fatal: the byte is not
    /// written and the caller is told to abort.
    pub fn write8(&mut self, addr: u16, data: u8) -> (r: Result<(), RunError>)
        requires
            old(self).wf(),
        ensures
            final(self).wf(),
            (match r {
                Ok(()) => can_write(addr) && final(self)@ == mem_set(old(self)@, addr, data),
                Err(e) => e == RunError::WriteToRom && !can_write(addr) && final(self)@ == old(self)@,
            }),
    {
        if addr < 0x8000 {
            self.write8_low(addr, data);
            Ok(())
        } else {
            Err(RunError::WriteToRom)
        }
    }

    /// Read a little-endian word: two consecutive byte reads, low then high.
    pub fn read16(&self, pos: u16) -> (r: u16)
        requires
            self.wf(),
        ensures
            r == mem_get16(self@, pos),
    {
        let lo = self.read8(pos);
        let hi = self.read8(pos.wrapping_add(1));
        ((hi as u16) << 8) | (lo as u16)
    }

    /// Write a little-endian word: two consecutive byte writes, low then
    /// high. If either byte would land in program ROM, nothing is written.
    pub fn write16(&mut self, pos: u16, data: u16) -> (r: Result<(), RunError>)
        requires
            old(self).wf(),
        ensures
            final(self).wf(),
            (match r {
                Ok(()) => can_write(pos) && can_write(wadd16(pos, 1)) && final(self)@ == mem_set16(
                    old(self)@,
                    pos,
                    data,
                ),
                Err(e) => e == RunError::WriteToRom && !(can_write(pos) && can_write(
                    wadd16(pos, 1),
                )) && final(self)@ == old(self)@,
            }),
    {
        if pos >= 0x8000 || pos.wrapping_add(1) >= 0x8000 {
            return Err(RunError::WriteToRom);
        }
        let hi = (data >> 8) as u8;
        let lo = (data & 0xff) as u8;
        self.write8_low(pos, lo);
        self.write8_low(pos.wrapping_add(1), hi);
        Ok(())
    }
}

impl Memory for Bus {
    open spec fn mem_view(&self) -> BusModel {
        self@
    }

    open spec fn mem_wf(&self) -> bool {
        self.wf()
    }

    fn mem_read(&self, addr: u16) -> (r: u8) {
        self.read8(addr)
    }

    fn mem_write(&mut self, addr: u16, data: u8) -> (r: Result<(), RunError>) {
        self.write8(addr, data)
    }

    fn mem_read_u16(&self, pos: u16) -> (r: u16) {
        self.read16(pos)
    }

    fn mem_write_u16(&mut self, pos: u16, data: u16) -> (r: Result<(), RunError>) {
        self.write16(pos, data)
    }
}

} // verus!
