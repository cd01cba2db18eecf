//! Tests of the bus: RAM reads and writes, mirroring, the program-ROM
//! window, and the fatal ROM write.

use nes_core::bus::{Bus, RunError};
use nes_core::cartridge::Rom;
use nes_core::cpu::Memory;

/// A cartridge with two 16 KiB program banks and one character bank; the
/// program bytes count up so that reads are tellable apart.
fn test_rom() -> Rom {
    let mut raw: Vec<u8> = vec![0x4E, 0x45, 0x53, 0x1A, 0x02, 0x01, 0x00, 0x00];
    raw.resize(16, 0);
    for i in 0..0x8000usize {
        raw.push((i % 251) as u8);
    }
    raw.resize(16 + 0x8000 + 0x2000, 0);
    Rom::new(&raw).unwrap()
}

/// A cartridge with a single 16 KiB program bank, to observe the mirror.
fn small_rom() -> Rom {
    let mut raw: Vec<u8> = vec![0x4E, 0x45, 0x53, 0x1A, 0x01, 0x01, 0x00, 0x00];
    raw.resize(16, 0);
    for i in 0..0x4000usize {
        raw.push((i % 241) as u8);
    }
    raw.resize(16 + 0x4000 + 0x2000, 0);
    Rom::new(&raw).unwrap()
}

#[test]
fn test_mem_read_write_to_ram() {
    let mut bus = Bus::new(test_rom());
    bus.mem_write(0x01, 0x55).unwrap();
    assert_eq!(bus.mem_read(0x01), 0x55);
}

#[test]
fn test_ram_mirrors() {
    let mut bus = Bus::new(test_rom());
    bus.write8(0x0042, 0x99).unwrap();
    assert_eq!(bus.read8(0x0042), 0x99);
    assert_eq!(bus.read8(0x0842), 0x99);
    assert_eq!(bus.read8(0x1042), 0x99);
    assert_eq!(bus.read8(0x1842), 0x99);
    bus.write8(0x1F42, 0x17).unwrap();
    assert_eq!(bus.read8(0x0742), 0x17);
}

#[test]
fn test_stubbed_regions_read_zero_and_drop_writes() {
    let mut bus = Bus::new(test_rom());
    assert_eq!(bus.read8(0x2000), 0);
    assert_eq!(bus.read8(0x3FFF), 0);
    assert_eq!(bus.read8(0x4016), 0);
    assert_eq!(bus.read8(0x6000), 0);
    bus.write8(0x2001, 0xAB).unwrap();
    bus.write8(0x4000, 0xAB).unwrap();
    assert_eq!(bus.read8(0x2001), 0);
    assert_eq!(bus.read8(0x4000), 0);
}

#[test]
fn test_prg_rom_window() {
    let bus = Bus::new(test_rom());
    assert_eq!(bus.read8(0x8000), 0);
    assert_eq!(bus.read8(0x8005), 5 % 251);
    assert_eq!(bus.read8(0xC005), (0x4005 % 251) as u8);
}

#[test]
fn test_prg_rom_single_bank_mirrored() {
    let bus = Bus::new(small_rom());
    assert_eq!(bus.read8(0x8007), 7);
    assert_eq!(bus.read8(0xC007), 7);
    assert_eq!(bus.read8(0xBFFF), ((0x3FFF) % 241) as u8);
    assert_eq!(bus.read8(0xFFFF), ((0x3FFF) % 241) as u8);
}

#[test]
fn test_write_to_rom_is_fatal() {
    let mut bus = Bus::new(test_rom());
    assert_eq!(bus.write8(0x8000, 1), Err(RunError::WriteToRom));
    assert_eq!(bus.write8(0xFFFF, 1), Err(RunError::WriteToRom));
    assert_eq!(bus.mem_write(0x9000, 1), Err(RunError::WriteToRom));
    // the failed store left the ROM byte alone
    assert_eq!(bus.read8(0x8000), 0);
}

#[test]
fn test_word_reads_and_writes_are_little_endian() {
    let mut bus = Bus::new(test_rom());
    bus.write16(0x0200, 0xBEEF).unwrap();
    assert_eq!(bus.read8(0x0200), 0xEF);
    assert_eq!(bus.read8(0x0201), 0xBE);
    assert_eq!(bus.read16(0x0200), 0xBEEF);
    assert_eq!(bus.mem_read_u16(0x0200), 0xBEEF);
}
