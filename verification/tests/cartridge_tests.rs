//! Tests of the iNES image parser.

use nes_core::cartridge::{Mirroring, Rom, RomError};

fn image(prg_banks: u8, chr_banks: u8, byte6: u8, byte7: u8) -> Vec<u8> {
    let mut raw: Vec<u8> = vec![0x4E, 0x45, 0x53, 0x1A, prg_banks, chr_banks, byte6, byte7];
    raw.resize(16, 0);
    let trainer = if byte6 & 0b100 != 0 { 512 } else { 0 };
    let total = 16 + trainer + (prg_banks as usize) * 0x4000 + (chr_banks as usize) * 0x2000;
    raw.resize(total, 0);
    raw
}

#[test]
fn test_parse_accepts_plain_image() {
    let mut raw = image(2, 1, 0x00, 0x00);
    raw[16] = 0xAB;
    raw[16 + 0x8000] = 0xCD;
    let rom = Rom::new(&raw).unwrap();
    assert_eq!(rom.prg_rom.len(), 0x8000);
    assert_eq!(rom.chr_rom.len(), 0x2000);
    assert_eq!(rom.prg_rom[0], 0xAB);
    assert_eq!(rom.chr_rom[0], 0xCD);
    assert_eq!(rom.mapper, 0);
    assert_eq!(rom.screen_mirroring, Mirroring::Horizontal);
}

#[test]
fn test_parse_mirroring_bits() {
    let raw = image(1, 1, 0x01, 0x00);
    assert_eq!(Rom::new(&raw).unwrap().screen_mirroring, Mirroring::Vertical);
    let raw = image(1, 1, 0x08, 0x00);
    assert_eq!(Rom::new(&raw).unwrap().screen_mirroring, Mirroring::FourScreen);
    // four-screen wins over the vertical bit
    let raw = image(1, 1, 0x09, 0x00);
    assert_eq!(Rom::new(&raw).unwrap().screen_mirroring, Mirroring::FourScreen);
}

#[test]
fn test_parse_skips_trainer() {
    let mut raw = image(1, 0, 0x04, 0x00);
    raw[16 + 512] = 0x77;
    let rom = Rom::new(&raw).unwrap();
    assert_eq!(rom.prg_rom[0], 0x77);
}

#[test]
fn test_parse_rejects_bad_magic() {
    let mut raw = image(1, 1, 0x00, 0x00);
    raw[0] = 0x4D;
    assert!(matches!(Rom::new(&raw), Err(RomError::InvalidFormat)));
}

#[test]
fn test_parse_rejects_short_data() {
    let raw: Vec<u8> = vec![0x4E, 0x45, 0x53, 0x1A];
    assert!(matches!(Rom::new(&raw), Err(RomError::InvalidFormat)));
    let mut truncated = image(2, 1, 0x00, 0x00);
    truncated.truncate(16 + 0x4000);
    assert!(matches!(Rom::new(&truncated), Err(RomError::InvalidFormat)));
}

#[test]
fn test_parse_rejects_version_two() {
    let raw = image(1, 1, 0x00, 0x08);
    assert!(matches!(Rom::new(&raw), Err(RomError::UnsupportedVersion)));
}

#[test]
fn test_parse_rejects_nonzero_mapper() {
    let raw = image(1, 1, 0x10, 0x00);
    assert!(matches!(Rom::new(&raw), Err(RomError::UnsupportedMapper)));
    let raw = image(1, 1, 0x00, 0x20);
    assert!(matches!(Rom::new(&raw), Err(RomError::UnsupportedMapper)));
}
