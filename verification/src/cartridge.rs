//! Cartridge images in the iNES (version 1) container format.
//!
//! A `Rom` holds the program-ROM and character-ROM payloads of an image
//! together with the mapper id and the name-table mirroring arrangement.
//! Parsing is specified exactly by `parse_rom` in spec land; `Rom::new` is
//! verified to return precisely what that specification says, for every
//! input byte string.

use vstd::prelude::*;

verus! {

/// Name-table mirroring arrangement declared by the image header.
#[derive(Debug, Clone, Copy, PartialEq, Eq, Structural)]
pub enum Mirroring {
    Vertical,
    Horizontal,
    FourScreen,
}

/// Why an image failed to parse.
#[derive(Debug, Clone, Copy, PartialEq, Eq, Structural)]
pub enum RomError {
    /// The magic tag is wrong, or the data is shorter than the header and
    /// payload sizes it declares.
    InvalidFormat,
    /// The header's two-bit version field says the image uses a container
    /// version of two or more.
    UnsupportedVersion,
    /// The image names a mapper other than id 0 (no bank switching).
    UnsupportedMapper,
}

/// Mathematical content of a parsed cartridge.
pub ghost struct RomModel {
    pub prg: Seq<u8>,
    pub chr: Seq<u8>,
    pub mapper: u8,
    pub mirroring: Mirroring,
}

/// A parsed cartridge image.
pub struct Rom {
    pub prg_rom: Vec<u8>,
    pub chr_rom: Vec<u8>,
    pub mapper: u8,
    pub screen_mirroring: Mirroring,
}

impl View for Rom {
    type V = RomModel;

    open spec fn view(&self) -> RomModel {
        RomModel {
            prg: self.prg_rom@,
            chr: self.chr_rom@,
            mapper: self.mapper,
            mirroring: self.screen_mirroring,
        }
    }
}

/// What parsing an image yields: the cartridge, or why it was refused.
pub ghost enum RomParse {
    Good(RomModel),
    Bad(RomError),
}

/// The iNES (version 1) container, exactly: 16 header bytes starting with
/// the magic tag; a two-bit version field that must be zero; a mapper id
/// (low nibble from byte 6, high nibble from byte 7) that must be zero;
/// program-ROM and character-ROM sizes in 16 KiB and 8 KiB units from
/// bytes 4 and 5; an optional 512-byte trainer (bit 2 of byte 6) before the
/// program ROM; and the mirroring arrangement from bits 0 and 3 of byte 6.
pub open spec fn parse_rom(raw: Seq<u8>) -> RomParse {
    if raw.len() < 16 {
        RomParse::Bad(RomError::InvalidFormat)
    } else if !(raw[0] == 0x4E && raw[1] == 0x45 && raw[2] == 0x53 && raw[3] == 0x1A) {
        RomParse::Bad(RomError::InvalidFormat)
    } else if (raw[7] >> 2) & 0b11 != 0 {
        RomParse::Bad(RomError::UnsupportedVersion)
    } else if (raw[7] & 0b1111_0000) | (raw[6] >> 4) != 0 {
        RomParse::Bad(RomError::UnsupportedMapper)
    } else {
        let prg_len = raw[4] * 0x4000;
        let chr_len = raw[5] * 0x2000;
        let prg_start: int = if raw[6] & 0b100 != 0 {
            16int + 512
        } else {
            16int
        };
        let chr_start = prg_start + prg_len;
        if raw.len() < chr_start + chr_len {
            RomParse::Bad(RomError::InvalidFormat)
        } else {
            RomParse::Good(
                RomModel {
                    prg: raw.subrange(prg_start, chr_start),
                    chr: raw.subrange(chr_start, chr_start + chr_len),
                    mapper: (raw[7] & 0b1111_0000) | (raw[6] >> 4),
                    mirroring: if raw[6] & 0b1000 != 0 {
                        Mirroring::FourScreen
                    } else if raw[6] & 0b1 != 0 {
                        Mirroring::Vertical
                    } else {
                        Mirroring::Horizontal
                    },
                },
            )
        }
    }
}

/// A copy of `raw[start..start + len]`.
fn copy_range(raw: &Vec<u8>, start: usize, len: usize) -> (r: Vec<u8>)
    requires
        start + len <= raw@.len(),
    ensures
        r@ == raw@.subrange(start as int, start as int + len),
{
    let n = raw.len();
    let mut out: Vec<u8> = Vec::new();
    let mut i: usize = 0;
    while i < len
        invariant
            i <= len,
            start + len <= n,
            n == raw@.len(),
            out@ =~= raw@.subrange(start as int, start as int + i),
        decreases len - i,
    {
        out.push(raw[start + i]);
        i = i + 1;
    }
    proof {
        assert(out@ =~= raw@.subrange(start as int, start as int + len));
    }
    out
}

impl Rom {
    /// The bus supports mapper 0 alone, whose program ROM is one or two
    /// 16 KiB banks; a single bank is mirrored into both halves of
    /// $8000-$FFFF.
    pub open spec fn wf(&self) -> bool {
        self@.prg.len() == 0x4000 || self@.prg.len() == 0x8000
    }

    /// Parse an iNES image. The result is exactly what `parse_rom` says:
    /// success returns the two payloads, the mapper id and the mirroring;
    /// a wrong magic tag or a truncated payload is an invalid-format
    /// failure, a version of two or more and a mapper other than zero are
    /// unsupported.
    pub fn new(raw: &Vec<u8>) -> (r: Result<Rom, RomError>)
        ensures
            (match r {
                Ok(rom) => parse_rom(raw@) == RomParse::Good(rom@),
                Err(e) => parse_rom(raw@) == RomParse::Bad(e),
            }),
    {
        if raw.len() < 16 {
            return Err(RomError::InvalidFormat);
        }
        if !(raw[0] == 0x4E && raw[1] == 0x45 && raw[2] == 0x53 && raw[3] == 0x1A) {
            return Err(RomError::InvalidFormat);
        }
        let mapper = (raw[7] & 0b1111_0000) | (raw[6] >> 4);
        let ines_ver = (raw[7] >> 2) & 0b11;
        if ines_ver != 0 {
            return Err(RomError::UnsupportedVersion);
        }
        if mapper != 0 {
            return Err(RomError::UnsupportedMapper);
        }
        let prg_rom_size = (raw[4] as usize) * 0x4000;
        let chr_rom_size = (raw[5] as usize) * 0x2000;
        let skip_trainer = raw[6] & 0b100 != 0;
        let prg_rom_start: usize = if skip_trainer {
            16 + 512
        } else {
            16
        };
        let chr_rom_start = prg_rom_start + prg_rom_size;
        if raw.len() < chr_rom_start + chr_rom_size {
            return Err(RomError::InvalidFormat);
        }
        let prg_rom = copy_range(raw, prg_rom_start, prg_rom_size);
        let chr_rom = copy_range(raw, chr_rom_start, chr_rom_size);
        let four_screen = raw[6] & 0b1000 != 0;
        let vertical_mirroring = raw[6] & 0b1 != 0;
        let screen_mirroring = if four_screen {
            Mirroring::FourScreen
        } else if vertical_mirroring {
            Mirroring::Vertical
        } else {
            Mirroring::Horizontal
        };
        Ok(Rom { prg_rom, chr_rom, mapper, screen_mirroring })
    }
}

} // verus!
