//! iNES / NES 2.0 cartridge file parsing.
//!
//! The 16-byte header is decoded bit-exactly: PRG/CHR sizes in 16 KiB and
//! 8 KiB units (with the NES 2.0 extension nibbles of byte 9), mirroring,
//! trainer presence, the 12-bit mapper id and 4-bit submapper, and the
//! NES 2.0 indicator. The PRG and CHR regions are sliced out of the input;
//! a declared size running past the end of the file is a hard error.

use vstd::prelude::*;

use crate::NesError;

verus! {

/// True when the first four bytes are `NES\x1a`.
pub open spec fn ines_has_magic(b: Seq<u8>) -> bool {
    b[0] == 0x4e && b[1] == 0x45 && b[2] == 0x53 && b[3] == 0x1a
}

/// NES 2.0 indicator: the low nibble of byte 7 equals 8 in its two high bits.
pub open spec fn ines_is_nes2(b: Seq<u8>) -> bool {
    (b[7] / 4) % 4 == 2
}

/// PRG ROM size in 16 KiB units, with the NES 2.0 extension nibble.
pub open spec fn ines_prg_units(b: Seq<u8>) -> int {
    if ines_is_nes2(b) { b[4] + (b[9] % 16) * 256 } else { b[4] as int }
}

/// CHR ROM size in 8 KiB units, with the NES 2.0 extension nibble.
pub open spec fn ines_chr_units(b: Seq<u8>) -> int {
    if ines_is_nes2(b) { b[5] + (b[9] / 16) * 256 } else { b[5] as int }
}

/// Bit 0 of byte 6: 1 means vertical mirroring, 0 horizontal.
pub open spec fn ines_vert_mirror(b: Seq<u8>) -> bool {
    b[6] % 2 == 1
}

/// Bit 2 of byte 6: a 512-byte trainer sits between header and PRG ROM.
pub open spec fn ines_has_trainer(b: Seq<u8>) -> bool {
    (b[6] / 4) % 2 == 1
}

/// Bit 3 of byte 6: alternative name-table layout.
pub open spec fn ines_alt_nt(b: Seq<u8>) -> bool {
    (b[6] / 8) % 2 == 1
}

/// Mapper id: low nibble from byte 6's high nibble, middle nibble from
/// byte 7's high nibble, and under NES 2.0 a third nibble from byte 8.
pub open spec fn ines_mapper_id(b: Seq<u8>) -> u16 {
    ((b[7] / 16) * 16 + b[6] / 16 + if ines_is_nes2(b) { (b[8] % 16) * 256 } else { 0 }) as u16
}

/// Submapper: byte 8's high nibble under NES 2.0, otherwise 0.
pub open spec fn ines_submapper(b: Seq<u8>) -> u8 {
    if ines_is_nes2(b) { (b[8] / 16) as u8 } else { 0 }
}

/// Offset of the first PRG ROM byte.
pub open spec fn ines_header_end(b: Seq<u8>) -> int {
    if ines_has_trainer(b) { 528int } else { 16int }
}

/// Offset one past the last PRG ROM byte.
pub open spec fn ines_prg_end(b: Seq<u8>) -> int {
    ines_header_end(b) + ines_prg_units(b) * 16384
}

/// Offset one past the last CHR ROM byte.
pub open spec fn ines_chr_end(b: Seq<u8>) -> int {
    ines_prg_end(b) + ines_chr_units(b) * 8192
}

/// A parseable image: long enough for the header, correct magic, and the
/// declared regions contained in the file.
pub open spec fn ines_ok(b: Seq<u8>) -> bool {
    b.len() >= 16 && ines_has_magic(b) && ines_chr_end(b) <= b.len()
}

/// A 16-byte NES 2.0 header carrying the given semantic fields: magic,
/// sizes with their extension nibbles, mirroring and layout flags, mapper
/// and submapper, no trainer.
pub open spec fn sp_header16(
    mapper: u16,
    sub: u8,
    prg_units: u16,
    chr_units: u16,
    vert: bool,
    alt: bool,
) -> Seq<u8> {
    seq![
        0x4eu8,
        0x45u8,
        0x53u8,
        0x1au8,
        (prg_units % 256) as u8,
        (chr_units % 256) as u8,
        ((mapper % 16) * 16 + (if alt { 8int } else { 0int }) + (if vert { 1int } else { 0int })) as u8,
        ((mapper / 16) % 16 * 16 + 8) as u8,
        (sub * 16 + mapper / 256) as u8,
        ((chr_units / 256) * 16 + prg_units / 256) as u8,
        0u8,
        0u8,
        0u8,
        0u8,
        0u8,
        0u8,
    ]
}

/// The decoded form of an iNES / NES 2.0 image. The RAM size fields are
/// header-reported values only; this parser leaves them 0.
#[derive(Debug, Clone)]
pub struct InesFile {
    pub mapper_id: u16,
    pub submapper: u8,

    pub prg_rom: Vec<u8>,
    pub chr_rom: Vec<u8>,

    pub prg_ram_size: u16,
    pub chr_ram_size: u16,
    pub eeprom_size: u16,

    pub vert_mirror: bool,
    pub alt_nt_layout: bool,
}

/// Copies `bytes[start..end]` into a fresh vector.
fn copy_range(bytes: &[u8], start: usize, end: usize) -> (r: Vec<u8>)
    requires
        start <= end <= bytes@.len(),
    ensures
        r@ == bytes@.subrange(start as int, end as int),
{
    let mut r: Vec<u8> = Vec::new();
    let mut i: usize = start;
    while i < end
        invariant
            start <= i <= end <= bytes@.len(),
            r@.len() == i - start,
            forall|j: int| 0 <= j < r@.len() ==> r@[j] == bytes@[start + j],
        decreases end - i,
    {
        r.push(bytes[i]);
        i = i + 1;
    }
    proof {
        assert(r@ =~= bytes@.subrange(start as int, end as int));
    }
    r
}

impl InesFile {
    /// Decodes an iNES / NES 2.0 image. Returns exactly one of the three
    /// decoded header errors on bad input; on success every semantic field
    /// equals its specification over the input bytes, and the PRG and CHR
    /// vectors hold the declared regions of the file.
    pub fn new(bytes: &[u8]) -> (r: Result<InesFile, NesError>)
        ensures
            bytes@.len() < 16 ==> r == Err::<InesFile, NesError>(NesError::HeaderTooShort),
            bytes@.len() >= 16 && !ines_has_magic(bytes@) ==> r == Err::<InesFile, NesError>(
                NesError::HeaderBadMagic,
            ),
            bytes@.len() >= 16 && ines_has_magic(bytes@) && ines_chr_end(bytes@) > bytes@.len()
                ==> r == Err::<InesFile, NesError>(NesError::HeaderTruncated),
            r is Ok <==> ines_ok(bytes@),
            r matches Ok(f) ==> {
                &&& f.mapper_id == ines_mapper_id(bytes@)
                &&& f.submapper == ines_submapper(bytes@)
                &&& f.prg_rom@ == bytes@.subrange(ines_header_end(bytes@), ines_prg_end(bytes@))
                &&& f.chr_rom@ == bytes@.subrange(ines_prg_end(bytes@), ines_chr_end(bytes@))
                &&& f.prg_ram_size == 0
                &&& f.chr_ram_size == 0
                &&& f.eeprom_size == 0
                &&& f.vert_mirror == ines_vert_mirror(bytes@)
                &&& f.alt_nt_layout == ines_alt_nt(bytes@)
            },
    {
        if bytes.len() < 16 {
            return Err(NesError::HeaderTooShort);
        }
        if !(bytes[0] == 0x4e && bytes[1] == 0x45 && bytes[2] == 0x53 && bytes[3] == 0x1a) {
            return Err(NesError::HeaderBadMagic);
        }

        let nes2: bool = (bytes[7] / 4) % 4 == 2;

        let prg_units: usize = bytes[4] as usize + if nes2 {
            (bytes[9] % 16) as usize * 256
        } else {
            0
        };
        let chr_units: usize = bytes[5] as usize + if nes2 {
            (bytes[9] / 16) as usize * 256
        } else {
            0
        };

        let vert_mirror: bool = bytes[6] % 2 == 1;
        let header_end: usize = if (bytes[6] / 4) % 2 == 1 { 16 + 512 } else { 16 };
        let alt_nt_layout: bool = (bytes[6] / 8) % 2 == 1;

        let mapper_id: u16 = (bytes[7] / 16) as u16 * 16 + (bytes[6] / 16) as u16 + if nes2 {
            (bytes[8] % 16) as u16 * 256
        } else {
            0
        };
        let submapper: u8 = if nes2 { bytes[8] / 16 } else { 0 };

        let prg_end: usize = header_end + prg_units * 16384;
        let chr_end: usize = prg_end + chr_units * 8192;
        if chr_end > bytes.len() {
            return Err(NesError::HeaderTruncated);
        }

        let prg_rom = copy_range(bytes, header_end, prg_end);
        let chr_rom = copy_range(bytes, prg_end, chr_end);

        Ok(
            InesFile {
                mapper_id,
                submapper,
                prg_rom,
                chr_rom,
                prg_ram_size: 0,
                chr_ram_size: 0,
                eeprom_size: 0,
                vert_mirror,
                alt_nt_layout,
            },
        )
    }

    /// Reserialises the semantic fields into a 16-byte NES 2.0 header whose
    /// size fields are derived from the held PRG and CHR data.
    pub fn header_bytes(&self) -> (r: Vec<u8>)
        requires
            self.mapper_id < 0x1000,
            self.submapper < 16,
            self.prg_rom@.len() / 16384 < 0x1000,
            self.chr_rom@.len() / 8192 < 0x1000,
        ensures
            r@ == sp_header16(
                self.mapper_id,
                self.submapper,
                (self.prg_rom@.len() / 16384) as u16,
                (self.chr_rom@.len() / 8192) as u16,
                self.vert_mirror,
                self.alt_nt_layout,
            ),
    {
        let prg_units: u16 = (self.prg_rom.len() / 16384) as u16;
        let chr_units: u16 = (self.chr_rom.len() / 8192) as u16;
        let mut r: Vec<u8> = Vec::new();
        r.push(0x4e);
        r.push(0x45);
        r.push(0x53);
        r.push(0x1a);
        r.push((prg_units % 256) as u8);
        r.push((chr_units % 256) as u8);
        r.push(
            (self.mapper_id % 16) as u8 * 16 + (if self.alt_nt_layout { 8u8 } else { 0u8 }) + (
            if self.vert_mirror { 1u8 } else { 0u8 }),
        );
        r.push(((self.mapper_id / 16) % 16) as u8 * 16 + 8);
        r.push(self.submapper * 16 + (self.mapper_id / 256) as u8);
        r.push((chr_units / 256) as u8 * 16 + (prg_units / 256) as u8);
        r.push(0);
        r.push(0);
        r.push(0);
        r.push(0);
        r.push(0);
        r.push(0);
        proof {
            assert(r@ =~= sp_header16(
                self.mapper_id,
                self.submapper,
                (self.prg_rom@.len() / 16384) as u16,
                (self.chr_rom@.len() / 8192) as u16,
                self.vert_mirror,
                self.alt_nt_layout,
            ));
        }
        r
    }
}

} // verus!
