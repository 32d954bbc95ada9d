use nes::NesError;
use nes::cart::InesMapper;
use nes::ines::InesFile;

fn ines1_image(prg_units: usize, chr_units: usize, flags6: u8) -> Vec<u8> {
    let mut bytes = vec![0x4e, 0x45, 0x53, 0x1a, prg_units as u8, chr_units as u8, flags6, 0, 0, 0, 0, 0, 0, 0, 0, 0];
    bytes.extend(vec![0u8; prg_units * 16384]);
    bytes.extend(vec![0u8; chr_units * 8192]);
    bytes
}

#[test]
fn parse_rejects_short_file() {
    let bytes = vec![0x4e, 0x45, 0x53];
    assert_eq!(InesFile::new(&bytes).unwrap_err(), NesError::HeaderTooShort);
}

#[test]
fn parse_rejects_bad_magic() {
    let mut bytes = ines1_image(1, 1, 0);
    bytes[3] = 0x00;
    assert_eq!(InesFile::new(&bytes).unwrap_err(), NesError::HeaderBadMagic);
}

#[test]
fn parse_rejects_truncated_data() {
    let mut bytes = ines1_image(1, 1, 0);
    bytes.truncate(16 + 16384);
    assert_eq!(InesFile::new(&bytes).unwrap_err(), NesError::HeaderTruncated);
}

#[test]
fn parse_ines1_fields() {
    let mut bytes = ines1_image(1, 1, 0x01);
    bytes[16] = 0xab;
    bytes[16 + 16384] = 0xcd;
    let f = InesFile::new(&bytes).unwrap();
    assert_eq!(f.mapper_id, 0);
    assert_eq!(f.submapper, 0);
    assert!(f.vert_mirror);
    assert!(!f.alt_nt_layout);
    assert_eq!(f.prg_rom.len(), 16384);
    assert_eq!(f.chr_rom.len(), 8192);
    assert_eq!(f.prg_rom[0], 0xab);
    assert_eq!(f.chr_rom[0], 0xcd);
}

#[test]
fn parse_trainer_offsets_regions() {
    let mut bytes = vec![0x4e, 0x45, 0x53, 0x1a, 1, 0, 0x04, 0, 0, 0, 0, 0, 0, 0, 0, 0];
    bytes.extend(vec![0u8; 512]);
    let mut prg = vec![0u8; 16384];
    prg[0] = 0x5a;
    bytes.extend(prg);
    let f = InesFile::new(&bytes).unwrap();
    assert_eq!(f.prg_rom[0], 0x5a);
    assert_eq!(f.chr_rom.len(), 0);
}

#[test]
fn parse_nes2_fields() {
    // NES 2.0: byte 7 low nibble 8; mapper nibble and submapper in byte 8.
    let mut bytes = vec![0x4e, 0x45, 0x53, 0x1a, 1, 1, 0x10, 0x28, 0x53, 0, 0, 0, 0, 0, 0, 0];
    bytes.extend(vec![0u8; 16384 + 8192]);
    let f = InesFile::new(&bytes).unwrap();
    // mapper id: low nibble 1 (byte 6 high nibble), middle 2, high 3.
    assert_eq!(f.mapper_id, 0x321);
    assert_eq!(f.submapper, 5);
    assert!(!f.vert_mirror);
}

#[test]
fn header_round_trips_semantic_fields() {
    let mut bytes = vec![0x4e, 0x45, 0x53, 0x1a, 1, 1, 0x09, 0x08, 0x20, 0, 0, 0, 0, 0, 0, 0];
    bytes.extend(vec![0u8; 16384 + 8192]);
    let f = InesFile::new(&bytes).unwrap();
    assert_eq!(f.mapper_id, 0);
    assert_eq!(f.submapper, 2);
    assert!(f.vert_mirror);
    assert!(f.alt_nt_layout);

    let mut again = f.header_bytes();
    assert_eq!(again.len(), 16);
    again.extend(f.prg_rom.clone());
    again.extend(f.chr_rom.clone());
    let g = InesFile::new(&again).unwrap();
    assert_eq!(g.mapper_id, f.mapper_id);
    assert_eq!(g.submapper, f.submapper);
    assert_eq!(g.vert_mirror, f.vert_mirror);
    assert_eq!(g.alt_nt_layout, f.alt_nt_layout);
    assert_eq!(g.prg_rom.len(), f.prg_rom.len());
    assert_eq!(g.chr_rom.len(), f.chr_rom.len());
}

#[test]
fn mapper_zero_is_nrom_and_others_refused() {
    let bytes = ines1_image(1, 1, 0);
    let f = InesFile::new(&bytes).unwrap();
    assert!(InesMapper::new(f).is_ok());

    let bytes1 = ines1_image(1, 1, 0x10);
    let f1 = InesFile::new(&bytes1).unwrap();
    assert_eq!(f1.mapper_id, 1);
    assert_eq!(InesMapper::new(f1).unwrap_err(), NesError::UnsupportedMapper);
}

#[test]
fn mirroring_functions() {
    // Horizontal: $2000 and $2400 fold to bank 0, $2800 and $2C00 to bank 1.
    assert_eq!(nes::cart::horiz_mirror(0x2000) % 0x800, 0x000);
    assert_eq!(nes::cart::horiz_mirror(0x2400) % 0x800, 0x000);
    assert_eq!(nes::cart::horiz_mirror(0x2800) % 0x800, 0x400);
    assert_eq!(nes::cart::horiz_mirror(0x2c01) % 0x800, 0x401);
    // Vertical: fold by the low 11 bits.
    assert_eq!(nes::cart::vert_mirror(0x2000) % 0x800, 0x000);
    assert_eq!(nes::cart::vert_mirror(0x2800) % 0x800, 0x000);
    assert_eq!(nes::cart::vert_mirror(0x2401) % 0x800, 0x401);
}
