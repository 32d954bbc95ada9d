use nes::bus::Nes;
use nes::cart::InesMapper;
use nes::ines::InesFile;

fn nes_with_prog(prog: &[u8]) -> Nes {
    let mut prg = vec![0u8; 16384];
    prg[..prog.len()].copy_from_slice(prog);
    let mut bytes = vec![0x4e, 0x45, 0x53, 0x1a, 1, 1, 0x01, 0, 0, 0, 0, 0, 0, 0, 0, 0];
    bytes.extend(prg);
    bytes.extend(vec![0u8; 8192]);
    let file = InesFile::new(&bytes).unwrap();
    let cart = InesMapper::new(file).unwrap();
    Nes::new(cart, Some(0x8000))
}

#[test]
fn ppu_counters_stay_in_frame() {
    // Two full frames of dots: the dot stays in [0, 340] and the scanline
    // in [0, 261]; dot 1 of scanline 241 raises the VBlank flag.
    let mut nes = nes_with_prog(&[]);
    let mut saw_vblank_set = false;
    for _ in 0..(2 * 262 * 341) {
        nes.step_ppu();
        assert!(nes.ppu.cycle <= 340);
        assert!(nes.ppu.scanline <= 261);
        if nes.ppu.scanline == 241 && nes.ppu.cycle == 1 {
            assert!(nes.ppu.vblank_flag);
            saw_vblank_set = true;
        }
    }
    assert!(saw_vblank_set);
}

#[test]
fn odd_frame_skip() {
    let mut nes = nes_with_prog(&[]);
    assert!(!nes.ppu.frame_odd);
    // Run the even frame to its wrap at (261, 340) -> (0, 0).
    let mut guard: u32 = 0;
    while !(nes.ppu.scanline == 261 && nes.ppu.cycle == 340) {
        nes.step_ppu();
        guard += 1;
        assert!(guard < 200_000);
    }
    nes.step_ppu();
    assert_eq!((nes.ppu.scanline, nes.ppu.cycle), (0, 0));
    assert!(nes.ppu.frame_odd);
    // The odd frame is cut short: from dot 338 of the pre-render line the
    // next dot is already (0, 0), with the parity flipped back.
    while !(nes.ppu.scanline == 261 && nes.ppu.cycle == 338) {
        nes.step_ppu();
        guard += 1;
        assert!(guard < 400_000);
    }
    nes.step_ppu();
    assert_eq!((nes.ppu.scanline, nes.ppu.cycle), (0, 0));
    assert!(!nes.ppu.frame_odd);
}

#[test]
fn vblank_flag_set_and_cleared_by_read() {
    // Poll $2002 until bit 7 comes back set (scanline 241, dot 1), then
    // read again: the first read cleared the flag.
    let prog = [
        0xad, 0x02, 0x20, // $8000: LDA $2002
        0x10, 0xfb, // $8003: BPL $8000
        0xad, 0x02, 0x20, // $8005: LDA $2002
    ];
    let mut nes = nes_with_prog(&prog);
    let mut guard: u32 = 0;
    while nes.cpu.pc != 0x8005 {
        nes.step().unwrap();
        guard += 1;
        assert!(guard < 100_000, "VBlank never observed");
    }
    assert_eq!(nes.cpu.a & 0x80, 0x80, "bit 7 of $2002 read as 1");
    // The poll loop must have run until the VBlank scanline was reached.
    assert!(nes.cycles_ahead >= (241 * 341) / 3);
    nes.step().unwrap();
    assert_eq!(nes.cpu.a & 0x80, 0x00, "the read cleared the flag");
}

#[test]
fn ppudata_writes_reach_ciram_and_read_back() {
    // Set the address latch to $2108 through $2006, write $77 through
    // $2007, then read it back through $2007 after resetting the latch.
    let prog = [
        0xa9, 0x21, 0x8d, 0x06, 0x20, // LDA #$21 ; STA $2006 (high)
        0xa9, 0x08, 0x8d, 0x06, 0x20, // LDA #$08 ; STA $2006 (low)
        0xa9, 0x01, 0x8d, 0x00, 0x20, // LDA #$01 ; STA $2000 (increment 1)
        0xa9, 0x77, 0x8d, 0x07, 0x20, // LDA #$77 ; STA $2007
        0xa9, 0x21, 0x8d, 0x06, 0x20, // STA $2006 (high) again
        0xa9, 0x08, 0x8d, 0x06, 0x20, // STA $2006 (low)
        0xad, 0x07, 0x20, // LDA $2007
    ];
    let mut nes = nes_with_prog(&prog);
    for _ in 0..8 {
        nes.step().unwrap();
    }
    // Vertical mirroring folds $2108 by the low 11 bits: CIRAM $0108.
    assert_eq!(nes.ppu.ciram[0x108], 0x77);
    for _ in 0..5 {
        nes.step().unwrap();
    }
    assert_eq!(nes.cpu.a, 0x77, "PPUDATA read returns the stored byte");
}

#[test]
fn ppudata_increment_is_one_at_power_on() {
    // Without any $2000 write, consecutive $2007 writes land in
    // consecutive CIRAM cells: the reset VRAM increment is 1.
    let prog = [
        0xa9, 0x21, 0x8d, 0x06, 0x20, // LDA #$21 ; STA $2006 (high)
        0xa9, 0x00, 0x8d, 0x06, 0x20, // LDA #$00 ; STA $2006 (low)
        0xa9, 0x11, 0x8d, 0x07, 0x20, // LDA #$11 ; STA $2007
        0xa9, 0x22, 0x8d, 0x07, 0x20, // LDA #$22 ; STA $2007
    ];
    let mut nes = nes_with_prog(&prog);
    for _ in 0..8 {
        nes.step().unwrap();
    }
    // Vertical mirroring folds $2100/$2101 to CIRAM $0100/$0101.
    assert_eq!(nes.ppu.ciram[0x100], 0x11);
    assert_eq!(nes.ppu.ciram[0x101], 0x22);
}

#[test]
fn open_bus_reads_return_last_byte() {
    // A read from the APU/IO range returns the last successfully read
    // byte: here the high byte of the operand address.
    let mut nes = nes_with_prog(&[0xad, 0x15, 0x40]);
    nes.step().unwrap();
    assert_eq!(nes.cpu.a, 0x40);
    // A write-only PPU register behaves the same.
    let mut nes2 = nes_with_prog(&[0xad, 0x03, 0x20]);
    nes2.step().unwrap();
    assert_eq!(nes2.cpu.a, 0x20);
}
