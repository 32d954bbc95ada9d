use nes::bus::Nes;
use nes::cart::InesMapper;
use nes::ines::InesFile;

/// Builds a 16 KiB-PRG NROM image holding `prog` at `$8000` and powers the
/// machine on with `PC` overridden to `start`.
fn nes_with_prog(prog: &[u8], start: u16) -> Nes {
    let mut prg = vec![0u8; 16384];
    prg[..prog.len()].copy_from_slice(prog);
    nes_with_prg(prg, start)
}

fn nes_with_prg(prg: Vec<u8>, start: u16) -> Nes {
    let mut bytes = vec![0x4e, 0x45, 0x53, 0x1a, 1, 1, 0, 0, 0, 0, 0, 0, 0, 0, 0, 0];
    bytes.extend(prg);
    bytes.extend(vec![0u8; 8192]);
    let file = InesFile::new(&bytes).unwrap();
    let cart = InesMapper::new(file).unwrap();
    Nes::new(cart, Some(start))
}

fn steps(nes: &mut Nes, n: usize) {
    for _ in 0..n {
        nes.step().unwrap();
    }
}

#[test]
fn power_on_state() {
    let nes = nes_with_prog(&[], 0x8000);
    assert_eq!(nes.cpu.a, 0);
    assert_eq!(nes.cpu.x, 0);
    assert_eq!(nes.cpu.y, 0);
    assert_eq!(nes.cpu.s, 0xfd);
    assert_eq!(nes.cpu.p, 0x24);
    assert_eq!(nes.cpu.pc, 0x8000);
    assert_eq!(nes.cycles_ahead, 7);
    assert_eq!(nes.ppu.scanline, 0);
    assert_eq!(nes.ppu.cycle, 21);
    // Control reset value 0 decodes to base name table $2000, increment 1.
    assert_eq!(nes.ppu.ppudata_inc, 1);
    assert_eq!(nes.ppu.base_nt, 0x20);
}

#[test]
fn reset_vector_sets_pc() {
    let mut prg = vec![0u8; 16384];
    // $FFFC/$FFFD mirror to the last bytes of the 16 KiB bank.
    prg[0x3ffc] = 0x34;
    prg[0x3ffd] = 0x92;
    let mut bytes = vec![0x4e, 0x45, 0x53, 0x1a, 1, 1, 0, 0, 0, 0, 0, 0, 0, 0, 0, 0];
    bytes.extend(prg);
    bytes.extend(vec![0u8; 8192]);
    let file = InesFile::new(&bytes).unwrap();
    let cart = InesMapper::new(file).unwrap();
    let nes = Nes::new(cart, None);
    assert_eq!(nes.cpu.pc, 0x9234);
}

#[test]
fn adc_overflow_scenario() {
    // A=$50, then ADC #$50: A=$A0 with N=1, V=1, C=0, Z=0.
    let mut nes = nes_with_prog(&[0xa9, 0x50, 0x69, 0x50], 0x8000);
    steps(&mut nes, 2);
    assert_eq!(nes.cpu.a, 0xa0);
    assert_eq!(nes.cpu.p & 0x80, 0x80, "N set");
    assert_eq!(nes.cpu.p & 0x40, 0x40, "V set");
    assert_eq!(nes.cpu.p & 0x01, 0x00, "C clear");
    assert_eq!(nes.cpu.p & 0x02, 0x00, "Z clear");
}

#[test]
fn sbc_borrow_scenario() {
    // A=$50 with C set, then SBC #$F0: A=$60, C=0 (a borrow occurred),
    // N=0; V stays clear ($50 - $F0 = 80 - (-16) = 96 fits in a signed
    // byte, so SBC A,M = ADC A,~M reports no signed overflow).
    let mut nes = nes_with_prog(&[0xa9, 0x50, 0x38, 0xe9, 0xf0], 0x8000);
    steps(&mut nes, 3);
    assert_eq!(nes.cpu.a, 0x60);
    assert_eq!(nes.cpu.p & 0x01, 0x00, "C clear: borrow occurred");
    assert_eq!(nes.cpu.p & 0x80, 0x00, "N clear");
    assert_eq!(nes.cpu.p & 0x40, 0x00, "V clear");
}

#[test]
fn jmp_indirect_page_wrap_scenario() {
    // The pointer sits at the end of a RAM page: the target's high byte
    // comes from the start of the same page, not from the next one.
    let prog = [
        0xa9, 0x80, 0x8d, 0xff, 0x02, // LDA #$80 ; STA $02FF
        0xa9, 0x40, 0x8d, 0x00, 0x02, // LDA #$40 ; STA $0200
        0xa9, 0x50, 0x8d, 0x00, 0x03, // LDA #$50 ; STA $0300
        0x6c, 0xff, 0x02, // JMP ($02FF)
    ];
    let mut nes = nes_with_prog(&prog, 0x8000);
    steps(&mut nes, 7);
    assert_eq!(nes.cpu.pc, 0x4080, "high byte from $0200, not $0300");
}

#[test]
fn taken_branch_page_cross_scenario() {
    // At $80FD with Z set, BEQ +$04 lands at $8103 and costs 4 cycles.
    let mut prg = vec![0u8; 16384];
    prg[0x0fb] = 0xa9; // LDA #$00 sets Z
    prg[0x0fc] = 0x00;
    prg[0x0fd] = 0xf0; // BEQ +4
    prg[0x0fe] = 0x04;
    let mut nes = nes_with_prg(prg, 0x80fb);
    steps(&mut nes, 1);
    assert_eq!(nes.cpu.pc, 0x80fd);
    let before = nes.cycles_ahead;
    steps(&mut nes, 1);
    assert_eq!(nes.cpu.pc, 0x8103);
    assert_eq!(nes.cycles_ahead - before, 4, "2 base + 1 taken + 1 page cross");
}

#[test]
fn izx_pointer_wraps_in_zero_page() {
    // (zp,X) with zp+X == $FF reads the pointer's high byte from $00, not
    // from $0100: plant a decoy high byte at $0100.
    let prog = [
        0xa9, 0x20, 0x85, 0xff, // LDA #$20 ; STA $FF   (pointer low)
        0xa9, 0x02, 0x85, 0x00, // LDA #$02 ; STA $00   (pointer high)
        0xa9, 0x03, 0x8d, 0x00, 0x01, // LDA #$03 ; STA $0100 (decoy)
        0xa9, 0x77, 0x8d, 0x20, 0x02, // LDA #$77 ; STA $0220 (target)
        0xa9, 0x55, 0x8d, 0x20, 0x03, // LDA #$55 ; STA $0320 (decoy target)
        0xa2, 0x0f, // LDX #$0F
        0xa1, 0xf0, // LDA ($F0,X)  ; $F0+$0F == $FF
    ];
    let mut nes = nes_with_prog(&prog, 0x8000);
    steps(&mut nes, 12);
    assert_eq!(nes.cpu.a, 0x77, "pointer high byte came from $00");
}

#[test]
fn pha_pla_round_trip() {
    // PHA ; LDA #$00 ; PLA restores A and sets N,Z from it.
    let prog = [0xa9, 0xc3, 0x48, 0xa9, 0x00, 0x68];
    let mut nes = nes_with_prog(&prog, 0x8000);
    steps(&mut nes, 1);
    let s_before = nes.cpu.s;
    steps(&mut nes, 1); // PHA
    assert_eq!(nes.cpu.s, s_before.wrapping_sub(1));
    assert_eq!(nes.iram[0x100 + s_before as usize], 0xc3, "pushed at $0100|S");
    steps(&mut nes, 1); // LDA #$00
    assert_eq!(nes.cpu.p & 0x02, 0x02, "Z set by the in-between load");
    steps(&mut nes, 1); // PLA
    assert_eq!(nes.cpu.a, 0xc3);
    assert_eq!(nes.cpu.s, s_before);
    assert_eq!(nes.cpu.p & 0x80, 0x80, "N from the restored value");
    assert_eq!(nes.cpu.p & 0x02, 0x00, "Z from the restored value");
}

#[test]
fn php_plp_round_trip() {
    // SEC ; PHP ; CLC ; PLP restores all of P (B cleared, U set).
    let prog = [0x38, 0x08, 0x18, 0x28];
    let mut nes = nes_with_prog(&prog, 0x8000);
    steps(&mut nes, 1); // SEC
    let p_before = nes.cpu.p;
    let s_before = nes.cpu.s;
    steps(&mut nes, 1); // PHP
    let pushed = nes.iram[0x100 + s_before as usize];
    assert_eq!(pushed & 0x30, 0x30, "pushed byte has B and U set");
    assert_eq!(pushed, p_before | 0x30);
    steps(&mut nes, 1); // CLC
    assert_eq!(nes.cpu.p & 0x01, 0x00);
    steps(&mut nes, 1); // PLP
    assert_eq!(nes.cpu.p, (p_before & 0xef) | 0x20);
    assert_eq!(nes.cpu.p & 0x01, 0x01, "C restored");
}

#[test]
fn stack_wraps_modulo_256() {
    // Pushing with S at $00 wraps S to $FF; the write still lands in page 1.
    let prog = [
        0xa2, 0x00, // LDX #$00
        0x9a, // TXS       (S = $00)
        0xa9, 0x99, // LDA #$99
        0x48, // PHA
    ];
    let mut nes = nes_with_prog(&prog, 0x8000);
    steps(&mut nes, 4);
    assert_eq!(nes.cpu.s, 0xff);
    assert_eq!(nes.iram[0x100], 0x99);
}

#[test]
fn jam_opcode_reported() {
    let mut nes = nes_with_prog(&[0x02], 0x8000);
    assert_eq!(nes.step().unwrap_err(), nes::NesError::Jam);
}

#[test]
fn illegal_lax_and_dcp() {
    // LAX $10 loads A and X together; DCP $10 decrements and compares.
    let prog = [
        0xa9, 0x41, 0x85, 0x10, // LDA #$41 ; STA $10
        0xa9, 0x00, // LDA #$00
        0xa7, 0x10, // LAX $10
        0xc7, 0x10, // DCP $10  (memory -> $40, compare A=$41 vs $40)
    ];
    let mut nes = nes_with_prog(&prog, 0x8000);
    steps(&mut nes, 4);
    assert_eq!(nes.cpu.a, 0x41);
    assert_eq!(nes.cpu.x, 0x41);
    steps(&mut nes, 1);
    assert_eq!(nes.iram[0x10], 0x40);
    assert_eq!(nes.cpu.p & 0x01, 0x01, "C set: A >= M after decrement");
    assert_eq!(nes.cpu.p & 0x02, 0x00, "Z clear");
}

#[test]
fn rmw_asl_memory_and_accumulator() {
    let prog = [
        0xa9, 0xc1, 0x85, 0x20, // LDA #$C1 ; STA $20
        0x06, 0x20, // ASL $20   -> $82, C=1
        0xa9, 0x40, // LDA #$40
        0x0a, // ASL A     -> $80, C=0
    ];
    let mut nes = nes_with_prog(&prog, 0x8000);
    steps(&mut nes, 3);
    assert_eq!(nes.iram[0x20], 0x82);
    assert_eq!(nes.cpu.p & 0x01, 0x01, "carry from bit 7");
    steps(&mut nes, 2);
    assert_eq!(nes.cpu.a, 0x80);
    assert_eq!(nes.cpu.p & 0x01, 0x00);
    assert_eq!(nes.cpu.p & 0x80, 0x80);
}

#[test]
fn jsr_rts_round_trip() {
    let prog = [
        0x20, 0x10, 0x80, // $8000: JSR $8010
        0xa9, 0x07, // $8003: LDA #$07
    ];
    let mut prg = vec![0u8; 16384];
    prg[..prog.len()].copy_from_slice(&prog);
    prg[0x10] = 0x60; // $8010: RTS
    let mut nes = nes_with_prg(prg, 0x8000);
    steps(&mut nes, 1);
    assert_eq!(nes.cpu.pc, 0x8010);
    assert_eq!(nes.cpu.s, 0xfb, "two bytes pushed");
    steps(&mut nes, 1);
    assert_eq!(nes.cpu.pc, 0x8003, "RTS returns past the JSR");
    steps(&mut nes, 1);
    assert_eq!(nes.cpu.a, 0x07);
}

#[test]
fn compare_sets_flags() {
    // CMP: A=$40 vs $41 -> C=0, N=1; vs $40 -> C=1, Z=1.
    let mut nes = nes_with_prog(&[0xa9, 0x40, 0xc9, 0x41, 0xc9, 0x40], 0x8000);
    steps(&mut nes, 2);
    assert_eq!(nes.cpu.p & 0x01, 0x00);
    assert_eq!(nes.cpu.p & 0x80, 0x80);
    steps(&mut nes, 1);
    assert_eq!(nes.cpu.p & 0x01, 0x01);
    assert_eq!(nes.cpu.p & 0x02, 0x02);
}

#[test]
fn bit_sets_nvz_from_memory() {
    let prog = [
        0xa9, 0xc0, 0x85, 0x30, // LDA #$C0 ; STA $30
        0xa9, 0x3f, // LDA #$3F
        0x24, 0x30, // BIT $30
    ];
    let mut nes = nes_with_prog(&prog, 0x8000);
    steps(&mut nes, 4);
    assert_eq!(nes.cpu.p & 0x80, 0x80, "N from bit 7 of M");
    assert_eq!(nes.cpu.p & 0x40, 0x40, "V from bit 6 of M");
    assert_eq!(nes.cpu.p & 0x02, 0x02, "Z: A & M == 0");
}
