use nes::bus::Nes;
use nes::cart::InesMapper;
use nes::ines::InesFile;

fn nes_with_prg(prg: Vec<u8>, start: u16) -> Nes {
    let mut bytes = vec![0x4e, 0x45, 0x53, 0x1a, 1, 1, 0, 0, 0, 0, 0, 0, 0, 0, 0, 0];
    bytes.extend(prg);
    bytes.extend(vec![0u8; 8192]);
    let file = InesFile::new(&bytes).unwrap();
    let cart = InesMapper::new(file).unwrap();
    Nes::new(cart, Some(start))
}

/// Runs `setup` instructions of `prog`, then one more, and returns the
/// cycle count of that last instruction.
fn cycles_of_last(prog: &[u8], setup: usize) -> u64 {
    let mut prg = vec![0u8; 16384];
    prg[..prog.len()].copy_from_slice(prog);
    let mut nes = nes_with_prg(prg, 0x8000);
    for _ in 0..setup {
        nes.step().unwrap();
    }
    let before = nes.cycles_ahead;
    nes.step().unwrap();
    nes.cycles_ahead - before
}

#[test]
fn cycles_immediate_and_implied() {
    assert_eq!(cycles_of_last(&[0xa9, 0x10], 0), 2, "LDA #");
    assert_eq!(cycles_of_last(&[0xe8], 0), 2, "INX");
    assert_eq!(cycles_of_last(&[0xea], 0), 2, "NOP");
    assert_eq!(cycles_of_last(&[0x38], 0), 2, "SEC");
    assert_eq!(cycles_of_last(&[0xaa], 0), 2, "TAX");
}

#[test]
fn cycles_loads() {
    assert_eq!(cycles_of_last(&[0xa5, 0x10], 0), 3, "LDA zp");
    assert_eq!(cycles_of_last(&[0xb5, 0x10], 0), 4, "LDA zp,X");
    assert_eq!(cycles_of_last(&[0xad, 0x10, 0x02], 0), 4, "LDA abs");
    assert_eq!(cycles_of_last(&[0xa1, 0x10], 0), 6, "LDA (zp,X)");
    assert_eq!(cycles_of_last(&[0xb1, 0x10], 0), 5, "LDA (zp),Y no cross");
}

#[test]
fn cycles_page_cross_penalties() {
    // abs,X without cross: 4; with cross: 5.
    assert_eq!(cycles_of_last(&[0xa2, 0x01, 0xbd, 0x00, 0x02], 1), 4, "LDA abs,X same page");
    assert_eq!(cycles_of_last(&[0xa2, 0x01, 0xbd, 0xff, 0x02], 1), 5, "LDA abs,X crossing");
    // (zp),Y crossing: pointer $0000 (low 0, high 0) + Y=$FF stays cheap,
    // so build a pointer whose low byte is $FF.
    let prog = [
        0xa9, 0xff, 0x85, 0x10, // pointer low  $FF at $10
        0xa9, 0x02, 0x85, 0x11, // pointer high $02 at $11
        0xa0, 0x01, // LDY #$01
        0xb1, 0x10, // LDA ($10),Y  ; $02FF + 1 crosses
    ];
    assert_eq!(cycles_of_last(&prog, 5), 6, "LDA (zp),Y crossing");
}

#[test]
fn cycles_stores_always_pay() {
    assert_eq!(cycles_of_last(&[0x85, 0x10], 0), 3, "STA zp");
    assert_eq!(cycles_of_last(&[0x8d, 0x10, 0x02], 0), 4, "STA abs");
    assert_eq!(cycles_of_last(&[0x9d, 0x00, 0x02], 0), 5, "STA abs,X without cross");
    assert_eq!(cycles_of_last(&[0x99, 0x00, 0x02], 0), 5, "STA abs,Y without cross");
    assert_eq!(cycles_of_last(&[0x91, 0x10], 0), 6, "STA (zp),Y without cross");
    assert_eq!(cycles_of_last(&[0x81, 0x10], 0), 6, "STA (zp,X)");
}

#[test]
fn cycles_read_modify_write() {
    assert_eq!(cycles_of_last(&[0x06, 0x10], 0), 5, "ASL zp");
    assert_eq!(cycles_of_last(&[0x0e, 0x10, 0x02], 0), 6, "ASL abs");
    assert_eq!(cycles_of_last(&[0x1e, 0x00, 0x02], 0), 7, "ASL abs,X always pays");
    assert_eq!(cycles_of_last(&[0x0a], 0), 2, "ASL A");
    assert_eq!(cycles_of_last(&[0xe6, 0x10], 0), 5, "INC zp");
}

#[test]
fn cycles_stack_and_flow() {
    assert_eq!(cycles_of_last(&[0x48], 0), 3, "PHA");
    assert_eq!(cycles_of_last(&[0x08], 0), 3, "PHP");
    assert_eq!(cycles_of_last(&[0x48, 0x68], 1), 4, "PLA");
    assert_eq!(cycles_of_last(&[0x08, 0x28], 1), 4, "PLP");
    assert_eq!(cycles_of_last(&[0x4c, 0x00, 0x81], 0), 3, "JMP abs");
    assert_eq!(cycles_of_last(&[0x6c, 0x10, 0x02], 0), 5, "JMP (ind)");
    assert_eq!(cycles_of_last(&[0x20, 0x10, 0x80], 0), 6, "JSR");
    // RTS after a JSR.
    let mut prg = vec![0u8; 16384];
    prg[0] = 0x20; // JSR $8010
    prg[1] = 0x10;
    prg[2] = 0x80;
    prg[0x10] = 0x60; // RTS
    let mut nes = nes_with_prg(prg, 0x8000);
    nes.step().unwrap();
    let before = nes.cycles_ahead;
    nes.step().unwrap();
    assert_eq!(nes.cycles_ahead - before, 6, "RTS");
}

#[test]
fn cycles_illegal_rmw_izy_always_pays() {
    // DCP (zp),Y pays the indexed penalty always plus the modify cycle.
    assert_eq!(cycles_of_last(&[0xd3, 0x10], 0), 8, "DCP (zp),Y");
    assert_eq!(cycles_of_last(&[0xc7, 0x10], 0), 5, "DCP zp");
    assert_eq!(cycles_of_last(&[0xdf, 0x00, 0x02], 0), 7, "DCP abs,X");
}

#[test]
fn cycles_branches() {
    // Not taken: 2 (BNE with Z set after LDA #$00).
    assert_eq!(cycles_of_last(&[0xa9, 0x00, 0xd0, 0x10], 1), 2, "branch not taken");
    // Taken, same page: 3.
    assert_eq!(cycles_of_last(&[0xa9, 0x00, 0xf0, 0x10], 1), 3, "taken same page");
    // Taken with page cross: 4 (from the scenario at $80FD).
    let mut prg = vec![0u8; 16384];
    prg[0x0fb] = 0xa9;
    prg[0x0fc] = 0x00;
    prg[0x0fd] = 0xf0;
    prg[0x0fe] = 0x04;
    let mut nes = nes_with_prg(prg, 0x80fb);
    nes.step().unwrap();
    let before = nes.cycles_ahead;
    nes.step().unwrap();
    assert_eq!(nes.cycles_ahead - before, 4, "taken crossing");
}

#[test]
fn cycles_stay_in_documented_range() {
    // A straight-line run over many supported opcodes: each instruction
    // costs between 2 and 8 cycles.
    let prog: [u8; 42] = [
        0xa9, 0x01, // LDA #
        0x85, 0x10, // STA zp
        0xb5, 0x0f, // LDA zp,X
        0xad, 0x10, 0x00, // LDA abs
        0xa1, 0x10, // LDA (zp,X)
        0xb1, 0x10, // LDA (zp),Y
        0x0a, // ASL A
        0x06, 0x10, // ASL zp
        0x48, // PHA
        0x68, // PLA
        0x08, // PHP
        0x28, // PLP
        0xc9, 0x01, // CMP #
        0xe0, 0x00, // CPX #
        0xc0, 0x00, // CPY #
        0xe8, // INX
        0xc8, // INY
        0x88, // DEY
        0xca, // DEX
        0x98, // TYA
        0xa8, // TAY
        0x8a, // TXA
        0xaa, // TAX
        0xba, // TSX
        0x9a, // TXS
        0xc7, 0x10, // DCP zp
        0xa7, 0x10, // LAX zp
        0x87, 0x11, // SAX zp
    ];
    let mut prg = vec![0u8; 16384];
    prg[..prog.len()].copy_from_slice(&prog);
    let mut nes = nes_with_prg(prg, 0x8000);
    for _ in 0..27 {
        let before = nes.cycles_ahead;
        nes.step().unwrap();
        let d = nes.cycles_ahead - before;
        assert!((2..=8).contains(&d), "cycle count {d} out of the documented range");
    }
}
