//! The CPU interpreter: fetch, decode and execute one instruction per call.
//!
//! Each opcode byte decomposes as `aaa bbb cc` (bits 7-5, 4-2, 1-0); the
//! `(a, b, c)` triple selects operation and addressing mode. The spec
//! functions here define one whole instruction over `NesView` — including
//! every dummy cycle, page-crossing penalty and flag quirk — and
//! `Nes::step` is proved equal to `sp_step`. Opcodes outside the supported
//! set (BRK, the JAM/KIL group and a few unstable illegals) are refused
//! after the opcode fetch with `NesError::Jam` and no further state change.

use vstd::prelude::*;

use crate::NesError;
use crate::bus::{
    inc16, nes_inv, sp_dec8, sp_elapse, sp_fetch, sp_fetch16, sp_inc16, sp_inc8, sp_pop, sp_pop16,
    sp_push, sp_push16, sp_read, sp_tick, sp_write, wadd16, Nes, NesView,
};
use crate::cpu::{
    sp_adc_a, sp_adc_p, sp_cmp, sp_nz, sp_rmw_p, sp_rmw_val, sp_set_z, sp_sign_ext, Cpu,
};

verus! {

/// Bits 7-5 of an opcode.
pub open spec fn op_a(i: u8) -> u8 {
    i / 32
}

/// Bits 4-2 of an opcode.
pub open spec fn op_b(i: u8) -> u8 {
    (i / 4) % 8
}

/// Bits 1-0 of an opcode.
pub open spec fn op_c(i: u8) -> u8 {
    i % 4
}

/// The opcodes this core executes: the documented set (except BRK, which
/// belongs to interrupt delivery) and the stable illegal operations
/// (SLO, RLA, SRE, RRA, DCP, ISC, LAX, SAX and the NOP variants). The
/// JAM/KIL opcodes and the unstable illegals (SHX, SHY, AHX, TAS, LAS,
/// ANC, ALR, ARR, AXS, XAA) are refused.
pub open spec fn op_supported(i: u8) -> bool {
    let a = op_a(i);
    let b = op_b(i);
    let c = op_c(i);
    if c == 0 {
        !((a == 0 && b == 0) || (a == 4 && b == 7))
    } else if c == 1 {
        true
    } else if c == 2 {
        !((a <= 3 && b == 0) || b == 4 || (a == 4 && b == 7))
    } else {
        !((b == 2 && a != 5 && a != 7) || (a == 4 && (b == 4 || b == 6 || b == 7)) || (a == 5 && b
            == 6))
    }
}

/// Zero-page addressing: the operand byte is the address.
pub open spec fn am_zp(s: NesView) -> (NesView, u16) {
    let (s1, z) = sp_fetch(s);
    (s1, z as u16)
}

/// Absolute addressing: a 16-bit operand.
pub open spec fn am_abs(s: NesView) -> (NesView, u16) {
    sp_fetch16(s)
}

/// Zero-page indexed addressing: the indexed add costs one dummy cycle and
/// wraps inside the zero page.
pub open spec fn am_zp_ix(s: NesView, ix: u8) -> (NesView, u16) {
    let (s1, z) = sp_fetch(s);
    (sp_tick(s1), ((z + ix) % 256) as u16)
}

/// Where `(zp,X)` reads the low byte of its pointer: inside the zero page.
pub open spec fn sp_izx_lo_addr(z: u8, x: u8) -> u16 {
    ((z + x) % 256) as u16
}

/// Where `(zp,X)` reads the high byte of its pointer: the next zero-page
/// address, wrapping inside the zero page (never `$0100`).
pub open spec fn sp_izx_hi_addr(z: u8, x: u8) -> u16 {
    (((z + x) % 256 + 1) % 256) as u16
}

/// `(zp,X)`: the pointer low byte sits at `(zp+X) % 256`, its high byte at
/// the next zero-page address, wrapping inside page zero; the indexed add
/// costs one dummy cycle.
pub open spec fn am_izx(s: NesView) -> (NesView, u16) {
    let (s1, z) = sp_fetch(s);
    let s2 = sp_tick(s1);
    let (s3, lo) = sp_read(s2, sp_izx_lo_addr(z, s.cpu.x));
    let (s4, hi) = sp_read(s3, sp_izx_hi_addr(z, s.cpu.x));
    (s4, (hi * 256 + lo) as u16)
}

/// `(zp),Y`: the pointer is read from the zero page (its high byte
/// wrapping inside page zero), then `Y` is added. The read form pays one
/// extra cycle only when the add crosses a page; the store form always
/// pays it.
pub open spec fn am_izy(s: NesView, always: bool) -> (NesView, u16) {
    let (s1, z) = sp_fetch(s);
    let (s2, lo) = sp_read(s1, z as u16);
    let (s3, hi) = sp_read(s2, ((z + 1) % 256) as u16);
    let s4 = if always || lo + s.cpu.y > 255 { sp_tick(s3) } else { s3 };
    (s4, ((hi * 256 + lo + s.cpu.y) % 0x10000) as u16)
}

/// `abs,X` / `abs,Y`: the read form pays one extra cycle only when adding
/// the index to the base's low byte crosses a page; the store form always
/// pays it.
pub open spec fn am_abs_ix(s: NesView, ix: u8, always: bool) -> (NesView, u16) {
    let (s1, base) = sp_fetch16(s);
    let s2 = if always || base % 256 + ix > 255 { sp_tick(s1) } else { s1 };
    (s2, ((base + ix) % 0x10000) as u16)
}

/// The address the high byte of a `JMP (ind)` target is read from: the
/// pointer's page is kept and only its low byte increments, wrapping
/// inside the page.
pub open spec fn sp_jmp_ind_hi(ind: u16) -> u16 {
    ((ind / 256) * 256 + (ind % 256 + 1) % 256) as u16
}

/// The operand of a `c = 1` (accumulator-family) instruction, by `b`.
pub open spec fn sp_load_c1(s: NesView, b: u8) -> (NesView, u8) {
    if b == 0 {
        let (s1, ad) = am_izx(s);
        sp_read(s1, ad)
    } else if b == 1 {
        let (s1, ad) = am_zp(s);
        sp_read(s1, ad)
    } else if b == 2 {
        sp_fetch(s)
    } else if b == 3 {
        let (s1, ad) = am_abs(s);
        sp_read(s1, ad)
    } else if b == 4 {
        let (s1, ad) = am_izy(s, false);
        sp_read(s1, ad)
    } else if b == 5 {
        let (s1, ad) = am_zp_ix(s, s.cpu.x);
        sp_read(s1, ad)
    } else if b == 6 {
        let (s1, ad) = am_abs_ix(s, s.cpu.y, false);
        sp_read(s1, ad)
    } else {
        let (s1, ad) = am_abs_ix(s, s.cpu.x, false);
        sp_read(s1, ad)
    }
}

/// The operand of a `c = 0` read (LDY, CPY, CPX and the NOP reads), by `b`.
pub open spec fn sp_load_c0(s: NesView, b: u8) -> (NesView, u8) {
    if b == 0 {
        sp_fetch(s)
    } else if b == 1 {
        let (s1, ad) = am_zp(s);
        sp_read(s1, ad)
    } else if b == 3 {
        let (s1, ad) = am_abs(s);
        sp_read(s1, ad)
    } else if b == 5 {
        let (s1, ad) = am_zp_ix(s, s.cpu.x);
        sp_read(s1, ad)
    } else if b == 7 {
        let (s1, ad) = am_abs_ix(s, s.cpu.x, false);
        sp_read(s1, ad)
    } else {
        (s, 0u8)
    }
}

/// The operand of LDX, by `b` (Y-indexed where LDA would use X).
pub open spec fn sp_load_ldx(s: NesView, b: u8) -> (NesView, u8) {
    if b == 0 {
        sp_fetch(s)
    } else if b == 1 {
        let (s1, ad) = am_zp(s);
        sp_read(s1, ad)
    } else if b == 3 {
        let (s1, ad) = am_abs(s);
        sp_read(s1, ad)
    } else if b == 5 {
        let (s1, ad) = am_zp_ix(s, s.cpu.y);
        sp_read(s1, ad)
    } else if b == 7 {
        let (s1, ad) = am_abs_ix(s, s.cpu.y, false);
        sp_read(s1, ad)
    } else {
        (s, 0u8)
    }
}

/// The operand of LAX, by `b`.
pub open spec fn sp_load_lax(s: NesView, b: u8) -> (NesView, u8) {
    if b == 0 {
        let (s1, ad) = am_izx(s);
        sp_read(s1, ad)
    } else if b == 1 {
        let (s1, ad) = am_zp(s);
        sp_read(s1, ad)
    } else if b == 2 {
        sp_fetch(s)
    } else if b == 3 {
        let (s1, ad) = am_abs(s);
        sp_read(s1, ad)
    } else if b == 4 {
        let (s1, ad) = am_izy(s, false);
        sp_read(s1, ad)
    } else if b == 5 {
        let (s1, ad) = am_zp_ix(s, s.cpu.y);
        sp_read(s1, ad)
    } else {
        let (s1, ad) = am_abs_ix(s, s.cpu.y, false);
        sp_read(s1, ad)
    }
}

/// Write-form addressing (STA and the illegal read-modify-writes), by `b`:
/// the indexed forms always pay the extra cycle.
pub open spec fn sp_addr_w(s: NesView, b: u8) -> (NesView, u16) {
    if b == 0 {
        am_izx(s)
    } else if b == 1 {
        am_zp(s)
    } else if b == 3 {
        am_abs(s)
    } else if b == 4 {
        am_izy(s, true)
    } else if b == 5 {
        am_zp_ix(s, s.cpu.x)
    } else if b == 6 {
        am_abs_ix(s, s.cpu.y, true)
    } else if b == 7 {
        am_abs_ix(s, s.cpu.x, true)
    } else {
        (s, 0u16)
    }
}

/// Read-modify-write addressing for the official shifts/INC/DEC, by `b`.
pub open spec fn sp_addr_rmw(s: NesView, b: u8) -> (NesView, u16) {
    if b == 1 {
        am_zp(s)
    } else if b == 3 {
        am_abs(s)
    } else if b == 5 {
        am_zp_ix(s, s.cpu.x)
    } else if b == 7 {
        am_abs_ix(s, s.cpu.x, true)
    } else {
        (s, 0u16)
    }
}

/// SAX addressing, by `b` (Y-indexed zero page in place of X).
pub open spec fn sp_addr_sax(s: NesView, b: u8) -> (NesView, u16) {
    if b == 0 {
        am_izx(s)
    } else if b == 1 {
        am_zp(s)
    } else if b == 3 {
        am_abs(s)
    } else {
        am_zp_ix(s, s.cpu.y)
    }
}

/// The register/flag effect of a `c = 1` operation on the accumulator:
/// ORA, AND, EOR, ADC, LDA, CMP and SBC (`SBC A,M = ADC A,~M`).
pub open spec fn sp_alu_cpu(c: Cpu, aop: u8, m: u8) -> Cpu {
    if aop == 0 {
        let a2 = c.a | m;
        Cpu { a: a2, p: sp_nz(c.p, a2), ..c }
    } else if aop == 1 {
        let a2 = c.a & m;
        Cpu { a: a2, p: sp_nz(c.p, a2), ..c }
    } else if aop == 2 {
        let a2 = c.a ^ m;
        Cpu { a: a2, p: sp_nz(c.p, a2), ..c }
    } else if aop == 3 {
        let a2 = sp_adc_a(c.a, m, c.p);
        Cpu { a: a2, p: sp_nz(sp_adc_p(c.a, m, c.p), a2), ..c }
    } else if aop == 5 {
        Cpu { a: m, p: sp_nz(c.p, m), ..c }
    } else if aop == 6 {
        Cpu { p: sp_cmp(c.p, c.a, m), ..c }
    } else {
        let mm = m ^ 0xff;
        let a2 = sp_adc_a(c.a, mm, c.p);
        Cpu { a: a2, p: sp_nz(sp_adc_p(c.a, mm, c.p), a2), ..c }
    }
}

/// The register/flag effect of an illegal read-modify-write, given the
/// original memory byte `m`: the memory side's carry applies first, then
/// the accumulator side's N,Z (and C,V for RRA/ISC through ADC).
pub open spec fn sp_ill_regs(c: Cpu, aop: u8, m: u8) -> Cpu {
    if aop == 0 {
        let a2 = c.a | (m << 1);
        Cpu { a: a2, p: (sp_nz(c.p, a2) & 0xfe) | (m >> 7), ..c }
    } else if aop == 1 {
        let v = (m << 1) | (c.p & 1);
        let a2 = c.a & v;
        Cpu { a: a2, p: sp_nz((c.p & 0xfe) | (m >> 7), a2), ..c }
    } else if aop == 2 {
        let a2 = c.a ^ (m >> 1);
        Cpu { a: a2, p: (sp_nz(c.p, a2) & 0xfe) | (m & 1), ..c }
    } else if aop == 3 {
        let v = (c.p << 7) | (m >> 1);
        let pm = (c.p & 0xfe) | (m & 1);
        let a2 = sp_adc_a(c.a, v, pm);
        Cpu { a: a2, p: sp_nz(sp_adc_p(c.a, v, pm), a2), ..c }
    } else if aop == 6 {
        Cpu { p: sp_cmp(c.p, c.a, sp_rmw_val(6, m, c.p)), ..c }
    } else {
        let mm = sp_rmw_val(7, m, c.p) ^ 0xff;
        let a2 = sp_adc_a(c.a, mm, c.p);
        Cpu { a: a2, p: sp_nz(sp_adc_p(c.a, mm, c.p), a2), ..c }
    }
}

/// The flag bit a branch opcode watches: N, V, C or Z by the top two bits
/// of `a`.
pub open spec fn sp_branch_bit(p: u8, a: u8) -> u8 {
    if a / 2 == 0 {
        (p >> 7) & 1
    } else if a / 2 == 1 {
        (p >> 6) & 1
    } else if a / 2 == 2 {
        p & 1
    } else {
        (p >> 1) & 1
    }
}

/// A branch is taken when the watched flag equals the opcode's low bit.
pub open spec fn sp_branch_taken(p: u8, a: u8) -> bool {
    sp_branch_bit(p, a) == a % 2
}

/// One `c = 0` instruction, after the opcode fetch: the stack and implied
/// operations, the flag operations, branches, jumps, JSR/RTI/RTS, BIT,
/// STY/LDY/CPY/CPX and the NOP reads.
pub open spec fn sp_c0(s: NesView, a: u8, b: u8) -> NesView {
    if b == 0 {
        if a == 1 {
            // JSR: push the address of the operand's last byte, then jump.
            let s1 = sp_push16(s, sp_inc16(s.cpu.pc));
            let (s2, t) = sp_fetch16(s1);
            sp_tick(NesView { cpu: Cpu { pc: t, ..s2.cpu }, ..s2 })
        } else if a == 2 {
            // RTI: pop P (B cleared, U set), then the return address.
            let (s1, v) = sp_pop(s);
            let s2 = NesView { cpu: Cpu { p: (v & 0xef) | 0x20, ..s1.cpu }, ..s1 };
            let (s3, t) = sp_pop16(s2);
            sp_tick(NesView { cpu: Cpu { pc: t, ..s3.cpu }, ..s3 })
        } else if a == 3 {
            // RTS: pop the return address, increment it, two idle cycles.
            let (s1, t) = sp_pop16(s);
            sp_tick(sp_tick(NesView { cpu: Cpu { pc: sp_inc16(t), ..s1.cpu }, ..s1 }))
        } else if a == 4 {
            // Two-byte NOP.
            sp_fetch(s).0
        } else if a == 5 {
            let (s1, m) = sp_fetch(s);
            NesView { cpu: Cpu { y: m, p: sp_nz(s1.cpu.p, m), ..s1.cpu }, ..s1 }
        } else if a == 6 {
            let (s1, m) = sp_fetch(s);
            NesView { cpu: Cpu { p: sp_cmp(s1.cpu.p, s.cpu.y, m), ..s1.cpu }, ..s1 }
        } else if a == 7 {
            let (s1, m) = sp_fetch(s);
            NesView { cpu: Cpu { p: sp_cmp(s1.cpu.p, s.cpu.x, m), ..s1.cpu }, ..s1 }
        } else {
            s
        }
    } else if b == 2 {
        if a == 0 {
            // PHP pushes P with B and U forced set.
            sp_push(s, s.cpu.p | 0x30)
        } else if a == 1 {
            // PLP forces B clear and U set in the register.
            let (s1, v) = sp_pop(s);
            sp_tick(NesView { cpu: Cpu { p: (v & 0xef) | 0x20, ..s1.cpu }, ..s1 })
        } else if a == 2 {
            sp_push(s, s.cpu.a)
        } else if a == 3 {
            let (s1, v) = sp_pop(s);
            sp_tick(NesView { cpu: Cpu { a: v, p: sp_nz(s1.cpu.p, v), ..s1.cpu }, ..s1 })
        } else if a == 4 {
            let y2 = sp_dec8(s.cpu.y);
            NesView { cpu: Cpu { y: y2, p: sp_nz(s.cpu.p, y2), ..s.cpu }, ..s }
        } else if a == 5 {
            NesView { cpu: Cpu { y: s.cpu.a, p: sp_nz(s.cpu.p, s.cpu.a), ..s.cpu }, ..s }
        } else if a == 6 {
            let y2 = sp_inc8(s.cpu.y);
            NesView { cpu: Cpu { y: y2, p: sp_nz(s.cpu.p, y2), ..s.cpu }, ..s }
        } else {
            let x2 = sp_inc8(s.cpu.x);
            NesView { cpu: Cpu { x: x2, p: sp_nz(s.cpu.p, x2), ..s.cpu }, ..s }
        }
    } else if b == 4 {
        // Branches: `a` selects flag and wanted value; a taken branch costs
        // one cycle, one more if it crosses a page.
        let (s1, off) = sp_fetch(s);
        if sp_branch_taken(s.cpu.p, a) {
            let t = ((s1.cpu.pc + sp_sign_ext(off)) % 0x10000) as u16;
            let s2 = if s1.cpu.pc / 256 != t / 256 { sp_tick(sp_tick(s1)) } else { sp_tick(s1) };
            NesView { cpu: Cpu { pc: t, ..s2.cpu }, ..s2 }
        } else {
            s1
        }
    } else if b == 6 {
        if a == 0 {
            NesView { cpu: Cpu { p: s.cpu.p & 0xfe, ..s.cpu }, ..s }  // CLC
        } else if a == 1 {
            NesView { cpu: Cpu { p: s.cpu.p | 0x01, ..s.cpu }, ..s }  // SEC
        } else if a == 2 {
            NesView { cpu: Cpu { p: s.cpu.p & 0xfb, ..s.cpu }, ..s }  // CLI
        } else if a == 3 {
            NesView { cpu: Cpu { p: s.cpu.p | 0x04, ..s.cpu }, ..s }  // SEI
        } else if a == 4 {
            NesView { cpu: Cpu { a: s.cpu.y, p: sp_nz(s.cpu.p, s.cpu.y), ..s.cpu }, ..s }  // TYA
        } else if a == 5 {
            NesView { cpu: Cpu { p: s.cpu.p & 0xbf, ..s.cpu }, ..s }  // CLV
        } else if a == 6 {
            NesView { cpu: Cpu { p: s.cpu.p & 0xf7, ..s.cpu }, ..s }  // CLD
        } else {
            NesView { cpu: Cpu { p: s.cpu.p | 0x08, ..s.cpu }, ..s }  // SED
        }
    } else if a == 1 && (b == 1 || b == 3) {
        // BIT: Z from A & M, N and V straight from M.
        let (s1, ad) = if b == 1 { am_zp(s) } else { am_abs(s) };
        let (s2, m) = sp_read(s1, ad);
        let p1 = (s2.cpu.p & 0x3f) | (m & 0xc0);
        NesView { cpu: Cpu { p: sp_set_z(p1, s2.cpu.a & m), ..s2.cpu }, ..s2 }
    } else if a == 2 && b == 3 {
        let (s1, t) = sp_fetch16(s);
        NesView { cpu: Cpu { pc: t, ..s1.cpu }, ..s1 }
    } else if a == 3 && b == 3 {
        // JMP (ind), with the page-wrap quirk: the high byte comes from the
        // start of the pointer's page when the pointer's low byte is $FF.
        let (s1, ind) = sp_fetch16(s);
        let (s2, lo) = sp_read(s1, ind);
        let (s3, hi) = sp_read(s2, sp_jmp_ind_hi(ind));
        NesView { cpu: Cpu { pc: (hi * 256 + lo) as u16, ..s3.cpu }, ..s3 }
    } else if a == 4 {
        // STY.
        let (s1, ad) = if b == 1 {
            am_zp(s)
        } else if b == 3 {
            am_abs(s)
        } else {
            am_zp_ix(s, s.cpu.x)
        };
        sp_write(s1, ad, s.cpu.y)
    } else if a == 5 {
        // LDY.
        let (s1, m) = sp_load_c0(s, b);
        NesView { cpu: Cpu { y: m, p: sp_nz(s1.cpu.p, m), ..s1.cpu }, ..s1 }
    } else if (a == 6 || a == 7) && (b == 1 || b == 3) {
        // CPY / CPX on memory.
        let (s1, m) = sp_load_c0(s, b);
        let r = if a == 6 { s.cpu.y } else { s.cpu.x };
        NesView { cpu: Cpu { p: sp_cmp(s1.cpu.p, r, m), ..s1.cpu }, ..s1 }
    } else {
        // NOP reads: fetch the operand, load, discard.
        sp_load_c0(s, b).0
    }
}

/// One `c = 1` instruction: STA, the accumulator family, and the immediate
/// NOP.
pub open spec fn sp_c1(s: NesView, a: u8, b: u8) -> NesView {
    if a == 4 {
        if b == 2 {
            sp_fetch(s).0
        } else {
            let (s1, ad) = sp_addr_w(s, b);
            sp_write(s1, ad, s.cpu.a)
        }
    } else {
        let (s1, m) = sp_load_c1(s, b);
        NesView { cpu: sp_alu_cpu(s1.cpu, a, m), ..s1 }
    }
}

/// One `c = 2` instruction: the shifts/rotates/INC/DEC (memory and
/// accumulator forms), STX/LDX, the transfers touching X and S, and NOPs.
pub open spec fn sp_c2(s: NesView, a: u8, b: u8) -> NesView {
    if (a == 4 || a == 6 || a == 7) && b == 0 {
        sp_fetch(s).0
    } else if a == 4 {
        if b == 1 {
            let (s1, ad) = am_zp(s);
            sp_write(s1, ad, s.cpu.x)
        } else if b == 2 {
            NesView { cpu: Cpu { a: s.cpu.x, p: sp_nz(s.cpu.p, s.cpu.x), ..s.cpu }, ..s }  // TXA
        } else if b == 3 {
            let (s1, ad) = am_abs(s);
            sp_write(s1, ad, s.cpu.x)
        } else if b == 5 {
            let (s1, ad) = am_zp_ix(s, s.cpu.y);
            sp_write(s1, ad, s.cpu.x)
        } else if b == 6 {
            NesView { cpu: Cpu { s: s.cpu.x, ..s.cpu }, ..s }  // TXS, no flags
        } else {
            s
        }
    } else if a == 5 {
        if b == 2 {
            NesView { cpu: Cpu { x: s.cpu.a, p: sp_nz(s.cpu.p, s.cpu.a), ..s.cpu }, ..s }  // TAX
        } else if b == 6 {
            NesView { cpu: Cpu { x: s.cpu.s, p: sp_nz(s.cpu.p, s.cpu.s), ..s.cpu }, ..s }  // TSX
        } else if b == 4 {
            s
        } else {
            let (s1, m) = sp_load_ldx(s, b);
            NesView { cpu: Cpu { x: m, p: sp_nz(s1.cpu.p, m), ..s1.cpu }, ..s1 }
        }
    } else if a == 6 && b == 2 {
        let x2 = sp_dec8(s.cpu.x);
        NesView { cpu: Cpu { x: x2, p: sp_nz(s.cpu.p, x2), ..s.cpu }, ..s }  // DEX
    } else if a == 7 && b == 2 {
        s  // NOP $EA
    } else if b == 6 {
        s  // implied NOPs
    } else if b == 0 || b == 4 {
        s
    } else if b == 2 {
        // Accumulator form of ASL/ROL/LSR/ROR.
        NesView {
            cpu: Cpu {
                a: sp_rmw_val(a, s.cpu.a, s.cpu.p),
                p: sp_rmw_p(a, s.cpu.a, s.cpu.p),
                ..s.cpu
            },
            ..s
        }
    } else {
        // Memory read-modify-write: flags from the new value, one internal
        // modify cycle, then the store.
        let (s1, ad) = sp_addr_rmw(s, b);
        let (s2, m) = sp_read(s1, ad);
        let s3 = NesView { cpu: Cpu { p: sp_rmw_p(a, m, s2.cpu.p), ..s2.cpu }, ..s2 };
        sp_write(sp_tick(s3), ad, sp_rmw_val(a, m, s2.cpu.p))
    }
}

/// One `c = 3` instruction: the stable illegal operations.
pub open spec fn sp_c3(s: NesView, a: u8, b: u8) -> NesView {
    if a == 5 {
        if b == 6 {
            s
        } else {
            // LAX: load A and X together.
            let (s1, m) = sp_load_lax(s, b);
            NesView { cpu: Cpu { a: m, x: m, p: sp_nz(s1.cpu.p, m), ..s1.cpu }, ..s1 }
        }
    } else if a == 7 && b == 2 {
        // The duplicated SBC immediate.
        let (s1, m) = sp_fetch(s);
        NesView { cpu: sp_alu_cpu(s1.cpu, 7, m), ..s1 }
    } else if a == 4 {
        if b == 0 || b == 1 || b == 3 || b == 5 {
            // SAX stores A & X without touching flags.
            let (s1, ad) = sp_addr_sax(s, b);
            sp_write(s1, ad, s.cpu.a & s.cpu.x)
        } else {
            s
        }
    } else if b == 2 {
        s
    } else {
        // SLO/RLA/SRE/RRA/DCP/ISC: modify memory, then apply the combined
        // operation's register effects.
        let (s1, ad) = sp_addr_w(s, b);
        let (s2, m) = sp_read(s1, ad);
        let s3 = sp_write(s2, ad, sp_rmw_val(a, m, s2.cpu.p));
        let s4 = sp_tick(s3);
        NesView { cpu: sp_ill_regs(s4.cpu, a, m), ..s4 }
    }
}

/// One instruction after the opcode fetch, dispatched on the decomposed
/// opcode.
pub open spec fn sp_instr(s: NesView, i: u8) -> NesView {
    let c = op_c(i);
    if c == 0 {
        sp_c0(s, op_a(i), op_b(i))
    } else if c == 1 {
        sp_c1(s, op_a(i), op_b(i))
    } else if c == 2 {
        sp_c2(s, op_a(i), op_b(i))
    } else {
        sp_c3(s, op_a(i), op_b(i))
    }
}

/// The end of an instruction: the fetch counter resets and, when the
/// instruction consumed only its opcode byte, the single dummy read at `PC`
/// that every implied-operand instruction costs is performed.
pub open spec fn sp_finish(s: NesView) -> NesView {
    let s3 = NesView { fetched: 0, ..s };
    if s.fetched == 1 {
        sp_read(s3, s3.cpu.pc).0
    } else {
        s3
    }
}

/// One whole `step`: fetch the opcode; an unsupported opcode stops there
/// with the fetch counter reset. Otherwise execute the instruction and
/// finish it.
pub open spec fn sp_step(s: NesView) -> NesView {
    let (s1, i) = sp_fetch(s);
    if !op_supported(i) {
        NesView { fetched: 0, ..s1 }
    } else {
        sp_finish(sp_instr(s1, i))
    }
}

/// `step` succeeds exactly when the opcode at `PC` is supported.
pub open spec fn sp_step_ok(s: NesView) -> bool {
    op_supported(sp_fetch(s).1)
}

impl Nes {
    /// Zero-page addressing.
    fn addr_zp(&mut self) -> (r: u16)
        requires
            nes_inv(old(self)@),
            old(self)@.fetched == 1,
        ensures
            final(self)@ == am_zp(old(self)@).0,
            r == am_zp(old(self)@).1,
            nes_inv(final(self)@),
    {
        let z = self.fetch_pc();
        z as u16
    }

    /// Absolute addressing.
    fn addr_abs(&mut self) -> (r: u16)
        requires
            nes_inv(old(self)@),
            old(self)@.fetched == 1,
        ensures
            final(self)@ == am_abs(old(self)@).0,
            r == am_abs(old(self)@).1,
            nes_inv(final(self)@),
    {
        self.fetch_u16()
    }

    /// Zero-page indexed addressing.
    fn addr_zp_ix(&mut self, ix: u8) -> (r: u16)
        requires
            nes_inv(old(self)@),
            old(self)@.fetched == 1,
        ensures
            final(self)@ == am_zp_ix(old(self)@, ix).0,
            r == am_zp_ix(old(self)@, ix).1,
            nes_inv(final(self)@),
    {
        let z = self.fetch_pc();
        self.elapse_one();
        (z as u16 + ix as u16) % 256
    }

    /// `(zp,X)` addressing.
    fn addr_izx(&mut self) -> (r: u16)
        requires
            nes_inv(old(self)@),
            old(self)@.fetched == 1,
        ensures
            final(self)@ == am_izx(old(self)@).0,
            r == am_izx(old(self)@).1,
            nes_inv(final(self)@),
    {
        let x = self.cpu.x;
        let z = self.fetch_pc();
        self.elapse_one();
        let pl: u8 = ((z as u16 + x as u16) % 256) as u8;
        let lo = self.load(pl as u16);
        let hi = self.load((pl as u16 + 1) % 256);
        hi as u16 * 256 + lo as u16
    }

    /// `(zp),Y` addressing.
    fn addr_izy(&mut self, always: bool) -> (r: u16)
        requires
            nes_inv(old(self)@),
            old(self)@.fetched == 1,
        ensures
            final(self)@ == am_izy(old(self)@, always).0,
            r == am_izy(old(self)@, always).1,
            nes_inv(final(self)@),
    {
        let y = self.cpu.y;
        let z = self.fetch_pc();
        let lo = self.load(z as u16);
        let hi = self.load((z as u16 + 1) % 256);
        if always || lo as u16 + y as u16 > 255 {
            self.elapse_one();
        }
        wadd16(hi as u16 * 256 + lo as u16, y as u16)
    }

    /// `abs,X` / `abs,Y` addressing.
    fn addr_abs_ix(&mut self, ix: u8, always: bool) -> (r: u16)
        requires
            nes_inv(old(self)@),
            old(self)@.fetched == 1,
        ensures
            final(self)@ == am_abs_ix(old(self)@, ix, always).0,
            r == am_abs_ix(old(self)@, ix, always).1,
            nes_inv(final(self)@),
    {
        let base = self.fetch_u16();
        if always || base % 256 + ix as u16 > 255 {
            self.elapse_one();
        }
        wadd16(base, ix as u16)
    }

    /// Sets N and Z from a result byte.
    fn set_nz(&mut self, v: u8)
        ensures
            final(self)@ == (NesView {
                cpu: Cpu { p: sp_nz(old(self)@.cpu.p, v), ..old(self)@.cpu },
                ..old(self)@
            }),
    {
        self.cpu.p = (self.cpu.p & 0x7f) | (v & 0x80);
        self.cpu.p = (self.cpu.p & 0xfd) | (if v == 0 { 2u8 } else { 0u8 });
    }

    /// CMP/CPX/CPY: N,Z from the wrapping difference, C iff no borrow.
    fn compare(&mut self, r: u8, m: u8)
        ensures
            final(self)@ == (NesView {
                cpu: Cpu { p: sp_cmp(old(self)@.cpu.p, r, m), ..old(self)@.cpu },
                ..old(self)@
            }),
    {
        let d: u8 = ((r as u16 + 256 - m as u16) % 256) as u8;
        self.set_nz(d);
        self.cpu.p = (self.cpu.p & 0xfe) | (if m <= r { 1u8 } else { 0u8 });
    }

    /// ADC: result, carry-out, overflow, then N,Z.
    fn do_adc(&mut self, m: u8)
        ensures
            final(self)@ == (NesView {
                cpu: Cpu {
                    a: sp_adc_a(old(self)@.cpu.a, m, old(self)@.cpu.p),
                    p: sp_nz(
                        sp_adc_p(old(self)@.cpu.a, m, old(self)@.cpu.p),
                        sp_adc_a(old(self)@.cpu.a, m, old(self)@.cpu.p),
                    ),
                    ..old(self)@.cpu
                },
                ..old(self)@
            }),
    {
        let a = self.cpu.a;
        let sum: u16 = a as u16 + m as u16 + (self.cpu.p & 1) as u16;
        let r: u8 = (sum % 256) as u8;
        let carry: u8 = if sum > 255 { 1 } else { 0 };
        let ovf: u8 = if (!(a ^ m) & (a ^ r)) & 0x80 != 0 { 0x40 } else { 0 };
        self.cpu.p = (self.cpu.p & 0xbe) | carry | ovf;
        self.cpu.a = r;
        self.set_nz(r);
    }

    /// Applies a `c = 1` accumulator operation to the registers.
    fn apply_alu(&mut self, aop: u8, m: u8)
        requires
            aop < 8,
            aop != 4,
        ensures
            final(self)@ == (NesView {
                cpu: sp_alu_cpu(old(self)@.cpu, aop, m),
                ..old(self)@
            }),
    {
        if aop == 0 {
            self.cpu.a = self.cpu.a | m;
            let v = self.cpu.a;
            self.set_nz(v);
        } else if aop == 1 {
            self.cpu.a = self.cpu.a & m;
            let v = self.cpu.a;
            self.set_nz(v);
        } else if aop == 2 {
            self.cpu.a = self.cpu.a ^ m;
            let v = self.cpu.a;
            self.set_nz(v);
        } else if aop == 3 {
            self.do_adc(m);
        } else if aop == 5 {
            self.cpu.a = m;
            self.set_nz(m);
        } else if aop == 6 {
            let a = self.cpu.a;
            self.compare(a, m);
        } else {
            self.do_adc(m ^ 0xff);
        }
    }

    /// Applies the register/flag side of an illegal read-modify-write.
    fn apply_illegal(&mut self, aop: u8, m: u8)
        requires
            aop < 8,
            aop != 4,
            aop != 5,
        ensures
            final(self)@ == (NesView {
                cpu: sp_ill_regs(old(self)@.cpu, aop, m),
                ..old(self)@
            }),
    {
        if aop == 0 {
            self.cpu.a = self.cpu.a | (m << 1);
            let v = self.cpu.a;
            self.set_nz(v);
            self.cpu.p = (self.cpu.p & 0xfe) | (m >> 7);
        } else if aop == 1 {
            let v = (m << 1) | (self.cpu.p & 1);
            self.cpu.p = (self.cpu.p & 0xfe) | (m >> 7);
            self.cpu.a = self.cpu.a & v;
            let a2 = self.cpu.a;
            self.set_nz(a2);
        } else if aop == 2 {
            self.cpu.a = self.cpu.a ^ (m >> 1);
            let v = self.cpu.a;
            self.set_nz(v);
            self.cpu.p = (self.cpu.p & 0xfe) | (m & 1);
        } else if aop == 3 {
            let v = (self.cpu.p << 7) | (m >> 1);
            self.cpu.p = (self.cpu.p & 0xfe) | (m & 1);
            self.do_adc(v);
        } else if aop == 6 {
            let v: u8 = if m == 0 { 255 } else { m - 1 };
            let a = self.cpu.a;
            self.compare(a, v);
        } else {
            let v: u8 = if m == 255 { 0 } else { m + 1 };
            self.do_adc(v ^ 0xff);
        }
    }
}

/// The value and flag byte of a read-modify-write operation.
fn rmw_calc(aop: u8, m: u8, p: u8) -> (r: (u8, u8))
    requires
        aop < 8,
        aop != 4,
        aop != 5,
    ensures
        r.0 == sp_rmw_val(aop, m, p),
        r.1 == sp_rmw_p(aop, m, p),
{
    let v: u8 = if aop == 0 {
        m << 1
    } else if aop == 1 {
        (m << 1) | (p & 1)
    } else if aop == 2 {
        m >> 1
    } else if aop == 3 {
        (p << 7) | (m >> 1)
    } else if aop == 6 {
        if m == 0 { 255 } else { m - 1 }
    } else {
        if m == 255 { 0 } else { m + 1 }
    };
    let p1: u8 = if aop == 0 || aop == 1 {
        (p & 0xfe) | (m >> 7)
    } else if aop == 2 || aop == 3 {
        (p & 0xfe) | (m & 1)
    } else {
        p
    };
    let p2: u8 = (p1 & 0x7f) | (v & 0x80);
    let p3: u8 = (p2 & 0xfd) | (if v == 0 { 2u8 } else { 0u8 });
    (v, p3)
}

/// Sign extension of a relative branch offset.
fn sign_ext(b: u8) -> (r: u16)
    ensures
        r == sp_sign_ext(b),
{
    if b >= 0x80 {
        b as u16 + 0xff00
    } else {
        b as u16
    }
}

impl Nes {
    /// Fetches the operand of a `c = 0` read, by `b`.
    fn load_c0(&mut self, b: u8) -> (r: u8)
        requires
            nes_inv(old(self)@),
            old(self)@.fetched == 1,
            b == 0 || b == 1 || b == 3 || b == 5 || b == 7,
        ensures
            final(self)@ == sp_load_c0(old(self)@, b).0,
            r == sp_load_c0(old(self)@, b).1,
            nes_inv(final(self)@),
    {
        if b == 0 {
            self.fetch_pc()
        } else if b == 1 {
            let ad = self.addr_zp();
            self.load(ad)
        } else if b == 3 {
            let ad = self.addr_abs();
            self.load(ad)
        } else if b == 5 {
            let x = self.cpu.x;
            let ad = self.addr_zp_ix(x);
            self.load(ad)
        } else {
            let x = self.cpu.x;
            let ad = self.addr_abs_ix(x, false);
            self.load(ad)
        }
    }

    /// Fetches the operand of a `c = 1` accumulator operation, by `b`.
    fn load_c1(&mut self, b: u8) -> (r: u8)
        requires
            nes_inv(old(self)@),
            old(self)@.fetched == 1,
            b < 8,
        ensures
            final(self)@ == sp_load_c1(old(self)@, b).0,
            r == sp_load_c1(old(self)@, b).1,
            nes_inv(final(self)@),
    {
        if b == 0 {
            let ad = self.addr_izx();
            self.load(ad)
        } else if b == 1 {
            let ad = self.addr_zp();
            self.load(ad)
        } else if b == 2 {
            self.fetch_pc()
        } else if b == 3 {
            let ad = self.addr_abs();
            self.load(ad)
        } else if b == 4 {
            let ad = self.addr_izy(false);
            self.load(ad)
        } else if b == 5 {
            let x = self.cpu.x;
            let ad = self.addr_zp_ix(x);
            self.load(ad)
        } else if b == 6 {
            let y = self.cpu.y;
            let ad = self.addr_abs_ix(y, false);
            self.load(ad)
        } else {
            let x = self.cpu.x;
            let ad = self.addr_abs_ix(x, false);
            self.load(ad)
        }
    }

    /// Fetches the operand of LDX, by `b`.
    fn load_ldx(&mut self, b: u8) -> (r: u8)
        requires
            nes_inv(old(self)@),
            old(self)@.fetched == 1,
            b == 0 || b == 1 || b == 3 || b == 5 || b == 7,
        ensures
            final(self)@ == sp_load_ldx(old(self)@, b).0,
            r == sp_load_ldx(old(self)@, b).1,
            nes_inv(final(self)@),
    {
        if b == 0 {
            self.fetch_pc()
        } else if b == 1 {
            let ad = self.addr_zp();
            self.load(ad)
        } else if b == 3 {
            let ad = self.addr_abs();
            self.load(ad)
        } else if b == 5 {
            let y = self.cpu.y;
            let ad = self.addr_zp_ix(y);
            self.load(ad)
        } else {
            let y = self.cpu.y;
            let ad = self.addr_abs_ix(y, false);
            self.load(ad)
        }
    }

    /// Fetches the operand of LAX, by `b`.
    fn load_lax(&mut self, b: u8) -> (r: u8)
        requires
            nes_inv(old(self)@),
            old(self)@.fetched == 1,
            b < 8,
            b != 6,
        ensures
            final(self)@ == sp_load_lax(old(self)@, b).0,
            r == sp_load_lax(old(self)@, b).1,
            nes_inv(final(self)@),
    {
        if b == 0 {
            let ad = self.addr_izx();
            self.load(ad)
        } else if b == 1 {
            let ad = self.addr_zp();
            self.load(ad)
        } else if b == 2 {
            self.fetch_pc()
        } else if b == 3 {
            let ad = self.addr_abs();
            self.load(ad)
        } else if b == 4 {
            let ad = self.addr_izy(false);
            self.load(ad)
        } else if b == 5 {
            let y = self.cpu.y;
            let ad = self.addr_zp_ix(y);
            self.load(ad)
        } else {
            let y = self.cpu.y;
            let ad = self.addr_abs_ix(y, false);
            self.load(ad)
        }
    }

    /// Write-form addressing, by `b`.
    fn addr_w(&mut self, b: u8) -> (r: u16)
        requires
            nes_inv(old(self)@),
            old(self)@.fetched == 1,
            b < 8,
            b != 2,
        ensures
            final(self)@ == sp_addr_w(old(self)@, b).0,
            r == sp_addr_w(old(self)@, b).1,
            nes_inv(final(self)@),
    {
        if b == 0 {
            self.addr_izx()
        } else if b == 1 {
            self.addr_zp()
        } else if b == 3 {
            self.addr_abs()
        } else if b == 4 {
            self.addr_izy(true)
        } else if b == 5 {
            let x = self.cpu.x;
            self.addr_zp_ix(x)
        } else if b == 6 {
            let y = self.cpu.y;
            self.addr_abs_ix(y, true)
        } else {
            let x = self.cpu.x;
            self.addr_abs_ix(x, true)
        }
    }

    /// Read-modify-write addressing, by `b`.
    fn addr_rmw(&mut self, b: u8) -> (r: u16)
        requires
            nes_inv(old(self)@),
            old(self)@.fetched == 1,
            b == 1 || b == 3 || b == 5 || b == 7,
        ensures
            final(self)@ == sp_addr_rmw(old(self)@, b).0,
            r == sp_addr_rmw(old(self)@, b).1,
            nes_inv(final(self)@),
    {
        if b == 1 {
            self.addr_zp()
        } else if b == 3 {
            self.addr_abs()
        } else if b == 5 {
            let x = self.cpu.x;
            self.addr_zp_ix(x)
        } else {
            let x = self.cpu.x;
            self.addr_abs_ix(x, true)
        }
    }

    /// SAX addressing, by `b`.
    fn addr_sax(&mut self, b: u8) -> (r: u16)
        requires
            nes_inv(old(self)@),
            old(self)@.fetched == 1,
            b == 0 || b == 1 || b == 3 || b == 5,
        ensures
            final(self)@ == sp_addr_sax(old(self)@, b).0,
            r == sp_addr_sax(old(self)@, b).1,
            nes_inv(final(self)@),
    {
        if b == 0 {
            self.addr_izx()
        } else if b == 1 {
            self.addr_zp()
        } else if b == 3 {
            self.addr_abs()
        } else {
            let y = self.cpu.y;
            self.addr_zp_ix(y)
        }
    }

    /// Executes a `c = 0` instruction after the opcode fetch.
    #[verifier::rlimit(100)]
    #[verifier::spinoff_prover]
    fn exec_c0(&mut self, a: u8, b: u8)
        requires
            nes_inv(old(self)@),
            old(self)@.fetched == 1,
            a < 8,
            b < 8,
            !(a == 0 && b == 0),
            !(a == 4 && b == 7),
        ensures
            final(self)@ == sp_c0(old(self)@, a, b),
            nes_inv(final(self)@),
    {
        if b == 0 {
            if a == 1 {
                let ret = inc16(self.cpu.pc);
                self.push_u16(ret);
                let t = self.fetch_u16();
                self.cpu.pc = t;
                self.elapse_one();
            } else if a == 2 {
                let v = self.pop();
                self.cpu.p = (v & 0xef) | 0x20;
                let t = self.pop_u16();
                self.cpu.pc = t;
                self.elapse_one();
            } else if a == 3 {
                let t = self.pop_u16();
                self.cpu.pc = inc16(t);
                self.elapse_one();
                self.elapse_one();
            } else if a == 4 {
                let _ = self.fetch_pc();
            } else if a == 5 {
                let m = self.fetch_pc();
                self.cpu.y = m;
                self.set_nz(m);
            } else if a == 6 {
                let y = self.cpu.y;
                let m = self.fetch_pc();
                self.compare(y, m);
            } else {
                let x = self.cpu.x;
                let m = self.fetch_pc();
                self.compare(x, m);
            }
        } else if b == 2 {
            if a == 0 {
                let v = self.cpu.p | 0x30;
                self.push(v);
            } else if a == 1 {
                let v = self.pop();
                self.cpu.p = (v & 0xef) | 0x20;
                self.elapse_one();
            } else if a == 2 {
                let v = self.cpu.a;
                self.push(v);
            } else if a == 3 {
                let v = self.pop();
                self.cpu.a = v;
                self.set_nz(v);
                self.elapse_one();
            } else if a == 4 {
                self.cpu.y = if self.cpu.y == 0 { 255 } else { self.cpu.y - 1 };
                let v = self.cpu.y;
                self.set_nz(v);
            } else if a == 5 {
                self.cpu.y = self.cpu.a;
                let v = self.cpu.y;
                self.set_nz(v);
            } else if a == 6 {
                self.cpu.y = if self.cpu.y == 255 { 0 } else { self.cpu.y + 1 };
                let v = self.cpu.y;
                self.set_nz(v);
            } else {
                self.cpu.x = if self.cpu.x == 255 { 0 } else { self.cpu.x + 1 };
                let v = self.cpu.x;
                self.set_nz(v);
            }
        } else if b == 4 {
            let p = self.cpu.p;
            let sel = a / 2;
            let bitv: u8 = if sel == 0 {
                (p >> 7) & 1
            } else if sel == 1 {
                (p >> 6) & 1
            } else if sel == 2 {
                p & 1
            } else {
                (p >> 1) & 1
            };
            let off = self.fetch_pc();
            if bitv == a % 2 {
                let t = wadd16(self.cpu.pc, sign_ext(off));
                let cross = self.cpu.pc / 256 != t / 256;
                self.elapse_one();
                if cross {
                    self.elapse_one();
                }
                self.cpu.pc = t;
            }
        } else if b == 6 {
            if a == 0 {
                self.cpu.p = self.cpu.p & 0xfe;
            } else if a == 1 {
                self.cpu.p = self.cpu.p | 0x01;
            } else if a == 2 {
                self.cpu.p = self.cpu.p & 0xfb;
            } else if a == 3 {
                self.cpu.p = self.cpu.p | 0x04;
            } else if a == 4 {
                self.cpu.a = self.cpu.y;
                let v = self.cpu.a;
                self.set_nz(v);
            } else if a == 5 {
                self.cpu.p = self.cpu.p & 0xbf;
            } else if a == 6 {
                self.cpu.p = self.cpu.p & 0xf7;
            } else {
                self.cpu.p = self.cpu.p | 0x08;
            }
        } else if a == 1 && (b == 1 || b == 3) {
            let ad = if b == 1 {
                self.addr_zp()
            } else {
                self.addr_abs()
            };
            let m = self.load(ad);
            let acc = self.cpu.a;
            self.cpu.p = (self.cpu.p & 0x3f) | (m & 0xc0);
            self.cpu.p = (self.cpu.p & 0xfd) | (if (acc & m) == 0 { 2u8 } else { 0u8 });
        } else if a == 2 && b == 3 {
            let t = self.fetch_u16();
            self.cpu.pc = t;
        } else if a == 3 && b == 3 {
            let ind = self.fetch_u16();
            let lo = self.load(ind);
            let ha: u16 = (ind / 256) * 256 + ((ind % 256) + 1) % 256;
            let hi = self.load(ha);
            self.cpu.pc = hi as u16 * 256 + lo as u16;
        } else if a == 4 {
            let y = self.cpu.y;
            let ad = if b == 1 {
                self.addr_zp()
            } else if b == 3 {
                self.addr_abs()
            } else {
                let x = self.cpu.x;
                self.addr_zp_ix(x)
            };
            self.store(ad, y);
        } else if a == 5 {
            let m = self.load_c0(b);
            self.cpu.y = m;
            self.set_nz(m);
        } else if (a == 6 || a == 7) && (b == 1 || b == 3) {
            let r = if a == 6 {
                self.cpu.y
            } else {
                self.cpu.x
            };
            let m = self.load_c0(b);
            self.compare(r, m);
        } else {
            let _ = self.load_c0(b);
        }
    }

    /// Executes a `c = 1` instruction after the opcode fetch.
    #[verifier::rlimit(100)]
    #[verifier::spinoff_prover]
    fn exec_c1(&mut self, a: u8, b: u8)
        requires
            nes_inv(old(self)@),
            old(self)@.fetched == 1,
            a < 8,
            b < 8,
        ensures
            final(self)@ == sp_c1(old(self)@, a, b),
            nes_inv(final(self)@),
    {
        if a == 4 {
            if b == 2 {
                let _ = self.fetch_pc();
            } else {
                let v = self.cpu.a;
                let ad = self.addr_w(b);
                self.store(ad, v);
            }
        } else {
            let m = self.load_c1(b);
            self.apply_alu(a, m);
        }
    }

    /// Executes a `c = 2` instruction after the opcode fetch.
    #[verifier::rlimit(100)]
    #[verifier::spinoff_prover]
    fn exec_c2(&mut self, a: u8, b: u8)
        requires
            nes_inv(old(self)@),
            old(self)@.fetched == 1,
            a < 8,
            b < 8,
            !(a <= 3 && b == 0),
            b != 4,
            !(a == 4 && b == 7),
        ensures
            final(self)@ == sp_c2(old(self)@, a, b),
            nes_inv(final(self)@),
    {
        if (a == 4 || a == 6 || a == 7) && b == 0 {
            let _ = self.fetch_pc();
        } else if a == 4 {
            if b == 1 {
                let x = self.cpu.x;
                let ad = self.addr_zp();
                self.store(ad, x);
            } else if b == 2 {
                self.cpu.a = self.cpu.x;
                let v = self.cpu.a;
                self.set_nz(v);
            } else if b == 3 {
                let x = self.cpu.x;
                let ad = self.addr_abs();
                self.store(ad, x);
            } else if b == 5 {
                let x = self.cpu.x;
                let y = self.cpu.y;
                let ad = self.addr_zp_ix(y);
                self.store(ad, x);
            } else {
                self.cpu.s = self.cpu.x;
            }
        } else if a == 5 {
            if b == 2 {
                self.cpu.x = self.cpu.a;
                let v = self.cpu.x;
                self.set_nz(v);
            } else if b == 6 {
                self.cpu.x = self.cpu.s;
                let v = self.cpu.x;
                self.set_nz(v);
            } else {
                let m = self.load_ldx(b);
                self.cpu.x = m;
                self.set_nz(m);
            }
        } else if a == 6 && b == 2 {
            self.cpu.x = if self.cpu.x == 0 { 255 } else { self.cpu.x - 1 };
            let v = self.cpu.x;
            self.set_nz(v);
        } else if a == 7 && b == 2 {
        } else if b == 6 {
        } else if b == 2 {
            let m = self.cpu.a;
            let pr = self.cpu.p;
            let vp = rmw_calc(a, m, pr);
            self.cpu.p = vp.1;
            self.cpu.a = vp.0;
        } else {
            let ad = self.addr_rmw(b);
            let m = self.load(ad);
            let pr = self.cpu.p;
            let vp = rmw_calc(a, m, pr);
            self.cpu.p = vp.1;
            self.elapse_one();
            self.store(ad, vp.0);
        }
    }

    /// Executes a `c = 3` instruction after the opcode fetch.
    #[verifier::rlimit(100)]
    #[verifier::spinoff_prover]
    fn exec_c3(&mut self, a: u8, b: u8)
        requires
            nes_inv(old(self)@),
            old(self)@.fetched == 1,
            a < 8,
            b < 8,
            !(b == 2 && a != 5 && a != 7),
            !(a == 4 && (b == 4 || b == 6 || b == 7)),
            !(a == 5 && b == 6),
        ensures
            final(self)@ == sp_c3(old(self)@, a, b),
            nes_inv(final(self)@),
    {
        if a == 5 {
            let m = self.load_lax(b);
            self.cpu.a = m;
            self.cpu.x = m;
            self.set_nz(m);
        } else if a == 7 && b == 2 {
            let m = self.fetch_pc();
            self.apply_alu(7, m);
        } else if a == 4 {
            let v = self.cpu.a & self.cpu.x;
            let ad = self.addr_sax(b);
            self.store(ad, v);
        } else {
            let ad = self.addr_w(b);
            let m = self.load(ad);
            let pr = self.cpu.p;
            let vp = rmw_calc(a, m, pr);
            self.store(ad, vp.0);
            self.elapse_one();
            self.apply_illegal(a, m);
        }
    }

    /// The end of an instruction: reset the fetch counter, then the dummy
    /// read at `PC` when only the opcode byte was fetched.
    #[verifier::rlimit(100)]
    #[verifier::spinoff_prover]
    fn finish_instr(&mut self)
        requires
            nes_inv(old(self)@),
        ensures
            final(self)@ == sp_finish(old(self)@),
            nes_inv(final(self)@),
            final(self)@.fetched == 0,
    {
        let f = self.fetched_bytes;
        self.fetched_bytes = 0;
        if f == 1 {
            let _ = self.load(self.cpu.pc);
        }
    }

    /// Fetch, decode and execute one instruction, exactly as `sp_step`
    /// describes; an unsupported opcode is refused right after its fetch.
    #[verifier::rlimit(100)]
    #[verifier::spinoff_prover]
    pub(crate) fn step_everything(&mut self) -> (r: Result<(), NesError>)
        requires
            nes_inv(old(self)@),
            old(self)@.fetched == 0,
        ensures
            final(self)@ == sp_step(old(self)@),
            r is Ok <==> sp_step_ok(old(self)@),
            nes_inv(final(self)@),
            final(self)@.fetched == 0,
    {
        let ghost s0 = self@;
        let inst = self.fetch_pc();
        let ghost s1 = self@;
        let a: u8 = inst / 32;
        let b: u8 = (inst / 4) % 8;
        let c: u8 = inst % 4;
        let supported: bool = if c == 0 {
            !((a == 0 && b == 0) || (a == 4 && b == 7))
        } else if c == 1 {
            true
        } else if c == 2 {
            !((a <= 3 && b == 0) || b == 4 || (a == 4 && b == 7))
        } else {
            !((b == 2 && a != 5 && a != 7) || (a == 4 && (b == 4 || b == 6 || b == 7)) || (a == 5
                && b == 6))
        };
        proof {
            assert(a == op_a(inst) && b == op_b(inst) && c == op_c(inst));
            assert(supported == op_supported(inst));
        }
        if !supported {
            self.fetched_bytes = 0;
            return Err(NesError::Jam);
        }
        if c == 0 {
            self.exec_c0(a, b);
        } else if c == 1 {
            self.exec_c1(a, b);
        } else if c == 2 {
            self.exec_c2(a, b);
        } else {
            self.exec_c3(a, b);
        }
        proof {
            assert(self@ == sp_instr(s1, inst));
        }
        self.finish_instr();
        Ok(())
    }

    /// Runs one instruction. `Err(NesError::Jam)` reports a JAM/KIL or
    /// unimplemented opcode: the opcode byte has been fetched (one cycle)
    /// and nothing else has changed.
    pub fn step(&mut self) -> (r: Result<(), NesError>)
        requires
            nes_inv(old(self)@),
            old(self)@.fetched == 0,
        ensures
            final(self)@ == sp_step(old(self)@),
            r is Ok <==> sp_step_ok(old(self)@),
            nes_inv(final(self)@),
            final(self)@.fetched == 0,
    {
        self.step_everything()
    }
}

} // verus!
