//! The machine's stated laws, proved over the model.
//!
//! Each public proof function here states one property of the emulated
//! machine — stack discipline, the pushed status byte, the PPU timer's
//! bounds and odd-frame skip, open-bus behaviour, the push/pop round
//! trips, the addressing quirks, branch timing and header round-tripping —
//! and proves it from the spec functions that the executable code is
//! verified against.

use vstd::prelude::*;

use crate::bus::{
    nes_inv, sp_dec8, sp_fetch, sp_fetch16, sp_inc8, sp_inc16, sp_pop, sp_pop16, sp_push,
    sp_push16, sp_read, sp_status_byte, sp_tick, sp_write, NesView,
};
use crate::cart::sp_prg_load;
use crate::cpu::{sp_nz, sp_sign_ext};
use crate::ines::{
    ines_alt_nt, ines_chr_units, ines_has_magic, ines_has_trainer, ines_is_nes2, ines_mapper_id,
    ines_prg_units, ines_submapper, ines_vert_mirror, sp_header16,
};
use crate::interp::{
    am_abs, am_abs_ix, am_izx, am_izy, am_zp, am_zp_ix, op_a, op_b, op_c, op_supported,
    sp_addr_rmw, sp_addr_sax, sp_addr_w, sp_branch_taken, sp_c0, sp_c1, sp_c2, sp_c3, sp_instr,
    sp_izx_hi_addr, sp_izx_lo_addr, sp_jmp_ind_hi, sp_load_c0, sp_load_c1, sp_load_ldx,
    sp_load_lax, sp_step,
};
use vstd::arithmetic::div_mod::{lemma_fundamental_div_mod_converse, lemma_mod_breakdown};
use crate::ppu::{ppu_in_frame, sp_ppu_dot, PpuView};

verus! {

/// A read at this address is unmapped or write-only: the APU/IO range, a
/// PPU register other than status and data, or a cartridge address the
/// mapper leaves open.
pub open spec fn read_is_unmapped(s: NesView, addr: u16) -> bool {
    if addr < 0x2000 {
        false
    } else if addr < 0x4000 {
        addr % 8 != 2 && addr % 8 != 7
    } else if addr < 0x4020 {
        true
    } else {
        sp_prg_load(s.cart, addr) is None
    }
}

/// One CPU cycle never touches the CPU registers, the RAM, the cartridge,
/// the open-bus latch or the fetch counter, and it keeps the PPU inside
/// its frame.
#[verifier::rlimit(100)]
#[verifier::spinoff_prover]
pub proof fn lemma_tick_effects(s: NesView)
    requires
        nes_inv(s),
    ensures
        nes_inv(sp_tick(s)),
        sp_tick(s).cpu == s.cpu,
        sp_tick(s).iram == s.iram,
        sp_tick(s).cart == s.cart,
        sp_tick(s).open_bus == s.open_bus,
        sp_tick(s).fetched == s.fetched,
        s.cycles < u64::MAX ==> sp_tick(s).cycles == s.cycles + 1,
{
}

/// A bus load elapses exactly one cycle and leaves the CPU registers, the
/// RAM, the cartridge and the fetch counter alone.
#[verifier::rlimit(100)]
#[verifier::spinoff_prover]
pub proof fn lemma_read_effects(s: NesView, addr: u16)
    requires
        nes_inv(s),
    ensures
        nes_inv(sp_read(s, addr).0),
        sp_read(s, addr).0.cpu == s.cpu,
        sp_read(s, addr).0.iram == s.iram,
        sp_read(s, addr).0.cart == s.cart,
        sp_read(s, addr).0.fetched == s.fetched,
        s.cycles < u64::MAX ==> sp_read(s, addr).0.cycles == s.cycles + 1,
{
    lemma_tick_effects(s);
}

/// Open bus, stated of every read: a load from an unmapped or write-only
/// address returns the byte the latch holds — the most recent successfully
/// read byte — and leaves the latch as it is, so any two successful reads
/// around it see it unchanged.
pub proof fn lemma_open_bus_unmapped(s: NesView, addr: u16)
    requires
        nes_inv(s),
        read_is_unmapped(s, addr),
    ensures
        sp_read(s, addr).1 == s.open_bus,
        sp_read(s, addr).0.open_bus == s.open_bus,
{
    lemma_tick_effects(s);
}

/// The latch rule: a successful (mapped) read hands out some byte and
/// stores exactly that byte in the open-bus latch.
pub proof fn lemma_open_bus_latch(s: NesView, addr: u16)
    requires
        nes_inv(s),
        !read_is_unmapped(s, addr),
    ensures
        sp_read(s, addr).0.open_bus == sp_read(s, addr).1,
{
    lemma_tick_effects(s);
}

/// Stack pushes write at `$0100 | S` — inside the internal RAM's page 1 —
/// and then decrement `S` modulo 256.
pub proof fn lemma_stack_push(s: NesView, v: u8)
    requires
        nes_inv(s),
    ensures
        sp_push(s, v).iram == s.iram.update(0x100 + s.cpu.s, v),
        sp_push(s, v).cpu.s == sp_dec8(s.cpu.s),
        sp_push(s, v).cpu.pc == s.cpu.pc,
        sp_push(s, v).cpu.a == s.cpu.a,
        sp_push(s, v).cpu.p == s.cpu.p,
        nes_inv(sp_push(s, v)),
{
    lemma_tick_effects(s);
    assert((0x100 + s.cpu.s) as u16 as int % 0x800 == 0x100 + s.cpu.s);
}

/// Stack pops increment `S` modulo 256 and then read at `$0100 | S`.
pub proof fn lemma_stack_pop(s: NesView)
    requires
        nes_inv(s),
    ensures
        sp_pop(s).1 == s.iram[0x100 + sp_inc8(s.cpu.s)],
        sp_pop(s).0.cpu.s == sp_inc8(s.cpu.s),
        sp_pop(s).0.iram == s.iram,
        nes_inv(sp_pop(s).0),
{
    let s1 = NesView { cpu: crate::cpu::Cpu { s: sp_inc8(s.cpu.s), ..s.cpu }, ..s };
    lemma_tick_effects(s1);
    assert((0x100 + s1.cpu.s) as u16 as int % 0x800 == 0x100 + s1.cpu.s);
}

/// A value pushed and then popped comes back unchanged, with `S` restored:
/// the pop reads the very byte the push wrote.
#[verifier::rlimit(100)]
#[verifier::spinoff_prover]
pub proof fn lemma_push_pop_round_trip(s: NesView, v: u8)
    requires
        nes_inv(s),
    ensures
        sp_pop(sp_push(s, v)).1 == v,
        sp_pop(sp_push(s, v)).0.cpu.s == s.cpu.s,
{
    lemma_stack_push(s, v);
    lemma_stack_pop(sp_push(s, v));
    assert(sp_inc8(sp_dec8(s.cpu.s)) == s.cpu.s);
    assert(sp_push(s, v).iram[0x100 + s.cpu.s] == v);
}

/// Fetching an instruction byte costs one cycle, advances `PC` by one
/// (modulo $10000), raises the fetch counter and touches no other
/// register, the RAM or the cartridge.
#[verifier::rlimit(100)]
#[verifier::spinoff_prover]
pub proof fn lemma_fetch_effects(s: NesView)
    requires
        nes_inv(s),
    ensures
        nes_inv(sp_fetch(s).0),
        sp_fetch(s).0.cpu.a == s.cpu.a,
        sp_fetch(s).0.cpu.x == s.cpu.x,
        sp_fetch(s).0.cpu.y == s.cpu.y,
        sp_fetch(s).0.cpu.s == s.cpu.s,
        sp_fetch(s).0.cpu.p == s.cpu.p,
        sp_fetch(s).0.cpu.pc == sp_inc16(s.cpu.pc),
        sp_fetch(s).0.iram == s.iram,
        sp_fetch(s).0.cart == s.cart,
        sp_fetch(s).0.fetched == s.fetched + 1,
        s.cycles < u64::MAX ==> sp_fetch(s).0.cycles == s.cycles + 1,
{
    lemma_read_effects(s, s.cpu.pc);
}

/// Branch timing, after the opcode fetch: one cycle for the offset fetch,
/// one more when the branch is taken, and a third when the taken branch
/// crosses a page.
#[verifier::rlimit(100)]
#[verifier::spinoff_prover]
pub proof fn lemma_branch_cycles(s: NesView, a: u8)
    requires
        nes_inv(s),
        a < 8,
        s.cycles + 4 < u64::MAX,
    ensures
        ({
            let (s1, off) = sp_fetch(s);
            let t = ((s1.cpu.pc + sp_sign_ext(off)) % 0x10000) as u16;
            let cross = s1.cpu.pc / 256 != t / 256;
            &&& sp_c0(s, a, 4).fetched == s.fetched + 1
            &&& nes_inv(sp_c0(s, a, 4))
            &&& sp_c0(s, a, 4).cycles == s.cycles + (if !sp_branch_taken(s.cpu.p, a) {
                1int
            } else if cross {
                3int
            } else {
                2int
            })
        }),
{
    lemma_fetch_effects(s);
    let s1 = sp_fetch(s).0;
    lemma_tick_effects(s1);
    lemma_tick_effects(sp_tick(s1));
}

/// Branch timing over a whole `step` (the documented counts): 2 cycles not
/// taken, 3 taken, 4 when the taken branch crosses a page boundary — the
/// cross costs exactly one cycle beyond the taken-branch cost.
#[verifier::rlimit(100)]
#[verifier::spinoff_prover]
pub proof fn lemma_step_branch_cycles(s: NesView)
    requires
        nes_inv(s),
        s.fetched == 0,
        s.cycles + 8 < u64::MAX,
        op_c(sp_fetch(s).1) == 0,
        op_b(sp_fetch(s).1) == 4,
    ensures
        ({
            let (s1, i) = sp_fetch(s);
            let (s2, off) = sp_fetch(s1);
            let t = ((s2.cpu.pc + sp_sign_ext(off)) % 0x10000) as u16;
            let cross = s2.cpu.pc / 256 != t / 256;
            sp_step(s).cycles == s.cycles + (if !sp_branch_taken(s.cpu.p, op_a(i)) {
                2int
            } else if cross {
                4int
            } else {
                3int
            })
        }),
{
    let (s1, i) = sp_fetch(s);
    lemma_fetch_effects(s);
    assert(op_supported(i));
    lemma_branch_cycles(s1, op_a(i));
    assert(sp_instr(s1, i) == sp_c0(s1, op_a(i), 4));
    assert(sp_c0(s1, op_a(i), 4).fetched == 2);
}

/// The implied one-byte operations of the `c = 0` group (the flag
/// operations, TYA, DEY/TAY/INY/INX) cost exactly 2 cycles: the opcode
/// fetch and the dummy read at `PC`.
#[verifier::rlimit(100)]
#[verifier::spinoff_prover]
pub proof fn lemma_step_implied_cycles(s: NesView)
    requires
        nes_inv(s),
        s.fetched == 0,
        s.cycles + 8 < u64::MAX,
        op_c(sp_fetch(s).1) == 0,
        op_b(sp_fetch(s).1) == 6 || (op_b(sp_fetch(s).1) == 2 && op_a(sp_fetch(s).1) >= 4),
    ensures
        sp_step(s).cycles == s.cycles + 2,
{
    let (s1, i) = sp_fetch(s);
    lemma_fetch_effects(s);
    assert(op_supported(i));
    let s2 = sp_instr(s1, i);
    assert(s2.cycles == s1.cycles && s2.fetched == 1 && nes_inv(s2));
    lemma_read_effects(NesView { fetched: 0, ..s2 }, s2.cpu.pc);
}

/// The `c = 1` accumulator family costs the documented counts in its
/// unindexed modes, for every operation including the stores: 2 cycles
/// immediate, 3 zero page, 4 absolute.
#[verifier::rlimit(100)]
#[verifier::spinoff_prover]
pub proof fn lemma_step_c1_cycles(s: NesView)
    requires
        nes_inv(s),
        s.fetched == 0,
        s.cycles + 8 < u64::MAX,
        op_c(sp_fetch(s).1) == 1,
        op_b(sp_fetch(s).1) == 1 || op_b(sp_fetch(s).1) == 2 || op_b(sp_fetch(s).1) == 3,
    ensures
        sp_step(s).cycles == s.cycles + (if op_b(sp_fetch(s).1) == 1 {
            3int
        } else if op_b(sp_fetch(s).1) == 2 {
            2int
        } else {
            4int
        }),
{
    let (s1, i) = sp_fetch(s);
    lemma_fetch_effects(s);
    assert(op_supported(i));
    let b = op_b(i);
    if b == 1 {
        lemma_fetch_effects(s1);
        let sz = sp_fetch(s1).0;
        lemma_read_effects(sz, sp_fetch(s1).1 as u16);
        if op_a(i) == 4 {
            lemma_write_effects(sz, sp_fetch(s1).1 as u16, s1.cpu.a);
        }
    } else if b == 2 {
        lemma_fetch_effects(s1);
    } else {
        lemma_fetch_effects(s1);
        lemma_fetch_effects(sp_fetch(s1).0);
        let sz = sp_fetch(sp_fetch(s1).0).0;
        let ad = ((sp_fetch(sp_fetch(s1).0).1 * 256 + sp_fetch(s1).1) as u16);
        lemma_read_effects(sz, ad);
        if op_a(i) == 4 {
            lemma_write_effects(sz, ad, s1.cpu.a);
        }
    }
}

/// The always-penalised store forms: STA `abs,X` / `abs,Y` costs 5 cycles
/// and STA `(zp),Y` costs 6, page cross or not — the documented extra
/// cycle is unconditional for stores.
#[verifier::rlimit(100)]
#[verifier::spinoff_prover]
pub proof fn lemma_step_sta_indexed_cycles(s: NesView)
    requires
        nes_inv(s),
        s.fetched == 0,
        s.cycles + 8 < u64::MAX,
        op_c(sp_fetch(s).1) == 1,
        op_a(sp_fetch(s).1) == 4,
        op_b(sp_fetch(s).1) == 4 || op_b(sp_fetch(s).1) == 6 || op_b(sp_fetch(s).1) == 7,
    ensures
        sp_step(s).cycles == s.cycles + (if op_b(sp_fetch(s).1) == 4 {
            6int
        } else {
            5int
        }),
{
    let (s1, i) = sp_fetch(s);
    lemma_fetch_effects(s);
    assert(op_supported(i));
    let b = op_b(i);
    if b == 4 {
        lemma_fetch_effects(s1);
        let sa = sp_fetch(s1).0;
        let z = sp_fetch(s1).1;
        lemma_read_effects(sa, z as u16);
        let sb = sp_read(sa, z as u16).0;
        lemma_read_effects(sb, ((z + 1) % 256) as u16);
        let sc = sp_read(sb, ((z + 1) % 256) as u16).0;
        lemma_tick_effects(sc);
        let (sd, ad) = crate::interp::am_izy(s1, true);
        lemma_write_effects(sd, ad, s1.cpu.a);
    } else {
        let ix = if b == 6 { s1.cpu.y } else { s1.cpu.x };
        lemma_fetch_effects(s1);
        lemma_fetch_effects(sp_fetch(s1).0);
        let sa = sp_fetch(sp_fetch(s1).0).0;
        lemma_tick_effects(sa);
        let (sd, ad) = crate::interp::am_abs_ix(s1, ix, true);
        lemma_write_effects(sd, ad, s1.cpu.a);
    }
}

/// A zero-page read-modify-write (official or illegal) costs 5 cycles:
/// opcode, operand, read, the internal modify cycle, write.
#[verifier::rlimit(100)]
#[verifier::spinoff_prover]
pub proof fn lemma_step_rmw_zp_cycles(s: NesView)
    requires
        nes_inv(s),
        s.fetched == 0,
        s.cycles + 8 < u64::MAX,
        op_c(sp_fetch(s).1) == 2 || op_c(sp_fetch(s).1) == 3,
        op_b(sp_fetch(s).1) == 1,
        op_a(sp_fetch(s).1) != 4,
        op_a(sp_fetch(s).1) != 5,
    ensures
        sp_step(s).cycles == s.cycles + 5,
{
    let (s1, i) = sp_fetch(s);
    lemma_fetch_effects(s);
    assert(op_supported(i));
    lemma_fetch_effects(s1);
    let sa = sp_fetch(s1).0;
    let z = sp_fetch(s1).1;
    lemma_read_effects(sa, z as u16);
    let sb = sp_read(sa, z as u16).0;
    if op_c(i) == 2 {
        let m = sp_read(sa, z as u16).1;
        let s3 = NesView {
            cpu: crate::cpu::Cpu {
                p: crate::cpu::sp_rmw_p(op_a(i), m, sb.cpu.p),
                ..sb.cpu
            },
            ..sb
        };
        lemma_tick_effects(s3);
        lemma_write_effects(sp_tick(s3), z as u16, crate::cpu::sp_rmw_val(op_a(i), m, sb.cpu.p));
    } else {
        let m = sp_read(sa, z as u16).1;
        lemma_write_effects(sb, z as u16, crate::cpu::sp_rmw_val(op_a(i), m, sb.cpu.p));
        let s3 = sp_write(sb, z as u16, crate::cpu::sp_rmw_val(op_a(i), m, sb.cpu.p));
        lemma_tick_effects(s3);
    }
}

/// The `$2002` status read: bit 7 of the returned byte is the VBlank flag
/// as of the access cycle (bits 5 and 6 report sprite overflow and
/// sprite-0 hit), and the read clears the flag and the shared write
/// toggle — so a following `$2002` read returns bit 7 clear unless the
/// timer passes scanline 241 dot 1 again in between.
#[verifier::rlimit(100)]
#[verifier::spinoff_prover]
pub proof fn lemma_status_read_clears_vblank(s: NesView, addr: u16)
    requires
        nes_inv(s),
        0x2000 <= addr < 0x4000,
        addr % 8 == 2,
    ensures
        sp_read(s, addr).1 >= 0x80 <==> sp_tick(s).ppu.vblank_flag,
        !sp_read(s, addr).0.ppu.vblank_flag,
        !sp_read(s, addr).0.ppu.w,
        !sp_tick(sp_read(s, addr).0).ppu.vblank_flag ==> sp_read(sp_read(s, addr).0, addr).1
            < 0x80,
{
    lemma_tick_effects(s);
    let s1 = sp_tick(s);
    assert(sp_read(s, addr).1 == sp_status_byte(s1.ppu));
    assert(sp_status_byte(s1.ppu) >= 0x80 <==> s1.ppu.vblank_flag);
    lemma_read_effects(s, addr);
    let t = sp_read(s, addr).0;
    assert(!t.ppu.vblank_flag && !t.ppu.w);
    lemma_tick_effects(t);
    let t1 = sp_tick(t);
    assert(sp_read(t, addr).1 == sp_status_byte(t1.ppu));
    assert(!t1.ppu.vblank_flag ==> sp_status_byte(t1.ppu) < 0x80);
}

/// The cycles of write-form addressing beyond the opcode fetch, by `b`.
pub open spec fn sp_count_addr_w(b: u8) -> int {
    if b == 0 || b == 4 {
        4int
    } else if b == 1 {
        1int
    } else if b == 3 || b == 5 {
        2int
    } else {
        3int
    }
}

/// The cycles of read-modify-write addressing, by `b`.
pub open spec fn sp_count_addr_rmw(b: u8) -> int {
    if b == 1 {
        1int
    } else if b == 3 || b == 5 {
        2int
    } else {
        3int
    }
}

/// The cycles of SAX addressing, by `b`.
pub open spec fn sp_count_addr_sax(b: u8) -> int {
    if b == 0 {
        4int
    } else if b == 1 {
        1int
    } else {
        2int
    }
}

/// One penalty cycle when adding an index to the low byte of the fetched
/// 16-bit base crosses a page (read forms only).
pub open spec fn sp_pen_abs(s: NesView, ix: u8) -> int {
    if sp_fetch16(s).1 % 256 + ix > 255 {
        1int
    } else {
        0int
    }
}

/// One penalty cycle when adding `Y` to the low byte of the fetched
/// zero-page pointer crosses a page (read forms only).
pub open spec fn sp_pen_izy(s: NesView) -> int {
    let (s1, z) = sp_fetch(s);
    if sp_read(s1, z as u16).1 + s.cpu.y > 255 {
        1int
    } else {
        0int
    }
}

/// A branch's cycles beyond its offset fetch: none when not taken, one
/// when taken, two when the taken branch crosses a page.
pub open spec fn sp_branch_extra(s: NesView, a: u8) -> int {
    let (s1, off) = sp_fetch(s);
    let t = ((s1.cpu.pc + sp_sign_ext(off)) % 0x10000) as u16;
    if !sp_branch_taken(s.cpu.p, a) {
        0int
    } else if s1.cpu.pc / 256 != t / 256 {
        2int
    } else {
        1int
    }
}

/// The cycles of a `c = 0` operand load, by `b`.
pub open spec fn sp_count_load_c0(s: NesView, b: u8) -> int {
    if b == 0 {
        1int
    } else if b == 1 {
        2int
    } else if b == 3 {
        3int
    } else if b == 5 {
        3int
    } else if b == 7 {
        3 + sp_pen_abs(s, s.cpu.x)
    } else {
        0int
    }
}

/// The cycles of a `c = 1` operand load, by `b`.
pub open spec fn sp_count_load_c1(s: NesView, b: u8) -> int {
    if b == 0 {
        5int
    } else if b == 1 {
        2int
    } else if b == 2 {
        1int
    } else if b == 3 {
        3int
    } else if b == 4 {
        4 + sp_pen_izy(s)
    } else if b == 5 {
        3int
    } else if b == 6 {
        3 + sp_pen_abs(s, s.cpu.y)
    } else {
        3 + sp_pen_abs(s, s.cpu.x)
    }
}

/// The cycles of an LDX operand load, by `b`.
pub open spec fn sp_count_load_ldx(s: NesView, b: u8) -> int {
    if b == 0 {
        1int
    } else if b == 1 {
        2int
    } else if b == 3 {
        3int
    } else if b == 5 {
        3int
    } else if b == 7 {
        3 + sp_pen_abs(s, s.cpu.y)
    } else {
        0int
    }
}

/// The cycles of a LAX operand load, by `b`.
pub open spec fn sp_count_load_lax(s: NesView, b: u8) -> int {
    if b == 0 {
        5int
    } else if b == 1 {
        2int
    } else if b == 2 {
        1int
    } else if b == 3 {
        3int
    } else if b == 4 {
        4 + sp_pen_izy(s)
    } else if b == 5 {
        3int
    } else {
        3 + sp_pen_abs(s, s.cpu.y)
    }
}

/// The cycles of a `c = 0` instruction beyond its opcode fetch.
pub open spec fn sp_count_c0(s: NesView, a: u8, b: u8) -> int {
    if b == 0 {
        if a == 1 {
            5int
        } else if a == 2 || a == 3 {
            4int
        } else {
            1int
        }
    } else if b == 2 {
        if a == 0 || a == 2 {
            1int
        } else if a == 1 || a == 3 {
            2int
        } else {
            0int
        }
    } else if b == 4 {
        1 + sp_branch_extra(s, a)
    } else if b == 6 {
        0int
    } else if a == 1 && (b == 1 || b == 3) {
        if b == 1 {
            2int
        } else {
            3int
        }
    } else if a == 2 && b == 3 {
        2int
    } else if a == 3 && b == 3 {
        4int
    } else if a == 4 {
        if b == 1 {
            2int
        } else {
            3int
        }
    } else {
        sp_count_load_c0(s, b)
    }
}

/// The cycles of a `c = 1` instruction beyond its opcode fetch.
pub open spec fn sp_count_c1(s: NesView, a: u8, b: u8) -> int {
    if a == 4 {
        if b == 2 {
            1int
        } else {
            sp_count_addr_w(b) + 1
        }
    } else {
        sp_count_load_c1(s, b)
    }
}

/// The cycles of a `c = 2` instruction beyond its opcode fetch.
pub open spec fn sp_count_c2(s: NesView, a: u8, b: u8) -> int {
    if b == 0 {
        1int
    } else if a == 4 {
        if b == 1 {
            2int
        } else if b == 3 || b == 5 {
            3int
        } else {
            0int
        }
    } else if a == 5 {
        if b == 2 || b == 6 {
            0int
        } else {
            sp_count_load_ldx(s, b)
        }
    } else if b == 2 || b == 6 {
        0int
    } else {
        sp_count_addr_rmw(b) + 3
    }
}

/// The cycles of a `c = 3` instruction beyond its opcode fetch.
pub open spec fn sp_count_c3(s: NesView, a: u8, b: u8) -> int {
    if a == 5 {
        sp_count_load_lax(s, b)
    } else if a == 7 && b == 2 {
        1int
    } else if a == 4 {
        sp_count_addr_sax(b) + 1
    } else if b == 2 {
        0int
    } else {
        sp_count_addr_w(b) + 3
    }
}

/// The instructions that consume only their opcode byte — these owe the
/// single dummy read at `PC` at the end of the instruction.
pub open spec fn sp_one_byte(i: u8) -> bool {
    let a = op_a(i);
    let b = op_b(i);
    let c = op_c(i);
    if c == 0 {
        b == 6 || b == 2 || (b == 0 && (a == 2 || a == 3))
    } else if c == 2 {
        b == 2 || b == 6
    } else {
        false
    }
}

/// The documented cycle count of the instruction about to execute: the
/// opcode fetch, the class's own table entry with its page-crossing and
/// taken-branch penalties, and the dummy read of a one-byte instruction.
pub open spec fn sp_documented_cycles(s: NesView) -> int {
    let (s1, i) = sp_fetch(s);
    let a = op_a(i);
    let b = op_b(i);
    let c = op_c(i);
    1 + (if c == 0 {
        sp_count_c0(s1, a, b)
    } else if c == 1 {
        sp_count_c1(s1, a, b)
    } else if c == 2 {
        sp_count_c2(s1, a, b)
    } else {
        sp_count_c3(s1, a, b)
    }) + (if sp_one_byte(i) {
        1int
    } else {
        0int
    })
}

/// Cycle and fetch counts of write-form addressing.
#[verifier::rlimit(100)]
#[verifier::spinoff_prover]
pub proof fn lemma_addr_w_cycles(s: NesView, b: u8)
    requires
        nes_inv(s),
        b < 8,
        b != 2,
        s.cycles + 8 < u64::MAX,
    ensures
        nes_inv(sp_addr_w(s, b).0),
        sp_addr_w(s, b).0.fetched == s.fetched + (if b == 3 || b == 6 || b == 7 {
            2int
        } else {
            1int
        }),
        sp_addr_w(s, b).0.cycles == s.cycles + sp_count_addr_w(b),
{
    lemma_fetch_effects(s);
    let f1 = sp_fetch(s).0;
    let z = sp_fetch(s).1;
    if b == 0 {
        lemma_tick_effects(f1);
        let t1 = sp_tick(f1);
        lemma_read_effects(t1, sp_izx_lo_addr(z, s.cpu.x));
        lemma_read_effects(sp_read(t1, sp_izx_lo_addr(z, s.cpu.x)).0, sp_izx_hi_addr(z, s.cpu.x));
    } else if b == 3 || b == 6 || b == 7 {
        lemma_fetch_effects(f1);
        let f2 = sp_fetch(f1).0;
        lemma_tick_effects(f2);
    } else if b == 4 {
        lemma_read_effects(f1, z as u16);
        let r1 = sp_read(f1, z as u16).0;
        lemma_read_effects(r1, ((z + 1) % 256) as u16);
        let r2 = sp_read(r1, ((z + 1) % 256) as u16).0;
        lemma_tick_effects(r2);
    } else {
        lemma_tick_effects(f1);
    }
}

/// Cycle and fetch counts of the `c = 1` operand loads, with their
/// page-crossing penalties.
#[verifier::rlimit(100)]
#[verifier::spinoff_prover]
pub proof fn lemma_load_c1_cycles(s: NesView, b: u8)
    requires
        nes_inv(s),
        b < 8,
        s.cycles + 8 < u64::MAX,
    ensures
        nes_inv(sp_load_c1(s, b).0),
        sp_load_c1(s, b).0.fetched == s.fetched + (if b == 3 || b == 6 || b == 7 {
            2int
        } else {
            1int
        }),
        sp_load_c1(s, b).0.cycles == s.cycles + sp_count_load_c1(s, b),
{
    lemma_fetch_effects(s);
    let f1 = sp_fetch(s).0;
    let z = sp_fetch(s).1;
    if b == 0 {
        lemma_tick_effects(f1);
        let t1 = sp_tick(f1);
        lemma_read_effects(t1, sp_izx_lo_addr(z, s.cpu.x));
        let r1 = sp_read(t1, sp_izx_lo_addr(z, s.cpu.x)).0;
        lemma_read_effects(r1, sp_izx_hi_addr(z, s.cpu.x));
        lemma_read_effects(am_izx(s).0, am_izx(s).1);
    } else if b == 1 {
        lemma_read_effects(f1, z as u16);
    } else if b == 2 {
    } else if b == 3 {
        lemma_fetch_effects(f1);
        lemma_read_effects(am_abs(s).0, am_abs(s).1);
    } else if b == 4 {
        lemma_read_effects(f1, z as u16);
        let r1 = sp_read(f1, z as u16).0;
        lemma_read_effects(r1, ((z + 1) % 256) as u16);
        let r2 = sp_read(r1, ((z + 1) % 256) as u16).0;
        lemma_tick_effects(r2);
        lemma_read_effects(am_izy(s, false).0, am_izy(s, false).1);
    } else if b == 5 {
        lemma_tick_effects(f1);
        lemma_read_effects(am_zp_ix(s, s.cpu.x).0, am_zp_ix(s, s.cpu.x).1);
    } else {
        lemma_fetch_effects(f1);
        let f2 = sp_fetch(f1).0;
        lemma_tick_effects(f2);
        let ix = if b == 6 { s.cpu.y } else { s.cpu.x };
        lemma_read_effects(am_abs_ix(s, ix, false).0, am_abs_ix(s, ix, false).1);
    }
}

/// Cycle and fetch counts of the `c = 0` operand loads.
#[verifier::rlimit(100)]
#[verifier::spinoff_prover]
pub proof fn lemma_load_c0_cycles(s: NesView, b: u8)
    requires
        nes_inv(s),
        b == 0 || b == 1 || b == 3 || b == 5 || b == 7,
        s.cycles + 8 < u64::MAX,
    ensures
        nes_inv(sp_load_c0(s, b).0),
        sp_load_c0(s, b).0.fetched == s.fetched + (if b == 3 || b == 7 {
            2int
        } else {
            1int
        }),
        sp_load_c0(s, b).0.cycles == s.cycles + sp_count_load_c0(s, b),
{
    lemma_fetch_effects(s);
    let f1 = sp_fetch(s).0;
    let z = sp_fetch(s).1;
    if b == 1 {
        lemma_read_effects(f1, z as u16);
    } else if b == 3 {
        lemma_fetch_effects(f1);
        lemma_read_effects(am_abs(s).0, am_abs(s).1);
    } else if b == 5 {
        lemma_tick_effects(f1);
        lemma_read_effects(am_zp_ix(s, s.cpu.x).0, am_zp_ix(s, s.cpu.x).1);
    } else if b == 7 {
        lemma_fetch_effects(f1);
        let f2 = sp_fetch(f1).0;
        lemma_tick_effects(f2);
        lemma_read_effects(am_abs_ix(s, s.cpu.x, false).0, am_abs_ix(s, s.cpu.x, false).1);
    }
}

/// Cycle and fetch counts of the LDX operand loads.
#[verifier::rlimit(100)]
#[verifier::spinoff_prover]
pub proof fn lemma_load_ldx_cycles(s: NesView, b: u8)
    requires
        nes_inv(s),
        b == 0 || b == 1 || b == 3 || b == 5 || b == 7,
        s.cycles + 8 < u64::MAX,
    ensures
        nes_inv(sp_load_ldx(s, b).0),
        sp_load_ldx(s, b).0.fetched == s.fetched + (if b == 3 || b == 7 {
            2int
        } else {
            1int
        }),
        sp_load_ldx(s, b).0.cycles == s.cycles + sp_count_load_ldx(s, b),
{
    lemma_fetch_effects(s);
    let f1 = sp_fetch(s).0;
    let z = sp_fetch(s).1;
    if b == 1 {
        lemma_read_effects(f1, z as u16);
    } else if b == 3 {
        lemma_fetch_effects(f1);
        lemma_read_effects(am_abs(s).0, am_abs(s).1);
    } else if b == 5 {
        lemma_tick_effects(f1);
        lemma_read_effects(am_zp_ix(s, s.cpu.y).0, am_zp_ix(s, s.cpu.y).1);
    } else if b == 7 {
        lemma_fetch_effects(f1);
        let f2 = sp_fetch(f1).0;
        lemma_tick_effects(f2);
        lemma_read_effects(am_abs_ix(s, s.cpu.y, false).0, am_abs_ix(s, s.cpu.y, false).1);
    }
}

/// Cycle and fetch counts of the LAX operand loads.
#[verifier::rlimit(100)]
#[verifier::spinoff_prover]
pub proof fn lemma_load_lax_cycles(s: NesView, b: u8)
    requires
        nes_inv(s),
        b < 8,
        b != 6,
        s.cycles + 8 < u64::MAX,
    ensures
        nes_inv(sp_load_lax(s, b).0),
        sp_load_lax(s, b).0.fetched == s.fetched + (if b == 3 || b == 7 {
            2int
        } else {
            1int
        }),
        sp_load_lax(s, b).0.cycles == s.cycles + sp_count_load_lax(s, b),
{
    lemma_fetch_effects(s);
    let f1 = sp_fetch(s).0;
    let z = sp_fetch(s).1;
    if b == 0 {
        lemma_tick_effects(f1);
        let t1 = sp_tick(f1);
        lemma_read_effects(t1, sp_izx_lo_addr(z, s.cpu.x));
        let r1 = sp_read(t1, sp_izx_lo_addr(z, s.cpu.x)).0;
        lemma_read_effects(r1, sp_izx_hi_addr(z, s.cpu.x));
        lemma_read_effects(am_izx(s).0, am_izx(s).1);
    } else if b == 1 {
        lemma_read_effects(f1, z as u16);
    } else if b == 3 {
        lemma_fetch_effects(f1);
        lemma_read_effects(am_abs(s).0, am_abs(s).1);
    } else if b == 4 {
        lemma_read_effects(f1, z as u16);
        let r1 = sp_read(f1, z as u16).0;
        lemma_read_effects(r1, ((z + 1) % 256) as u16);
        let r2 = sp_read(r1, ((z + 1) % 256) as u16).0;
        lemma_tick_effects(r2);
        lemma_read_effects(am_izy(s, false).0, am_izy(s, false).1);
    } else if b == 5 {
        lemma_tick_effects(f1);
        lemma_read_effects(am_zp_ix(s, s.cpu.y).0, am_zp_ix(s, s.cpu.y).1);
    } else {
        lemma_fetch_effects(f1);
        let f2 = sp_fetch(f1).0;
        lemma_tick_effects(f2);
        lemma_read_effects(am_abs_ix(s, s.cpu.y, false).0, am_abs_ix(s, s.cpu.y, false).1);
    }
}

/// A bus store elapses exactly one cycle, never touches the CPU registers,
/// the open-bus latch or the fetch counter, and changes the RAM only at
/// the written cell.
#[verifier::rlimit(100)]
#[verifier::spinoff_prover]
pub proof fn lemma_write_effects(s: NesView, addr: u16, v: u8)
    requires
        nes_inv(s),
    ensures
        nes_inv(sp_write(s, addr, v)),
        sp_write(s, addr, v).cpu == s.cpu,
        sp_write(s, addr, v).open_bus == s.open_bus,
        sp_write(s, addr, v).fetched == s.fetched,
        s.cycles < u64::MAX ==> sp_write(s, addr, v).cycles == s.cycles + 1,
        addr < 0x2000 ==> sp_write(s, addr, v).iram == s.iram.update(addr as int % 0x800, v),
        addr >= 0x2000 ==> sp_write(s, addr, v).iram == s.iram,
{
    lemma_tick_effects(s);
}

/// A push costs one cycle and fetches nothing.
#[verifier::rlimit(100)]
#[verifier::spinoff_prover]
pub proof fn lemma_push_cycles(s: NesView, v: u8)
    requires
        nes_inv(s),
        s.cycles + 2 < u64::MAX,
    ensures
        nes_inv(sp_push(s, v)),
        sp_push(s, v).cycles == s.cycles + 1,
        sp_push(s, v).fetched == s.fetched,
{
    lemma_write_effects(s, (0x100 + s.cpu.s) as u16, v);
}

/// A 16-bit push costs two cycles and fetches nothing.
#[verifier::rlimit(100)]
#[verifier::spinoff_prover]
pub proof fn lemma_push16_cycles(s: NesView, v: u16)
    requires
        nes_inv(s),
        s.cycles + 4 < u64::MAX,
    ensures
        nes_inv(sp_push16(s, v)),
        sp_push16(s, v).cycles == s.cycles + 2,
        sp_push16(s, v).fetched == s.fetched,
{
    lemma_push_cycles(s, (v / 256) as u8);
    lemma_push_cycles(sp_push(s, (v / 256) as u8), (v % 256) as u8);
}

/// A pop costs one cycle and fetches nothing.
#[verifier::rlimit(100)]
#[verifier::spinoff_prover]
pub proof fn lemma_pop_cycles(s: NesView)
    requires
        nes_inv(s),
        s.cycles + 2 < u64::MAX,
    ensures
        nes_inv(sp_pop(s).0),
        sp_pop(s).0.cycles == s.cycles + 1,
        sp_pop(s).0.fetched == s.fetched,
{
    let s1 = NesView { cpu: crate::cpu::Cpu { s: sp_inc8(s.cpu.s), ..s.cpu }, ..s };
    lemma_read_effects(s1, (0x100 + s1.cpu.s) as u16);
}

/// A 16-bit pop costs two cycles and fetches nothing.
#[verifier::rlimit(100)]
#[verifier::spinoff_prover]
pub proof fn lemma_pop16_cycles(s: NesView)
    requires
        nes_inv(s),
        s.cycles + 4 < u64::MAX,
    ensures
        nes_inv(sp_pop16(s).0),
        sp_pop16(s).0.cycles == s.cycles + 2,
        sp_pop16(s).0.fetched == s.fetched,
{
    lemma_pop_cycles(s);
    lemma_pop_cycles(sp_pop(s).0);
}

/// A 16-bit operand fetch costs two cycles and two fetched bytes.
#[verifier::rlimit(100)]
#[verifier::spinoff_prover]
pub proof fn lemma_fetch16_cycles(s: NesView)
    requires
        nes_inv(s),
        s.cycles + 4 < u64::MAX,
    ensures
        nes_inv(sp_fetch16(s).0),
        sp_fetch16(s).0.cycles == s.cycles + 2,
        sp_fetch16(s).0.fetched == s.fetched + 2,
        sp_fetch16(s).0.cpu.p == s.cpu.p,
{
    lemma_fetch_effects(s);
    lemma_fetch_effects(sp_fetch(s).0);
}

/// Exact cycle count of a `c = 0` instruction after its opcode fetch, and
/// its fetch bookkeeping: exactly the one-byte forms (the stack and
/// implied operations, the flag operations, RTI and RTS) fetch nothing.
#[verifier::rlimit(100)]
#[verifier::spinoff_prover]
pub proof fn lemma_c0_cycle_count(s: NesView, a: u8, b: u8)
    requires
        nes_inv(s),
        a < 8,
        b < 8,
        !(a == 0 && b == 0),
        !(a == 4 && b == 7),
        s.cycles + 8 < u64::MAX,
    ensures
        nes_inv(sp_c0(s, a, b)),
        sp_c0(s, a, b).cycles == s.cycles + sp_count_c0(s, a, b),
        sp_c0(s, a, b).fetched >= s.fetched,
        (sp_c0(s, a, b).fetched == s.fetched) <==> (b == 6 || b == 2 || (b == 0 && (a == 2 || a
            == 3))),
{
    if b == 0 {
        if a == 1 {
            lemma_push16_cycles(s, sp_inc16(s.cpu.pc));
            let s1 = sp_push16(s, sp_inc16(s.cpu.pc));
            lemma_fetch16_cycles(s1);
            let (s2, t) = sp_fetch16(s1);
            lemma_tick_effects(NesView { cpu: crate::cpu::Cpu { pc: t, ..s2.cpu }, ..s2 });
        } else if a == 2 {
            lemma_pop_cycles(s);
            let (s1, v) = sp_pop(s);
            let s2 = NesView { cpu: crate::cpu::Cpu { p: (v & 0xef) | 0x20, ..s1.cpu }, ..s1 };
            lemma_pop16_cycles(s2);
            let (s3, t) = sp_pop16(s2);
            lemma_tick_effects(NesView { cpu: crate::cpu::Cpu { pc: t, ..s3.cpu }, ..s3 });
        } else if a == 3 {
            lemma_pop16_cycles(s);
            let (s1, t) = sp_pop16(s);
            let s2 = NesView { cpu: crate::cpu::Cpu { pc: sp_inc16(t), ..s1.cpu }, ..s1 };
            lemma_tick_effects(s2);
            lemma_tick_effects(sp_tick(s2));
        } else {
            lemma_fetch_effects(s);
        }
    } else if b == 2 {
        if a == 0 {
            lemma_push_cycles(s, s.cpu.p | 0x30);
        } else if a == 1 {
            lemma_pop_cycles(s);
            let (s1, v) = sp_pop(s);
            lemma_tick_effects(
                NesView { cpu: crate::cpu::Cpu { p: (v & 0xef) | 0x20, ..s1.cpu }, ..s1 },
            );
        } else if a == 2 {
            lemma_push_cycles(s, s.cpu.a);
        } else if a == 3 {
            lemma_pop_cycles(s);
            let (s1, v) = sp_pop(s);
            lemma_tick_effects(
                NesView {
                    cpu: crate::cpu::Cpu { a: v, p: sp_nz(s1.cpu.p, v), ..s1.cpu },
                    ..s1
                },
            );
        }
    } else if b == 4 {
        lemma_branch_cycles(s, a);
    } else if b == 6 {
    } else if a == 1 && (b == 1 || b == 3) {
        lemma_load_c0_cycles(s, b);
    } else if a == 2 && b == 3 {
        lemma_fetch16_cycles(s);
    } else if a == 3 && b == 3 {
        lemma_fetch16_cycles(s);
        let (s1, ind) = sp_fetch16(s);
        lemma_read_effects(s1, ind);
        lemma_read_effects(sp_read(s1, ind).0, sp_jmp_ind_hi(ind));
    } else if a == 4 {
        if b == 1 {
            lemma_fetch_effects(s);
            lemma_write_effects(am_zp(s).0, am_zp(s).1, s.cpu.y);
        } else if b == 3 {
            lemma_fetch16_cycles(s);
            lemma_write_effects(am_abs(s).0, am_abs(s).1, s.cpu.y);
        } else {
            lemma_fetch_effects(s);
            lemma_tick_effects(sp_fetch(s).0);
            lemma_write_effects(am_zp_ix(s, s.cpu.x).0, am_zp_ix(s, s.cpu.x).1, s.cpu.y);
        }
    } else {
        lemma_load_c0_cycles(s, b);
    }
}

/// Exact cycle count of a `c = 1` instruction after its opcode fetch; the
/// whole family fetches at least one operand byte.
#[verifier::rlimit(100)]
#[verifier::spinoff_prover]
pub proof fn lemma_c1_cycle_count(s: NesView, a: u8, b: u8)
    requires
        nes_inv(s),
        a < 8,
        b < 8,
        s.cycles + 8 < u64::MAX,
    ensures
        nes_inv(sp_c1(s, a, b)),
        sp_c1(s, a, b).cycles == s.cycles + sp_count_c1(s, a, b),
        sp_c1(s, a, b).fetched > s.fetched,
{
    if a == 4 {
        if b == 2 {
            lemma_fetch_effects(s);
        } else {
            lemma_addr_w_cycles(s, b);
            lemma_write_effects(sp_addr_w(s, b).0, sp_addr_w(s, b).1, s.cpu.a);
        }
    } else {
        lemma_load_c1_cycles(s, b);
    }
}

/// Exact cycle count of a `c = 2` instruction after its opcode fetch, and
/// its fetch bookkeeping: exactly the one-byte forms fetch nothing.
#[verifier::rlimit(100)]
#[verifier::spinoff_prover]
pub proof fn lemma_c2_cycle_count(s: NesView, a: u8, b: u8)
    requires
        nes_inv(s),
        a < 8,
        b < 8,
        !(a <= 3 && b == 0),
        b != 4,
        !(a == 4 && b == 7),
        s.cycles + 8 < u64::MAX,
    ensures
        nes_inv(sp_c2(s, a, b)),
        sp_c2(s, a, b).cycles == s.cycles + sp_count_c2(s, a, b),
        sp_c2(s, a, b).fetched >= s.fetched,
        (sp_c2(s, a, b).fetched == s.fetched) <==> (b == 2 || b == 6),
{
    if (a == 4 || a == 6 || a == 7) && b == 0 {
        lemma_fetch_effects(s);
    } else if a == 4 {
        if b == 1 {
            lemma_fetch_effects(s);
            lemma_write_effects(am_zp(s).0, am_zp(s).1, s.cpu.x);
        } else if b == 3 {
            lemma_fetch16_cycles(s);
            lemma_write_effects(am_abs(s).0, am_abs(s).1, s.cpu.x);
        } else if b == 5 {
            lemma_fetch_effects(s);
            lemma_tick_effects(sp_fetch(s).0);
            lemma_write_effects(am_zp_ix(s, s.cpu.y).0, am_zp_ix(s, s.cpu.y).1, s.cpu.x);
        }
    } else if a == 5 {
        if b != 2 && b != 6 {
            lemma_load_ldx_cycles(s, b);
        }
    } else if b == 1 || b == 3 || b == 5 || b == 7 {
        // The memory read-modify-writes; the remaining one-byte forms add
        // no cycle at all.
        lemma_addr_rmw_cycles(s, b);
        let (s1, ad) = sp_addr_rmw(s, b);
        lemma_read_effects(s1, ad);
        let (s2, m) = sp_read(s1, ad);
        let s3 = NesView {
            cpu: crate::cpu::Cpu { p: crate::cpu::sp_rmw_p(a, m, s2.cpu.p), ..s2.cpu },
            ..s2
        };
        lemma_tick_effects(s3);
        lemma_write_effects(sp_tick(s3), ad, crate::cpu::sp_rmw_val(a, m, s2.cpu.p));
    }
}

/// Cycle and fetch counts of read-modify-write addressing.
#[verifier::rlimit(100)]
#[verifier::spinoff_prover]
pub proof fn lemma_addr_rmw_cycles(s: NesView, b: u8)
    requires
        nes_inv(s),
        b == 1 || b == 3 || b == 5 || b == 7,
        s.cycles + 8 < u64::MAX,
    ensures
        nes_inv(sp_addr_rmw(s, b).0),
        sp_addr_rmw(s, b).0.fetched == s.fetched + (if b == 3 || b == 7 {
            2int
        } else {
            1int
        }),
        sp_addr_rmw(s, b).0.cycles == s.cycles + sp_count_addr_rmw(b),
{
    lemma_fetch_effects(s);
    let f1 = sp_fetch(s).0;
    if b == 3 {
        lemma_fetch_effects(f1);
    } else if b == 5 {
        lemma_tick_effects(f1);
    } else if b == 7 {
        lemma_fetch_effects(f1);
        lemma_tick_effects(sp_fetch(f1).0);
    }
}

/// Exact cycle count of a `c = 3` instruction after its opcode fetch; the
/// whole group fetches at least one operand byte.
#[verifier::rlimit(100)]
#[verifier::spinoff_prover]
pub proof fn lemma_c3_cycle_count(s: NesView, a: u8, b: u8)
    requires
        nes_inv(s),
        a < 8,
        b < 8,
        !(b == 2 && a != 5 && a != 7),
        !(a == 4 && (b == 4 || b == 6 || b == 7)),
        !(a == 5 && b == 6),
        s.cycles + 8 < u64::MAX,
    ensures
        nes_inv(sp_c3(s, a, b)),
        sp_c3(s, a, b).cycles == s.cycles + sp_count_c3(s, a, b),
        sp_c3(s, a, b).fetched > s.fetched,
{
    if a == 5 {
        lemma_load_lax_cycles(s, b);
    } else if a == 7 && b == 2 {
        lemma_fetch_effects(s);
    } else if a == 4 {
        lemma_addr_sax_cycles(s, b);
        lemma_write_effects(sp_addr_sax(s, b).0, sp_addr_sax(s, b).1, s.cpu.a & s.cpu.x);
    } else {
        lemma_addr_w_cycles(s, b);
        let (s1, ad) = sp_addr_w(s, b);
        lemma_read_effects(s1, ad);
        let (s2, m) = sp_read(s1, ad);
        lemma_write_effects(s2, ad, crate::cpu::sp_rmw_val(a, m, s2.cpu.p));
        lemma_tick_effects(sp_write(s2, ad, crate::cpu::sp_rmw_val(a, m, s2.cpu.p)));
    }
}

/// Cycle and fetch counts of SAX addressing.
#[verifier::rlimit(100)]
#[verifier::spinoff_prover]
pub proof fn lemma_addr_sax_cycles(s: NesView, b: u8)
    requires
        nes_inv(s),
        b == 0 || b == 1 || b == 3 || b == 5,
        s.cycles + 8 < u64::MAX,
    ensures
        nes_inv(sp_addr_sax(s, b).0),
        sp_addr_sax(s, b).0.fetched == s.fetched + (if b == 3 {
            2int
        } else {
            1int
        }),
        sp_addr_sax(s, b).0.cycles == s.cycles + sp_count_addr_sax(b),
{
    lemma_fetch_effects(s);
    let f1 = sp_fetch(s).0;
    let z = sp_fetch(s).1;
    if b == 0 {
        lemma_tick_effects(f1);
        let t1 = sp_tick(f1);
        lemma_read_effects(t1, sp_izx_lo_addr(z, s.cpu.x));
        lemma_read_effects(sp_read(t1, sp_izx_lo_addr(z, s.cpu.x)).0, sp_izx_hi_addr(z, s.cpu.x));
    } else if b == 3 {
        lemma_fetch_effects(f1);
    } else if b == 5 {
        lemma_tick_effects(f1);
    }
}

/// Every supported instruction advances the cycle counter by exactly the
/// documented count of its opcode and addressing mode: the opcode fetch,
/// the class's table entry with its taken-branch and page-crossing
/// penalties, and the dummy read of a one-byte instruction.
#[verifier::rlimit(100)]
#[verifier::spinoff_prover]
pub proof fn lemma_step_documented_cycles(s: NesView)
    requires
        nes_inv(s),
        s.fetched == 0,
        s.cycles + 16 < u64::MAX,
        op_supported(sp_fetch(s).1),
    ensures
        sp_step(s).cycles == s.cycles + sp_documented_cycles(s),
{
    let (s1, i) = sp_fetch(s);
    lemma_fetch_effects(s);
    let a = op_a(i);
    let b = op_b(i);
    let c = op_c(i);
    let s2 = sp_instr(s1, i);
    if c == 0 {
        lemma_c0_cycle_count(s1, a, b);
    } else if c == 1 {
        lemma_c1_cycle_count(s1, a, b);
    } else if c == 2 {
        lemma_c2_cycle_count(s1, a, b);
    } else {
        lemma_c3_cycle_count(s1, a, b);
    }
    let s3 = NesView { fetched: 0, ..s2 };
    lemma_read_effects(s3, s3.cpu.pc);
}

/// The documented counts lie between 2 and 8 cycles, so every supported
/// instruction costs a cycle count in that range.
#[verifier::rlimit(100)]
#[verifier::spinoff_prover]
pub proof fn lemma_step_cycle_bounds(s: NesView)
    requires
        nes_inv(s),
        s.fetched == 0,
        s.cycles + 16 < u64::MAX,
        op_supported(sp_fetch(s).1),
    ensures
        s.cycles + 2 <= sp_step(s).cycles <= s.cycles + 8,
{
    lemma_step_documented_cycles(s);
    assert(2 <= sp_documented_cycles(s) <= 8);
}

/// PHA followed by PLA: the accumulator comes back byte-for-byte (the pop
/// reads the very stack cell the push wrote), the stack pointer is
/// restored, and N and Z are set from the restored value.
#[verifier::rlimit(100)]
#[verifier::spinoff_prover]
pub proof fn lemma_pha_pla(s: NesView)
    requires
        nes_inv(s),
        s.fetched == 0,
        0x4020 <= s.cpu.pc < 0xffff,
        sp_prg_load(s.cart, s.cpu.pc) == Some(0x48u8),
        sp_prg_load(s.cart, (s.cpu.pc + 1) as u16) == Some(0x68u8),
    ensures
        ({
            let s2 = sp_step(sp_step(s));
            &&& s2.cpu.a == s.cpu.a
            &&& s2.cpu.s == s.cpu.s
            &&& s2.cpu.p == sp_nz(s.cpu.p, s.cpu.a)
        }),
{
    // First step: PHA.
    let (s1, i1) = sp_fetch(s);
    lemma_fetch_effects(s);
    assert(i1 == 0x48) by {
        lemma_tick_effects(s);
    }
    assert(op_a(i1) == 2 && op_b(i1) == 2 && op_c(i1) == 0 && op_supported(i1));
    let sp1 = sp_push(s1, s1.cpu.a);
    assert(sp_instr(s1, i1) == sp1);
    lemma_stack_push(s1, s1.cpu.a);
    assert(sp1.fetched == 1);
    let sf1 = NesView { fetched: 0, ..sp1 };
    lemma_read_effects(sf1, sf1.cpu.pc);
    let t1 = sp_step(s);
    assert(t1 == sp_read(sf1, sf1.cpu.pc).0);
    assert(t1.cpu.a == s.cpu.a && t1.cpu.p == s.cpu.p && t1.cpu.s == sp_dec8(s.cpu.s));
    assert(t1.cpu.pc == (s.cpu.pc + 1) as u16);
    assert(t1.iram == s.iram.update(0x100 + s.cpu.s, s.cpu.a));
    assert(t1.cart == s.cart && t1.fetched == 0 && nes_inv(t1));

    // Second step: PLA.
    let (t2, i2) = sp_fetch(t1);
    lemma_fetch_effects(t1);
    assert(i2 == 0x68) by {
        lemma_tick_effects(t1);
    }
    assert(op_a(i2) == 3 && op_b(i2) == 2 && op_c(i2) == 0 && op_supported(i2));
    let (t3, v) = sp_pop(t2);
    lemma_stack_pop(t2);
    assert(sp_inc8(sp_dec8(s.cpu.s)) == s.cpu.s);
    assert(v == t2.iram[0x100 + s.cpu.s]);
    assert(v == s.cpu.a);
    let t4 = sp_tick(
        NesView { cpu: crate::cpu::Cpu { a: v, p: sp_nz(t3.cpu.p, v), ..t3.cpu }, ..t3 },
    );
    assert(sp_instr(t2, i2) == t4);
    lemma_read_effects(t3, (0x100 + t3.cpu.s) as u16);
    lemma_tick_effects(NesView { cpu: crate::cpu::Cpu { a: v, p: sp_nz(t3.cpu.p, v), ..t3.cpu }, ..t3 });
    assert(t4.fetched == 1);
    let tf = NesView { fetched: 0, ..t4 };
    lemma_read_effects(tf, tf.cpu.pc);
    assert(sp_step(t1) == sp_read(tf, tf.cpu.pc).0);
}

/// PHP followed by PLP: every bit of `P` is restored except that B comes
/// back cleared and U set, and the stack pointer is restored.
#[verifier::rlimit(100)]
#[verifier::spinoff_prover]
pub proof fn lemma_php_plp(s: NesView)
    requires
        nes_inv(s),
        s.fetched == 0,
        0x4020 <= s.cpu.pc < 0xffff,
        sp_prg_load(s.cart, s.cpu.pc) == Some(0x08u8),
        sp_prg_load(s.cart, (s.cpu.pc + 1) as u16) == Some(0x28u8),
    ensures
        ({
            let s2 = sp_step(sp_step(s));
            &&& s2.cpu.p == (s.cpu.p & 0xef) | 0x20
            &&& s2.cpu.s == s.cpu.s
            &&& s2.cpu.a == s.cpu.a
        }),
{
    // First step: PHP pushes P | $30.
    let (s1, i1) = sp_fetch(s);
    lemma_fetch_effects(s);
    assert(i1 == 0x08) by {
        lemma_tick_effects(s);
    }
    assert(op_a(i1) == 0 && op_b(i1) == 2 && op_c(i1) == 0 && op_supported(i1));
    let sp1 = sp_push(s1, s1.cpu.p | 0x30);
    assert(sp_instr(s1, i1) == sp1);
    lemma_stack_push(s1, s1.cpu.p | 0x30);
    let sf1 = NesView { fetched: 0, ..sp1 };
    lemma_read_effects(sf1, sf1.cpu.pc);
    let t1 = sp_step(s);
    assert(t1.cpu.p == s.cpu.p && t1.cpu.s == sp_dec8(s.cpu.s) && t1.cpu.a == s.cpu.a);
    assert(t1.cpu.pc == (s.cpu.pc + 1) as u16);
    assert(t1.iram == s.iram.update(0x100 + s.cpu.s, s.cpu.p | 0x30));
    assert(t1.cart == s.cart && t1.fetched == 0 && nes_inv(t1));

    // Second step: PLP masks B clear and U set.
    let (t2, i2) = sp_fetch(t1);
    lemma_fetch_effects(t1);
    assert(i2 == 0x28) by {
        lemma_tick_effects(t1);
    }
    assert(op_a(i2) == 1 && op_b(i2) == 2 && op_c(i2) == 0 && op_supported(i2));
    let (t3, v) = sp_pop(t2);
    lemma_stack_pop(t2);
    assert(sp_inc8(sp_dec8(s.cpu.s)) == s.cpu.s);
    assert(v == s.cpu.p | 0x30);
    let t4 = sp_tick(
        NesView { cpu: crate::cpu::Cpu { p: (v & 0xef) | 0x20, ..t3.cpu }, ..t3 },
    );
    assert(sp_instr(t2, i2) == t4);
    lemma_read_effects(t3, (0x100 + t3.cpu.s) as u16);
    lemma_tick_effects(NesView { cpu: crate::cpu::Cpu { p: (v & 0xef) | 0x20, ..t3.cpu }, ..t3 });
    assert(t4.fetched == 1);
    let tf = NesView { fetched: 0, ..t4 };
    lemma_read_effects(tf, tf.cpu.pc);
    assert(sp_step(t1) == sp_read(tf, tf.cpu.pc).0);
    lemma_php_plp_mask(s.cpu.p);
}

/// PHP pushes `P | $30`: bit 5 (U) is always 1 in the pushed byte, and
/// bit 4 (B) is 1 exactly because the push source is PHP — the only
/// instruction of this core that pushes `P`.
pub proof fn lemma_php_pushed_byte(s: NesView)
    ensures
        sp_c0(s, 0, 2) == sp_push(s, s.cpu.p | 0x30),
        (s.cpu.p | 0x30) & 0x20 == 0x20,
        (s.cpu.p | 0x30) & 0x10 == 0x10,
{
    let p = s.cpu.p;
    assert((p | 0x30) & 0x20 == 0x20 && (p | 0x30) & 0x10 == 0x10) by (bit_vector);
}

/// What PLP makes of a byte PHP pushed: every bit of the original `P`
/// comes back except that B is cleared and U is set.
pub proof fn lemma_php_plp_mask(p: u8)
    ensures
        ((p | 0x30) & 0xef) | 0x20 == (p & 0xef) | 0x20,
{
    assert(((p | 0x30) & 0xef) | 0x20 == (p & 0xef) | 0x20) by (bit_vector);
}

/// One PPU dot keeps the dot counter in `[0, 340]` and the scanline in
/// `[0, 261]`.
pub proof fn lemma_ppu_dot_in_frame(p: PpuView)
    requires
        ppu_in_frame(p),
    ensures
        ppu_in_frame(sp_ppu_dot(p)),
{
}

/// The odd-frame skip: on an odd frame, the dot that would reach dot 339
/// of scanline 261 lands on (0, 0) instead and flips the frame parity.
pub proof fn lemma_odd_frame_skip(p: PpuView)
    requires
        ppu_in_frame(p),
        p.frame_odd,
        p.scanline == 261,
        p.cycle == 338,
    ensures
        sp_ppu_dot(p).scanline == 0,
        sp_ppu_dot(p).cycle == 0,
        sp_ppu_dot(p).frame_odd == !p.frame_odd,
{
}

/// On an even frame the pre-render line runs to dot 340 before the wrap to
/// (0, 0) flips the parity.
pub proof fn lemma_even_frame_wrap(p: PpuView)
    requires
        ppu_in_frame(p),
        !p.frame_odd,
        p.scanline == 261,
        p.cycle == 340,
    ensures
        sp_ppu_dot(p).scanline == 0,
        sp_ppu_dot(p).cycle == 0,
        sp_ppu_dot(p).frame_odd == !p.frame_odd,
{
}

/// The JMP (ind) page-wrap quirk: when the pointer's low byte is `$FF`,
/// the target's high byte is read from the *start* of the pointer's page,
/// not from the next page.
pub proof fn lemma_jmp_ind_page_wrap(ind: u16)
    requires
        ind % 256 == 0xff,
    ensures
        sp_jmp_ind_hi(ind) == ind - 0xff,
        sp_jmp_ind_hi(ind) != ind + 1,
{
}

/// Parsing a reserialised header round-trips every semantic field: the
/// mapper id, the submapper, the PRG and CHR sizes and the mirroring and
/// layout flags all come back from `sp_header16` exactly, and the header
/// is a valid NES 2.0 header without a trainer.
#[verifier::rlimit(100)]
#[verifier::spinoff_prover]
pub proof fn lemma_header_round_trip(
    mapper: u16,
    sub: u8,
    prg_u: u16,
    chr_u: u16,
    vert: bool,
    alt: bool,
)
    requires
        mapper < 0x1000,
        sub < 16,
        prg_u < 0x1000,
        chr_u < 0x1000,
    ensures
        ({
            let h = sp_header16(mapper, sub, prg_u, chr_u, vert, alt);
            &&& h.len() == 16
            &&& ines_has_magic(h)
            &&& ines_is_nes2(h)
            &&& !ines_has_trainer(h)
            &&& ines_mapper_id(h) == mapper
            &&& ines_submapper(h) == sub
            &&& ines_prg_units(h) == prg_u
            &&& ines_chr_units(h) == chr_u
            &&& ines_vert_mirror(h) == vert
            &&& ines_alt_nt(h) == alt
        }),
{
    let h = sp_header16(mapper, sub, prg_u, chr_u, vert, alt);
    let m0 = mapper as int % 16;
    let m1 = (mapper as int / 16) % 16;
    let m2 = mapper as int / 256;
    let a1: int = if alt { 1 } else { 0 };
    let v1: int = if vert { 1 } else { 0 };

    let b6 = m0 * 16 + a1 * 8 + v1;
    assert(h[6] == b6 as u8);
    assert(0 <= b6 < 256);
    lemma_fundamental_div_mod_converse(b6, 16, m0, a1 * 8 + v1);
    lemma_fundamental_div_mod_converse(b6, 2, m0 * 8 + a1 * 4, v1);
    lemma_fundamental_div_mod_converse(b6, 8, m0 * 2 + a1, v1);
    lemma_fundamental_div_mod_converse(m0 * 2 + a1, 2, m0, a1);
    lemma_fundamental_div_mod_converse(b6, 4, m0 * 4 + a1 * 2, v1);
    lemma_fundamental_div_mod_converse(m0 * 4 + a1 * 2, 2, m0 * 2 + a1, 0);

    let b7 = m1 * 16 + 8;
    assert(h[7] == b7 as u8);
    lemma_fundamental_div_mod_converse(b7, 16, m1, 8);
    lemma_fundamental_div_mod_converse(b7, 4, m1 * 4 + 2, 0);
    lemma_fundamental_div_mod_converse(m1 * 4 + 2, 4, m1, 2);

    let b8 = sub as int * 16 + m2;
    assert(h[8] == b8 as u8);
    assert(0 <= m2 < 16);
    lemma_fundamental_div_mod_converse(b8, 16, sub as int, m2);

    let p2 = prg_u as int / 256;
    let c2 = chr_u as int / 256;
    let b9 = c2 * 16 + p2;
    assert(h[9] == b9 as u8);
    assert(0 <= p2 < 16 && 0 <= c2 < 16);
    lemma_fundamental_div_mod_converse(b9, 16, c2, p2);

    assert(mapper as int % 256 == 16 * m1 + m0) by {
        lemma_mod_breakdown(mapper as int, 16, 16);
    }
    assert(m1 * 16 + m0 + m2 * 256 == mapper);
    assert(prg_u as int % 256 + p2 * 256 == prg_u);
    assert(chr_u as int % 256 + c2 * 256 == chr_u);
}

/// The `(zp,X)` wrap: when `zp + X` lands on `$FF`, the pointer's high
/// byte is read from `$00` — still in the zero page — and never from
/// `$0100`.
pub proof fn lemma_izx_pointer_wrap(z: u8, x: u8)
    ensures
        sp_izx_lo_addr(z, x) == (z + x) % 256,
        (z + x) % 256 == 0xff ==> sp_izx_hi_addr(z, x) == 0,
        sp_izx_hi_addr(z, x) < 0x100,
{
}

} // verus!
