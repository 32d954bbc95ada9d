//! The bus fabric and the machine model.
//!
//! `Nes` owns the CPU register file, the 2 KiB internal RAM, the PPU and the
//! mapper; `NesView` is its mathematical twin. Every CPU-visible load or
//! store elapses exactly one CPU cycle — which advances the PPU by three
//! dots — *before* the routing decision, and every successful read updates
//! the open-bus latch. The spec functions here (`sp_tick`, `sp_read`,
//! `sp_write`, `sp_fetch`, `sp_push`, `sp_pop`, ...) define those effects
//! exactly, and each executable method is proved equal to its spec twin.

use vstd::prelude::*;

use crate::cart::{sp_prg_load, sp_prg_store, sp_vmem_load, sp_vmem_store, InesMapper, MapperView};
use crate::cpu::{sp_cpu_new, Cpu};
use crate::ppu::{ppu_in_frame, sp_ppu_addr, sp_ppu_ctrl, sp_ppu_dot, sp_ppu_init, sp_ppu_mask, sp_ppu_scroll, Ppu, PpuView};

verus! {

/// Mathematical view of the whole machine.
pub struct NesView {
    pub cpu: Cpu,
    pub iram: Seq<u8>,
    pub cart: MapperView,
    pub ppu: PpuView,
    /// The open-bus latch: the last byte a successful read produced.
    pub open_bus: u8,
    pub cycles: u64,
    /// Bytes fetched through `PC` by the instruction in flight.
    pub fetched: int,
}

/// Well-formedness: the internal RAM is 2 KiB and the PPU timer is inside
/// its frame.
pub open spec fn nes_inv(s: NesView) -> bool {
    s.iram.len() == 2048 && ppu_in_frame(s.ppu)
}

/// 16-bit increment modulo $10000.
pub open spec fn sp_inc16(x: u16) -> u16 {
    if x == 0xffff { 0u16 } else { (x + 1) as u16 }
}

/// 16-bit addition modulo $10000.
pub open spec fn sp_wadd16(x: u16, y: u16) -> u16 {
    ((x + y) % 0x10000) as u16
}

/// 8-bit increment modulo $100.
pub open spec fn sp_inc8(x: u8) -> u8 {
    if x == 255 { 0u8 } else { (x + 1) as u8 }
}

/// 8-bit decrement modulo $100.
pub open spec fn sp_dec8(x: u8) -> u8 {
    if x == 0 { 255u8 } else { (x - 1) as u8 }
}

/// One CPU cycle: the counter advances (saturating at its type's limit) and
/// the PPU runs three dots.
pub open spec fn sp_tick(s: NesView) -> NesView {
    NesView {
        cycles: if s.cycles < u64::MAX { (s.cycles + 1) as u64 } else { s.cycles },
        ppu: sp_ppu_dot(sp_ppu_dot(sp_ppu_dot(s.ppu))),
        ..s
    }
}

/// `n` CPU cycles.
pub open spec fn sp_elapse(s: NesView, n: nat) -> NesView
    decreases n,
{
    if n == 0 { s } else { sp_elapse(sp_tick(s), (n - 1) as nat) }
}

/// The byte `$2002` exposes: sprite overflow, sprite-0 hit and VBlank.
pub open spec fn sp_status_byte(p: PpuView) -> u8 {
    ((if p.sp_overflow { 0x20int } else { 0int }) + (if p.sp0_hit { 0x40int } else { 0int }) + (
    if p.vblank_flag { 0x80int } else { 0int })) as u8
}

/// Address routing of a load, after the cycle has elapsed. `None` means the
/// address is unmapped or write-only: the caller serves the open-bus latch.
/// A `$2002` read clears the VBlank flag and the shared write toggle; a
/// `$2007` read goes through the mapper and bumps the address latch.
pub open spec fn sp_route_load(s: NesView, addr: u16) -> (NesView, Option<u8>) {
    if addr < 0x2000 {
        (s, Some(s.iram[addr as int % 0x800]))
    } else if addr < 0x4000 {
        let r = addr % 8;
        if r == 2 {
            (
                NesView { ppu: PpuView { vblank_flag: false, w: false, ..s.ppu }, ..s },
                Some(sp_status_byte(s.ppu)),
            )
        } else if r == 7 {
            (
                NesView {
                    ppu: PpuView {
                        addr_status: sp_wadd16(s.ppu.addr_status, s.ppu.ppudata_inc as u16),
                        ..s.ppu
                    },
                    ..s
                },
                Some(sp_vmem_load(s.cart, s.ppu.ciram, s.ppu.addr_status)),
            )
        } else {
            (s, None)
        }
    } else if addr < 0x4020 {
        (s, None)
    } else {
        (s, sp_prg_load(s.cart, addr))
    }
}

/// A full bus load: one cycle, then routing, then the open-bus rule.
pub open spec fn sp_read(s: NesView, addr: u16) -> (NesView, u8) {
    let s1 = sp_tick(s);
    let (s2, o) = sp_route_load(s1, addr);
    match o {
        Some(v) => (NesView { open_bus: v, ..s2 }, v),
        None => (s2, s2.open_bus),
    }
}

/// Address routing of a store, after the cycle has elapsed. Stores to the
/// APU/IO range and unmapped cartridge addresses are dropped; the PPU
/// registers decode by `addr % 8`.
pub open spec fn sp_route_store(s: NesView, addr: u16, data: u8) -> NesView {
    if addr < 0x2000 {
        NesView { iram: s.iram.update(addr as int % 0x800, data), ..s }
    } else if addr < 0x4000 {
        let r = addr % 8;
        if r == 0 {
            NesView { ppu: sp_ppu_ctrl(s.ppu, data), ..s }
        } else if r == 1 {
            NesView { ppu: sp_ppu_mask(s.ppu, data), ..s }
        } else if r == 5 {
            NesView { ppu: sp_ppu_scroll(s.ppu, data), ..s }
        } else if r == 6 {
            NesView { ppu: sp_ppu_addr(s.ppu, data), ..s }
        } else if r == 7 {
            NesView {
                ppu: PpuView {
                    ciram: sp_vmem_store(s.cart, s.ppu.ciram, s.ppu.addr_status, data),
                    addr_status: sp_wadd16(s.ppu.addr_status, s.ppu.ppudata_inc as u16),
                    ..s.ppu
                },
                ..s
            }
        } else {
            s
        }
    } else if addr < 0x4020 {
        s
    } else {
        match sp_prg_store(s.cart, addr, data) {
            Some(c) => NesView { cart: c, ..s },
            None => s,
        }
    }
}

/// A full bus store: one cycle, then routing. Stores never touch the
/// open-bus latch.
pub open spec fn sp_write(s: NesView, addr: u16, data: u8) -> NesView {
    sp_route_store(sp_tick(s), addr, data)
}

/// One instruction byte: a bus load at `PC`, then `PC` advances modulo
/// $10000 and the in-flight fetch count rises.
pub open spec fn sp_fetch(s: NesView) -> (NesView, u8) {
    let (s1, v) = sp_read(s, s.cpu.pc);
    (
        NesView {
            cpu: Cpu { pc: sp_inc16(s1.cpu.pc), ..s1.cpu },
            fetched: s1.fetched + 1,
            ..s1
        },
        v,
    )
}

/// Two instruction bytes, low first.
pub open spec fn sp_fetch16(s: NesView) -> (NesView, u16) {
    let (s1, l) = sp_fetch(s);
    let (s2, h) = sp_fetch(s1);
    (s2, (h * 256 + l) as u16)
}

/// A stack push writes at `$0100 | S`, then `S` decrements modulo 256.
pub open spec fn sp_push(s: NesView, v: u8) -> NesView {
    let s1 = sp_write(s, (0x100 + s.cpu.s) as u16, v);
    NesView { cpu: Cpu { s: sp_dec8(s1.cpu.s), ..s1.cpu }, ..s1 }
}

/// A 16-bit push: high byte first, so the low byte ends at the lower
/// address.
pub open spec fn sp_push16(s: NesView, v: u16) -> NesView {
    sp_push(sp_push(s, (v / 256) as u8), (v % 256) as u8)
}

/// A stack pop increments `S` modulo 256, then reads at `$0100 | S`.
pub open spec fn sp_pop(s: NesView) -> (NesView, u8) {
    let s1 = NesView { cpu: Cpu { s: sp_inc8(s.cpu.s), ..s.cpu }, ..s };
    sp_read(s1, (0x100 + s1.cpu.s) as u16)
}

/// A 16-bit pop, low byte first.
pub open spec fn sp_pop16(s: NesView) -> (NesView, u16) {
    let (s1, l) = sp_pop(s);
    let (s2, h) = sp_pop(s1);
    (s2, (h * 256 + l) as u16)
}

/// The machine after power-on: registers per `Cpu::new` with the reset
/// vector read directly from the mapper (an unmapped vector byte reads 0),
/// zeroed internal RAM, a cycle counter of 7, and the PPU at scanline 0,
/// dot 21, even frame parity.
pub open spec fn sp_new(c: MapperView, start: Option<u16>) -> NesView {
    let lo = match sp_prg_load(c, 0xfffc) {
        Some(v) => v,
        None => 0u8,
    };
    let hi = match sp_prg_load(c, 0xfffd) {
        Some(v) => v,
        None => 0u8,
    };
    NesView {
        cpu: sp_cpu_new(start, lo, hi),
        iram: Seq::new(2048, |i: int| 0u8),
        cart: c,
        ppu: sp_ppu_init(),
        open_bus: 0,
        cycles: 7,
        fetched: 0,
    }
}

pub proof fn lemma_elapse_snoc(s: NesView, n: nat)
    ensures
        sp_elapse(s, n + 1) == sp_tick(sp_elapse(s, n)),
    decreases n,
{
    if n == 0 {
        assert(sp_elapse(s, 1) == sp_elapse(sp_tick(s), 0));
    } else {
        lemma_elapse_snoc(sp_tick(s), (n - 1) as nat);
        assert(sp_elapse(s, n + 1) == sp_elapse(sp_tick(s), n));
    }
}

/// The emulated machine: CPU, internal RAM, mapper, PPU, the open-bus
/// latch and the cycle counter.
#[derive(Debug)]
pub struct Nes {
    pub cpu: Cpu,

    pub iram: Vec<u8>,
    pub cart: InesMapper,
    pub ppu: Ppu,

    pub last_read: u8,
    pub cycles_ahead: u64,
    pub fetched_bytes: usize,
}

impl View for Nes {
    type V = NesView;

    open spec fn view(&self) -> NesView {
        NesView {
            cpu: self.cpu,
            iram: self.iram@,
            cart: self.cart@,
            ppu: self.ppu@,
            open_bus: self.last_read,
            cycles: self.cycles_ahead,
            fetched: self.fetched_bytes as int,
        }
    }
}

/// 16-bit increment modulo $10000.
pub fn inc16(x: u16) -> (r: u16)
    ensures
        r == sp_inc16(x),
{
    if x == 0xffff { 0 } else { x + 1 }
}

/// 16-bit addition modulo $10000.
pub fn wadd16(x: u16, y: u16) -> (r: u16)
    ensures
        r == sp_wadd16(x, y),
{
    ((x as u32 + y as u32) % 0x10000) as u16
}

impl Nes {
    /// Powers the machine on around a mapper. `start` overrides the reset
    /// vector, supporting test-harness entry.
    pub fn new(cart: InesMapper, start: Option<u16>) -> (r: Nes)
        ensures
            r@ == sp_new(cart@, start),
            nes_inv(r@),
            r@.fetched == 0,
    {
        let lo: u8 = match cart.prg_load(0xfffc) {
            Ok(v) => v,
            Err(_) => 0,
        };
        let hi: u8 = match cart.prg_load(0xfffd) {
            Ok(v) => v,
            Err(_) => 0,
        };
        let cpu = Cpu::new(start, lo, hi);

        let mut iram: Vec<u8> = Vec::new();
        let mut i: usize = 0;
        while i < 2048
            invariant
                i <= 2048,
                iram@.len() == i,
                forall|j: int| 0 <= j < i ==> iram@[j] == 0u8,
            decreases 2048 - i,
        {
            iram.push(0u8);
            i = i + 1;
        }
        proof {
            assert(iram@ =~= Seq::new(2048, |i: int| 0u8));
        }

        Nes {
            cpu,
            iram,
            cart,
            ppu: Ppu::new(),
            last_read: 0,
            cycles_ahead: 7,
            fetched_bytes: 0,
        }
    }

    /// One PPU dot.
    pub fn step_ppu(&mut self)
        requires
            ppu_in_frame(old(self)@.ppu),
        ensures
            final(self)@ == (NesView { ppu: sp_ppu_dot(old(self)@.ppu), ..old(self)@ }),
            ppu_in_frame(final(self)@.ppu),
    {
        self.ppu.dot();
    }

    /// Everything that runs beside the CPU during one of its cycles: three
    /// PPU dots.
    fn step_not_cpu(&mut self)
        requires
            ppu_in_frame(old(self)@.ppu),
        ensures
            final(self)@ == (NesView {
                ppu: sp_ppu_dot(sp_ppu_dot(sp_ppu_dot(old(self)@.ppu))),
                ..old(self)@
            }),
            ppu_in_frame(final(self)@.ppu),
    {
        self.step_ppu();
        self.step_ppu();
        self.step_ppu();
    }

    /// One CPU cycle.
    pub(crate) fn elapse_one(&mut self)
        requires
            nes_inv(old(self)@),
        ensures
            final(self)@ == sp_tick(old(self)@),
            nes_inv(final(self)@),
    {
        if self.cycles_ahead < u64::MAX {
            self.cycles_ahead = self.cycles_ahead + 1;
        }
        self.step_not_cpu();
    }

    /// `cy` CPU cycles.
    pub fn elapse_cycles(&mut self, cy: usize)
        requires
            nes_inv(old(self)@),
        ensures
            final(self)@ == sp_elapse(old(self)@, cy as nat),
            nes_inv(final(self)@),
    {
        let ghost s0 = self@;
        let mut i: usize = 0;
        while i < cy
            invariant
                i <= cy,
                self@ == sp_elapse(s0, i as nat),
                nes_inv(self@),
            decreases cy - i,
        {
            self.elapse_one();
            proof {
                lemma_elapse_snoc(s0, i as nat);
            }
            i = i + 1;
        }
    }

    /// The routing half of a load; the cycle has already elapsed.
    #[verifier::rlimit(100)]
    #[verifier::spinoff_prover]
    fn route_load(&mut self, addr: u16) -> (r: Result<u8, ()>)
        requires
            nes_inv(old(self)@),
        ensures
            final(self)@ == sp_route_load(old(self)@, addr).0,
            r is Ok <==> sp_route_load(old(self)@, addr).1 is Some,
            r matches Ok(v) ==> sp_route_load(old(self)@, addr).1 == Some(v),
            nes_inv(final(self)@),
    {
        if addr < 0x2000 {
            Ok(self.iram[addr as usize % 0x800])
        } else if addr < 0x4000 {
            self.load_ppu_mmio(addr)
        } else if addr < 0x4020 {
            Err(())
        } else {
            self.cart.prg_load(addr)
        }
    }

    /// A PPU register read: `$2002` (status, clearing VBlank and the write
    /// toggle) and `$2007` (data) are readable; the rest are write-only.
    #[verifier::rlimit(100)]
    #[verifier::spinoff_prover]
    fn load_ppu_mmio(&mut self, addr: u16) -> (r: Result<u8, ()>)
        requires
            nes_inv(old(self)@),
            0x2000 <= addr < 0x4000,
        ensures
            final(self)@ == sp_route_load(old(self)@, addr).0,
            r is Ok <==> sp_route_load(old(self)@, addr).1 is Some,
            r matches Ok(v) ==> sp_route_load(old(self)@, addr).1 == Some(v),
            nes_inv(final(self)@),
    {
        let reg: u16 = addr % 8;
        if reg == 2 {
            let v: u8 = (if self.ppu.sp_overflow { 0x20u8 } else { 0u8 }) + (if self.ppu.sp0_hit {
                0x40u8
            } else {
                0u8
            }) + (if self.ppu.vblank_flag { 0x80u8 } else { 0u8 });
            self.ppu.vblank_flag = false;
            self.ppu.w = false;
            Ok(v)
        } else if reg == 7 {
            let v: u8 = self.cart.vram_load(&self.ppu.ciram, self.ppu.addr_status);
            self.ppu.addr_status = wadd16(self.ppu.addr_status, self.ppu.ppudata_inc as u16);
            Ok(v)
        } else {
            Err(())
        }
    }

    /// A full bus load: one cycle, routing, and the open-bus rule.
    pub fn load(&mut self, addr: u16) -> (r: u8)
        requires
            nes_inv(old(self)@),
        ensures
            final(self)@ == sp_read(old(self)@, addr).0,
            r == sp_read(old(self)@, addr).1,
            nes_inv(final(self)@),
    {
        self.elapse_one();
        match self.route_load(addr) {
            Ok(v) => {
                self.last_read = v;
                v
            },
            Err(_) => self.last_read,
        }
    }

    /// The routing half of a store; the cycle has already elapsed.
    #[verifier::rlimit(100)]
    #[verifier::spinoff_prover]
    fn route_store(&mut self, addr: u16, data: u8)
        requires
            nes_inv(old(self)@),
        ensures
            final(self)@ == sp_route_store(old(self)@, addr, data),
            nes_inv(final(self)@),
    {
        if addr < 0x2000 {
            let i: usize = addr as usize % 0x800;
            self.iram.set(i, data);
        } else if addr < 0x4000 {
            self.store_ppu_mmio(addr, data);
        } else if addr < 0x4020 {
        } else {
            let _ = self.cart.prg_store(addr, data);
        }
    }

    /// A PPU register write: control, mask, scroll, the address latch and
    /// the data port; the rest (status, OAM — not modelled) are dropped.
    #[verifier::rlimit(100)]
    #[verifier::spinoff_prover]
    fn store_ppu_mmio(&mut self, addr: u16, data: u8)
        requires
            nes_inv(old(self)@),
            0x2000 <= addr < 0x4000,
        ensures
            final(self)@ == sp_route_store(old(self)@, addr, data),
            nes_inv(final(self)@),
    {
        let reg: u16 = addr % 8;
        if reg == 0 {
            self.ppu.write_ctrl(data);
        } else if reg == 1 {
            self.ppu.write_mask(data);
        } else if reg == 5 {
            self.ppu.write_scroll(data);
        } else if reg == 6 {
            self.ppu.write_addr(data);
        } else if reg == 7 {
            self.cart.vram_store(&mut self.ppu.ciram, self.ppu.addr_status, data);
            self.ppu.addr_status = wadd16(self.ppu.addr_status, self.ppu.ppudata_inc as u16);
        }
    }

    /// A full bus store: one cycle, then routing.
    pub fn store(&mut self, addr: u16, data: u8)
        requires
            nes_inv(old(self)@),
        ensures
            final(self)@ == sp_write(old(self)@, addr, data),
            nes_inv(final(self)@),
    {
        self.elapse_one();
        self.route_store(addr, data);
    }

    /// Fetches one instruction byte at `PC` and advances `PC`.
    pub fn fetch_pc(&mut self) -> (r: u8)
        requires
            nes_inv(old(self)@),
            old(self)@.fetched < 3,
        ensures
            final(self)@ == sp_fetch(old(self)@).0,
            r == sp_fetch(old(self)@).1,
            nes_inv(final(self)@),
            final(self)@.fetched == old(self)@.fetched + 1,
    {
        let r = self.load(self.cpu.pc);
        self.cpu.pc = inc16(self.cpu.pc);
        self.fetched_bytes = self.fetched_bytes + 1;
        r
    }

    /// Fetches a 16-bit operand at `PC`, low byte first.
    pub fn fetch_u16(&mut self) -> (r: u16)
        requires
            nes_inv(old(self)@),
            old(self)@.fetched < 2,
        ensures
            final(self)@ == sp_fetch16(old(self)@).0,
            r == sp_fetch16(old(self)@).1,
            nes_inv(final(self)@),
            final(self)@.fetched == old(self)@.fetched + 2,
    {
        let l = self.fetch_pc();
        let h = self.fetch_pc();
        h as u16 * 256 + l as u16
    }

    /// Pushes a byte: write at `$0100 | S`, then decrement `S`.
    pub fn push(&mut self, val: u8)
        requires
            nes_inv(old(self)@),
        ensures
            final(self)@ == sp_push(old(self)@, val),
            nes_inv(final(self)@),
    {
        self.store(0x100 + self.cpu.s as u16, val);
        self.cpu.s = if self.cpu.s == 0 { 255 } else { self.cpu.s - 1 };
    }

    /// Pushes a word, high byte first.
    pub fn push_u16(&mut self, val: u16)
        requires
            nes_inv(old(self)@),
        ensures
            final(self)@ == sp_push16(old(self)@, val),
            nes_inv(final(self)@),
    {
        self.push((val / 256) as u8);
        self.push((val % 256) as u8);
    }

    /// Pops a byte: increment `S`, then read at `$0100 | S`.
    pub fn pop(&mut self) -> (r: u8)
        requires
            nes_inv(old(self)@),
        ensures
            final(self)@ == sp_pop(old(self)@).0,
            r == sp_pop(old(self)@).1,
            nes_inv(final(self)@),
    {
        self.cpu.s = if self.cpu.s == 255 { 0 } else { self.cpu.s + 1 };
        self.load(0x100 + self.cpu.s as u16)
    }

    /// Pops a word, low byte first.
    pub fn pop_u16(&mut self) -> (r: u16)
        requires
            nes_inv(old(self)@),
        ensures
            final(self)@ == sp_pop16(old(self)@).0,
            r == sp_pop16(old(self)@).1,
            nes_inv(final(self)@),
    {
        let l = self.pop();
        let h = self.pop();
        h as u16 * 256 + l as u16
    }
}

} // verus!
