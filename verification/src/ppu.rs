//! The PPU's frame/scanline timer and the state behind its MMIO registers.
//!
//! Only timekeeping and the register surface are modelled: a 341-dot by
//! 262-scanline frame counter with the odd-frame skip, the VBlank flag, the
//! `$2000`/`$2001` control bits, the shared `$2005`/`$2006` write toggle and
//! the flat `$2006` address latch, plus the 2 KiB CIRAM the mapper mirrors
//! name-table accesses into.

use vstd::prelude::*;

verus! {

/// Executable PPU state. The spec-level twin is `PpuView`.
#[derive(Debug, Clone)]
pub struct Ppu {
    pub scanline: u16,
    pub cycle: u16,

    pub ciram: Vec<u8>,

    pub base_nt: u8,
    pub ppudata_inc: u8,
    pub sp_pattern: bool,
    pub bg_pattern: bool,
    pub large_sprite: bool,
    pub nmi_on_vblank: bool,

    pub grayscale: bool,
    pub bg_show_left: bool,
    pub sp_show_left: bool,
    pub show_bg: bool,
    pub show_sp: bool,

    pub sp_overflow: bool,
    pub sp0_hit: bool,
    pub vblank_flag: bool,

    pub scroll_x: u8,
    pub scroll_y: u8,
    /// The flat address latch exposed through `$2006`.
    pub addr_status: u16,

    /// Write toggle shared by `$2005` and `$2006`.
    pub w: bool,

    /// Odd-frame toggle; the pre-render line of an odd frame is cut short.
    pub frame_odd: bool,
}

/// Mathematical view of the PPU: the executable fields with the CIRAM as a
/// sequence.
pub struct PpuView {
    pub scanline: u16,
    pub cycle: u16,
    pub ciram: Seq<u8>,
    pub base_nt: u8,
    pub ppudata_inc: u8,
    pub sp_pattern: bool,
    pub bg_pattern: bool,
    pub large_sprite: bool,
    pub nmi_on_vblank: bool,
    pub grayscale: bool,
    pub bg_show_left: bool,
    pub sp_show_left: bool,
    pub show_bg: bool,
    pub show_sp: bool,
    pub sp_overflow: bool,
    pub sp0_hit: bool,
    pub vblank_flag: bool,
    pub scroll_x: u8,
    pub scroll_y: u8,
    pub addr_status: u16,
    pub w: bool,
    pub frame_odd: bool,
}

impl View for Ppu {
    type V = PpuView;

    open spec fn view(&self) -> PpuView {
        PpuView {
            scanline: self.scanline,
            cycle: self.cycle,
            ciram: self.ciram@,
            base_nt: self.base_nt,
            ppudata_inc: self.ppudata_inc,
            sp_pattern: self.sp_pattern,
            bg_pattern: self.bg_pattern,
            large_sprite: self.large_sprite,
            nmi_on_vblank: self.nmi_on_vblank,
            grayscale: self.grayscale,
            bg_show_left: self.bg_show_left,
            sp_show_left: self.sp_show_left,
            show_bg: self.show_bg,
            show_sp: self.show_sp,
            sp_overflow: self.sp_overflow,
            sp0_hit: self.sp0_hit,
            vblank_flag: self.vblank_flag,
            scroll_x: self.scroll_x,
            scroll_y: self.scroll_y,
            addr_status: self.addr_status,
            w: self.w,
            frame_odd: self.frame_odd,
        }
    }
}

/// Power-on PPU state: scanline 0, dot 21 (in step with a CPU cycle counter
/// of 7 at three dots per cycle), even frame parity, flags and latches
/// clear, and the control register in its reset decoding: base name table
/// `$2000` and a VRAM increment of 1 (control bits all 0).
pub open spec fn sp_ppu_init() -> PpuView {
    PpuView {
        scanline: 0,
        cycle: 21,
        ciram: Seq::new(2048, |i: int| 0u8),
        base_nt: 0x20,
        ppudata_inc: 1,
        sp_pattern: false,
        bg_pattern: false,
        large_sprite: false,
        nmi_on_vblank: false,
        grayscale: false,
        bg_show_left: false,
        sp_show_left: false,
        show_bg: false,
        show_sp: false,
        sp_overflow: false,
        sp0_hit: false,
        vblank_flag: false,
        scroll_x: 0,
        scroll_y: 0,
        addr_status: 0,
        w: false,
        frame_odd: false,
    }
}

/// Timer bounds: the dot is in `[0, 340]` and the scanline in `[0, 261]`.
pub open spec fn ppu_in_frame(p: PpuView) -> bool {
    p.cycle <= 340 && p.scanline <= 261
}

/// One PPU dot. The counters advance through the 341 x 262 frame; at the end
/// of a frame — or, on an odd frame, already when dot 339 of scanline 261
/// would be reached — they return to (0, 0) and the parity flips. Dot 1 of
/// scanline 241 raises the VBlank flag; the fetch dots (1..=256) of the
/// visible lines and of the pre-render line clear it.
pub open spec fn sp_ppu_count(p: PpuView) -> PpuView {
    let sl1: u16 = if p.cycle == 340 { (p.scanline + 1) as u16 } else { p.scanline };
    let cy1: u16 = if p.cycle == 340 { 0u16 } else { (p.cycle + 1) as u16 };
    if (p.frame_odd && sl1 == 261 && cy1 == 339) || sl1 == 262 {
        PpuView { scanline: 0, cycle: 0, frame_odd: !p.frame_odd, ..p }
    } else {
        PpuView { scanline: sl1, cycle: cy1, ..p }
    }
}

pub open spec fn sp_ppu_vb(p: PpuView) -> PpuView {
    if (p.scanline <= 239 || p.scanline == 261) && 1 <= p.cycle && p.cycle <= 256 {
        PpuView { vblank_flag: false, ..p }
    } else if p.scanline == 241 && p.cycle == 1 {
        PpuView { vblank_flag: true, ..p }
    } else {
        p
    }
}

pub open spec fn sp_ppu_dot(p: PpuView) -> PpuView {
    sp_ppu_vb(sp_ppu_count(p))
}

/// A `$2000` write: base name table, VRAM increment, pattern-table selects,
/// sprite size and the NMI-on-VBlank enable.
pub open spec fn sp_ppu_ctrl(p: PpuView, data: u8) -> PpuView {
    PpuView {
        base_nt: (0x20 + (data % 4) * 4) as u8,
        ppudata_inc: if (data / 4) % 2 == 1 { 32u8 } else { 1u8 },
        sp_pattern: (data / 8) % 2 == 1,
        bg_pattern: (data / 16) % 2 == 1,
        large_sprite: (data / 32) % 2 == 1,
        nmi_on_vblank: (data / 128) % 2 == 1,
        ..p
    }
}

/// A `$2001` write: grayscale, the left-column show flags, and the
/// background and sprite enables.
pub open spec fn sp_ppu_mask(p: PpuView, data: u8) -> PpuView {
    PpuView {
        grayscale: data % 2 == 1,
        bg_show_left: (data / 2) % 2 == 1,
        sp_show_left: (data / 4) % 2 == 1,
        show_bg: (data / 8) % 2 == 1,
        show_sp: (data / 16) % 2 == 1,
        ..p
    }
}

/// A `$2005` write: the two scroll bytes in turn, sharing the write toggle
/// with `$2006`.
pub open spec fn sp_ppu_scroll(p: PpuView, data: u8) -> PpuView {
    if !p.w {
        PpuView { scroll_x: data, w: true, ..p }
    } else {
        PpuView { scroll_y: data, w: false, ..p }
    }
}

/// A `$2006` write: high byte then low byte of the flat address latch,
/// sharing the write toggle with `$2005`.
pub open spec fn sp_ppu_addr(p: PpuView, data: u8) -> PpuView {
    if !p.w {
        PpuView { addr_status: (p.addr_status % 256 + data * 256) as u16, w: true, ..p }
    } else {
        PpuView { addr_status: ((p.addr_status / 256) * 256 + data) as u16, w: false, ..p }
    }
}

impl Ppu {
    /// The frame-counter half of a dot.
    #[verifier::rlimit(100)]
    #[verifier::spinoff_prover]
    fn dot_count(&mut self)
        requires
            ppu_in_frame(old(self)@),
        ensures
            final(self)@ == sp_ppu_count(old(self)@),
            ppu_in_frame(final(self)@),
    {
        let sl1: u16 = if self.cycle == 340 { self.scanline + 1 } else { self.scanline };
        let cy1: u16 = if self.cycle == 340 { 0 } else { self.cycle + 1 };
        if (self.frame_odd && sl1 == 261 && cy1 == 339) || sl1 == 262 {
            self.scanline = 0;
            self.cycle = 0;
            self.frame_odd = !self.frame_odd;
        } else {
            self.scanline = sl1;
            self.cycle = cy1;
        }
    }

    /// The VBlank-flag half of a dot.
    #[verifier::rlimit(100)]
    #[verifier::spinoff_prover]
    fn dot_vb(&mut self)
        ensures
            final(self)@ == sp_ppu_vb(old(self)@),
    {
        if (self.scanline <= 239 || self.scanline == 261) && 1 <= self.cycle && self.cycle <= 256 {
            self.vblank_flag = false;
        } else if self.scanline == 241 && self.cycle == 1 {
            self.vblank_flag = true;
        }
    }

    /// One PPU dot: advance the frame counters, then update the VBlank flag.
    pub fn dot(&mut self)
        requires
            ppu_in_frame(old(self)@),
        ensures
            final(self)@ == sp_ppu_dot(old(self)@),
            ppu_in_frame(final(self)@),
    {
        self.dot_count();
        self.dot_vb();
    }

    /// A `$2000` write.
    pub fn write_ctrl(&mut self, data: u8)
        ensures
            final(self)@ == sp_ppu_ctrl(old(self)@, data),
    {
        self.base_nt = 0x20 + (data % 4) * 4;
        self.ppudata_inc = if (data / 4) % 2 == 1 { 32 } else { 1 };
        self.sp_pattern = (data / 8) % 2 == 1;
        self.bg_pattern = (data / 16) % 2 == 1;
        self.large_sprite = (data / 32) % 2 == 1;
        self.nmi_on_vblank = (data / 128) % 2 == 1;
    }

    /// A `$2001` write.
    pub fn write_mask(&mut self, data: u8)
        ensures
            final(self)@ == sp_ppu_mask(old(self)@, data),
    {
        self.grayscale = data % 2 == 1;
        self.bg_show_left = (data / 2) % 2 == 1;
        self.sp_show_left = (data / 4) % 2 == 1;
        self.show_bg = (data / 8) % 2 == 1;
        self.show_sp = (data / 16) % 2 == 1;
    }

    /// A `$2005` write.
    pub fn write_scroll(&mut self, data: u8)
        ensures
            final(self)@ == sp_ppu_scroll(old(self)@, data),
    {
        if !self.w {
            self.scroll_x = data;
            self.w = true;
        } else {
            self.scroll_y = data;
            self.w = false;
        }
    }

    /// A `$2006` write.
    pub fn write_addr(&mut self, data: u8)
        ensures
            final(self)@ == sp_ppu_addr(old(self)@, data),
    {
        if !self.w {
            self.addr_status = self.addr_status % 256 + data as u16 * 256;
            self.w = true;
        } else {
            self.addr_status = (self.addr_status / 256) * 256 + data as u16;
            self.w = false;
        }
    }

    /// Power-on PPU state.
    pub fn new() -> (r: Ppu)
        ensures
            r@ == sp_ppu_init(),
    {
        let mut ciram: Vec<u8> = Vec::new();
        let mut i: usize = 0;
        while i < 2048
            invariant
                i <= 2048,
                ciram@.len() == i,
                forall|j: int| 0 <= j < i ==> ciram@[j] == 0u8,
            decreases 2048 - i,
        {
            ciram.push(0u8);
            i = i + 1;
        }
        proof {
            assert(ciram@ =~= Seq::new(2048, |i: int| 0u8));
        }
        Ppu {
            scanline: 0,
            cycle: 21,
            ciram,
            base_nt: 0x20,
            ppudata_inc: 1,
            sp_pattern: false,
            bg_pattern: false,
            large_sprite: false,
            nmi_on_vblank: false,
            grayscale: false,
            bg_show_left: false,
            sp_show_left: false,
            show_bg: false,
            show_sp: false,
            sp_overflow: false,
            sp0_hit: false,
            vblank_flag: false,
            scroll_x: 0,
            scroll_y: 0,
            addr_status: 0,
            w: false,
            frame_odd: false,
        }
    }
}

} // verus!
