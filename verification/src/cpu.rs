//! The 6502 register file and the pure arithmetic of its instructions:
//! flag updates, ADC/SBC, compares and the shift/rotate family, each as a
//! spec function beside the executable code that the interpreter calls.

use vstd::prelude::*;

verus! {

/// The CPU register file. `P` is the status register; bits 4 (B) and 5 (U)
/// carry no machine state of their own: they are materialised when `P` is
/// pushed and masked when it is popped.
#[derive(Clone, Copy, Debug, PartialEq, Eq, Structural)]
pub struct Cpu {
    pub a: u8,
    pub x: u8,
    pub y: u8,
    pub pc: u16,
    pub s: u8,
    pub p: u8,
}

impl Cpu {
    /// Post-reset register file: `A=X=Y=0`, `S=$FD`, `P=$24` (I and U set);
    /// `PC` comes from the reset vector bytes unless `start` overrides it.
    pub fn new(start: Option<u16>, fffc: u8, fffd: u8) -> (r: Cpu)
        ensures
            r == sp_cpu_new(start, fffc, fffd),
    {
        let pc: u16 = match start {
            Option::Some(v) => v,
            Option::None => fffd as u16 * 256 + fffc as u16,
        };
        Cpu { a: 0, x: 0, y: 0, pc, s: 0xfd, p: 0x24 }
    }
}

pub open spec fn sp_cpu_new(start: Option<u16>, fffc: u8, fffd: u8) -> Cpu {
    let pc = match start {
        Option::Some(v) => v,
        Option::None => (fffd * 256 + fffc) as u16,
    };
    Cpu { a: 0, x: 0, y: 0, pc, s: 0xfd, p: 0x24 }
}

/// N (bit 7) of `P` tracks bit 7 of the last result.
pub open spec fn sp_set_n(p: u8, v: u8) -> u8 {
    (p & 0x7f) | (v & 0x80)
}

/// Z (bit 1) of `P` tracks whether the last result was zero.
pub open spec fn sp_set_z(p: u8, v: u8) -> u8 {
    (p & 0xfd) | (if v == 0 { 2u8 } else { 0u8 })
}

/// N and Z from one result byte, in the order the hardware applies them.
pub open spec fn sp_nz(p: u8, v: u8) -> u8 {
    sp_set_z(sp_set_n(p, v), v)
}

/// The 8-bit wrapping difference `r - m`.
pub open spec fn sp_wsub(r: u8, m: u8) -> u8 {
    ((r + 256 - m) % 256) as u8
}

/// CMP/CPX/CPY: N,Z from the wrapping difference, C set iff `m <= r`.
pub open spec fn sp_cmp(p: u8, r: u8, m: u8) -> u8 {
    (sp_nz(p, sp_wsub(r, m)) & 0xfe) | (if m <= r { 1u8 } else { 0u8 })
}

/// The widened sum `A + M + C` that ADC is defined over.
pub open spec fn sp_adc_sum(a: u8, m: u8, p: u8) -> int {
    a + m + (p & 1)
}

/// ADC result byte.
pub open spec fn sp_adc_a(a: u8, m: u8, p: u8) -> u8 {
    (sp_adc_sum(a, m, p) % 256) as u8
}

/// ADC flag byte before N,Z: C is the carry out of bit 7, V is
/// `(~(A^M) & (A^r)) & $80`, both over the old flag byte with C,V cleared.
pub open spec fn sp_adc_p(a: u8, m: u8, p: u8) -> u8 {
    let r = sp_adc_a(a, m, p);
    let carry: u8 = if sp_adc_sum(a, m, p) > 255 { 1u8 } else { 0u8 };
    let ovf: u8 = if (!(a ^ m) & (a ^ r)) & 0x80 != 0 { 0x40u8 } else { 0u8 };
    (p & 0xbe) | carry | ovf
}

/// The value a read-modify-write operation stores back:
/// ASL, ROL, LSR, ROR, DEC, INC selected by the opcode's `a` bits.
pub open spec fn sp_rmw_val(aop: u8, m: u8, p: u8) -> u8 {
    if aop == 0 {
        m << 1
    } else if aop == 1 {
        (m << 1) | (p & 1)
    } else if aop == 2 {
        m >> 1
    } else if aop == 3 {
        (p << 7) | (m >> 1)
    } else if aop == 6 {
        if m == 0 { 255u8 } else { (m - 1) as u8 }
    } else {
        if m == 255 { 0u8 } else { (m + 1) as u8 }
    }
}

/// The flag byte after a read-modify-write operation: the shifts and rotates
/// move the bit shifted out into C, then N,Z come from the stored value.
pub open spec fn sp_rmw_p(aop: u8, m: u8, p: u8) -> u8 {
    let v = sp_rmw_val(aop, m, p);
    let p1 = if aop == 0 || aop == 1 {
        (p & 0xfe) | (m >> 7)
    } else if aop == 2 || aop == 3 {
        (p & 0xfe) | (m & 1)
    } else {
        p
    };
    sp_nz(p1, v)
}

/// Sign extension of a relative branch offset to 16 bits.
pub open spec fn sp_sign_ext(b: u8) -> u16 {
    if b >= 0x80 { (b + 0xff00) as u16 } else { b as u16 }
}

} // verus!
