//! An instruction-accurate, bus-cycle-accurate emulator core for the NES:
//! a 6502-family (2A03) CPU interpreter, the bus fabric that joins the CPU,
//! the 2 KiB internal work RAM, the PPU's frame/scanline timer and MMIO
//! registers, and the cartridge layer (iNES / NES 2.0 header parsing and the
//! NROM mapper).
//!
//! Every observable effect of the executable code is pinned down by a
//! mathematical model: `NesView` mirrors the whole machine, and `sp_step`
//! describes one instruction exactly. `Nes::step` is proved equal to it.

pub mod cpu;
pub mod ppu;
pub mod cart;
pub mod bus;
pub mod interp;
pub mod laws;
pub mod ines;

use vstd::prelude::*;

verus! {

/// Every way the core can refuse work: the three decoded header errors, a
/// mapper id the system does not implement, and the JAM condition on `step`.
#[derive(Clone, Copy, Debug, PartialEq, Eq, Structural)]
pub enum NesError {
    /// The file is shorter than the 16-byte header.
    HeaderTooShort,
    /// The file does not begin with the `NES\x1a` magic.
    HeaderBadMagic,
    /// The declared PRG/CHR sizes run past the end of the file.
    HeaderTruncated,
    /// A mapper id other than NROM.
    UnsupportedMapper,
    /// The fetched opcode is a JAM/KIL or an unimplemented operation.
    Jam,
}

} // verus!
