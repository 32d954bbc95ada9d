//! The cartridge layer: the four-operation capability the bus drives, the
//! NROM (mapper 0) implementation, and the tagged mapper variant that keeps
//! decoding statically exhaustive.

use vstd::prelude::*;

use crate::NesError;
use crate::ines::InesFile;

verus! {

/// The capability set a mapper offers the bus: PRG loads and stores on the
/// CPU side, and video-memory accesses that the mapper mirrors into CHR or
/// the console's CIRAM.
pub trait Cartridge {
    /// Tries to load a byte from cartridge PRG ROM/RAM; `Err` means unmapped.
    fn load(&mut self, addr: u16) -> Result<u8, ()>;

    /// Tries to store a byte into cartridge PRG RAM; `Err` means unmapped.
    fn store(&mut self, addr: u16, data: u8) -> Result<(), ()>;

    /// Loads a byte from video memory; an unmapped address yields the low
    /// byte of `addr` (video open bus).
    fn vmem_load(&mut self, ciram: &Vec<u8>, addr: u16) -> u8;

    /// Stores a byte into video memory; unmapped stores are dropped.
    fn vmem_store(&mut self, ciram: &mut Vec<u8>, addr: u16, data: u8);
}

/// Mathematical view of an NROM cartridge.
pub struct NromView {
    pub prg_rom: Seq<u8>,
    pub prg_ram: Seq<u8>,
    pub chr_rom: Seq<u8>,
    pub vert_mirror: bool,
}

/// Mathematical view of a mapper: one variant per supported mapper.
pub enum MapperView {
    Nrom(NromView),
}

/// Vertical mirroring folds the two name tables by the low 11 bits alone;
/// the caller masks the result into the 2 KiB CIRAM.
pub open spec fn sp_vert_mirror(addr: u16) -> u16 {
    addr
}

/// Horizontal mirroring: the name-table bank comes from bit 11, the offset
/// from the low 10 bits.
pub open spec fn sp_horiz_mirror(addr: u16) -> u16 {
    ((addr & 0x0800) >> 1) | (addr & 0x03ff)
}

/// The CIRAM index a name-table address maps to under either mirroring.
pub open spec fn sp_ciram_index(vert: bool, addr: u16) -> int {
    if vert { sp_vert_mirror(addr) as int % 0x800 } else { sp_horiz_mirror(addr) as int % 0x800 }
}

/// What a PRG load returns: `$6000-$7FFF` reads PRG RAM and `$8000-$FFFF`
/// reads PRG ROM, each folded by the region's size so that 16 KiB images
/// mirror into both halves of the ROM window; anything else is unmapped,
/// as is a region of size zero.
pub open spec fn sp_prg_load(c: MapperView, addr: u16) -> Option<u8> {
    match c {
        MapperView::Nrom(n) => {
            if 0x6000 <= addr && addr < 0x8000 {
                if n.prg_ram.len() > 0 {
                    Some(n.prg_ram[addr as int % n.prg_ram.len() as int])
                } else {
                    None
                }
            } else if 0x8000 <= addr {
                if n.prg_rom.len() > 0 {
                    Some(n.prg_rom[addr as int % n.prg_rom.len() as int])
                } else {
                    None
                }
            } else {
                None
            }
        },
    }
}

/// What a PRG store does: only `$6000-$7FFF` is writable, into PRG RAM;
/// `None` means the store was unmapped and dropped.
pub open spec fn sp_prg_store(c: MapperView, addr: u16, data: u8) -> Option<MapperView> {
    match c {
        MapperView::Nrom(n) => {
            if 0x6000 <= addr && addr < 0x8000 && n.prg_ram.len() > 0 {
                Some(
                    MapperView::Nrom(
                        NromView {
                            prg_ram: n.prg_ram.update(addr as int % n.prg_ram.len() as int, data),
                            ..n
                        },
                    ),
                )
            } else {
                None
            }
        },
    }
}

/// `$3000-$3EFF` is a mirror of `$2000-$2EFF`.
pub open spec fn sp_vmem_fold(addr: u16) -> u16 {
    if 0x3000 <= addr && addr <= 0x3eff { (addr - 0x1000) as u16 } else { addr }
}

/// What a video-memory load returns: pattern-table addresses read CHR ROM,
/// name-table addresses read the CIRAM through the mirroring function, and
/// everything else (the palette range, or an address beyond the stored
/// data) yields the low byte of the address — video open bus.
pub open spec fn sp_vmem_load(c: MapperView, ciram: Seq<u8>, addr: u16) -> u8 {
    match c {
        MapperView::Nrom(n) => {
            let ea = sp_vmem_fold(addr);
            if ea < 0x2000 {
                if ea < n.chr_rom.len() {
                    n.chr_rom[ea as int]
                } else {
                    (addr % 256) as u8
                }
            } else if ea < 0x3000 {
                let ci = sp_ciram_index(n.vert_mirror, ea);
                if ci < ciram.len() {
                    ciram[ci]
                } else {
                    (addr % 256) as u8
                }
            } else {
                (addr % 256) as u8
            }
        },
    }
}

/// What a video-memory store does: only name-table addresses are written,
/// into the CIRAM through the mirroring function; CHR ROM and the palette
/// range are left alone.
pub open spec fn sp_vmem_store(c: MapperView, ciram: Seq<u8>, addr: u16, data: u8) -> Seq<u8> {
    match c {
        MapperView::Nrom(n) => {
            let ea = sp_vmem_fold(addr);
            if 0x2000 <= ea && ea < 0x3000 {
                let ci = sp_ciram_index(n.vert_mirror, ea);
                if ci < ciram.len() {
                    ciram.update(ci, data)
                } else {
                    ciram
                }
            } else {
                ciram
            }
        },
    }
}

/// Vertical name-table mirroring (the identity; the caller masks).
pub fn vert_mirror(addr: u16) -> (r: u16)
    ensures
        r == sp_vert_mirror(addr),
{
    addr
}

/// Horizontal name-table mirroring.
pub fn horiz_mirror(addr: u16) -> (r: u16)
    ensures
        r == sp_horiz_mirror(addr),
{
    ((addr & 0x0800) >> 1) | (addr & 0x03ff)
}

/// Mapper 0. PRG ROM is fixed into `$8000-$FFFF`, optional PRG RAM into
/// `$6000-$7FFF`, CHR ROM into the pattern tables, and the name tables are
/// folded into CIRAM by the header's mirroring bit.
#[derive(Debug, Clone)]
pub struct Nrom {
    prg_rom: Vec<u8>,
    prg_ram: Vec<u8>,
    chr_rom: Vec<u8>,
    vert_mirror: bool,
}

impl View for Nrom {
    type V = NromView;

    closed spec fn view(&self) -> NromView {
        NromView {
            prg_rom: self.prg_rom@,
            prg_ram: self.prg_ram@,
            chr_rom: self.chr_rom@,
            vert_mirror: self.vert_mirror,
        }
    }
}

impl Nrom {
    /// Builds mapper 0 from a decoded image, taking over its PRG and CHR
    /// data. The header-reported PRG RAM size is taken as a byte count
    /// (this parser always reports 0, so the RAM window stays unmapped).
    pub fn new(file: InesFile) -> (r: Nrom)
        ensures
            r@.prg_rom == file.prg_rom@,
            r@.chr_rom == file.chr_rom@,
            r@.vert_mirror == file.vert_mirror,
            r@.prg_ram.len() == file.prg_ram_size,
            forall|i: int| 0 <= i < r@.prg_ram.len() ==> r@.prg_ram[i] == 0u8,
    {
        let mut prg_ram: Vec<u8> = Vec::new();
        let mut i: usize = 0;
        let ram_len: usize = file.prg_ram_size as usize;
        while i < ram_len
            invariant
                i <= ram_len,
                prg_ram@.len() == i,
                forall|j: int| 0 <= j < i ==> prg_ram@[j] == 0u8,
            decreases ram_len - i,
        {
            prg_ram.push(0u8);
            i = i + 1;
        }
        Nrom {
            prg_rom: file.prg_rom,
            prg_ram,
            chr_rom: file.chr_rom,
            vert_mirror: file.vert_mirror,
        }
    }

    /// PRG load, exactly `sp_prg_load` of the view.
    pub fn prg_load(&self, addr: u16) -> (r: Result<u8, ()>)
        ensures
            r is Ok <==> sp_prg_load(MapperView::Nrom(self@), addr) is Some,
            r matches Ok(v) ==> sp_prg_load(MapperView::Nrom(self@), addr) == Some(v),
    {
        if 0x6000 <= addr && addr < 0x8000 {
            if self.prg_ram.len() > 0 {
                Ok(self.prg_ram[addr as usize % self.prg_ram.len()])
            } else {
                Err(())
            }
        } else if 0x8000 <= addr {
            if self.prg_rom.len() > 0 {
                Ok(self.prg_rom[addr as usize % self.prg_rom.len()])
            } else {
                Err(())
            }
        } else {
            Err(())
        }
    }

    /// PRG store, exactly `sp_prg_store` of the view.
    pub fn prg_store(&mut self, addr: u16, data: u8) -> (r: Result<(), ()>)
        ensures
            match sp_prg_store(MapperView::Nrom(old(self)@), addr, data) {
                Some(c) => r is Ok && MapperView::Nrom(final(self)@) == c,
                None => r is Err && final(self)@ == old(self)@,
            },
    {
        if 0x6000 <= addr && addr < 0x8000 && self.prg_ram.len() > 0 {
            let i: usize = addr as usize % self.prg_ram.len();
            self.prg_ram.set(i, data);
            Ok(())
        } else {
            Err(())
        }
    }

    /// Video-memory load, exactly `sp_vmem_load` of the view.
    pub fn vram_load(&self, ciram: &Vec<u8>, addr: u16) -> (r: u8)
        ensures
            r == sp_vmem_load(MapperView::Nrom(self@), ciram@, addr),
    {
        let ea: u16 = if 0x3000 <= addr && addr <= 0x3eff { addr - 0x1000 } else { addr };
        if ea < 0x2000 {
            if (ea as usize) < self.chr_rom.len() {
                self.chr_rom[ea as usize]
            } else {
                (addr % 256) as u8
            }
        } else if ea < 0x3000 {
            let m: u16 = if self.vert_mirror { vert_mirror(ea) } else { horiz_mirror(ea) };
            let ci: usize = m as usize % 0x800;
            if ci < ciram.len() {
                ciram[ci]
            } else {
                (addr % 256) as u8
            }
        } else {
            (addr % 256) as u8
        }
    }

    /// Video-memory store, exactly `sp_vmem_store` of the view.
    pub fn vram_store(&self, ciram: &mut Vec<u8>, addr: u16, data: u8)
        ensures
            final(ciram)@ == sp_vmem_store(MapperView::Nrom(self@), old(ciram)@, addr, data),
    {
        let ea: u16 = if 0x3000 <= addr && addr <= 0x3eff { addr - 0x1000 } else { addr };
        if 0x2000 <= ea && ea < 0x3000 {
            let m: u16 = if self.vert_mirror { vert_mirror(ea) } else { horiz_mirror(ea) };
            let ci: usize = m as usize % 0x800;
            if ci < ciram.len() {
                ciram.set(ci, data);
            }
        }
    }
}

impl Cartridge for Nrom {
    fn load(&mut self, addr: u16) -> Result<u8, ()> {
        self.prg_load(addr)
    }

    fn store(&mut self, addr: u16, data: u8) -> Result<(), ()> {
        self.prg_store(addr, data)
    }

    fn vmem_load(&mut self, ciram: &Vec<u8>, addr: u16) -> u8 {
        self.vram_load(ciram, addr)
    }

    fn vmem_store(&mut self, ciram: &mut Vec<u8>, addr: u16, data: u8) {
        self.vram_store(ciram, addr, data)
    }
}

/// The tagged mapper variant the bus owns; NROM is the one supported mapper.
#[derive(Debug, Clone)]
pub enum InesMapper {
    Nrom(Nrom),
}

impl View for InesMapper {
    type V = MapperView;

    open spec fn view(&self) -> MapperView {
        match self {
            InesMapper::Nrom(n) => MapperView::Nrom(n@),
        }
    }
}

impl InesMapper {
    /// Builds the mapper a decoded image calls for, refusing construction
    /// for any mapper id the system does not implement.
    pub fn new(file: InesFile) -> (r: Result<InesMapper, NesError>)
        ensures
            r is Ok <==> file.mapper_id == 0,
            file.mapper_id != 0 ==> r == Err::<InesMapper, NesError>(NesError::UnsupportedMapper),
            r matches Ok(m) ==> {
                &&& m@ matches MapperView::Nrom(n)
                &&& n.prg_rom == file.prg_rom@
                &&& n.chr_rom == file.chr_rom@
                &&& n.vert_mirror == file.vert_mirror
                &&& n.prg_ram.len() == file.prg_ram_size
            },
    {
        if file.mapper_id == 0 {
            Ok(InesMapper::Nrom(Nrom::new(file)))
        } else {
            Err(NesError::UnsupportedMapper)
        }
    }

    /// PRG load, exactly `sp_prg_load` of the view.
    pub fn prg_load(&self, addr: u16) -> (r: Result<u8, ()>)
        ensures
            r is Ok <==> sp_prg_load(self@, addr) is Some,
            r matches Ok(v) ==> sp_prg_load(self@, addr) == Some(v),
    {
        match self {
            InesMapper::Nrom(n) => n.prg_load(addr),
        }
    }

    /// PRG store, exactly `sp_prg_store` of the view.
    pub fn prg_store(&mut self, addr: u16, data: u8) -> (r: Result<(), ()>)
        ensures
            match sp_prg_store(old(self)@, addr, data) {
                Some(c) => r is Ok && final(self)@ == c,
                None => r is Err && final(self)@ == old(self)@,
            },
    {
        match self {
            InesMapper::Nrom(n) => n.prg_store(addr, data),
        }
    }

    /// Video-memory load, exactly `sp_vmem_load` of the view.
    pub fn vram_load(&self, ciram: &Vec<u8>, addr: u16) -> (r: u8)
        ensures
            r == sp_vmem_load(self@, ciram@, addr),
    {
        match self {
            InesMapper::Nrom(n) => n.vram_load(ciram, addr),
        }
    }

    /// Video-memory store, exactly `sp_vmem_store` of the view.
    pub fn vram_store(&self, ciram: &mut Vec<u8>, addr: u16, data: u8)
        ensures
            final(ciram)@ == sp_vmem_store(self@, old(ciram)@, addr, data),
    {
        match self {
            InesMapper::Nrom(n) => n.vram_store(ciram, addr, data),
        }
    }
}

impl Cartridge for InesMapper {
    fn load(&mut self, addr: u16) -> Result<u8, ()> {
        self.prg_load(addr)
    }

    fn store(&mut self, addr: u16, data: u8) -> Result<(), ()> {
        self.prg_store(addr, data)
    }

    fn vmem_load(&mut self, ciram: &Vec<u8>, addr: u16) -> u8 {
        self.vram_load(ciram, addr)
    }

    fn vmem_store(&mut self, ciram: &mut Vec<u8>, addr: u16, data: u8) {
        self.vram_store(ciram, addr, data)
    }
}

} // verus!
