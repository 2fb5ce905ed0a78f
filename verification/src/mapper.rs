//! Cartridge mappers: pure translations from CPU-visible addresses to
//! indices into the cartridge's PRG, CHR and SRAM arrays.

use vstd::prelude::*;

verus! {

/// NROM: SRAM at 0x6000, CHR mapped one-to-one, and a single 16 KiB PRG
/// bank mirrored across 0x8000-0xFFFF when `nprg` is 1.
#[derive(Clone, Copy, Debug, PartialEq, Eq, Structural)]
pub struct Mapper0 {
    pub nprg: usize,
}

impl Mapper0 {
    pub fn map_sram(&self, addr: u16) -> (r: usize)
        requires
            0x6000 <= addr,
        ensures
            r == addr - 0x6000,
    {
        (addr - 0x6000) as usize
    }

    /// PRG offset: the address folds across the `nprg` 16 KiB banks.
    pub fn map_prg(&self, addr: u16) -> (r: usize)
        requires
            0x8000 <= addr,
            1 <= self.nprg <= 255,
        ensures
            r == (addr - 0x8000) % (0x4000 * self.nprg as int),
    {
        (addr as usize - 0x8000) % (0x4000 * self.nprg)
    }

    pub fn map_chr(&self, addr: u16) -> (r: usize)
        ensures
            r == addr,
    {
        addr as usize
    }
}

/// MMC1: bank-switching is not modelled in this core; every translation
/// lands on offset zero.
#[derive(Clone, Copy, Debug, PartialEq, Eq, Structural)]
pub struct Mapper1;

impl Mapper1 {
    pub fn map_sram(&self, addr: u16) -> (r: usize)
        ensures
            r == 0,
    {
        0
    }

    pub fn map_prg(&self, addr: u16) -> (r: usize)
        ensures
            r == 0,
    {
        0
    }

    pub fn map_chr(&self, addr: u16) -> (r: usize)
        ensures
            r == 0,
    {
        0
    }
}

/// The mapper a cartridge was built with: a tagged variant over the
/// concrete mappers, so new ones plug in without touching the parser
/// beyond the mapper-number switch.
#[derive(Clone, Copy, Debug, PartialEq, Eq, Structural)]
pub enum Mapper {
    Nrom(Mapper0),
    Mmc1(Mapper1),
}

impl Mapper {
    pub open spec fn map_sram_s(self, addr: u16) -> int {
        match self {
            Mapper::Nrom(_) => addr - 0x6000,
            Mapper::Mmc1(_) => 0,
        }
    }

    pub open spec fn map_prg_s(self, addr: u16) -> int {
        match self {
            Mapper::Nrom(m) => (addr - 0x8000) % (0x4000 * m.nprg as int),
            Mapper::Mmc1(_) => 0,
        }
    }

    pub open spec fn map_chr_s(self, addr: u16) -> int {
        match self {
            Mapper::Nrom(_) => addr as int,
            Mapper::Mmc1(_) => 0,
        }
    }

}

} // verus!
