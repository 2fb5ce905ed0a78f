//! The iNES cartridge: container decoding, the owned PRG/CHR/SRAM byte
//! arrays, and address dispatch through the mapper.
//!
//! The container starts with a 16-byte header: the magic bytes `N`, `E`,
//! `S`, 0x1A, then the PRG count (16 KiB units), the CHR count (8 KiB
//! units), two control bytes, the RAM count (8 KiB units) and 7 reserved
//! bytes. If bit 2 of the first control byte is set, 512 trainer bytes
//! follow and are skipped; then come the PRG bytes and the CHR bytes.
//! Trailing bytes are ignored.

use vstd::prelude::*;

use crate::error::Error;
use crate::error::ParseError;
use crate::mapper::Mapper;
use crate::mapper::Mapper0;
use crate::mapper::Mapper1;
use crate::util::copy_range;
use crate::util::zero_vec;

verus! {

/// The decoded 16-byte header fields this core uses.
#[derive(Clone, Copy, Debug, PartialEq, Eq, Structural)]
pub struct INesHeader {
    pub nprg: u8,
    pub nchr: u8,
    pub control1: u8,
    pub control2: u8,
    pub nram: u8,
}

impl INesHeader {
    /// The mapper number: high nibble of control byte 2 over the high
    /// nibble of control byte 1.
    pub open spec fn mapper_number_s(self) -> u8 {
        ((self.control1 & 0xf0) >> 4) | (self.control2 & 0xf0)
    }

    /// The mapper the header selects, or the unknown-mapper parse error.
    pub open spec fn mapper_s(self) -> Result<Mapper, Error> {
        let n = self.mapper_number_s();
        if n == 0 {
            Ok(Mapper::Nrom(Mapper0 { nprg: self.nprg as usize }))
        } else if n == 1 {
            Ok(Mapper::Mmc1(Mapper1))
        } else {
            Err(Error::Parse(ParseError::UnknownMapper(n)))
        }
    }

    /// Select the mapper the header names.
    pub fn mapper(&self) -> (r: Result<Mapper, Error>)
        ensures
            r == self.mapper_s(),
    {
        let n = ((self.control1 & 0xf0) >> 4) | (self.control2 & 0xf0);
        if n == 0 {
            Ok(Mapper::Nrom(Mapper0 { nprg: self.nprg as usize }))
        } else if n == 1 {
            Ok(Mapper::Mmc1(Mapper1))
        } else {
            Err(Error::Parse(ParseError::UnknownMapper(n)))
        }
    }

    /// Whether 512 trainer bytes follow the header: bit 2 of control
    /// byte 1.
    pub open spec fn has_trainer_s(self) -> bool {
        self.control1 & 0b100 != 0
    }

    pub fn has_trainer(&self) -> (r: bool)
        ensures
            r == self.has_trainer_s(),
    {
        self.control1 & 0b100 != 0
    }

    /// How many SRAM bytes to allocate: 8 KiB per unit, at least one unit.
    pub open spec fn sram_len_s(self) -> int {
        8192 * (if self.nram == 0 {
            1int
        } else {
            self.nram as int
        })
    }

    /// A zeroed SRAM buffer of the size the header calls for.
    pub fn sram(&self) -> (r: Vec<u8>)
        ensures
            r@.len() == self.sram_len_s(),
            forall|i: int| 0 <= i < r@.len() ==> r@[i] == 0u8,
    {
        if self.nram == 0 {
            zero_vec(8192)
        } else {
            zero_vec(8192 * (self.nram as usize))
        }
    }
}

/// Mathematical state of a cartridge.
#[verifier::ext_equal]
pub struct CartView {
    pub sram: Seq<u8>,
    pub prg: Seq<u8>,
    pub chr: Seq<u8>,
    pub mapper: Mapper,
}

impl CartView {
    /// Well-formedness: SRAM covers the whole 0x6000-0x7FFF window, and
    /// for NROM the PRG length matches the bank count the mapper folds
    /// over.
    pub open spec fn wf_s(self) -> bool {
        &&& self.sram.len() >= 0x2000
        &&& match self.mapper {
            Mapper::Nrom(m) => self.prg.len() == 0x4000 * m.nprg && m.nprg <= 255,
            Mapper::Mmc1(_) => true,
        }
    }

    /// A cartridge read. CHR sits under 0x2000, SRAM in 0x6000-0x7FFF,
    /// PRG from 0x8000 up, each through the mapper; anything else, or an
    /// index past the backing array, is a bus error.
    pub open spec fn read_s(self, addr: u16) -> Result<u8, Error> {
        if addr < 0x2000 {
            let i = self.mapper.map_chr_s(addr);
            if 0 <= i < self.chr.len() {
                Ok(self.chr[i])
            } else {
                Err(Error::Bus(addr))
            }
        } else if 0x6000 <= addr < 0x8000 {
            Ok(self.sram[self.mapper.map_sram_s(addr)])
        } else if 0x8000 <= addr {
            let i = self.mapper.map_prg_s(addr);
            if 0 <= i < self.prg.len() {
                Ok(self.prg[i])
            } else {
                Err(Error::Bus(addr))
            }
        } else {
            Err(Error::Bus(addr))
        }
    }

    /// A cartridge write: the same dispatch as `read_s`. CHR writes
    /// serve CHR RAM; SRAM writes land through the mapper. A write to
    /// the PRG window is only forwarded so a latching mapper could
    /// observe it — PRG ROM itself never changes, and the mappers of
    /// this core are stateless, so the cartridge is left as it was.
    pub open spec fn write_s(self, addr: u16, x: u8) -> Result<CartView, Error> {
        if addr < 0x2000 {
            let i = self.mapper.map_chr_s(addr);
            if 0 <= i < self.chr.len() {
                Ok(CartView { chr: self.chr.update(i, x), ..self })
            } else {
                Err(Error::Bus(addr))
            }
        } else if 0x6000 <= addr < 0x8000 {
            Ok(CartView { sram: self.sram.update(self.mapper.map_sram_s(addr), x), ..self })
        } else if 0x8000 <= addr {
            Ok(self)
        } else {
            Err(Error::Bus(addr))
        }
    }
}

/// The header decoded from the first 16 bytes; meaningful only when
/// `parse_s` does not reject the buffer.
pub open spec fn header_s(d: Seq<u8>) -> INesHeader {
    INesHeader { nprg: d[4], nchr: d[5], control1: d[6], control2: d[7], nram: d[8] }
}

/// Whether the buffer opens with the magic bytes `N`, `E`, `S`, 0x1A.
pub open spec fn magic_ok_s(d: Seq<u8>) -> bool {
    d[0] == 0x4eu8 && d[1] == 0x45u8 && d[2] == 0x53u8 && d[3] == 0x1au8
}

/// The cartridge an iNES buffer decodes to, or the parse error naming
/// the offending field or section.
pub open spec fn parse_s(d: Seq<u8>) -> Result<CartView, Error> {
    if d.len() < 16 {
        Err(Error::Parse(ParseError::ShortHeader))
    } else if !magic_ok_s(d) {
        Err(Error::Parse(ParseError::BadMagic))
    } else {
        let h = header_s(d);
        let prg_start = 16 + if h.has_trainer_s() {
            512int
        } else {
            0int
        };
        let prg_len = 16384 * h.nprg as int;
        let chr_start = prg_start + prg_len;
        let chr_len = 8192 * h.nchr as int;
        if d.len() < prg_start {
            Err(Error::Parse(ParseError::ShortTrainer))
        } else if d.len() < prg_start + prg_len {
            Err(Error::Parse(ParseError::ShortPrg))
        } else if d.len() < chr_start + chr_len {
            Err(Error::Parse(ParseError::ShortChr))
        } else {
            match h.mapper_s() {
                Ok(m) => Ok(
                    CartView {
                        sram: Seq::new(h.sram_len_s() as nat, |i: int| 0u8),
                        prg: d.subrange(prg_start, prg_start + prg_len),
                        chr: d.subrange(chr_start, chr_start + chr_len),
                        mapper: m,
                    },
                ),
                Err(e) => Err(e),
            }
        }
    }
}

/// The cartridge: its byte arrays and the mapper that indexes them.
pub struct Cartridge {
    sram: Vec<u8>,
    prg: Vec<u8>,
    chr: Vec<u8>,
    mapper: Mapper,
}

impl View for Cartridge {
    type V = CartView;

    closed spec fn view(&self) -> CartView {
        CartView { sram: self.sram@, prg: self.prg@, chr: self.chr@, mapper: self.mapper }
    }
}

impl Cartridge {
    /// Decode an iNES buffer into a cartridge.
    pub fn new(data: Vec<u8>) -> (r: Result<Cartridge, Error>)
        ensures
            match parse_s(data@) {
                Ok(cv) => r matches Ok(c) && c@ == cv && c@.wf_s(),
                Err(e) => r == Err::<Cartridge, Error>(e),
            },
    {
        if data.len() < 16 {
            return Err(Error::Parse(ParseError::ShortHeader));
        }
        if !(data[0] == 0x4e && data[1] == 0x45 && data[2] == 0x53 && data[3] == 0x1a) {
            return Err(Error::Parse(ParseError::BadMagic));
        }
        let header = INesHeader {
            nprg: data[4],
            nchr: data[5],
            control1: data[6],
            control2: data[7],
            nram: data[8],
        };
        let prg_start: usize = if header.has_trainer() {
            16 + 512
        } else {
            16
        };
        let prg_len: usize = 16384 * (header.nprg as usize);
        let chr_len: usize = 8192 * (header.nchr as usize);
        if data.len() < prg_start {
            return Err(Error::Parse(ParseError::ShortTrainer));
        }
        if data.len() - prg_start < prg_len {
            return Err(Error::Parse(ParseError::ShortPrg));
        }
        let chr_start: usize = prg_start + prg_len;
        if data.len() - chr_start < chr_len {
            return Err(Error::Parse(ParseError::ShortChr));
        }
        let mapper = match header.mapper() {
            Ok(m) => m,
            Err(e) => {
                return Err(e);
            },
        };
        let c = Cartridge {
            sram: header.sram(),
            prg: copy_range(&data, prg_start, prg_len),
            chr: copy_range(&data, chr_start, chr_len),
            mapper,
        };
        proof {
            let cv = parse_s(data@)->Ok_0;
            assert(c@.sram =~= cv.sram);
            assert(c@ =~= cv);
        }
        Ok(c)
    }

    /// A byte of cartridge memory, dispatched through the mapper.
    pub fn read(&self, addr: u16) -> (r: Result<u8, Error>)
        requires
            self@.wf_s(),
        ensures
            r == self@.read_s(addr),
    {
        if addr < 0x2000 {
            let i = match &self.mapper {
                Mapper::Nrom(m) => m.map_chr(addr),
                Mapper::Mmc1(m) => m.map_chr(addr),
            };
            if i < self.chr.len() {
                Ok(self.chr[i])
            } else {
                Err(Error::Bus(addr))
            }
        } else if 0x6000 <= addr && addr < 0x8000 {
            let i = match &self.mapper {
                Mapper::Nrom(m) => m.map_sram(addr),
                Mapper::Mmc1(m) => m.map_sram(addr),
            };
            Ok(self.sram[i])
        } else if 0x8000 <= addr {
            match &self.mapper {
                Mapper::Nrom(m) => {
                    if m.nprg == 0 {
                        Err(Error::Bus(addr))
                    } else {
                        Ok(self.prg[m.map_prg(addr)])
                    }
                },
                Mapper::Mmc1(m) => {
                    let i = m.map_prg(addr);
                    if i < self.prg.len() {
                        Ok(self.prg[i])
                    } else {
                        Err(Error::Bus(addr))
                    }
                },
            }
        } else {
            Err(Error::Bus(addr))
        }
    }

    /// Store a byte of cartridge memory, dispatched through the mapper.
    /// Only CHR RAM and SRAM actually change; a store into the PRG
    /// window is forwarded for latching and leaves the ROM untouched.
    pub fn write(&mut self, addr: u16, x: u8) -> (r: Result<(), Error>)
        requires
            old(self)@.wf_s(),
        ensures
            final(self)@.wf_s(),
            match old(self)@.write_s(addr, x) {
                Ok(cv) => r == Ok::<(), Error>(()) && final(self)@ == cv,
                Err(e) => r == Err::<(), Error>(e) && final(self)@ == old(self)@,
            },
    {
        if addr < 0x2000 {
            let i = match &self.mapper {
                Mapper::Nrom(m) => m.map_chr(addr),
                Mapper::Mmc1(m) => m.map_chr(addr),
            };
            if i < self.chr.len() {
                self.chr[i] = x;
                Ok(())
            } else {
                Err(Error::Bus(addr))
            }
        } else if 0x6000 <= addr && addr < 0x8000 {
            let i = match &self.mapper {
                Mapper::Nrom(m) => m.map_sram(addr),
                Mapper::Mmc1(m) => m.map_sram(addr),
            };
            self.sram[i] = x;
            Ok(())
        } else if 0x8000 <= addr {
            // Forwarded for mapper latching only; both mappers of this
            // core are stateless and PRG ROM never changes.
            Ok(())
        } else {
            Err(Error::Bus(addr))
        }
    }
}

} // verus!
