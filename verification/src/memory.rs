//! A flat memory map: the simpler bus, with the PPU region exposed as
//! its byte-addressable video-memory view instead of the register file.
//!
//! Routing: 0x0000-0x1FFF is CPU RAM folded modulo 0x0800;
//! 0x2000-0x3FFF and 0x4014 read and write PPU video memory directly,
//! with no register side effects; the remaining I/O and expansion
//! regions are fatal; 0x6000-0xFFFF belongs to the cartridge.

use vstd::prelude::*;

use crate::bus::Bus;
use crate::bus::read16_s;
use crate::cartridge::CartView;
use crate::cartridge::Cartridge;
use crate::error::Error;
use crate::ppu::PpuInterface;
use crate::ppu::PpuView;
use crate::util::zero_vec;

verus! {

/// Mathematical state of the flat memory map.
#[verifier::ext_equal]
pub struct MemView {
    pub ram: Seq<u8>,
    pub cart: CartView,
    pub ppu: PpuView,
}

impl MemView {
    /// Well-formedness of every backing store.
    pub open spec fn wf_s(self) -> bool {
        self.ram.len() == 0x800 && self.cart.wf_s() && self.ppu.wf_s()
    }

    /// Power-up state around a cartridge.
    pub open spec fn init_s(cart: CartView) -> MemView {
        MemView { ram: Seq::new(0x800nat, |i: int| 0u8), cart, ppu: PpuView::init_s() }
    }

    /// What a read observes. No address on this map has read side
    /// effects, so this is the whole story of `read_s`.
    pub open spec fn peek_mem_s(self, addr: u16) -> Result<u8, Error> {
        if addr < 0x2000 {
            Ok(self.ram[addr as int % 0x800])
        } else if addr < 0x4000 || addr == 0x4014 {
            Ok(self.ppu.vram_read_s(addr))
        } else if addr < 0x6000 {
            Err(Error::Bus(addr))
        } else {
            self.cart.read_s(addr)
        }
    }

    /// The transition a read makes: the value of `peek_mem_s`, state
    /// unchanged.
    pub open spec fn read_mem_s(self, addr: u16) -> Result<(MemView, u8), Error> {
        match self.peek_mem_s(addr) {
            Ok(x) => Ok((self, x)),
            Err(e) => Err(e),
        }
    }

    /// The transition a write makes.
    pub open spec fn write_mem_s(self, addr: u16, x: u8) -> Result<MemView, Error> {
        if addr < 0x2000 {
            Ok(MemView { ram: self.ram.update(addr as int % 0x800, x), ..self })
        } else if addr < 0x4000 || addr == 0x4014 {
            Ok(
                MemView {
                    ppu: PpuView { mem: self.ppu.mem.update(addr as int % 0x4000, x), ..self.ppu },
                    ..self
                },
            )
        } else if addr < 0x6000 {
            Err(Error::Bus(addr))
        } else {
            match self.cart.write_s(addr, x) {
                Ok(c) => Ok(MemView { cart: c, ..self }),
                Err(e) => Err(e),
            }
        }
    }
}

/// The flat memory map: CPU RAM, a cartridge and the PPU's video memory.
pub struct Memory {
    ram: Vec<u8>,
    cartridge: Cartridge,
    ppu_interface: PpuInterface,
}

impl View for Memory {
    type V = MemView;

    closed spec fn view(&self) -> MemView {
        MemView { ram: self.ram@, cart: self.cartridge@, ppu: self.ppu_interface@ }
    }
}

impl Memory {
    /// A powered-up memory map around a cartridge.
    pub fn new(cartridge: Cartridge) -> (r: Memory)
        requires
            cartridge@.wf_s(),
        ensures
            r@.wf_s(),
            r@ == MemView::init_s(cartridge@),
    {
        let r = Memory { ram: zero_vec(0x800), cartridge, ppu_interface: PpuInterface::new() };
        proof {
            assert(r@.ram =~= MemView::init_s(r@.cart).ram);
            assert(r@ =~= MemView::init_s(r@.cart));
        }
        r
    }

    /// A read; no address on this map has read side effects.
    pub fn read(&mut self, addr: u16) -> (r: Result<u8, Error>)
        requires
            old(self)@.wf_s(),
        ensures
            final(self)@ == old(self)@,
            r == old(self)@.peek_mem_s(addr),
    {
        if addr < 0x2000 {
            Ok(self.ram[(addr % 0x800) as usize])
        } else if addr < 0x4000 || addr == 0x4014 {
            Ok(self.ppu_interface.read(addr))
        } else if addr < 0x6000 {
            Err(Error::Bus(addr))
        } else {
            self.cartridge.read(addr)
        }
    }

    /// A little-endian 16-bit read.
    pub fn read_u16(&mut self, addr: u16) -> (r: Result<u16, Error>)
        requires
            addr < 0xFFFF,
            old(self)@.wf_s(),
        ensures
            final(self)@ == old(self)@,
            match read16_s::<Memory>(old(self)@, addr) {
                Ok((b2, x)) => r == Ok::<u16, Error>(x),
                Err(e) => r == Err::<u16, Error>(e),
            },
    {
        let lo = self.read(addr)?;
        let hi = self.read(addr + 1)?;
        Ok(crate::util::word(lo, hi))
    }

    /// A write.
    pub fn write(&mut self, addr: u16, x: u8) -> (r: Result<(), Error>)
        requires
            old(self)@.wf_s(),
        ensures
            final(self)@.wf_s(),
            match old(self)@.write_mem_s(addr, x) {
                Ok(b2) => r == Ok::<(), Error>(()) && final(self)@ == b2,
                Err(e) => r == Err::<(), Error>(e) && final(self)@ == old(self)@,
            },
    {
        if addr < 0x2000 {
            let i = (addr % 0x800) as usize;
            self.ram[i] = x;
            proof {
                assert(self@ =~= (MemView {
                    ram: old(self)@.ram.update(addr as int % 0x800, x),
                    ..old(self)@
                }));
            }
            Ok(())
        } else if addr < 0x4000 || addr == 0x4014 {
            self.ppu_interface.write(addr, x);
            proof {
                assert(self@ =~= (MemView {
                    ppu: PpuView {
                        mem: old(self)@.ppu.mem.update(addr as int % 0x4000, x),
                        ..old(self)@.ppu
                    },
                    ..old(self)@
                }));
            }
            Ok(())
        } else if addr < 0x6000 {
            Err(Error::Bus(addr))
        } else {
            let r = self.cartridge.write(addr, x);
            proof {
                if old(self)@.cart.write_s(addr, x) is Ok {
                    assert(self@ =~= (MemView {
                        cart: old(self)@.cart.write_s(addr, x)->Ok_0,
                        ..old(self)@
                    }));
                } else {
                    assert(self@ =~= old(self)@);
                }
            }
            r
        }
    }
}

impl Bus for Memory {
    open spec fn inv_s(pre: MemView) -> bool {
        pre.wf_s()
    }

    open spec fn read_s(pre: MemView, addr: u16) -> Result<(MemView, u8), Error> {
        pre.read_mem_s(addr)
    }

    open spec fn peek_s(pre: MemView, addr: u16) -> Result<u8, Error> {
        pre.peek_mem_s(addr)
    }

    open spec fn write_s(pre: MemView, addr: u16, x: u8) -> Result<MemView, Error> {
        pre.write_mem_s(addr, x)
    }

    fn read(&mut self, addr: u16) -> (r: Result<u8, Error>) {
        self.read(addr)
    }

    fn peek(&self, addr: u16) -> (r: Result<u8, Error>) {
        if addr < 0x2000 {
            Ok(self.ram[(addr % 0x800) as usize])
        } else if addr < 0x4000 || addr == 0x4014 {
            Ok(self.ppu_interface.read(addr))
        } else if addr < 0x6000 {
            Err(Error::Bus(addr))
        } else {
            self.cartridge.read(addr)
        }
    }

    fn write(&mut self, addr: u16, x: u8) -> (r: Result<(), Error>) {
        self.write(addr, x)
    }
}

} // verus!
