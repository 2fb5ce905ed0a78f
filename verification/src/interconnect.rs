//! The interconnect: the bus that maps every 16-bit CPU address to the
//! right backing store and executes sprite DMA.
//!
//! Routing: 0x0000-0x1FFF is the 2 KiB of CPU RAM mirrored by folding
//! modulo 0x0800; 0x2000-0x3FFF are the eight PPU registers mirrored by
//! folding modulo 8; 0x4014 is the write-only sprite-DMA trigger;
//! the APU/IO and expansion regions 0x4000-0x5FFF are unimplemented and
//! fatal; 0x6000-0xFFFF belongs to the cartridge.

use vstd::prelude::*;

use crate::bus::Bus;
use crate::bus::bus_read16;
use crate::bus::read16_s;
use crate::cartridge::CartView;
use crate::cartridge::Cartridge;
use crate::mapper::Mapper;
use crate::error::Error;
use crate::ppu::PpuInterface;
use crate::ppu::PpuView;
use crate::util::zero_vec;

verus! {

/// Mathematical state of the interconnect.
#[verifier::ext_equal]
pub struct IcView {
    pub ram: Seq<u8>,
    pub cart: CartView,
    pub ppu: PpuView,
    pub dma: bool,
}

impl IcView {
    /// Well-formedness of every backing store.
    pub open spec fn wf_s(self) -> bool {
        self.ram.len() == 0x800 && self.cart.wf_s() && self.ppu.wf_s()
    }

    /// Power-up state around a cartridge: zeroed RAM, powered-up PPU,
    /// no DMA pending.
    pub open spec fn init_s(cart: CartView) -> IcView {
        IcView {
            ram: Seq::new(0x800nat, |i: int| 0u8),
            cart,
            ppu: PpuView::init_s(),
            dma: false,
        }
    }

    /// The transition a CPU read makes.
    pub open spec fn read_s(self, addr: u16) -> Result<(IcView, u8), Error> {
        if addr < 0x2000 {
            Ok((self, self.ram[addr as int % 0x800]))
        } else if addr < 0x4000 {
            match self.ppu.read_register_s(addr) {
                Ok((p, x)) => Ok((IcView { ppu: p, ..self }, x)),
                Err(e) => Err(e),
            }
        } else if addr < 0x6000 {
            Err(Error::Bus(addr))
        } else {
            match self.cart.read_s(addr) {
                Ok(x) => Ok((self, x)),
                Err(e) => Err(e),
            }
        }
    }

    /// What a side-effect-free CPU read observes: the same routing as
    /// `read_s`, with no state change (a status peek leaves vblank set,
    /// a data peek leaves the address latch alone).
    pub open spec fn peek_cpu_s(self, addr: u16) -> Result<u8, Error> {
        if addr < 0x2000 {
            Ok(self.ram[addr as int % 0x800])
        } else if addr < 0x4000 {
            self.ppu.peek_register_s(addr)
        } else if addr < 0x6000 {
            Err(Error::Bus(addr))
        } else {
            self.cart.read_s(addr)
        }
    }

    /// The state after the sprite-DMA copy has streamed bytes
    /// `base + i .. base + 256` of the bus into sprite memory at
    /// `i .. 256`, or the error of the first read that failed.
    pub open spec fn dma_from_s(self, base: u16, i: int) -> Result<IcView, Error>
        decreases 256 - i,
    {
        if i < 0 || i >= 256 {
            Ok(self)
        } else {
            match self.read_s((base + i) as u16) {
                Ok((b1, x)) => (IcView {
                    ppu: PpuView { spr: b1.ppu.spr.update(i, x), ..b1.ppu },
                    ..b1
                }).dma_from_s(base, i + 1),
                Err(e) => Err(e),
            }
        }
    }

    /// Whether every read in the 256-byte page at `base` succeeds: the
    /// page lies wholly in RAM, in SRAM, or in readable PRG. A sprite
    /// DMA from any other page fails on its very first read, so a
    /// failed DMA commits nothing.
    pub open spec fn dma_page_ok_s(self, base: u16) -> bool {
        ||| base < 0x2000
        ||| 0x6000 <= base < 0x8000
        ||| (0x8000 <= base && match self.cart.mapper {
            Mapper::Nrom(m) => m.nprg >= 1,
            Mapper::Mmc1(_) => self.cart.prg.len() > 0,
        })
    }

    /// The transition a CPU write makes. A write to 0x4014 interprets
    /// the byte as a page index, copies that page into sprite memory
    /// with all normal read routing, and raises the DMA-pending flag.
    pub open spec fn write_s(self, addr: u16, x: u8) -> Result<IcView, Error> {
        if addr < 0x2000 {
            Ok(IcView { ram: self.ram.update(addr as int % 0x800, x), ..self })
        } else if addr < 0x4000 {
            match self.ppu.write_register_s(addr, x) {
                Ok(p) => Ok(IcView { ppu: p, ..self }),
                Err(e) => Err(e),
            }
        } else if addr == 0x4014 {
            match self.dma_from_s((x as u16 * 256) as u16, 0) {
                Ok(b) => Ok(IcView { dma: true, ..b }),
                Err(e) => Err(e),
            }
        } else if addr < 0x6000 {
            Err(Error::Bus(addr))
        } else {
            match self.cart.write_s(addr, x) {
                Ok(c) => Ok(IcView { cart: c, ..self }),
                Err(e) => Err(e),
            }
        }
    }
}

/// The bus: 2 KiB of CPU RAM, the owned cartridge, the PPU register
/// interface and the DMA-pending flag.
pub struct Interconnect {
    ram: Vec<u8>,
    cartridge: Cartridge,
    ppu_interface: PpuInterface,
    dma: bool,
}

impl View for Interconnect {
    type V = IcView;

    closed spec fn view(&self) -> IcView {
        IcView {
            ram: self.ram@,
            cart: self.cartridge@,
            ppu: self.ppu_interface@,
            dma: self.dma,
        }
    }
}

impl Interconnect {
    /// A powered-up interconnect around a cartridge.
    pub fn new(cartridge: Cartridge) -> (r: Interconnect)
        requires
            cartridge@.wf_s(),
        ensures
            r@.wf_s(),
            r@ == IcView::init_s(cartridge@),
    {
        let r = Interconnect {
            ram: zero_vec(0x800),
            cartridge,
            ppu_interface: PpuInterface::new(),
            dma: false,
        };
        proof {
            assert(r@.ram =~= IcView::init_s(r@.cart).ram);
            assert(r@ =~= IcView::init_s(r@.cart));
        }
        r
    }

    /// An authoritative CPU read, with any read side effects.
    pub fn cpu_read(&mut self, addr: u16) -> (r: Result<u8, Error>)
        requires
            old(self)@.wf_s(),
        ensures
            final(self)@.wf_s(),
            match old(self)@.read_s(addr) {
                Ok((b2, x)) => r == Ok::<u8, Error>(x) && final(self)@ == b2,
                Err(e) => r == Err::<u8, Error>(e) && final(self)@ == old(self)@,
            },
    {
        if addr < 0x2000 {
            Ok(self.ram[(addr % 0x800) as usize])
        } else if addr < 0x4000 {
            let r = self.ppu_interface.read_register(addr);
            proof {
                if old(self)@.ppu.read_register_s(addr) is Ok {
                    assert(self@ =~= (IcView {
                        ppu: old(self)@.ppu.read_register_s(addr)->Ok_0.0,
                        ..old(self)@
                    }));
                } else {
                    assert(self@ =~= old(self)@);
                }
            }
            r
        } else if addr < 0x6000 {
            Err(Error::Bus(addr))
        } else {
            self.cartridge.read(addr)
        }
    }

    /// The value `cpu_read` would return, with no side effects: the
    /// debugger's observation path.
    pub fn cpu_peek(&self, addr: u16) -> (r: Result<u8, Error>)
        requires
            self@.wf_s(),
        ensures
            r == self@.peek_cpu_s(addr),
    {
        if addr < 0x2000 {
            Ok(self.ram[(addr % 0x800) as usize])
        } else if addr < 0x4000 {
            self.ppu_interface.peek_register(addr)
        } else if addr < 0x6000 {
            Err(Error::Bus(addr))
        } else {
            self.cartridge.read(addr)
        }
    }

    /// A little-endian 16-bit read: two consecutive authoritative reads.
    pub fn cpu_read_u16(&mut self, addr: u16) -> (r: Result<u16, Error>)
        requires
            addr < 0xFFFF,
            old(self)@.wf_s(),
        ensures
            final(self)@.wf_s(),
            match read16_s::<Interconnect>(old(self)@, addr) {
                Ok((b2, x)) => r == Ok::<u16, Error>(x) && final(self)@ == b2,
                Err(e) => r == Err::<u16, Error>(e),
            },
    {
        bus_read16(self, addr)
    }

    /// A CPU write; a store to 0x4014 runs the 256-byte sprite DMA and
    /// raises the DMA-pending flag.
    pub fn cpu_write(&mut self, addr: u16, x: u8) -> (r: Result<(), Error>)
        requires
            old(self)@.wf_s(),
        ensures
            final(self)@.wf_s(),
            match old(self)@.write_s(addr, x) {
                Ok(b2) => r == Ok::<(), Error>(()) && final(self)@ == b2,
                Err(e) => r == Err::<(), Error>(e) && final(self)@ == old(self)@,
            },
    {
        if addr < 0x2000 {
            let i = (addr % 0x800) as usize;
            self.ram[i] = x;
            proof {
                assert(self@ =~= (IcView {
                    ram: old(self)@.ram.update(addr as int % 0x800, x),
                    ..old(self)@
                }));
            }
            Ok(())
        } else if addr < 0x4000 {
            let r = self.ppu_interface.write_register(addr, x);
            proof {
                if old(self)@.ppu.write_register_s(addr, x) is Ok {
                    assert(self@ =~= (IcView {
                        ppu: old(self)@.ppu.write_register_s(addr, x)->Ok_0,
                        ..old(self)@
                    }));
                } else {
                    assert(self@ =~= old(self)@);
                }
            }
            r
        } else if addr == 0x4014 {
            let base: u16 = (x as u16) * 256;
            let mut i: usize = 0;
            while i < 256
                invariant
                    i <= 256,
                    addr == 0x4014,
                    base == x as u16 * 256,
                    self@.wf_s(),
                    old(self)@.dma_from_s(base, 0) == self@.dma_from_s(base, i as int),
                    i == 0 ==> self@ == old(self)@,
                    i > 0 ==> old(self)@.dma_page_ok_s(base),
                    self@.cart == old(self)@.cart,
                decreases 256 - i,
            {
                let ghost cur = self@;
                let v = match self.cpu_read(base + (i as u16)) {
                    Ok(v) => v,
                    Err(e) => {
                        proof {
                            assert(cur.dma_from_s(base, i as int) == Err::<IcView, Error>(e));
                            if i > 0 {
                                // A page whose base read succeeded never
                                // fails later: its region is uniform and
                                // loses no byte to the copy so far.
                                assert(base + i < 0x2000 || 0x6000 <= base + i) by {
                                    assert(x < 0x20 || 0x60 <= x);
                                };
                                assert(false);
                            }
                        }
                        return Err(e);
                    },
                };
                proof {
                    if i == 0 {
                        // The base read succeeded, so the page cannot lie
                        // in a register or unimplemented region, and a
                        // PRG page has bytes behind it.
                        if 0x2000 <= base < 0x4000 {
                            assert(base % 8 == 0) by (nonlinear_arith)
                                requires
                                    base == x as u16 * 256,
                            ;
                            assert(false);
                        }
                        assert(old(self)@.dma_page_ok_s(base));
                    }
                }
                let ghost mid = self@;
                self.ppu_interface.write_spr(i as u8, v);
                proof {
                    assert(self@ =~= (IcView {
                        ppu: PpuView { spr: mid.ppu.spr.update(i as int, v), ..mid.ppu },
                        ..mid
                    }));
                    assert(cur.dma_from_s(base, i as int) == self@.dma_from_s(base, i + 1));
                }
                i = i + 1;
            }
            self.dma = true;
            proof {
                assert(old(self)@.write_s(addr, x) matches Ok(b) && self@ =~= b);
            }
            Ok(())
        } else if addr < 0x6000 {
            Err(Error::Bus(addr))
        } else {
            let r = self.cartridge.write(addr, x);
            proof {
                if old(self)@.cart.write_s(addr, x) is Ok {
                    assert(self@ =~= (IcView {
                        cart: old(self)@.cart.write_s(addr, x)->Ok_0,
                        ..old(self)@
                    }));
                } else {
                    assert(self@ =~= old(self)@);
                }
            }
            r
        }
    }

    /// The PPU register interface, read-only.
    pub fn ppu_interface_ref(&self) -> (r: &PpuInterface)
        ensures
            r@ == self@.ppu,
    {
        &self.ppu_interface
    }

    /// A byte of PPU video memory, read without side effects.
    pub fn ppu_read(&self, addr: u16) -> (r: u8)
        requires
            self@.wf_s(),
        ensures
            r == self@.ppu.vram_read_s(addr),
    {
        self.ppu_interface.read(addr)
    }

    /// Whether a sprite DMA has run since the flag was last cleared: the
    /// CPU charges its stall cycles from this.
    pub fn dma(&self) -> (r: bool)
        ensures
            r == self@.dma,
    {
        self.dma
    }

    /// Set or clear the DMA-pending flag.
    pub fn set_dma(&mut self, value: bool)
        ensures
            final(self)@ == (IcView { dma: value, ..old(self)@ }),
    {
        self.dma = value;
        proof {
            assert(self@ =~= (IcView { dma: value, ..old(self)@ }));
        }
    }
}

/// RAM mirroring: after writing a byte anywhere in 0x0000-0x1FFF, a
/// read of any address in that range that folds to the same RAM cell
/// returns the byte, and the read changes nothing.
pub proof fn lemma_ram_mirroring(ic: IcView, a: u16, a2: u16, b: u8)
    requires
        ic.wf_s(),
        a < 0x2000,
        a2 < 0x2000,
        a % 0x800 == a2 % 0x800,
    ensures
        ic.write_s(a, b) matches Ok(ic2) && (ic2.read_s(a2) matches Ok(p) && p.1 == b && p.0
            == ic2),
{
}

impl Bus for Interconnect {
    open spec fn inv_s(pre: IcView) -> bool {
        pre.wf_s()
    }

    open spec fn read_s(pre: IcView, addr: u16) -> Result<(IcView, u8), Error> {
        pre.read_s(addr)
    }

    open spec fn peek_s(pre: IcView, addr: u16) -> Result<u8, Error> {
        pre.peek_cpu_s(addr)
    }

    open spec fn write_s(pre: IcView, addr: u16, x: u8) -> Result<IcView, Error> {
        pre.write_s(addr, x)
    }

    fn read(&mut self, addr: u16) -> (r: Result<u8, Error>) {
        self.cpu_read(addr)
    }

    fn peek(&self, addr: u16) -> (r: Result<u8, Error>) {
        self.cpu_peek(addr)
    }

    fn write(&mut self, addr: u16, x: u8) -> (r: Result<(), Error>) {
        self.cpu_write(addr, x)
    }
}

} // verus!
