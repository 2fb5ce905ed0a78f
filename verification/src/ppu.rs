//! The PPU register interface: the core's boundary with the picture
//! processing unit.
//!
//! Other components talk to the PPU only through this register file, its
//! byte-addressable video memory and its sprite attribute memory. Register
//! reads are authoritative (reading the status register clears the vblank
//! flag and resets the address latch); the bus also offers a
//! side-effect-free peek path for debuggers.

use vstd::prelude::*;

use crate::error::Error;
use crate::util::zero_vec;

verus! {

/// Decoded state of the control register (register 0).
#[derive(Clone, Copy, Debug, PartialEq, Eq, Structural)]
pub struct Control {
    pub name_table_address: u16,
    pub addr_inc: u16,
    pub sprite_pattern_table: u16,
    pub background_pattern_table: u16,
    pub sprite_x: u16,
    pub sprite_y: u16,
    pub nmi: bool,
}

impl Control {
    /// Power-up control state.
    pub open spec fn default_s() -> Control {
        Control {
            name_table_address: 0x2000,
            addr_inc: 1,
            sprite_pattern_table: 0x0000,
            background_pattern_table: 0x0000,
            sprite_x: 8,
            sprite_y: 8,
            nmi: false,
        }
    }

    /// The control state after a write of `x` to register 0. The sprite
    /// width is not encoded in the register and is left as it was.
    pub open spec fn apply_s(self, x: u8) -> Control {
        Control {
            name_table_address: if x & 0b11 == 0 {
                0x2000
            } else if x & 0b11 == 1 {
                0x2400
            } else if x & 0b11 == 2 {
                0x2800
            } else {
                0x2c00
            },
            addr_inc: if x & 0b100 == 0 {
                1
            } else {
                32
            },
            sprite_pattern_table: if x & 0b1000 == 0 {
                0x0000
            } else {
                0x1000
            },
            background_pattern_table: if x & 0b10000 == 0 {
                0x0000
            } else {
                0x1000
            },
            sprite_y: if x & 0b100000 == 0 {
                8
            } else {
                16
            },
            nmi: x & 0b10000000 != 0,
            ..self
        }
    }

    /// Decode a control-register write into this state.
    pub fn apply(&mut self, x: u8)
        ensures
            *final(self) == old(self).apply_s(x),
    {
        self.name_table_address = if x & 0b11 == 0 {
            0x2000
        } else if x & 0b11 == 1 {
            0x2400
        } else if x & 0b11 == 2 {
            0x2800
        } else {
            0x2c00
        };
        self.addr_inc = if x & 0b100 == 0 {
            1
        } else {
            32
        };
        self.sprite_pattern_table = if x & 0b1000 == 0 {
            0x0000
        } else {
            0x1000
        };
        self.background_pattern_table = if x & 0b10000 == 0 {
            0x0000
        } else {
            0x1000
        };
        self.sprite_y = if x & 0b100000 == 0 {
            8
        } else {
            16
        };
        self.nmi = x & 0b10000000 != 0;
    }
}

impl Default for Control {
    fn default() -> (r: Control)
        ensures
            r == Control::default_s(),
    {
        Control {
            name_table_address: 0x2000,
            addr_inc: 1,
            sprite_pattern_table: 0x0000,
            background_pattern_table: 0x0000,
            sprite_x: 8,
            sprite_y: 8,
            nmi: false,
        }
    }
}

/// Whether rendering is in colour or monochrome.
#[derive(Clone, Copy, Debug, PartialEq, Eq, Structural)]
pub enum ColourMode {
    Colour,
    Monochrome,
}

/// Decoded state of the mask register (register 1).
#[derive(Clone, Copy, Debug, PartialEq, Eq, Structural)]
pub struct Mask {
    pub red: bool,
    pub green: bool,
    pub blue: bool,
    pub sprites: bool,
    pub background: bool,
    pub left_sprites: bool,
    pub left_background: bool,
    pub colour_mode: ColourMode,
}

impl Mask {
    /// Power-up mask state: everything off, colour rendering.
    pub open spec fn default_s() -> Mask {
        Mask {
            red: false,
            green: false,
            blue: false,
            sprites: false,
            background: false,
            left_sprites: false,
            left_background: false,
            colour_mode: ColourMode::Colour,
        }
    }

    /// The mask state after a write of `x` to register 1.
    pub open spec fn apply_s(self, x: u8) -> Mask {
        Mask {
            colour_mode: if x & 1 == 0 {
                ColourMode::Colour
            } else {
                ColourMode::Monochrome
            },
            left_background: x & 0b10 != 0,
            left_sprites: x & 0b100 != 0,
            background: x & 0b1000 != 0,
            sprites: x & 0b10000 != 0,
            red: x & 0b100000 != 0,
            green: x & 0b1000000 != 0,
            blue: x & 0b10000000 != 0,
        }
    }

    /// Decode a mask-register write into this state.
    pub fn apply(&mut self, x: u8)
        ensures
            *final(self) == old(self).apply_s(x),
    {
        self.colour_mode = if x & 1 == 0 {
            ColourMode::Colour
        } else {
            ColourMode::Monochrome
        };
        self.left_background = x & 0b10 != 0;
        self.left_sprites = x & 0b100 != 0;
        self.background = x & 0b1000 != 0;
        self.sprites = x & 0b10000 != 0;
        self.red = x & 0b100000 != 0;
        self.green = x & 0b1000000 != 0;
        self.blue = x & 0b10000000 != 0;
    }
}

impl Default for Mask {
    fn default() -> (r: Mask)
        ensures
            r == Mask::default_s(),
    {
        Mask {
            red: false,
            green: false,
            blue: false,
            sprites: false,
            background: false,
            left_sprites: false,
            left_background: false,
            colour_mode: ColourMode::Colour,
        }
    }
}

/// The two status-register bits this core models.
#[derive(Clone, Copy, Debug, PartialEq, Eq, Structural)]
pub struct StatusFlags {
    pub vblank: bool,
    pub writes: bool,
}

impl Default for StatusFlags {
    /// Both modelled status bits clear.
    fn default() -> (r: StatusFlags)
        ensures
            r == (StatusFlags { vblank: false, writes: false }),
    {
        StatusFlags { vblank: false, writes: false }
    }
}

/// Mathematical state of the PPU interface.
#[verifier::ext_equal]
pub struct PpuView {
    pub mem: Seq<u8>,
    pub spr: Seq<u8>,
    pub spr_addr: u8,
    pub control: Control,
    pub mask: Mask,
    pub status: StatusFlags,
    pub addr: u16,
}

impl PpuView {
    /// Well-formedness: 16 KiB of video memory and 256 bytes of sprite
    /// attribute memory.
    pub open spec fn wf_s(self) -> bool {
        self.mem.len() == 0x4000 && self.spr.len() == 256
    }

    /// Power-up state: zeroed memories, default registers.
    pub open spec fn init_s() -> PpuView {
        PpuView {
            mem: Seq::new(0x4000nat, |i: int| 0u8),
            spr: Seq::new(256nat, |i: int| 0u8),
            spr_addr: 0,
            control: Control::default_s(),
            mask: Mask::default_s(),
            status: StatusFlags { vblank: false, writes: false },
            addr: 0,
        }
    }

    /// The packed status byte: vblank in bit 7, the write flag in bit 4.
    pub open spec fn status_byte_s(self) -> u8 {
        ((if self.status.vblank {
            0x80int
        } else {
            0int
        }) + (if self.status.writes {
            0x10int
        } else {
            0int
        })) as u8
    }

    /// A byte of video memory; the 14-bit space mirrors across the
    /// 16-bit argument.
    pub open spec fn vram_read_s(self, addr: u16) -> u8 {
        self.mem[addr as int % 0x4000]
    }

    /// An authoritative register read. Register 2 yields the status
    /// byte, clears vblank and resets the address latch; register 7
    /// yields the byte under the address latch and advances the latch.
    /// Every other register is write-only.
    pub open spec fn read_register_s(self, addr: u16) -> Result<(PpuView, u8), Error> {
        let reg = addr % 8;
        if reg == 2 {
            Ok(
                (
                    PpuView {
                        status: StatusFlags { vblank: false, ..self.status },
                        addr: 0,
                        ..self
                    },
                    self.status_byte_s(),
                ),
            )
        } else if reg == 7 {
            Ok(
                (
                    PpuView { addr: self.addr.wrapping_add(self.control.addr_inc), ..self },
                    self.vram_read_s(self.addr),
                ),
            )
        } else {
            Err(Error::Bus((0x2000 + reg) as u16))
        }
    }

    /// A side-effect-free register read: the same values as
    /// `read_register_s`, with the state untouched.
    pub open spec fn peek_register_s(self, addr: u16) -> Result<u8, Error> {
        let reg = addr % 8;
        if reg == 2 {
            Ok(self.status_byte_s())
        } else if reg == 7 {
            Ok(self.vram_read_s(self.addr))
        } else {
            Err(Error::Bus((0x2000 + reg) as u16))
        }
    }

    /// A register write. Registers 0 and 1 decode into control and mask
    /// state, 3 sets the sprite address, 4 stores through it, 6 shifts a
    /// byte into the address latch and 7 stores through the latch.
    /// Register 2 is read-only and register 5 is not modelled.
    pub open spec fn write_register_s(self, addr: u16, x: u8) -> Result<PpuView, Error> {
        let reg = addr % 8;
        if reg == 0 {
            Ok(PpuView { control: self.control.apply_s(x), ..self })
        } else if reg == 1 {
            Ok(PpuView { mask: self.mask.apply_s(x), ..self })
        } else if reg == 3 {
            Ok(PpuView { spr_addr: x, ..self })
        } else if reg == 4 {
            Ok(PpuView { spr: self.spr.update(self.spr_addr as int, x), ..self })
        } else if reg == 6 {
            Ok(PpuView { addr: ((self.addr as int % 256) * 256 + x) as u16, ..self })
        } else if reg == 7 {
            Ok(PpuView { mem: self.mem.update(self.addr as int % 0x4000, x), ..self })
        } else {
            Err(Error::Bus((0x2000 + reg) as u16))
        }
    }
}

/// The register interface other components use to reach the PPU without
/// holding a reference to it.
pub struct PpuInterface {
    mem: Vec<u8>,
    spr_ram: Vec<u8>,
    spr_addr: u8,
    control: Control,
    mask: Mask,
    flags: StatusFlags,
    addr: u16,
}

impl View for PpuInterface {
    type V = PpuView;

    closed spec fn view(&self) -> PpuView {
        PpuView {
            mem: self.mem@,
            spr: self.spr_ram@,
            spr_addr: self.spr_addr,
            control: self.control,
            mask: self.mask,
            status: self.flags,
            addr: self.addr,
        }
    }
}

impl PpuInterface {
    /// A freshly powered-up interface.
    pub fn new() -> (r: PpuInterface)
        ensures
            r@ == PpuView::init_s(),
            r@.wf_s(),
    {
        let r = PpuInterface {
            mem: zero_vec(0x4000),
            spr_ram: zero_vec(256),
            spr_addr: 0x00,
            control: Default::default(),
            mask: Mask::default(),
            flags: StatusFlags { vblank: false, writes: false },
            addr: 0,
        };
        proof {
            assert(r@.mem =~= PpuView::init_s().mem);
            assert(r@.spr =~= PpuView::init_s().spr);
            assert(r@ =~= PpuView::init_s());
        }
        r
    }

    /// The packed status byte: the authoritative read of register 2,
    /// which clears vblank and resets the address latch.
    fn read_status_register(&mut self) -> (r: u8)
        ensures
            r == old(self)@.status_byte_s(),
            final(self)@ == (PpuView {
                status: StatusFlags { vblank: false, ..old(self)@.status },
                addr: 0,
                ..old(self)@
            }),
    {
        let mut sr: u8 = 0;
        if self.flags.vblank {
            sr = sr + 0x80;
        }
        if self.flags.writes {
            sr = sr + 0x10;
        }
        self.flags.vblank = false;
        self.addr = 0;
        sr
    }

    /// An authoritative register read, with its read side effects.
    pub fn read_register(&mut self, addr: u16) -> (r: Result<u8, Error>)
        requires
            old(self)@.wf_s(),
        ensures
            final(self)@.wf_s(),
            match old(self)@.read_register_s(addr) {
                Ok((v2, x)) => r == Ok::<u8, Error>(x) && final(self)@ == v2,
                Err(e) => r == Err::<u8, Error>(e) && final(self)@ == old(self)@,
            },
    {
        let reg = addr % 8;
        if reg == 2 {
            Ok(self.read_status_register())
        } else if reg == 7 {
            let x = self.mem[(self.addr % 0x4000) as usize];
            self.addr = self.addr.wrapping_add(self.control.addr_inc);
            Ok(x)
        } else {
            Err(Error::Bus(0x2000 + reg))
        }
    }

    /// The values `read_register` would return, without its side effects:
    /// the observational path for debuggers.
    pub fn peek_register(&self, addr: u16) -> (r: Result<u8, Error>)
        requires
            self@.wf_s(),
        ensures
            r == self@.peek_register_s(addr),
    {
        let reg = addr % 8;
        if reg == 2 {
            let mut sr: u8 = 0;
            if self.flags.vblank {
                sr = sr + 0x80;
            }
            if self.flags.writes {
                sr = sr + 0x10;
            }
            Ok(sr)
        } else if reg == 7 {
            Ok(self.mem[(self.addr % 0x4000) as usize])
        } else {
            Err(Error::Bus(0x2000 + reg))
        }
    }

    /// A byte of video memory, mirrored across 16 KiB.
    pub fn read(&self, addr: u16) -> (r: u8)
        requires
            self@.wf_s(),
        ensures
            r == self@.vram_read_s(addr),
    {
        self.mem[(addr % 0x4000) as usize]
    }

    /// A register write.
    pub fn write_register(&mut self, addr: u16, x: u8) -> (r: Result<(), Error>)
        requires
            old(self)@.wf_s(),
        ensures
            final(self)@.wf_s(),
            match old(self)@.write_register_s(addr, x) {
                Ok(v2) => r == Ok::<(), Error>(()) && final(self)@ == v2,
                Err(e) => r == Err::<(), Error>(e) && final(self)@ == old(self)@,
            },
    {
        let reg = addr % 8;
        if reg == 0 {
            self.control.apply(x);
            Ok(())
        } else if reg == 1 {
            self.mask.apply(x);
            Ok(())
        } else if reg == 3 {
            self.spr_addr = x;
            Ok(())
        } else if reg == 4 {
            self.spr_ram[self.spr_addr as usize] = x;
            Ok(())
        } else if reg == 6 {
            self.addr = (self.addr % 256) * 256 + (x as u16);
            Ok(())
        } else if reg == 7 {
            let a = (self.addr % 0x4000) as usize;
            self.mem[a] = x;
            Ok(())
        } else {
            Err(Error::Bus(0x2000 + reg))
        }
    }

    /// Store a byte of video memory, mirrored across 16 KiB.
    pub fn write(&mut self, addr: u16, x: u8)
        requires
            old(self)@.wf_s(),
        ensures
            final(self)@.wf_s(),
            final(self)@ == (PpuView { mem: old(self)@.mem.update(addr as int % 0x4000, x), ..old(self)@ }),
    {
        let a = (addr % 0x4000) as usize;
        self.mem[a] = x;
    }

    /// Store a byte of sprite attribute memory; sprite DMA streams
    /// through this.
    pub fn write_spr(&mut self, addr: u8, x: u8)
        requires
            old(self)@.wf_s(),
        ensures
            final(self)@.wf_s(),
            final(self)@ == (PpuView { spr: old(self)@.spr.update(addr as int, x), ..old(self)@ }),
    {
        self.spr_ram[addr as usize] = x;
    }

    /// A byte of sprite attribute memory, read without side effects.
    pub fn read_spr(&self, addr: u8) -> (r: u8)
        requires
            self@.wf_s(),
        ensures
            r == self@.spr[addr as int],
    {
        self.spr_ram[addr as usize]
    }

    /// The decoded control register.
    pub fn control(&self) -> (r: &Control)
        ensures
            r == self@.control,
    {
        &self.control
    }

    /// The decoded mask register.
    pub fn mask(&self) -> (r: &Mask)
        ensures
            r == self@.mask,
    {
        &self.mask
    }
}

} // verus!
