//! CPU register file and the packed status byte.
//!
//! The status flags pack into a byte as N V 1 B D I Z C from bit 7 down to
//! bit 0: bit 5 always reads as 1 in a packed copy, and bit 2 is the
//! interrupt-disable flag. Decoding a byte keeps bit 4 in the B flag.

use vstd::prelude::*;

verus! {

/// The 6502 register file: 16-bit program counter, 8-bit stack pointer
/// (logically offset into page 0x01), accumulator and the X and Y index
/// registers.
#[derive(Clone, Copy, Debug, PartialEq, Eq, Structural)]
pub struct Registers {
    pub pc: u16,
    pub sp: u8,
    pub a: u8,
    pub x: u8,
    pub y: u8,
}

impl Registers {
    /// Power-up register file: everything zero but the stack pointer,
    /// which starts at 0xFD.
    pub fn new() -> (r: Registers)
        ensures
            r == (Registers { pc: 0, sp: 0xfd, a: 0, x: 0, y: 0 }),
    {
        Registers { pc: 0, sp: 0xfd, a: 0, x: 0, y: 0 }
    }
}

/// The seven status flags. B is only meaningful in pushed copies of the
/// status byte; D is storable but never affects arithmetic on this CPU.
#[derive(Clone, Copy, Debug, PartialEq, Eq, Structural)]
pub struct Flags {
    pub n: bool,
    pub z: bool,
    pub c: bool,
    pub i: bool,
    pub d: bool,
    pub v: bool,
    pub b: bool,
}

impl Flags {
    /// All seven flags clear.
    pub open spec fn clear_s() -> Flags {
        Flags { n: false, z: false, c: false, i: false, d: false, v: false, b: false }
    }

    /// The flags unpacked from a status byte; bits 5 and 6..=7 land in
    /// their named flags, bit 4 lands in B, bit 5 is ignored.
    pub open spec fn from_byte_s(byte: u8) -> Flags {
        Flags {
            n: byte & 0x80 != 0,
            v: byte & 0x40 != 0,
            b: byte & 0x10 != 0,
            d: byte & 0x08 != 0,
            i: byte & 0x04 != 0,
            z: byte & 0x02 != 0,
            c: byte & 0x01 != 0,
        }
    }

    pub fn from_byte(byte: u8) -> (r: Flags)
        ensures
            r == Flags::from_byte_s(byte),
    {
        Flags {
            n: byte & 0x80 != 0,
            v: byte & 0x40 != 0,
            b: byte & 0x10 != 0,
            d: byte & 0x08 != 0,
            i: byte & 0x04 != 0,
            z: byte & 0x02 != 0,
            c: byte & 0x01 != 0,
        }
    }

    /// The flags packed back into a byte, with the always-set bit 5.
    pub open spec fn as_byte_s(self) -> u8 {
        ((if self.n { 0x80int } else { 0int }) + (if self.v { 0x40int } else { 0int }) + 0x20int
            + (if self.b { 0x10int } else { 0int }) + (if self.d { 0x08int } else { 0int }) + (
        if self.i { 0x04int } else { 0int }) + (if self.z { 0x02int } else { 0int }) + (if self.c {
            0x01int
        } else {
            0int
        })) as u8
    }

    pub fn as_byte(&self) -> (r: u8)
        ensures
            r == self.as_byte_s(),
    {
        let mut r: u8 = 0x20;
        if self.n {
            r = r + 0x80;
        }
        if self.v {
            r = r + 0x40;
        }
        if self.b {
            r = r + 0x10;
        }
        if self.d {
            r = r + 0x08;
        }
        if self.i {
            r = r + 0x04;
        }
        if self.z {
            r = r + 0x02;
        }
        if self.c {
            r = r + 0x01;
        }
        r
    }

    /// Flags after an 8-bit load or logical result: N from bit 7, Z from
    /// the whole byte, everything else clear.
    pub open spec fn value_nz_s(x: u8) -> Flags {
        Flags { n: x & 0x80 != 0, z: x == 0, ..Flags::clear_s() }
    }

    pub fn from_value_nz(x: u8) -> (r: Flags)
        ensures
            r == Flags::value_nz_s(x),
    {
        Flags { n: x & 0x80 != 0, z: x == 0, ..Flags { n: false, z: false, c: false, i: false, d: false, v: false, b: false } }
    }

    /// Flags for a result carried in a widened 16-bit value: Z from the low
    /// byte, C from any bit above it, everything else clear.
    pub open spec fn value_zc_s(x: u16) -> Flags {
        Flags { z: x % 256 == 0, c: x > 255, ..Flags::clear_s() }
    }

    pub fn from_value_zc(x: u16) -> (r: Flags)
        ensures
            r == Flags::value_zc_s(x),
    {
        Flags { z: x % 256 == 0, c: x > 255, ..Flags { n: false, z: false, c: false, i: false, d: false, v: false, b: false } }
    }

    /// As `value_zc_s`, with N from bit 7 of the low byte.
    pub open spec fn value_nzc_s(x: u16) -> Flags {
        Flags { n: x % 256 >= 128, ..Flags::value_zc_s(x) }
    }

    pub fn from_value_nzc(x: u16) -> (r: Flags)
        ensures
            r == Flags::value_nzc_s(x),
    {
        Flags { n: x % 256 >= 128, ..Flags::from_value_zc(x) }
    }

    /// As `value_nzc_s`, with the signed-overflow flag supplied by the
    /// caller, which alone knows both operands.
    pub open spec fn value_nzcv_s(x: u16, v: bool) -> Flags {
        Flags { v, ..Flags::value_nzc_s(x) }
    }

    pub fn from_value_nzcv(x: u16, v: bool) -> (r: Flags)
        ensures
            r == Flags::value_nzcv_s(x, v),
    {
        Flags { v, ..Flags::from_value_nzc(x) }
    }
}

impl Default for Flags {
    /// All flags clear.
    fn default() -> (r: Flags)
        ensures
            r == Flags::clear_s(),
    {
        Flags { n: false, z: false, c: false, i: false, d: false, v: false, b: false }
    }
}

/// Unpacking any status byte and packing it again yields the byte with
/// bit 5 forced on and every other bit, bit 4 included, preserved.
pub proof fn lemma_flags_round_trip(byte: u8)
    ensures
        Flags::from_byte_s(byte).as_byte_s() == byte | 0x20,
{
    assert(((if byte & 0x80 != 0 { 0x80int } else { 0int }) + (if byte & 0x40 != 0 { 0x40int } else { 0int })
        + 0x20int + (if byte & 0x10 != 0 { 0x10int } else { 0int }) + (if byte & 0x08 != 0 { 0x08int } else { 0int })
        + (if byte & 0x04 != 0 { 0x04int } else { 0int }) + (if byte & 0x02 != 0 { 0x02int } else { 0int })
        + (if byte & 0x01 != 0 { 0x01int } else { 0int })) as u8 == byte | 0x20) by (bit_vector);
}

} // verus!
