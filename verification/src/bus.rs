//! The CPU-visible bus capability.
//!
//! The CPU is written against this trait alone; the interconnect (the
//! full register-routing bus) and the flat memory map both implement it.
//! Each implementation carries a mathematical transition function for
//! reads and writes; `peek` is the side-effect-free observation path the
//! debugger uses.

use vstd::prelude::*;

use crate::error::Error;
use crate::util::word;
use crate::util::word_s;

verus! {

/// A 16-bit byte-addressed bus with possibly side-effecting reads.
pub trait Bus: View + Sized {
    /// The structural invariant every operation preserves.
    spec fn inv_s(pre: Self::V) -> bool;

    /// The transition a read makes: the new bus state and the byte, or
    /// the bus error.
    spec fn read_s(pre: Self::V, addr: u16) -> Result<(Self::V, u8), Error>;

    /// The value a side-effect-free read observes.
    spec fn peek_s(pre: Self::V, addr: u16) -> Result<u8, Error>;

    /// The transition a write makes.
    spec fn write_s(pre: Self::V, addr: u16, x: u8) -> Result<Self::V, Error>;

    /// An authoritative read, with any read side effects the address
    /// carries. A failed read leaves the bus as it was.
    fn read(&mut self, addr: u16) -> (r: Result<u8, Error>)
        requires
            Self::inv_s(old(self)@),
        ensures
            Self::inv_s(final(self)@),
            match Self::read_s(old(self)@, addr) {
                Ok((b2, x)) => r == Ok::<u8, Error>(x) && final(self)@ == b2,
                Err(e) => r == Err::<u8, Error>(e) && final(self)@ == old(self)@,
            },
    ;

    /// A side-effect-free read: what `read` would return, with the bus
    /// untouched.
    fn peek(&self, addr: u16) -> (r: Result<u8, Error>)
        requires
            Self::inv_s(self@),
        ensures
            r == Self::peek_s(self@, addr),
    ;

    /// A write. A failed write commits nothing: even a sprite DMA can
    /// only fail on its very first read, before any byte has moved.
    fn write(&mut self, addr: u16, x: u8) -> (r: Result<(), Error>)
        requires
            Self::inv_s(old(self)@),
        ensures
            Self::inv_s(final(self)@),
            match Self::write_s(old(self)@, addr, x) {
                Ok(b2) => r == Ok::<(), Error>(()) && final(self)@ == b2,
                Err(e) => r == Err::<(), Error>(e) && final(self)@ == old(self)@,
            },
    ;
}

/// The transition a little-endian 16-bit read makes: the byte at `addr`
/// then the byte at `addr + 1`.
pub open spec fn read16_s<B: Bus>(pre: B::V, addr: u16) -> Result<(B::V, u16), Error>
    recommends
        addr < 0xFFFF,
{
    match B::read_s(pre, addr) {
        Ok((b1, lo)) => match B::read_s(b1, (addr + 1) as u16) {
            Ok((b2, hi)) => Ok((b2, word_s(lo, hi))),
            Err(e) => Err(e),
        },
        Err(e) => Err(e),
    }
}


/// Read a 16-bit word little-endian from two consecutive reads.
pub fn bus_read16<B: Bus>(bus: &mut B, addr: u16) -> (r: Result<u16, Error>)
    requires
        addr < 0xFFFF,
        B::inv_s(old(bus)@),
    ensures
        B::inv_s(final(bus)@),
        match read16_s::<B>(old(bus)@, addr) {
            Ok((b2, x)) => r == Ok::<u16, Error>(x) && final(bus)@ == b2,
            Err(e) => r == Err::<u16, Error>(e),
        },
{
    let lo = bus.read(addr)?;
    let hi = bus.read(addr + 1)?;
    Ok(word(lo, hi))
}


} // verus!
