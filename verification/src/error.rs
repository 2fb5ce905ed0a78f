//! The error kinds surfaced by the emulator core.

use vstd::prelude::*;

verus! {

/// The exact header field or section on which iNES decoding failed.
#[derive(Clone, Copy, Debug, PartialEq, Eq, Structural)]
pub enum ParseError {
    /// The four magic bytes are not `N`, `E`, `S`, 0x1A.
    BadMagic,
    /// The buffer ends before the 16-byte header does.
    ShortHeader,
    /// The trainer flag is set but 512 trainer bytes are missing.
    ShortTrainer,
    /// Fewer PRG bytes than the header promises.
    ShortPrg,
    /// Fewer CHR bytes than the header promises.
    ShortChr,
    /// The mapper number is not one this core implements.
    UnknownMapper(u8),
}

/// A fatal condition: construction fails, or a run halts.
///
/// `Io` and `Parse` arise while building a cartridge; `Decode` and `Bus`
/// propagate out of a CPU step and are never retried.
#[derive(Clone, Copy, Debug, PartialEq, Eq, Structural)]
pub enum Error {
    /// The ROM file could not be read. Raised only by callers that do I/O;
    /// the core itself never produces it.
    Io,
    /// The ROM container is malformed; the payload names the offending field.
    Parse(ParseError),
    /// An opcode byte outside the instruction table was fetched.
    /// Carries the address the opcode was fetched from and the byte itself.
    Decode(u16, u8),
    /// A load or store touched a forbidden or unimplemented address.
    Bus(u16),
}

} // verus!
