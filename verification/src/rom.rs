//! A minimal view of a ROM binary: the raw header fields read off the
//! front of the buffer, and everything after them.

use vstd::prelude::*;

use crate::util::copy_range;

verus! {

/// The raw leading fields of a ROM binary: a 32-bit magic word, the
/// PRG, CHR and RAM counts, the two control bytes, and the payload.
pub struct INesRom {
    pub magic: u32,
    pub prg: u8,
    pub chr: u8,
    pub control1: u8,
    pub control2: u8,
    pub ram: u8,
    pub data: Vec<u8>,
}

/// A ROM binary reduced to its payload bytes.
pub struct Rom {
    pub data: Vec<u8>,
}

impl Rom {
    /// Split a buffer after its nine leading header bytes. `Some` holds
    /// the payload — everything from offset nine on, which must be at
    /// least one byte — and `None` means the buffer is too short.
    pub fn from_bytes(data: Vec<u8>) -> (r: Option<Rom>)
        ensures
            data@.len() >= 10 ==> (r matches Some(rom) && rom.data@ == data@.subrange(
                9,
                data@.len() as int,
            )),
            data@.len() < 10 ==> r is None,
    {
        if data.len() < 10 {
            return None;
        }
        let magic = data[0] as u32 + data[1] as u32 * 256 + data[2] as u32 * 65536 + data[3] as u32
            * 16777216;
        let rest = copy_range(&data, 9, data.len() - 9);
        let rom = INesRom {
            magic,
            prg: data[4],
            chr: data[5],
            control1: data[6],
            control2: data[7],
            ram: data[8],
            data: rest,
        };
        Some(Rom { data: rom.data })
    }
}

} // verus!
