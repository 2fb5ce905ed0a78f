//! Core of a Nintendo Entertainment System emulator: a cycle-accounting 6502
//! interpreter, an address-decoding interconnect that routes loads and stores
//! between CPU RAM, the PPU register file and cartridge memory through a
//! swappable mapper, and the iNES cartridge decoder that initialises that
//! mapper.
//!
//! Every data path is specified: each bus operation, addressing mode and
//! instruction has a mathematical transition function, and the executable
//! code is proved to implement it.

pub mod bus;
pub mod cartridge;
pub mod cpu;
pub mod debug;
pub mod error;
pub mod flags;
pub mod instruction;
pub mod interconnect;
pub mod mapper;
pub mod memory;
pub mod nes;
pub mod ppu;
pub mod rom;
pub mod util;
