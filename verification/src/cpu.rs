//! The 6502 interpreter: fetch, addressing-mode resolution, execution
//! dispatch and cycle accounting, written against the [`Bus`] capability.
//!
//! Every operation has a mathematical transition function over the CPU
//! state and the bus view; `step` is proved to implement the composition
//! of fetch, decode and per-instruction execution.

use vstd::prelude::*;

use crate::bus::Bus;
use crate::bus::bus_read16;
use crate::bus::read16_s;
use crate::error::Error;
use crate::interconnect::IcView;
use crate::interconnect::Interconnect;
use crate::flags::Flags;
use crate::flags::Registers;
use crate::instruction::AddressMode;
use crate::instruction::Instruction;
use crate::instruction::Mnemonic;
use crate::instruction::decode_s;
use crate::instruction::is_branch_s;
use crate::instruction::is_rmw_s;
use crate::instruction::lemma_decode_wf;
use crate::instruction::mode_ok_s;
use crate::instruction::operand_len_s;
use crate::instruction::reads_value_s;
use crate::util::word;
use crate::util::word_s;

verus! {

/// Whether two addresses lie in different 256-byte pages.
pub open spec fn pages_differ_s(a: u16, b: u16) -> bool {
    a / 256 != b / 256
}

fn pages_differ(a: u16, b: u16) -> (r: bool)
    ensures
        r == pages_differ_s(a, b),
{
    a / 256 != b / 256
}

/// The branch target: the post-operand program counter plus the
/// sign-extended offset, wrapping modulo 2^16.
pub open spec fn branch_target_s(pc_after: u16, offset: u8) -> u16 {
    if offset < 0x80 {
        ((pc_after + offset) % 0x10000) as u16
    } else {
        ((pc_after + offset + 0xFF00) % 0x10000) as u16
    }
}

/// The CPU: its register file and status flags. All memory lives behind
/// the bus it is stepped against.
#[derive(Clone, Copy, Debug, PartialEq, Eq, Structural)]
pub struct Cpu {
    pub reg: Registers,
    pub flags: Flags,
}

impl Cpu {
    /// A powered-up CPU; the program counter is loaded by `reset`.
    pub fn new() -> (r: Cpu)
        ensures
            r == (Cpu {
                reg: Registers { pc: 0, sp: 0xfd, a: 0, x: 0, y: 0 },
                flags: Flags::clear_s(),
            }),
    {
        Cpu { reg: Registers::new(), flags: Default::default() }
    }

    pub open spec fn with_pc_s(self, pc: u16) -> Cpu {
        Cpu { reg: Registers { pc, ..self.reg }, ..self }
    }

    pub open spec fn with_sp_s(self, sp: u8) -> Cpu {
        Cpu { reg: Registers { sp, ..self.reg }, ..self }
    }

    /// Fetch one byte at the program counter and advance it, wrapping.
    pub open spec fn next_s<B: Bus>(self, bus: B::V) -> Result<(Cpu, B::V, u8), Error> {
        match B::read_s(bus, self.reg.pc) {
            Ok((b1, x)) => Ok((self.with_pc_s(self.reg.pc.wrapping_add(1)), b1, x)),
            Err(e) => Err(e),
        }
    }

    /// Fetch a little-endian 16-bit word at the program counter.
    pub open spec fn next16_s<B: Bus>(self, bus: B::V) -> Result<(Cpu, B::V, u16), Error> {
        match self.next_s::<B>(bus) {
            Ok((c1, b1, lo)) => match c1.next_s::<B>(b1) {
                Ok((c2, b2, hi)) => Ok((c2, b2, word_s(lo, hi))),
                Err(e) => Err(e),
            },
            Err(e) => Err(e),
        }
    }

    fn next<B: Bus>(&mut self, mem: &mut B) -> (r: Result<u8, Error>)
        requires
            B::inv_s(old(mem)@),
        ensures
            B::inv_s(final(mem)@),
            match old(self).next_s::<B>(old(mem)@) {
                Ok((c, b, x)) => r == Ok::<u8, Error>(x) && *final(self) == c && final(mem)@ == b,
                Err(e) => r == Err::<u8, Error>(e) && *final(self) == *old(self) && final(mem)@
                    == old(mem)@,
            },
    {
        let x = mem.read(self.reg.pc)?;
        self.reg.pc = self.reg.pc.wrapping_add(1);
        Ok(x)
    }

    fn next_u16<B: Bus>(&mut self, mem: &mut B) -> (r: Result<u16, Error>)
        requires
            B::inv_s(old(mem)@),
        ensures
            B::inv_s(final(mem)@),
            match old(self).next16_s::<B>(old(mem)@) {
                Ok((c, b, x)) => r == Ok::<u16, Error>(x) && *final(self) == c && final(mem)@ == b,
                Err(e) => r == Err::<u16, Error>(e),
            },
    {
        let lo = self.next(mem)?;
        let hi = self.next(mem)?;
        Ok(word(lo, hi))
    }

    /// Observe the byte under the program counter without side effects.
    pub fn peek<B: Bus>(&self, mem: &B) -> (r: Result<u8, Error>)
        requires
            B::inv_s(mem@),
        ensures
            r == B::peek_s(mem@, self.reg.pc),
    {
        mem.peek(self.reg.pc)
    }

    /// Observe the byte `skip` places past the program counter without
    /// side effects; the address wraps modulo 2^16.
    pub fn skip_peek<B: Bus>(&self, skip: usize, mem: &B) -> (r: Result<u8, Error>)
        requires
            skip <= 0xFFFF,
            B::inv_s(mem@),
        ensures
            r == B::peek_s(mem@, self.reg.pc.wrapping_add(skip as u16)),
    {
        mem.peek(self.reg.pc.wrapping_add(skip as u16))
    }

    /// Observe the little-endian word under the program counter without
    /// side effects.
    pub fn peek_u16<B: Bus>(&self, mem: &B) -> (r: Result<u16, Error>)
        requires
            B::inv_s(mem@),
        ensures
            r == (match B::peek_s(mem@, self.reg.pc) {
                Ok(lo) => match B::peek_s(mem@, self.reg.pc.wrapping_add(1)) {
                    Ok(hi) => Ok::<u16, Error>(word_s(lo, hi)),
                    Err(e) => Err(e),
                },
                Err(e) => Err(e),
            }),
    {
        let lo = self.peek(mem)?;
        let hi = self.skip_peek(1, mem)?;
        Ok(word(lo, hi))
    }

    /// Observe the little-endian word `skip` places past the program
    /// counter without side effects.
    pub fn skip_peek_u16<B: Bus>(&self, skip: usize, mem: &B) -> (r: Result<u16, Error>)
        requires
            skip <= 0xFFFE,
            B::inv_s(mem@),
        ensures
            r == (match B::peek_s(mem@, self.reg.pc.wrapping_add(skip as u16)) {
                Ok(lo) => match B::peek_s(mem@, self.reg.pc.wrapping_add((skip + 1) as u16)) {
                    Ok(hi) => Ok::<u16, Error>(word_s(lo, hi)),
                    Err(e) => Err(e),
                },
                Err(e) => Err(e),
            }),
    {
        let lo = self.skip_peek(skip, mem)?;
        let hi = self.skip_peek(skip + 1, mem)?;
        Ok(word(lo, hi))
    }

    /// Reset per the 6502 power-up sequence: the program counter is
    /// loaded from the vector at 0xFFFC, the stack pointer is 0xFD, and
    /// the status byte is the fixed pattern 0x24 (interrupts disabled).
    pub fn reset<B: Bus>(&mut self, mem: &mut B) -> (r: Result<(), Error>)
        requires
            B::inv_s(old(mem)@),
        ensures
            B::inv_s(final(mem)@),
            match read16_s::<B>(old(mem)@, 0xfffc) {
                Ok((b, v)) => r == Ok::<(), Error>(()) && final(mem)@ == b && *final(self) == (Cpu {
                    reg: Registers { pc: v, sp: 0xfd, ..old(self).reg },
                    flags: Flags::from_byte_s(0x24),
                }),
                Err(e) => r == Err::<(), Error>(e),
            },
    {
        let pc = bus_read16(mem, 0xfffc)?;
        self.reg.pc = pc;
        self.reg.sp = 0xfd;
        self.flags = Flags::from_byte(0x24);
        Ok(())
    }

    /// Push a byte: store at 0x0100 | SP, then wrap SP down by one.
    pub open spec fn push_s<B: Bus>(self, bus: B::V, x: u8) -> Result<(Cpu, B::V), Error> {
        match B::write_s(bus, (0x100 + self.reg.sp) as u16, x) {
            Ok(b) => Ok((self.with_sp_s(self.reg.sp.wrapping_sub(1)), b)),
            Err(e) => Err(e),
        }
    }

    /// Pop a byte: wrap SP up by one, then load 0x0100 | SP.
    pub open spec fn pop_s<B: Bus>(self, bus: B::V) -> Result<(Cpu, B::V, u8), Error> {
        let sp1 = self.reg.sp.wrapping_add(1);
        match B::read_s(bus, (0x100 + sp1) as u16) {
            Ok((b, x)) => Ok((self.with_sp_s(sp1), b, x)),
            Err(e) => Err(e),
        }
    }

    /// Push a word, high byte first.
    pub open spec fn push16_s<B: Bus>(self, bus: B::V, x: u16) -> Result<(Cpu, B::V), Error> {
        match self.push_s::<B>(bus, (x / 256) as u8) {
            Ok((c1, b1)) => c1.push_s::<B>(b1, (x % 256) as u8),
            Err(e) => Err(e),
        }
    }

    /// Pop a word, low byte first.
    pub open spec fn pop16_s<B: Bus>(self, bus: B::V) -> Result<(Cpu, B::V, u16), Error> {
        match self.pop_s::<B>(bus) {
            Ok((c1, b1, lo)) => match c1.pop_s::<B>(b1) {
                Ok((c2, b2, hi)) => Ok((c2, b2, word_s(lo, hi))),
                Err(e) => Err(e),
            },
            Err(e) => Err(e),
        }
    }

    fn push<B: Bus>(&mut self, mem: &mut B, x: u8) -> (r: Result<(), Error>)
        requires
            B::inv_s(old(mem)@),
        ensures
            B::inv_s(final(mem)@),
            match old(self).push_s::<B>(old(mem)@, x) {
                Ok((c, b)) => r == Ok::<(), Error>(()) && *final(self) == c && final(mem)@ == b,
                Err(e) => r == Err::<(), Error>(e),
            },
    {
        mem.write(0x0100 + (self.reg.sp as u16), x)?;
        self.reg.sp = self.reg.sp.wrapping_sub(1);
        Ok(())
    }

    fn push_u16<B: Bus>(&mut self, mem: &mut B, x: u16) -> (r: Result<(), Error>)
        requires
            B::inv_s(old(mem)@),
        ensures
            B::inv_s(final(mem)@),
            match old(self).push16_s::<B>(old(mem)@, x) {
                Ok((c, b)) => r == Ok::<(), Error>(()) && *final(self) == c && final(mem)@ == b,
                Err(e) => r == Err::<(), Error>(e),
            },
    {
        let lo = (x % 256) as u8;
        let hi = (x / 256) as u8;
        self.push(mem, hi)?;
        self.push(mem, lo)?;
        Ok(())
    }

    fn pop<B: Bus>(&mut self, mem: &mut B) -> (r: Result<u8, Error>)
        requires
            B::inv_s(old(mem)@),
        ensures
            B::inv_s(final(mem)@),
            match old(self).pop_s::<B>(old(mem)@) {
                Ok((c, b, x)) => r == Ok::<u8, Error>(x) && *final(self) == c && final(mem)@ == b,
                Err(e) => r == Err::<u8, Error>(e),
            },
    {
        self.reg.sp = self.reg.sp.wrapping_add(1);
        let v = mem.read(0x0100 + (self.reg.sp as u16))?;
        Ok(v)
    }

    fn pop_u16<B: Bus>(&mut self, mem: &mut B) -> (r: Result<u16, Error>)
        requires
            B::inv_s(old(mem)@),
        ensures
            B::inv_s(final(mem)@),
            match old(self).pop16_s::<B>(old(mem)@) {
                Ok((c, b, x)) => r == Ok::<u16, Error>(x) && *final(self) == c && final(mem)@ == b,
                Err(e) => r == Err::<u16, Error>(e),
            },
    {
        let lo = self.pop(mem)?;
        let hi = self.pop(mem)?;
        Ok(word(lo, hi))
    }

    /// Push the status byte as BRK and PHP do: with the B bit and the
    /// always-set bit forced on in the pushed copy.
    pub open spec fn php_s<B: Bus>(self, bus: B::V) -> Result<(Cpu, B::V), Error> {
        self.push_s::<B>(bus, self.flags.as_byte_s() | 0x10)
    }

    fn php<B: Bus>(&mut self, mem: &mut B) -> (r: Result<(), Error>)
        requires
            B::inv_s(old(mem)@),
        ensures
            B::inv_s(final(mem)@),
            match old(self).php_s::<B>(old(mem)@) {
                Ok((c, b)) => r == Ok::<(), Error>(()) && *final(self) == c && final(mem)@ == b,
                Err(e) => r == Err::<(), Error>(e),
            },
    {
        let byte = self.flags.as_byte() | 0x10;
        self.push(mem, byte)
    }

    /// Compare a register against an operand: C says register >= operand,
    /// Z says equal, N is bit 7 of the truncated difference. The other
    /// flags keep their values.
    pub open spec fn cmp_s(self, x: u8, y: u8) -> Cpu {
        let d = (x as u16).wrapping_sub(y as u16);
        Cpu {
            flags: Flags { n: d % 256 >= 128, z: d % 256 == 0, c: x >= y, ..self.flags },
            ..self
        }
    }

    fn cmp(&mut self, x: u8, y: u8)
        ensures
            *final(self) == old(self).cmp_s(x, y),
    {
        let d = (x as u16).wrapping_sub(y as u16);
        self.flags.n = d % 256 >= 128;
        self.flags.z = d % 256 == 0;
        self.flags.c = x >= y;
    }

    /// Resolve the JMP indirect pointer: the effective address is read
    /// little-endian at the pointer, but the high byte comes from the
    /// pointer's own page — the 6502 page-wrap quirk.
    pub open spec fn indirect_s<B: Bus>(self, bus: B::V) -> Result<(Cpu, B::V, u16), Error> {
        match self.next16_s::<B>(bus) {
            Ok((c1, b1, base)) => {
                let hi_addr = ((base / 256) * 256 + (base % 256 + 1) % 256) as u16;
                match B::read_s(b1, base) {
                    Ok((b2, lo)) => match B::read_s(b2, hi_addr) {
                        Ok((b3, hi)) => Ok((c1, b3, word_s(lo, hi))),
                        Err(e) => Err(e),
                    },
                    Err(e) => Err(e),
                }
            },
            Err(e) => Err(e),
        }
    }

    fn indirect<B: Bus>(&mut self, mem: &mut B) -> (r: Result<u16, Error>)
        requires
            B::inv_s(old(mem)@),
        ensures
            B::inv_s(final(mem)@),
            match old(self).indirect_s::<B>(old(mem)@) {
                Ok((c, b, x)) => r == Ok::<u16, Error>(x) && *final(self) == c && final(mem)@ == b,
                Err(e) => r == Err::<u16, Error>(e),
            },
    {
        let base = self.next_u16(mem)?;
        let hi_addr = (base / 256) * 256 + (base % 256 + 1) % 256;
        let lo = mem.read(base)?;
        let hi = mem.read(hi_addr)?;
        Ok(word(lo, hi))
    }

    /// Resolve (indirect,X): the operand plus X, wrapping in the zero
    /// page, points at a little-endian word that also wraps in the zero
    /// page.
    pub open spec fn x_indexed_indirect_s<B: Bus>(self, bus: B::V, base: u8) -> Result<
        (B::V, u16),
        Error,
    > {
        let ptr = base.wrapping_add(self.reg.x);
        match B::read_s(bus, ptr as u16) {
            Ok((b1, lo)) => match B::read_s(b1, ptr.wrapping_add(1) as u16) {
                Ok((b2, hi)) => Ok((b2, word_s(lo, hi))),
                Err(e) => Err(e),
            },
            Err(e) => Err(e),
        }
    }

    fn x_indexed_indirect<B: Bus>(&self, mem: &mut B, base: u8) -> (r: Result<u16, Error>)
        requires
            B::inv_s(old(mem)@),
        ensures
            B::inv_s(final(mem)@),
            match self.x_indexed_indirect_s::<B>(old(mem)@, base) {
                Ok((b, x)) => r == Ok::<u16, Error>(x) && final(mem)@ == b,
                Err(e) => r == Err::<u16, Error>(e),
            },
    {
        let ptr = base.wrapping_add(self.reg.x);
        let lo = mem.read(ptr as u16)?;
        let hi = mem.read(ptr.wrapping_add(1) as u16)?;
        Ok(word(lo, hi))
    }

    /// Resolve (indirect),Y: the operand points at a zero-page word; Y
    /// indexes the result, costing one cycle on a page cross.
    pub open spec fn indirect_indexed_s<B: Bus>(self, bus: B::V, base: u8) -> Result<
        (B::V, u16, u64),
        Error,
    > {
        match B::read_s(bus, base as u16) {
            Ok((b1, lo)) => match B::read_s(b1, base.wrapping_add(1) as u16) {
                Ok((b2, hi)) => {
                    let baseaddr = word_s(lo, hi);
                    let addr = baseaddr.wrapping_add(self.reg.y as u16);
                    let extra: u64 = if pages_differ_s(baseaddr, addr) {
                        1
                    } else {
                        0
                    };
                    Ok((b2, addr, extra))
                },
                Err(e) => Err(e),
            },
            Err(e) => Err(e),
        }
    }

    fn indirect_indexed<B: Bus>(&self, mem: &mut B, base: u8) -> (r: Result<(u16, u64), Error>)
        requires
            B::inv_s(old(mem)@),
        ensures
            B::inv_s(final(mem)@),
            match self.indirect_indexed_s::<B>(old(mem)@, base) {
                Ok((b, x, extra)) => r == Ok::<(u16, u64), Error>((x, extra)) && final(mem)@ == b,
                Err(e) => r == Err::<(u16, u64), Error>(e),
            },
    {
        let lo = mem.read(base as u16)?;
        let hi = mem.read(base.wrapping_add(1) as u16)?;
        let baseaddr = word(lo, hi);
        let addr = baseaddr.wrapping_add(self.reg.y as u16);
        let extra: u64 = if pages_differ(baseaddr, addr) {
            1
        } else {
            0
        };
        Ok((addr, extra))
    }

    /// Zero page indexed by X: the sum wraps within the zero page.
    pub open spec fn zero_page_indexed_x_s(self, base: u8) -> u16 {
        base.wrapping_add(self.reg.x) as u16
    }

    fn zero_page_indexed_x(&self, base: u8) -> (r: u16)
        ensures
            r == self.zero_page_indexed_x_s(base),
    {
        base.wrapping_add(self.reg.x) as u16
    }

    /// Zero page indexed by Y: the sum wraps within the zero page.
    pub open spec fn zero_page_indexed_y_s(self, base: u8) -> u16 {
        base.wrapping_add(self.reg.y) as u16
    }

    fn zero_page_indexed_y(&self, base: u8) -> (r: u16)
        ensures
            r == self.zero_page_indexed_y_s(base),
    {
        base.wrapping_add(self.reg.y) as u16
    }

    /// Absolute indexed by X, costing one cycle on a page cross.
    pub open spec fn indexed_absolute_x_s(self, base: u16) -> (u16, u64) {
        let addr = base.wrapping_add(self.reg.x as u16);
        (
            addr,
            if pages_differ_s(base, addr) {
                1
            } else {
                0
            },
        )
    }

    fn indexed_absolute_x(&self, base: u16) -> (r: (u16, u64))
        ensures
            r == self.indexed_absolute_x_s(base),
    {
        let addr = base.wrapping_add(self.reg.x as u16);
        let extra: u64 = if pages_differ(base, addr) {
            1
        } else {
            0
        };
        (addr, extra)
    }

    /// Absolute indexed by Y, costing one cycle on a page cross.
    pub open spec fn indexed_absolute_y_s(self, base: u16) -> (u16, u64) {
        let addr = base.wrapping_add(self.reg.y as u16);
        (
            addr,
            if pages_differ_s(base, addr) {
                1
            } else {
                0
            },
        )
    }

    fn indexed_absolute_y(&self, base: u16) -> (r: (u16, u64))
        ensures
            r == self.indexed_absolute_y_s(base),
    {
        let addr = base.wrapping_add(self.reg.y as u16);
        let extra: u64 = if pages_differ(base, addr) {
            1
        } else {
            0
        };
        (addr, extra)
    }

    /// Resolve a relative branch. `anchor` is the address the offset
    /// byte was fetched from; the extra cost when the branch is taken is
    /// one cycle, or two when the target lies in a different page than
    /// the anchor.
    fn relative(&self, anchor: u16, offset: u8) -> (r: (u16, u64))
        ensures
            r.0 == branch_target_s(self.reg.pc, offset),
            r.1 == (if pages_differ_s(anchor, branch_target_s(self.reg.pc, offset)) {
                2u64
            } else {
                1u64
            }),
    {
        let pc32 = self.reg.pc as u32;
        let target = if offset < 0x80 {
            ((pc32 + offset as u32) % 0x10000) as u16
        } else {
            ((pc32 + offset as u32 + 0xFF00) % 0x10000) as u16
        };
        let extra: u64 = if pages_differ(anchor, target) {
            2
        } else {
            1
        };
        (target, extra)
    }

    /// Resolve a mode to an effective address. The second component is
    /// the mode's extra cycle count: the page-cross cycle for the
    /// indexed modes, or the taken-branch cost (1, or 2 across a page)
    /// for Relative.
    pub open spec fn ga_s<B: Bus>(self, bus: B::V, mode: AddressMode) -> Result<
        (Cpu, B::V, u16, u64),
        Error,
    >
        recommends
            mode != AddressMode::Accumulator,
            mode != AddressMode::Implied,
            mode != AddressMode::Immediate,
    {
        match mode {
            AddressMode::Absolute => match self.next16_s::<B>(bus) {
                Ok((c, b, a)) => Ok((c, b, a, 0)),
                Err(e) => Err(e),
            },
            AddressMode::AbsoluteXIndexed => match self.next16_s::<B>(bus) {
                Ok((c, b, base)) => {
                    let (a, ex) = c.indexed_absolute_x_s(base);
                    Ok((c, b, a, ex))
                },
                Err(e) => Err(e),
            },
            AddressMode::AbsoluteYIndexed => match self.next16_s::<B>(bus) {
                Ok((c, b, base)) => {
                    let (a, ex) = c.indexed_absolute_y_s(base);
                    Ok((c, b, a, ex))
                },
                Err(e) => Err(e),
            },
            AddressMode::Indirect => match self.indirect_s::<B>(bus) {
                Ok((c, b, a)) => Ok((c, b, a, 0)),
                Err(e) => Err(e),
            },
            AddressMode::XIndexedIndirect => match self.next_s::<B>(bus) {
                Ok((c, b, operand)) => match c.x_indexed_indirect_s::<B>(b, operand) {
                    Ok((b2, a)) => Ok((c, b2, a, 0)),
                    Err(e) => Err(e),
                },
                Err(e) => Err(e),
            },
            AddressMode::IndirectYIndexed => match self.next_s::<B>(bus) {
                Ok((c, b, operand)) => match c.indirect_indexed_s::<B>(b, operand) {
                    Ok((b2, a, ex)) => Ok((c, b2, a, ex)),
                    Err(e) => Err(e),
                },
                Err(e) => Err(e),
            },
            AddressMode::Relative => match self.next_s::<B>(bus) {
                Ok((c, b, offset)) => {
                    let t = branch_target_s(c.reg.pc, offset);
                    let ex: u64 = if pages_differ_s(self.reg.pc, t) {
                        2
                    } else {
                        1
                    };
                    Ok((c, b, t, ex))
                },
                Err(e) => Err(e),
            },
            AddressMode::ZeroPage => match self.next_s::<B>(bus) {
                Ok((c, b, v)) => Ok((c, b, v as u16, 0)),
                Err(e) => Err(e),
            },
            AddressMode::ZeroPageXIndexed => match self.next_s::<B>(bus) {
                Ok((c, b, v)) => Ok((c, b, c.zero_page_indexed_x_s(v), 0)),
                Err(e) => Err(e),
            },
            AddressMode::ZeroPageYIndexed => match self.next_s::<B>(bus) {
                Ok((c, b, v)) => Ok((c, b, c.zero_page_indexed_y_s(v), 0)),
                Err(e) => Err(e),
            },
            _ => arbitrary(),
        }
    }

    fn get_address<B: Bus>(&mut self, mem: &mut B, mode: AddressMode) -> (r: Result<
        (u16, u64),
        Error,
    >)
        requires
            mode != AddressMode::Accumulator,
            mode != AddressMode::Implied,
            mode != AddressMode::Immediate,
            B::inv_s(old(mem)@),
        ensures
            B::inv_s(final(mem)@),
            match old(self).ga_s::<B>(old(mem)@, mode) {
                Ok((c, b, a, ex)) => r == Ok::<(u16, u64), Error>((a, ex)) && ex <= 2
                    && *final(self) == c && final(mem)@ == b,
                Err(e) => r == Err::<(u16, u64), Error>(e),
            },
    {
        match mode {
            AddressMode::Absolute => {
                let a = self.next_u16(mem)?;
                Ok((a, 0))
            },
            AddressMode::AbsoluteXIndexed => {
                let base = self.next_u16(mem)?;
                Ok(self.indexed_absolute_x(base))
            },
            AddressMode::AbsoluteYIndexed => {
                let base = self.next_u16(mem)?;
                Ok(self.indexed_absolute_y(base))
            },
            AddressMode::Indirect => {
                let a = self.indirect(mem)?;
                Ok((a, 0))
            },
            AddressMode::XIndexedIndirect => {
                let base = self.next(mem)?;
                let a = self.x_indexed_indirect(mem, base)?;
                Ok((a, 0))
            },
            AddressMode::IndirectYIndexed => {
                let base = self.next(mem)?;
                let pair = self.indirect_indexed(mem, base)?;
                Ok(pair)
            },
            AddressMode::Relative => {
                let anchor = self.reg.pc;
                let offset = self.next(mem)?;
                Ok(self.relative(anchor, offset))
            },
            AddressMode::ZeroPage => {
                let v = self.next(mem)?;
                Ok((v as u16, 0))
            },
            AddressMode::ZeroPageXIndexed => {
                let base = self.next(mem)?;
                Ok((self.zero_page_indexed_x(base), 0))
            },
            AddressMode::ZeroPageYIndexed => {
                let base = self.next(mem)?;
                Ok((self.zero_page_indexed_y(base), 0))
            },
            _ => {
                proof {
                    assert(false);
                }
                Err(Error::Bus(0))
            },
        }
    }

    /// Resolve a mode to its operand: the effective address when there
    /// is one, the operand byte, and the mode's extra cycle count.
    pub open spec fn ga_v_s<B: Bus>(self, bus: B::V, mode: AddressMode) -> Result<
        (Cpu, B::V, Option<u16>, u8, u64),
        Error,
    >
        recommends
            mode != AddressMode::Implied,
    {
        if mode == AddressMode::Accumulator {
            Ok((self, bus, None, self.reg.a, 0))
        } else if mode == AddressMode::Immediate {
            match self.next_s::<B>(bus) {
                Ok((c, b, v)) => Ok((c, b, None, v, 0)),
                Err(e) => Err(e),
            }
        } else {
            match self.ga_s::<B>(bus, mode) {
                Ok((c, b, a, ex)) => match B::read_s(b, a) {
                    Ok((b2, v)) => Ok((c, b2, Some(a), v, ex)),
                    Err(e) => Err(e),
                },
                Err(e) => Err(e),
            }
        }
    }

    fn get_address_and_value<B: Bus>(&mut self, mem: &mut B, mode: AddressMode) -> (r: Result<
        (Option<u16>, u8, u64),
        Error,
    >)
        requires
            mode != AddressMode::Implied,
            B::inv_s(old(mem)@),
        ensures
            B::inv_s(final(mem)@),
            match old(self).ga_v_s::<B>(old(mem)@, mode) {
                Ok((c, b, a, v, ex)) => r == Ok::<(Option<u16>, u8, u64), Error>((a, v, ex))
                    && ex <= 2 && *final(self) == c && final(mem)@ == b,
                Err(e) => r == Err::<(Option<u16>, u8, u64), Error>(e),
            },
    {
        if mode == AddressMode::Accumulator {
            Ok((None, self.reg.a, 0))
        } else if mode == AddressMode::Immediate {
            let v = self.next(mem)?;
            Ok((None, v, 0))
        } else {
            let (a, ex) = self.get_address(mem, mode)?;
            let v = mem.read(a)?;
            Ok((Some(a), v, ex))
        }
    }

    fn get_address_value<B: Bus>(&mut self, mem: &mut B, mode: AddressMode) -> (r: Result<
        (u8, u64),
        Error,
    >)
        requires
            mode != AddressMode::Implied,
            B::inv_s(old(mem)@),
        ensures
            B::inv_s(final(mem)@),
            match old(self).ga_v_s::<B>(old(mem)@, mode) {
                Ok((c, b, _a, v, ex)) => r == Ok::<(u8, u64), Error>((v, ex)) && ex <= 2
                    && *final(self) == c && final(mem)@ == b,
                Err(e) => r == Err::<(u8, u64), Error>(e),
            },
    {
        let (_a, v, ex) = self.get_address_and_value(mem, mode)?;
        Ok((v, ex))
    }

    /// Apply a load, logical, arithmetic, compare or BIT instruction to
    /// the fetched operand. The arithmetic and flag rules:
    /// ADC carries out above 0xFF and overflows when both operands and
    /// the result disagree in sign; SBC subtracts the borrow (one minus
    /// carry) and carries when no underflow happened; compares set C to
    /// register >= operand; BIT copies operand bits 7 and 6 into N and V
    /// and sets Z from the masked accumulator. Loads, logic and
    /// arithmetic assign whole flag values; compares and BIT mutate
    /// their named bits.
    pub open spec fn alu_apply_s(self, m: Mnemonic, v: u8) -> Cpu
        recommends
            reads_value_s(m),
    {
        match m {
            Mnemonic::LDA => Cpu { reg: Registers { a: v, ..self.reg }, flags: Flags::value_nz_s(v) },
            Mnemonic::LDX => Cpu { reg: Registers { x: v, ..self.reg }, flags: Flags::value_nz_s(v) },
            Mnemonic::LDY => Cpu { reg: Registers { y: v, ..self.reg }, flags: Flags::value_nz_s(v) },
            Mnemonic::AND => {
                let nv = self.reg.a & v;
                Cpu { reg: Registers { a: nv, ..self.reg }, flags: Flags::value_nz_s(nv) }
            },
            Mnemonic::ORA => {
                let nv = self.reg.a | v;
                Cpu { reg: Registers { a: nv, ..self.reg }, flags: Flags::value_nz_s(nv) }
            },
            Mnemonic::EOR => {
                let nv = self.reg.a ^ v;
                Cpu { reg: Registers { a: nv, ..self.reg }, flags: Flags::value_nz_s(nv) }
            },
            Mnemonic::ADC => {
                let sum = self.reg.a + v + (if self.flags.c {
                    1int
                } else {
                    0int
                });
                let res = (sum % 256) as u8;
                let vf = (self.reg.a ^ res) & (v ^ res) & 0x80 != 0;
                Cpu {
                    reg: Registers { a: res, ..self.reg },
                    flags: Flags::value_nzcv_s(sum as u16, vf),
                }
            },
            Mnemonic::SBC => {
                let borrow: u16 = if self.flags.c {
                    0
                } else {
                    1
                };
                let d16 = (self.reg.a as u16).wrapping_sub(v as u16).wrapping_sub(borrow);
                let res = (d16 % 256) as u8;
                let vf = (self.reg.a ^ res) & ((!v) ^ res) & 0x80 != 0;
                Cpu {
                    reg: Registers { a: res, ..self.reg },
                    flags: Flags {
                        n: res & 0x80 != 0,
                        z: res == 0,
                        c: self.reg.a >= v + borrow,
                        v: vf,
                        i: false,
                        d: false,
                        b: false,
                    },
                }
            },
            Mnemonic::CMP => self.cmp_s(self.reg.a, v),
            Mnemonic::CPX => self.cmp_s(self.reg.x, v),
            Mnemonic::CPY => self.cmp_s(self.reg.y, v),
            Mnemonic::BIT => Cpu {
                flags: Flags {
                    n: v & 0x80 != 0,
                    v: v & 0x40 != 0,
                    z: self.reg.a & v == 0,
                    ..self.flags
                },
                ..self
            },
            _ => arbitrary(),
        }
    }

    fn alu_apply(&mut self, m: Mnemonic, v: u8)
        requires
            reads_value_s(m),
        ensures
            *final(self) == old(self).alu_apply_s(m, v),
    {
        match m {
            Mnemonic::LDA => {
                self.reg.a = v;
                self.flags = Flags::from_value_nz(v);
            },
            Mnemonic::LDX => {
                self.reg.x = v;
                self.flags = Flags::from_value_nz(v);
            },
            Mnemonic::LDY => {
                self.reg.y = v;
                self.flags = Flags::from_value_nz(v);
            },
            Mnemonic::AND => {
                self.reg.a = self.reg.a & v;
                self.flags = Flags::from_value_nz(self.reg.a);
            },
            Mnemonic::ORA => {
                self.reg.a = self.reg.a | v;
                self.flags = Flags::from_value_nz(self.reg.a);
            },
            Mnemonic::EOR => {
                self.reg.a = self.reg.a ^ v;
                self.flags = Flags::from_value_nz(self.reg.a);
            },
            Mnemonic::ADC => {
                let c16: u16 = if self.flags.c {
                    1
                } else {
                    0
                };
                let sum: u16 = self.reg.a as u16 + v as u16 + c16;
                let res = (sum % 256) as u8;
                let vf = (self.reg.a ^ res) & (v ^ res) & 0x80 != 0;
                self.reg.a = res;
                self.flags = Flags::from_value_nzcv(sum, vf);
            },
            Mnemonic::SBC => {
                let borrow: u16 = if self.flags.c {
                    0
                } else {
                    1
                };
                let d16 = (self.reg.a as u16).wrapping_sub(v as u16).wrapping_sub(borrow);
                let res = (d16 % 256) as u8;
                let vf = (self.reg.a ^ res) & ((!v) ^ res) & 0x80 != 0;
                let cf = self.reg.a as u16 >= v as u16 + borrow;
                self.reg.a = res;
                self.flags = Flags { n: res & 0x80 != 0, z: res == 0, c: cf, v: vf, i: false, d: false, b: false };
            },
            Mnemonic::CMP => {
                let a = self.reg.a;
                self.cmp(a, v);
            },
            Mnemonic::CPX => {
                let x = self.reg.x;
                self.cmp(x, v);
            },
            Mnemonic::CPY => {
                let y = self.reg.y;
                self.cmp(y, v);
            },
            Mnemonic::BIT => {
                self.flags.n = v & 0x80 != 0;
                self.flags.v = v & 0x40 != 0;
                self.flags.z = self.reg.a & v == 0;
            },
            _ => {
                proof {
                    assert(false);
                }
            },
        }
    }
}

/// Apply a shift, rotate, increment or decrement to one byte. Shifts
/// and rotates put the bit shifted out into C; rotates shift the old
/// carry in at the other end; N and Z follow the result; increments and
/// decrements wrap and touch only N and Z.
pub open spec fn rmw_s(m: Mnemonic, v: u8, cin: bool) -> (u8, Flags)
    recommends
        is_rmw_s(m),
{
    match m {
        Mnemonic::ASL => {
            let w = ((v as u16) * 2) as u16;
            (((w % 256) as u8), Flags::value_nzc_s(w))
        },
        Mnemonic::LSR => {
            let r = (v / 2) as u8;
            (r, Flags { c: v % 2 == 1, ..Flags::value_nz_s(r) })
        },
        Mnemonic::ROL => {
            let w = ((v as u16) * 2 + (if cin {
                1u16
            } else {
                0u16
            })) as u16;
            (((w % 256) as u8), Flags::value_nzc_s(w))
        },
        Mnemonic::ROR => {
            let r = (v / 2 + (if cin {
                128u8
            } else {
                0u8
            })) as u8;
            (r, Flags { c: v % 2 == 1, ..Flags::value_nz_s(r) })
        },
        Mnemonic::INC => {
            let r = v.wrapping_add(1);
            (r, Flags::value_nz_s(r))
        },
        Mnemonic::DEC => {
            let r = v.wrapping_sub(1);
            (r, Flags::value_nz_s(r))
        },
        _ => arbitrary(),
    }
}

fn rmw_apply(m: Mnemonic, v: u8, cin: bool) -> (r: (u8, Flags))
    requires
        is_rmw_s(m),
    ensures
        r == rmw_s(m, v, cin),
{
    match m {
        Mnemonic::ASL => {
            let w = (v as u16) * 2;
            ((w % 256) as u8, Flags::from_value_nzc(w))
        },
        Mnemonic::LSR => {
            let r = v / 2;
            (r, Flags { c: v % 2 == 1, ..Flags::from_value_nz(r) })
        },
        Mnemonic::ROL => {
            let w = (v as u16) * 2 + (if cin {
                1u16
            } else {
                0u16
            });
            ((w % 256) as u8, Flags::from_value_nzc(w))
        },
        Mnemonic::ROR => {
            let r = v / 2 + (if cin {
                128u8
            } else {
                0u8
            });
            (r, Flags { c: v % 2 == 1, ..Flags::from_value_nz(r) })
        },
        Mnemonic::INC => {
            let r = v.wrapping_add(1);
            (r, Flags::from_value_nz(r))
        },
        Mnemonic::DEC => {
            let r = v.wrapping_sub(1);
            (r, Flags::from_value_nz(r))
        },
        _ => {
            proof {
                assert(false);
            }
            (0, Flags::from_value_nz(0))
        },
    }
}

impl Cpu {
    /// A read-modify-write instruction: Accumulator mode targets A;
    /// every memory mode stores back to the resolved address. The base
    /// cycle count already covers the worst case, so no page-cross extra
    /// is charged.
    pub open spec fn wam_s<B: Bus>(self, bus: B::V, mode: AddressMode, m: Mnemonic) -> Result<
        (Cpu, B::V),
        Error,
    >
        recommends
            is_rmw_s(m),
            mode != AddressMode::Implied,
            mode != AddressMode::Immediate,
    {
        if mode == AddressMode::Accumulator {
            let (nv, f) = rmw_s(m, self.reg.a, self.flags.c);
            Ok((Cpu { reg: Registers { a: nv, ..self.reg }, flags: f }, bus))
        } else {
            match self.ga_v_s::<B>(bus, mode) {
                Ok((c1, b1, addr, v, _ex)) => {
                    let (nv, f) = rmw_s(m, v, self.flags.c);
                    match B::write_s(b1, addr->Some_0, nv) {
                        Ok(b2) => Ok((Cpu { flags: f, ..c1 }, b2)),
                        Err(e) => Err(e),
                    }
                },
                Err(e) => Err(e),
            }
        }
    }

    fn with_address_modify<B: Bus>(&mut self, mem: &mut B, mode: AddressMode, m: Mnemonic) -> (r:
        Result<(), Error>)
        requires
            is_rmw_s(m),
            mode != AddressMode::Implied,
            mode != AddressMode::Immediate,
            B::inv_s(old(mem)@),
        ensures
            B::inv_s(final(mem)@),
            match old(self).wam_s::<B>(old(mem)@, mode, m) {
                Ok((c, b)) => r == Ok::<(), Error>(()) && *final(self) == c && final(mem)@ == b,
                Err(e) => r == Err::<(), Error>(e),
            },
    {
        if mode == AddressMode::Accumulator {
            let (nv, f) = rmw_apply(m, self.reg.a, self.flags.c);
            self.reg.a = nv;
            self.flags = f;
            Ok(())
        } else {
            let cin = self.flags.c;
            let (addr_opt, v, _ex) = self.get_address_and_value(mem, mode)?;
            let addr = match addr_opt {
                Some(a) => a,
                None => {
                    proof {
                        assert(false);
                    }
                    0
                },
            };
            let (nv, f) = rmw_apply(m, v, cin);
            mem.write(addr, nv)?;
            self.flags = f;
            Ok(())
        }
    }
}


impl Cpu {
    /// Whether a branch mnemonic takes its branch under these flags.
    pub open spec fn branch_taken_s(self, m: Mnemonic) -> bool
        recommends
            is_branch_s(m),
    {
        match m {
            Mnemonic::BCC => !self.flags.c,
            Mnemonic::BCS => self.flags.c,
            Mnemonic::BEQ => self.flags.z,
            Mnemonic::BNE => !self.flags.z,
            Mnemonic::BMI => self.flags.n,
            Mnemonic::BPL => !self.flags.n,
            Mnemonic::BVC => !self.flags.v,
            Mnemonic::BVS => self.flags.v,
            _ => arbitrary(),
        }
    }

    /// Execute one decoded instruction against the bus: resolve its
    /// operand, apply its effect, and account its cycles. Loads and
    /// arithmetic charge the page-cross extra; a taken branch charges
    /// the taken extra; stores and read-modify-writes charge only the
    /// worst-case base count.
    pub open spec fn step_instr_s<B: Bus>(self, bus: B::V, i: Instruction) -> Result<
        (Cpu, B::V, u64),
        Error,
    >
        recommends
            mode_ok_s(i.mnemonic, i.address_mode),
            i.cycles <= 7,
    {
        let m = i.mnemonic;
        if reads_value_s(m) {
            match self.ga_v_s::<B>(bus, i.address_mode) {
                Ok((c, b, _a, v, ex)) => Ok((c.alu_apply_s(m, v), b, (i.cycles + ex) as u64)),
                Err(e) => Err(e),
            }
        } else if is_rmw_s(m) {
            match self.wam_s::<B>(bus, i.address_mode, m) {
                Ok((c, b)) => Ok((c, b, i.cycles)),
                Err(e) => Err(e),
            }
        } else if is_branch_s(m) {
            match self.ga_s::<B>(bus, i.address_mode) {
                Ok((c, b, t, ex)) => if self.branch_taken_s(m) {
                    Ok((c.with_pc_s(t), b, (i.cycles + ex) as u64))
                } else {
                    Ok((c, b, i.cycles))
                },
                Err(e) => Err(e),
            }
        } else {
            match m {
                Mnemonic::JMP => match self.ga_s::<B>(bus, i.address_mode) {
                    Ok((c, b, t, _ex)) => Ok((c.with_pc_s(t), b, i.cycles)),
                    Err(e) => Err(e),
                },
                Mnemonic::JSR => match self.ga_s::<B>(bus, i.address_mode) {
                    Ok((c, b, t, _ex)) => match c.push16_s::<B>(b, c.reg.pc.wrapping_sub(1)) {
                        Ok((c2, b2)) => Ok((c2.with_pc_s(t), b2, i.cycles)),
                        Err(e) => Err(e),
                    },
                    Err(e) => Err(e),
                },
                Mnemonic::STA => match self.ga_s::<B>(bus, i.address_mode) {
                    Ok((c, b, t, _ex)) => match B::write_s(b, t, self.reg.a) {
                        Ok(b2) => Ok((c, b2, i.cycles)),
                        Err(e) => Err(e),
                    },
                    Err(e) => Err(e),
                },
                Mnemonic::STX => match self.ga_s::<B>(bus, i.address_mode) {
                    Ok((c, b, t, _ex)) => match B::write_s(b, t, self.reg.x) {
                        Ok(b2) => Ok((c, b2, i.cycles)),
                        Err(e) => Err(e),
                    },
                    Err(e) => Err(e),
                },
                Mnemonic::STY => match self.ga_s::<B>(bus, i.address_mode) {
                    Ok((c, b, t, _ex)) => match B::write_s(b, t, self.reg.y) {
                        Ok(b2) => Ok((c, b2, i.cycles)),
                        Err(e) => Err(e),
                    },
                    Err(e) => Err(e),
                },
                Mnemonic::BRK => {
                    let p = self.reg.pc.wrapping_add(1);
                    match self.push16_s::<B>(bus, p) {
                        Ok((c1, b1)) => match c1.php_s::<B>(b1) {
                            Ok((c2, b2)) => {
                                let c3 = Cpu { flags: Flags { i: true, ..c2.flags }, ..c2 };
                                match read16_s::<B>(b2, 0xfffe) {
                                    Ok((b3, vector)) => Ok((c3.with_pc_s(vector), b3, i.cycles)),
                                    Err(e) => Err(e),
                                }
                            },
                            Err(e) => Err(e),
                        },
                        Err(e) => Err(e),
                    }
                },
                Mnemonic::PHA => match self.push_s::<B>(bus, self.reg.a) {
                    Ok((c, b)) => Ok((c, b, i.cycles)),
                    Err(e) => Err(e),
                },
                Mnemonic::PHP => match self.php_s::<B>(bus) {
                    Ok((c, b)) => Ok((c, b, i.cycles)),
                    Err(e) => Err(e),
                },
                Mnemonic::PLA => match self.pop_s::<B>(bus) {
                    Ok((c, b, v)) => Ok((Cpu { reg: Registers { a: v, ..c.reg }, ..c }, b, i.cycles)),
                    Err(e) => Err(e),
                },
                Mnemonic::PLP => match self.pop_s::<B>(bus) {
                    Ok((c, b, v)) => Ok(
                        (Cpu { flags: Flags { b: false, ..Flags::from_byte_s(v) }, ..c }, b, i.cycles),
                    ),
                    Err(e) => Err(e),
                },
                Mnemonic::RTI => match self.pop_s::<B>(bus) {
                    Ok((c1, b1, v)) => match c1.pop16_s::<B>(b1) {
                        Ok((c2, b2, pc)) => Ok(
                            (
                                Cpu {
                                    reg: Registers { pc, ..c2.reg },
                                    flags: Flags { b: false, ..Flags::from_byte_s(v) },
                                },
                                b2,
                                i.cycles,
                            ),
                        ),
                        Err(e) => Err(e),
                    },
                    Err(e) => Err(e),
                },
                Mnemonic::RTS => match self.pop16_s::<B>(bus) {
                    Ok((c, b, v)) => Ok((c.with_pc_s(v.wrapping_add(1)), b, i.cycles)),
                    Err(e) => Err(e),
                },
                Mnemonic::CLC => Ok((Cpu { flags: Flags { c: false, ..self.flags }, ..self }, bus, i.cycles)),
                Mnemonic::SEC => Ok((Cpu { flags: Flags { c: true, ..self.flags }, ..self }, bus, i.cycles)),
                Mnemonic::CLI => Ok((Cpu { flags: Flags { i: false, ..self.flags }, ..self }, bus, i.cycles)),
                Mnemonic::SEI => Ok((Cpu { flags: Flags { i: true, ..self.flags }, ..self }, bus, i.cycles)),
                Mnemonic::CLV => Ok((Cpu { flags: Flags { v: false, ..self.flags }, ..self }, bus, i.cycles)),
                Mnemonic::CLD => Ok((Cpu { flags: Flags { d: false, ..self.flags }, ..self }, bus, i.cycles)),
                Mnemonic::SED => Ok((Cpu { flags: Flags { d: true, ..self.flags }, ..self }, bus, i.cycles)),
                Mnemonic::DEX => {
                    let r = self.reg.x.wrapping_sub(1);
                    Ok((Cpu { reg: Registers { x: r, ..self.reg }, flags: Flags::value_nz_s(r) }, bus, i.cycles))
                },
                Mnemonic::DEY => {
                    let r = self.reg.y.wrapping_sub(1);
                    Ok((Cpu { reg: Registers { y: r, ..self.reg }, flags: Flags::value_nz_s(r) }, bus, i.cycles))
                },
                Mnemonic::INX => {
                    let r = self.reg.x.wrapping_add(1);
                    Ok((Cpu { reg: Registers { x: r, ..self.reg }, flags: Flags::value_nz_s(r) }, bus, i.cycles))
                },
                Mnemonic::INY => {
                    let r = self.reg.y.wrapping_add(1);
                    Ok((Cpu { reg: Registers { y: r, ..self.reg }, flags: Flags::value_nz_s(r) }, bus, i.cycles))
                },
                Mnemonic::TAX => Ok((Cpu { reg: Registers { x: self.reg.a, ..self.reg }, ..self }, bus, i.cycles)),
                Mnemonic::TAY => Ok((Cpu { reg: Registers { y: self.reg.a, ..self.reg }, ..self }, bus, i.cycles)),
                Mnemonic::TSX => Ok((Cpu { reg: Registers { x: self.reg.sp, ..self.reg }, ..self }, bus, i.cycles)),
                Mnemonic::TXA => Ok((Cpu { reg: Registers { a: self.reg.x, ..self.reg }, ..self }, bus, i.cycles)),
                Mnemonic::TXS => Ok((Cpu { reg: Registers { sp: self.reg.x, ..self.reg }, ..self }, bus, i.cycles)),
                Mnemonic::TYA => Ok((Cpu { reg: Registers { a: self.reg.y, ..self.reg }, ..self }, bus, i.cycles)),
                Mnemonic::NOP => Ok((self, bus, i.cycles)),
                _ => arbitrary(),
            }
        }
    }

    /// One whole CPU step: fetch the opcode, decode it, execute it.
    /// An unknown opcode is a decode error naming the fetch address.
    pub open spec fn step_s<B: Bus>(self, bus: B::V) -> Result<(Cpu, B::V, u64), Error> {
        match self.next_s::<B>(bus) {
            Ok((c1, b1, code)) => match decode_s(code) {
                Some(i) => c1.step_instr_s::<B>(b1, i),
                None => Err(Error::Decode(self.reg.pc, code)),
            },
            Err(e) => Err(e),
        }
    }

    /// Decode the instruction under the program counter without side
    /// effects or state change.
    pub fn current_instruction<B: Bus>(&self, mem: &B) -> (r: Result<Instruction, Error>)
        requires
            B::inv_s(mem@),
        ensures
            r == (match B::peek_s(mem@, self.reg.pc) {
                Ok(code) => match decode_s(code) {
                    Some(i) => Ok::<Instruction, Error>(i),
                    None => Err::<Instruction, Error>(Error::Decode(self.reg.pc, code)),
                },
                Err(e) => Err::<Instruction, Error>(e),
            }),
    {
        let code = self.peek(mem)?;
        match Instruction::from_code(code) {
            Some(i) => Ok(i),
            None => Err(Error::Decode(self.reg.pc, code)),
        }
    }

    /// Fetch and decode the instruction under the program counter,
    /// advancing it past the opcode byte.
    pub fn next_instruction<B: Bus>(&mut self, mem: &mut B) -> (r: Result<Instruction, Error>)
        requires
            B::inv_s(old(mem)@),
        ensures
            B::inv_s(final(mem)@),
            match old(self).next_s::<B>(old(mem)@) {
                Ok((c, b, code)) => *final(self) == c && final(mem)@ == b && r == (
                match decode_s(code) {
                    Some(i) => Ok::<Instruction, Error>(i),
                    None => Err::<Instruction, Error>(Error::Decode(old(self).reg.pc, code)),
                }),
                Err(e) => r == Err::<Instruction, Error>(e),
            },
    {
        let pc0 = self.reg.pc;
        let code = self.next(mem)?;
        match Instruction::from_code(code) {
            Some(i) => Ok(i),
            None => Err(Error::Decode(pc0, code)),
        }
    }

    /// Execute one instruction against the bus and return the cycles it
    /// consumed: the decoded base count plus any page-cross or
    /// taken-branch extras. A successful step always reports at least
    /// two cycles.
    #[verifier::spinoff_prover]
    #[verifier::rlimit(100)]
    pub fn step<B: Bus>(&mut self, mem: &mut B) -> (r: Result<u64, Error>)
        requires
            B::inv_s(old(mem)@),
        ensures
            B::inv_s(final(mem)@),
            match old(self).step_s::<B>(old(mem)@) {
                Ok((c, b, cy)) => r == Ok::<u64, Error>(cy) && *final(self) == c && final(mem)@
                    == b && 2 <= cy,
                Err(e) => r == Err::<u64, Error>(e),
            },
    {
        let instruction = self.next_instruction(mem)?;
        proof {
            lemma_decode_wf(instruction.code);
        }
        let m = instruction.mnemonic;
        let total: u64 = match m {
            Mnemonic::ADC | Mnemonic::AND | Mnemonic::BIT | Mnemonic::CMP | Mnemonic::CPX
            | Mnemonic::CPY | Mnemonic::EOR | Mnemonic::LDA | Mnemonic::LDX | Mnemonic::LDY
            | Mnemonic::ORA | Mnemonic::SBC => {
                let (v, extra) = self.get_address_value(mem, instruction.address_mode)?;
                self.alu_apply(m, v);
                instruction.cycles + extra
            },
            Mnemonic::ASL | Mnemonic::LSR | Mnemonic::ROL | Mnemonic::ROR | Mnemonic::INC
            | Mnemonic::DEC => {
                self.with_address_modify(mem, instruction.address_mode, m)?;
                instruction.cycles
            },
            Mnemonic::BCC | Mnemonic::BCS | Mnemonic::BEQ | Mnemonic::BMI | Mnemonic::BNE
            | Mnemonic::BPL | Mnemonic::BVC | Mnemonic::BVS => {
                let taken = match m {
                    Mnemonic::BCC => !self.flags.c,
                    Mnemonic::BCS => self.flags.c,
                    Mnemonic::BEQ => self.flags.z,
                    Mnemonic::BNE => !self.flags.z,
                    Mnemonic::BMI => self.flags.n,
                    Mnemonic::BPL => !self.flags.n,
                    Mnemonic::BVC => !self.flags.v,
                    _ => self.flags.v,
                };
                let (target, extra) = self.get_address(mem, instruction.address_mode)?;
                if taken {
                    self.reg.pc = target;
                    instruction.cycles + extra
                } else {
                    instruction.cycles
                }
            },
            Mnemonic::JMP => {
                let (target, _extra) = self.get_address(mem, instruction.address_mode)?;
                self.reg.pc = target;
                instruction.cycles
            },
            Mnemonic::JSR => {
                let (target, _extra) = self.get_address(mem, instruction.address_mode)?;
                let ret = self.reg.pc.wrapping_sub(1);
                self.push_u16(mem, ret)?;
                self.reg.pc = target;
                instruction.cycles
            },
            Mnemonic::STA | Mnemonic::STX | Mnemonic::STY => {
                let v = match m {
                    Mnemonic::STA => self.reg.a,
                    Mnemonic::STX => self.reg.x,
                    _ => self.reg.y,
                };
                let (target, _extra) = self.get_address(mem, instruction.address_mode)?;
                mem.write(target, v)?;
                instruction.cycles
            },
            Mnemonic::BRK => {
                let p = self.reg.pc.wrapping_add(1);
                self.push_u16(mem, p)?;
                self.php(mem)?;
                self.flags.i = true;
                let vector = bus_read16(mem, 0xfffe)?;
                self.reg.pc = vector;
                instruction.cycles
            },
            Mnemonic::PHA => {
                let a = self.reg.a;
                self.push(mem, a)?;
                instruction.cycles
            },
            Mnemonic::PHP => {
                self.php(mem)?;
                instruction.cycles
            },
            Mnemonic::PLA => {
                let v = self.pop(mem)?;
                self.reg.a = v;
                instruction.cycles
            },
            Mnemonic::PLP => {
                let v = self.pop(mem)?;
                self.flags = Flags::from_byte(v);
                self.flags.b = false;
                instruction.cycles
            },
            Mnemonic::RTI => {
                let v = self.pop(mem)?;
                let pc = self.pop_u16(mem)?;
                self.flags = Flags::from_byte(v);
                self.flags.b = false;
                self.reg.pc = pc;
                instruction.cycles
            },
            Mnemonic::RTS => {
                let v = self.pop_u16(mem)?;
                self.reg.pc = v.wrapping_add(1);
                instruction.cycles
            },
            Mnemonic::CLC => {
                self.flags.c = false;
                instruction.cycles
            },
            Mnemonic::SEC => {
                self.flags.c = true;
                instruction.cycles
            },
            Mnemonic::CLI => {
                self.flags.i = false;
                instruction.cycles
            },
            Mnemonic::SEI => {
                self.flags.i = true;
                instruction.cycles
            },
            Mnemonic::CLV => {
                self.flags.v = false;
                instruction.cycles
            },
            Mnemonic::CLD => {
                self.flags.d = false;
                instruction.cycles
            },
            Mnemonic::SED => {
                self.flags.d = true;
                instruction.cycles
            },
            Mnemonic::DEX => {
                self.reg.x = self.reg.x.wrapping_sub(1);
                self.flags = Flags::from_value_nz(self.reg.x);
                instruction.cycles
            },
            Mnemonic::DEY => {
                self.reg.y = self.reg.y.wrapping_sub(1);
                self.flags = Flags::from_value_nz(self.reg.y);
                instruction.cycles
            },
            Mnemonic::INX => {
                self.reg.x = self.reg.x.wrapping_add(1);
                self.flags = Flags::from_value_nz(self.reg.x);
                instruction.cycles
            },
            Mnemonic::INY => {
                self.reg.y = self.reg.y.wrapping_add(1);
                self.flags = Flags::from_value_nz(self.reg.y);
                instruction.cycles
            },
            Mnemonic::TAX => {
                self.reg.x = self.reg.a;
                instruction.cycles
            },
            Mnemonic::TAY => {
                self.reg.y = self.reg.a;
                instruction.cycles
            },
            Mnemonic::TSX => {
                self.reg.x = self.reg.sp;
                instruction.cycles
            },
            Mnemonic::TXA => {
                self.reg.a = self.reg.x;
                instruction.cycles
            },
            Mnemonic::TXS => {
                self.reg.sp = self.reg.x;
                instruction.cycles
            },
            Mnemonic::TYA => {
                self.reg.a = self.reg.y;
                instruction.cycles
            },
            Mnemonic::NOP => instruction.cycles,
        };
        Ok(total)
    }
}


/// For every addressing mode that reads M operand bytes beyond the
/// opcode, the program counter advances by exactly M during operand
/// resolution, modulo 2^16 — the opcode byte itself having advanced it
/// by one during fetch, for 1 + M in all.
#[verifier::spinoff_prover]
#[verifier::rlimit(100)]
pub proof fn lemma_resolution_pc_advance<B: Bus>(cpu: Cpu, bus: B::V, mode: AddressMode)
    requires
        mode != AddressMode::Implied,
    ensures
        cpu.ga_v_s::<B>(bus, mode) matches Ok((c, _b, _a, _v, _ex)) ==> c.reg.pc == (cpu.reg.pc
            + operand_len_s(mode)) % 0x10000,
        mode != AddressMode::Accumulator && mode != AddressMode::Immediate ==> (cpu.ga_s::<B>(
            bus,
            mode,
        ) matches Ok((c, _b, _a, _ex)) ==> c.reg.pc == (cpu.reg.pc + operand_len_s(mode))
            % 0x10000),
{
}

/// Fetching the opcode byte advances the program counter by exactly
/// one, modulo 2^16.
pub proof fn lemma_fetch_pc_advance<B: Bus>(cpu: Cpu, bus: B::V)
    ensures
        cpu.next_s::<B>(bus) matches Ok((c, _b, _x)) ==> c.reg.pc == (cpu.reg.pc + 1) % 0x10000,
{
}

/// Stack pushes and pops are inverse within page 0x01: pushing any word
/// through the interconnect and then popping a word returns the word,
/// leaves the stack pointer where it started, and leaves the bus as the
/// pushes left it.
pub proof fn lemma_push_pop_word(cpu: Cpu, ic: IcView, w: u16)
    requires
        ic.wf_s(),
    ensures
        cpu.push16_s::<Interconnect>(ic, w) matches Ok((c1, b1)) && (c1.pop16_s::<Interconnect>(b1)
            matches Ok((c2, b2, w2)) && w2 == w && c2.reg.sp == cpu.reg.sp && b2 == b1),
{
    assert((0x100 + cpu.reg.sp) % 0x800 < 0x800);
    assert(w / 256 * 256 + w % 256 == w);
}

/// The mnemonics that redirect the program counter. Every other
/// instruction leaves it exactly where fetch and operand resolution
/// put it.
pub open spec fn is_control_flow_s(m: Mnemonic) -> bool {
    is_branch_s(m) || m == Mnemonic::JMP || m == Mnemonic::JSR || m == Mnemonic::BRK
        || m == Mnemonic::RTI || m == Mnemonic::RTS
}

/// Applying a load, logical, arithmetic, compare or BIT result touches
/// registers and flags but never the program counter.
proof fn lemma_alu_apply_preserves_pc(cpu: Cpu, m: Mnemonic, v: u8)
    requires
        reads_value_s(m),
    ensures
        cpu.alu_apply_s(m, v).reg.pc == cpu.reg.pc,
{
}

/// The program-counter law at the level of a whole step: whenever the
/// opcode under the counter decodes to an instruction that performs no
/// control-flow change and the step succeeds, the counter lands exactly
/// one byte (the opcode) plus the mode's operand count further on,
/// modulo 2^16.
#[verifier::spinoff_prover]
#[verifier::rlimit(100)]
pub proof fn lemma_step_pc_advance<B: Bus>(cpu: Cpu, bus: B::V)
    ensures
        cpu.step_s::<B>(bus) matches Ok((c2, _b2, _cy)) ==> (match B::read_s(bus, cpu.reg.pc) {
            Ok((_b1, code)) => match decode_s(code) {
                Some(i) => !is_control_flow_s(i.mnemonic) ==> c2.reg.pc == (cpu.reg.pc + 1
                    + operand_len_s(i.address_mode)) % 0x10000,
                None => true,
            },
            Err(_e) => true,
        }),
{
    if cpu.step_s::<B>(bus) is Ok && B::read_s(bus, cpu.reg.pc) is Ok {
        let (b1, code) = B::read_s(bus, cpu.reg.pc)->Ok_0;
        lemma_decode_wf(code);
        if decode_s(code) is Some {
            let i = decode_s(code)->Some_0;
            let c1 = cpu.with_pc_s(cpu.reg.pc.wrapping_add(1));
            lemma_fetch_pc_advance::<B>(cpu, bus);
            if !is_control_flow_s(i.mnemonic) {
                if i.address_mode != AddressMode::Implied {
                    lemma_resolution_pc_advance::<B>(c1, b1, i.address_mode);
                }
                if reads_value_s(i.mnemonic) && c1.ga_v_s::<B>(b1, i.address_mode) is Ok {
                    let (c, _b, _a, v, _ex) = c1.ga_v_s::<B>(b1, i.address_mode)->Ok_0;
                    lemma_alu_apply_preserves_pc(c, i.mnemonic, v);
                }
                vstd::arithmetic::div_mod::lemma_add_mod_noop_right(
                    operand_len_s(i.address_mode),
                    cpu.reg.pc + 1,
                    0x10000,
                );
            }
        }
    }
}

} // verus!