//! The console: a CPU wired to an interconnect, with the scheduler's
//! cycle accounting.
//!
//! One step executes one instruction — or, when a sprite DMA has just
//! run, charges the DMA stall instead — and returns the cycles consumed
//! so an external pixel pipeline can advance three ticks per cycle.
//! The running total equals the sum of everything the steps returned.

use vstd::prelude::*;

use crate::bus::read16_s;
use crate::bus::Bus;
use crate::cartridge::Cartridge;
use crate::cpu::Cpu;
use crate::flags::Flags;
use crate::flags::Registers;
use crate::error::Error;
use crate::instruction::decode_s;
use crate::instruction::Instruction;
use crate::interconnect::IcView;
use crate::interconnect::Interconnect;
use crate::ppu::PpuInterface;

verus! {

/// The CPU-and-bus core of the console. The fields are public so a
/// host may drive the bus directly between steps.
pub struct Nes {
    pub cpu: Cpu,
    pub interconnect: Interconnect,
    pub cycles: u64,
}

impl Nes {
    /// Well-formedness of the owned bus.
    pub open spec fn wf_s(self) -> bool {
        self.interconnect@.wf_s()
    }

    /// The CPU state.
    pub open spec fn cpu_s(self) -> Cpu {
        self.cpu
    }

    /// The bus state.
    pub open spec fn bus_s(self) -> IcView {
        self.interconnect@
    }

    /// The running cycle total.
    pub open spec fn cycles_s(self) -> u64 {
        self.cycles
    }

    /// The transition one console step makes: a pending DMA charges its
    /// stall — 513 cycles, 514 when the running total is odd — and
    /// clears the flag; otherwise the CPU executes one instruction.
    /// Either way the returned count is added to the running total,
    /// wrapping modulo 2^64.
    pub open spec fn step_nes_s(cpu: Cpu, ic: IcView, cycles: u64) -> Result<
        (Cpu, IcView, u64),
        Error,
    > {
        if ic.dma {
            let stall: u64 = if cycles % 2 == 1 {
                514
            } else {
                513
            };
            Ok((cpu, IcView { dma: false, ..ic }, stall))
        } else {
            cpu.step_s::<Interconnect>(ic)
        }
    }

    /// Power up a console around a cartridge: the CPU comes up reset,
    /// with its program counter loaded from the vector at 0xFFFC.
    pub fn new(cartridge: Cartridge) -> (r: Result<Nes, Error>)
        requires
            cartridge@.wf_s(),
        ensures
            match read16_s::<Interconnect>(IcView::init_s(cartridge@), 0xfffc) {
                Ok((b, v)) => r matches Ok(n) && n.wf_s() && n.bus_s() == b && n.cycles_s() == 0
                    && n.cpu_s() == (Cpu {
                    reg: Registers { pc: v, sp: 0xfd, a: 0, x: 0, y: 0 },
                    flags: Flags::from_byte_s(0x24),
                }),
                Err(e) => r == Err::<Nes, Error>(e),
            },
    {
        let mut interconnect = Interconnect::new(cartridge);
        let mut cpu = Cpu::new();
        cpu.reset(&mut interconnect)?;
        Ok(Nes { cpu, interconnect, cycles: 0 })
    }

    /// The CPU's registers and flags, read-only.
    pub fn cpu(&self) -> (r: &Cpu)
        ensures
            r == self.cpu_s(),
    {
        &self.cpu
    }

    /// The PPU register interface, read-only.
    pub fn ppu(&self) -> (r: &PpuInterface)
        ensures
            r@ == self.bus_s().ppu,
    {
        self.interconnect.ppu_interface_ref()
    }

    /// The bus, read-only; callers that drive the bus directly own the
    /// console's public fields.
    pub fn interconnect(&self) -> (r: &Interconnect)
        ensures
            r@ == self.bus_s(),
    {
        &self.interconnect
    }

    /// The running cycle total: the sum, modulo 2^64, of every count
    /// `step` has returned.
    pub fn cycles(&self) -> (r: u64)
        ensures
            r == self.cycles_s(),
    {
        self.cycles
    }

    /// Observe the byte under the program counter without side effects.
    pub fn peek(&self) -> (r: Result<u8, Error>)
        requires
            self.wf_s(),
        ensures
            r == <Interconnect as Bus>::peek_s(self.bus_s(), self.cpu_s().reg.pc),
    {
        self.cpu.peek(&self.interconnect)
    }

    /// Observe the little-endian word under the program counter without
    /// side effects.
    pub fn peek_u16(&self) -> (r: Result<u16, Error>)
        requires
            self.wf_s(),
        ensures
            r == (match <Interconnect as Bus>::peek_s(self.bus_s(), self.cpu_s().reg.pc) {
                Ok(lo) => match <Interconnect as Bus>::peek_s(
                    self.bus_s(),
                    self.cpu_s().reg.pc.wrapping_add(1),
                ) {
                    Ok(hi) => Ok::<u16, Error>(crate::util::word_s(lo, hi)),
                    Err(e) => Err(e),
                },
                Err(e) => Err(e),
            }),
    {
        self.cpu.peek_u16(&self.interconnect)
    }

    /// Observe the byte `skip` places past the program counter without
    /// side effects.
    pub fn skip_peek(&self, skip: usize) -> (r: Result<u8, Error>)
        requires
            skip <= 0xFFFF,
            self.wf_s(),
        ensures
            r == <Interconnect as Bus>::peek_s(
                self.bus_s(),
                self.cpu_s().reg.pc.wrapping_add(skip as u16),
            ),
    {
        self.cpu.skip_peek(skip, &self.interconnect)
    }

    /// Observe the little-endian word `skip` places past the program
    /// counter without side effects.
    pub fn skip_peek_u16(&self, skip: usize) -> (r: Result<u16, Error>)
        requires
            skip <= 0xFFFE,
            self.wf_s(),
        ensures
            r == (match <Interconnect as Bus>::peek_s(
                self.bus_s(),
                self.cpu_s().reg.pc.wrapping_add(skip as u16),
            ) {
                Ok(lo) => match <Interconnect as Bus>::peek_s(
                    self.bus_s(),
                    self.cpu_s().reg.pc.wrapping_add((skip + 1) as u16),
                ) {
                    Ok(hi) => Ok::<u16, Error>(crate::util::word_s(lo, hi)),
                    Err(e) => Err(e),
                },
                Err(e) => Err(e),
            }),
    {
        self.cpu.skip_peek_u16(skip, &self.interconnect)
    }

    /// Decode the instruction under the program counter without side
    /// effects.
    pub fn current_instruction(&self) -> (r: Result<Instruction, Error>)
        requires
            self.wf_s(),
        ensures
            r == (match <Interconnect as Bus>::peek_s(self.bus_s(), self.cpu_s().reg.pc) {
                Ok(code) => match decode_s(code) {
                    Some(i) => Ok::<Instruction, Error>(i),
                    None => Err::<Instruction, Error>(
                        Error::Decode(self.cpu_s().reg.pc, code),
                    ),
                },
                Err(e) => Err::<Instruction, Error>(e),
            }),
    {
        self.cpu.current_instruction(&self.interconnect)
    }

    /// Advance the console by one step and return the cycles it
    /// consumed. A successful step always reports at least two cycles,
    /// and the running total grows by exactly the returned count,
    /// wrapping modulo 2^64.
    pub fn step(&mut self) -> (r: Result<u64, Error>)
        requires
            old(self).wf_s(),
        ensures
            final(self).wf_s(),
            match Nes::step_nes_s(old(self).cpu_s(), old(self).bus_s(), old(self).cycles_s()) {
                Ok((c, b, cy)) => r == Ok::<u64, Error>(cy) && final(self).cpu_s() == c
                    && final(self).bus_s() == b && 2 <= cy
                    && final(self).cycles_s() == old(self).cycles_s().wrapping_add(cy),
                Err(e) => r == Err::<u64, Error>(e),
            },
    {
        let n: u64 = if self.interconnect.dma() {
            self.interconnect.set_dma(false);
            if self.cycles % 2 == 1 {
                514
            } else {
                513
            }
        } else {
            self.cpu.step(&mut self.interconnect)?
        };
        self.cycles = self.cycles.wrapping_add(n);
        Ok(n)
    }

    /// The state after up to `steps` console steps, or the error of the
    /// first step that failed.
    pub open spec fn run_s(cpu: Cpu, ic: IcView, cycles: u64, steps: int) -> Result<
        (Cpu, IcView, u64),
        Error,
    >
        decreases steps,
    {
        if steps <= 0 {
            Ok((cpu, ic, cycles))
        } else {
            match Nes::step_nes_s(cpu, ic, cycles) {
                Ok((c, b, cy)) => Nes::run_s(c, b, cycles.wrapping_add(cy), steps - 1),
                Err(e) => Err(e),
            }
        }
    }

    /// Run for up to `steps` steps. `None` means every step succeeded;
    /// otherwise the first decode or bus error stopped the machine. A
    /// host runs the console forever by calling this in a loop.
    pub fn run(&mut self, steps: u64) -> (r: Option<Error>)
        requires
            old(self).wf_s(),
        ensures
            final(self).wf_s(),
            match Nes::run_s(
                old(self).cpu_s(),
                old(self).bus_s(),
                old(self).cycles_s(),
                steps as int,
            ) {
                Ok((c, b, cy)) => r is None && final(self).cpu_s() == c && final(self).bus_s() == b
                    && final(self).cycles_s() == cy,
                Err(e) => r == Some(e),
            },
    {
        let mut i: u64 = 0;
        while i < steps
            invariant
                i <= steps,
                self.wf_s(),
                Nes::run_s(
                    old(self).cpu_s(),
                    old(self).bus_s(),
                    old(self).cycles_s(),
                    steps as int,
                ) == Nes::run_s(self.cpu_s(), self.bus_s(), self.cycles_s(), steps - i),
            decreases steps - i,
        {
            match self.step() {
                Ok(_) => {
                },
                Err(e) => {
                    return Some(e);
                },
            }
            i = i + 1;
        }
        None
    }
}

} // verus!
