//! The whole system: one owner for the bus, who lends it to each component
//! for its turn.

use vstd::prelude::*;
use crate::cpu::{machine, Step, CPU};
use crate::laws::{lemma_step_cost_bounds, MAX_STEP_CYCLES};
use crate::mem::{Memory, BUS_SIZE, POWER_ON_BYTE};
use crate::ppu::PPU;

verus! {

pub struct NES {
    pub cpu: CPU,
    pub ppu: PPU,
    pub mem: Memory,
}

impl NES {
    /// The system at power-on: the processor in its power-on state, memory
    /// filled with `0xFF`.
    pub fn new() -> (nes: NES)
        ensures
            nes.cpu == CPU::power_on(),
            nes.mem@.len() == BUS_SIZE,
            forall|addr: int| 0 <= addr < BUS_SIZE ==> nes.mem@[addr] == POWER_ON_BYTE,
    {
        NES { cpu: CPU::new(), ppu: PPU::new(), mem: Memory::new() }
    }

    /// Starts the processor over at the address in the reset vector.
    pub fn reset(&mut self)
        ensures
            final(self).cpu == machine(old(self).cpu, old(self).mem@).reset().cpu,
            final(self).mem@ == old(self).mem@,
            final(self).ppu == old(self).ppu,
    {
        self.cpu.reset(&self.mem);
    }

    /// Lends the bus to the processor for one instruction.
    ///
    /// Returns what the processor reports of the step, or `None`, with
    /// nothing changed, when the cycle counter has no room left for the
    /// longest instruction.
    pub fn step(&mut self) -> (step: Option<Step>)
        ensures
            old(self).cpu.cycle + MAX_STEP_CYCLES <= u64::MAX ==> {
                &&& step == Some(machine(old(self).cpu, old(self).mem@).report())
                &&& final(self).cpu == machine(old(self).cpu, old(self).mem@).step().cpu
                &&& final(self).mem@ == machine(old(self).cpu, old(self).mem@).step().mem
                &&& final(self).ppu == old(self).ppu
            },
            old(self).cpu.cycle + MAX_STEP_CYCLES > u64::MAX ==> {
                &&& step is None
                &&& final(self).cpu == old(self).cpu
                &&& final(self).mem@ == old(self).mem@
                &&& final(self).ppu == old(self).ppu
            },
    {
        if self.cpu.cycle > u64::MAX - MAX_STEP_CYCLES {
            return None;
        }
        proof {
            lemma_step_cost_bounds(machine(self.cpu, self.mem@));
        }
        Some(self.cpu.advance_cpu(&mut self.mem))
    }
}

} // verus!
