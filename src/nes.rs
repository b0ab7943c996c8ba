use std::rc::Rc;
use vstd::prelude::*;

use crate::cpu::{after_reset, reset_spec, step_spec, Cpu};
use crate::memory::{Fault, RAM_SIZE};
use crate::register::{power_on_registers, Registers};
use crate::rom::{copy_bytes, Rom};

verus! {

/// The console: a processor with its work RAM, and the cartridge once one is
/// inserted.
#[derive(Debug)]
pub struct Nes {
    cpu: Cpu,
    rom: Option<Rom>,
}

impl Nes {
    /// The processor.
    pub closed spec fn cpu(&self) -> Cpu {
        self.cpu
    }

    /// The inserted cartridge.
    pub closed spec fn cartridge(&self) -> Option<Rom> {
        self.rom
    }

    /// The processor is well formed.
    pub open spec fn wf(&self) -> bool {
        self.cpu().wf()
    }

    /// A console at power-on: zeroed RAM, no cartridge.
    pub fn new() -> (r: Self)
        ensures
            r.wf(),
            r.cpu().regs() == power_on_registers(),
            forall|i: int| 0 <= i < RAM_SIZE ==> r.cpu().ram()[i] == 0,
            r.cpu().rom() is None,
            r.cartridge() is None,
    {
        let mut wram: Vec<u8> = Vec::with_capacity(RAM_SIZE);
        while wram.len() < RAM_SIZE
            invariant
                wram@.len() <= RAM_SIZE,
                forall|i: int| 0 <= i < wram@.len() ==> wram@[i] == 0,
            decreases RAM_SIZE - wram@.len(),
        {
            wram.push(0);
        }
        let cpu = Cpu::new(wram);
        Self { cpu, rom: None }
    }

    /// Inserts a cartridge: its program banks become the processor's ROM.
    pub fn set_rom(&mut self, rom: Rom)
        requires
            old(self).wf(),
        ensures
            final(self).wf(),
            final(self).cpu().regs() == old(self).cpu().regs(),
            final(self).cpu().ram() == old(self).cpu().ram(),
            final(self).cpu().rom() == Some(rom.program@),
            final(self).cartridge() == Some(rom),
    {
        let program = Rc::new(copy_bytes(rom.program.as_slice(), 0, rom.program.len()));
        self.rom = Some(rom);
        self.cpu.set_rom(Some(program));
    }

    /// Resets the processor (see `Cpu::reset`).
    pub fn reset(&mut self) -> (r: Result<(), Fault>)
        requires
            old(self).wf(),
        ensures
            final(self).wf(),
            final(self).cartridge() == old(self).cartridge(),
            final(self).cpu().ram() == old(self).cpu().ram(),
            final(self).cpu().rom() == old(self).cpu().rom(),
            final(self).cpu().regs() == after_reset(
                old(self).cpu().regs(),
                old(self).cpu().ram(),
                old(self).cpu().rom(),
            ),
            match reset_spec(old(self).cpu().ram(), old(self).cpu().rom()) {
                Ok(_) => r is Ok,
                Err(f) => r == Err::<(), Fault>(f),
            },
    {
        self.cpu.reset()
    }

    /// Executes one instruction (see `Cpu::run`) and returns its cycles.
    pub fn step(&mut self) -> (r: Result<u8, Fault>)
        requires
            old(self).wf(),
        ensures
            final(self).wf(),
            final(self).cartridge() == old(self).cartridge(),
            final(self).cpu().rom() == old(self).cpu().rom(),
            match step_spec(old(self).cpu().regs(), old(self).cpu().ram(), old(self).cpu().rom()) {
                Ok((regs, ram, cycles)) => r == Ok::<u8, Fault>(cycles as u8)
                    && final(self).cpu().regs() == regs && final(self).cpu().ram() == ram,
                Err(f) => r == Err::<u8, Fault>(f) && final(self).cpu().regs() == old(
                    self,
                ).cpu().regs() && final(self).cpu().ram() == old(self).cpu().ram(),
            },
    {
        self.cpu.run()
    }

    /// A snapshot of the processor's registers.
    pub fn registers(&self) -> (r: Registers)
        ensures
            r == self.cpu().regs(),
    {
        self.cpu.registers()
    }
}

} // verus!
