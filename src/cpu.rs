use std::rc::Rc;
use vstd::prelude::*;

use crate::instruction::{
    addressing_cycles, base_cycles, decode, sets_flags, Addressing, Instruction, Kind,
};
use crate::memory::{
    read_spec, read_word_spec, wrap_add, write_spec, Fault, IO_END, IO_START, RAM_END, RAM_SIZE,
    RESET_VECTOR, ROM_START,
};
use crate::register::{power_on_registers, Registers, Status};

verus! {

/// The processor: its registers, its RAM, and the program ROM once one is set.
#[derive(Debug)]
pub struct Cpu {
    registers: Registers,
    rom: Option<Rc<Vec<u8>>>,
    ram: Vec<u8>,
}

/// The registers after a reset: power-on values with the program counter
/// loaded from the reset vector.
pub open spec fn reset_spec(ram: Seq<u8>, rom: Option<Seq<u8>>) -> Result<Registers, Fault> {
    match read_word_spec(ram, rom, RESET_VECTOR) {
        Err(f) => Err(f),
        Ok(pc) => Ok(Registers { program_counter: pc, ..power_on_registers() }),
    }
}

/// The registers that a reset leaves behind, starting from `regs`: those of
/// `reset_spec`, or `regs` unchanged when the reset vector cannot be read.
pub open spec fn after_reset(regs: Registers, ram: Seq<u8>, rom: Option<Seq<u8>>) -> Registers {
    match reset_spec(ram, rom) {
        Ok(reset) => reset,
        Err(_) => regs,
    }
}

/// Resetting twice in succession leaves the same registers, and so the same
/// program counter, as resetting once, when RAM and ROM are unchanged.
pub proof fn lemma_reset_idempotent(regs: Registers, ram: Seq<u8>, rom: Option<Seq<u8>>)
    ensures
        after_reset(after_reset(regs, ram, rom), ram, rom) == after_reset(regs, ram, rom),
        after_reset(after_reset(regs, ram, rom), ram, rom).program_counter == after_reset(
            regs,
            ram,
            rom,
        ).program_counter,
{
}

/// The result of resolving an addressing mode.
#[derive(Debug, Clone, Copy, PartialEq, Eq, Structural)]
pub enum Operand {
    /// An effective address, and whether forming it crossed a page.
    Address(u16, bool),
    /// An immediate value.
    Value(u8),
    /// No operand (implied addressing).
    Implied,
}

/// `regs` with the program counter set to `pc`.
pub open spec fn with_pc(regs: Registers, pc: u16) -> Registers {
    Registers { program_counter: pc, ..regs }
}

/// The page (high byte) of an address.
pub open spec fn page(addr: u16) -> int {
    addr as int / 256
}

/// A branch offset byte read as a two's-complement value.
pub open spec fn signed_offset(b: u8) -> int {
    if b < 0x80 {
        b as int
    } else {
        b - 256
    }
}

/// Resolves `addressing` with the operand bytes starting at `pc` and index
/// register `x`: the operand, and the address just past the operand bytes.
pub open spec fn operand_spec(
    ram: Seq<u8>,
    rom: Option<Seq<u8>>,
    addressing: Addressing,
    pc: u16,
    x: u8,
) -> Result<(Operand, u16), Fault> {
    match addressing {
        Addressing::Implied => Ok((Operand::Implied, pc)),
        Addressing::Immediate => match read_spec(ram, rom, pc) {
            Err(f) => Err(f),
            Ok(v) => Ok((Operand::Value(v), wrap_add(pc, 1))),
        },
        Addressing::Relative => match read_spec(ram, rom, pc) {
            Err(f) => Err(f),
            Ok(b) => {
                let next = wrap_add(pc, 1);
                let target = wrap_add(next, signed_offset(b));
                Ok((Operand::Address(target, page(next) != page(target)), next))
            },
        },
        Addressing::Absolute => match read_word_spec(ram, rom, pc) {
            Err(f) => Err(f),
            Ok(addr) => Ok((Operand::Address(addr, false), wrap_add(pc, 2))),
        },
        Addressing::AbsoluteX => match read_word_spec(ram, rom, pc) {
            Err(f) => Err(f),
            Ok(base) => {
                let addr = wrap_add(base, x as int);
                Ok((Operand::Address(addr, page(base) != page(addr)), wrap_add(pc, 2)))
            },
        },
    }
}

/// The surcharge for a page crossed by a load or store.
pub open spec fn crossing_cycles(crossed: bool) -> nat {
    if crossed {
        1
    } else {
        0
    }
}

/// The value a load reads, and its page-crossing surcharge. Without an
/// operand the register keeps `current`.
pub open spec fn load_spec(ram: Seq<u8>, rom: Option<Seq<u8>>, operand: Operand, current: u8) -> Result<(u8, nat), Fault> {
    match operand {
        Operand::Value(v) => Ok((v, 0)),
        Operand::Address(addr, crossed) => match read_spec(ram, rom, addr) {
            Err(f) => Err(f),
            Ok(v) => Ok((v, crossing_cycles(crossed))),
        },
        Operand::Implied => Ok((current, 0)),
    }
}

/// Applies an operation to the registers (whose program counter is already
/// past the operand) and RAM: the new registers, the new RAM, and the cycles
/// added to the instruction's base cost.
pub open spec fn execute_spec(
    kind: Kind,
    regs: Registers,
    ram: Seq<u8>,
    rom: Option<Seq<u8>>,
    operand: Operand,
) -> Result<(Registers, Seq<u8>, nat), Fault> {
    match kind {
        Kind::LDA => match load_spec(ram, rom, operand, regs.accumulator) {
            Err(f) => Err(f),
            Ok((v, extra)) => Ok((Registers { accumulator: v, ..regs }, ram, extra)),
        },
        Kind::LDX => match load_spec(ram, rom, operand, regs.index_x) {
            Err(f) => Err(f),
            Ok((v, extra)) => Ok((Registers { index_x: v, ..regs }, ram, extra)),
        },
        Kind::LDY => match load_spec(ram, rom, operand, regs.index_y) {
            Err(f) => Err(f),
            Ok((v, extra)) => Ok((Registers { index_y: v, ..regs }, ram, extra)),
        },
        Kind::STA => match operand {
            Operand::Address(addr, crossed) => match write_spec(ram, addr, regs.accumulator) {
                Err(f) => Err(f),
                Ok(new_ram) => Ok((regs, new_ram, crossing_cycles(crossed))),
            },
            _ => Ok((regs, ram, 0)),
        },
        Kind::TXS => Ok((Registers { stack_pointer: regs.index_x as u16, ..regs }, ram, 0)),
        Kind::INX => Ok((Registers { index_x: ((regs.index_x + 1) % 256) as u8, ..regs }, ram, 0)),
        Kind::DEY => Ok((Registers { index_y: ((regs.index_y + 255) % 256) as u8, ..regs }, ram, 0)),
        Kind::JMP => match operand {
            Operand::Address(addr, _) => Ok((Registers { program_counter: addr, ..regs }, ram, 0)),
            _ => Ok((regs, ram, 0)),
        },
        Kind::BNE => match operand {
            Operand::Address(addr, crossed) => if !regs.status.zero {
                Ok((Registers { program_counter: addr, ..regs }, ram, 1 + crossing_cycles(crossed)))
            } else {
                Ok((regs, ram, 0))
            },
            _ => Ok((regs, ram, 0)),
        },
        Kind::SEI => Ok(
            (
                Registers { status: Status { irq_prohibited: true, ..regs.status }, ..regs },
                ram,
                0,
            ),
        ),
        Kind::NOP => Ok((regs, ram, 0)),
    }
}

/// The register whose new value an operation's flags are derived from.
pub open spec fn flag_source(kind: Kind, regs: Registers) -> u8 {
    match kind {
        Kind::LDA => regs.accumulator,
        Kind::LDX | Kind::INX | Kind::TXS => regs.index_x,
        Kind::LDY | Kind::DEY => regs.index_y,
        _ => 0,
    }
}

/// Sets the negative flag from bit 7 of `value` and the zero flag from
/// whether it is zero.
pub open spec fn with_flags(regs: Registers, value: u8) -> Registers {
    Registers { status: Status { negative: value >= 0x80, zero: value == 0, ..regs.status }, ..regs }
}

/// One instruction step from the given state: the new registers, the new RAM
/// and the cycles the instruction took; or the first bus fault met.
pub open spec fn step_spec(regs: Registers, ram: Seq<u8>, rom: Option<Seq<u8>>) -> Result<(Registers, Seq<u8>, nat), Fault> {
    match read_spec(ram, rom, regs.program_counter) {
        Err(f) => Err(f),
        Ok(opcode) => {
            let instruction = decode(opcode);
            let after_opcode = wrap_add(regs.program_counter, 1);
            match operand_spec(ram, rom, instruction.addressing, after_opcode, regs.index_x) {
                Err(f) => Err(f),
                Ok((operand, next)) => match execute_spec(
                    instruction.kind,
                    with_pc(regs, next),
                    ram,
                    rom,
                    operand,
                ) {
                    Err(f) => Err(f),
                    Ok((executed, new_ram, extra)) => Ok(
                        (
                            if sets_flags(instruction.kind) {
                                with_flags(executed, flag_source(instruction.kind, executed))
                            } else {
                                executed
                            },
                            new_ram,
                            base_cycles(instruction.kind) + addressing_cycles(instruction.addressing)
                                + extra,
                        ),
                    ),
                },
            }
        },
    }
}

impl Cpu {
    /// The register file.
    pub closed spec fn regs(&self) -> Registers {
        self.registers
    }

    /// The RAM contents.
    pub closed spec fn ram(&self) -> Seq<u8> {
        self.ram@
    }

    /// The program ROM, if one is set.
    pub closed spec fn rom(&self) -> Option<Seq<u8>> {
        match self.rom {
            Some(program) => Some(program@),
            None => None,
        }
    }

    /// The RAM region has its fixed size.
    pub open spec fn wf(&self) -> bool {
        self.ram().len() == RAM_SIZE
    }

    /// A processor in its power-on state over the given RAM, with no ROM.
    pub fn new(ram: Vec<u8>) -> (r: Self)
        requires
            ram@.len() == RAM_SIZE,
        ensures
            r.wf(),
            r.regs() == power_on_registers(),
            r.ram() == ram@,
            r.rom() is None,
    {
        Cpu { registers: Registers::default(), rom: None, ram }
    }

    /// Sets (or removes) the program ROM.
    pub fn set_rom(&mut self, rom: Option<Rc<Vec<u8>>>)
        ensures
            final(self).regs() == old(self).regs(),
            final(self).ram() == old(self).ram(),
            final(self).rom() == (match rom {
                Some(program) => Some(program@),
                None => None::<Seq<u8>>,
            }),
    {
        self.rom = rom;
    }

    /// Reads one byte from the bus.
    pub fn read(&self, addr: u16) -> (r: Result<u8, Fault>)
        requires
            self.wf(),
        ensures
            r == read_spec(self.ram(), self.rom(), addr),
    {
        if addr <= RAM_END {
            Ok(self.ram[addr as usize])
        } else if IO_START <= addr && addr <= IO_END {
            Ok(0)
        } else if addr >= ROM_START {
            match &self.rom {
                Some(program) => {
                    let i = (addr - ROM_START) as usize;
                    if i < program.len() {
                        Ok(program[i])
                    } else {
                        Err(Fault::UnmappedRead(addr))
                    }
                },
                None => Err(Fault::UnmappedRead(addr)),
            }
        } else {
            Err(Fault::UnmappedRead(addr))
        }
    }

    /// Reads a little-endian word: the low byte at `addr`, the high byte at
    /// the next address (wrapping).
    pub fn read_word(&self, addr: u16) -> (r: Result<u16, Fault>)
        requires
            self.wf(),
        ensures
            r == read_word_spec(self.ram(), self.rom(), addr),
    {
        let low = match self.read(addr) {
            Ok(b) => b,
            Err(f) => return Err(f),
        };
        let high = match self.read(addr.wrapping_add(1)) {
            Ok(b) => b,
            Err(f) => return Err(f),
        };
        Ok(low as u16 + (high as u16) * 256)
    }

    /// Writes one byte to the bus. Only RAM is changed; a write to the I/O
    /// stub is accepted and has no effect.
    pub fn write(&mut self, addr: u16, value: u8) -> (r: Result<(), Fault>)
        requires
            old(self).wf(),
        ensures
            final(self).wf(),
            final(self).regs() == old(self).regs(),
            final(self).rom() == old(self).rom(),
            match write_spec(old(self).ram(), addr, value) {
                Ok(ram) => r is Ok && final(self).ram() == ram,
                Err(f) => r == Err::<(), Fault>(f) && final(self).ram() == old(self).ram(),
            },
    {
        if addr <= RAM_END {
            self.ram.set(addr as usize, value);
            Ok(())
        } else if IO_START <= addr && addr <= IO_END {
            Ok(())
        } else {
            Err(Fault::UnmappedWrite(addr))
        }
    }

    /// Puts the registers in their power-on state and loads the program
    /// counter from the reset vector. When the vector cannot be read, nothing
    /// changes.
    pub fn reset(&mut self) -> (r: Result<(), Fault>)
        requires
            old(self).wf(),
        ensures
            final(self).wf(),
            final(self).ram() == old(self).ram(),
            final(self).rom() == old(self).rom(),
            final(self).regs() == after_reset(old(self).regs(), old(self).ram(), old(self).rom()),
            match reset_spec(old(self).ram(), old(self).rom()) {
                Ok(_) => r is Ok,
                Err(f) => r == Err::<(), Fault>(f),
            },
    {
        let pc = match self.read_word(RESET_VECTOR) {
            Ok(w) => w,
            Err(f) => return Err(f),
        };
        self.registers = Registers::default();
        self.registers.program_counter = pc;
        Ok(())
    }

    /// A snapshot of the register file.
    pub fn registers(&self) -> (r: Registers)
        ensures
            r == self.regs(),
    {
        self.registers
    }

    /// The register file, for inspection and for setting up a state.
    pub fn get_registers(&mut self) -> (r: &mut Registers)
        ensures
            *r == old(self).regs(),
            final(self).regs() == *final(r),
            final(self).ram() == old(self).ram(),
            final(self).rom() == old(self).rom(),
    {
        &mut self.registers
    }
    /// Executes one instruction and returns the cycles it took.
    ///
    /// A step that meets a bus fault returns it and changes nothing.
    pub fn run(&mut self) -> (r: Result<u8, Fault>)
        requires
            old(self).wf(),
        ensures
            final(self).wf(),
            final(self).rom() == old(self).rom(),
            match step_spec(old(self).regs(), old(self).ram(), old(self).rom()) {
                Ok((regs, ram, cycles)) => r == Ok::<u8, Fault>(cycles as u8) && final(self).regs()
                    == regs && final(self).ram() == ram,
                Err(f) => r == Err::<u8, Fault>(f) && final(self).regs() == old(self).regs()
                    && final(self).ram() == old(self).ram(),
            },
    {
        let saved = self.registers;
        let opcode = match self.fetch() {
            Ok(b) => b,
            Err(f) => return Err(f),
        };
        let instruction = Instruction::from_opcode(opcode);
        let operand = match self.fetch_operand(&instruction.addressing) {
            Ok(o) => o,
            Err(f) => {
                self.registers = saved;
                return Err(f);
            },
        };
        let (extra, calc_result) = match self.execute(instruction.kind, operand) {
            Ok(done) => done,
            Err(f) => {
                self.registers = saved;
                return Err(f);
            },
        };
        if let Some(result) = calc_result {
            if instruction.affects_status_negative() {
                self.registers.status.negative = result >= 0x80;
            }
            if instruction.affects_status_zero() {
                self.registers.status.zero = result == 0;
            }
        }
        Ok(instruction.clock() + extra)
    }

    /// Applies one operation to the registers and RAM. Returns the cycles to
    /// add to the instruction's base cost, and the value that the flags are
    /// derived from when the operation sets them.
    fn execute(&mut self, kind: Kind, operand: Operand) -> (r: Result<(u8, Option<u8>), Fault>)
        requires
            old(self).wf(),
        ensures
            final(self).wf(),
            final(self).rom() == old(self).rom(),
            match execute_spec(kind, old(self).regs(), old(self).ram(), old(self).rom(), operand) {
                Ok((regs, ram, extra)) => extra <= 2 && r == Ok::<(u8, Option<u8>), Fault>(
                    (
                        extra as u8,
                        if sets_flags(kind) {
                            Some(flag_source(kind, regs))
                        } else {
                            None
                        },
                    ),
                ) && final(self).regs() == regs && final(self).ram() == ram,
                Err(f) => r == Err::<(u8, Option<u8>), Fault>(f) && final(self).ram() == old(
                    self,
                ).ram(),
            },
    {
        match kind {
            Kind::JMP => {
                if let Operand::Address(addr, _) = operand {
                    self.registers.program_counter = addr;
                }
                Ok((0, None))
            },
            Kind::SEI => {
                self.registers.status.irq_prohibited = true;
                Ok((0, None))
            },
            Kind::DEY => {
                self.registers.index_y = self.registers.index_y.wrapping_sub(1);
                Ok((0, Some(self.registers.index_y)))
            },
            Kind::STA => {
                if let Operand::Address(addr, page_crossed) = operand {
                    match self.write(addr, self.registers.accumulator) {
                        Ok(()) => Ok((if page_crossed { 1 } else { 0 }, None)),
                        Err(f) => Err(f),
                    }
                } else {
                    Ok((0, None))
                }
            },
            Kind::TXS => {
                self.registers.stack_pointer = self.registers.index_x as u16;
                Ok((0, Some(self.registers.index_x)))
            },
            Kind::LDY => match self.load(operand, self.registers.index_y) {
                Ok((v, extra)) => {
                    self.registers.index_y = v;
                    Ok((extra, Some(v)))
                },
                Err(f) => Err(f),
            },
            Kind::LDX => match self.load(operand, self.registers.index_x) {
                Ok((v, extra)) => {
                    self.registers.index_x = v;
                    Ok((extra, Some(v)))
                },
                Err(f) => Err(f),
            },
            Kind::LDA => match self.load(operand, self.registers.accumulator) {
                Ok((v, extra)) => {
                    self.registers.accumulator = v;
                    Ok((extra, Some(v)))
                },
                Err(f) => Err(f),
            },
            Kind::BNE => {
                if let Operand::Address(addr, page_crossed) = operand {
                    if !self.registers.status.zero {
                        self.registers.program_counter = addr;
                        return Ok((if page_crossed { 2 } else { 1 }, None));
                    }
                }
                Ok((0, None))
            },
            Kind::INX => {
                self.registers.index_x = self.registers.index_x.wrapping_add(1);
                Ok((0, Some(self.registers.index_x)))
            },
            Kind::NOP => Ok((0, None)),
        }
    }

    /// Reads the byte at the program counter and advances past it.
    fn fetch(&mut self) -> (r: Result<u8, Fault>)
        requires
            old(self).wf(),
        ensures
            final(self).wf(),
            final(self).ram() == old(self).ram(),
            final(self).rom() == old(self).rom(),
            r == read_spec(old(self).ram(), old(self).rom(), old(self).regs().program_counter),
            r is Ok ==> final(self).regs() == with_pc(
                old(self).regs(),
                wrap_add(old(self).regs().program_counter, 1),
            ),
            r is Err ==> final(self).regs() == old(self).regs(),
    {
        let value = match self.read(self.registers.program_counter) {
            Ok(b) => b,
            Err(f) => return Err(f),
        };
        self.registers.program_counter = self.registers.program_counter.wrapping_add(1);
        Ok(value)
    }

    /// Reads the little-endian word at the program counter and advances past it.
    fn fetch_word(&mut self) -> (r: Result<u16, Fault>)
        requires
            old(self).wf(),
        ensures
            final(self).wf(),
            final(self).ram() == old(self).ram(),
            final(self).rom() == old(self).rom(),
            r == read_word_spec(old(self).ram(), old(self).rom(), old(self).regs().program_counter),
            r is Ok ==> final(self).regs() == with_pc(
                old(self).regs(),
                wrap_add(old(self).regs().program_counter, 2),
            ),
    {
        let lower = match self.fetch() {
            Ok(b) => b,
            Err(f) => return Err(f),
        };
        let upper = match self.fetch() {
            Ok(b) => b,
            Err(f) => return Err(f),
        };
        Ok(lower as u16 + (upper as u16) * 256)
    }

    /// Consumes the operand bytes of `addressing` and resolves them.
    fn fetch_operand(&mut self, addressing: &Addressing) -> (r: Result<Operand, Fault>)
        requires
            old(self).wf(),
        ensures
            final(self).wf(),
            final(self).ram() == old(self).ram(),
            final(self).rom() == old(self).rom(),
            match operand_spec(
                old(self).ram(),
                old(self).rom(),
                *addressing,
                old(self).regs().program_counter,
                old(self).regs().index_x,
            ) {
                Ok((operand, next)) => r == Ok::<Operand, Fault>(operand) && final(self).regs()
                    == with_pc(old(self).regs(), next),
                Err(f) => r == Err::<Operand, Fault>(f),
            },
    {
        match addressing {
            Addressing::Immediate => match self.fetch() {
                Ok(v) => Ok(Operand::Value(v)),
                Err(f) => Err(f),
            },
            Addressing::Relative => {
                let offset = match self.fetch() {
                    Ok(b) => b,
                    Err(f) => return Err(f),
                };
                let pc = self.registers.program_counter;
                let addr = if offset < 0x80 {
                    pc.wrapping_add(offset as u16)
                } else {
                    pc.wrapping_sub(256 - offset as u16)
                };
                let page_crossed = pc / 256 != addr / 256;
                Ok(Operand::Address(addr, page_crossed))
            },
            Addressing::Absolute => match self.fetch_word() {
                Ok(addr) => Ok(Operand::Address(addr, false)),
                Err(f) => Err(f),
            },
            Addressing::AbsoluteX => {
                let orig = match self.fetch_word() {
                    Ok(w) => w,
                    Err(f) => return Err(f),
                };
                let addr = orig.wrapping_add(self.registers.index_x as u16);
                let page_crossed = orig / 256 != addr / 256;
                Ok(Operand::Address(addr, page_crossed))
            },
            Addressing::Implied => Ok(Operand::Implied),
        }
    }

    /// The value a load instruction reads through `operand`, and the cycles a
    /// page crossing adds.
    fn load(&self, operand: Operand, current: u8) -> (r: Result<(u8, u8), Fault>)
        requires
            self.wf(),
        ensures
            match load_spec(self.ram(), self.rom(), operand, current) {
                Ok((v, extra)) => extra <= 1 && r == Ok::<(u8, u8), Fault>((v, extra as u8)),
                Err(f) => r == Err::<(u8, u8), Fault>(f),
            },
    {
        match operand {
            Operand::Value(v) => Ok((v, 0)),
            Operand::Address(addr, page_crossed) => match self.read(addr) {
                Ok(v) => Ok((v, if page_crossed { 1 } else { 0 })),
                Err(f) => Err(f),
            },
            Operand::Implied => Ok((current, 0)),
        }
    }
}

} // verus!
