//! Instruction-execution core of a 6502-family processor: opcode decoding,
//! addressing-mode resolution, instruction semantics, status flags and cycle
//! accounting, over a bus of RAM, a memory-mapped I/O stub and a program ROM.
pub mod cpu;
pub mod instruction;
pub mod memory;
pub mod nes;
pub mod register;
pub mod rom;

pub use cpu::Cpu;
pub use instruction::{Addressing, Instruction, Kind};
pub use memory::Fault;
pub use nes::Nes;
pub use register::{Registers, Status};
pub use rom::{Rom, RomError};
