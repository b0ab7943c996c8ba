use vstd::prelude::*;

verus! {

/// Size of the RAM region, which is mapped at `0x0000..=RAM_END`.
pub const RAM_SIZE: usize = 0x800;

/// Last address of the RAM region.
pub const RAM_END: u16 = 0x07ff;

/// First address of the memory-mapped I/O stub.
pub const IO_START: u16 = 0x2000;

/// Last address of the memory-mapped I/O stub.
pub const IO_END: u16 = 0x2007;

/// First address of the program ROM, which runs to `0xffff`.
pub const ROM_START: u16 = 0x8000;

/// Where the program counter is loaded from on reset (low byte first).
pub const RESET_VECTOR: u16 = 0xfffc;

/// A bus access outside every mapped region.
#[derive(Debug, Clone, Copy, PartialEq, Eq, Structural)]
pub enum Fault {
    /// A read of an address that holds nothing: outside RAM, the I/O stub and
    /// the loaded program, or in the ROM region while no program is loaded.
    UnmappedRead(u16),
    /// A write anywhere but RAM and the I/O stub.
    UnmappedWrite(u16),
}

/// `a + k` in 16-bit wrapping arithmetic.
pub open spec fn wrap_add(a: u16, k: int) -> u16 {
    ((a + k) % 0x10000) as u16
}

/// What a read of `addr` yields, given the RAM and the program ROM.
/// The I/O stub reads as zero.
pub open spec fn read_spec(ram: Seq<u8>, rom: Option<Seq<u8>>, addr: u16) -> Result<u8, Fault> {
    if addr <= RAM_END {
        Ok(ram[addr as int])
    } else if IO_START <= addr <= IO_END {
        Ok(0)
    } else if addr >= ROM_START {
        match rom {
            Some(program) => if addr - ROM_START < program.len() {
                Ok(program[addr - ROM_START])
            } else {
                Err(Fault::UnmappedRead(addr))
            },
            None => Err(Fault::UnmappedRead(addr)),
        }
    } else {
        Err(Fault::UnmappedRead(addr))
    }
}

/// The RAM after writing `value` at `addr`. A write to the I/O stub changes
/// nothing; any other address outside RAM faults.
pub open spec fn write_spec(ram: Seq<u8>, addr: u16, value: u8) -> Result<Seq<u8>, Fault> {
    if addr <= RAM_END {
        Ok(ram.update(addr as int, value))
    } else if IO_START <= addr <= IO_END {
        Ok(ram)
    } else {
        Err(Fault::UnmappedWrite(addr))
    }
}

/// The little-endian word at `addr` and `addr + 1` (wrapping): the first
/// failing read decides the fault.
pub open spec fn read_word_spec(ram: Seq<u8>, rom: Option<Seq<u8>>, addr: u16) -> Result<u16, Fault> {
    match read_spec(ram, rom, addr) {
        Err(f) => Err(f),
        Ok(low) => match read_spec(ram, rom, wrap_add(addr, 1)) {
            Err(f) => Err(f),
            Ok(high) => Ok((low + high * 256) as u16),
        },
    }
}

/// Writing a RAM address and then reading it back yields the written byte,
/// whatever the ROM holds.
pub proof fn lemma_ram_write_read(ram: Seq<u8>, rom: Option<Seq<u8>>, addr: u16, value: u8)
    requires
        ram.len() == RAM_SIZE,
        addr <= RAM_END,
    ensures
        write_spec(ram, addr, value) is Ok,
        read_spec(write_spec(ram, addr, value)->Ok_0, rom, addr) == Ok::<u8, Fault>(value),
{
}

/// A write to the ROM region, or to any address outside RAM and the I/O stub,
/// faults and never succeeds.
pub proof fn lemma_write_outside_ram_faults(ram: Seq<u8>, addr: u16, value: u8)
    requires
        addr > RAM_END,
        !(IO_START <= addr <= IO_END),
    ensures
        write_spec(ram, addr, value) == Err::<Seq<u8>, Fault>(Fault::UnmappedWrite(addr)),
{
}

} // verus!
