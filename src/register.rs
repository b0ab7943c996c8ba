use vstd::prelude::*;

verus! {

/// The processor's register file.
#[derive(Debug, Clone, Copy, PartialEq, Eq, Structural)]
pub struct Registers {
    /// A
    pub accumulator: u8,
    /// X
    pub index_x: u8,
    /// Y
    pub index_y: u8,
    /// S: an 8-bit value held in a wider field.
    pub stack_pointer: u16,
    /// P
    pub status: Status,
    /// PC
    pub program_counter: u16,
}

/// The status flags. `reserved` is always set.
#[derive(Debug, Clone, Copy, PartialEq, Eq, Structural)]
pub struct Status {
    /// N
    pub negative: bool,
    /// V
    pub overflow: bool,
    /// R
    pub reserved: bool,
    /// B
    pub break_mode: bool,
    /// D
    pub decimal_mode: bool,
    /// I
    pub irq_prohibited: bool,
    /// Z
    pub zero: bool,
    /// C
    pub carry: bool,
}

/// Power-on flags: all clear but the reserved one.
pub open spec fn power_on_status() -> Status {
    Status {
        negative: false,
        overflow: false,
        reserved: true,
        break_mode: false,
        decimal_mode: false,
        irq_prohibited: false,
        zero: false,
        carry: false,
    }
}

/// Power-on registers: every numeric register zero, flags as in `power_on_status`.
pub open spec fn power_on_registers() -> Registers {
    Registers {
        accumulator: 0,
        index_x: 0,
        index_y: 0,
        stack_pointer: 0,
        status: power_on_status(),
        program_counter: 0,
    }
}

impl Default for Status {
    fn default() -> (r: Self)
        ensures
            r == power_on_status(),
    {
        Self {
            negative: false,
            overflow: false,
            reserved: true,
            break_mode: false,
            decimal_mode: false,
            irq_prohibited: false,
            zero: false,
            carry: false,
        }
    }
}

impl Default for Registers {
    fn default() -> (r: Self)
        ensures
            r == power_on_registers(),
    {
        Registers {
            accumulator: 0,
            index_x: 0,
            index_y: 0,
            stack_pointer: 0,
            status: Status::default(),
            program_counter: 0,
        }
    }
}

} // verus!
