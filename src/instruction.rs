use vstd::prelude::*;

verus! {

/// One decoded instruction: what it does and how its operand is found.
#[derive(Debug, Clone, Copy, PartialEq, Eq, Structural)]
pub struct Instruction {
    pub kind: Kind,
    pub addressing: Addressing,
}

/// The operations this core implements.
///
/// `NOP` also stands for every opcode byte without a defined meaning: such a
/// byte is executed as a one-byte instruction with no effect.
#[derive(Debug, Clone, Copy, PartialEq, Eq, Structural)]
pub enum Kind {
    LDA,
    LDX,
    LDY,
    STA,
    TXS,
    DEY,
    INX,
    JMP,
    BNE,
    SEI,
    NOP,
}

/// How the bytes that follow an opcode are turned into an operand.
#[derive(Debug, Clone, Copy, PartialEq, Eq, Structural)]
pub enum Addressing {
    Implied,
    Immediate,
    Relative,
    Absolute,
    AbsoluteX,
}

/// The opcode table.
pub open spec fn decode(opcode: u8) -> Instruction {
    let (kind, addressing) = if opcode == 0x4c {
        (Kind::JMP, Addressing::Absolute)
    } else if opcode == 0x78 {
        (Kind::SEI, Addressing::Implied)
    } else if opcode == 0x88 {
        (Kind::DEY, Addressing::Implied)
    } else if opcode == 0x8d {
        (Kind::STA, Addressing::Absolute)
    } else if opcode == 0x9a {
        (Kind::TXS, Addressing::Implied)
    } else if opcode == 0xa0 {
        (Kind::LDY, Addressing::Immediate)
    } else if opcode == 0xa2 {
        (Kind::LDX, Addressing::Immediate)
    } else if opcode == 0xa9 {
        (Kind::LDA, Addressing::Immediate)
    } else if opcode == 0xbd {
        (Kind::LDA, Addressing::AbsoluteX)
    } else if opcode == 0xd0 {
        (Kind::BNE, Addressing::Relative)
    } else if opcode == 0xe8 {
        (Kind::INX, Addressing::Implied)
    } else {
        (Kind::NOP, Addressing::Implied)
    };
    Instruction { kind, addressing }
}

/// Cycles that an operation costs before its addressing mode is counted.
pub open spec fn base_cycles(kind: Kind) -> nat {
    match kind {
        Kind::JMP => 1,
        _ => 2,
    }
}

/// Cycles that an addressing mode adds.
pub open spec fn addressing_cycles(addressing: Addressing) -> nat {
    match addressing {
        Addressing::Absolute | Addressing::AbsoluteX => 2,
        _ => 0,
    }
}

/// Whether the operation derives the negative and zero flags from its result.
pub open spec fn sets_flags(kind: Kind) -> bool {
    match kind {
        Kind::LDA | Kind::LDX | Kind::LDY | Kind::TXS | Kind::DEY | Kind::INX => true,
        _ => false,
    }
}

impl Instruction {
    /// Decodes an opcode byte; bytes outside the table decode to `NOP`.
    pub fn from_opcode(opcode: u8) -> (r: Self)
        ensures
            r == decode(opcode),
    {
        let (kind, addressing) = match opcode {
            0x4c => (Kind::JMP, Addressing::Absolute),
            0x78 => (Kind::SEI, Addressing::Implied),
            0x88 => (Kind::DEY, Addressing::Implied),
            0x8d => (Kind::STA, Addressing::Absolute),
            0x9a => (Kind::TXS, Addressing::Implied),
            0xa0 => (Kind::LDY, Addressing::Immediate),
            0xa2 => (Kind::LDX, Addressing::Immediate),
            0xa9 => (Kind::LDA, Addressing::Immediate),
            0xbd => (Kind::LDA, Addressing::AbsoluteX),
            0xd0 => (Kind::BNE, Addressing::Relative),
            0xe8 => (Kind::INX, Addressing::Implied),
            _ => (Kind::NOP, Addressing::Implied),
        };
        Instruction { kind, addressing }
    }

    /// The base cost in cycles: the operation's cost plus its addressing
    /// mode's, before any page-crossing or branch surcharge.
    pub fn clock(&self) -> (r: u8)
        ensures
            r == base_cycles(self.kind) + addressing_cycles(self.addressing),
    {
        let base: u8 = match self.kind {
            Kind::JMP => 1,
            Kind::SEI => 2,
            Kind::DEY => 2,
            Kind::STA => 2,
            Kind::TXS => 2,
            Kind::LDY => 2,
            Kind::LDX => 2,
            Kind::LDA => 2,
            Kind::BNE => 2,
            Kind::INX => 2,
            Kind::NOP => 2,
        };
        let surcharge: u8 = match self.addressing {
            Addressing::Implied => 0,
            Addressing::Immediate => 0,
            Addressing::Relative => 0,
            Addressing::Absolute => 2,
            Addressing::AbsoluteX => 2,
        };
        base + surcharge
    }

    /// Whether executing this instruction updates the negative flag.
    pub fn affects_status_negative(&self) -> (r: bool)
        ensures
            r == sets_flags(self.kind),
    {
        match self.kind {
            Kind::DEY | Kind::LDY | Kind::LDX | Kind::LDA | Kind::TXS | Kind::INX => true,
            _ => false,
        }
    }

    /// Whether executing this instruction updates the zero flag.
    pub fn affects_status_zero(&self) -> (r: bool)
        ensures
            r == sets_flags(self.kind),
    {
        match self.kind {
            Kind::DEY | Kind::LDY | Kind::LDX | Kind::LDA | Kind::TXS | Kind::INX => true,
            _ => false,
        }
    }
}

} // verus!
