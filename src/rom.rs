use vstd::prelude::*;

verus! {

/// Length of the cartridge header.
pub const HEADER_SIZE: usize = 16;

/// Bytes in one program bank; the header's byte 4 counts them.
pub const PROGRAM_BANK_SIZE: usize = 0x4000;

/// Bytes in one character bank; the header's byte 5 counts them.
pub const CHARACTER_BANK_SIZE: usize = 0x2000;

/// A cartridge image: its program banks and its character banks.
#[derive(Debug, PartialEq, Eq)]
pub struct Rom {
    pub program: Vec<u8>,
    pub character: Vec<u8>,
}

/// Why a cartridge image was refused.
#[derive(Debug, Clone, Copy, PartialEq, Eq, Structural)]
pub enum RomError {
    /// The image ends before the header or the banks it announces.
    Truncated,
    /// The image does not start with the bytes `N`, `E`, `S`, 0x1a.
    InvalidHeader,
}

impl RomError {
    /// A short description of the error.
    pub fn message(&self) -> (r: &'static str)
        ensures
            *self == RomError::InvalidHeader ==> r@ == "Invalid header constant."@,
            *self == RomError::Truncated ==> r@ == "Unexpected end of image."@,
    {
        match self {
            RomError::Truncated => "Unexpected end of image.",
            RomError::InvalidHeader => "Invalid header constant.",
        }
    }
}

/// Whether the image starts with the header constant.
pub open spec fn has_magic(data: Seq<u8>) -> bool {
    &&& data[0] == 0x4e
    &&& data[1] == 0x45
    &&& data[2] == 0x53
    &&& data[3] == 0x1a
}

/// The program and character banks of a cartridge image, or why there are none.
/// Bytes after the announced banks are ignored.
pub open spec fn parse_spec(data: Seq<u8>) -> Result<(Seq<u8>, Seq<u8>), RomError> {
    if data.len() < HEADER_SIZE {
        Err(RomError::Truncated)
    } else if !has_magic(data) {
        Err(RomError::InvalidHeader)
    } else {
        let program_end = HEADER_SIZE + data[4] * PROGRAM_BANK_SIZE;
        let character_end = program_end + data[5] * CHARACTER_BANK_SIZE;
        if data.len() < character_end {
            Err(RomError::Truncated)
        } else {
            Ok((data.subrange(HEADER_SIZE as int, program_end), data.subrange(program_end, character_end)))
        }
    }
}

/// A copy of `data[start..end]`.
pub(crate) fn copy_bytes(data: &[u8], start: usize, end: usize) -> (r: Vec<u8>)
    requires
        start <= end <= data@.len(),
    ensures
        r@ == data@.subrange(start as int, end as int),
{
    let mut r: Vec<u8> = Vec::with_capacity(end - start);
    let mut i: usize = start;
    while i < end
        invariant
            start <= i <= end <= data@.len(),
            r@ == data@.subrange(start as int, i as int),
        decreases end - i,
    {
        r.push(data[i]);
        i += 1;
    }
    r
}

impl Rom {
    /// Parses a cartridge image: a 16-byte header, then the program banks,
    /// then the character banks.
    pub fn load(data: &[u8]) -> (r: Result<Self, RomError>)
        ensures
            match parse_spec(data@) {
                Ok((program, character)) => r matches Ok(rom) && rom.program@ == program
                    && rom.character@ == character,
                Err(e) => r == Err::<Self, RomError>(e),
            },
    {
        if data.len() < HEADER_SIZE {
            return Err(RomError::Truncated);
        }
        if data[0] != 0x4e || data[1] != 0x45 || data[2] != 0x53 || data[3] != 0x1a {
            return Err(RomError::InvalidHeader);
        }
        let program_len = data[4] as usize * PROGRAM_BANK_SIZE;
        let character_len = data[5] as usize * CHARACTER_BANK_SIZE;
        if data.len() - HEADER_SIZE < program_len || data.len() - HEADER_SIZE - program_len
            < character_len {
            return Err(RomError::Truncated);
        }
        let program_end = HEADER_SIZE + program_len;
        let program = copy_bytes(data, HEADER_SIZE, program_end);
        let character = copy_bytes(data, program_end, program_end + character_len);
        Ok(Rom { program, character })
    }
}

} // verus!
