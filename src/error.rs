use vstd::prelude::*;

verus! {

/// Every way in which a step of the console can fail.
#[derive(Debug, Clone, Copy, PartialEq, Eq, Structural)]
pub enum NesError {
    /// The decoder saw a byte outside the official instruction set.
    IllegalOpcode(u8),
    /// A write reached read-only memory (program ROM, or a read-only register).
    IllegalWrite(u16),
    /// A read reached an address that no component answers (or a write-only register).
    IllegalRead(u16),
    /// The cartridge image does not start with the expected magic bytes or is truncated.
    BadHeader,
    /// The cartridge uses the extended (second generation) header format.
    UnsupportedFormat,
    /// The cartridge asks for four-screen nametable mirroring.
    UnsupportedMirroring,
    /// The cartridge's ROM sizes are outside what mapper 0 provides.
    UnsupportedRomSize,
}

/// The description of each error.
pub open spec fn message_text(e: NesError) -> Seq<char> {
    match e {
        NesError::IllegalOpcode(_) => "Illegal opcode"@,
        NesError::IllegalWrite(_) => "Attempted write to read only memory"@,
        NesError::IllegalRead(_) => "Attempted read from an unmapped address"@,
        NesError::BadHeader => "Header tag invalid"@,
        NesError::UnsupportedFormat => "Currently do not support NES2.0 format"@,
        NesError::UnsupportedMirroring => "Four screen mirroring is not supported"@,
        NesError::UnsupportedRomSize => "Unsupported ROM size"@,
    }
}

impl NesError {
    /// A human-readable description of the error.
    pub fn message(&self) -> (r: &'static str)
        ensures
            r@ == message_text(*self),
    {
        match self {
            NesError::IllegalOpcode(_) => "Illegal opcode",
            NesError::IllegalWrite(_) => "Attempted write to read only memory",
            NesError::IllegalRead(_) => "Attempted read from an unmapped address",
            NesError::BadHeader => "Header tag invalid",
            NesError::UnsupportedFormat => "Currently do not support NES2.0 format",
            NesError::UnsupportedMirroring => "Four screen mirroring is not supported",
            NesError::UnsupportedRomSize => "Unsupported ROM size",
        }
    }
}

} // verus!
