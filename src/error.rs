use vstd::prelude::*;

verus! {

/// Errors raised while building a cartridge from a ROM image.
#[derive(Debug, Clone, Copy, PartialEq, Eq, Structural)]
pub enum CoreError {
    /// Header byte 0x149 holds no known RAM size code.
    UnknownRamType(u8),
    /// Header byte 0x148 holds no known ROM size code.
    UnknownRomType(u8),
    /// Header byte 0x147 holds no known cartridge type code.
    UnknownCartridgeType(u8),
    /// Header byte 0x147 names a controller that this core does not emulate.
    UnsupportedCartridgeType(u8),
    /// Header byte 0x149 names a RAM size that no cartridge uses.
    UnsupportedRamType(u8),
}

} // verus!
