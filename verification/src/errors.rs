//! Error taxonomy of the emulator core.

use vstd::prelude::*;

verus! {

/// A cartridge image could not be loaded. These surface to the driver and
/// terminate the session.
#[derive(Clone, Copy, Debug, PartialEq, Eq, Structural)]
pub enum CartridgeError {
    /// The 16-byte iNES header does not start with the `NES\x1A` magic.
    BadHeader,
    /// The payload is shorter than the PRG/CHR sizes the header declares.
    Truncated,
    /// The mapper id is non-zero; only mapper 0 (NROM) is supported.
    UnsupportedMapper,
}

/// Fatal faults raised while the guest program runs. The core does not
/// attempt recovery; the driver aborts the emulation loop.
#[derive(Clone, Copy, Debug, PartialEq, Eq, Structural)]
pub enum EmuError {
    /// The fetched opcode byte is not in the decode table.
    BadOpcode(u8),
    /// The guest read a write-only PPU register address.
    ReadWriteOnly(u16),
    /// The guest wrote into the PRG ROM window without a mapper.
    WriteToRom(u16),
    /// Four-screen nametable mirroring is not supported by this core.
    FourScreenUnsupported,
}

} // verus!
