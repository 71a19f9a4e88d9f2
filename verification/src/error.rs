use vstd::prelude::*;

verus! {

/// A fault that stops the machine.
///
/// Each variant names the condition under which the emulated hardware has no
/// defined behaviour in this emulator, together with the offending value.
#[derive(Debug, Clone, Copy, PartialEq, Eq, Structural)]
pub enum N64Error {
    /// The word fetched has an opcode (or SPECIAL function) that is not implemented.
    UnrecognizedInstruction(u32),
    /// The virtual address lies outside every mapped segment.
    UnrecognizedVirtualAddress(u64),
    /// The physical address is not backed by any device.
    UnrecognizedPhysicalAddress(u32),
    /// The PIF ROM image is too short to hold a whole word at this physical address.
    PifRomTooShort(u32),
    /// A coprocessor 0 register with this number cannot be written.
    UnrecognizedCp0Register(u32),
    /// The EP field of a Config register value is neither `D` nor `DxxDxx`.
    InvalidDataTransferPattern(u32),
    /// The KSU field of a Status register value holds the reserved value 3.
    InvalidKsuBits(u32),
    /// ADDI produced a sum that overflows as a signed 64-bit number.
    AdditionOverflow,
    /// Delay slots that themselves transfer control ran on for too long.
    DelaySlotChainTooLong,
}

} // verus!
