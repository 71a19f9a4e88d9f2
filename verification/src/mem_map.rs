use vstd::prelude::*;

verus! {

/// First physical address of the PIF boot ROM.
pub const PIF_ROM_START: u32 = 0x1fc0_0000;

/// Size in bytes of the PIF boot ROM window.
pub const PIF_ROM_LENGTH: u32 = 0x0000_07c0;

/// One past the last physical address of the PIF boot ROM.
pub const PIF_ROM_END: u32 = PIF_ROM_START + PIF_ROM_LENGTH;

/// First physical address of the RSP registers.
pub const SP_BASE_REG: u32 = 0x0404_0000;

/// Physical address of the RSP status register.
pub const SP_STATUS_REG: u32 = 0x0404_0010;

} // verus!
