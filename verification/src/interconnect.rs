use vstd::prelude::*;

use byteorder::{BigEndian, ByteOrder};

use crate::error::N64Error;
use crate::mem_map::{PIF_ROM_END, PIF_ROM_START, SP_STATUS_REG};
use crate::rsp::Rsp;

verus! {

/// Number of entries of the RDRAM array.
pub const RAM_SIZE: usize = 4 * 1024 * 1024;

/// The word whose bytes, most significant first, are `b0`, `b1`, `b2`, `b3`.
pub open spec fn be_word(b0: u8, b1: u8, b2: u8, b3: u8) -> u32 {
    (b0 * 0x100_0000 + b1 * 0x1_0000 + b2 * 0x100 + b3) as u32
}

/// `byteorder::BigEndian::read_u32`: the first four bytes of `buf` read as a
/// big-endian word. It panics when `buf` holds fewer than four bytes, which
/// `requires` rules out.
#[verifier::external_body]
fn read_u32_big_endian(buf: &[u8]) -> (r: u32)
    requires
        buf@.len() >= 4,
    ensures
        r == be_word(buf@[0], buf@[1], buf@[2], buf@[3]),
{
    BigEndian::read_u32(buf)
}

/// What the CPU's physical address space holds: the PIF boot ROM image and RDRAM.
pub struct InterconnectView {
    pub pif_rom: Seq<u8>,
    pub ram: Seq<u16>,
}

/// The bus that connects the CPU to memory and devices.
pub struct Interconnect {
    rsp: Rsp,
    pif_rom: Vec<u8>,
    ram: Vec<u16>,
}

impl View for Interconnect {
    type V = InterconnectView;

    closed spec fn view(&self) -> InterconnectView {
        InterconnectView { pif_rom: self.pif_rom@, ram: self.ram@ }
    }
}

/// Whether `addr` falls in the PIF ROM window.
pub open spec fn in_pif_rom(addr: u32) -> bool {
    PIF_ROM_START <= addr < PIF_ROM_END
}

/// The word at physical address `addr`, or the fault that reading it raises.
///
/// - In the PIF ROM window: the big-endian word at offset `addr - PIF_ROM_START`
///   of the ROM image, if the image holds all four of its bytes.
/// - At SP_STATUS_REG: the RSP status register.
/// - Anywhere else: no device answers.
pub open spec fn read_word_spec(m: InterconnectView, addr: u32) -> Result<u32, N64Error> {
    if in_pif_rom(addr) {
        let rel = addr - PIF_ROM_START;
        if rel + 4 <= m.pif_rom.len() {
            Ok(be_word(m.pif_rom[rel], m.pif_rom[rel + 1], m.pif_rom[rel + 2], m.pif_rom[rel + 3]))
        } else {
            Err(N64Error::PifRomTooShort(addr))
        }
    } else if addr == SP_STATUS_REG {
        Ok(0)
    } else {
        Err(N64Error::UnrecognizedPhysicalAddress(addr))
    }
}

/// The fault that writing a word to physical address `addr` raises: no device
/// of this machine accepts a write, and the PIF ROM is read-only.
pub open spec fn write_word_spec(m: InterconnectView, addr: u32) -> Result<(), N64Error> {
    Err(N64Error::UnrecognizedPhysicalAddress(addr))
}

impl Interconnect {
    /// A bus with the given PIF ROM image and cleared RDRAM.
    pub fn new(pif_rom: Vec<u8>) -> (r: Interconnect)
        ensures
            r@.pif_rom == pif_rom@,
            r@.ram.len() == RAM_SIZE,
            forall|i: int| 0 <= i < RAM_SIZE ==> #[trigger] r@.ram[i] == 0,
    {
        let ram: Vec<u16> = vec![0u16; RAM_SIZE];
        Interconnect { rsp: Rsp::default(), pif_rom, ram }
    }

    /// The PIF ROM image.
    pub fn pif_rom(&self) -> (r: &[u8])
        ensures
            r@ == self@.pif_rom,
    {
        self.pif_rom.as_slice()
    }

    /// The number of RDRAM entries.
    pub fn ram_len(&self) -> (r: usize)
        ensures
            r == self@.ram.len(),
    {
        self.ram.len()
    }

    /// Reads a word from physical (not virtual) memory.
    pub fn read_word(&self, addr: u32) -> (r: Result<u32, N64Error>)
        ensures
            r == read_word_spec(self@, addr),
    {
        if addr >= PIF_ROM_START && addr < PIF_ROM_END {
            let rel_addr = (addr - PIF_ROM_START) as usize;
            let len = self.pif_rom.len();
            if rel_addr <= len && len - rel_addr >= 4 {
                let tail = vstd::slice::slice_subrange(self.pif_rom.as_slice(), rel_addr, len);
                Ok(read_u32_big_endian(tail))
            } else {
                Err(N64Error::PifRomTooShort(addr))
            }
        } else if addr == SP_STATUS_REG {
            Ok(self.rsp.read_status_reg())
        } else {
            Err(N64Error::UnrecognizedPhysicalAddress(addr))
        }
    }

    /// Writes a word to physical (not virtual) memory.
    pub fn write_word(&mut self, addr: u32, value: u32) -> (r: Result<(), N64Error>)
        ensures
            r == write_word_spec(old(self)@, addr),
            final(self)@ == old(self)@,
    {
        Err(N64Error::UnrecognizedPhysicalAddress(addr))
    }
}

} // verus!
