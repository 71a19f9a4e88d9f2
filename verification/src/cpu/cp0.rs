pub mod reg_config;
pub mod reg_status;

use vstd::prelude::*;

use crate::cpu::cp0::reg_config::RegConfig;
use crate::cpu::cp0::reg_status::RegStatus;
use crate::error::N64Error;

verus! {

/// Coprocessor 0 register number of Status.
pub const CP0_REG_STATUS: u32 = 12;

/// Coprocessor 0 register number of Config.
pub const CP0_REG_CONFIG: u32 = 16;

/// Coprocessor 0: the system control coprocessor.
#[derive(Debug, Clone, Copy)]
pub struct Cp0 {
    pub reg_status: RegStatus,
    pub reg_config: RegConfig,
}

impl Cp0 {
    /// The coprocessor after writing the low 32 bits of `data` to register
    /// `index`, or the fault that the write raises.
    ///
    /// Status (12) and Config (16) are writable; their values are decoded
    /// field by field. Any other register number faults.
    pub open spec fn spec_write_reg(self, index: u32, data: u64) -> Result<Cp0, N64Error> {
        if index == CP0_REG_STATUS {
            match RegStatus::spec_from_word(data as u32) {
                Some(s) => Ok(Cp0 { reg_status: s, ..self }),
                None => Err(N64Error::InvalidKsuBits(data as u32)),
            }
        } else if index == CP0_REG_CONFIG {
            match RegConfig::spec_from_word(data as u32) {
                Some(c) => Ok(Cp0 { reg_config: c, ..self }),
                None => Err(N64Error::InvalidDataTransferPattern(data as u32)),
            }
        } else {
            Err(N64Error::UnrecognizedCp0Register(index))
        }
    }

    /// The coprocessor as it comes out of reset: Status as the value 0 decodes
    /// (every field clear, kernel mode), Config with its reset values.
    pub open spec fn spec_default() -> Cp0 {
        Cp0 {
            reg_status: RegStatus::spec_from_word(0)->Some_0,
            reg_config: RegConfig::spec_default(),
        }
    }

    /// Cold reset: Config takes its reset values; Status is left as it is.
    pub fn power_on_reset(&mut self)
        ensures
            final(self).reg_status == old(self).reg_status,
            final(self).reg_config == old(self).reg_config.spec_power_on_reset(),
    {
        self.reg_config.power_on_reset();
    }

    /// Writes the low 32 bits of `data` to register `index` (MTC0).
    ///
    /// On a fault the coprocessor is left as it was.
    pub fn write_reg(&mut self, index: u32, data: u64) -> (r: Result<(), N64Error>)
        ensures
            match old(self).spec_write_reg(index, data) {
                Ok(c) => r is Ok && *final(self) == c,
                Err(e) => r == Err::<(), N64Error>(e) && *final(self) == *old(self),
            },
    {
        let value = data as u32;
        if index == CP0_REG_STATUS {
            match RegStatus::from_word(value) {
                Ok(s) => {
                    self.reg_status = s;
                    Ok(())
                },
                Err(e) => Err(e),
            }
        } else if index == CP0_REG_CONFIG {
            match RegConfig::from_word(value) {
                Ok(c) => {
                    self.reg_config = c;
                    Ok(())
                },
                Err(e) => Err(e),
            }
        } else {
            Err(N64Error::UnrecognizedCp0Register(index))
        }
    }
}

impl Default for Cp0 {
    /// The coprocessor as it comes out of reset.
    fn default() -> (r: Cp0)
        ensures
            r == Cp0::spec_default(),
            RegStatus::spec_from_word(0) == Some(r.reg_status),
    {
        Cp0 { reg_status: RegStatus::default(), reg_config: RegConfig::default() }
    }
}

/// Only the low 32 bits of the data count. Register 12 takes the Status
/// decoding of them, register 16 the Config decoding, each leaving the other
/// register alone; a value either decoder refuses, and any other register
/// number, is a fault.
pub proof fn lemma_write_reg_targets(cp0: Cp0, index: u32, data: u64)
    ensures
        ({
            let v = (data % 0x1_0000_0000) as u32;
            &&& index == 12 ==> cp0.spec_write_reg(index, data) == match RegStatus::spec_from_word(
                v,
            ) {
                Some(st) => Ok::<Cp0, N64Error>(Cp0 { reg_status: st, reg_config: cp0.reg_config }),
                None => Err(N64Error::InvalidKsuBits(v)),
            }
            &&& index == 16 ==> cp0.spec_write_reg(index, data) == match RegConfig::spec_from_word(
                v,
            ) {
                Some(c) => Ok::<Cp0, N64Error>(Cp0 { reg_status: cp0.reg_status, reg_config: c }),
                None => Err(N64Error::InvalidDataTransferPattern(v)),
            }
            &&& (index != 12 && index != 16) ==> cp0.spec_write_reg(index, data) == Err::<
                Cp0,
                N64Error,
            >(N64Error::UnrecognizedCp0Register(index))
        }),
{
    assert(data as u32 == (data % 0x1_0000_0000) as u32) by (bit_vector);
}

} // verus!
