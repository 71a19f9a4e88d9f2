use vstd::prelude::*;

use crate::error::N64Error;

verus! {

/// Bit `n` of `value` (bit 0 is the least significant).
pub open spec fn word_bit(value: u32, n: u32) -> bool {
    (value >> n) & 1 == 1
}

/// Tests bit `n` of `value`.
pub fn test_bit(value: u32, n: u32) -> (b: bool)
    requires
        n < 32,
    ensures
        b == word_bit(value, n),
{
    let b = (value & (1u32 << n)) != 0;
    assert(((value & (1u32 << n)) != 0) == ((value >> n) & 1 == 1)) by (bit_vector)
        requires
            n < 32,
    ;
    b
}

/// The EP field (bits 27:24) of a Config register value.
pub open spec fn ep_field(value: u32) -> u32 {
    (value >> 24) & 0b1111
}

/// The BE field (bit 15) of a Config register value.
pub open spec fn be_field(value: u32) -> u32 {
    (value >> 15) & 0b1
}

/// The K0 field (bits 2:0) of a Config register value: the kseg0 cache policy.
pub open spec fn k0_field(value: u32) -> u32 {
    value & 0b111
}

/// EP: the pattern in which the system interface transfers data.
#[derive(Debug, Clone, Copy, PartialEq, Eq, Structural)]
pub enum DataTransferPattern {
    /// `D`: one doubleword every cycle.
    Normal,
    /// `DxxDxx`: one doubleword every three cycles.
    DxxDxx,
}

impl DataTransferPattern {
    /// The pattern an EP field encodes, if it encodes one (0 and 6 do).
    pub open spec fn spec_from_word(value: u32) -> Option<DataTransferPattern> {
        if ep_field(value) == 0 {
            Some(DataTransferPattern::Normal)
        } else if ep_field(value) == 6 {
            Some(DataTransferPattern::DxxDxx)
        } else {
            None
        }
    }

    /// Decodes the EP field of a Config register value.
    pub fn from_word(value: u32) -> (r: Result<DataTransferPattern, N64Error>)
        ensures
            match DataTransferPattern::spec_from_word(value) {
                Some(p) => r == Ok::<DataTransferPattern, N64Error>(p),
                None => r == Err::<DataTransferPattern, N64Error>(
                    N64Error::InvalidDataTransferPattern(value),
                ),
            },
    {
        let ep = (value >> 24) & 0b1111;
        if ep == 0 {
            Ok(DataTransferPattern::Normal)
        } else if ep == 6 {
            Ok(DataTransferPattern::DxxDxx)
        } else {
            Err(N64Error::InvalidDataTransferPattern(value))
        }
    }
}

/// BE: the byte order of the processor.
#[derive(Debug, Clone, Copy, PartialEq, Eq, Structural)]
pub enum Endianness {
    Little,
    Big,
}

impl Default for DataTransferPattern {
    /// The pattern in force after reset: `D`.
    fn default() -> (r: DataTransferPattern)
        ensures
            r == DataTransferPattern::Normal,
    {
        DataTransferPattern::Normal
    }
}

impl Endianness {
    /// The byte order a BE field encodes.
    pub open spec fn spec_from_word(value: u32) -> Endianness {
        if be_field(value) == 0 {
            Endianness::Little
        } else {
            Endianness::Big
        }
    }

    /// Decodes the BE field of a Config register value.
    pub fn from_word(value: u32) -> (r: Endianness)
        ensures
            r == Endianness::spec_from_word(value),
    {
        let be = (value >> 15) & 0b1;
        if be == 0 {
            Endianness::Little
        } else {
            Endianness::Big
        }
    }
}

/// The Config register (CP0 register 16): memory system settings.
#[derive(Debug, Clone, Copy)]
pub struct RegConfig {
    /// EP
    pub data_transfer_pattern: DataTransferPattern,
    /// BE
    pub endianness: Endianness,
    /// CU (bit 3)
    pub cu: bool,
    /// K0 (bits 2:0), least significant bit first.
    pub kseg0_cache_enable_bits: [bool; 3],
}

impl Default for Endianness {
    /// The byte order in force after reset: big endian.
    fn default() -> (r: Endianness)
        ensures
            r == Endianness::Big,
    {
        Endianness::Big
    }
}

impl RegConfig {
    /// Whether the K0 bits select a cached kseg0: every setting but `010` (uncached).
    pub open spec fn spec_kseg0_cache_enabled(self) -> bool {
        !(!self.kseg0_cache_enable_bits@[0] && self.kseg0_cache_enable_bits@[1]
            && !self.kseg0_cache_enable_bits@[2])
    }

    /// The register a Config value decodes to, when its EP field is valid.
    pub open spec fn spec_from_word(value: u32) -> Option<RegConfig> {
        match DataTransferPattern::spec_from_word(value) {
            Some(p) => Some(
                RegConfig {
                    data_transfer_pattern: p,
                    endianness: Endianness::spec_from_word(value),
                    cu: word_bit(value, 3),
                    kseg0_cache_enable_bits: [
                        word_bit(value, 0),
                        word_bit(value, 1),
                        word_bit(value, 2),
                    ],
                },
            ),
            None => None,
        }
    }

    /// The register as it comes out of reset.
    pub open spec fn spec_default() -> RegConfig {
        RegConfig {
            data_transfer_pattern: DataTransferPattern::Normal,
            endianness: Endianness::Big,
            cu: false,
            kseg0_cache_enable_bits: [false, false, false],
        }
    }

    /// The register after a cold reset: `D` pattern and big endian, the other
    /// fields unchanged.
    pub open spec fn spec_power_on_reset(self) -> RegConfig {
        RegConfig {
            data_transfer_pattern: DataTransferPattern::Normal,
            endianness: Endianness::Big,
            ..self
        }
    }

    /// Whether kseg0 accesses go through the cache.
    pub fn kseg0_cache_enabled(&self) -> (r: bool)
        ensures
            r == self.spec_kseg0_cache_enabled(),
    {
        !(!self.kseg0_cache_enable_bits[0] && self.kseg0_cache_enable_bits[1]
            && !self.kseg0_cache_enable_bits[2])
    }

    /// Decodes a value written to the Config register.
    ///
    /// Fails exactly when the EP field is neither 0 nor 6.
    pub fn from_word(value: u32) -> (r: Result<RegConfig, N64Error>)
        ensures
            match RegConfig::spec_from_word(value) {
                Some(c) => r matches Ok(rc) && rc == c,
                None => r == Err::<RegConfig, N64Error>(
                    N64Error::InvalidDataTransferPattern(value),
                ),
            },
    {
        let data_transfer_pattern = match DataTransferPattern::from_word(value) {
            Ok(p) => p,
            Err(e) => {
                return Err(e);
            },
        };
        let endianness = Endianness::from_word(value);
        let cu = test_bit(value, 3);
        let b0 = test_bit(value, 0);
        let b1 = test_bit(value, 1);
        let b2 = test_bit(value, 2);
        let r = RegConfig {
            data_transfer_pattern,
            endianness,
            cu,
            kseg0_cache_enable_bits: [b0, b1, b2],
        };
        assert(r.kseg0_cache_enable_bits@ =~= seq![b0, b1, b2]);
        Ok(r)
    }

    /// Restores the fields that a cold reset defines: `D` pattern and big endian.
    /// The other fields keep their value.
    pub fn power_on_reset(&mut self)
        ensures
            *final(self) == old(self).spec_power_on_reset(),
    {
        self.data_transfer_pattern = DataTransferPattern::Normal;
        self.endianness = Endianness::Big;
    }
}

/// The kseg0 cache is enabled after writing a Config value exactly when its
/// K0 field is not `010`.
pub proof fn lemma_kseg0_cache_enabled_from_word(value: u32)
    requires
        RegConfig::spec_from_word(value) is Some,
    ensures
        RegConfig::spec_from_word(value)->Some_0.spec_kseg0_cache_enabled() <==> k0_field(value)
            != 2,
{
    let c = RegConfig::spec_from_word(value)->Some_0;
    assert(c.kseg0_cache_enable_bits@[0] == word_bit(value, 0));
    assert(c.kseg0_cache_enable_bits@[1] == word_bit(value, 1));
    assert(c.kseg0_cache_enable_bits@[2] == word_bit(value, 2));
    assert((!((value >> 0) & 1 == 1) && ((value >> 1) & 1 == 1) && !((value >> 2) & 1 == 1))
        <==> (value & 0b111 == 2)) by (bit_vector);
}

impl Default for RegConfig {
    /// The register as it comes out of reset: `D` pattern, big endian, all other bits clear.
    fn default() -> (r: RegConfig)
        ensures
            r == RegConfig::spec_default(),
    {
        RegConfig {
            data_transfer_pattern: DataTransferPattern::default(),
            endianness: Endianness::default(),
            cu: false,
            kseg0_cache_enable_bits: [false, false, false],
        }
    }
}

/// What a Config value sets, read off the value with bit masks: the write is
/// accepted exactly when bits 27:24 hold 0 or 6, and then CU is bit 3, BE is
/// bit 15, the K0 bits are bits 0 to 2, and the pattern is DxxDxx exactly when
/// bits 27:24 hold 6.
pub proof fn lemma_config_fields_by_mask(value: u32)
    ensures
        RegConfig::spec_from_word(value) is Some <==> (value & 0x0f00_0000 == 0 || value
            & 0x0f00_0000 == 0x0600_0000),
        RegConfig::spec_from_word(value) matches Some(c) ==> {
            &&& c.cu == (value & 0x8 != 0)
            &&& (c.endianness == Endianness::Big) == (value & 0x8000 != 0)
            &&& c.kseg0_cache_enable_bits@[0] == (value & 0x1 != 0)
            &&& c.kseg0_cache_enable_bits@[1] == (value & 0x2 != 0)
            &&& c.kseg0_cache_enable_bits@[2] == (value & 0x4 != 0)
            &&& (c.data_transfer_pattern == DataTransferPattern::DxxDxx) == (value & 0x0f00_0000
                == 0x0600_0000)
        },
{
    assert({
        &&& (((value >> 24) & 0b1111 == 0) == (value & 0x0f00_0000 == 0))
        &&& (((value >> 24) & 0b1111 == 6) == (value & 0x0f00_0000 == 0x0600_0000))
        &&& (((value >> 15) & 0b1 == 0) == (value & 0x8000 == 0))
        &&& (((value >> 3) & 1 == 1) == (value & 0x8 != 0))
        &&& (((value >> 0) & 1 == 1) == (value & 0x1 != 0))
        &&& (((value >> 1) & 1 == 1) == (value & 0x2 != 0))
        &&& (((value >> 2) & 1 == 1) == (value & 0x4 != 0))
    }) by (bit_vector);
}

} // verus!
