use vstd::prelude::*;

use crate::cpu::opcode::{Opcode, SpecialOpcode};
use crate::error::N64Error;

verus! {

/// Bits 31:26: the primary opcode.
pub open spec fn opcode_field(w: u32) -> u32 {
    (w >> 26) & 0b111111
}

/// Bits 25:21: the `rs` register number.
pub open spec fn rs_field(w: u32) -> u32 {
    (w >> 21) & 0b11111
}

/// Bits 20:16: the `rt` register number.
pub open spec fn rt_field(w: u32) -> u32 {
    (w >> 16) & 0b11111
}

/// Bits 15:11: the `rd` register number.
pub open spec fn rd_field(w: u32) -> u32 {
    (w >> 11) & 0b11111
}

/// Bits 10:6: the shift amount.
pub open spec fn sa_field(w: u32) -> u32 {
    (w >> 6) & 0b11111
}

/// Bits 5:0: the SPECIAL function code.
pub open spec fn funct_field(w: u32) -> u32 {
    w & 0b111111
}

/// Bits 15:0: the immediate (or offset).
pub open spec fn imm_field(w: u32) -> u32 {
    w & 0xffff
}

/// A 16-bit value sign-extended to 64 bits.
pub open spec fn sign_extend_16(v: u32) -> u64
    recommends
        v <= 0xffff,
{
    if v < 0x8000 {
        v as u64
    } else {
        (v + 0xffff_ffff_ffff_0000u64) as u64
    }
}

/// A 32-bit value sign-extended to 64 bits.
pub open spec fn sign_extend_32(v: u32) -> u64 {
    if v < 0x8000_0000 {
        v as u64
    } else {
        (v + 0xffff_ffff_0000_0000u64) as u64
    }
}

/// Sign-extends a 32-bit value to 64 bits.
pub fn sign_extend_word(v: u32) -> (r: u64)
    ensures
        r == sign_extend_32(v),
{
    if v < 0x8000_0000 {
        v as u64
    } else {
        v as u64 + 0xffff_ffff_0000_0000u64
    }
}

/// The field layout of a word, read back together.
pub proof fn lemma_fields_recompose(w: u32)
    ensures
        opcode_field(w) < 64,
        rs_field(w) < 32,
        rt_field(w) < 32,
        rd_field(w) < 32,
        sa_field(w) < 32,
        funct_field(w) < 64,
        imm_field(w) < 0x10000,
        w == (opcode_field(w) << 26) | (rs_field(w) << 21) | (rt_field(w) << 16) | imm_field(w),
        imm_field(w) == (rd_field(w) << 11) | (sa_field(w) << 6) | funct_field(w),
{
    assert((w >> 26) & 0b111111 < 64) by (bit_vector);
    assert((w >> 21) & 0b11111 < 32) by (bit_vector);
    assert((w >> 16) & 0b11111 < 32) by (bit_vector);
    assert((w >> 11) & 0b11111 < 32) by (bit_vector);
    assert((w >> 6) & 0b11111 < 32) by (bit_vector);
    assert(w & 0b111111 < 64) by (bit_vector);
    assert(w & 0xffff < 0x10000) by (bit_vector);
    assert(w == (((w >> 26) & 0b111111) << 26) | (((w >> 21) & 0b11111) << 21) | (((w >> 16)
        & 0b11111) << 16) | (w & 0xffff)) by (bit_vector);
    assert(w & 0xffff == (((w >> 11) & 0b11111) << 11) | (((w >> 6) & 0b11111) << 6) | (w
        & 0b111111)) by (bit_vector);
}

/// One 32-bit VR4300 instruction word.
#[derive(Debug, Clone, Copy, PartialEq, Eq, Structural)]
pub struct Instruction(pub u32);

impl Instruction {
    /// The primary opcode, if it is one this CPU implements.
    pub fn opcode(&self) -> (r: Result<Opcode, N64Error>)
        ensures
            match Opcode::spec_from_u32(opcode_field(self.0)) {
                Some(op) => r == Ok::<Opcode, N64Error>(op),
                None => r == Err::<Opcode, N64Error>(N64Error::UnrecognizedInstruction(self.0)),
            },
    {
        match Opcode::from_u32((self.0 >> 26) & 0b111111) {
            Some(op) => Ok(op),
            None => Err(N64Error::UnrecognizedInstruction(self.0)),
        }
    }

    /// The SPECIAL function, if it is one this CPU implements.
    pub fn special_op(&self) -> (r: Result<SpecialOpcode, N64Error>)
        ensures
            match SpecialOpcode::spec_from_u32(funct_field(self.0)) {
                Some(op) => r == Ok::<SpecialOpcode, N64Error>(op),
                None => r == Err::<SpecialOpcode, N64Error>(
                    N64Error::UnrecognizedInstruction(self.0),
                ),
            },
    {
        match SpecialOpcode::from_u32(self.0 & 0b111111) {
            Some(op) => Ok(op),
            None => Err(N64Error::UnrecognizedInstruction(self.0)),
        }
    }

    /// The `rs` register number.
    pub fn rs(&self) -> (r: usize)
        ensures
            r == rs_field(self.0),
            r < 32,
    {
        proof {
            lemma_fields_recompose(self.0);
        }
        ((self.0 >> 21) & 0b11111) as usize
    }

    /// The `rt` register number.
    pub fn rt(&self) -> (r: usize)
        ensures
            r == rt_field(self.0),
            r < 32,
    {
        proof {
            lemma_fields_recompose(self.0);
        }
        ((self.0 >> 16) & 0b11111) as usize
    }

    /// The `rd` register number.
    pub fn rd(&self) -> (r: u32)
        ensures
            r == rd_field(self.0),
            r < 32,
    {
        proof {
            lemma_fields_recompose(self.0);
        }
        (self.0 >> 11) & 0b11111
    }

    /// The shift amount.
    pub fn sa(&self) -> (r: u32)
        ensures
            r == sa_field(self.0),
            r < 32,
    {
        proof {
            lemma_fields_recompose(self.0);
        }
        (self.0 >> 6) & 0b11111
    }

    /// The 16-bit immediate, zero-extended.
    pub fn imm(&self) -> (r: u32)
        ensures
            r == imm_field(self.0),
            r < 0x10000,
    {
        proof {
            lemma_fields_recompose(self.0);
        }
        self.0 & 0xffff
    }

    /// The 16-bit immediate, sign-extended to 64 bits.
    pub fn imm_sign_extended(&self) -> (r: u64)
        ensures
            r == sign_extend_16(imm_field(self.0)),
    {
        let imm = self.imm();
        if imm < 0x8000 {
            imm as u64
        } else {
            imm as u64 + 0xffff_ffff_ffff_0000u64
        }
    }

    /// The 16-bit offset (the same bits as the immediate).
    pub fn offset(&self) -> (r: u32)
        ensures
            r == imm_field(self.0),
    {
        self.imm()
    }

    /// The 16-bit offset, sign-extended to 64 bits.
    pub fn offset_sign_extended(&self) -> (r: u64)
        ensures
            r == sign_extend_16(imm_field(self.0)),
    {
        self.imm_sign_extended()
    }
}

} // verus!
