use vstd::prelude::*;

verus! {

/// The primary opcodes (bits 31:26) that this CPU implements.
#[derive(Debug, Clone, Copy, PartialEq, Eq, Structural)]
pub enum Opcode {
    /// `000000`: the function is in bits 5:0.
    Special,
    /// `001000`
    Addi,
    /// `001001`
    Addiu,
    /// `001100`
    Andi,
    /// `001101`
    Ori,
    /// `001111`
    Lui,
    /// `010000`: move to coprocessor 0.
    Mtc0,
    /// `000100`
    Beq,
    /// `000101`
    Bne,
    /// `010100`
    Beql,
    /// `010101`
    Bnel,
    /// `100011`
    Lw,
    /// `101011`
    Sw,
}

impl Opcode {
    /// The opcode with this 6-bit number.
    pub open spec fn spec_from_u32(value: u32) -> Option<Opcode> {
        if value == 0b000000 {
            Some(Opcode::Special)
        } else if value == 0b001000 {
            Some(Opcode::Addi)
        } else if value == 0b001001 {
            Some(Opcode::Addiu)
        } else if value == 0b001100 {
            Some(Opcode::Andi)
        } else if value == 0b001101 {
            Some(Opcode::Ori)
        } else if value == 0b001111 {
            Some(Opcode::Lui)
        } else if value == 0b010000 {
            Some(Opcode::Mtc0)
        } else if value == 0b000100 {
            Some(Opcode::Beq)
        } else if value == 0b000101 {
            Some(Opcode::Bne)
        } else if value == 0b010100 {
            Some(Opcode::Beql)
        } else if value == 0b010101 {
            Some(Opcode::Bnel)
        } else if value == 0b100011 {
            Some(Opcode::Lw)
        } else if value == 0b101011 {
            Some(Opcode::Sw)
        } else {
            None
        }
    }

    /// The 6-bit number of the opcode.
    pub open spec fn spec_to_u32(self) -> u32 {
        match self {
            Opcode::Special => 0b000000,
            Opcode::Addi => 0b001000,
            Opcode::Addiu => 0b001001,
            Opcode::Andi => 0b001100,
            Opcode::Ori => 0b001101,
            Opcode::Lui => 0b001111,
            Opcode::Mtc0 => 0b010000,
            Opcode::Beq => 0b000100,
            Opcode::Bne => 0b000101,
            Opcode::Beql => 0b010100,
            Opcode::Bnel => 0b010101,
            Opcode::Lw => 0b100011,
            Opcode::Sw => 0b101011,
        }
    }

    /// Looks the opcode up by its number.
    pub fn from_u32(value: u32) -> (r: Option<Opcode>)
        ensures
            r == Opcode::spec_from_u32(value),
    {
        match value {
            0b000000 => Some(Opcode::Special),
            0b001000 => Some(Opcode::Addi),
            0b001001 => Some(Opcode::Addiu),
            0b001100 => Some(Opcode::Andi),
            0b001101 => Some(Opcode::Ori),
            0b001111 => Some(Opcode::Lui),
            0b010000 => Some(Opcode::Mtc0),
            0b000100 => Some(Opcode::Beq),
            0b000101 => Some(Opcode::Bne),
            0b010100 => Some(Opcode::Beql),
            0b010101 => Some(Opcode::Bnel),
            0b100011 => Some(Opcode::Lw),
            0b101011 => Some(Opcode::Sw),
            _ => None,
        }
    }

    /// The number of the opcode.
    pub fn to_u32(self) -> (r: u32)
        ensures
            r == self.spec_to_u32(),
    {
        match self {
            Opcode::Special => 0b000000,
            Opcode::Addi => 0b001000,
            Opcode::Addiu => 0b001001,
            Opcode::Andi => 0b001100,
            Opcode::Ori => 0b001101,
            Opcode::Lui => 0b001111,
            Opcode::Mtc0 => 0b010000,
            Opcode::Beq => 0b000100,
            Opcode::Bne => 0b000101,
            Opcode::Beql => 0b010100,
            Opcode::Bnel => 0b010101,
            Opcode::Lw => 0b100011,
            Opcode::Sw => 0b101011,
        }
    }
}

/// The SPECIAL functions (bits 5:0) that this CPU implements.
#[derive(Debug, Clone, Copy, PartialEq, Eq, Structural)]
pub enum SpecialOpcode {
    /// `000010`: shift right logical.
    Srl,
    /// `001000`: jump register.
    Jr,
    /// `100101`: or.
    Or,
}

impl SpecialOpcode {
    /// The function with this 6-bit number.
    pub open spec fn spec_from_u32(value: u32) -> Option<SpecialOpcode> {
        if value == 0b000010 {
            Some(SpecialOpcode::Srl)
        } else if value == 0b001000 {
            Some(SpecialOpcode::Jr)
        } else if value == 0b100101 {
            Some(SpecialOpcode::Or)
        } else {
            None
        }
    }

    /// The 6-bit number of the function.
    pub open spec fn spec_to_u32(self) -> u32 {
        match self {
            SpecialOpcode::Srl => 0b000010,
            SpecialOpcode::Jr => 0b001000,
            SpecialOpcode::Or => 0b100101,
        }
    }

    /// Looks the function up by its number.
    pub fn from_u32(value: u32) -> (r: Option<SpecialOpcode>)
        ensures
            r == SpecialOpcode::spec_from_u32(value),
    {
        match value {
            0b000010 => Some(SpecialOpcode::Srl),
            0b001000 => Some(SpecialOpcode::Jr),
            0b100101 => Some(SpecialOpcode::Or),
            _ => None,
        }
    }

    /// The number of the function.
    pub fn to_u32(self) -> (r: u32)
        ensures
            r == self.spec_to_u32(),
    {
        match self {
            SpecialOpcode::Srl => 0b000010,
            SpecialOpcode::Jr => 0b001000,
            SpecialOpcode::Or => 0b100101,
        }
    }
}

/// Numbering an opcode and looking the number up gives the opcode back, and
/// every number that names an opcode is that opcode's number.
pub proof fn lemma_opcode_numbering(op: Opcode, value: u32)
    ensures
        Opcode::spec_from_u32(op.spec_to_u32()) == Some(op),
        Opcode::spec_from_u32(value) matches Some(o) ==> o.spec_to_u32() == value,
{
}

/// Numbering a SPECIAL function and looking the number up gives it back, and
/// every number that names a function is that function's number.
pub proof fn lemma_special_opcode_numbering(op: SpecialOpcode, value: u32)
    ensures
        SpecialOpcode::spec_from_u32(op.spec_to_u32()) == Some(op),
        SpecialOpcode::spec_from_u32(value) matches Some(o) ==> o.spec_to_u32() == value,
{
}

} // verus!
