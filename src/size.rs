use vstd::prelude::*;

verus! {

/// Operand size of an instruction.
#[derive(Clone, Copy, PartialEq, Eq, Structural, Debug)]
pub enum Size {
    Byte,
    Word,
    Long,
}

impl Size {
    /// Number of bits an index is shifted left by when scaled to this size.
    pub open spec fn shift_amount(self) -> u8 {
        match self {
            Size::Byte => 0,
            Size::Word => 1,
            Size::Long => 2,
        }
    }

    /// Number of bytes an operand of this size occupies.
    pub open spec fn byte_count(self) -> i32 {
        match self {
            Size::Byte => 1,
            Size::Word => 2,
            Size::Long => 4,
        }
    }

    /// The byte count, negated: how far pre-decrement moves an address.
    pub open spec fn neg_byte_count(self) -> i32 {
        match self {
            Size::Byte => -1i32,
            Size::Word => -2i32,
            Size::Long => -4i32,
        }
    }

    pub fn shift(self) -> (r: u8)
        ensures
            r == self.shift_amount(),
    {
        match self {
            Size::Byte => 0,
            Size::Word => 1,
            Size::Long => 2,
        }
    }

    pub fn value(self) -> (r: i32)
        ensures
            r == self.byte_count(),
    {
        match self {
            Size::Byte => 1,
            Size::Word => 2,
            Size::Long => 4,
        }
    }
}

} // verus!
