use vstd::prelude::*;

verus! {

/// The width of the units that the run-length coder works on.
///
/// The names come from the three operand sizes of the SH-2 CPU.
#[derive(Copy, Clone, Debug, PartialEq, Eq, Structural)]
pub enum Size {
    /// 8-bit units.
    Byte,
    /// 16-bit units.
    Word,
    /// 32-bit units.
    Longword,
}

impl Size {
    /// Bytes per unit.
    pub open spec fn spec_unit_bytes(self) -> nat {
        match self {
            Size::Byte => 1,
            Size::Word => 2,
            Size::Longword => 4,
        }
    }

    /// The code that the header's second byte carries for this width.
    pub open spec fn spec_code(self) -> u8 {
        match self {
            Size::Byte => 0x00,
            Size::Word => 0x04,
            Size::Longword => 0x0C,
        }
    }

    /// Number of bytes in one unit: 1, 2 or 4.
    pub fn unit_bytes(self) -> (r: usize)
        ensures
            r as nat == self.spec_unit_bytes(),
    {
        match self {
            Size::Byte => 1,
            Size::Word => 2,
            Size::Longword => 4,
        }
    }

    /// The width code written into a header: 0x00, 0x04 or 0x0C.
    pub fn code(self) -> (r: u8)
        ensures
            r == self.spec_code(),
    {
        match self {
            Size::Byte => 0x00,
            Size::Word => 0x04,
            Size::Longword => 0x0C,
        }
    }
}

} // verus!
