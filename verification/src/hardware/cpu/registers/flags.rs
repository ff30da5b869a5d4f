use vstd::prelude::*;

verus! {

/// The four condition flags, kept in the high nibble of register F.
#[derive(Clone, Copy, Debug, PartialEq, Eq, Structural)]
pub enum Flag {
    Zero,
    Negative,
    HalfCarry,
    Carry,
}

impl Flag {
    /// The single bit of F that holds the flag: Zero is bit 7, Negative bit 6,
    /// HalfCarry bit 5 and Carry bit 4.
    pub open spec fn spec_mask(self) -> u8 {
        match self {
            Flag::Zero => 0b1000_0000u8,
            Flag::Negative => 0b0100_0000u8,
            Flag::HalfCarry => 0b0010_0000u8,
            Flag::Carry => 0b0001_0000u8,
        }
    }

    /// The flag's bit mask within F.
    #[verifier::when_used_as_spec(spec_mask)]
    pub fn mask(self) -> (mask: u8)
        ensures
            mask == self.spec_mask(),
    {
        match self {
            Flag::Zero => 0b1000_0000u8,
            Flag::Negative => 0b0100_0000u8,
            Flag::HalfCarry => 0b0010_0000u8,
            Flag::Carry => 0b0001_0000u8,
        }
    }
}

} // verus!
