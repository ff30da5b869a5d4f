use vstd::prelude::*;
use crate::hardware::cpu::registers::flags::Flag;
use crate::hardware::cpu::registers::{lemma_flag_bits, Registers};
use crate::hardware::cpu::CPU;

verus! {

/// The difference `a - b` in 8-bit arithmetic.
pub open spec fn difference(a: u8, b: u8) -> u8 {
    ((a - b) % 256) as u8
}

/// The registers after the subtraction `a - b`: Zero tells whether the
/// difference is zero, Negative is set, HalfCarry tells whether the low
/// nibble of `a` is greater than that of `b`, and Carry tells whether the
/// subtraction borrows, that is whether `a` is less than `b`.
pub open spec fn after_sub(registers: Registers, a: u8, b: u8) -> Registers {
    registers.with_flag(Flag::Zero, difference(a, b) == 0).with_flag(
        Flag::Negative,
        true,
    ).with_flag(Flag::HalfCarry, (a & 0x0F) > (b & 0x0F)).with_flag(Flag::Carry, a < b)
}

/// The registers after an exclusive or that gave `result`: Zero tells
/// whether the result is zero, and the other three flags are clear.
pub open spec fn after_xor(registers: Registers, result: u8) -> Registers {
    registers.with_flag(Flag::Zero, result == 0).with_flag(Flag::Negative, false).with_flag(
        Flag::HalfCarry,
        false,
    ).with_flag(Flag::Carry, false)
}

/// Assigning all four flags in turn gives each the state assigned to it,
/// keeps the low nibble of F, and touches no other register.
pub proof fn lemma_all_flags(
    registers: Registers,
    zero: bool,
    negative: bool,
    half_carry: bool,
    carry: bool,
)
    ensures
        ({
            let after = registers.with_flag(Flag::Zero, zero).with_flag(
                Flag::Negative,
                negative,
            ).with_flag(Flag::HalfCarry, half_carry).with_flag(Flag::Carry, carry);
            &&& after.flag(Flag::Zero) == zero
            &&& after.flag(Flag::Negative) == negative
            &&& after.flag(Flag::HalfCarry) == half_carry
            &&& after.flag(Flag::Carry) == carry
            &&& after.f & 0x0f == registers.f & 0x0f
            &&& after == Registers { f: after.f, ..registers }
        }),
{
    let r1 = registers.with_flag(Flag::Zero, zero);
    let r2 = r1.with_flag(Flag::Negative, negative);
    let r3 = r2.with_flag(Flag::HalfCarry, half_carry);
    lemma_flag_bits(registers.f, Flag::Zero, Flag::Zero, zero);
    lemma_flag_bits(r1.f, Flag::Negative, Flag::Zero, negative);
    lemma_flag_bits(r2.f, Flag::HalfCarry, Flag::Zero, half_carry);
    lemma_flag_bits(r2.f, Flag::HalfCarry, Flag::Negative, half_carry);
    lemma_flag_bits(r3.f, Flag::Carry, Flag::Zero, carry);
    lemma_flag_bits(r3.f, Flag::Carry, Flag::Negative, carry);
    lemma_flag_bits(r3.f, Flag::Carry, Flag::HalfCarry, carry);
}

/// After a subtraction the four flags describe it, whatever they held
/// before, and no register but F has changed.
pub proof fn lemma_after_sub(registers: Registers, a: u8, b: u8)
    ensures
        after_sub(registers, a, b).flag(Flag::Zero) == (difference(a, b) == 0),
        after_sub(registers, a, b).flag(Flag::Zero) == (a == b),
        after_sub(registers, a, b).flag(Flag::Negative),
        after_sub(registers, a, b).flag(Flag::HalfCarry) == ((a & 0x0F) > (b & 0x0F)),
        after_sub(registers, a, b).flag(Flag::Carry) == (a < b),
        after_sub(registers, a, b) == (Registers { f: after_sub(registers, a, b).f, ..registers }),
        registers.wf() ==> after_sub(registers, a, b).wf(),
{
    lemma_all_flags(registers, difference(a, b) == 0, true, (a & 0x0F) > (b & 0x0F), a < b);
}

/// After an exclusive or Zero describes the result, the other three flags
/// are clear, and no register but F has changed.
pub proof fn lemma_after_xor(registers: Registers, result: u8)
    ensures
        after_xor(registers, result).flag(Flag::Zero) == (result == 0),
        !after_xor(registers, result).flag(Flag::Negative),
        !after_xor(registers, result).flag(Flag::HalfCarry),
        !after_xor(registers, result).flag(Flag::Carry),
        after_xor(registers, result) == (Registers {
            f: after_xor(registers, result).f,
            ..registers
        }),
        registers.wf() ==> after_xor(registers, result).wf(),
{
    lemma_all_flags(registers, result == 0, false, false, false);
}

impl CPU {
    /// Subtracts `b` from `a` in 8-bit arithmetic and sets the four flags
    /// from the subtraction.
    pub fn alu_sub(&mut self, a: u8, b: u8) -> (result: u8)
        ensures
            result == difference(a, b),
            result == (a - b) % 256,
            final(self).registers == after_sub(old(self).registers, a, b),
            final(self).registers.flag(Flag::Zero) == (result == 0),
            final(self).registers.flag(Flag::Negative),
            final(self).registers.flag(Flag::HalfCarry) == ((a & 0x0F) > (b & 0x0F)),
            final(self).registers.flag(Flag::Carry) == (a < b),
            *final(self) == (CPU { registers: final(self).registers, ..*old(self) }),
    {
        let result = a.wrapping_sub(b);
        proof {
            lemma_after_sub(self.registers, a, b);
        }
        self.registers.set_flag(Flag::Zero, result == 0);
        self.registers.set_flag(Flag::Negative, true);
        self.registers.set_flag(Flag::HalfCarry, (a & 0x0F) > (b & 0x0F));
        self.registers.set_flag(Flag::Carry, a < b);
        result
    }
}

} // verus!
