use vstd::prelude::*;
use crate::hardware::cpu::instructions::Target;
use crate::hardware::cpu::registers::flags::Flag;
use crate::hardware::utils::{
    concatenate_bytes, lemma_split_of_concatenate, lemma_concatenate_of_split,
    spec_concatenate_bytes, spec_high_byte, spec_low_byte,
};

pub mod flags;

verus! {

/// The CPU-visible state: eight 8-bit registers, the stack pointer and the
/// program counter. The 16-bit pairs are views over the 8-bit registers.
#[derive(Copy, Clone, Debug, PartialEq, Eq, Structural)]
pub struct Registers {
    pub a: u8,
    pub b: u8,
    pub c: u8,
    pub d: u8,
    pub e: u8,
    pub f: u8,
    pub h: u8,
    pub l: u8,
    pub sp: u16,
    pub pc: u16,
}

/// Setting or clearing one flag bit leaves the other three flag bits and the
/// low nibble as they were, and gives the chosen bit the chosen state.
pub proof fn lemma_flag_bits(f: u8, flag: Flag, other: Flag, set: bool)
    ensures
        ({
            let g = if set { f | flag.spec_mask() } else { f & !flag.spec_mask() };
            &&& (g & flag.spec_mask() == flag.spec_mask()) == set
            &&& other != flag ==> (g & other.spec_mask() == other.spec_mask()) == (f
                & other.spec_mask() == other.spec_mask())
            &&& g & 0x0f == f & 0x0f
        }),
{
    let m = flag.spec_mask();
    let o = other.spec_mask();
    assert(m == 0x80 || m == 0x40 || m == 0x20 || m == 0x10);
    assert(o == 0x80 || o == 0x40 || o == 0x20 || o == 0x10);
    assert(other != flag ==> o != m);
    assert((m == 0x80 || m == 0x40 || m == 0x20 || m == 0x10) ==> ((f | m) & m == m) && ((f & !m)
        & m != m) && ((f | m) & 0x0f == f & 0x0f) && ((f & !m) & 0x0f == f & 0x0f))
        by (bit_vector);
    assert((m == 0x80 || m == 0x40 || m == 0x20 || m == 0x10) && (o == 0x80 || o == 0x40 || o
        == 0x20 || o == 0x10) && o != m ==> (((f | m) & o == o) == (f & o == o)) && (((f & !m) & o
        == o) == (f & o == o))) by (bit_vector);
}

impl Registers {
    /// Whether `flag`'s bit is set in F.
    pub open spec fn flag(self, flag: Flag) -> bool {
        self.f & flag.spec_mask() == flag.spec_mask()
    }

    /// These registers with `flag`'s bit of F set or cleared.
    pub open spec fn with_flag(self, flag: Flag, set: bool) -> Registers {
        Registers {
            f: if set {
                self.f | flag.spec_mask()
            } else {
                self.f & !flag.spec_mask()
            },
            ..self
        }
    }

    /// The low nibble of F is zero.
    pub open spec fn wf(self) -> bool {
        self.f & 0x0f == 0
    }

    /// The pair BC: B is the high byte, C the low byte.
    pub open spec fn spec_bc(self) -> u16 {
        spec_concatenate_bytes(self.c, self.b)
    }

    /// The pair DE: D is the high byte, E the low byte.
    pub open spec fn spec_de(self) -> u16 {
        spec_concatenate_bytes(self.e, self.d)
    }

    /// The pair HL: H is the high byte, L the low byte.
    pub open spec fn spec_hl(self) -> u16 {
        spec_concatenate_bytes(self.l, self.h)
    }

    /// The pair AF: A is the high byte, F the low byte.
    pub open spec fn spec_af(self) -> u16 {
        spec_concatenate_bytes(self.f, self.a)
    }

    /// The byte in the 8-bit register that `target` names.
    pub open spec fn byte(self, target: Target) -> u8
        recommends
            target.is_narrow(),
    {
        match target {
            Target::A => self.a,
            Target::B => self.b,
            Target::C => self.c,
            Target::D => self.d,
            Target::E => self.e,
            Target::H => self.h,
            Target::L => self.l,
            _ => 0,
        }
    }

    /// These registers with `value` in the 8-bit register that `target` names.
    pub open spec fn with_byte(self, target: Target, value: u8) -> Registers
        recommends
            target.is_narrow(),
    {
        match target {
            Target::A => Registers { a: value, ..self },
            Target::B => Registers { b: value, ..self },
            Target::C => Registers { c: value, ..self },
            Target::D => Registers { d: value, ..self },
            Target::E => Registers { e: value, ..self },
            Target::H => Registers { h: value, ..self },
            Target::L => Registers { l: value, ..self },
            _ => self,
        }
    }

    /// These registers with the pair HL holding `value`.
    pub open spec fn with_hl(self, value: u16) -> Registers {
        Registers { h: spec_high_byte(value), l: spec_low_byte(value), ..self }
    }

    /// These registers with the pair BC holding `value`.
    pub open spec fn with_bc(self, value: u16) -> Registers {
        Registers { b: spec_high_byte(value), c: spec_low_byte(value), ..self }
    }

    /// The state at power-on: every register zero, execution starting at 0x100.
    pub open spec fn spec_new() -> Registers {
        Registers { a: 0, b: 0, c: 0, d: 0, e: 0, f: 0, h: 0, l: 0, sp: 0, pc: 0x100 }
    }

    /// The state at power-on: every register zero, execution starting at 0x100.
    #[verifier::when_used_as_spec(spec_new)]
    pub fn new() -> (registers: Registers)
        ensures
            registers == Registers::spec_new(),
            registers.wf(),
            forall|flag: Flag| !registers.flag(flag),
    {
        proof {
            assert(0u8 & 0x0f == 0) by (bit_vector);
            assert forall|flag: Flag| 0u8 & flag.spec_mask() != flag.spec_mask() by {
                let m = flag.spec_mask();
                assert(m != 0 ==> 0u8 & m != m) by (bit_vector);
            }
        }
        Registers { a: 0, b: 0, c: 0, d: 0, e: 0, f: 0, h: 0, l: 0, sp: 0, pc: 0x100 }
    }

    /// Sets or clears exactly `flag`'s bit of F.
    pub fn set_flag(&mut self, flag: Flag, set: bool)
        ensures
            *final(self) == old(self).with_flag(flag, set),
            final(self).flag(flag) == set,
            forall|other: Flag| other != flag ==> final(self).flag(other) == old(self).flag(other),
            old(self).wf() ==> final(self).wf(),
    {
        let mask = flag.mask();
        proof {
            assert forall|other: Flag|
                other != flag implies old(self).with_flag(flag, set).flag(other) == old(self).flag(
                other,
            ) by {
                lemma_flag_bits(old(self).f, flag, other, set);
            }
            lemma_flag_bits(old(self).f, flag, flag, set);
        }
        if set {
            self.f = self.f | mask;
        } else {
            self.f = self.f & !mask;
        }
    }

    /// Whether `flag`'s bit of F is set.
    pub fn get_flag(self, flag: Flag) -> (set: bool)
        ensures
            set == self.flag(flag),
    {
        let mask = flag.mask();
        self.f & mask == mask
    }

    /// The pair AF.
    pub fn get_af(&self) -> (value: u16)
        ensures
            value == self.spec_af(),
            value == 256 * self.a + self.f,
    {
        concatenate_bytes(self.f, self.a)
    }

    /// The pair BC.
    pub fn get_bc(&self) -> (value: u16)
        ensures
            value == self.spec_bc(),
            value == 256 * self.b + self.c,
    {
        concatenate_bytes(self.c, self.b)
    }

    /// The pair DE.
    pub fn get_de(&self) -> (value: u16)
        ensures
            value == self.spec_de(),
            value == 256 * self.d + self.e,
    {
        concatenate_bytes(self.e, self.d)
    }

    /// The pair HL.
    pub fn get_hl(&self) -> (value: u16)
        ensures
            value == self.spec_hl(),
            value == 256 * self.h + self.l,
    {
        concatenate_bytes(self.l, self.h)
    }

    /// Stores `value` in the pair HL: its high byte in H, its low byte in L.
    pub fn set_hl(&mut self, value: u16)
        ensures
            *final(self) == old(self).with_hl(value),
            final(self).spec_hl() == value,
    {
        proof {
            lemma_concatenate_of_split(value);
            assert(value >> 8 <= 0xff) by (bit_vector);
            assert(value & 0xff <= 0xff) by (bit_vector);
        }
        self.h = (value >> 8) as u8;
        self.l = (value & 0xff) as u8;
    }

    /// Stores `value` in the pair BC: its high byte in B, its low byte in C.
    pub fn set_bc(&mut self, value: u16)
        ensures
            *final(self) == old(self).with_bc(value),
            final(self).spec_bc() == value,
    {
        proof {
            lemma_concatenate_of_split(value);
            assert(value >> 8 <= 0xff) by (bit_vector);
            assert(value & 0xff <= 0xff) by (bit_vector);
        }
        self.b = (value >> 8) as u8;
        self.c = (value & 0xff) as u8;
    }
}

/// A flag that was set or cleared keeps that state when a different flag is
/// set or cleared afterwards.
pub proof fn lemma_flags_independent(
    registers: Registers,
    first: Flag,
    state: bool,
    second: Flag,
    other_state: bool,
)
    requires
        first != second,
    ensures
        registers.with_flag(first, state).with_flag(second, other_state).flag(first) == state,
{
    lemma_flag_bits(registers.f, first, first, state);
    lemma_flag_bits(registers.with_flag(first, state).f, second, first, other_state);
}

/// Writing a pair and reading it back gives the value written, and writing
/// one pair leaves the other registers alone.
pub proof fn lemma_pair_round_trip(registers: Registers, value: u16)
    ensures
        registers.with_hl(value).spec_hl() == value,
        registers.with_bc(value).spec_bc() == value,
        registers.with_hl(registers.spec_hl()) == registers,
        registers.with_bc(registers.spec_bc()) == registers,
        registers.with_hl(value).spec_bc() == registers.spec_bc(),
        registers.with_bc(value).spec_hl() == registers.spec_hl(),
{
    lemma_concatenate_of_split(value);
    lemma_split_of_concatenate(registers.l, registers.h);
    lemma_split_of_concatenate(registers.c, registers.b);
}

} // verus!
