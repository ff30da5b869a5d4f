use vstd::prelude::*;

verus! {

/// An operand role of a decoded instruction: an 8-bit register, a 16-bit pair
/// or the stack pointer, or a value that follows the opcode in the
/// instruction stream.
#[derive(Debug, Copy, Clone, PartialEq, Eq, Structural)]
pub enum Target {
    A,
    B,
    C,
    D,
    E,
    H,
    L,
    BC,
    DE,
    HL,
    SP,
    /// An 8-bit immediate.
    U8,
    /// A 16-bit immediate, low byte first.
    U16,
    /// A signed 8-bit displacement.
    I8,
}

/// The condition of a relative jump.
#[derive(Debug, Copy, Clone, PartialEq, Eq, Structural)]
pub enum JRTarget {
    N,
    /// Jump when Zero is set.
    Z,
    /// Jump when Zero is clear.
    NZ,
    /// Jump when Carry is set.
    C,
    /// Jump when Carry is clear.
    NC,
    /// Jump always.
    I8,
}

/// A decoded instruction: an operation and its operand roles. It carries no
/// operand values; those are fetched when the instruction executes.
#[derive(Debug, Copy, Clone, PartialEq, Eq, Structural)]
pub enum Instruction {
    UNKNOWN(u8),
    NOP,
    STOP,
    ADD(Target, Target),
    INC(Target),
    LD(Target, Target),
    LDI(Target, Target),
    LDD(Target, Target),
    DEC(Target),
    JP(Target),
    CP(Target, Target),
    JR(JRTarget),
    XOR(Target, Target),
    RLCA,
    RRCA,
    DI,
}

impl Target {
    /// Whether the operand is one of the 8-bit registers A, B, C, D, E, H, L.
    pub open spec fn is_narrow(self) -> bool {
        self == Target::A || self == Target::B || self == Target::C || self == Target::D || self
            == Target::E || self == Target::H || self == Target::L
    }

    /// Whether the operand is a 16-bit pair or the stack pointer.
    pub open spec fn spec_is_wide(self) -> bool {
        self == Target::BC || self == Target::DE || self == Target::HL || self == Target::SP
    }

    /// Whether the operand is a 16-bit pair or the stack pointer.
    #[verifier::when_used_as_spec(spec_is_wide)]
    pub fn is_wide(self) -> (wide: bool)
        ensures
            wide == self.spec_is_wide(),
    {
        match self {
            Target::BC | Target::DE | Target::HL | Target::SP => true,
            _ => false,
        }
    }
}

impl Instruction {
    /// The decode table: the instruction that each opcode stands for.
    pub open spec fn decode(byte: u8) -> Instruction {
        if byte == 0x00 {
            Instruction::NOP
        } else if byte == 0x01 {
            Instruction::LD(Target::BC, Target::U16)
        } else if byte == 0x02 {
            Instruction::LD(Target::BC, Target::A)
        } else if byte == 0x03 {
            Instruction::INC(Target::BC)
        } else if byte == 0x04 {
            Instruction::INC(Target::B)
        } else if byte == 0x05 {
            Instruction::DEC(Target::B)
        } else if byte == 0x06 {
            Instruction::LD(Target::B, Target::U8)
        } else if byte == 0x07 {
            Instruction::RLCA
        } else if byte == 0x08 {
            Instruction::LD(Target::U16, Target::SP)
        } else if byte == 0x09 {
            Instruction::ADD(Target::HL, Target::BC)
        } else if byte == 0x0A {
            Instruction::LD(Target::A, Target::BC)
        } else if byte == 0x0B {
            Instruction::DEC(Target::BC)
        } else if byte == 0x0C {
            Instruction::INC(Target::C)
        } else if byte == 0x0D {
            Instruction::DEC(Target::C)
        } else if byte == 0x0E {
            Instruction::LD(Target::C, Target::U8)
        } else if byte == 0x0F {
            Instruction::RRCA
        } else if byte == 0x10 {
            Instruction::STOP
        } else if byte == 0x18 {
            Instruction::JR(JRTarget::I8)
        } else if byte == 0x20 {
            Instruction::JR(JRTarget::NZ)
        } else if byte == 0x21 {
            Instruction::LD(Target::HL, Target::U16)
        } else if byte == 0x28 {
            Instruction::JR(JRTarget::Z)
        } else if byte == 0x32 {
            Instruction::LDD(Target::HL, Target::A)
        } else if byte == 0x3E {
            Instruction::LD(Target::A, Target::U8)
        } else if byte == 0xAF {
            Instruction::XOR(Target::A, Target::A)
        } else if byte == 0xC3 {
            Instruction::JP(Target::U16)
        } else if byte == 0xE0 {
            Instruction::LD(Target::U8, Target::A)
        } else if byte == 0xEA {
            Instruction::LD(Target::U16, Target::A)
        } else if byte == 0xF3 {
            Instruction::DI
        } else if byte == 0xFE {
            Instruction::CP(Target::A, Target::U8)
        } else {
            Instruction::UNKNOWN(byte)
        }
    }

    /// Whether the decode table has an entry for the opcode.
    pub open spec fn is_mapped(byte: u8) -> bool {
        byte <= 0x10 || byte == 0x18 || byte == 0x20 || byte == 0x21 || byte == 0x28 || byte
            == 0x32 || byte == 0x3E || byte == 0xAF || byte == 0xC3 || byte == 0xE0 || byte
            == 0xEA || byte == 0xF3 || byte == 0xFE
    }

    /// Decodes one opcode. Every byte decodes: one without an entry in the
    /// table gives `UNKNOWN` with the byte itself.
    pub fn from_byte(byte: u8) -> (instruction: Instruction)
        ensures
            instruction == Instruction::decode(byte),
            Instruction::is_mapped(byte) ==> !(instruction is UNKNOWN),
            !Instruction::is_mapped(byte) ==> instruction == Instruction::UNKNOWN(byte),
    {
        match byte {
            0x00 => Instruction::NOP,
            0x01 => Instruction::LD(Target::BC, Target::U16),
            0x02 => Instruction::LD(Target::BC, Target::A),
            0x03 => Instruction::INC(Target::BC),
            0x04 => Instruction::INC(Target::B),
            0x05 => Instruction::DEC(Target::B),
            0x06 => Instruction::LD(Target::B, Target::U8),
            0x07 => Instruction::RLCA,
            0x08 => Instruction::LD(Target::U16, Target::SP),
            0x09 => Instruction::ADD(Target::HL, Target::BC),
            0x0A => Instruction::LD(Target::A, Target::BC),
            0x0B => Instruction::DEC(Target::BC),
            0x0C => Instruction::INC(Target::C),
            0x0D => Instruction::DEC(Target::C),
            0x0E => Instruction::LD(Target::C, Target::U8),
            0x0F => Instruction::RRCA,
            0x10 => Instruction::STOP,
            0x18 => Instruction::JR(JRTarget::I8),
            0x20 => Instruction::JR(JRTarget::NZ),
            0x21 => Instruction::LD(Target::HL, Target::U16),
            0x28 => Instruction::JR(JRTarget::Z),
            0x32 => Instruction::LDD(Target::HL, Target::A),
            0x3E => Instruction::LD(Target::A, Target::U8),
            0xAF => Instruction::XOR(Target::A, Target::A),
            0xC3 => Instruction::JP(Target::U16),
            0xE0 => Instruction::LD(Target::U8, Target::A),
            0xEA => Instruction::LD(Target::U16, Target::A),
            0xF3 => Instruction::DI,
            0xFE => Instruction::CP(Target::A, Target::U8),
            _ => Instruction::UNKNOWN(byte),
        }
    }
}

/// The decoder never invents an opcode: whatever byte is decoded, an
/// `UNKNOWN` result carries that byte, and the bytes without a table entry
/// are exactly those that decode to `UNKNOWN`.
pub proof fn lemma_decode_total(byte: u8)
    ensures
        Instruction::decode(byte) is UNKNOWN <==> !Instruction::is_mapped(byte),
        Instruction::decode(byte) is UNKNOWN ==> Instruction::decode(byte) == Instruction::UNKNOWN(
            byte,
        ),
        Instruction::decode(0x00) == Instruction::NOP,
        Instruction::decode(0xC3) == Instruction::JP(Target::U16),
{
}

} // verus!
