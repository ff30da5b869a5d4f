use vstd::prelude::*;
use crate::hardware::cartridge::Cartridge;
use crate::hardware::cpu::alu::{after_sub, after_xor, difference, lemma_after_sub, lemma_after_xor};
use crate::hardware::cpu::bus::{read_at, write_at};
use crate::hardware::cpu::instructions::{Instruction, JRTarget, Target};
use crate::hardware::cpu::memory::{Memory, MAX_RAM};
use crate::hardware::cpu::registers::flags::Flag;
use crate::hardware::cpu::registers::Registers;
use crate::hardware::utils::{concatenate_bytes, spec_concatenate_bytes};

pub mod alu;
pub mod bus;
pub mod instructions;
pub mod memory;
pub mod registers;

verus! {

/// The most machine cycles that one instruction takes.
pub const MAX_MACHINE_CYCLES: usize = 4;

/// The clock cycles in one machine cycle.
pub const CLOCKS_PER_MACHINE_CYCLE: usize = 4;

/// The processor with all it owns: memory, registers and the cartridge.
pub struct CPU {
    pub memory: Memory,
    pub registers: Registers,
    pub cartridge: Cartridge,
    pub is_running: bool,
    pub cycles: Cycles,
}

/// The time that the executed instructions have taken, counted in machine
/// cycles and in clock cycles.
#[derive(Debug, Clone, Copy, PartialEq, Eq, Structural)]
pub struct Cycles {
    pub machine: usize,
    pub clock: usize,
}

/// The report of something that the processor cannot do yet.
#[derive(Debug, Clone, Copy, PartialEq, Eq, Structural)]
pub enum NotImplemented {
    /// The instruction fetched at `pc` has no execution rule.
    Operation { instruction: Instruction, pc: u16 },
    /// A read at an address where no storage answers.
    BusRead { address: u16 },
    /// A write at an address where no storage answers.
    BusWrite { address: u16 },
}

/// The report of one executed instruction.
#[derive(Debug, Clone, Copy, PartialEq, Eq, Structural)]
pub struct Executed {
    /// The address that the opcode was fetched from.
    pub pc: u16,
    pub instruction: Instruction,
    /// The immediate value that the instruction took from the instruction
    /// stream or, for a relative jump, the address it computed.
    pub operand: Option<u16>,
    /// The machine cycles that the instruction took.
    pub machine_cycles: usize,
}

/// What executing one instruction does: the registers it leaves, the operand
/// it resolved, and the machine cycles it took.
pub struct Effect {
    pub registers: Registers,
    pub operand: Option<u16>,
    pub machine_cycles: usize,
}

/// The address after `address`; the address space wraps.
pub open spec fn following(address: u16) -> u16 {
    if address == 0xFFFF {
        0
    } else {
        (address + 1) as u16
    }
}

/// The address before `address`; the address space wraps.
pub open spec fn preceding(address: u16) -> u16 {
    if address == 0 {
        0xFFFF
    } else {
        (address - 1) as u16
    }
}

/// The 16-bit value stored at `address` and the address after it, low byte
/// first. Where a byte cannot be read, the first such read is reported.
pub open spec fn word_at(rom: Seq<u8>, address: u16) -> Result<u16, NotImplemented> {
    match read_at(rom, address) {
        Err(report) => Err(report),
        Ok(lower) => match read_at(rom, following(address)) {
            Err(report) => Err(report),
            Ok(higher) => Ok(spec_concatenate_bytes(lower, higher)),
        },
    }
}

/// The address that lies the signed `displacement` away from `address`; the
/// address space wraps.
pub open spec fn displaced(address: u16, displacement: u8) -> u16 {
    let offset = if displacement < 0x80 {
        displacement as int
    } else {
        displacement - 0x100
    };
    ((address + offset) % 0x1_0000) as u16
}

/// Whether a relative jump under `condition` is taken.
pub open spec fn jumps(registers: Registers, condition: JRTarget) -> bool {
    match condition {
        JRTarget::Z => registers.flag(Flag::Zero),
        JRTarget::NZ => !registers.flag(Flag::Zero),
        JRTarget::C => registers.flag(Flag::Carry),
        JRTarget::NC => !registers.flag(Flag::Carry),
        JRTarget::I8 => true,
        JRTarget::N => false,
    }
}

/// The effect of an instruction that only passes time.
pub open spec fn idles(registers: Registers, machine_cycles: usize) -> Result<
    Effect,
    NotImplemented,
> {
    Ok(Effect { registers, operand: None, machine_cycles })
}

/// The effect of loading the 8-bit immediate at the program counter into the
/// 8-bit register `target`.
pub open spec fn loads_byte(rom: Seq<u8>, registers: Registers, target: Target) -> Result<
    Effect,
    NotImplemented,
> {
    match read_at(rom, registers.pc) {
        Err(report) => Err(report),
        Ok(value) => Ok(
            Effect {
                registers: Registers { pc: following(registers.pc), ..registers }.with_byte(
                    target,
                    value,
                ),
                operand: Some(value as u16),
                machine_cycles: 2,
            },
        ),
    }
}

/// The effect of decrementing the 8-bit register `target`: one is subtracted
/// from it, and the flags describe that subtraction.
pub open spec fn decrements(registers: Registers, target: Target) -> Result<
    Effect,
    NotImplemented,
> {
    Ok(
        Effect {
            registers: after_sub(registers, registers.byte(target), 1).with_byte(
                target,
                difference(registers.byte(target), 1),
            ),
            operand: None,
            machine_cycles: 1,
        },
    )
}

/// The effect of a relative jump under `condition`. The displacement counts
/// from the address after the displacement byte. The jump costs one machine
/// cycle more when it is taken.
pub open spec fn jumps_relative(
    rom: Seq<u8>,
    registers: Registers,
    condition: JRTarget,
) -> Result<Effect, NotImplemented> {
    match read_at(rom, registers.pc) {
        Err(report) => Err(report),
        Ok(displacement) => {
            let landing = following(registers.pc);
            let target = displaced(landing, displacement);
            let taken = jumps(registers, condition);
            Ok(
                Effect {
                    registers: Registers { pc: if taken { target } else { landing }, ..registers },
                    operand: Some(target),
                    machine_cycles: if taken { 3 } else { 2 },
                },
            )
        },
    }
}

/// What executing `instruction` does, with the image `rom` on the bus and
/// the program counter of `registers` just past the opcode: the effect, or
/// the report of what cannot be done.
///
/// `NOP`, `STOP`, `RLCA`, `RRCA`, `ADD`, `INC` and `UNKNOWN` only pass time:
/// one machine cycle, or two for an `ADD` or `INC` on a 16-bit pair.
pub open spec fn effect(rom: Seq<u8>, registers: Registers, instruction: Instruction) -> Result<
    Effect,
    NotImplemented,
> {
    match instruction {
        Instruction::NOP
        | Instruction::STOP
        | Instruction::RLCA
        | Instruction::RRCA
        | Instruction::UNKNOWN(_) => idles(registers, 1),
        Instruction::ADD(target, _) | Instruction::INC(target) => idles(
            registers,
            if target.is_wide() { 2 } else { 1 },
        ),
        Instruction::LD(Target::A, Target::U8) => loads_byte(rom, registers, Target::A),
        Instruction::LD(Target::B, Target::U8) => loads_byte(rom, registers, Target::B),
        Instruction::LD(Target::C, Target::U8) => loads_byte(rom, registers, Target::C),
        Instruction::LD(Target::U16, Target::A) => match word_at(rom, registers.pc) {
            Err(report) => Err(report),
            Ok(address) => match write_at(address) {
                Err(report) => Err(report),
                Ok(_) => Ok(
                    Effect {
                        registers: Registers {
                            pc: following(following(registers.pc)),
                            ..registers
                        },
                        operand: Some(address),
                        machine_cycles: 4,
                    },
                ),
            },
        },
        Instruction::LD(Target::HL, Target::U16) => match word_at(rom, registers.pc) {
            Err(report) => Err(report),
            Ok(value) => Ok(
                Effect {
                    registers: Registers {
                        pc: following(following(registers.pc)),
                        ..registers
                    }.with_hl(value),
                    operand: Some(value),
                    machine_cycles: 3,
                },
            ),
        },
        Instruction::LDD(Target::HL, Target::A) => match write_at(registers.spec_hl()) {
            Err(report) => Err(report),
            Ok(_) => Ok(
                Effect {
                    registers: registers.with_hl(preceding(registers.spec_hl())),
                    operand: None,
                    machine_cycles: 2,
                },
            ),
        },
        Instruction::DEC(Target::B) => decrements(registers, Target::B),
        Instruction::DEC(Target::C) => decrements(registers, Target::C),
        Instruction::CP(Target::A, Target::U8) => match read_at(rom, registers.pc) {
            Err(report) => Err(report),
            Ok(value) => Ok(
                Effect {
                    registers: after_sub(
                        Registers { pc: following(registers.pc), ..registers },
                        registers.a,
                        value,
                    ),
                    operand: Some(value as u16),
                    machine_cycles: 2,
                },
            ),
        },
        Instruction::JP(Target::U16) => match word_at(rom, registers.pc) {
            Err(report) => Err(report),
            Ok(address) => Ok(
                Effect {
                    registers: Registers { pc: address, ..registers },
                    operand: Some(address),
                    machine_cycles: 4,
                },
            ),
        },
        Instruction::XOR(Target::A, Target::A) => Ok(
            Effect {
                registers: after_xor(Registers { a: 0, ..registers }, 0),
                operand: None,
                machine_cycles: 1,
            },
        ),
        Instruction::JR(JRTarget::Z) => jumps_relative(rom, registers, JRTarget::Z),
        Instruction::JR(JRTarget::NZ) => jumps_relative(rom, registers, JRTarget::NZ),
        Instruction::JR(JRTarget::C) => jumps_relative(rom, registers, JRTarget::C),
        Instruction::JR(JRTarget::NC) => jumps_relative(rom, registers, JRTarget::NC),
        Instruction::JR(JRTarget::I8) => jumps_relative(rom, registers, JRTarget::I8),
        _ => Err(NotImplemented::Operation { instruction, pc: preceding(registers.pc) }),
    }
}

/// The bytes that `instruction` takes from the instruction stream after its
/// opcode.
pub open spec fn operand_bytes(instruction: Instruction) -> int {
    match instruction {
        Instruction::LD(_, Target::U8) | Instruction::CP(_, Target::U8) | Instruction::JR(_) => 1,
        Instruction::LD(Target::U16, _)
        | Instruction::LD(_, Target::U16)
        | Instruction::JP(Target::U16) => 2,
        _ => 0,
    }
}

/// An instruction that executes keeps the low nibble of F zero, and takes at
/// least one machine cycle and at most `MAX_MACHINE_CYCLES`.
pub proof fn lemma_effect_bounds(rom: Seq<u8>, registers: Registers, instruction: Instruction)
    ensures
        effect(rom, registers, instruction) is Ok ==> {
            let done = effect(rom, registers, instruction)->Ok_0;
            &&& registers.wf() ==> done.registers.wf()
            &&& 1 <= done.machine_cycles <= MAX_MACHINE_CYCLES
        },
{
    lemma_after_sub(registers, registers.b, 1);
    lemma_after_sub(registers, registers.c, 1);
    lemma_after_xor(Registers { a: 0, ..registers }, 0);
    if let Ok(value) = read_at(rom, registers.pc) {
        lemma_after_sub(Registers { pc: following(registers.pc), ..registers }, registers.a, value);
    }
}

/// What an instruction that executes leaves alone. The program counter ends
/// just past the operand bytes unless the instruction is a jump that is
/// taken. Only `DEC`, `CP` and `XOR` change F. No instruction changes the
/// stack pointer, D or E.
pub proof fn lemma_effect_frame(rom: Seq<u8>, registers: Registers, instruction: Instruction)
    ensures
        effect(rom, registers, instruction) is Ok ==> {
            let done = effect(rom, registers, instruction)->Ok_0;
            &&& done.registers.sp == registers.sp
            &&& done.registers.d == registers.d
            &&& done.registers.e == registers.e
            &&& instruction is JP || (instruction is JR && jumps(registers, instruction->JR_0))
                || done.registers.pc == (registers.pc + operand_bytes(instruction)) % 0x1_0000
            &&& instruction is DEC || instruction is CP || instruction is XOR || done.registers.f
                == registers.f
        },
{
    lemma_after_sub(registers, registers.b, 1);
    lemma_after_sub(registers, registers.c, 1);
    lemma_after_xor(Registers { a: 0, ..registers }, 0);
    if let Ok(value) = read_at(rom, registers.pc) {
        lemma_after_sub(Registers { pc: following(registers.pc), ..registers }, registers.a, value);
    }
}

/// What one step does, with the image `rom` on the bus: the instruction that
/// is fetched at the program counter and decoded, and its effect; or the
/// report of what cannot be done.
pub open spec fn step_effect(rom: Seq<u8>, registers: Registers) -> Result<
    (Instruction, Effect),
    NotImplemented,
> {
    match read_at(rom, registers.pc) {
        Err(report) => Err(report),
        Ok(opcode) => match effect(
            rom,
            Registers { pc: following(registers.pc), ..registers },
            Instruction::decode(opcode),
        ) {
            Err(report) => Err(report),
            Ok(done) => Ok((Instruction::decode(opcode), done)),
        },
    }
}

impl Cycles {
    /// Each machine cycle has been counted as four clock cycles.
    pub open spec fn wf(self) -> bool {
        self.clock == CLOCKS_PER_MACHINE_CYCLE * self.machine
    }

    /// Both counters can take one more instruction.
    pub open spec fn spec_has_room(self) -> bool {
        &&& self.machine + MAX_MACHINE_CYCLES <= usize::MAX
        &&& self.clock + CLOCKS_PER_MACHINE_CYCLE * MAX_MACHINE_CYCLES <= usize::MAX
    }

    /// These counters after `machine_cycles` more machine cycles.
    pub open spec fn advanced(self, machine_cycles: usize) -> Cycles {
        Cycles {
            machine: (self.machine + machine_cycles) as usize,
            clock: (self.clock + CLOCKS_PER_MACHINE_CYCLE * machine_cycles) as usize,
        }
    }

    /// Whether both counters can take one more instruction.
    #[verifier::when_used_as_spec(spec_has_room)]
    pub fn has_room(self) -> (room: bool)
        ensures
            room == self.spec_has_room(),
    {
        self.machine <= usize::MAX - MAX_MACHINE_CYCLES && self.clock <= usize::MAX
            - CLOCKS_PER_MACHINE_CYCLE * MAX_MACHINE_CYCLES
    }
}

impl CPU {
    /// A processor at power-on, holding `cartridge`: running, with no cycle
    /// counted yet.
    pub fn new(cartridge: Cartridge) -> (cpu: CPU)
        ensures
            cpu.cartridge == cartridge,
            cpu.registers == Registers::new(),
            cpu.registers.pc == 0x100,
            cpu.registers.wf(),
            cpu.is_running,
            cpu.cycles == (Cycles { machine: 0, clock: 0 }),
            cpu.cycles.wf(),
            cpu.cycles.has_room(),
            cpu.memory@.len() == MAX_RAM,
            forall|address: int| 0 <= address < MAX_RAM ==> cpu.memory@[address] == 0,
    {
        CPU {
            memory: Memory::new(),
            registers: Registers::new(),
            cartridge,
            is_running: true,
            cycles: Cycles { machine: 0, clock: 0 },
        }
    }

    /// Gives the program counter and moves it to the next address.
    pub fn fetch_and_increment_pc(&mut self) -> (pc: u16)
        ensures
            pc == old(self).registers.pc,
            *final(self) == (CPU {
                registers: Registers { pc: following(pc), ..old(self).registers },
                ..*old(self)
            }),
    {
        let pc = self.registers.pc;
        self.registers.pc = pc.wrapping_add(1);
        pc
    }

    /// Moves the program counter to the next address.
    pub fn increment_pc(&mut self)
        ensures
            *final(self) == (CPU {
                registers: Registers {
                    pc: following(old(self).registers.pc),
                    ..old(self).registers
                },
                ..*old(self)
            }),
    {
        self.registers.pc = self.registers.pc.wrapping_add(1);
    }

    /// Reads the byte at the program counter and moves the program counter
    /// past it, whether or not the byte could be read.
    fn fetch_byte(&mut self) -> (byte: Result<u8, NotImplemented>)
        ensures
            byte == read_at(old(self).cartridge.rom@, old(self).registers.pc),
            *final(self) == (CPU {
                registers: Registers {
                    pc: following(old(self).registers.pc),
                    ..old(self).registers
                },
                ..*old(self)
            }),
    {
        let pc = self.fetch_and_increment_pc();
        self.bus_read(pc)
    }

    /// Reads the 16-bit value at the program counter, low byte first, and
    /// moves the program counter past the bytes it tried to read.
    fn fetch_word(&mut self) -> (word: Result<u16, NotImplemented>)
        ensures
            word == word_at(old(self).cartridge.rom@, old(self).registers.pc),
            word is Ok ==> final(self).registers.pc == following(
                following(old(self).registers.pc),
            ),
            *final(self) == (CPU {
                registers: Registers { pc: final(self).registers.pc, ..old(self).registers },
                ..*old(self)
            }),
    {
        match self.fetch_byte() {
            Err(report) => Err(report),
            Ok(lower) => match self.fetch_byte() {
                Err(report) => Err(report),
                Ok(higher) => Ok(concatenate_bytes(lower, higher)),
            },
        }
    }

    /// Reads the displacement at the program counter, moves the program
    /// counter past it, and gives the address that lies the displacement
    /// away from there.
    fn fetch_target(&mut self) -> (target: Result<u16, NotImplemented>)
        ensures
            target == match read_at(old(self).cartridge.rom@, old(self).registers.pc) {
                Err(report) => Err::<u16, NotImplemented>(report),
                Ok(displacement) => Ok(
                    displaced(following(old(self).registers.pc), displacement),
                ),
            },
            *final(self) == (CPU {
                registers: Registers {
                    pc: following(old(self).registers.pc),
                    ..old(self).registers
                },
                ..*old(self)
            }),
    {
        match self.fetch_byte() {
            Err(report) => Err(report),
            Ok(displacement) => {
                let landing = self.registers.pc;
                if displacement < 0x80 {
                    Ok(landing.wrapping_add(displacement as u16))
                } else {
                    Ok(landing.wrapping_sub(0x100 - displacement as u16))
                }
            },
        }
    }

    /// Fetches the opcode at the program counter, decodes it and executes
    /// the instruction.
    ///
    /// On success the registers hold what the instruction left, both cycle
    /// counters have advanced by its cost, and nothing else has changed. A
    /// step that cannot be done is reported, and leaves everything as it was.
    pub fn step(&mut self) -> (result: Result<Executed, NotImplemented>)
        requires
            old(self).cycles.has_room(),
        ensures
            match step_effect(old(self).cartridge.rom@, old(self).registers) {
                Ok((instruction, done)) => {
                    &&& result == Ok::<Executed, NotImplemented>(
                        Executed {
                            pc: old(self).registers.pc,
                            instruction,
                            operand: done.operand,
                            machine_cycles: done.machine_cycles,
                        },
                    )
                    &&& *final(self) == (CPU {
                        registers: done.registers,
                        cycles: old(self).cycles.advanced(done.machine_cycles),
                        ..*old(self)
                    })
                },
                Err(report) => {
                    &&& result == Err::<Executed, NotImplemented>(report)
                    &&& *final(self) == *old(self)
                },
            },
            old(self).cycles.wf() ==> final(self).cycles.wf(),
            old(self).registers.wf() ==> final(self).registers.wf(),
    {
        let saved = self.registers;
        let pc = self.fetch_and_increment_pc();
        match self.bus_read(pc) {
            Err(report) => {
                self.registers = saved;
                Err(report)
            },
            Ok(opcode) => {
                let instruction = Instruction::from_byte(opcode);
                match self.execute(instruction) {
                    Err(report) => {
                        self.registers = saved;
                        Err(report)
                    },
                    Ok(done) => Ok(done),
                }
            },
        }
    }

    /// Executes `instruction`, whose opcode has been fetched: the program
    /// counter is just past it.
    ///
    /// On success the registers hold what the instruction left, both cycle
    /// counters have advanced by its cost, and nothing else has changed. An
    /// instruction that cannot be executed is reported, and leaves
    /// everything as it was.
    pub fn execute(&mut self, instruction: Instruction) -> (result: Result<
        Executed,
        NotImplemented,
    >)
        requires
            old(self).cycles.has_room(),
        ensures
            match effect(old(self).cartridge.rom@, old(self).registers, instruction) {
                Ok(done) => {
                    &&& result == Ok::<Executed, NotImplemented>(
                        Executed {
                            pc: preceding(old(self).registers.pc),
                            instruction,
                            operand: done.operand,
                            machine_cycles: done.machine_cycles,
                        },
                    )
                    &&& *final(self) == (CPU {
                        registers: done.registers,
                        cycles: old(self).cycles.advanced(done.machine_cycles),
                        ..*old(self)
                    })
                    &&& 1 <= done.machine_cycles <= MAX_MACHINE_CYCLES
                },
                Err(report) => {
                    &&& result == Err::<Executed, NotImplemented>(report)
                    &&& *final(self) == *old(self)
                },
            },
            old(self).cycles.wf() ==> final(self).cycles.wf(),
            old(self).registers.wf() ==> final(self).registers.wf(),
    {
        let saved = self.registers;
        let pc = saved.pc.wrapping_sub(1);
        let unsupported = NotImplemented::Operation { instruction, pc };
        let outcome: Result<(Option<u16>, usize), NotImplemented> = match instruction {
            Instruction::NOP => Ok((None, 1)),
            Instruction::STOP => Ok((None, 1)),
            Instruction::LD(a, b) => match (a, b) {
                (Target::A, Target::U8) => match self.fetch_byte() {
                    Err(report) => Err(report),
                    Ok(value) => {
                        self.registers.a = value;
                        Ok((Some(value as u16), 2))
                    },
                },
                (Target::U16, Target::A) => match self.fetch_word() {
                    Err(report) => Err(report),
                    Ok(address) => {
                        let value = self.registers.a;
                        match self.bus_write(address, value) {
                            Err(report) => Err(report),
                            Ok(_) => Ok((Some(address), 4)),
                        }
                    },
                },
                (Target::HL, Target::U16) => match self.fetch_word() {
                    Err(report) => Err(report),
                    Ok(value) => {
                        self.registers.set_hl(value);
                        Ok((Some(value), 3))
                    },
                },
                (Target::C, Target::U8) => match self.fetch_byte() {
                    Err(report) => Err(report),
                    Ok(value) => {
                        self.registers.c = value;
                        Ok((Some(value as u16), 2))
                    },
                },
                (Target::B, Target::U8) => match self.fetch_byte() {
                    Err(report) => Err(report),
                    Ok(value) => {
                        self.registers.b = value;
                        Ok((Some(value as u16), 2))
                    },
                },
                _ => Err(unsupported),
            },
            Instruction::LDD(a, b) => match (a, b) {
                (Target::HL, Target::A) => {
                    let hl = self.registers.get_hl();
                    let value = self.registers.a;
                    match self.bus_write(hl, value) {
                        Err(report) => Err(report),
                        Ok(_) => {
                            self.registers.set_hl(hl.wrapping_sub(1));
                            Ok((None, 2))
                        },
                    }
                },
                _ => Err(unsupported),
            },
            Instruction::ADD(a, _) => Ok((None, if a.is_wide() { 2 } else { 1 })),
            Instruction::INC(target) => Ok((None, if target.is_wide() { 2 } else { 1 })),
            Instruction::DEC(target) => match target {
                Target::B => {
                    let value = self.registers.b;
                    let result = self.alu_sub(value, 1);
                    self.registers.b = result;
                    Ok((None, 1))
                },
                Target::C => {
                    let value = self.registers.c;
                    let result = self.alu_sub(value, 1);
                    self.registers.c = result;
                    Ok((None, 1))
                },
                _ => Err(unsupported),
            },
            Instruction::RLCA => Ok((None, 1)),
            Instruction::RRCA => Ok((None, 1)),
            Instruction::CP(a, b) => match (a, b) {
                (Target::A, Target::U8) => match self.fetch_byte() {
                    Err(report) => Err(report),
                    Ok(value) => {
                        let minuend = self.registers.a;
                        self.alu_sub(minuend, value);
                        Ok((Some(value as u16), 2))
                    },
                },
                _ => Err(unsupported),
            },
            Instruction::JP(target) => match target {
                Target::U16 => match self.fetch_word() {
                    Err(report) => Err(report),
                    Ok(address) => {
                        self.registers.pc = address;
                        Ok((Some(address), 4))
                    },
                },
                _ => Err(unsupported),
            },
            Instruction::XOR(a, b) => match (a, b) {
                (Target::A, Target::A) => {
                    let value = self.registers.a;
                    let result = value ^ value;
                    assert(value ^ value == 0) by (bit_vector);
                    self.registers.a = result;
                    self.registers.set_flag(Flag::Zero, result == 0);
                    self.registers.set_flag(Flag::Negative, false);
                    self.registers.set_flag(Flag::HalfCarry, false);
                    self.registers.set_flag(Flag::Carry, false);
                    Ok((None, 1))
                },
                _ => Err(unsupported),
            },
            Instruction::JR(condition) => {
                let taken = match condition {
                    JRTarget::Z => Some(self.registers.get_flag(Flag::Zero)),
                    JRTarget::NZ => Some(!self.registers.get_flag(Flag::Zero)),
                    JRTarget::C => Some(self.registers.get_flag(Flag::Carry)),
                    JRTarget::NC => Some(!self.registers.get_flag(Flag::Carry)),
                    JRTarget::I8 => Some(true),
                    JRTarget::N => None,
                };
                match taken {
                    None => Err(unsupported),
                    Some(taken) => match self.fetch_target() {
                        Err(report) => Err(report),
                        Ok(target) => {
                            if taken {
                                self.registers.pc = target;
                                Ok((Some(target), 3))
                            } else {
                                Ok((Some(target), 2))
                            }
                        },
                    },
                }
            },
            Instruction::UNKNOWN(_) => Ok((None, 1)),
            _ => Err(unsupported),
        };
        proof {
            lemma_effect_bounds(self.cartridge.rom@, saved, instruction);
        }
        match outcome {
            Err(report) => {
                self.registers = saved;
                Err(report)
            },
            Ok((operand, machine_cycles)) => {
                self.cycles.machine = self.cycles.machine + machine_cycles;
                self.cycles.clock = self.cycles.clock + CLOCKS_PER_MACHINE_CYCLE * machine_cycles;
                Ok(Executed { pc, instruction, operand, machine_cycles })
            },
        }
    }

    /// Marks the processor as stopped.
    pub fn stop(&mut self)
        ensures
            *final(self) == (CPU { is_running: false, ..*old(self) }),
    {
        self.is_running = false;
    }

    /// Marks the processor as running.
    pub fn start(&mut self)
        ensures
            *final(self) == (CPU { is_running: true, ..*old(self) }),
    {
        self.is_running = true;
    }
}

} // verus!
