use gameboy_rust_webassembly_emulator::hardware::cartridge::Cartridge;
use gameboy_rust_webassembly_emulator::hardware::cpu::instructions::{Instruction, JRTarget, Target};
use gameboy_rust_webassembly_emulator::hardware::cpu::registers::flags::Flag;
use gameboy_rust_webassembly_emulator::hardware::cpu::registers::Registers;
use gameboy_rust_webassembly_emulator::hardware::cpu::{
    Cycles, Executed, NotImplemented, CPU, CLOCKS_PER_MACHINE_CYCLE, MAX_MACHINE_CYCLES,
};

fn cpu_with_program(program: &[u8]) -> CPU {
    let mut image = vec![0u8; 0x1_0000];
    image[0x100..0x100 + program.len()].copy_from_slice(program);
    let cartridge = Cartridge::load(String::from("program.gb"), image).unwrap();
    CPU::new(cartridge)
}

fn counted(machine: usize) -> Cycles {
    Cycles { machine, clock: 4 * machine }
}

#[test]
fn new_cpu_is_at_power_on() {
    let cpu = cpu_with_program(&[]);
    assert_eq!(cpu.registers, Registers::new());
    assert_eq!(cpu.registers.pc, 0x100);
    assert!(cpu.is_running);
    assert_eq!(cpu.cycles, Cycles { machine: 0, clock: 0 });
    assert_eq!(cpu.memory.length(), 0x1_0000);
    assert_eq!(cpu.cartridge.filename, "program.gb");
}

#[test]
fn jump_sets_pc_and_costs_four_machine_cycles() {
    let mut cpu = cpu_with_program(&[0xC3, 0x00, 0x02]);
    let done = cpu.step();
    assert_eq!(
        done,
        Ok(Executed {
            pc: 0x0100,
            instruction: Instruction::JP(Target::U16),
            operand: Some(0x0200),
            machine_cycles: 4,
        })
    );
    assert_eq!(cpu.registers.pc, 0x0200);
    assert_eq!(cpu.cycles, Cycles { machine: 4, clock: 16 });
    assert_eq!(cpu.registers, Registers { pc: 0x0200, ..Registers::new() });
}

#[test]
fn decrement_b_down_to_zero_and_around() {
    let mut cpu = cpu_with_program(&[]);
    cpu.registers.b = 0x05;
    for expected in [0x04u8, 0x03, 0x02, 0x01] {
        let instruction = Instruction::from_byte(0x05);
        assert!(cpu.execute(instruction).is_ok());
        assert_eq!(cpu.registers.b, expected);
        assert!(!cpu.registers.get_flag(Flag::Zero));
    }
    assert!(cpu.execute(Instruction::from_byte(0x05)).is_ok());
    assert_eq!(cpu.registers.b, 0x00);
    assert!(cpu.registers.get_flag(Flag::Zero));
    assert!(cpu.registers.get_flag(Flag::Negative));
    assert!(cpu.execute(Instruction::from_byte(0x05)).is_ok());
    assert_eq!(cpu.registers.b, 0xFF);
    assert!(!cpu.registers.get_flag(Flag::Zero));
    assert!(cpu.registers.get_flag(Flag::Carry));
    assert_eq!(cpu.cycles, counted(6));
}

#[test]
fn decrement_c() {
    let mut cpu = cpu_with_program(&[0x0D]);
    cpu.registers.c = 0x10;
    let done = cpu.step().unwrap();
    assert_eq!(done.instruction, Instruction::DEC(Target::C));
    assert_eq!(done.operand, None);
    assert_eq!(done.machine_cycles, 1);
    assert_eq!(cpu.registers.c, 0x0F);
    assert_eq!(cpu.registers.f, 0b0100_0000);
    assert_eq!(cpu.registers.pc, 0x0101);
}

#[test]
fn load_immediate_bytes() {
    let mut cpu = cpu_with_program(&[0x3E, 0x12, 0x06, 0x34, 0x0E, 0x56]);
    assert_eq!(
        cpu.step(),
        Ok(Executed {
            pc: 0x0100,
            instruction: Instruction::LD(Target::A, Target::U8),
            operand: Some(0x12),
            machine_cycles: 2,
        })
    );
    assert_eq!(cpu.step().unwrap().operand, Some(0x34));
    assert_eq!(cpu.step().unwrap().operand, Some(0x56));
    assert_eq!(
        cpu.registers,
        Registers { a: 0x12, b: 0x34, c: 0x56, pc: 0x0106, ..Registers::new() }
    );
    assert_eq!(cpu.cycles, counted(6));
}

#[test]
fn load_hl_immediate_is_little_endian() {
    let mut cpu = cpu_with_program(&[0x21, 0xFF, 0xDF]);
    let done = cpu.step().unwrap();
    assert_eq!(done.operand, Some(0xDFFF));
    assert_eq!(done.machine_cycles, 3);
    assert_eq!(cpu.registers.get_hl(), 0xDFFF);
    assert_eq!((cpu.registers.h, cpu.registers.l), (0xDF, 0xFF));
    assert_eq!(cpu.registers.pc, 0x0103);
    assert_eq!(cpu.cycles, Cycles { machine: 3, clock: 12 });
}

#[test]
fn store_a_at_immediate_address_in_rom_is_ignored() {
    let mut cpu = cpu_with_program(&[0xEA, 0x34, 0x12]);
    cpu.registers.a = 0x77;
    let image = cpu.cartridge.rom.clone();
    let done = cpu.step().unwrap();
    assert_eq!(done.instruction, Instruction::LD(Target::U16, Target::A));
    assert_eq!(done.operand, Some(0x1234));
    assert_eq!(done.machine_cycles, 4);
    assert_eq!(cpu.registers.pc, 0x0103);
    assert_eq!(cpu.cartridge.rom, image);
    assert_eq!(cpu.bus_read(0x1234), Ok(0x00));
}

#[test]
fn store_a_at_unbacked_address_is_reported_and_changes_nothing() {
    let mut cpu = cpu_with_program(&[0xEA, 0x00, 0xC0]);
    cpu.registers.a = 0x77;
    let before = cpu.registers;
    assert_eq!(cpu.step(), Err(NotImplemented::BusWrite { address: 0xC000 }));
    assert_eq!(cpu.registers, before);
    assert_eq!(cpu.cycles, counted(0));
}

#[test]
fn store_and_decrement_through_hl() {
    let mut cpu = cpu_with_program(&[0x32]);
    cpu.registers.set_hl(0x2000);
    cpu.registers.a = 0x99;
    let done = cpu.step().unwrap();
    assert_eq!(done.instruction, Instruction::LDD(Target::HL, Target::A));
    assert_eq!(done.operand, None);
    assert_eq!(done.machine_cycles, 2);
    assert_eq!(cpu.registers.get_hl(), 0x1FFF);
    assert_eq!(cpu.registers.a, 0x99);
    assert_eq!(cpu.registers.pc, 0x0101);
}

#[test]
fn store_and_decrement_wraps_hl_at_zero() {
    let mut cpu = cpu_with_program(&[0x32]);
    cpu.registers.set_hl(0x0000);
    assert!(cpu.step().is_ok());
    assert_eq!(cpu.registers.get_hl(), 0xFFFF);
}

#[test]
fn store_and_decrement_outside_rom_is_reported() {
    let mut cpu = cpu_with_program(&[0x32]);
    cpu.registers.set_hl(0xDFFF);
    let before = cpu.registers;
    assert_eq!(cpu.step(), Err(NotImplemented::BusWrite { address: 0xDFFF }));
    assert_eq!(cpu.registers, before);
    assert_eq!(cpu.registers.get_hl(), 0xDFFF);
    assert_eq!(cpu.cycles, counted(0));
}

#[test]
fn compare_sets_flags_and_keeps_a() {
    let mut cpu = cpu_with_program(&[0xFE, 0x90, 0xFE, 0x3C, 0xFE, 0x40]);
    cpu.registers.a = 0x3C;
    let done = cpu.step().unwrap();
    assert_eq!(done.instruction, Instruction::CP(Target::A, Target::U8));
    assert_eq!(done.operand, Some(0x90));
    assert_eq!(done.machine_cycles, 2);
    assert_eq!(cpu.registers.a, 0x3C);
    assert_eq!(cpu.registers.f, 0b0111_0000);
    assert!(cpu.step().is_ok());
    assert_eq!(cpu.registers.f, 0b1100_0000);
    assert!(cpu.step().is_ok());
    assert_eq!(cpu.registers.f, 0b0111_0000);
    assert_eq!(cpu.registers.a, 0x3C);
    assert_eq!(cpu.registers.pc, 0x0106);
}

#[test]
fn xor_a_clears_a_and_sets_only_zero() {
    let mut cpu = cpu_with_program(&[0xAF]);
    cpu.registers.a = 0x5A;
    cpu.registers.f = 0b0111_0000;
    let done = cpu.step().unwrap();
    assert_eq!(done.instruction, Instruction::XOR(Target::A, Target::A));
    assert_eq!(done.machine_cycles, 1);
    assert_eq!(cpu.registers.a, 0x00);
    assert_eq!(cpu.registers.f, 0b1000_0000);
    assert_eq!(cpu.registers.pc, 0x0101);
}

#[test]
fn relative_jump_forward() {
    let mut cpu = cpu_with_program(&[0x18, 0x05]);
    let done = cpu.step().unwrap();
    assert_eq!(done.instruction, Instruction::JR(JRTarget::I8));
    assert_eq!(done.operand, Some(0x0107));
    assert_eq!(done.machine_cycles, 3);
    assert_eq!(cpu.registers.pc, 0x0107);
}

#[test]
fn relative_jump_backward() {
    let mut cpu = cpu_with_program(&[0x18, 0xFE]);
    assert!(cpu.step().is_ok());
    assert_eq!(cpu.registers.pc, 0x0100);
    let mut cpu = cpu_with_program(&[0x18, 0x80]);
    assert!(cpu.step().is_ok());
    assert_eq!(cpu.registers.pc, 0x0082);
    let mut cpu = cpu_with_program(&[0x18, 0x7F]);
    assert!(cpu.step().is_ok());
    assert_eq!(cpu.registers.pc, 0x0181);
}

#[test]
fn relative_jump_on_zero() {
    let mut cpu = cpu_with_program(&[0x28, 0x10]);
    cpu.registers.set_flag(Flag::Zero, true);
    let done = cpu.step().unwrap();
    assert_eq!(done.operand, Some(0x0112));
    assert_eq!(done.machine_cycles, 3);
    assert_eq!(cpu.registers.pc, 0x0112);

    let mut cpu = cpu_with_program(&[0x28, 0x10]);
    let done = cpu.step().unwrap();
    assert_eq!(done.operand, Some(0x0112));
    assert_eq!(done.machine_cycles, 2);
    assert_eq!(cpu.registers.pc, 0x0102);
    assert_eq!(cpu.cycles, Cycles { machine: 2, clock: 8 });
}

#[test]
fn relative_jump_on_not_zero() {
    let mut cpu = cpu_with_program(&[0x20, 0xFC]);
    let done = cpu.step().unwrap();
    assert_eq!(done.instruction, Instruction::JR(JRTarget::NZ));
    assert_eq!(done.operand, Some(0x00FE));
    assert_eq!(cpu.registers.pc, 0x00FE);

    let mut cpu = cpu_with_program(&[0x20, 0xFC]);
    cpu.registers.set_flag(Flag::Zero, true);
    assert!(cpu.step().is_ok());
    assert_eq!(cpu.registers.pc, 0x0102);
}

#[test]
fn relative_jump_on_carry_and_not_carry() {
    for (condition, carry, taken) in [
        (JRTarget::C, true, true),
        (JRTarget::C, false, false),
        (JRTarget::NC, true, false),
        (JRTarget::NC, false, true),
    ] {
        let mut cpu = cpu_with_program(&[0x00, 0xF0]);
        cpu.registers.pc = 0x0101;
        cpu.registers.set_flag(Flag::Carry, carry);
        let done = cpu.execute(Instruction::JR(condition)).unwrap();
        assert_eq!(done.pc, 0x0100);
        assert_eq!(done.operand, Some(0x00F2));
        assert_eq!(done.machine_cycles, if taken { 3 } else { 2 });
        assert_eq!(cpu.registers.pc, if taken { 0x00F2 } else { 0x0102 });
    }
}

#[test]
fn relative_jump_without_condition_code_is_reported() {
    let mut cpu = cpu_with_program(&[]);
    cpu.registers.pc = 0x0101;
    let before = cpu.registers;
    assert_eq!(
        cpu.execute(Instruction::JR(JRTarget::N)),
        Err(NotImplemented::Operation { instruction: Instruction::JR(JRTarget::N), pc: 0x0100 })
    );
    assert_eq!(cpu.registers, before);
}

#[test]
fn unknown_opcode_is_a_reported_no_op() {
    let mut cpu = cpu_with_program(&[0xD3, 0x00]);
    let done = cpu.step().unwrap();
    assert_eq!(
        done,
        Executed {
            pc: 0x0100,
            instruction: Instruction::UNKNOWN(0xD3),
            operand: None,
            machine_cycles: 1
        }
    );
    assert_eq!(cpu.registers, Registers { pc: 0x0101, ..Registers::new() });
    let done = cpu.step().unwrap();
    assert_eq!(done.instruction, Instruction::NOP);
    assert_eq!(cpu.registers.pc, 0x0102);
    assert_eq!(cpu.cycles, counted(2));
}

#[test]
fn instructions_that_only_pass_time() {
    for (opcode, instruction, machine_cycles) in [
        (0x00u8, Instruction::NOP, 1usize),
        (0x10, Instruction::STOP, 1),
        (0x07, Instruction::RLCA, 1),
        (0x0F, Instruction::RRCA, 1),
        (0x03, Instruction::INC(Target::BC), 2),
        (0x04, Instruction::INC(Target::B), 1),
        (0x0C, Instruction::INC(Target::C), 1),
        (0x09, Instruction::ADD(Target::HL, Target::BC), 2),
    ] {
        let mut cpu = cpu_with_program(&[opcode]);
        cpu.registers.a = 0x11;
        cpu.registers.b = 0x22;
        cpu.registers.c = 0x33;
        cpu.registers.f = 0xF0;
        let before = cpu.registers;
        assert_eq!(
            cpu.step(),
            Ok(Executed { pc: 0x0100, instruction, operand: None, machine_cycles })
        );
        assert_eq!(cpu.registers, Registers { pc: 0x0101, ..before });
        assert_eq!(cpu.cycles, counted(machine_cycles));
    }
}

#[test]
fn instructions_without_a_rule_are_reported_and_change_nothing() {
    for opcode in [0x01u8, 0x02, 0x08, 0x0A, 0x0B, 0xE0, 0xF3] {
        let mut cpu = cpu_with_program(&[opcode, 0x12, 0x34]);
        cpu.registers.a = 0x11;
        cpu.registers.f = 0x50;
        let before = cpu.registers;
        let instruction = Instruction::from_byte(opcode);
        assert_eq!(cpu.step(), Err(NotImplemented::Operation { instruction, pc: 0x0100 }));
        assert_eq!(cpu.registers, before);
        assert_eq!(cpu.cycles, counted(0));
        assert!(cpu.is_running);
    }
}

#[test]
fn operand_combinations_without_a_rule_are_reported() {
    for instruction in [
        Instruction::LD(Target::D, Target::U8),
        Instruction::LD(Target::A, Target::B),
        Instruction::LDD(Target::A, Target::HL),
        Instruction::LDI(Target::HL, Target::A),
        Instruction::DEC(Target::A),
        Instruction::DEC(Target::HL),
        Instruction::CP(Target::A, Target::B),
        Instruction::JP(Target::HL),
        Instruction::XOR(Target::A, Target::B),
        Instruction::DI,
    ] {
        let mut cpu = cpu_with_program(&[0x00, 0x12, 0x34]);
        cpu.registers.pc = 0x0101;
        let before = cpu.registers;
        assert_eq!(
            cpu.execute(instruction),
            Err(NotImplemented::Operation { instruction, pc: 0x0100 })
        );
        assert_eq!(cpu.registers, before);
        assert_eq!(cpu.cycles, counted(0));
    }
}

#[test]
fn stepping_goes_on_after_a_report() {
    let mut cpu = cpu_with_program(&[0xF3, 0x3E, 0x07]);
    assert!(cpu.step().is_err());
    assert_eq!(cpu.registers.pc, 0x0100);
    assert!(cpu.step().is_err());
    cpu.increment_pc();
    assert_eq!(cpu.step().unwrap().operand, Some(0x07));
    assert_eq!(cpu.registers.a, 0x07);
    assert_eq!(cpu.registers.pc, 0x0103);
}

#[test]
fn opcode_fetch_outside_rom_is_reported() {
    let mut cpu = cpu_with_program(&[]);
    cpu.registers.pc = 0xC000;
    let before = cpu.registers;
    assert_eq!(cpu.step(), Err(NotImplemented::BusRead { address: 0xC000 }));
    assert_eq!(cpu.registers, before);
}

#[test]
fn operand_fetch_outside_rom_is_reported_and_changes_nothing() {
    let mut image = vec![0u8; 0x4000];
    image[0x3FFF] = 0x3E;
    image[0x3FFE] = 0xC3;
    let cartridge = Cartridge::load(String::from("edge.gb"), image).unwrap();
    let mut cpu = CPU::new(cartridge);
    cpu.registers.pc = 0x3FFF;
    let before = cpu.registers;
    assert_eq!(cpu.step(), Err(NotImplemented::BusRead { address: 0x4000 }));
    assert_eq!(cpu.registers, before);
    cpu.registers.pc = 0x3FFE;
    assert_eq!(cpu.step(), Err(NotImplemented::BusRead { address: 0x4000 }));
    assert_eq!(cpu.registers.pc, 0x3FFE);
    assert_eq!(cpu.cycles, counted(0));
}

#[test]
fn fetch_past_the_end_of_a_short_image_is_reported() {
    let mut image = vec![0u8; 0x150];
    image[0x14F] = 0x3E;
    let cartridge = Cartridge::load(String::from("short.gb"), image).unwrap();
    let mut cpu = CPU::new(cartridge);
    cpu.registers.pc = 0x014F;
    assert_eq!(cpu.step(), Err(NotImplemented::BusRead { address: 0x0150 }));
    assert_eq!(cpu.registers.pc, 0x014F);
    cpu.registers.pc = 0x0150;
    assert_eq!(cpu.step(), Err(NotImplemented::BusRead { address: 0x0150 }));
}

#[test]
fn fetch_and_increment_pc_gives_the_old_pc() {
    let mut cpu = cpu_with_program(&[]);
    assert_eq!(cpu.fetch_and_increment_pc(), 0x0100);
    assert_eq!(cpu.registers.pc, 0x0101);
    cpu.increment_pc();
    assert_eq!(cpu.registers.pc, 0x0102);
    assert_eq!(cpu.registers, Registers { pc: 0x0102, ..Registers::new() });
}

#[test]
fn pc_wraps_at_the_end_of_the_address_space() {
    let mut cpu = cpu_with_program(&[]);
    cpu.registers.pc = 0xFFFF;
    assert_eq!(cpu.fetch_and_increment_pc(), 0xFFFF);
    assert_eq!(cpu.registers.pc, 0x0000);
    cpu.registers.pc = 0xFFFF;
    cpu.increment_pc();
    assert_eq!(cpu.registers.pc, 0x0000);
}

#[test]
fn execute_reports_the_address_before_pc() {
    let mut cpu = cpu_with_program(&[]);
    cpu.registers.pc = 0x0000;
    assert_eq!(cpu.execute(Instruction::NOP).unwrap().pc, 0xFFFF);
    assert_eq!(cpu.registers.pc, 0x0000);
}

#[test]
fn stop_and_start() {
    let mut cpu = cpu_with_program(&[]);
    cpu.stop();
    assert!(!cpu.is_running);
    cpu.stop();
    assert!(!cpu.is_running);
    cpu.start();
    assert!(cpu.is_running);
    assert_eq!(cpu.registers, Registers::new());
    assert_eq!(cpu.cycles, counted(0));
}

#[test]
fn cycles_count_four_clocks_per_machine_cycle() {
    assert_eq!(CLOCKS_PER_MACHINE_CYCLE, 4);
    assert_eq!(MAX_MACHINE_CYCLES, 4);
    let mut cpu = cpu_with_program(&[0x00, 0x3E, 0x01, 0x21, 0x00, 0x20, 0x32, 0xC3, 0x00, 0x01]);
    let mut machine: usize = 0;
    for _ in 0..5 {
        let done = cpu.step().unwrap();
        machine += done.machine_cycles;
        assert_eq!(cpu.cycles, Cycles { machine, clock: 4 * machine });
    }
    assert_eq!(machine, 1 + 2 + 3 + 2 + 4);
    assert_eq!(cpu.registers.pc, 0x0100);
}

#[test]
fn cycles_have_room_until_the_counters_are_nearly_full() {
    assert!(Cycles { machine: 0, clock: 0 }.has_room());
    assert!(Cycles { machine: usize::MAX - 4, clock: usize::MAX - 16 }.has_room());
    assert!(!Cycles { machine: usize::MAX - 3, clock: 0 }.has_room());
    assert!(!Cycles { machine: 0, clock: usize::MAX - 15 }.has_room());
}

#[test]
fn small_program_runs_to_its_loop_exit() {
    let mut cpu = cpu_with_program(&[
        0x06, 0x03, // LD B, 3
        0x05, // DEC B
        0x20, 0xFD, // JR NZ, -3
        0xAF, // XOR A, A
        0xC3, 0x00, 0x02, // JP 0x0200
    ]);
    let mut steps: usize = 0;
    while cpu.registers.pc != 0x0200 {
        assert!(cpu.step().is_ok());
        steps += 1;
        assert!(steps < 100);
    }
    assert_eq!(steps, 1 + 3 * 2 + 2);
    assert_eq!(cpu.registers.b, 0);
    assert_eq!(cpu.registers.a, 0);
    assert_eq!(cpu.registers.f, 0b1000_0000);
    assert_eq!(cpu.cycles, counted(2 + 3 * 1 + 2 * 3 + 2 + 1 + 4));
}
