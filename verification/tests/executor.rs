use cpu6502::cpu::Cpu6502;
use cpu6502::executor::{
    decode, AddressingMode, Instruction, Operation, StepError, LDA_IMMEDIATE,
};
use cpu6502::status::Flag;

#[test]
fn lda_immediate_opcode_is_a9() {
    assert_eq!(LDA_IMMEDIATE, 0xA9);
}

#[test]
fn decode_knows_load_accumulator_immediate() {
    assert_eq!(
        decode(0xA9),
        Some(Instruction { operation: Operation::LoadAccumulator, mode: AddressingMode::Immediate })
    );
}

#[test]
fn decode_knows_no_other_opcode() {
    for opcode in 0..=255u8 {
        if opcode != 0xA9 {
            assert_eq!(decode(opcode), None);
        }
    }
}

#[test]
fn step_executes_load_accumulator_immediate() {
    let mut cpu = Cpu6502::new();
    cpu.write(0x8000, LDA_IMMEDIATE);
    cpu.write(0x8001, 0x10);
    assert_eq!(cpu.step(), Ok(()));
    assert_eq!(cpu.a, 0x10);
    assert_eq!(cpu.pc, 0x8002);
    assert!(!cpu.flag(Flag::Zero));
    assert!(!cpu.flag(Flag::Negative));
    assert_eq!(cpu.status, 0x24);
    assert_eq!((cpu.x, cpu.y, cpu.sp), (0, 0, 0xFD));
}

#[test]
fn step_load_zero_sets_zero_and_clears_negative() {
    let mut cpu = Cpu6502::new();
    cpu.a = 0x55;
    cpu.status = 0xA4;
    cpu.write(0x8000, LDA_IMMEDIATE);
    cpu.write(0x8001, 0x00);
    assert_eq!(cpu.step(), Ok(()));
    assert_eq!(cpu.a, 0x00);
    assert!(cpu.flag(Flag::Zero));
    assert!(!cpu.flag(Flag::Negative));
    assert_eq!(cpu.status, 0x26);
}

#[test]
fn step_load_0x80_clears_zero_and_sets_negative() {
    let mut cpu = Cpu6502::new();
    cpu.status = 0x26;
    cpu.write(0x8000, LDA_IMMEDIATE);
    cpu.write(0x8001, 0x80);
    assert_eq!(cpu.step(), Ok(()));
    assert_eq!(cpu.a, 0x80);
    assert!(!cpu.flag(Flag::Zero));
    assert!(cpu.flag(Flag::Negative));
    assert_eq!(cpu.status, 0xA4);
}

#[test]
fn step_reports_unimplemented_opcode_after_fetch() {
    let mut cpu = Cpu6502::new();
    cpu.a = 0x33;
    cpu.write(0x8000, 0xEA);
    cpu.write(0x8001, 0x10);
    assert_eq!(cpu.step(), Err(StepError::UnimplementedOpcode(0xEA)));
    assert_eq!(cpu.pc, 0x8001);
    assert_eq!((cpu.a, cpu.x, cpu.y, cpu.sp, cpu.status), (0x33, 0, 0, 0xFD, 0x24));
    assert_eq!(cpu.read(0x8000), 0xEA);
    assert_eq!(cpu.read(0x8001), 0x10);
}

#[test]
fn step_on_zeroed_memory_reports_opcode_zero() {
    let mut cpu = Cpu6502::new();
    assert_eq!(cpu.step(), Err(StepError::UnimplementedOpcode(0x00)));
    assert_eq!(cpu.pc, 0x8001);
}

#[test]
fn step_reports_every_opcode_without_a_table_entry() {
    for opcode in 0..=255u8 {
        let mut cpu = Cpu6502::new();
        cpu.write(0x8000, opcode);
        cpu.write(0x8001, 0x7F);
        let outcome = cpu.step();
        if opcode == LDA_IMMEDIATE {
            assert_eq!(outcome, Ok(()));
            assert_eq!((cpu.a, cpu.pc), (0x7F, 0x8002));
        } else {
            assert_eq!(outcome, Err(StepError::UnimplementedOpcode(opcode)));
            assert_eq!((cpu.a, cpu.pc, cpu.status), (0, 0x8001, 0x24));
        }
    }
}

#[test]
fn step_runs_two_instructions_in_a_row() {
    let mut cpu = Cpu6502::new();
    cpu.write(0x8000, LDA_IMMEDIATE);
    cpu.write(0x8001, 0x01);
    cpu.write(0x8002, LDA_IMMEDIATE);
    cpu.write(0x8003, 0xFE);
    assert_eq!(cpu.step(), Ok(()));
    assert_eq!((cpu.a, cpu.pc, cpu.status), (0x01, 0x8002, 0x24));
    assert_eq!(cpu.step(), Ok(()));
    assert_eq!((cpu.a, cpu.pc, cpu.status), (0xFE, 0x8004, 0xA4));
}

#[test]
fn step_wraps_program_counter_between_opcode_and_operand() {
    let mut cpu = Cpu6502::new();
    cpu.pc = 0xFFFF;
    cpu.write(0xFFFF, LDA_IMMEDIATE);
    cpu.write(0x0000, 0x42);
    assert_eq!(cpu.step(), Ok(()));
    assert_eq!(cpu.a, 0x42);
    assert_eq!(cpu.pc, 0x0001);
}

#[test]
fn step_wraps_program_counter_after_operand() {
    let mut cpu = Cpu6502::new();
    cpu.pc = 0xFFFE;
    cpu.write(0xFFFE, LDA_IMMEDIATE);
    cpu.write(0xFFFF, 0x42);
    assert_eq!(cpu.step(), Ok(()));
    assert_eq!(cpu.a, 0x42);
    assert_eq!(cpu.pc, 0x0000);
}

#[test]
fn fetch_reads_at_pc_and_advances() {
    let mut cpu = Cpu6502::new();
    cpu.write(0x8000, 0x12);
    cpu.write(0x8001, 0x34);
    assert_eq!(cpu.fetch(), 0x12);
    assert_eq!(cpu.pc, 0x8001);
    assert_eq!(cpu.fetch(), 0x34);
    assert_eq!(cpu.pc, 0x8002);
}

#[test]
fn fetch_wraps_program_counter() {
    let mut cpu = Cpu6502::new();
    cpu.pc = 0xFFFF;
    cpu.write(0xFFFF, 0x77);
    assert_eq!(cpu.fetch(), 0x77);
    assert_eq!(cpu.pc, 0x0000);
}

#[test]
fn resolve_immediate_operand_consumes_one_byte() {
    let mut cpu = Cpu6502::new();
    cpu.write(0x8000, 0x5C);
    assert_eq!(cpu.resolve_operand(AddressingMode::Immediate), 0x5C);
    assert_eq!(cpu.pc, 0x8001);
}

#[test]
fn execute_load_accumulator_sets_register_and_flags() {
    let mut cpu = Cpu6502::new();
    cpu.execute(Operation::LoadAccumulator, 0x90);
    assert_eq!((cpu.a, cpu.status, cpu.pc), (0x90, 0xA4, 0x8000));
    cpu.execute(Operation::LoadAccumulator, 0x00);
    assert_eq!((cpu.a, cpu.status, cpu.pc), (0x00, 0x26, 0x8000));
}

#[test]
fn step_load_keeps_other_status_bits() {
    let mut cpu = Cpu6502::new();
    cpu.status = 0x7D;
    cpu.write(0x8000, LDA_IMMEDIATE);
    cpu.write(0x8001, 0x00);
    assert_eq!(cpu.step(), Ok(()));
    assert_eq!(cpu.status, 0x7F);
}
