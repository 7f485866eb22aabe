//! The instruction executor: one fetch, decode, resolve and execute cycle per
//! step, driven by a fixed table from opcode bytes to operations.

use crate::cpu::Cpu6502;
use crate::machine::{next_address, Machine};
use vstd::prelude::*;

verus! {

/// Opcode byte of load-accumulator with an immediate operand.
pub const LDA_IMMEDIATE: u8 = 0xA9;

/// What an instruction does, apart from where its operand comes from.
#[derive(Clone, Copy, Debug, PartialEq, Eq)]
pub enum Operation {
    /// Copy the operand into the accumulator and update Zero and Negative.
    LoadAccumulator,
}

/// How an instruction finds its operand among the bytes after its opcode.
#[derive(Clone, Copy, Debug, PartialEq, Eq)]
pub enum AddressingMode {
    /// The operand is the byte that follows the opcode.
    Immediate,
}

/// One entry of the opcode table.
#[derive(Clone, Copy, Debug, PartialEq, Eq)]
pub struct Instruction {
    pub operation: Operation,
    pub mode: AddressingMode,
}

/// Why a step did not execute an instruction.
#[derive(Clone, Copy, Debug, PartialEq, Eq)]
pub enum StepError {
    /// The opcode table has no entry for the fetched byte, which is carried
    /// here.
    UnimplementedOpcode(u8),
}

/// The opcode table: the instruction that `opcode` names, if it names one.
pub open spec fn decode_spec(opcode: u8) -> Option<Instruction> {
    if opcode == LDA_IMMEDIATE {
        Some(Instruction { operation: Operation::LoadAccumulator, mode: AddressingMode::Immediate })
    } else {
        None
    }
}

/// Looks `opcode` up in the opcode table.
#[verifier::when_used_as_spec(decode_spec)]
pub fn decode(opcode: u8) -> (entry: Option<Instruction>)
    ensures
        entry == decode_spec(opcode),
{
    if opcode == LDA_IMMEDIATE {
        Some(Instruction { operation: Operation::LoadAccumulator, mode: AddressingMode::Immediate })
    } else {
        None
    }
}

impl Machine {
    /// The byte that the program counter names.
    pub open spec fn byte_at_pc(self) -> u8 {
        self.read(self.pc)
    }

    /// The operand that an instruction of addressing mode `mode` finds, in a
    /// state whose program counter is just past the opcode.
    pub open spec fn operand(self, mode: AddressingMode) -> u8 {
        match mode {
            AddressingMode::Immediate => self.byte_at_pc(),
        }
    }

    /// The state after the operand bytes of addressing mode `mode` have been
    /// consumed.
    pub open spec fn resolve(self, mode: AddressingMode) -> Machine {
        match mode {
            AddressingMode::Immediate => self.advance(),
        }
    }

    /// The state after `operation` has acted on `operand`.
    pub open spec fn execute(self, operation: Operation, operand: u8) -> Machine {
        match operation {
            Operation::LoadAccumulator => self.load_accumulator(operand),
        }
    }

    /// The state after one step. The opcode is consumed in every case; where
    /// the table has no entry for it, nothing else changes.
    pub open spec fn step(self) -> Machine {
        let fetched = self.advance();
        match decode_spec(self.byte_at_pc()) {
            Some(entry) => fetched.resolve(entry.mode).execute(
                entry.operation,
                fetched.operand(entry.mode),
            ),
            None => fetched,
        }
    }

    /// What one step reports: success, or the opcode that the table lacks.
    pub open spec fn step_outcome(self) -> Result<(), StepError> {
        match decode_spec(self.byte_at_pc()) {
            Some(_) => Ok(()),
            None => Err(StepError::UnimplementedOpcode(self.byte_at_pc())),
        }
    }
}

impl Cpu6502 {
    /// Reads the byte at the program counter and moves the program counter
    /// past it, from `0xFFFF` to `0x0000`.
    pub fn fetch(&mut self) -> (byte: u8)
        ensures
            byte == old(self)@.byte_at_pc(),
            final(self)@ == old(self)@.advance(),
    {
        let byte: u8 = self.read(self.pc);
        self.pc = self.pc.wrapping_add(1);
        byte
    }

    /// Consumes the operand bytes of addressing mode `mode` and returns the
    /// operand.
    pub fn resolve_operand(&mut self, mode: AddressingMode) -> (operand: u8)
        ensures
            operand == old(self)@.operand(mode),
            final(self)@ == old(self)@.resolve(mode),
    {
        match mode {
            AddressingMode::Immediate => self.fetch(),
        }
    }

    /// Performs `operation` on `operand`.
    pub fn execute(&mut self, operation: Operation, operand: u8)
        ensures
            final(self)@ == old(self)@.execute(operation, operand),
    {
        match operation {
            Operation::LoadAccumulator => self.lda_immediate(operand),
        }
    }

    /// Executes one instruction: fetches the opcode at the program counter,
    /// looks it up, consumes its operand and performs its operation. Where
    /// the opcode table has no entry for the fetched byte, the step fails
    /// with that byte, and the state is as it was after the fetch: the
    /// program counter is past the opcode and nothing else has changed.
    pub fn step(&mut self) -> (outcome: Result<(), StepError>)
        ensures
            final(self)@ == old(self)@.step(),
            outcome == old(self)@.step_outcome(),
            outcome is Ok <==> decode_spec(old(self)@.byte_at_pc()) is Some,
            outcome is Err ==> outcome == Err::<(), StepError>(
                StepError::UnimplementedOpcode(old(self)@.byte_at_pc()),
            ) && final(self)@ == old(self)@.advance(),
            old(self)@.byte_at_pc() == LDA_IMMEDIATE ==> outcome is Ok && final(self)@ == old(
                self,
            )@.advance().advance().load_accumulator(old(self)@.read(next_address(old(self).pc))),
    {
        let opcode: u8 = self.fetch();
        match decode(opcode) {
            Some(entry) => {
                let operand: u8 = self.resolve_operand(entry.mode);
                self.execute(entry.operation, operand);
                Ok(())
            },
            None => Err(StepError::UnimplementedOpcode(opcode)),
        }
    }
}

} // verus!
