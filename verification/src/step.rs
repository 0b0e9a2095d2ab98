//! One fetch-decode-execute cycle: the decisions of the processor's main loop.
use vstd::prelude::*;
use crate::cpu::Cpu;
use crate::instruction::{Instruction, decode, instruction_for};
use crate::state::{
    CpuState, Flags, accumulator_read_mode, jump_mode, load_a_mode, load_x_mode, load_y_mode,
    read_modify_write_mode, shift_mode, store_a_mode, store_x_mode, store_y_mode,
};

verus! {

/// The opcode of SEI.
pub const SET_INTERRUPT_DISABLE_OPCODE: u8 = 0x78;

/// Why a step could not be carried out.
#[derive(Clone, Copy, Debug, PartialEq, Eq, Structural)]
pub enum StepError {
    /// The instruction would read past address 0xffff through `pc`.
    ProgramCounterOverflow,
    /// The byte at `pc` is no opcode.
    InvalidInstruction(u8),
    /// The opcode stands for an instruction that this processor does not carry out.
    Unimplemented(u8),
}

impl Instruction {
    /// The addressing mode is one that the instruction accepts.
    pub open spec fn well_formed(self) -> bool {
        match self {
            Instruction::LoadA(mode) => load_a_mode(mode),
            Instruction::AddWithCarry(mode) => accumulator_read_mode(mode),
            Instruction::SubtractWithCarry(mode) => accumulator_read_mode(mode),
            Instruction::LoadX(mode) => load_x_mode(mode),
            Instruction::LoadY(mode) => load_y_mode(mode),
            Instruction::StoreA(mode) => store_a_mode(mode),
            Instruction::StoreX(mode) => store_x_mode(mode),
            Instruction::StoreY(mode) => store_y_mode(mode),
            Instruction::IncrementMemory(mode) => read_modify_write_mode(mode),
            Instruction::DecrementMemory(mode) => read_modify_write_mode(mode),
            Instruction::ArithmeticShiftLeft(mode) => shift_mode(mode),
            Instruction::Jump(mode) => jump_mode(mode),
            _ => true,
        }
    }
}

/// Every instruction of the opcode table has a mode that it accepts.
pub proof fn lemma_decoded_well_formed(opcode: u8)
    ensures
        instruction_for(opcode) matches Some(instruction) ==> instruction.well_formed(),
{
}

impl CpuState {
    /// The effect of an instruction whose operand starts at `pc`.
    pub open spec fn execute(self, instruction: Instruction) -> CpuState {
        match instruction {
            Instruction::LoadA(mode) => self.load_a(mode),
            Instruction::LoadX(mode) => self.load_x(mode),
            Instruction::LoadY(mode) => self.load_y(mode),
            Instruction::StoreA(mode) => self.store_a(mode),
            Instruction::StoreX(mode) => self.store_x(mode),
            Instruction::StoreY(mode) => self.store_y(mode),
            Instruction::IncrementMemory(mode) => self.increment_memory(mode),
            Instruction::IncrementX => self.increment_x(),
            Instruction::IncrementY => self.increment_y(),
            Instruction::DecrementMemory(mode) => self.decrement_memory(mode),
            Instruction::DecrementX => self.decrement_x(),
            Instruction::DecrementY => self.decrement_y(),
            Instruction::AddWithCarry(mode) => self.add_with_carry(mode),
            Instruction::SubtractWithCarry(mode) => self.subtract_with_carry(mode),
            Instruction::TransferAToX => self.transfer_a_to_x(),
            Instruction::TransferAToY => self.transfer_a_to_y(),
            Instruction::TransferXToA => self.transfer_x_to_a(),
            Instruction::TransferYToA => self.transfer_y_to_a(),
            Instruction::TransferStackPointerToX => self.transfer_stack_pointer_to_x(),
            Instruction::TransferXToStackPointer => self.transfer_x_to_stack_pointer(),
            Instruction::ArithmeticShiftLeft(mode) => self.arithmetic_shift_left(mode),
            Instruction::BranchIfNotEqual => self.branch_if_not_equal(),
            Instruction::Jump(mode) => self.jump(mode),
            Instruction::JumpToSubroutine => self.jump_to_subroutine(),
            Instruction::ReturnToSubroutine => self.return_to_subroutine(),
            Instruction::Break => self.break_(),
            Instruction::ReturnFromInterrupt => self.return_from_interrupt(),
            Instruction::SetInterruptDisable => self.set_interrupt_disable(),
            Instruction::ClearDecimal => self.clear_decimal(),
            _ => self,
        }
    }

    /// One cycle: fetch the opcode at `pc`, decode it, carry it out, and then
    /// set the interrupt-disable flag if SEI ran at some earlier point (the
    /// flag follows SEI with a delay of one instruction).
    pub open spec fn step(self) -> Result<CpuState, StepError> {
        if !self.has_room(1) {
            Err(StepError::ProgramCounterOverflow)
        } else {
            let opcode = self.byte_at(self.pc as int);
            let fetched = self.advance(1);
            match instruction_for(opcode) {
                None => Err(StepError::InvalidInstruction(opcode)),
                Some(instruction) => {
                    if !instruction.is_implemented() {
                        Err(StepError::Unimplemented(opcode))
                    } else if !fetched.has_room(instruction.operand_room() as int) {
                        Err(StepError::ProgramCounterOverflow)
                    } else {
                        let done = fetched.execute(instruction);
                        if done.interrupt_disable_called && opcode != SET_INTERRUPT_DISABLE_OPCODE {
                            Ok(
                                CpuState {
                                    flags: Flags { interrupt_disable: true, ..done.flags },
                                    ..done
                                },
                            )
                        } else {
                            Ok(done)
                        }
                    }
                },
            }
        }
    }
}

impl Cpu {
    /// Carries out a decoded instruction whose operand starts at `pc`.
    pub fn execute(&mut self, instruction: Instruction)
        requires
            old(self).wf(),
            instruction.well_formed(),
            instruction.is_implemented(),
            old(self)@.has_room(instruction.operand_room() as int),
        ensures
            final(self).wf(),
            final(self)@ == old(self)@.execute(instruction),
    {
        match instruction {
            Instruction::LoadA(mode) => self.load_a(mode),
            Instruction::LoadX(mode) => self.load_x(mode),
            Instruction::LoadY(mode) => self.load_y(mode),
            Instruction::StoreA(mode) => self.store_a(mode),
            Instruction::StoreX(mode) => self.store_x(mode),
            Instruction::StoreY(mode) => self.store_y(mode),
            Instruction::IncrementMemory(mode) => self.increment_memory(mode),
            Instruction::IncrementX => self.increment_x(),
            Instruction::IncrementY => self.increment_y(),
            Instruction::DecrementMemory(mode) => self.decrement_memory(mode),
            Instruction::DecrementX => self.decrement_x(),
            Instruction::DecrementY => self.decrement_y(),
            Instruction::AddWithCarry(mode) => self.add_with_carry(mode),
            Instruction::SubtractWithCarry(mode) => self.subtract_with_carry(mode),
            Instruction::TransferAToX => self.transfer_a_to_x(),
            Instruction::TransferAToY => self.transfer_a_to_y(),
            Instruction::TransferXToA => self.transfer_x_to_a(),
            Instruction::TransferYToA => self.transfer_y_to_a(),
            Instruction::TransferStackPointerToX => self.transfer_stack_pointer_to_x(),
            Instruction::TransferXToStackPointer => self.transfer_x_to_stack_pointer(),
            Instruction::ArithmeticShiftLeft(mode) => self.arithmetic_shift_left(mode),
            Instruction::BranchIfNotEqual => self.branch_if_not_equal(),
            Instruction::Jump(mode) => self.jump(mode),
            Instruction::JumpToSubroutine => self.jump_to_subroutine(),
            Instruction::ReturnToSubroutine => self.return_to_subroutine(),
            Instruction::Break => self.break_(),
            Instruction::ReturnFromInterrupt => self.return_from_interrupt(),
            Instruction::SetInterruptDisable => self.set_interrupt_disable(),
            Instruction::ClearDecimal => self.clear_decimal(),
            _ => {},
        }
    }

    /// Runs one instruction and returns its opcode. On an error the processor
    /// is left as it was.
    pub fn step(&mut self) -> (result: Result<u8, StepError>)
        requires
            old(self).wf(),
        ensures
            final(self).wf(),
            match old(self)@.step() {
                Ok(next) => result == Ok::<u8, StepError>(old(self)@.byte_at(old(self).pc as int))
                    && final(self)@ == next,
                Err(error) => result == Err::<u8, StepError>(error) && final(self)@ == old(self)@,
            },
    {
        if self.pc == 0xffff {
            return Err(StepError::ProgramCounterOverflow);
        }
        let instruction_byte = self.memory[self.pc as usize];
        proof {
            lemma_decoded_well_formed(instruction_byte);
        }
        let instruction = match decode(instruction_byte) {
            Some(instruction) => instruction,
            None => return Err(StepError::InvalidInstruction(instruction_byte)),
        };
        if !instruction.is_implemented() {
            return Err(StepError::Unimplemented(instruction_byte));
        }
        if instruction.operand_room() > 0xfffe - self.pc {
            return Err(StepError::ProgramCounterOverflow);
        }
        self.read_next_byte();
        self.execute(instruction);
        // Interrupt disable is delayed by one instruction.
        if self.interrupt_disable_called && instruction_byte != SET_INTERRUPT_DISABLE_OPCODE {
            self.flags.interrupt_disable = true;
        }
        Ok(instruction_byte)
    }
}

} // verus!
