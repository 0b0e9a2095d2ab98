//! The opcode table: which instruction, in which addressing mode, each
//! opcode byte stands for.
use vstd::prelude::*;
use crate::state::{AddressingMode, operand_length};

verus! {

/// An instruction with its addressing mode.
#[derive(Clone, Copy, Debug, PartialEq, Eq, Structural)]
pub enum Instruction {
    /// LDA
    LoadA(AddressingMode),
    /// LDX
    LoadX(AddressingMode),
    /// LDY
    LoadY(AddressingMode),
    /// STA
    StoreA(AddressingMode),
    /// STX
    StoreX(AddressingMode),
    /// STY
    StoreY(AddressingMode),
    /// INC
    IncrementMemory(AddressingMode),
    /// INX
    IncrementX,
    /// INY
    IncrementY,
    /// DEC
    DecrementMemory(AddressingMode),
    /// DEX
    DecrementX,
    /// DEY
    DecrementY,
    /// ADC
    AddWithCarry(AddressingMode),
    /// SBC
    SubtractWithCarry(AddressingMode),
    /// TAX
    TransferAToX,
    /// TAY
    TransferAToY,
    /// TXA
    TransferXToA,
    /// TYA
    TransferYToA,
    /// TSX
    TransferStackPointerToX,
    /// TXS
    TransferXToStackPointer,
    /// ASL
    ArithmeticShiftLeft(AddressingMode),
    /// LSR
    LogicalShiftRight(AddressingMode),
    /// ROL
    RotateLeft(AddressingMode),
    /// ROR
    RotateRight(AddressingMode),
    /// AND
    BitwiseAnd(AddressingMode),
    /// ORA
    BitwiseOr(AddressingMode),
    /// EOR
    BitwiseExclusiveOr(AddressingMode),
    /// BIT
    BitTest(AddressingMode),
    /// CMP
    CompareA(AddressingMode),
    /// CPX
    CompareX(AddressingMode),
    /// CPY
    CompareY(AddressingMode),
    /// BCC
    BranchIfCarryClear,
    /// BCS
    BranchIfCarrySet,
    /// BEQ
    BranchIfEqual,
    /// BNE
    BranchIfNotEqual,
    /// BPL
    BranchIfPlus,
    /// BMI
    BranchIfMinus,
    /// BVC
    BranchIfOverflowClear,
    /// BVS
    BranchIfOverflowSet,
    /// JMP
    Jump(AddressingMode),
    /// JSR
    JumpToSubroutine,
    /// RTS
    ReturnToSubroutine,
    /// BRK
    Break,
    /// RTI
    ReturnFromInterrupt,
    /// PHA
    PushA,
    /// PLA
    PullA,
    /// PHP
    PushProcessorStatus,
    /// PLP
    PullProcessorStatus,
    /// SEC
    SetCarry,
    /// SEI
    SetInterruptDisable,
    /// SED
    SetDecimal,
    /// CLC
    ClearCarry,
    /// CLI
    ClearInterruptDisable,
    /// CLD
    ClearDecimal,
    /// CLV
    ClearOverflow,
    /// NOP
    NoOperation,
}

/// The instruction an opcode stands for; `None` for a byte that is no opcode.
pub open spec fn instruction_for(opcode: u8) -> Option<Instruction> {
    match opcode {
        0xa9 => Some(Instruction::LoadA(AddressingMode::Immediate)),
        0xa5 => Some(Instruction::LoadA(AddressingMode::ZeroPage)),
        0xb5 => Some(Instruction::LoadA(AddressingMode::ZeroPageX)),
        0xad => Some(Instruction::LoadA(AddressingMode::Absolute)),
        0xbd => Some(Instruction::LoadA(AddressingMode::AbsoluteX)),
        0xb9 => Some(Instruction::LoadA(AddressingMode::AbsoluteY)),
        0xa1 => Some(Instruction::LoadA(AddressingMode::IndirectX)),
        0xb1 => Some(Instruction::LoadA(AddressingMode::IndirectY)),
        0xa2 => Some(Instruction::LoadX(AddressingMode::Immediate)),
        0xa6 => Some(Instruction::LoadX(AddressingMode::ZeroPage)),
        0xb6 => Some(Instruction::LoadX(AddressingMode::ZeroPageY)),
        0xae => Some(Instruction::LoadX(AddressingMode::Absolute)),
        0xbe => Some(Instruction::LoadX(AddressingMode::AbsoluteY)),
        0xa0 => Some(Instruction::LoadY(AddressingMode::Immediate)),
        0xa4 => Some(Instruction::LoadY(AddressingMode::ZeroPage)),
        0xb4 => Some(Instruction::LoadY(AddressingMode::ZeroPageX)),
        0xac => Some(Instruction::LoadY(AddressingMode::Absolute)),
        0xbc => Some(Instruction::LoadY(AddressingMode::AbsoluteX)),
        0x85 => Some(Instruction::StoreA(AddressingMode::ZeroPage)),
        0x95 => Some(Instruction::StoreA(AddressingMode::ZeroPageX)),
        0x8d => Some(Instruction::StoreA(AddressingMode::Absolute)),
        0x9d => Some(Instruction::StoreA(AddressingMode::AbsoluteX)),
        0x99 => Some(Instruction::StoreA(AddressingMode::AbsoluteY)),
        0x81 => Some(Instruction::StoreA(AddressingMode::IndirectX)),
        0x91 => Some(Instruction::StoreA(AddressingMode::IndirectY)),
        0x86 => Some(Instruction::StoreX(AddressingMode::ZeroPage)),
        0x96 => Some(Instruction::StoreX(AddressingMode::ZeroPageY)),
        0x8e => Some(Instruction::StoreX(AddressingMode::Absolute)),
        0x84 => Some(Instruction::StoreY(AddressingMode::ZeroPage)),
        0x94 => Some(Instruction::StoreY(AddressingMode::ZeroPageX)),
        0x8c => Some(Instruction::StoreY(AddressingMode::Absolute)),
        0xe6 => Some(Instruction::IncrementMemory(AddressingMode::ZeroPage)),
        0xf6 => Some(Instruction::IncrementMemory(AddressingMode::ZeroPageX)),
        0xee => Some(Instruction::IncrementMemory(AddressingMode::Absolute)),
        0xfe => Some(Instruction::IncrementMemory(AddressingMode::AbsoluteX)),
        0xe8 => Some(Instruction::IncrementX),
        0xc8 => Some(Instruction::IncrementY),
        0xc6 => Some(Instruction::DecrementMemory(AddressingMode::ZeroPage)),
        0xd6 => Some(Instruction::DecrementMemory(AddressingMode::ZeroPageX)),
        0xce => Some(Instruction::DecrementMemory(AddressingMode::Absolute)),
        0xde => Some(Instruction::DecrementMemory(AddressingMode::AbsoluteX)),
        0xca => Some(Instruction::DecrementX),
        0x88 => Some(Instruction::DecrementY),
        0x69 => Some(Instruction::AddWithCarry(AddressingMode::Immediate)),
        0x65 => Some(Instruction::AddWithCarry(AddressingMode::ZeroPage)),
        0x75 => Some(Instruction::AddWithCarry(AddressingMode::ZeroPageX)),
        0x6d => Some(Instruction::AddWithCarry(AddressingMode::Absolute)),
        0x7d => Some(Instruction::AddWithCarry(AddressingMode::AbsoluteX)),
        0x79 => Some(Instruction::AddWithCarry(AddressingMode::AbsoluteY)),
        0x61 => Some(Instruction::AddWithCarry(AddressingMode::IndirectX)),
        0x71 => Some(Instruction::AddWithCarry(AddressingMode::IndirectY)),
        0xe9 => Some(Instruction::SubtractWithCarry(AddressingMode::Immediate)),
        0xe5 => Some(Instruction::SubtractWithCarry(AddressingMode::ZeroPage)),
        0xf5 => Some(Instruction::SubtractWithCarry(AddressingMode::ZeroPageX)),
        0xed => Some(Instruction::SubtractWithCarry(AddressingMode::Absolute)),
        0xfd => Some(Instruction::SubtractWithCarry(AddressingMode::AbsoluteX)),
        0xf9 => Some(Instruction::SubtractWithCarry(AddressingMode::AbsoluteY)),
        0xe1 => Some(Instruction::SubtractWithCarry(AddressingMode::IndirectX)),
        0xf1 => Some(Instruction::SubtractWithCarry(AddressingMode::IndirectY)),
        0xaa => Some(Instruction::TransferAToX),
        0xa8 => Some(Instruction::TransferAToY),
        0x8a => Some(Instruction::TransferXToA),
        0x98 => Some(Instruction::TransferYToA),
        0xba => Some(Instruction::TransferStackPointerToX),
        0x9a => Some(Instruction::TransferXToStackPointer),
        0x0a => Some(Instruction::ArithmeticShiftLeft(AddressingMode::Accumulator)),
        0x06 => Some(Instruction::ArithmeticShiftLeft(AddressingMode::ZeroPage)),
        0x16 => Some(Instruction::ArithmeticShiftLeft(AddressingMode::ZeroPageX)),
        0x0e => Some(Instruction::ArithmeticShiftLeft(AddressingMode::Absolute)),
        0x1e => Some(Instruction::ArithmeticShiftLeft(AddressingMode::AbsoluteX)),
        0x4a => Some(Instruction::LogicalShiftRight(AddressingMode::Accumulator)),
        0x46 => Some(Instruction::LogicalShiftRight(AddressingMode::ZeroPage)),
        0x56 => Some(Instruction::LogicalShiftRight(AddressingMode::ZeroPageX)),
        0x4e => Some(Instruction::LogicalShiftRight(AddressingMode::Absolute)),
        0x5e => Some(Instruction::LogicalShiftRight(AddressingMode::AbsoluteX)),
        0x2a => Some(Instruction::RotateLeft(AddressingMode::Accumulator)),
        0x26 => Some(Instruction::RotateLeft(AddressingMode::ZeroPage)),
        0x36 => Some(Instruction::RotateLeft(AddressingMode::ZeroPageX)),
        0x2e => Some(Instruction::RotateLeft(AddressingMode::Absolute)),
        0x3e => Some(Instruction::RotateLeft(AddressingMode::AbsoluteX)),
        0x6a => Some(Instruction::RotateRight(AddressingMode::Accumulator)),
        0x66 => Some(Instruction::RotateRight(AddressingMode::ZeroPage)),
        0x76 => Some(Instruction::RotateRight(AddressingMode::ZeroPageX)),
        0x6e => Some(Instruction::RotateRight(AddressingMode::Absolute)),
        0x7e => Some(Instruction::RotateRight(AddressingMode::AbsoluteX)),
        0x29 => Some(Instruction::BitwiseAnd(AddressingMode::Immediate)),
        0x25 => Some(Instruction::BitwiseAnd(AddressingMode::ZeroPage)),
        0x35 => Some(Instruction::BitwiseAnd(AddressingMode::ZeroPageX)),
        0x2d => Some(Instruction::BitwiseAnd(AddressingMode::Absolute)),
        0x3d => Some(Instruction::BitwiseAnd(AddressingMode::AbsoluteX)),
        0x39 => Some(Instruction::BitwiseAnd(AddressingMode::AbsoluteY)),
        0x21 => Some(Instruction::BitwiseAnd(AddressingMode::IndirectX)),
        0x31 => Some(Instruction::BitwiseAnd(AddressingMode::IndirectY)),
        0x09 => Some(Instruction::BitwiseOr(AddressingMode::Immediate)),
        0x05 => Some(Instruction::BitwiseOr(AddressingMode::ZeroPage)),
        0x15 => Some(Instruction::BitwiseOr(AddressingMode::ZeroPageX)),
        0x0d => Some(Instruction::BitwiseOr(AddressingMode::Absolute)),
        0x1d => Some(Instruction::BitwiseOr(AddressingMode::AbsoluteX)),
        0x19 => Some(Instruction::BitwiseOr(AddressingMode::AbsoluteY)),
        0x01 => Some(Instruction::BitwiseOr(AddressingMode::IndirectX)),
        0x11 => Some(Instruction::BitwiseOr(AddressingMode::IndirectY)),
        0x49 => Some(Instruction::BitwiseExclusiveOr(AddressingMode::Immediate)),
        0x45 => Some(Instruction::BitwiseExclusiveOr(AddressingMode::ZeroPage)),
        0x55 => Some(Instruction::BitwiseExclusiveOr(AddressingMode::ZeroPageX)),
        0x4d => Some(Instruction::BitwiseExclusiveOr(AddressingMode::Absolute)),
        0x5d => Some(Instruction::BitwiseExclusiveOr(AddressingMode::AbsoluteX)),
        0x59 => Some(Instruction::BitwiseExclusiveOr(AddressingMode::AbsoluteY)),
        0x41 => Some(Instruction::BitwiseExclusiveOr(AddressingMode::IndirectX)),
        0x51 => Some(Instruction::BitwiseExclusiveOr(AddressingMode::IndirectY)),
        0x24 => Some(Instruction::BitTest(AddressingMode::ZeroPage)),
        0x2c => Some(Instruction::BitTest(AddressingMode::Absolute)),
        0xc9 => Some(Instruction::CompareA(AddressingMode::Immediate)),
        0xc5 => Some(Instruction::CompareA(AddressingMode::ZeroPage)),
        0xd5 => Some(Instruction::CompareA(AddressingMode::ZeroPageX)),
        0xcd => Some(Instruction::CompareA(AddressingMode::Absolute)),
        0xdd => Some(Instruction::CompareA(AddressingMode::AbsoluteX)),
        0xd9 => Some(Instruction::CompareA(AddressingMode::AbsoluteY)),
        0xc1 => Some(Instruction::CompareA(AddressingMode::IndirectX)),
        0xd1 => Some(Instruction::CompareA(AddressingMode::IndirectY)),
        0xe0 => Some(Instruction::CompareX(AddressingMode::Immediate)),
        0xe4 => Some(Instruction::CompareX(AddressingMode::ZeroPage)),
        0xec => Some(Instruction::CompareX(AddressingMode::Absolute)),
        0xc0 => Some(Instruction::CompareY(AddressingMode::Immediate)),
        0xc4 => Some(Instruction::CompareY(AddressingMode::ZeroPage)),
        0xcc => Some(Instruction::CompareY(AddressingMode::Absolute)),
        0x90 => Some(Instruction::BranchIfCarryClear),
        0xb0 => Some(Instruction::BranchIfCarrySet),
        0xf0 => Some(Instruction::BranchIfEqual),
        0xd0 => Some(Instruction::BranchIfNotEqual),
        0x10 => Some(Instruction::BranchIfPlus),
        0x30 => Some(Instruction::BranchIfMinus),
        0x50 => Some(Instruction::BranchIfOverflowClear),
        0x70 => Some(Instruction::BranchIfOverflowSet),
        0x4c => Some(Instruction::Jump(AddressingMode::Absolute)),
        0x6c => Some(Instruction::Jump(AddressingMode::Indirect)),
        0x20 => Some(Instruction::JumpToSubroutine),
        0x60 => Some(Instruction::ReturnToSubroutine),
        0x00 => Some(Instruction::Break),
        0x40 => Some(Instruction::ReturnFromInterrupt),
        0x48 => Some(Instruction::PushA),
        0x68 => Some(Instruction::PullA),
        0x08 => Some(Instruction::PushProcessorStatus),
        0x28 => Some(Instruction::PullProcessorStatus),
        0x38 => Some(Instruction::SetCarry),
        0x78 => Some(Instruction::SetInterruptDisable),
        0xf8 => Some(Instruction::SetDecimal),
        0x18 => Some(Instruction::ClearCarry),
        0x58 => Some(Instruction::ClearInterruptDisable),
        0xd8 => Some(Instruction::ClearDecimal),
        0xb8 => Some(Instruction::ClearOverflow),
        0xea => Some(Instruction::NoOperation),
        _ => None,
    }
}

/// Decodes an opcode byte.
#[verifier::spinoff_prover]
pub fn decode(opcode: u8) -> (instruction: Option<Instruction>)
    ensures
        instruction == instruction_for(opcode),
{
    match opcode {
        0xa9 => Some(Instruction::LoadA(AddressingMode::Immediate)),
        0xa5 => Some(Instruction::LoadA(AddressingMode::ZeroPage)),
        0xb5 => Some(Instruction::LoadA(AddressingMode::ZeroPageX)),
        0xad => Some(Instruction::LoadA(AddressingMode::Absolute)),
        0xbd => Some(Instruction::LoadA(AddressingMode::AbsoluteX)),
        0xb9 => Some(Instruction::LoadA(AddressingMode::AbsoluteY)),
        0xa1 => Some(Instruction::LoadA(AddressingMode::IndirectX)),
        0xb1 => Some(Instruction::LoadA(AddressingMode::IndirectY)),
        0xa2 => Some(Instruction::LoadX(AddressingMode::Immediate)),
        0xa6 => Some(Instruction::LoadX(AddressingMode::ZeroPage)),
        0xb6 => Some(Instruction::LoadX(AddressingMode::ZeroPageY)),
        0xae => Some(Instruction::LoadX(AddressingMode::Absolute)),
        0xbe => Some(Instruction::LoadX(AddressingMode::AbsoluteY)),
        0xa0 => Some(Instruction::LoadY(AddressingMode::Immediate)),
        0xa4 => Some(Instruction::LoadY(AddressingMode::ZeroPage)),
        0xb4 => Some(Instruction::LoadY(AddressingMode::ZeroPageX)),
        0xac => Some(Instruction::LoadY(AddressingMode::Absolute)),
        0xbc => Some(Instruction::LoadY(AddressingMode::AbsoluteX)),
        0x85 => Some(Instruction::StoreA(AddressingMode::ZeroPage)),
        0x95 => Some(Instruction::StoreA(AddressingMode::ZeroPageX)),
        0x8d => Some(Instruction::StoreA(AddressingMode::Absolute)),
        0x9d => Some(Instruction::StoreA(AddressingMode::AbsoluteX)),
        0x99 => Some(Instruction::StoreA(AddressingMode::AbsoluteY)),
        0x81 => Some(Instruction::StoreA(AddressingMode::IndirectX)),
        0x91 => Some(Instruction::StoreA(AddressingMode::IndirectY)),
        0x86 => Some(Instruction::StoreX(AddressingMode::ZeroPage)),
        0x96 => Some(Instruction::StoreX(AddressingMode::ZeroPageY)),
        0x8e => Some(Instruction::StoreX(AddressingMode::Absolute)),
        0x84 => Some(Instruction::StoreY(AddressingMode::ZeroPage)),
        0x94 => Some(Instruction::StoreY(AddressingMode::ZeroPageX)),
        0x8c => Some(Instruction::StoreY(AddressingMode::Absolute)),
        0xe6 => Some(Instruction::IncrementMemory(AddressingMode::ZeroPage)),
        0xf6 => Some(Instruction::IncrementMemory(AddressingMode::ZeroPageX)),
        0xee => Some(Instruction::IncrementMemory(AddressingMode::Absolute)),
        0xfe => Some(Instruction::IncrementMemory(AddressingMode::AbsoluteX)),
        0xe8 => Some(Instruction::IncrementX),
        0xc8 => Some(Instruction::IncrementY),
        0xc6 => Some(Instruction::DecrementMemory(AddressingMode::ZeroPage)),
        0xd6 => Some(Instruction::DecrementMemory(AddressingMode::ZeroPageX)),
        0xce => Some(Instruction::DecrementMemory(AddressingMode::Absolute)),
        0xde => Some(Instruction::DecrementMemory(AddressingMode::AbsoluteX)),
        0xca => Some(Instruction::DecrementX),
        0x88 => Some(Instruction::DecrementY),
        0x69 => Some(Instruction::AddWithCarry(AddressingMode::Immediate)),
        0x65 => Some(Instruction::AddWithCarry(AddressingMode::ZeroPage)),
        0x75 => Some(Instruction::AddWithCarry(AddressingMode::ZeroPageX)),
        0x6d => Some(Instruction::AddWithCarry(AddressingMode::Absolute)),
        0x7d => Some(Instruction::AddWithCarry(AddressingMode::AbsoluteX)),
        0x79 => Some(Instruction::AddWithCarry(AddressingMode::AbsoluteY)),
        0x61 => Some(Instruction::AddWithCarry(AddressingMode::IndirectX)),
        0x71 => Some(Instruction::AddWithCarry(AddressingMode::IndirectY)),
        0xe9 => Some(Instruction::SubtractWithCarry(AddressingMode::Immediate)),
        0xe5 => Some(Instruction::SubtractWithCarry(AddressingMode::ZeroPage)),
        0xf5 => Some(Instruction::SubtractWithCarry(AddressingMode::ZeroPageX)),
        0xed => Some(Instruction::SubtractWithCarry(AddressingMode::Absolute)),
        0xfd => Some(Instruction::SubtractWithCarry(AddressingMode::AbsoluteX)),
        0xf9 => Some(Instruction::SubtractWithCarry(AddressingMode::AbsoluteY)),
        0xe1 => Some(Instruction::SubtractWithCarry(AddressingMode::IndirectX)),
        0xf1 => Some(Instruction::SubtractWithCarry(AddressingMode::IndirectY)),
        0xaa => Some(Instruction::TransferAToX),
        0xa8 => Some(Instruction::TransferAToY),
        0x8a => Some(Instruction::TransferXToA),
        0x98 => Some(Instruction::TransferYToA),
        0xba => Some(Instruction::TransferStackPointerToX),
        0x9a => Some(Instruction::TransferXToStackPointer),
        0x0a => Some(Instruction::ArithmeticShiftLeft(AddressingMode::Accumulator)),
        0x06 => Some(Instruction::ArithmeticShiftLeft(AddressingMode::ZeroPage)),
        0x16 => Some(Instruction::ArithmeticShiftLeft(AddressingMode::ZeroPageX)),
        0x0e => Some(Instruction::ArithmeticShiftLeft(AddressingMode::Absolute)),
        0x1e => Some(Instruction::ArithmeticShiftLeft(AddressingMode::AbsoluteX)),
        0x4a => Some(Instruction::LogicalShiftRight(AddressingMode::Accumulator)),
        0x46 => Some(Instruction::LogicalShiftRight(AddressingMode::ZeroPage)),
        0x56 => Some(Instruction::LogicalShiftRight(AddressingMode::ZeroPageX)),
        0x4e => Some(Instruction::LogicalShiftRight(AddressingMode::Absolute)),
        0x5e => Some(Instruction::LogicalShiftRight(AddressingMode::AbsoluteX)),
        0x2a => Some(Instruction::RotateLeft(AddressingMode::Accumulator)),
        0x26 => Some(Instruction::RotateLeft(AddressingMode::ZeroPage)),
        0x36 => Some(Instruction::RotateLeft(AddressingMode::ZeroPageX)),
        0x2e => Some(Instruction::RotateLeft(AddressingMode::Absolute)),
        0x3e => Some(Instruction::RotateLeft(AddressingMode::AbsoluteX)),
        0x6a => Some(Instruction::RotateRight(AddressingMode::Accumulator)),
        0x66 => Some(Instruction::RotateRight(AddressingMode::ZeroPage)),
        0x76 => Some(Instruction::RotateRight(AddressingMode::ZeroPageX)),
        0x6e => Some(Instruction::RotateRight(AddressingMode::Absolute)),
        0x7e => Some(Instruction::RotateRight(AddressingMode::AbsoluteX)),
        0x29 => Some(Instruction::BitwiseAnd(AddressingMode::Immediate)),
        0x25 => Some(Instruction::BitwiseAnd(AddressingMode::ZeroPage)),
        0x35 => Some(Instruction::BitwiseAnd(AddressingMode::ZeroPageX)),
        0x2d => Some(Instruction::BitwiseAnd(AddressingMode::Absolute)),
        0x3d => Some(Instruction::BitwiseAnd(AddressingMode::AbsoluteX)),
        0x39 => Some(Instruction::BitwiseAnd(AddressingMode::AbsoluteY)),
        0x21 => Some(Instruction::BitwiseAnd(AddressingMode::IndirectX)),
        0x31 => Some(Instruction::BitwiseAnd(AddressingMode::IndirectY)),
        0x09 => Some(Instruction::BitwiseOr(AddressingMode::Immediate)),
        0x05 => Some(Instruction::BitwiseOr(AddressingMode::ZeroPage)),
        0x15 => Some(Instruction::BitwiseOr(AddressingMode::ZeroPageX)),
        0x0d => Some(Instruction::BitwiseOr(AddressingMode::Absolute)),
        0x1d => Some(Instruction::BitwiseOr(AddressingMode::AbsoluteX)),
        0x19 => Some(Instruction::BitwiseOr(AddressingMode::AbsoluteY)),
        0x01 => Some(Instruction::BitwiseOr(AddressingMode::IndirectX)),
        0x11 => Some(Instruction::BitwiseOr(AddressingMode::IndirectY)),
        0x49 => Some(Instruction::BitwiseExclusiveOr(AddressingMode::Immediate)),
        0x45 => Some(Instruction::BitwiseExclusiveOr(AddressingMode::ZeroPage)),
        0x55 => Some(Instruction::BitwiseExclusiveOr(AddressingMode::ZeroPageX)),
        0x4d => Some(Instruction::BitwiseExclusiveOr(AddressingMode::Absolute)),
        0x5d => Some(Instruction::BitwiseExclusiveOr(AddressingMode::AbsoluteX)),
        0x59 => Some(Instruction::BitwiseExclusiveOr(AddressingMode::AbsoluteY)),
        0x41 => Some(Instruction::BitwiseExclusiveOr(AddressingMode::IndirectX)),
        0x51 => Some(Instruction::BitwiseExclusiveOr(AddressingMode::IndirectY)),
        0x24 => Some(Instruction::BitTest(AddressingMode::ZeroPage)),
        0x2c => Some(Instruction::BitTest(AddressingMode::Absolute)),
        0xc9 => Some(Instruction::CompareA(AddressingMode::Immediate)),
        0xc5 => Some(Instruction::CompareA(AddressingMode::ZeroPage)),
        0xd5 => Some(Instruction::CompareA(AddressingMode::ZeroPageX)),
        0xcd => Some(Instruction::CompareA(AddressingMode::Absolute)),
        0xdd => Some(Instruction::CompareA(AddressingMode::AbsoluteX)),
        0xd9 => Some(Instruction::CompareA(AddressingMode::AbsoluteY)),
        0xc1 => Some(Instruction::CompareA(AddressingMode::IndirectX)),
        0xd1 => Some(Instruction::CompareA(AddressingMode::IndirectY)),
        0xe0 => Some(Instruction::CompareX(AddressingMode::Immediate)),
        0xe4 => Some(Instruction::CompareX(AddressingMode::ZeroPage)),
        0xec => Some(Instruction::CompareX(AddressingMode::Absolute)),
        0xc0 => Some(Instruction::CompareY(AddressingMode::Immediate)),
        0xc4 => Some(Instruction::CompareY(AddressingMode::ZeroPage)),
        0xcc => Some(Instruction::CompareY(AddressingMode::Absolute)),
        0x90 => Some(Instruction::BranchIfCarryClear),
        0xb0 => Some(Instruction::BranchIfCarrySet),
        0xf0 => Some(Instruction::BranchIfEqual),
        0xd0 => Some(Instruction::BranchIfNotEqual),
        0x10 => Some(Instruction::BranchIfPlus),
        0x30 => Some(Instruction::BranchIfMinus),
        0x50 => Some(Instruction::BranchIfOverflowClear),
        0x70 => Some(Instruction::BranchIfOverflowSet),
        0x4c => Some(Instruction::Jump(AddressingMode::Absolute)),
        0x6c => Some(Instruction::Jump(AddressingMode::Indirect)),
        0x20 => Some(Instruction::JumpToSubroutine),
        0x60 => Some(Instruction::ReturnToSubroutine),
        0x00 => Some(Instruction::Break),
        0x40 => Some(Instruction::ReturnFromInterrupt),
        0x48 => Some(Instruction::PushA),
        0x68 => Some(Instruction::PullA),
        0x08 => Some(Instruction::PushProcessorStatus),
        0x28 => Some(Instruction::PullProcessorStatus),
        0x38 => Some(Instruction::SetCarry),
        0x78 => Some(Instruction::SetInterruptDisable),
        0xf8 => Some(Instruction::SetDecimal),
        0x18 => Some(Instruction::ClearCarry),
        0x58 => Some(Instruction::ClearInterruptDisable),
        0xd8 => Some(Instruction::ClearDecimal),
        0xb8 => Some(Instruction::ClearOverflow),
        0xea => Some(Instruction::NoOperation),
        _ => None,
    }
}

/// The number of operand bytes of a mode.
fn operand_length_of(mode: AddressingMode) -> (length: u16)
    ensures
        length == operand_length(mode),
{
    match mode {
        AddressingMode::Accumulator | AddressingMode::Indirect => 0,
        AddressingMode::Absolute | AddressingMode::AbsoluteX | AddressingMode::AbsoluteY => 2,
        _ => 1,
    }
}

impl Instruction {
    /// Whether this processor carries the instruction out; the others are
    /// decoded but not executed.
    pub open spec fn spec_is_implemented(&self) -> bool {
        match self {
            Instruction::LogicalShiftRight(_) | 
            Instruction::RotateLeft(_) | 
            Instruction::RotateRight(_) | 
            Instruction::BitwiseAnd(_) | 
            Instruction::BitwiseOr(_) | 
            Instruction::BitwiseExclusiveOr(_) | 
            Instruction::BitTest(_) | 
            Instruction::CompareA(_) | 
            Instruction::CompareX(_) | 
            Instruction::CompareY(_) | 
            Instruction::BranchIfCarryClear | 
            Instruction::BranchIfCarrySet | 
            Instruction::BranchIfEqual | 
            Instruction::BranchIfPlus | 
            Instruction::BranchIfMinus | 
            Instruction::BranchIfOverflowClear | 
            Instruction::BranchIfOverflowSet | 
            Instruction::PushA | 
            Instruction::PullA | 
            Instruction::PushProcessorStatus | 
            Instruction::PullProcessorStatus | 
            Instruction::SetCarry | 
            Instruction::SetDecimal | 
            Instruction::ClearCarry | 
            Instruction::ClearInterruptDisable | 
            Instruction::ClearOverflow => false,
            _ => true,
        }
    }

    #[verifier::when_used_as_spec(spec_is_implemented)]
    pub fn is_implemented(&self) -> (implemented: bool)
        ensures
            implemented == self.spec_is_implemented(),
    {
        match self {
            Instruction::LogicalShiftRight(_) | 
            Instruction::RotateLeft(_) | 
            Instruction::RotateRight(_) | 
            Instruction::BitwiseAnd(_) | 
            Instruction::BitwiseOr(_) | 
            Instruction::BitwiseExclusiveOr(_) | 
            Instruction::BitTest(_) | 
            Instruction::CompareA(_) | 
            Instruction::CompareX(_) | 
            Instruction::CompareY(_) | 
            Instruction::BranchIfCarryClear | 
            Instruction::BranchIfCarrySet | 
            Instruction::BranchIfEqual | 
            Instruction::BranchIfPlus | 
            Instruction::BranchIfMinus | 
            Instruction::BranchIfOverflowClear | 
            Instruction::BranchIfOverflowSet | 
            Instruction::PushA | 
            Instruction::PullA | 
            Instruction::PushProcessorStatus | 
            Instruction::PullProcessorStatus | 
            Instruction::SetCarry | 
            Instruction::SetDecimal | 
            Instruction::ClearCarry | 
            Instruction::ClearInterruptDisable | 
            Instruction::ClearOverflow => false,
            _ => true,
        }
    }

    /// How many bytes after the opcode the instruction reads through `pc`
    /// (ASL on memory fetches its operand twice; JMP and JSR peek at a word
    /// whose second byte lies one further).
    pub open spec fn spec_operand_room(&self) -> u16 {
        match self {
            Instruction::ArithmeticShiftLeft(mode) => (2 * operand_length(*mode)) as u16,
            Instruction::LoadA(mode) | Instruction::LoadX(mode) | Instruction::LoadY(mode)
            | Instruction::StoreA(mode) | Instruction::StoreX(mode) | Instruction::StoreY(mode)
            | Instruction::IncrementMemory(mode) | Instruction::DecrementMemory(mode)
            | Instruction::AddWithCarry(mode) | Instruction::SubtractWithCarry(mode) => operand_length(*mode) as u16,
            Instruction::BranchIfNotEqual | Instruction::Jump(_)
            | Instruction::JumpToSubroutine => 1,
            _ => 0,
        }
    }

    #[verifier::when_used_as_spec(spec_operand_room)]
    pub fn operand_room(&self) -> (room: u16)
        ensures
            room == self.spec_operand_room(),
    {
        match self {
            Instruction::ArithmeticShiftLeft(mode) => 2 * operand_length_of(*mode),
            Instruction::LoadA(mode) | Instruction::LoadX(mode) | Instruction::LoadY(mode)
            | Instruction::StoreA(mode) | Instruction::StoreX(mode) | Instruction::StoreY(mode)
            | Instruction::IncrementMemory(mode) | Instruction::DecrementMemory(mode)
            | Instruction::AddWithCarry(mode) | Instruction::SubtractWithCarry(mode) => operand_length_of(*mode),
            Instruction::BranchIfNotEqual | Instruction::Jump(_)
            | Instruction::JumpToSubroutine => 1,
            _ => 0,
        }
    }
}

} // verus!
