//! A MOS 6502 processor core (the processor of the NES), with each
//! instruction proved against a mathematical model of the processor state.
pub mod state;
pub mod cpu;
pub mod instruction;
pub mod step;
pub mod rom;
pub mod laws;
pub mod opcode_laws;

pub use state::{AddressingMode, CpuState, Flags};
pub use cpu::Cpu;
