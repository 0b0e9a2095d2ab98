//! Power-on: a processor whose memory holds the program banks of an iNES
//! ROM image, with `pc` taken from the reset vector.
use vstd::prelude::*;
use crate::cpu::Cpu;
use crate::state::{CpuState, Flags, MEMORY_SIZE, le_word};

verus! {

/// Size of the iNES header.
pub const HEADER_SIZE: usize = 16;

/// Size of one program (PRG-ROM) bank.
pub const PROGRAM_BANK_SIZE: usize = 16_384;

/// Where the program is loaded.
pub const PROGRAM_START: usize = 0x8000;

/// Stack pointer after power-on.
pub const POWER_ON_STACK_POINTER: u8 = 0xfd;

/// Why a ROM image cannot be loaded.
#[derive(Clone, Copy, Debug, PartialEq, Eq, Structural)]
pub enum RomError {
    /// The image is too short to hold the bank count (byte 4 of the header).
    MissingHeader,
    /// The image ends before the program banks that the header announces.
    TruncatedProgram,
    /// The program banks do not fit between 0x8000 and the end of memory.
    ProgramTooLarge,
}

/// Number of program bytes that the header announces.
pub open spec fn program_size(rom: Seq<u8>) -> int {
    rom[4] * PROGRAM_BANK_SIZE
}

/// The error that loading `rom` gives, if any.
pub open spec fn rom_error(rom: Seq<u8>) -> Option<RomError> {
    if rom.len() < 5 {
        Some(RomError::MissingHeader)
    } else if rom.len() < HEADER_SIZE + program_size(rom) {
        Some(RomError::TruncatedProgram)
    } else if program_size(rom) > MEMORY_SIZE - PROGRAM_START {
        Some(RomError::ProgramTooLarge)
    } else {
        None
    }
}

/// Memory after power-on: the program bytes from 0x8000 on, zero elsewhere.
pub open spec fn power_on_memory(rom: Seq<u8>) -> Seq<u8> {
    Seq::new(
        MEMORY_SIZE as nat,
        |i: int|
            if PROGRAM_START <= i < PROGRAM_START + program_size(rom) {
                rom[HEADER_SIZE + i - PROGRAM_START]
            } else {
                0u8
            },
    )
}

/// The processor after power-on with `rom` loaded.
pub open spec fn power_on_state(rom: Seq<u8>) -> CpuState {
    let memory = power_on_memory(rom);
    CpuState {
        a: 0,
        x: 0,
        y: 0,
        pc: le_word(memory[0xfffc], memory[0xfffd]),
        sp: POWER_ON_STACK_POINTER,
        flags: Flags::power_on(),
        memory,
        interrupt_disable_called: false,
    }
}

impl Cpu {
    /// A processor switched on with the iNES image `rom_bytes` loaded.
    pub fn new(rom_bytes: &[u8]) -> (result: Result<Cpu, RomError>)
        ensures
            match rom_error(rom_bytes@) {
                Some(error) => result == Err::<Cpu, RomError>(error),
                None => result matches Ok(cpu) && cpu.wf() && cpu@ == power_on_state(rom_bytes@),
            },
    {
        if rom_bytes.len() < 5 {
            return Err(RomError::MissingHeader);
        }
        let prg_rom_size = rom_bytes[4] as usize;  // 16 KB unit
        let prg_rom_num = prg_rom_size * PROGRAM_BANK_SIZE;
        if rom_bytes.len() < HEADER_SIZE + prg_rom_num {
            return Err(RomError::TruncatedProgram);
        }
        if prg_rom_num > MEMORY_SIZE - PROGRAM_START {
            return Err(RomError::ProgramTooLarge);
        }
        let mut memory = vec![0u8; MEMORY_SIZE];
        // Load rom into memory
        let mut i: usize = 0;
        while i < prg_rom_num
            invariant
                memory@.len() == MEMORY_SIZE,
                i <= prg_rom_num,
                prg_rom_num == program_size(rom_bytes@),
                prg_rom_num <= MEMORY_SIZE - PROGRAM_START,
                rom_bytes@.len() >= HEADER_SIZE + prg_rom_num,
                forall|j: int|
                    0 <= j < MEMORY_SIZE ==> #[trigger] memory@[j] == (if PROGRAM_START <= j
                        < PROGRAM_START + i {
                        rom_bytes@[HEADER_SIZE + j - PROGRAM_START]
                    } else {
                        0u8
                    }),
            decreases prg_rom_num - i,
        {
            memory.set(PROGRAM_START + i, rom_bytes[HEADER_SIZE + i]);
            i = i + 1;
        }
        assert(memory@ =~= power_on_memory(rom_bytes@));
        let pc = memory[0xfffc] as u16 + memory[0xfffd] as u16 * 256;
        Ok(
            Cpu {
                a: 0x0,
                x: 0x0,
                y: 0x0,
                pc: pc,
                sp: POWER_ON_STACK_POINTER,
                flags: Flags {
                    carry: false,
                    zero: false,
                    interrupt_disable: true,
                    decimal: false,
                    overflow: false,
                    negative: false,
                },
                memory: memory,
                interrupt_disable_called: false,
            },
        )
    }
}

} // verus!
