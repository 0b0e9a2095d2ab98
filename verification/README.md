# nes_cpu

A MOS 6502 processor core, the processor of the NES, written in Verus.

- `src/state.rs` – the mathematical model: `CpuState` (registers, flags, the
  64 KiB memory as a `Seq<u8>`) and one spec function per instruction giving
  the next state.
- `src/cpu.rs` – the executable `Cpu`; every instruction is proved to take
  `cpu@` to the state its spec function gives.
- `src/instruction.rs` – the opcode table and `decode`.
- `src/step.rs` – one fetch-decode-execute cycle and its errors.
- `src/rom.rs` – power-on with an iNES image loaded at 0x8000.
- `src/laws.rs` – properties that relate several instructions.
- `app/main.rs` – reads a ROM file and runs the processor, printing each opcode.

Instructions of the opcode table that are not carried out yet (LSR, ROL, ROR,
AND, ORA, EOR, BIT, the compares, the other branches, the stack pushes and
pulls, and SEC, SED, CLC, CLI, CLV) are decoded and reported by `step` as
`StepError::Unimplemented`.
