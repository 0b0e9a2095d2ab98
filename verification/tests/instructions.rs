use nes_cpu::instruction::{decode, Instruction};
use nes_cpu::rom::RomError;
use nes_cpu::step::StepError;
use nes_cpu::{AddressingMode, Cpu, Flags};

fn clear_flags() -> Flags {
    Flags {
        carry: false,
        zero: false,
        interrupt_disable: false,
        decimal: false,
        overflow: false,
        negative: false,
    }
}

/// A processor with zeroed memory, `program` placed at `origin` and `pc` there.
fn cpu_with(origin: u16, program: &[u8]) -> Cpu {
    let mut memory = vec![0u8; 0x10000];
    for (i, byte) in program.iter().enumerate() {
        memory[origin as usize + i] = *byte;
    }
    Cpu {
        a: 0,
        x: 0,
        y: 0,
        pc: origin,
        sp: 0xfd,
        flags: clear_flags(),
        memory,
        interrupt_disable_called: false,
    }
}

#[test]
fn read_next_byte_and_word() {
    let mut cpu = cpu_with(0x0200, &[0x34, 0x12, 0x78]);
    assert_eq!(cpu.peek_next_word(), 0x1234);
    assert_eq!(cpu.pc, 0x0200);
    assert_eq!(cpu.read_next_word(), 0x1234);
    assert_eq!(cpu.pc, 0x0202);
    assert_eq!(cpu.read_next_byte(), 0x78);
    assert_eq!(cpu.pc, 0x0203);
}

#[test]
fn push_then_pop_keeps_stack_pointer() {
    let mut cpu = cpu_with(0x0200, &[]);
    cpu.memory[0x1fc] = 0x99;
    cpu.push_to_stack(0x42);
    assert_eq!(cpu.memory[0x1fd], 0x42);
    assert_eq!(cpu.sp, 0xfc);
    // A pop reads at the current stack pointer before moving it.
    assert_eq!(cpu.pop_from_stack(), 0x99);
    assert_eq!(cpu.sp, 0xfd);
    assert_eq!(cpu.pop_from_stack(), 0x42);
    assert_eq!(cpu.sp, 0xfe);
}

#[test]
fn stack_pointer_wraps() {
    let mut cpu = cpu_with(0x0200, &[]);
    cpu.sp = 0x00;
    cpu.push_to_stack(7);
    assert_eq!(cpu.memory[0x100], 7);
    assert_eq!(cpu.sp, 0xff);
    cpu.pop_from_stack();
    assert_eq!(cpu.sp, 0x00);
}

#[test]
fn load_immediate_sets_zero_and_negative() {
    let mut cpu = cpu_with(0x0200, &[0x80, 0x00, 0x7f]);
    cpu.load_a(AddressingMode::Immediate);
    assert_eq!(cpu.a, 0x80);
    assert!(cpu.flags.negative && !cpu.flags.zero);
    cpu.load_x(AddressingMode::Immediate);
    assert_eq!(cpu.x, 0);
    assert!(!cpu.flags.negative && cpu.flags.zero);
    cpu.load_y(AddressingMode::Immediate);
    assert_eq!(cpu.y, 0x7f);
    assert!(!cpu.flags.negative && !cpu.flags.zero);
    assert_eq!(cpu.pc, 0x0203);
}

#[test]
fn load_zero_page_indexed_wraps_in_zero_page() {
    let mut cpu = cpu_with(0x0200, &[0xf0]);
    cpu.x = 0x20;
    cpu.memory[0x10] = 0x55;
    cpu.load_a(AddressingMode::ZeroPageX);
    assert_eq!(cpu.a, 0x55);
}

#[test]
fn load_a_zero_page_indexed_by_y() {
    let mut cpu = cpu_with(0x0200, &[0xf8]);
    cpu.y = 0x10;
    cpu.memory[0x08] = 0x80;
    cpu.load_a(AddressingMode::ZeroPageY);
    assert_eq!(cpu.a, 0x80);
    assert!(cpu.flags.negative && !cpu.flags.zero);
    assert_eq!(cpu.pc, 0x0201);
}

#[test]
fn load_absolute_indexed() {
    let mut cpu = cpu_with(0x0200, &[0x00, 0x30, 0x00, 0x30]);
    cpu.x = 3;
    cpu.y = 4;
    cpu.memory[0x3003] = 0x11;
    cpu.memory[0x3004] = 0x22;
    cpu.load_a(AddressingMode::AbsoluteX);
    assert_eq!(cpu.a, 0x11);
    cpu.load_x(AddressingMode::AbsoluteY);
    assert_eq!(cpu.x, 0x22);
    assert_eq!(cpu.pc, 0x0204);
}

#[test]
fn load_indirect_x() {
    let mut cpu = cpu_with(0x0200, &[0x10]);
    cpu.x = 2;
    cpu.memory[0x12] = 0x34;
    cpu.memory[0x13] = 0x12;
    cpu.memory[0x1234] = 0xab;
    cpu.load_a(AddressingMode::IndirectX);
    assert_eq!(cpu.a, 0xab);
}

#[test]
fn load_indirect_y_reads_at_pointer_without_y() {
    let mut cpu = cpu_with(0x0200, &[0x10]);
    cpu.y = 5;
    cpu.memory[0x10] = 0x00;
    cpu.memory[0x11] = 0x40;
    cpu.memory[0x4000] = 0x01;
    cpu.memory[0x4005] = 0x02;
    cpu.load_a(AddressingMode::IndirectY);
    assert_eq!(cpu.a, 0x01);
}

#[test]
fn store_indirect_y_adds_y() {
    let mut cpu = cpu_with(0x0200, &[0x10]);
    cpu.a = 0x77;
    cpu.y = 5;
    cpu.memory[0x10] = 0x00;
    cpu.memory[0x11] = 0x40;
    cpu.store_a(AddressingMode::IndirectY);
    assert_eq!(cpu.memory[0x4005], 0x77);
    assert_eq!(cpu.memory[0x4000], 0x00);
}

#[test]
fn indirect_pointer_wraps_in_zero_page() {
    let mut cpu = cpu_with(0x0200, &[0xff]);
    cpu.memory[0xff] = 0x00;
    cpu.memory[0x00] = 0x50;
    cpu.memory[0x5000] = 0x66;
    cpu.load_a(AddressingMode::IndirectX);
    assert_eq!(cpu.a, 0x66);
}

#[test]
fn stores_write_registers() {
    let mut cpu = cpu_with(0x0200, &[0x10, 0x20, 0x00, 0x30]);
    cpu.a = 1;
    cpu.x = 2;
    cpu.y = 3;
    cpu.store_a(AddressingMode::ZeroPage);
    cpu.store_x(AddressingMode::ZeroPageY);
    cpu.store_y(AddressingMode::Absolute);
    assert_eq!(cpu.memory[0x10], 1);
    assert_eq!(cpu.memory[0x23], 2);
    assert_eq!(cpu.memory[0x3000], 3);
    assert_eq!(cpu.pc, 0x0204);
}

#[test]
fn store_then_load_gives_back_the_value() {
    let mut cpu = cpu_with(0x0200, &[0x00, 0x30, 0x00, 0x30]);
    cpu.a = 0x9c;
    cpu.store_a(AddressingMode::Absolute);
    cpu.a = 0;
    cpu.load_a(AddressingMode::Absolute);
    assert_eq!(cpu.a, 0x9c);
    assert!(cpu.flags.negative);
}

#[test]
fn increments_and_decrements_wrap() {
    let mut cpu = cpu_with(0x0200, &[0x10, 0x10]);
    cpu.memory[0x10] = 0xff;
    cpu.increment_memory(AddressingMode::ZeroPage);
    assert_eq!(cpu.memory[0x10], 0);
    assert!(cpu.flags.zero);
    cpu.decrement_memory(AddressingMode::ZeroPage);
    assert_eq!(cpu.memory[0x10], 0xff);
    assert!(cpu.flags.negative && !cpu.flags.zero);
    cpu.x = 0xff;
    cpu.increment_x();
    assert_eq!(cpu.x, 0);
    assert!(cpu.flags.zero);
    cpu.decrement_x();
    assert_eq!(cpu.x, 0xff);
    cpu.y = 0;
    cpu.decrement_y();
    assert_eq!(cpu.y, 0xff);
    assert!(cpu.flags.negative);
    cpu.increment_y();
    assert_eq!(cpu.y, 0);
}

#[test]
fn add_with_carry_sets_overflow_and_carry() {
    let mut cpu = cpu_with(0x0200, &[0x50, 0x90]);
    cpu.a = 0x50;
    cpu.add_with_carry(AddressingMode::Immediate);
    assert_eq!(cpu.a, 0xa0);
    assert!(cpu.flags.overflow && cpu.flags.negative && !cpu.flags.carry);
    cpu.add_with_carry(AddressingMode::Immediate);
    assert_eq!(cpu.a, 0x30);
    assert!(cpu.flags.carry && cpu.flags.overflow && !cpu.flags.negative);
}

#[test]
fn add_with_carry_adds_carry_to_operand_first() {
    let mut cpu = cpu_with(0x0200, &[0xff, 0x01]);
    cpu.a = 0x10;
    cpu.flags.carry = true;
    // 0xff + carry wraps to 0, so nothing is added and no carry comes out.
    cpu.add_with_carry(AddressingMode::Immediate);
    assert_eq!(cpu.a, 0x10);
    assert!(!cpu.flags.carry);
    cpu.flags.carry = true;
    cpu.add_with_carry(AddressingMode::Immediate);
    assert_eq!(cpu.a, 0x12);
}

#[test]
fn subtract_with_carry_sets_carry_on_borrow() {
    let mut cpu = cpu_with(0x0200, &[0x03, 0x03, 0x05]);
    cpu.a = 5;
    cpu.flags.carry = true;
    cpu.subtract_with_carry(AddressingMode::Immediate);
    assert_eq!(cpu.a, 2);
    assert!(!cpu.flags.carry);
    cpu.a = 5;
    cpu.flags.carry = false;
    // With the carry clear one is taken from the operand: 5 - (3 - 1).
    cpu.subtract_with_carry(AddressingMode::Immediate);
    assert_eq!(cpu.a, 3);
    cpu.a = 3;
    cpu.flags.carry = true;
    cpu.subtract_with_carry(AddressingMode::Immediate);
    assert_eq!(cpu.a, 0xfe);
    assert!(cpu.flags.carry && cpu.flags.negative && !cpu.flags.overflow);
}

#[test]
fn subtract_with_carry_signed_overflow() {
    let mut cpu = cpu_with(0x0200, &[0x01]);
    cpu.a = 0x80;
    cpu.flags.carry = true;
    cpu.subtract_with_carry(AddressingMode::Immediate);
    assert_eq!(cpu.a, 0x7f);
    assert!(cpu.flags.overflow);
}

#[test]
fn transfers() {
    let mut cpu = cpu_with(0x0200, &[]);
    cpu.a = 0x80;
    cpu.transfer_a_to_x();
    assert_eq!(cpu.x, 0x80);
    assert!(cpu.flags.negative);
    cpu.transfer_a_to_y();
    assert_eq!(cpu.y, 0x80);
    cpu.a = 0;
    cpu.transfer_x_to_a();
    assert_eq!(cpu.a, 0x80);
    cpu.y = 0;
    cpu.transfer_y_to_a();
    assert_eq!(cpu.a, 0);
    assert!(cpu.flags.zero);
    cpu.transfer_stack_pointer_to_x();
    assert_eq!(cpu.x, 0xfd);
    cpu.x = 0x40;
    let flags = cpu.flags;
    cpu.transfer_x_to_stack_pointer();
    assert_eq!(cpu.sp, 0x40);
    assert_eq!(cpu.flags, flags);
}

#[test]
fn shift_left_accumulator() {
    let mut cpu = cpu_with(0x0200, &[]);
    cpu.a = 0x81;
    cpu.arithmetic_shift_left(AddressingMode::Accumulator);
    assert_eq!(cpu.a, 0x02);
    assert!(cpu.flags.carry && !cpu.flags.zero && !cpu.flags.negative);
    assert_eq!(cpu.pc, 0x0200);
}

#[test]
fn shift_left_memory_fetches_the_operand_twice() {
    let mut cpu = cpu_with(0x0200, &[0x10, 0x20]);
    cpu.memory[0x10] = 0x41;
    cpu.arithmetic_shift_left(AddressingMode::ZeroPage);
    assert_eq!(cpu.memory[0x20], 0x82);
    assert_eq!(cpu.memory[0x10], 0x41);
    assert!(!cpu.flags.carry && cpu.flags.negative);
    assert_eq!(cpu.pc, 0x0202);
}

#[test]
fn branch_if_not_equal() {
    let mut cpu = cpu_with(0x0200, &[0x05]);
    cpu.branch_if_not_equal();
    assert_eq!(cpu.pc, 0x0206);
    let mut cpu = cpu_with(0x0200, &[0xfc]);
    cpu.branch_if_not_equal();
    assert_eq!(cpu.pc, 0x01fd);
    let mut cpu = cpu_with(0x0200, &[0x05]);
    cpu.flags.zero = true;
    cpu.branch_if_not_equal();
    assert_eq!(cpu.pc, 0x0201);
}

#[test]
fn jump_absolute_and_indirect() {
    let mut cpu = cpu_with(0x0200, &[0x34, 0x12]);
    cpu.jump(AddressingMode::Absolute);
    assert_eq!(cpu.pc, 0x1234);
    let mut cpu = cpu_with(0x0200, &[0x00, 0x30]);
    cpu.memory[0x3000] = 0x78;
    cpu.memory[0x3001] = 0x56;
    cpu.jump(AddressingMode::Indirect);
    assert_eq!(cpu.pc, 0x5678);
}

#[test]
fn jump_indirect_page_wrap_quirk() {
    let mut cpu = cpu_with(0x0200, &[0xff, 0x30]);
    cpu.memory[0x30ff] = 0x80;
    cpu.memory[0x3000] = 0x50;
    cpu.memory[0x3100] = 0x40;
    cpu.jump(AddressingMode::Indirect);
    assert_eq!(cpu.pc, 0x5080);
}

#[test]
fn jump_to_subroutine_pushes_return_address() {
    let mut cpu = cpu_with(0x0201, &[0x00, 0x90]);
    cpu.jump_to_subroutine();
    assert_eq!(cpu.pc, 0x9000);
    assert_eq!(cpu.sp, 0xfb);
    assert_eq!(cpu.memory[0x1fd], 0x02);
    assert_eq!(cpu.memory[0x1fc], 0x02);
}

#[test]
fn return_to_subroutine_pops_low_then_high() {
    let mut cpu = cpu_with(0x0200, &[]);
    cpu.sp = 0xfb;
    cpu.memory[0x1fb] = 0x34;
    cpu.memory[0x1fc] = 0x12;
    cpu.return_to_subroutine();
    assert_eq!(cpu.pc, 0x1235);
    assert_eq!(cpu.sp, 0xfd);
}

#[test]
fn jump_to_subroutine_then_return_keeps_stack_pointer() {
    let mut cpu = cpu_with(0x8001, &[0x00, 0x90]);
    cpu.jump_to_subroutine();
    cpu.return_to_subroutine();
    assert_eq!(cpu.sp, 0xfd);
    // A pop reads at the stack pointer before moving it, so the return
    // address is taken from one slot below where JSR put it: the low byte
    // 0x02 of 0x8002 is read as the high byte, and the byte under it as low.
    assert_eq!(cpu.pc, 0x0201);
}

#[test]
fn break_pushes_state_and_jumps_to_vector() {
    let mut cpu = cpu_with(0x0201, &[]);
    cpu.memory[0xfffe] = 0x00;
    cpu.memory[0xffff] = 0xc0;
    cpu.flags.carry = true;
    cpu.flags.negative = true;
    cpu.break_();
    assert_eq!(cpu.pc, 0xc000);
    assert_eq!(cpu.memory[0x1fd], 0x02);
    assert_eq!(cpu.memory[0x1fc], 0x03);
    assert_eq!(cpu.memory[0x1fb], 0xb1);
    assert_eq!(cpu.sp, 0xfa);
    assert!(cpu.flags.interrupt_disable);
}

#[test]
fn return_from_interrupt_restores_flags_and_pc() {
    let mut cpu = cpu_with(0x0200, &[]);
    cpu.sp = 0xfa;
    cpu.memory[0x1fa] = 0xcb;
    cpu.memory[0x1fb] = 0x03;
    cpu.memory[0x1fc] = 0x02;
    cpu.return_from_interrupt();
    assert_eq!(cpu.pc, 0x0203);
    assert_eq!(cpu.sp, 0xfd);
    assert_eq!(
        cpu.flags,
        Flags {
            carry: true,
            zero: true,
            interrupt_disable: false,
            decimal: true,
            overflow: true,
            negative: true,
        }
    );
}

#[test]
fn status_byte_round_trip_through_stack_memory() {
    let flags = Flags {
        carry: true,
        zero: false,
        interrupt_disable: true,
        decimal: false,
        overflow: true,
        negative: false,
    };
    let mut cpu = cpu_with(0x0200, &[]);
    cpu.flags = flags;
    cpu.break_();
    let pushed = cpu.memory[0x1fb];
    assert_eq!(pushed, 0x75);
    let mut other = cpu_with(0x0200, &[]);
    other.sp = 0xfb;
    other.memory[0x1fb] = pushed;
    other.return_from_interrupt();
    assert_eq!(other.flags, flags);
}

#[test]
fn flag_instructions() {
    let mut cpu = cpu_with(0x0200, &[]);
    cpu.flags.decimal = true;
    cpu.clear_decimal();
    assert!(!cpu.flags.decimal);
    cpu.set_interrupt_disable();
    assert!(cpu.interrupt_disable_called);
    assert!(!cpu.flags.interrupt_disable);
}

#[test]
fn decode_table() {
    assert_eq!(decode(0xa9), Some(Instruction::LoadA(AddressingMode::Immediate)));
    assert_eq!(decode(0x91), Some(Instruction::StoreA(AddressingMode::IndirectY)));
    assert_eq!(decode(0x6c), Some(Instruction::Jump(AddressingMode::Indirect)));
    assert_eq!(decode(0x00), Some(Instruction::Break));
    assert_eq!(decode(0xea), Some(Instruction::NoOperation));
    assert_eq!(decode(0x4a), Some(Instruction::LogicalShiftRight(AddressingMode::Accumulator)));
    assert_eq!(decode(0x02), None);
    assert_eq!(decode(0xff), None);
    assert!(decode(0xa9).unwrap().is_implemented());
    assert!(!decode(0x4a).unwrap().is_implemented());
    assert_eq!(decode(0x0e).unwrap().operand_room(), 4);
    assert_eq!(decode(0x20).unwrap().operand_room(), 1);
}

#[test]
fn step_runs_a_small_program() {
    // LDX #$03; DEX; BNE -3; STX $10; NOP
    let mut cpu = cpu_with(0x0600, &[0xa2, 0x03, 0xca, 0xd0, 0xfd, 0x86, 0x10, 0xea]);
    cpu.memory[0x10] = 0xff;
    let mut executed = Vec::new();
    for _ in 0..9 {
        executed.push(cpu.step().unwrap());
    }
    assert_eq!(executed, vec![0xa2, 0xca, 0xd0, 0xca, 0xd0, 0xca, 0xd0, 0x86, 0xea]);
    assert_eq!(cpu.x, 0);
    assert_eq!(cpu.memory[0x10], 0);
    assert_eq!(cpu.pc, 0x0608);
}

#[test]
fn step_rejects_invalid_and_unimplemented_opcodes() {
    let mut cpu = cpu_with(0x0200, &[0x02]);
    assert_eq!(cpu.step(), Err(StepError::InvalidInstruction(0x02)));
    assert_eq!(cpu.pc, 0x0200);
    let mut cpu = cpu_with(0x0200, &[0x4a]);
    assert_eq!(cpu.step(), Err(StepError::Unimplemented(0x4a)));
    assert_eq!(cpu.pc, 0x0200);
}

#[test]
fn step_reports_program_counter_overflow() {
    let mut cpu = cpu_with(0x0200, &[]);
    cpu.pc = 0xffff;
    cpu.memory[0xffff] = 0xea;
    assert_eq!(cpu.step(), Err(StepError::ProgramCounterOverflow));
    let mut cpu = cpu_with(0x0200, &[]);
    cpu.pc = 0xfffd;
    cpu.memory[0xfffd] = 0xad;
    assert_eq!(cpu.step(), Err(StepError::ProgramCounterOverflow));
    assert_eq!(cpu.pc, 0xfffd);
    let mut cpu = cpu_with(0x0200, &[]);
    cpu.pc = 0xfffc;
    cpu.memory[0xfffc] = 0xad;
    assert_eq!(cpu.step(), Ok(0xad));
    assert_eq!(cpu.pc, 0xffff);
}

#[test]
fn interrupt_disable_follows_sei_after_one_instruction() {
    let mut cpu = cpu_with(0x0200, &[0x78, 0xea, 0x78]);
    assert_eq!(cpu.step(), Ok(0x78));
    assert!(!cpu.flags.interrupt_disable);
    assert_eq!(cpu.step(), Ok(0xea));
    assert!(cpu.flags.interrupt_disable);
    cpu.flags.interrupt_disable = false;
    assert_eq!(cpu.step(), Ok(0x78));
    assert!(!cpu.flags.interrupt_disable);
}

fn rom_image(banks: u8, body: &[(usize, u8)], len: usize) -> Vec<u8> {
    let mut rom = vec![0u8; len];
    rom[0..4].copy_from_slice(b"NES\x1a");
    rom[4] = banks;
    for (offset, byte) in body {
        rom[16 + offset] = *byte;
    }
    rom
}

#[test]
fn power_on_loads_program_and_reset_vector() {
    let rom = rom_image(2, &[(0, 0xea), (0x7ffc, 0x00), (0x7ffd, 0x80)], 16 + 0x8000);
    let cpu = Cpu::new(&rom).unwrap();
    assert_eq!(cpu.pc, 0x8000);
    assert_eq!(cpu.memory[0x8000], 0xea);
    assert_eq!(cpu.memory.len(), 0x10000);
    assert_eq!(cpu.sp, 0xfd);
    assert_eq!((cpu.a, cpu.x, cpu.y), (0, 0, 0));
    assert!(cpu.flags.interrupt_disable && !cpu.flags.carry && !cpu.flags.decimal);
    assert!(!cpu.interrupt_disable_called);
}

#[test]
fn power_on_with_one_bank_leaves_reset_vector_zero() {
    let rom = rom_image(1, &[(0, 0xa9)], 16 + 0x4000);
    let cpu = Cpu::new(&rom).unwrap();
    assert_eq!(cpu.memory[0x8000], 0xa9);
    assert_eq!(cpu.memory[0xc000], 0);
    assert_eq!(cpu.pc, 0);
}

#[test]
fn power_on_rejects_bad_images() {
    assert_eq!(Cpu::new(&[]).err(), Some(RomError::MissingHeader));
    assert_eq!(Cpu::new(b"NES\x1a").err(), Some(RomError::MissingHeader));
    let short = rom_image(1, &[], 16 + 0x3fff);
    assert_eq!(Cpu::new(&short).err(), Some(RomError::TruncatedProgram));
    let large = rom_image(3, &[], 16 + 0xc000);
    assert_eq!(Cpu::new(&large).err(), Some(RomError::ProgramTooLarge));
    let empty = rom_image(0, &[], 16);
    assert_eq!(Cpu::new(&empty).unwrap().pc, 0);
}

#[test]
fn break_then_return_from_interrupt_keeps_stack_pointer() {
    let mut cpu = cpu_with(0x0201, &[]);
    cpu.memory[0xfffe] = 0x00;
    cpu.memory[0xffff] = 0xc0;
    cpu.break_();
    assert_eq!(cpu.sp, 0xfa);
    cpu.return_from_interrupt();
    assert_eq!(cpu.sp, 0xfd);
}

#[test]
fn transfer_round_trip() {
    let mut cpu = cpu_with(0x0200, &[]);
    cpu.a = 0x3c;
    cpu.x = 0x01;
    cpu.transfer_a_to_x();
    cpu.transfer_x_to_a();
    assert_eq!((cpu.a, cpu.x), (0x3c, 0x3c));
}

#[test]
fn execute_runs_a_decoded_instruction() {
    let mut cpu = cpu_with(0x0200, &[0x42]);
    cpu.execute(Instruction::LoadY(AddressingMode::Immediate));
    assert_eq!(cpu.y, 0x42);
    assert_eq!(cpu.pc, 0x0201);
}
