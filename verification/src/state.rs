//! The mathematical model of the processor: registers, status flags and the
//! 64 KiB address space as a sequence of bytes, together with the meaning of
//! every instruction as a function from one state to the next.
use vstd::prelude::*;

verus! {

/// Number of bytes in the address space.
pub const MEMORY_SIZE: usize = 0x10000;

/// The processor status flags.
#[derive(Clone, Copy, Debug, PartialEq, Eq, Structural)]
pub struct Flags {
    pub carry: bool,
    pub zero: bool,
    pub interrupt_disable: bool,
    pub decimal: bool,
    pub overflow: bool,
    pub negative: bool,
}

/// How an instruction finds its operand.
#[derive(Clone, Copy, Debug, PartialEq, Eq, Structural)]
pub enum AddressingMode {
    Accumulator,
    Immediate,
    ZeroPage,
    ZeroPageX,
    ZeroPageY,
    Absolute,
    AbsoluteX,
    AbsoluteY,
    Indirect,
    IndirectX,
    IndirectY,
}

/// Whether bit 7 of a byte is set.
pub open spec fn is_negative(value: u8) -> bool {
    value >= 0x80
}

/// The 16-bit value whose low byte is `lo` and high byte is `hi`.
pub open spec fn le_word(lo: u8, hi: u8) -> u16 {
    (lo + 256 * hi) as u16
}

/// `base + index` inside the zero page (wraps at 256).
pub open spec fn zero_page_offset(base: u8, index: u8) -> u8 {
    ((base + index) % 256) as u8
}

/// `base + index` inside the address space (wraps at 0x10000).
pub open spec fn address_offset(base: u16, index: u8) -> u16 {
    ((base + index) % 0x10000) as u16
}

/// The signed displacement that a branch operand byte stands for.
pub open spec fn branch_displacement(operand: u8) -> int {
    if operand < 0x80 {
        operand as int
    } else {
        operand - 256
    }
}

/// Signed overflow of `a + b == result` (mod 256): both operands have the same
/// sign and the result has the other one.
pub open spec fn addition_overflows(a: u8, b: u8, result: u8) -> bool {
    is_negative(a) == is_negative(b) && is_negative(result) != is_negative(a)
}

/// Signed overflow of `a - b == result` (mod 256): the operands have different
/// signs and the result's sign differs from that of `a`.
pub open spec fn subtraction_overflows(a: u8, b: u8, result: u8) -> bool {
    is_negative(a) != is_negative(b) && is_negative(result) != is_negative(a)
}

/// Number of operand bytes that follow the opcode in the given mode.
pub open spec fn operand_length(mode: AddressingMode) -> int {
    match mode {
        AddressingMode::Accumulator => 0,
        AddressingMode::Indirect => 0,
        AddressingMode::Absolute => 2,
        AddressingMode::AbsoluteX => 2,
        AddressingMode::AbsoluteY => 2,
        _ => 1,
    }
}

/// Modes accepted by ADC and SBC.
pub open spec fn accumulator_read_mode(mode: AddressingMode) -> bool {
    match mode {
        AddressingMode::Immediate | AddressingMode::ZeroPage | AddressingMode::ZeroPageX
        | AddressingMode::Absolute | AddressingMode::AbsoluteX | AddressingMode::AbsoluteY
        | AddressingMode::IndirectX | AddressingMode::IndirectY => true,
        _ => false,
    }
}

/// Modes accepted by LDA: those of ADC and SBC, and zero page indexed by `y`.
pub open spec fn load_a_mode(mode: AddressingMode) -> bool {
    accumulator_read_mode(mode) || mode == AddressingMode::ZeroPageY
}

/// Modes accepted by LDX.
pub open spec fn load_x_mode(mode: AddressingMode) -> bool {
    match mode {
        AddressingMode::Immediate | AddressingMode::ZeroPage | AddressingMode::ZeroPageY
        | AddressingMode::Absolute | AddressingMode::AbsoluteY => true,
        _ => false,
    }
}

/// Modes accepted by LDY.
pub open spec fn load_y_mode(mode: AddressingMode) -> bool {
    match mode {
        AddressingMode::Immediate | AddressingMode::ZeroPage | AddressingMode::ZeroPageX
        | AddressingMode::Absolute | AddressingMode::AbsoluteX => true,
        _ => false,
    }
}

/// Modes accepted by STA.
pub open spec fn store_a_mode(mode: AddressingMode) -> bool {
    match mode {
        AddressingMode::ZeroPage | AddressingMode::ZeroPageX | AddressingMode::Absolute
        | AddressingMode::AbsoluteX | AddressingMode::AbsoluteY | AddressingMode::IndirectX
        | AddressingMode::IndirectY => true,
        _ => false,
    }
}

/// Modes accepted by STX.
pub open spec fn store_x_mode(mode: AddressingMode) -> bool {
    match mode {
        AddressingMode::ZeroPage | AddressingMode::ZeroPageY | AddressingMode::Absolute => true,
        _ => false,
    }
}

/// Modes accepted by STY.
pub open spec fn store_y_mode(mode: AddressingMode) -> bool {
    match mode {
        AddressingMode::ZeroPage | AddressingMode::ZeroPageX | AddressingMode::Absolute => true,
        _ => false,
    }
}

/// Modes accepted by INC and DEC.
pub open spec fn read_modify_write_mode(mode: AddressingMode) -> bool {
    match mode {
        AddressingMode::ZeroPage | AddressingMode::ZeroPageX | AddressingMode::Absolute
        | AddressingMode::AbsoluteX => true,
        _ => false,
    }
}

/// Modes accepted by ASL.
pub open spec fn shift_mode(mode: AddressingMode) -> bool {
    mode == AddressingMode::Accumulator || read_modify_write_mode(mode)
}

/// Modes accepted by JMP.
pub open spec fn jump_mode(mode: AddressingMode) -> bool {
    mode == AddressingMode::Absolute || mode == AddressingMode::Indirect
}

impl Flags {
    /// Zero and negative set from `value`, the other flags kept.
    pub open spec fn with_zero_negative(self, value: u8) -> Flags {
        Flags { zero: value == 0, negative: is_negative(value), ..self }
    }

    /// The status byte pushed by BRK: bits N V 1 1 D I Z C from high to low.
    pub open spec fn status_byte(self) -> u8 {
        ((if self.negative { 0x80int } else { 0 }) + (if self.overflow { 0x40int } else { 0 })
            + 0x30 + (if self.decimal { 0x08int } else { 0 }) + (if self.interrupt_disable {
            0x04int
        } else {
            0
        }) + (if self.zero { 0x02int } else { 0 }) + (if self.carry { 0x01int } else { 0 })) as u8
    }

    /// The flags that RTI takes from a status byte (bits 5 and 4 are ignored).
    pub open spec fn from_status_byte(byte: u8) -> Flags {
        Flags {
            negative: byte & 0x80 != 0,
            overflow: byte & 0x40 != 0,
            decimal: byte & 0x08 != 0,
            interrupt_disable: byte & 0x04 != 0,
            zero: byte & 0x02 != 0,
            carry: byte & 0x01 != 0,
        }
    }

    /// The flags a processor has when it is switched on.
    pub open spec fn power_on() -> Flags {
        Flags {
            carry: false,
            zero: false,
            interrupt_disable: true,
            decimal: false,
            overflow: false,
            negative: false,
        }
    }
}

/// The abstract state of the processor.
#[verifier::ext_equal]
pub struct CpuState {
    pub a: u8,
    pub x: u8,
    pub y: u8,
    pub pc: u16,
    pub sp: u8,
    pub flags: Flags,
    pub memory: Seq<u8>,
    /// Set once SEI has run; the interrupt-disable flag follows one instruction later.
    pub interrupt_disable_called: bool,
}

impl CpuState {
    /// The address space has exactly 64 KiB.
    pub open spec fn wf(self) -> bool {
        self.memory.len() == MEMORY_SIZE
    }

    pub open spec fn byte_at(self, address: int) -> u8 {
        self.memory[address]
    }

    /// The little-endian word stored at `address` and `address + 1`.
    pub open spec fn word_at(self, address: int) -> u16 {
        le_word(self.byte_at(address), self.byte_at(address + 1))
    }

    /// The little-endian word stored at `loc` and `loc + 1` inside the zero page.
    pub open spec fn zero_page_word(self, loc: u8) -> u16 {
        le_word(self.byte_at(loc as int), self.byte_at(zero_page_offset(loc, 1) as int))
    }

    /// Whether `count` bytes can be read from `pc` on without `pc` passing 0xffff.
    pub open spec fn has_room(self, count: int) -> bool {
        self.pc + count <= 0xffff
    }

    /// The state with `pc` moved on by `count` bytes.
    pub open spec fn advance(self, count: int) -> CpuState {
        CpuState { pc: (self.pc + count) as u16, ..self }
    }

    /// The address that the operand at `pc` designates in `mode`.
    pub open spec fn effective_address(self, mode: AddressingMode) -> u16 {
        let operand = self.byte_at(self.pc as int);
        match mode {
            AddressingMode::ZeroPage => operand as u16,
            AddressingMode::ZeroPageX => zero_page_offset(operand, self.x) as u16,
            AddressingMode::ZeroPageY => zero_page_offset(operand, self.y) as u16,
            AddressingMode::Absolute => self.word_at(self.pc as int),
            AddressingMode::AbsoluteX => address_offset(self.word_at(self.pc as int), self.x),
            AddressingMode::AbsoluteY => address_offset(self.word_at(self.pc as int), self.y),
            AddressingMode::IndirectX => self.zero_page_word(zero_page_offset(operand, self.x)),
            AddressingMode::IndirectY => address_offset(self.zero_page_word(operand), self.y),
            _ => 0,
        }
    }

    /// The address that a reading instruction (LDA, LDX, LDY, ADC, SBC) reads
    /// from in a memory mode. In `IndirectY` it is the zero-page pointer
    /// itself: `y` is not added on this path.
    pub open spec fn read_address(self, mode: AddressingMode) -> u16 {
        if mode == AddressingMode::IndirectY {
            self.zero_page_word(self.byte_at(self.pc as int))
        } else {
            self.effective_address(mode)
        }
    }

    /// The value that a reading instruction takes in `mode`.
    pub open spec fn operand_value(self, mode: AddressingMode) -> u8 {
        if mode == AddressingMode::Immediate {
            self.byte_at(self.pc as int)
        } else {
            self.byte_at(self.read_address(mode) as int)
        }
    }

    /// The state with `value` written at `address`.
    pub open spec fn write(self, address: int, value: u8) -> CpuState {
        CpuState { memory: self.memory.update(address, value), ..self }
    }

    // ---------------------------------------------------------------- stack
    /// Push: write at 0x100 + sp, then decrement sp (wrapping).
    pub open spec fn push(self, value: u8) -> CpuState {
        CpuState {
            memory: self.memory.update(0x100 + self.sp, value),
            sp: ((self.sp - 1) % 256) as u8,
            ..self
        }
    }

    /// The byte that a pop returns: the one at 0x100 + sp, before sp moves.
    pub open spec fn top(self) -> u8 {
        self.byte_at(0x100 + self.sp)
    }

    /// The state after a pop: sp incremented (wrapping).
    pub open spec fn pop(self) -> CpuState {
        CpuState { sp: ((self.sp + 1) % 256) as u8, ..self }
    }

    // ---------------------------------------------------------------- loads and stores
    pub open spec fn load_a(self, mode: AddressingMode) -> CpuState {
        let value = self.operand_value(mode);
        let s = self.advance(operand_length(mode));
        CpuState { a: value, flags: s.flags.with_zero_negative(value), ..s }
    }

    pub open spec fn load_x(self, mode: AddressingMode) -> CpuState {
        let value = self.operand_value(mode);
        let s = self.advance(operand_length(mode));
        CpuState { x: value, flags: s.flags.with_zero_negative(value), ..s }
    }

    pub open spec fn load_y(self, mode: AddressingMode) -> CpuState {
        let value = self.operand_value(mode);
        let s = self.advance(operand_length(mode));
        CpuState { y: value, flags: s.flags.with_zero_negative(value), ..s }
    }

    pub open spec fn store_a(self, mode: AddressingMode) -> CpuState {
        self.advance(operand_length(mode)).write(self.effective_address(mode) as int, self.a)
    }

    pub open spec fn store_x(self, mode: AddressingMode) -> CpuState {
        self.advance(operand_length(mode)).write(self.effective_address(mode) as int, self.x)
    }

    pub open spec fn store_y(self, mode: AddressingMode) -> CpuState {
        self.advance(operand_length(mode)).write(self.effective_address(mode) as int, self.y)
    }

    // ---------------------------------------------------------------- increments
    pub open spec fn increment_memory(self, mode: AddressingMode) -> CpuState {
        let address = self.effective_address(mode) as int;
        let value = ((self.byte_at(address) + 1) % 256) as u8;
        let s = self.advance(operand_length(mode)).write(address, value);
        CpuState { flags: s.flags.with_zero_negative(value), ..s }
    }

    pub open spec fn decrement_memory(self, mode: AddressingMode) -> CpuState {
        let address = self.effective_address(mode) as int;
        let value = ((self.byte_at(address) - 1) % 256) as u8;
        let s = self.advance(operand_length(mode)).write(address, value);
        CpuState { flags: s.flags.with_zero_negative(value), ..s }
    }

    pub open spec fn increment_x(self) -> CpuState {
        let value = ((self.x + 1) % 256) as u8;
        CpuState { x: value, flags: self.flags.with_zero_negative(value), ..self }
    }

    pub open spec fn increment_y(self) -> CpuState {
        let value = ((self.y + 1) % 256) as u8;
        CpuState { y: value, flags: self.flags.with_zero_negative(value), ..self }
    }

    pub open spec fn decrement_x(self) -> CpuState {
        let value = ((self.x - 1) % 256) as u8;
        CpuState { x: value, flags: self.flags.with_zero_negative(value), ..self }
    }

    pub open spec fn decrement_y(self) -> CpuState {
        let value = ((self.y - 1) % 256) as u8;
        CpuState { y: value, flags: self.flags.with_zero_negative(value), ..self }
    }

    // ---------------------------------------------------------------- arithmetic
    /// ADC: the carry is first added to the operand (mod 256), then the sum
    /// with the accumulator gives the result and the carry out.
    pub open spec fn add_with_carry(self, mode: AddressingMode) -> CpuState {
        let addend = ((self.operand_value(mode) + (if self.flags.carry { 1int } else { 0 }))
            % 256) as u8;
        let total = self.a + addend;
        let result = (total % 256) as u8;
        let s = self.advance(operand_length(mode));
        CpuState {
            a: result,
            flags: Flags {
                carry: total > 0xff,
                overflow: addition_overflows(self.a, addend, result),
                ..s.flags
            }.with_zero_negative(result),
            ..s
        }
    }

    /// SBC: one is taken from the operand (mod 256) when the carry is clear;
    /// the carry then records whether the subtraction borrowed.
    pub open spec fn subtract_with_carry(self, mode: AddressingMode) -> CpuState {
        let subtrahend = ((self.operand_value(mode) - (if self.flags.carry { 0int } else { 1 }))
            % 256) as u8;
        let result = ((self.a - subtrahend) % 256) as u8;
        let s = self.advance(operand_length(mode));
        CpuState {
            a: result,
            flags: Flags {
                carry: self.a < subtrahend,
                overflow: subtraction_overflows(self.a, subtrahend, result),
                ..s.flags
            }.with_zero_negative(result),
            ..s
        }
    }

    // ---------------------------------------------------------------- transfers
    pub open spec fn transfer_a_to_x(self) -> CpuState {
        CpuState { x: self.a, flags: self.flags.with_zero_negative(self.a), ..self }
    }

    pub open spec fn transfer_a_to_y(self) -> CpuState {
        CpuState { y: self.a, flags: self.flags.with_zero_negative(self.a), ..self }
    }

    pub open spec fn transfer_x_to_a(self) -> CpuState {
        CpuState { a: self.x, flags: self.flags.with_zero_negative(self.x), ..self }
    }

    pub open spec fn transfer_y_to_a(self) -> CpuState {
        CpuState { a: self.y, flags: self.flags.with_zero_negative(self.y), ..self }
    }

    pub open spec fn transfer_stack_pointer_to_x(self) -> CpuState {
        CpuState { x: self.sp, flags: self.flags.with_zero_negative(self.sp), ..self }
    }

    pub open spec fn transfer_x_to_stack_pointer(self) -> CpuState {
        CpuState { sp: self.x, ..self }
    }

    // ---------------------------------------------------------------- shifts
    /// ASL. On memory the operand is fetched twice: once to read the value
    /// and once more, from the bytes that follow, to find where to write it.
    pub open spec fn arithmetic_shift_left(self, mode: AddressingMode) -> CpuState {
        if mode == AddressingMode::Accumulator {
            let value = self.a;
            let result = ((value * 2) % 256) as u8;
            CpuState {
                a: result,
                flags: Flags { carry: is_negative(value), ..self.flags }.with_zero_negative(
                    result,
                ),
                ..self
            }
        } else {
            let value = self.byte_at(self.effective_address(mode) as int);
            let result = ((value * 2) % 256) as u8;
            let s1 = self.advance(operand_length(mode));
            let target = s1.effective_address(mode) as int;
            let s2 = s1.advance(operand_length(mode)).write(target, result);
            CpuState {
                flags: Flags { carry: is_negative(value), ..s2.flags }.with_zero_negative(result),
                ..s2
            }
        }
    }

    // ---------------------------------------------------------------- control flow
    pub open spec fn branch_if_not_equal(self) -> CpuState {
        let displacement = branch_displacement(self.byte_at(self.pc as int));
        let s = self.advance(1);
        if !self.flags.zero {
            CpuState { pc: ((s.pc + displacement) % 0x10000) as u16, ..s }
        } else {
            s
        }
    }

    /// The target of JMP. Indirect mode reproduces the page-wrap quirk: a
    /// pointer at xxFF takes its high byte from xx00.
    pub open spec fn jump_target(self, mode: AddressingMode) -> u16 {
        let pointer = self.word_at(self.pc as int);
        if mode == AddressingMode::Absolute {
            pointer
        } else {
            let high_address = if pointer % 256 == 0xff {
                pointer - 0xff
            } else {
                pointer + 1
            };
            le_word(self.byte_at(pointer as int), self.byte_at(high_address))
        }
    }

    pub open spec fn jump(self, mode: AddressingMode) -> CpuState {
        CpuState { pc: self.jump_target(mode), ..self }
    }

    /// JSR: pushes the address of the last byte of the instruction (high byte
    /// first) and continues at the operand word.
    pub open spec fn jump_to_subroutine(self) -> CpuState {
        let return_address = self.pc + 1;
        let s = self.push((return_address / 256) as u8).push((return_address % 256) as u8);
        CpuState { pc: self.word_at(self.pc as int), ..s }
    }

    /// RTS: pops the low byte, then the high byte, and continues one past.
    pub open spec fn return_to_subroutine(self) -> CpuState {
        let low = self.top();
        let s1 = self.pop();
        let high = s1.top();
        let s2 = s1.pop();
        CpuState { pc: ((le_word(low, high) + 1) % 0x10000) as u16, ..s2 }
    }

    /// BRK: pushes pc + 2 (high byte first) and the status byte, continues at
    /// the vector at 0xfffe and sets the interrupt-disable flag.
    pub open spec fn break_(self) -> CpuState {
        let return_address = (self.pc + 2) % 0x10000;
        let s = self.push((return_address / 256) as u8).push((return_address % 256) as u8).push(
            self.flags.status_byte(),
        );
        CpuState {
            pc: self.word_at(0xfffe),
            flags: Flags { interrupt_disable: true, ..s.flags },
            ..s
        }
    }

    /// RTI: pops the status byte, then the low and the high byte of pc.
    pub open spec fn return_from_interrupt(self) -> CpuState {
        let status = self.top();
        let s1 = self.pop();
        let low = s1.top();
        let s2 = s1.pop();
        let high = s2.top();
        let s3 = s2.pop();
        CpuState { pc: le_word(low, high), flags: Flags::from_status_byte(status), ..s3 }
    }

    // ---------------------------------------------------------------- flags
    /// SEI only records the request: the flag is set after the next instruction.
    pub open spec fn set_interrupt_disable(self) -> CpuState {
        CpuState { interrupt_disable_called: true, ..self }
    }

    pub open spec fn clear_decimal(self) -> CpuState {
        CpuState { flags: Flags { decimal: false, ..self.flags }, ..self }
    }
}

} // verus!
