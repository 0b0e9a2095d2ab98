//! The executable processor: registers, flags and a 64 KiB memory, with the
//! operand fetches, the stack and the instructions.
use vstd::prelude::*;
use crate::state::{
    AddressingMode, CpuState, Flags, accumulator_read_mode, addition_overflows, load_a_mode,
    branch_displacement, jump_mode, shift_mode,
    load_x_mode, load_y_mode, operand_length, read_modify_write_mode, store_a_mode, store_x_mode,
    store_y_mode, subtraction_overflows,
};

verus! {

/// The processor and the memory it addresses.
pub struct Cpu {
    pub a: u8,
    pub x: u8,
    pub y: u8,
    pub pc: u16,
    pub sp: u8,
    pub flags: Flags,
    pub memory: Vec<u8>,
    pub interrupt_disable_called: bool,
}

impl View for Cpu {
    type V = CpuState;

    open spec fn view(&self) -> CpuState {
        CpuState {
            a: self.a,
            x: self.x,
            y: self.y,
            pc: self.pc,
            sp: self.sp,
            flags: self.flags,
            memory: self.memory@,
            interrupt_disable_called: self.interrupt_disable_called,
        }
    }
}

impl Cpu {
    /// The memory holds the whole 64 KiB address space.
    pub open spec fn wf(&self) -> bool {
        self@.wf()
    }

    /// Reads the byte at `pc` and moves `pc` on by one.
    pub fn read_next_byte(&mut self) -> (byte: u8)
        requires
            old(self).wf(),
            old(self)@.has_room(1),
        ensures
            final(self).wf(),
            byte == old(self)@.byte_at(old(self).pc as int),
            final(self)@ == old(self)@.advance(1),
    {
        let byte = self.memory[self.pc as usize];
        self.pc = self.pc + 1;
        byte
    }

    /// Reads the little-endian word at `pc` and moves `pc` on by two.
    pub fn read_next_word(&mut self) -> (word: u16)
        requires
            old(self).wf(),
            old(self)@.has_room(2),
        ensures
            final(self).wf(),
            word == old(self)@.word_at(old(self).pc as int),
            final(self)@ == old(self)@.advance(2),
    {
        let first = self.memory[self.pc as usize];
        let second = self.memory[self.pc as usize + 1];
        self.pc = self.pc + 2;
        first as u16 + second as u16 * 256
    }

    /// The little-endian word at `pc`, with `pc` left where it is.
    pub fn peek_next_word(&self) -> (word: u16)
        requires
            self.wf(),
            self@.has_room(1),
        ensures
            word == self@.word_at(self.pc as int),
    {
        let first = self.memory[self.pc as usize];
        let second = self.memory[self.pc as usize + 1];
        first as u16 + second as u16 * 256
    }

    /// Writes `value` at 0x100 + sp and decrements sp (wrapping).
    pub fn push_to_stack(&mut self, value: u8)
        requires
            old(self).wf(),
        ensures
            final(self).wf(),
            final(self)@ == old(self)@.push(value),
    {
        self.memory.set(0x100 + self.sp as usize, value);
        self.sp = self.sp.wrapping_sub(1);
    }

    /// Returns the byte at 0x100 + sp and increments sp (wrapping).
    pub fn pop_from_stack(&mut self) -> (value: u8)
        requires
            old(self).wf(),
        ensures
            final(self).wf(),
            value == old(self)@.top(),
            final(self)@ == old(self)@.pop(),
    {
        let value = self.memory[0x100 + self.sp as usize];
        self.sp = self.sp.wrapping_add(1);
        value
    }

    /// Reads the operand bytes of `mode` and returns the address they
    /// designate.
    #[verifier::spinoff_prover]
    #[verifier::rlimit(40)]
    fn fetch_address(&mut self, mode: AddressingMode) -> (address: u16)
        requires
            old(self).wf(),
            read_modify_write_mode(mode) || store_a_mode(mode) || store_x_mode(mode),
            old(self)@.has_room(operand_length(mode)),
        ensures
            final(self).wf(),
            address == old(self)@.effective_address(mode),
            final(self)@ == old(self)@.advance(operand_length(mode)),
    {
        match mode {
            AddressingMode::ZeroPage => self.read_next_byte() as u16,
            AddressingMode::ZeroPageX => self.read_next_byte().wrapping_add(self.x) as u16,
            AddressingMode::ZeroPageY => self.read_next_byte().wrapping_add(self.y) as u16,
            AddressingMode::Absolute => self.read_next_word(),
            AddressingMode::AbsoluteX => self.read_next_word().wrapping_add(self.x as u16),
            AddressingMode::AbsoluteY => self.read_next_word().wrapping_add(self.y as u16),
            AddressingMode::IndirectX => {
                let loc = self.read_next_byte().wrapping_add(self.x);
                self.zero_page_word(loc)
            },
            _ => {
                let loc = self.read_next_byte();
                self.zero_page_word(loc).wrapping_add(self.y as u16)
            },
        }
    }

    /// The little-endian word at `loc` and `loc + 1`, wrapping inside the
    /// zero page.
    fn zero_page_word(&self, loc: u8) -> (word: u16)
        requires
            self.wf(),
        ensures
            word == self@.zero_page_word(loc),
    {
        let first = self.memory[loc as usize];
        let second = self.memory[loc.wrapping_add(1) as usize];
        first as u16 + second as u16 * 256
    }

    /// Reads the operand bytes of `mode` and returns the value that a reading
    /// instruction takes: the byte itself in immediate mode, otherwise the byte
    /// in memory (in `IndirectY` at the zero-page pointer, without `y`).
    fn fetch_operand(&mut self, mode: AddressingMode) -> (value: u8)
        requires
            old(self).wf(),
            load_a_mode(mode) || load_x_mode(mode) || load_y_mode(mode),
            old(self)@.has_room(operand_length(mode)),
        ensures
            final(self).wf(),
            value == old(self)@.operand_value(mode),
            final(self)@ == old(self)@.advance(operand_length(mode)),
    {
        match mode {
            AddressingMode::Immediate => self.read_next_byte(),
            AddressingMode::IndirectY => {
                let loc = self.read_next_byte();
                let address = self.zero_page_word(loc);
                self.memory[address as usize]
            },
            _ => {
                let address = self.fetch_address(mode);
                self.memory[address as usize]
            },
        }
    }

    /// Sets the zero and negative flags from `value`.
    fn set_zero_negative(&mut self, value: u8)
        ensures
            final(self)@ == (CpuState { flags: old(self)@.flags.with_zero_negative(value), ..old(self)@ }),
    {
        self.flags.zero = value == 0;
        self.flags.negative = value >> 7 == 1;
        assert((value >> 7 == 1) == (value >= 0x80)) by (bit_vector);
    }

    // ------------------------------------------------------------ loads and stores
    /// LDA.
    pub fn load_a(&mut self, addressing_mode: AddressingMode)
        requires
            old(self).wf(),
            load_a_mode(addressing_mode),
            old(self)@.has_room(operand_length(addressing_mode)),
        ensures
            final(self).wf(),
            final(self)@ == old(self)@.load_a(addressing_mode),
    {
        let value = self.fetch_operand(addressing_mode);
        self.a = value;
        self.set_zero_negative(value);
    }

    /// LDX.
    pub fn load_x(&mut self, addressing_mode: AddressingMode)
        requires
            old(self).wf(),
            load_x_mode(addressing_mode),
            old(self)@.has_room(operand_length(addressing_mode)),
        ensures
            final(self).wf(),
            final(self)@ == old(self)@.load_x(addressing_mode),
    {
        let value = self.fetch_operand(addressing_mode);
        self.x = value;
        self.set_zero_negative(value);
    }

    /// LDY.
    pub fn load_y(&mut self, addressing_mode: AddressingMode)
        requires
            old(self).wf(),
            load_y_mode(addressing_mode),
            old(self)@.has_room(operand_length(addressing_mode)),
        ensures
            final(self).wf(),
            final(self)@ == old(self)@.load_y(addressing_mode),
    {
        let value = self.fetch_operand(addressing_mode);
        self.y = value;
        self.set_zero_negative(value);
    }

    /// STA.
    pub fn store_a(&mut self, addressing_mode: AddressingMode)
        requires
            old(self).wf(),
            store_a_mode(addressing_mode),
            old(self)@.has_room(operand_length(addressing_mode)),
        ensures
            final(self).wf(),
            final(self)@ == old(self)@.store_a(addressing_mode),
    {
        let address = self.fetch_address(addressing_mode);
        self.memory.set(address as usize, self.a);
    }

    /// STX.
    pub fn store_x(&mut self, addressing_mode: AddressingMode)
        requires
            old(self).wf(),
            store_x_mode(addressing_mode),
            old(self)@.has_room(operand_length(addressing_mode)),
        ensures
            final(self).wf(),
            final(self)@ == old(self)@.store_x(addressing_mode),
    {
        let address = self.fetch_address(addressing_mode);
        self.memory.set(address as usize, self.x);
    }

    /// STY.
    pub fn store_y(&mut self, addressing_mode: AddressingMode)
        requires
            old(self).wf(),
            store_y_mode(addressing_mode),
            old(self)@.has_room(operand_length(addressing_mode)),
        ensures
            final(self).wf(),
            final(self)@ == old(self)@.store_y(addressing_mode),
    {
        let address = self.fetch_address(addressing_mode);
        self.memory.set(address as usize, self.y);
    }

    // ------------------------------------------------------------ increments
    /// INC.
    pub fn increment_memory(&mut self, addressing_mode: AddressingMode)
        requires
            old(self).wf(),
            read_modify_write_mode(addressing_mode),
            old(self)@.has_room(operand_length(addressing_mode)),
        ensures
            final(self).wf(),
            final(self)@ == old(self)@.increment_memory(addressing_mode),
    {
        let address = self.fetch_address(addressing_mode);
        let value = self.memory[address as usize].wrapping_add(1);
        self.memory.set(address as usize, value);
        self.set_zero_negative(value);
    }

    /// INX.
    pub fn increment_x(&mut self)
        requires
            old(self).wf(),
        ensures
            final(self).wf(),
            final(self)@ == old(self)@.increment_x(),
    {
        self.x = self.x.wrapping_add(1);
        self.set_zero_negative(self.x);
    }

    /// INY.
    pub fn increment_y(&mut self)
        requires
            old(self).wf(),
        ensures
            final(self).wf(),
            final(self)@ == old(self)@.increment_y(),
    {
        self.y = self.y.wrapping_add(1);
        self.set_zero_negative(self.y);
    }

    /// DEC.
    pub fn decrement_memory(&mut self, addressing_mode: AddressingMode)
        requires
            old(self).wf(),
            read_modify_write_mode(addressing_mode),
            old(self)@.has_room(operand_length(addressing_mode)),
        ensures
            final(self).wf(),
            final(self)@ == old(self)@.decrement_memory(addressing_mode),
    {
        let address = self.fetch_address(addressing_mode);
        let value = self.memory[address as usize].wrapping_sub(1);
        self.memory.set(address as usize, value);
        self.set_zero_negative(value);
    }

    /// DEX.
    pub fn decrement_x(&mut self)
        requires
            old(self).wf(),
        ensures
            final(self).wf(),
            final(self)@ == old(self)@.decrement_x(),
    {
        self.x = self.x.wrapping_sub(1);
        self.set_zero_negative(self.x);
    }

    /// DEY.
    pub fn decrement_y(&mut self)
        requires
            old(self).wf(),
        ensures
            final(self).wf(),
            final(self)@ == old(self)@.decrement_y(),
    {
        self.y = self.y.wrapping_sub(1);
        self.set_zero_negative(self.y);
    }

    // ------------------------------------------------------------ arithmetic
    /// ADC (binary mode; the decimal flag is not consulted).
    #[verifier::spinoff_prover]
    pub fn add_with_carry(&mut self, addressing_mode: AddressingMode)
        requires
            old(self).wf(),
            accumulator_read_mode(addressing_mode),
            old(self)@.has_room(operand_length(addressing_mode)),
        ensures
            final(self).wf(),
            final(self)@ == old(self)@.add_with_carry(addressing_mode),
    {
        let memory_value = self.fetch_operand(addressing_mode);
        let old_value = self.a;
        let to_add = memory_value.wrapping_add(if self.flags.carry { 1 } else { 0 });
        assert(to_add == ((memory_value + (if self.flags.carry { 1int } else { 0 })) % 256) as u8);
        let total = old_value as u16 + to_add as u16;
        let new_value = old_value.wrapping_add(to_add);
        assert(new_value == (total % 256) as u8);
        let carry = total > 0xff;
        self.a = new_value;
        self.flags.carry = carry;
        let overflow = (old_value ^ new_value) & (to_add ^ new_value) & 0x80 != 0;
        assert(overflow == addition_overflows(old_value, to_add, new_value)) by (bit_vector)
            requires
                overflow == ((old_value ^ new_value) & (to_add ^ new_value) & 0x80 != 0),
        ;
        self.flags.overflow = overflow;
        self.set_zero_negative(new_value);
    }

    /// SBC (binary mode; the decimal flag is not consulted). The carry is set
    /// when the subtraction borrows.
    #[verifier::spinoff_prover]
    pub fn subtract_with_carry(&mut self, addressing_mode: AddressingMode)
        requires
            old(self).wf(),
            accumulator_read_mode(addressing_mode),
            old(self)@.has_room(operand_length(addressing_mode)),
        ensures
            final(self).wf(),
            final(self)@ == old(self)@.subtract_with_carry(addressing_mode),
    {
        let memory_value = self.fetch_operand(addressing_mode);
        let old_value = self.a;
        let to_sub = memory_value.wrapping_sub(if self.flags.carry { 0 } else { 1 });
        assert(to_sub == ((memory_value - (if self.flags.carry { 0int } else { 1 })) % 256) as u8);
        let new_value = old_value.wrapping_sub(to_sub);
        assert(new_value == ((old_value - to_sub) % 256) as u8);
        let carry = old_value < to_sub;
        self.a = new_value;
        self.flags.carry = carry;
        let overflow = (old_value ^ new_value) & (!to_sub ^ new_value) & 0x80 != 0;
        assert(overflow == subtraction_overflows(old_value, to_sub, new_value)) by (bit_vector)
            requires
                overflow == ((old_value ^ new_value) & (!to_sub ^ new_value) & 0x80 != 0),
        ;
        self.flags.overflow = overflow;
        self.set_zero_negative(new_value);
    }

    // ------------------------------------------------------------ transfers
    /// TAX.
    pub fn transfer_a_to_x(&mut self)
        requires
            old(self).wf(),
        ensures
            final(self).wf(),
            final(self)@ == old(self)@.transfer_a_to_x(),
    {
        self.x = self.a;
        self.set_zero_negative(self.x);
    }

    /// TAY.
    pub fn transfer_a_to_y(&mut self)
        requires
            old(self).wf(),
        ensures
            final(self).wf(),
            final(self)@ == old(self)@.transfer_a_to_y(),
    {
        self.y = self.a;
        self.set_zero_negative(self.y);
    }

    /// TXA.
    pub fn transfer_x_to_a(&mut self)
        requires
            old(self).wf(),
        ensures
            final(self).wf(),
            final(self)@ == old(self)@.transfer_x_to_a(),
    {
        self.a = self.x;
        self.set_zero_negative(self.a);
    }

    /// TYA.
    pub fn transfer_y_to_a(&mut self)
        requires
            old(self).wf(),
        ensures
            final(self).wf(),
            final(self)@ == old(self)@.transfer_y_to_a(),
    {
        self.a = self.y;
        self.set_zero_negative(self.a);
    }

    /// TSX.
    pub fn transfer_stack_pointer_to_x(&mut self)
        requires
            old(self).wf(),
        ensures
            final(self).wf(),
            final(self)@ == old(self)@.transfer_stack_pointer_to_x(),
    {
        self.x = self.sp;
        self.set_zero_negative(self.x);
    }

    /// TXS (flags unchanged).
    pub fn transfer_x_to_stack_pointer(&mut self)
        requires
            old(self).wf(),
        ensures
            final(self).wf(),
            final(self)@ == old(self)@.transfer_x_to_stack_pointer(),
    {
        self.sp = self.x;
    }

    // ------------------------------------------------------------ shifts
    /// ASL. On memory the operand is fetched a second time, from the bytes
    /// that follow, to find the address the result is written to.
    pub fn arithmetic_shift_left(&mut self, addressing_mode: AddressingMode)
        requires
            old(self).wf(),
            shift_mode(addressing_mode),
            old(self)@.has_room(2 * operand_length(addressing_mode)),
        ensures
            final(self).wf(),
            final(self)@ == old(self)@.arithmetic_shift_left(addressing_mode),
    {
        let mut value = match addressing_mode {
            AddressingMode::Accumulator => self.a,
            _ => {
                let address = self.fetch_address(addressing_mode);
                self.memory[address as usize]
            },
        };
        let ghost unshifted = value;
        self.flags.carry = value & 0x80 != 0;
        value = value << 1;
        self.flags.zero = value == 0;
        self.flags.negative = value & 0x80 != 0;
        assert(value == ((unshifted * 2) % 256) as u8 && (unshifted & 0x80 != 0) == (unshifted
            >= 0x80) && (value & 0x80 != 0) == (value >= 0x80)) by (bit_vector)
            requires
                value == unshifted << 1,
        ;
        match addressing_mode {
            AddressingMode::Accumulator => self.a = value,
            _ => {
                let address = self.fetch_address(addressing_mode);
                self.memory.set(address as usize, value);
            },
        }
    }

    // ------------------------------------------------------------ control flow
    /// BNE: the operand is a signed displacement from the following
    /// instruction, taken when the zero flag is clear.
    pub fn branch_if_not_equal(&mut self)
        requires
            old(self).wf(),
            old(self)@.has_room(1),
        ensures
            final(self).wf(),
            final(self)@ == old(self)@.branch_if_not_equal(),
    {
        let operand = self.read_next_byte();
        let address = operand as i8 as i16;
        assert(address == branch_displacement(operand)) by (bit_vector)
            requires
                address == operand as i8 as i16,
        ;
        if self.flags.zero == false {
            self.pc = self.pc.wrapping_add_signed(address);
        }
    }

    /// JMP.
    pub fn jump(&mut self, addressing_mode: AddressingMode)
        requires
            old(self).wf(),
            jump_mode(addressing_mode),
            old(self)@.has_room(1),
        ensures
            final(self).wf(),
            final(self)@ == old(self)@.jump(addressing_mode),
    {
        let address = match addressing_mode {
            AddressingMode::Absolute => self.peek_next_word(),
            _ => {
                let loc = self.peek_next_word();
                let first = self.memory[loc as usize];
                // The page-wrap quirk: a pointer at xxFF takes its high byte from xx00.
                let second = if loc & 0xff == 0xff {
                    assert(loc & 0xff00 == loc - 0xff && loc % 256 == 0xff) by (bit_vector)
                        requires
                            loc & 0xff == 0xff,
                    ;
                    self.memory[(loc & 0xff00) as usize]
                } else {
                    assert(loc % 256 != 0xff && loc < 0xffff) by (bit_vector)
                        requires
                            loc & 0xff != 0xff,
                    ;
                    self.memory[loc.wrapping_add(1) as usize]
                };
                first as u16 + second as u16 * 256
            },
        };
        self.pc = address;
    }

    /// JSR.
    pub fn jump_to_subroutine(&mut self)
        requires
            old(self).wf(),
            old(self)@.has_room(1),
        ensures
            final(self).wf(),
            final(self)@ == old(self)@.jump_to_subroutine(),
    {
        let new_address = self.peek_next_word();
        let return_address = self.pc + 1;
        let high = (return_address >> 8) as u8;
        let low = (return_address & 0xff) as u8;
        assert(high == (return_address / 256) as u8 && low == (return_address % 256) as u8)
            by (bit_vector)
            requires
                high == (return_address >> 8) as u8,
                low == (return_address & 0xff) as u8,
        ;
        self.push_to_stack(high);
        self.push_to_stack(low);
        self.pc = new_address;
    }

    /// RTS.
    pub fn return_to_subroutine(&mut self)
        requires
            old(self).wf(),
        ensures
            final(self).wf(),
            final(self)@ == old(self)@.return_to_subroutine(),
    {
        let low = self.pop_from_stack();
        let high = self.pop_from_stack();
        let address = low as u16 + high as u16 * 256;
        self.pc = address.wrapping_add(1);
    }

    /// BRK.
    pub fn break_(&mut self)
        requires
            old(self).wf(),
        ensures
            final(self).wf(),
            final(self)@ == old(self)@.break_(),
    {
        let pc = self.pc.wrapping_add(2);
        let high = (pc >> 8) as u8;
        let low = pc as u8;
        assert(high == (pc / 256) as u8 && low == (pc % 256) as u8) by (bit_vector)
            requires
                high == (pc >> 8) as u8,
                low == pc as u8,
        ;
        self.push_to_stack(high);
        self.push_to_stack(low);
        // Push NV11DIZC.
        let flags = (if self.flags.negative { 0x80u8 } else { 0 }) + (if self.flags.overflow {
            0x40u8
        } else {
            0
        }) + 0x30 + (if self.flags.decimal { 0x08u8 } else { 0 }) + (if self.flags.interrupt_disable {
            0x04u8
        } else {
            0
        }) + (if self.flags.zero { 0x02u8 } else { 0 }) + (if self.flags.carry { 0x01u8 } else { 0 });
        self.push_to_stack(flags);
        let low = self.memory[0xfffe];
        let high = self.memory[0xffff];
        self.pc = low as u16 + high as u16 * 256;
        self.flags.interrupt_disable = true;
    }

    /// RTI.
    pub fn return_from_interrupt(&mut self)
        requires
            old(self).wf(),
        ensures
            final(self).wf(),
            final(self)@ == old(self)@.return_from_interrupt(),
    {
        let flags = self.pop_from_stack();
        self.flags.negative = flags & 0x80 != 0;
        self.flags.overflow = flags & 0x40 != 0;
        self.flags.decimal = flags & 0x8 != 0;
        self.flags.interrupt_disable = flags & 0x4 != 0;
        self.flags.zero = flags & 0x2 != 0;
        self.flags.carry = flags & 0x1 != 0;
        let low = self.pop_from_stack();
        let high = self.pop_from_stack();
        self.pc = low as u16 + high as u16 * 256;
    }

    // ------------------------------------------------------------ flags
    /// SEI: only records the request; the flag itself is set after the
    /// instruction that follows (see `step`).
    pub fn set_interrupt_disable(&mut self)
        requires
            old(self).wf(),
        ensures
            final(self).wf(),
            final(self)@ == old(self)@.set_interrupt_disable(),
    {
        self.interrupt_disable_called = true;
    }

    /// CLD.
    pub fn clear_decimal(&mut self)
        requires
            old(self).wf(),
        ensures
            final(self).wf(),
            final(self)@ == old(self)@.clear_decimal(),
    {
        self.flags.decimal = false;
    }
}

} // verus!
