//! Properties that relate several instructions of the model.
use vstd::prelude::*;
use crate::state::{
    AddressingMode, CpuState, Flags, accumulator_read_mode, load_a_mode, operand_length,
    read_modify_write_mode, shift_mode, store_a_mode,
};
use crate::step::SET_INTERRUPT_DISABLE_OPCODE;

verus! {

/// A byte read as a two's-complement number.
pub open spec fn signed_value(byte: int) -> int {
    if byte < 128 {
        byte
    } else {
        byte - 256
    }
}

/// The value of a flag as a digit.
pub open spec fn bit(flag: bool) -> int {
    if flag {
        1
    } else {
        0
    }
}

/// ADC adds `addend` (the operand plus the incoming carry, mod 256) to the
/// accumulator: the new accumulator and the carry out together hold the full
/// sum, overflow tells whether the sum of the signed values leaves
/// -128..=127, and zero and negative describe the new accumulator.
pub proof fn lemma_add_with_carry_arithmetic(s: CpuState, mode: AddressingMode)
    requires
        accumulator_read_mode(mode),
        s.has_room(operand_length(mode)),
    ensures
        ({
            let r = s.add_with_carry(mode);
            let addend = (s.operand_value(mode) + bit(s.flags.carry)) % 256;
            &&& r.a + 256 * bit(r.flags.carry) == s.a + addend
            &&& r.flags.overflow == !(-128 <= signed_value(s.a as int) + signed_value(addend) <= 127)
            &&& r.flags.zero == (r.a == 0)
            &&& r.flags.negative == (r.a >= 128)
            &&& r.pc == s.pc + operand_length(mode)
            &&& r.x == s.x && r.y == s.y && r.sp == s.sp && r.memory == s.memory
        }),
{
}

/// SBC takes `subtrahend` (the operand, less one when the carry is clear,
/// mod 256) from the accumulator: the new accumulator is the difference,
/// plus 256 exactly when the carry (the borrow) is set; overflow tells
/// whether the difference of the signed values leaves -128..=127.
pub proof fn lemma_subtract_with_carry_arithmetic(s: CpuState, mode: AddressingMode)
    requires
        accumulator_read_mode(mode),
        s.has_room(operand_length(mode)),
    ensures
        ({
            let r = s.subtract_with_carry(mode);
            let subtrahend = (s.operand_value(mode) - (1 - bit(s.flags.carry))) % 256;
            &&& r.a - 256 * bit(r.flags.carry) == s.a - subtrahend
            &&& r.flags.overflow == !(-128 <= signed_value(s.a as int) - signed_value(subtrahend)
                <= 127)
            &&& r.flags.zero == (r.a == 0)
            &&& r.flags.negative == (r.a >= 128)
            &&& r.pc == s.pc + operand_length(mode)
            &&& r.x == s.x && r.y == s.y && r.sp == s.sp && r.memory == s.memory
        }),
{
}

/// ASL moves every bit of the byte one place up: bit 7 goes to the carry,
/// bit 0 of the result is clear, and halving the result with the carry as
/// bit 7 gives the byte back. The incoming carry plays no part.
pub proof fn lemma_shift_left_bits(s: CpuState, mode: AddressingMode)
    requires
        s.wf(),
        shift_mode(mode),
        s.has_room(2 * operand_length(mode)),
    ensures
        mode == AddressingMode::Accumulator ==> ({
            let r = s.arithmetic_shift_left(mode);
            &&& r.a % 2 == 0
            &&& r.a / 2 + 128 * bit(r.flags.carry) == s.a
            &&& r.flags.zero == (r.a == 0)
            &&& r.flags.negative == (r.a >= 128)
            &&& r.pc == s.pc && r.memory == s.memory
        }),
        mode != AddressingMode::Accumulator ==> ({
            let r = s.arithmetic_shift_left(mode);
            let value = s.byte_at(s.effective_address(mode) as int);
            let target = s.advance(operand_length(mode)).effective_address(mode) as int;
            let written = r.byte_at(target);
            &&& written % 2 == 0
            &&& written / 2 + 128 * bit(r.flags.carry) == value
            &&& r.flags.zero == (written == 0)
            &&& r.flags.negative == (written >= 128)
            &&& r.memory == s.memory.update(target, written)
            &&& r.a == s.a
            &&& r.pc == s.pc + 2 * operand_length(mode)
        }),
        forall|c: bool|
            #![trigger (CpuState { flags: Flags { carry: c, ..s.flags }, ..s }).arithmetic_shift_left(mode)]
            (CpuState { flags: Flags { carry: c, ..s.flags }, ..s }).arithmetic_shift_left(mode).a
                == s.arithmetic_shift_left(mode).a
            && (CpuState { flags: Flags { carry: c, ..s.flags }, ..s }).arithmetic_shift_left(mode).memory
                == s.arithmetic_shift_left(mode).memory,
{
}

/// RTI takes each flag from its bit of the popped status byte: carry bit 0,
/// zero bit 1, interrupt-disable bit 2, decimal bit 3, overflow bit 6 and
/// negative bit 7. It takes pc from the next two bytes, low byte first, and
/// moves sp up by three.
pub proof fn lemma_return_from_interrupt_bits(s: CpuState)
    ensures
        ({
            let r = s.return_from_interrupt();
            let b = s.top() as int;
            &&& r.flags.carry == (b % 2 == 1)
            &&& r.flags.zero == ((b / 2) % 2 == 1)
            &&& r.flags.interrupt_disable == ((b / 4) % 2 == 1)
            &&& r.flags.decimal == ((b / 8) % 2 == 1)
            &&& r.flags.overflow == ((b / 64) % 2 == 1)
            &&& r.flags.negative == ((b / 128) % 2 == 1)
            &&& r.pc == s.byte_at(0x100 + (s.sp + 1) % 256) + 256 * s.byte_at(
                0x100 + (s.sp + 2) % 256,
            )
            &&& r.sp == (s.sp + 3) % 256
            &&& r.memory == s.memory
        }),
{
    let b = s.top();
    assert((b & 0x01 != 0) == (b % 2 == 1) && (b & 0x02 != 0) == ((b / 2) % 2 == 1) && (b & 0x04
        != 0) == ((b / 4) % 2 == 1) && (b & 0x08 != 0) == ((b / 8) % 2 == 1) && (b & 0x40 != 0) == ((
    b / 64) % 2 == 1) && (b & 0x80 != 0) == ((b / 128) % 2 == 1)) by (bit_vector);
}

/// The status byte that BRK pushes, read back by RTI (once sp is moved up
/// to it), gives exactly the flags that BRK ran with.
pub proof fn lemma_break_status_restored(s: CpuState)
    requires
        s.wf(),
    ensures
        s.break_().pop().return_from_interrupt().flags == s.flags,
{
    lemma_status_byte_round_trip(s.flags);
    let t = s.break_();
    assert(t.pop().top() == s.flags.status_byte());
}

/// The status byte that BRK pushes gives back, when RTI pulls it, exactly the
/// flags it was made from.
pub proof fn lemma_status_byte_round_trip(flags: Flags)
    ensures
        Flags::from_status_byte(flags.status_byte()) == flags,
{
    let n = flags.negative;
    let v = flags.overflow;
    let d = flags.decimal;
    let i = flags.interrupt_disable;
    let z = flags.zero;
    let c = flags.carry;
    let b = flags.status_byte();
    assert(b == ((if n { 0x80u8 } else { 0 }) | (if v { 0x40u8 } else { 0 }) | 0x30u8 | (if d {
        0x08u8
    } else {
        0
    }) | (if i { 0x04u8 } else { 0 }) | (if z { 0x02u8 } else { 0 }) | (if c { 0x01u8 } else { 0 })))
        by (bit_vector)
        requires
            b == ((if n { 0x80int } else { 0 }) + (if v { 0x40int } else { 0 }) + 0x30 + (if d {
                0x08int
            } else {
                0
            }) + (if i { 0x04int } else { 0 }) + (if z { 0x02int } else { 0 }) + (if c {
                0x01int
            } else {
                0
            })) as u8,
    ;
    assert((b & 0x80 != 0) == n && (b & 0x40 != 0) == v && (b & 0x08 != 0) == d && (b & 0x04 != 0)
        == i && (b & 0x02 != 0) == z && (b & 0x01 != 0) == c) by (bit_vector)
        requires
            b == ((if n { 0x80u8 } else { 0 }) | (if v { 0x40u8 } else { 0 }) | 0x30u8 | (if d {
                0x08u8
            } else {
                0
            }) | (if i { 0x04u8 } else { 0 }) | (if z { 0x02u8 } else { 0 }) | (if c {
                0x01u8
            } else {
                0
            })),
    ;
}

/// A pop after a push, and a push after a pop, leave the stack pointer where
/// it was.
pub proof fn lemma_push_pop_stack_pointer(s: CpuState, value: u8)
    ensures
        s.push(value).pop().sp == s.sp,
        s.pop().push(value).sp == s.sp,
{
}

/// JSR followed by RTS, and BRK followed by RTI, leave the stack pointer
/// where it was.
pub proof fn lemma_call_return_stack_pointer(s: CpuState)
    ensures
        s.jump_to_subroutine().return_to_subroutine().sp == s.sp,
        s.break_().return_from_interrupt().sp == s.sp,
{
}

/// INX undoes DEX and DEX undoes INX, and likewise for INY and DEY; only the
/// zero and negative flags are left describing the register.
pub proof fn lemma_increment_decrement_registers(s: CpuState)
    ensures
        s.increment_x().decrement_x() == (CpuState { flags: s.flags.with_zero_negative(s.x), ..s }),
        s.decrement_x().increment_x() == (CpuState { flags: s.flags.with_zero_negative(s.x), ..s }),
        s.increment_y().decrement_y() == (CpuState { flags: s.flags.with_zero_negative(s.y), ..s }),
        s.decrement_y().increment_y() == (CpuState { flags: s.flags.with_zero_negative(s.y), ..s }),
{
}

/// DEC on the cell that INC has just changed gives the memory back as it was.
pub proof fn lemma_increment_decrement_memory(
    s: CpuState,
    first: AddressingMode,
    second: AddressingMode,
)
    requires
        s.wf(),
        read_modify_write_mode(first),
        read_modify_write_mode(second),
        s.increment_memory(first).effective_address(second) == s.effective_address(first),
    ensures
        s.increment_memory(first).decrement_memory(second).memory == s.memory,
{
    assert(s.increment_memory(first).decrement_memory(second).memory =~= s.memory);
}

/// TAX then TXA leaves the accumulator as it was, and copies it into `x`.
pub proof fn lemma_transfer_round_trip(s: CpuState)
    ensures
        s.transfer_a_to_x().transfer_x_to_a().a == s.a,
        s.transfer_a_to_x().transfer_x_to_a().x == s.a,
        s.transfer_a_to_y().transfer_y_to_a().a == s.a,
        s.transfer_a_to_y().transfer_y_to_a().y == s.a,
{
}

/// A load from the address that a store has just written gives back the
/// stored accumulator, and sets the zero and negative flags from it.
pub proof fn lemma_store_then_load(s: CpuState, store: AddressingMode, load: AddressingMode)
    requires
        s.wf(),
        store_a_mode(store),
        load_a_mode(load),
        load != AddressingMode::Immediate,
        s.store_a(store).read_address(load) == s.effective_address(store),
    ensures
        s.store_a(store).load_a(load).a == s.a,
        s.store_a(store).load_a(load).flags == s.flags.with_zero_negative(s.a),
{
}

/// A request recorded by SEI is never forgotten by a later step.
pub proof fn lemma_interrupt_disable_request_kept(s: CpuState)
    requires
        s.step() is Ok,
    ensures
        s.interrupt_disable_called ==> s.step()->Ok_0.interrupt_disable_called,
{
}

/// The interrupt-disable flag follows SEI with a delay of one instruction:
/// SEI itself leaves the flags as they were, and once it has run every later
/// instruction other than SEI ends with the flag set.
pub proof fn lemma_interrupt_disable_delayed(s: CpuState)
    requires
        s.step() is Ok,
    ensures
        s.byte_at(s.pc as int) == SET_INTERRUPT_DISABLE_OPCODE ==> s.step()->Ok_0.flags == s.flags
            && s.step()->Ok_0.interrupt_disable_called,
        s.interrupt_disable_called && s.byte_at(s.pc as int) != SET_INTERRUPT_DISABLE_OPCODE
            ==> s.step()->Ok_0.flags.interrupt_disable,
{
    lemma_interrupt_disable_request_kept(s);
}

} // verus!
