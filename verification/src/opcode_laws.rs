//! What each implemented opcode does to the processor, stated over the bytes
//! of memory and the registers before the step.
use vstd::prelude::*;
use crate::laws::{
    bit, lemma_add_with_carry_arithmetic, lemma_return_from_interrupt_bits,
    lemma_shift_left_bits,
    lemma_subtract_with_carry_arithmetic, signed_value,
};
use crate::state::{AddressingMode, CpuState};
use crate::step::StepError;

verus! {

/// The byte at `address`, as a number.
pub open spec fn at(s: CpuState, address: int) -> int {
    s.memory[address] as int
}

/// LDA, LDX and LDY, in every mode of the opcode table: the register gets the
/// byte the mode designates (in indirect,Y the byte at the zero-page pointer),
/// zero and negative describe it, and pc moves past the operand.
#[verifier::spinoff_prover]
#[verifier::rlimit(80)]
pub proof fn lemma_step_loads(s: CpuState)
    requires
        s.wf(),
        s.step() is Ok,
    ensures
        ({
            let r = s.step()->Ok_0;
            let op = at(s, s.pc as int);
            let p = s.pc + 1;
            let w = at(s, p) + 256 * at(s, p + 1);
            &&& (op == 0xa9 ==> r.a == at(s, p) && r.flags.zero == (r.a == 0)
                && r.flags.negative == (r.a >= 128) && r.pc == s.pc + 2 && r.memory == s.memory
                && r.x == s.x && r.y == s.y && r.sp == s.sp)
            &&& (op == 0xa5 ==> r.a == at(s, at(s, p)) && r.flags.zero == (r.a == 0)
                && r.flags.negative == (r.a >= 128) && r.pc == s.pc + 2 && r.memory == s.memory
                && r.x == s.x && r.y == s.y && r.sp == s.sp)
            &&& (op == 0xb5 ==> r.a == at(s, ((at(s, p) + s.x) % 256)) && r.flags.zero == (r.a == 0)
                && r.flags.negative == (r.a >= 128) && r.pc == s.pc + 2 && r.memory == s.memory
                && r.x == s.x && r.y == s.y && r.sp == s.sp)
            &&& (op == 0xad ==> r.a == at(s, (at(s, p) + 256 * at(s, p + 1))) && r.flags.zero == (r.a == 0)
                && r.flags.negative == (r.a >= 128) && r.pc == s.pc + 3 && r.memory == s.memory
                && r.x == s.x && r.y == s.y && r.sp == s.sp)
            &&& (op == 0xbd ==> r.a == at(s, (((at(s, p) + 256 * at(s, p + 1)) + s.x) % 0x10000)) && r.flags.zero == (r.a == 0)
                && r.flags.negative == (r.a >= 128) && r.pc == s.pc + 3 && r.memory == s.memory
                && r.x == s.x && r.y == s.y && r.sp == s.sp)
            &&& (op == 0xb9 ==> r.a == at(s, (((at(s, p) + 256 * at(s, p + 1)) + s.y) % 0x10000)) && r.flags.zero == (r.a == 0)
                && r.flags.negative == (r.a >= 128) && r.pc == s.pc + 3 && r.memory == s.memory
                && r.x == s.x && r.y == s.y && r.sp == s.sp)
            &&& (op == 0xa1 ==> r.a == at(s, (at(s, ((at(s, p) + s.x) % 256)) + 256 * at(s, (((at(s, p) + s.x) % 256) + 1) % 256))) && r.flags.zero == (r.a == 0)
                && r.flags.negative == (r.a >= 128) && r.pc == s.pc + 2 && r.memory == s.memory
                && r.x == s.x && r.y == s.y && r.sp == s.sp)
            &&& (op == 0xb1 ==> r.a == at(s, (at(s, at(s, p)) + 256 * at(s, (at(s, p) + 1) % 256))) && r.flags.zero == (r.a == 0)
                && r.flags.negative == (r.a >= 128) && r.pc == s.pc + 2 && r.memory == s.memory
                && r.x == s.x && r.y == s.y && r.sp == s.sp)
            &&& (op == 0xa2 ==> r.x == at(s, p) && r.flags.zero == (r.x == 0)
                && r.flags.negative == (r.x >= 128) && r.pc == s.pc + 2 && r.memory == s.memory
                && r.a == s.a && r.y == s.y && r.sp == s.sp)
            &&& (op == 0xa6 ==> r.x == at(s, at(s, p)) && r.flags.zero == (r.x == 0)
                && r.flags.negative == (r.x >= 128) && r.pc == s.pc + 2 && r.memory == s.memory
                && r.a == s.a && r.y == s.y && r.sp == s.sp)
            &&& (op == 0xb6 ==> r.x == at(s, ((at(s, p) + s.y) % 256)) && r.flags.zero == (r.x == 0)
                && r.flags.negative == (r.x >= 128) && r.pc == s.pc + 2 && r.memory == s.memory
                && r.a == s.a && r.y == s.y && r.sp == s.sp)
            &&& (op == 0xae ==> r.x == at(s, (at(s, p) + 256 * at(s, p + 1))) && r.flags.zero == (r.x == 0)
                && r.flags.negative == (r.x >= 128) && r.pc == s.pc + 3 && r.memory == s.memory
                && r.a == s.a && r.y == s.y && r.sp == s.sp)
            &&& (op == 0xbe ==> r.x == at(s, (((at(s, p) + 256 * at(s, p + 1)) + s.y) % 0x10000)) && r.flags.zero == (r.x == 0)
                && r.flags.negative == (r.x >= 128) && r.pc == s.pc + 3 && r.memory == s.memory
                && r.a == s.a && r.y == s.y && r.sp == s.sp)
            &&& (op == 0xa0 ==> r.y == at(s, p) && r.flags.zero == (r.y == 0)
                && r.flags.negative == (r.y >= 128) && r.pc == s.pc + 2 && r.memory == s.memory
                && r.a == s.a && r.x == s.x && r.sp == s.sp)
            &&& (op == 0xa4 ==> r.y == at(s, at(s, p)) && r.flags.zero == (r.y == 0)
                && r.flags.negative == (r.y >= 128) && r.pc == s.pc + 2 && r.memory == s.memory
                && r.a == s.a && r.x == s.x && r.sp == s.sp)
            &&& (op == 0xb4 ==> r.y == at(s, ((at(s, p) + s.x) % 256)) && r.flags.zero == (r.y == 0)
                && r.flags.negative == (r.y >= 128) && r.pc == s.pc + 2 && r.memory == s.memory
                && r.a == s.a && r.x == s.x && r.sp == s.sp)
            &&& (op == 0xac ==> r.y == at(s, (at(s, p) + 256 * at(s, p + 1))) && r.flags.zero == (r.y == 0)
                && r.flags.negative == (r.y >= 128) && r.pc == s.pc + 3 && r.memory == s.memory
                && r.a == s.a && r.x == s.x && r.sp == s.sp)
            &&& (op == 0xbc ==> r.y == at(s, (((at(s, p) + 256 * at(s, p + 1)) + s.x) % 0x10000)) && r.flags.zero == (r.y == 0)
                && r.flags.negative == (r.y >= 128) && r.pc == s.pc + 3 && r.memory == s.memory
                && r.a == s.a && r.x == s.x && r.sp == s.sp)
        }),
{
}

/// STA, STX and STY, in every mode of the opcode table: exactly one byte of
/// memory changes, at the address the mode designates (in indirect,Y the
/// zero-page pointer plus `y`), and it receives the register.
#[verifier::spinoff_prover]
#[verifier::rlimit(80)]
pub proof fn lemma_step_stores(s: CpuState)
    requires
        s.wf(),
        s.step() is Ok,
    ensures
        ({
            let r = s.step()->Ok_0;
            let op = at(s, s.pc as int);
            let p = s.pc + 1;
            let w = at(s, p) + 256 * at(s, p + 1);
            &&& (op == 0x85 ==> r.memory == s.memory.update(at(s, p), s.a)
                && r.pc == s.pc + 2 && r.a == s.a && r.x == s.x && r.y == s.y && r.sp == s.sp && r.flags.zero == s.flags.zero
                && r.flags.negative == s.flags.negative)
            &&& (op == 0x95 ==> r.memory == s.memory.update(((at(s, p) + s.x) % 256), s.a)
                && r.pc == s.pc + 2 && r.a == s.a && r.x == s.x && r.y == s.y && r.sp == s.sp && r.flags.zero == s.flags.zero
                && r.flags.negative == s.flags.negative)
            &&& (op == 0x8d ==> r.memory == s.memory.update((at(s, p) + 256 * at(s, p + 1)), s.a)
                && r.pc == s.pc + 3 && r.a == s.a && r.x == s.x && r.y == s.y && r.sp == s.sp && r.flags.zero == s.flags.zero
                && r.flags.negative == s.flags.negative)
            &&& (op == 0x9d ==> r.memory == s.memory.update((((at(s, p) + 256 * at(s, p + 1)) + s.x) % 0x10000), s.a)
                && r.pc == s.pc + 3 && r.a == s.a && r.x == s.x && r.y == s.y && r.sp == s.sp && r.flags.zero == s.flags.zero
                && r.flags.negative == s.flags.negative)
            &&& (op == 0x99 ==> r.memory == s.memory.update((((at(s, p) + 256 * at(s, p + 1)) + s.y) % 0x10000), s.a)
                && r.pc == s.pc + 3 && r.a == s.a && r.x == s.x && r.y == s.y && r.sp == s.sp && r.flags.zero == s.flags.zero
                && r.flags.negative == s.flags.negative)
            &&& (op == 0x81 ==> r.memory == s.memory.update((at(s, ((at(s, p) + s.x) % 256)) + 256 * at(s, (((at(s, p) + s.x) % 256) + 1) % 256)), s.a)
                && r.pc == s.pc + 2 && r.a == s.a && r.x == s.x && r.y == s.y && r.sp == s.sp && r.flags.zero == s.flags.zero
                && r.flags.negative == s.flags.negative)
            &&& (op == 0x91 ==> r.memory == s.memory.update((((at(s, at(s, p)) + 256 * at(s, (at(s, p) + 1) % 256)) + s.y) % 0x10000), s.a)
                && r.pc == s.pc + 2 && r.a == s.a && r.x == s.x && r.y == s.y && r.sp == s.sp && r.flags.zero == s.flags.zero
                && r.flags.negative == s.flags.negative)
            &&& (op == 0x86 ==> r.memory == s.memory.update(at(s, p), s.x)
                && r.pc == s.pc + 2 && r.a == s.a && r.x == s.x && r.y == s.y && r.sp == s.sp && r.flags.zero == s.flags.zero
                && r.flags.negative == s.flags.negative)
            &&& (op == 0x96 ==> r.memory == s.memory.update(((at(s, p) + s.y) % 256), s.x)
                && r.pc == s.pc + 2 && r.a == s.a && r.x == s.x && r.y == s.y && r.sp == s.sp && r.flags.zero == s.flags.zero
                && r.flags.negative == s.flags.negative)
            &&& (op == 0x8e ==> r.memory == s.memory.update((at(s, p) + 256 * at(s, p + 1)), s.x)
                && r.pc == s.pc + 3 && r.a == s.a && r.x == s.x && r.y == s.y && r.sp == s.sp && r.flags.zero == s.flags.zero
                && r.flags.negative == s.flags.negative)
            &&& (op == 0x84 ==> r.memory == s.memory.update(at(s, p), s.y)
                && r.pc == s.pc + 2 && r.a == s.a && r.x == s.x && r.y == s.y && r.sp == s.sp && r.flags.zero == s.flags.zero
                && r.flags.negative == s.flags.negative)
            &&& (op == 0x94 ==> r.memory == s.memory.update(((at(s, p) + s.x) % 256), s.y)
                && r.pc == s.pc + 2 && r.a == s.a && r.x == s.x && r.y == s.y && r.sp == s.sp && r.flags.zero == s.flags.zero
                && r.flags.negative == s.flags.negative)
            &&& (op == 0x8c ==> r.memory == s.memory.update((at(s, p) + 256 * at(s, p + 1)), s.y)
                && r.pc == s.pc + 3 && r.a == s.a && r.x == s.x && r.y == s.y && r.sp == s.sp && r.flags.zero == s.flags.zero
                && r.flags.negative == s.flags.negative)
        }),
{
}

/// INC in every mode of the opcode table: exactly one byte of memory changes,
/// at the address the mode designates, and goes up by one (mod 256).
#[verifier::spinoff_prover]
#[verifier::rlimit(80)]
pub proof fn lemma_step_increment_memory(s: CpuState)
    requires
        s.wf(),
        s.step() is Ok,
    ensures
        ({
            let r = s.step()->Ok_0;
            let op = at(s, s.pc as int);
            let p = s.pc + 1;
            let w = at(s, p) + 256 * at(s, p + 1);
            &&& (op == 0xe6 ==> r.memory == s.memory.update(at(s, p), ((at(s, at(s, p)) + 1) % 256) as u8)
                && r.flags.zero == (r.memory[at(s, p)] == 0) && r.flags.negative == (r.memory[at(s, p)] >= 128)
                && r.pc == s.pc + 2 && r.a == s.a && r.x == s.x && r.y == s.y && r.sp == s.sp)
            &&& (op == 0xf6 ==> r.memory == s.memory.update(((at(s, p) + s.x) % 256), ((at(s, ((at(s, p) + s.x) % 256)) + 1) % 256) as u8)
                && r.flags.zero == (r.memory[((at(s, p) + s.x) % 256)] == 0) && r.flags.negative == (r.memory[((at(s, p) + s.x) % 256)] >= 128)
                && r.pc == s.pc + 2 && r.a == s.a && r.x == s.x && r.y == s.y && r.sp == s.sp)
            &&& (op == 0xee ==> r.memory == s.memory.update((at(s, p) + 256 * at(s, p + 1)), ((at(s, (at(s, p) + 256 * at(s, p + 1))) + 1) % 256) as u8)
                && r.flags.zero == (r.memory[(at(s, p) + 256 * at(s, p + 1))] == 0) && r.flags.negative == (r.memory[(at(s, p) + 256 * at(s, p + 1))] >= 128)
                && r.pc == s.pc + 3 && r.a == s.a && r.x == s.x && r.y == s.y && r.sp == s.sp)
            &&& (op == 0xfe ==> r.memory == s.memory.update((((at(s, p) + 256 * at(s, p + 1)) + s.x) % 0x10000), ((at(s, (((at(s, p) + 256 * at(s, p + 1)) + s.x) % 0x10000)) + 1) % 256) as u8)
                && r.flags.zero == (r.memory[(((at(s, p) + 256 * at(s, p + 1)) + s.x) % 0x10000)] == 0) && r.flags.negative == (r.memory[(((at(s, p) + 256 * at(s, p + 1)) + s.x) % 0x10000)] >= 128)
                && r.pc == s.pc + 3 && r.a == s.a && r.x == s.x && r.y == s.y && r.sp == s.sp)
        }),
{
}

/// DEC writes the byte plus 255, mod 256.
proof fn lemma_decrement_as_addition(t: CpuState, mode: AddressingMode)
    ensures
        t.decrement_memory(mode).memory == t.memory.update(
            t.effective_address(mode) as int,
            ((t.byte_at(t.effective_address(mode) as int) + 255) % 256) as u8,
        ),
{
}

/// DEC in every mode of the opcode table: exactly one byte of memory changes,
/// at the address the mode designates, and goes down by one (mod 256).
#[verifier::spinoff_prover]
#[verifier::rlimit(80)]
pub proof fn lemma_step_decrement_memory(s: CpuState)
    requires
        s.wf(),
        s.step() is Ok,
    ensures
        ({
            let r = s.step()->Ok_0;
            let op = at(s, s.pc as int);
            let p = s.pc + 1;
            let w = at(s, p) + 256 * at(s, p + 1);
            &&& (op == 0xc6 ==> r.memory == s.memory.update(at(s, p), ((at(s, at(s, p)) + 255) % 256) as u8)
                && r.flags.zero == (r.memory[at(s, p)] == 0) && r.flags.negative == (r.memory[at(s, p)] >= 128)
                && r.pc == s.pc + 2 && r.a == s.a && r.x == s.x && r.y == s.y && r.sp == s.sp)
            &&& (op == 0xd6 ==> r.memory == s.memory.update(((at(s, p) + s.x) % 256), ((at(s, ((at(s, p) + s.x) % 256)) + 255) % 256) as u8)
                && r.flags.zero == (r.memory[((at(s, p) + s.x) % 256)] == 0) && r.flags.negative == (r.memory[((at(s, p) + s.x) % 256)] >= 128)
                && r.pc == s.pc + 2 && r.a == s.a && r.x == s.x && r.y == s.y && r.sp == s.sp)
            &&& (op == 0xce ==> r.memory == s.memory.update((at(s, p) + 256 * at(s, p + 1)), ((at(s, (at(s, p) + 256 * at(s, p + 1))) + 255) % 256) as u8)
                && r.flags.zero == (r.memory[(at(s, p) + 256 * at(s, p + 1))] == 0) && r.flags.negative == (r.memory[(at(s, p) + 256 * at(s, p + 1))] >= 128)
                && r.pc == s.pc + 3 && r.a == s.a && r.x == s.x && r.y == s.y && r.sp == s.sp)
            &&& (op == 0xde ==> r.memory == s.memory.update((((at(s, p) + 256 * at(s, p + 1)) + s.x) % 0x10000), ((at(s, (((at(s, p) + 256 * at(s, p + 1)) + s.x) % 0x10000)) + 255) % 256) as u8)
                && r.flags.zero == (r.memory[(((at(s, p) + 256 * at(s, p + 1)) + s.x) % 0x10000)] == 0) && r.flags.negative == (r.memory[(((at(s, p) + 256 * at(s, p + 1)) + s.x) % 0x10000)] >= 128)
                && r.pc == s.pc + 3 && r.a == s.a && r.x == s.x && r.y == s.y && r.sp == s.sp)
        }),
{
    let op = s.memory[s.pc as int];
    let t = s.advance(1);
    if op == 0xc6 {
        lemma_decrement_as_addition(t, AddressingMode::ZeroPage);
    } else if op == 0xd6 {
        lemma_decrement_as_addition(t, AddressingMode::ZeroPageX);
    } else if op == 0xce {
        lemma_decrement_as_addition(t, AddressingMode::Absolute);
    } else if op == 0xde {
        lemma_decrement_as_addition(t, AddressingMode::AbsoluteX);
    }
}

/// ADC in every mode of the opcode table, stated as a sum and a signed range
/// over the operand byte.
#[verifier::spinoff_prover]
#[verifier::rlimit(80)]
pub proof fn lemma_step_add_with_carry(s: CpuState)
    requires
        s.wf(),
        s.step() is Ok,
    ensures
        ({
            let r = s.step()->Ok_0;
            let op = at(s, s.pc as int);
            let p = s.pc + 1;
            let w = at(s, p) + 256 * at(s, p + 1);
            &&& (op == 0x69 ==> r.a + 256 * bit(r.flags.carry) == s.a + ((at(s, p) + bit(s.flags.carry)) % 256)
                && r.flags.overflow == !(-128 <= signed_value(s.a as int) + signed_value(((at(s, p) + bit(s.flags.carry)) % 256)) <= 127)
                && r.flags.zero == (r.a == 0) && r.flags.negative == (r.a >= 128) && r.pc == s.pc + 2
                && r.memory == s.memory && r.x == s.x && r.y == s.y && r.sp == s.sp)
            &&& (op == 0x65 ==> r.a + 256 * bit(r.flags.carry) == s.a + ((at(s, at(s, p)) + bit(s.flags.carry)) % 256)
                && r.flags.overflow == !(-128 <= signed_value(s.a as int) + signed_value(((at(s, at(s, p)) + bit(s.flags.carry)) % 256)) <= 127)
                && r.flags.zero == (r.a == 0) && r.flags.negative == (r.a >= 128) && r.pc == s.pc + 2
                && r.memory == s.memory && r.x == s.x && r.y == s.y && r.sp == s.sp)
            &&& (op == 0x75 ==> r.a + 256 * bit(r.flags.carry) == s.a + ((at(s, ((at(s, p) + s.x) % 256)) + bit(s.flags.carry)) % 256)
                && r.flags.overflow == !(-128 <= signed_value(s.a as int) + signed_value(((at(s, ((at(s, p) + s.x) % 256)) + bit(s.flags.carry)) % 256)) <= 127)
                && r.flags.zero == (r.a == 0) && r.flags.negative == (r.a >= 128) && r.pc == s.pc + 2
                && r.memory == s.memory && r.x == s.x && r.y == s.y && r.sp == s.sp)
            &&& (op == 0x6d ==> r.a + 256 * bit(r.flags.carry) == s.a + ((at(s, (at(s, p) + 256 * at(s, p + 1))) + bit(s.flags.carry)) % 256)
                && r.flags.overflow == !(-128 <= signed_value(s.a as int) + signed_value(((at(s, (at(s, p) + 256 * at(s, p + 1))) + bit(s.flags.carry)) % 256)) <= 127)
                && r.flags.zero == (r.a == 0) && r.flags.negative == (r.a >= 128) && r.pc == s.pc + 3
                && r.memory == s.memory && r.x == s.x && r.y == s.y && r.sp == s.sp)
            &&& (op == 0x7d ==> r.a + 256 * bit(r.flags.carry) == s.a + ((at(s, (((at(s, p) + 256 * at(s, p + 1)) + s.x) % 0x10000)) + bit(s.flags.carry)) % 256)
                && r.flags.overflow == !(-128 <= signed_value(s.a as int) + signed_value(((at(s, (((at(s, p) + 256 * at(s, p + 1)) + s.x) % 0x10000)) + bit(s.flags.carry)) % 256)) <= 127)
                && r.flags.zero == (r.a == 0) && r.flags.negative == (r.a >= 128) && r.pc == s.pc + 3
                && r.memory == s.memory && r.x == s.x && r.y == s.y && r.sp == s.sp)
            &&& (op == 0x79 ==> r.a + 256 * bit(r.flags.carry) == s.a + ((at(s, (((at(s, p) + 256 * at(s, p + 1)) + s.y) % 0x10000)) + bit(s.flags.carry)) % 256)
                && r.flags.overflow == !(-128 <= signed_value(s.a as int) + signed_value(((at(s, (((at(s, p) + 256 * at(s, p + 1)) + s.y) % 0x10000)) + bit(s.flags.carry)) % 256)) <= 127)
                && r.flags.zero == (r.a == 0) && r.flags.negative == (r.a >= 128) && r.pc == s.pc + 3
                && r.memory == s.memory && r.x == s.x && r.y == s.y && r.sp == s.sp)
            &&& (op == 0x61 ==> r.a + 256 * bit(r.flags.carry) == s.a + ((at(s, (at(s, ((at(s, p) + s.x) % 256)) + 256 * at(s, (((at(s, p) + s.x) % 256) + 1) % 256))) + bit(s.flags.carry)) % 256)
                && r.flags.overflow == !(-128 <= signed_value(s.a as int) + signed_value(((at(s, (at(s, ((at(s, p) + s.x) % 256)) + 256 * at(s, (((at(s, p) + s.x) % 256) + 1) % 256))) + bit(s.flags.carry)) % 256)) <= 127)
                && r.flags.zero == (r.a == 0) && r.flags.negative == (r.a >= 128) && r.pc == s.pc + 2
                && r.memory == s.memory && r.x == s.x && r.y == s.y && r.sp == s.sp)
            &&& (op == 0x71 ==> r.a + 256 * bit(r.flags.carry) == s.a + ((at(s, (at(s, at(s, p)) + 256 * at(s, (at(s, p) + 1) % 256))) + bit(s.flags.carry)) % 256)
                && r.flags.overflow == !(-128 <= signed_value(s.a as int) + signed_value(((at(s, (at(s, at(s, p)) + 256 * at(s, (at(s, p) + 1) % 256))) + bit(s.flags.carry)) % 256)) <= 127)
                && r.flags.zero == (r.a == 0) && r.flags.negative == (r.a >= 128) && r.pc == s.pc + 2
                && r.memory == s.memory && r.x == s.x && r.y == s.y && r.sp == s.sp)
        }),
{
    let op = s.memory[s.pc as int];
    let t = s.advance(1);
    if op == 0x69 {
        lemma_add_with_carry_arithmetic(t, AddressingMode::Immediate);
    } else if op == 0x65 {
        lemma_add_with_carry_arithmetic(t, AddressingMode::ZeroPage);
    } else if op == 0x75 {
        lemma_add_with_carry_arithmetic(t, AddressingMode::ZeroPageX);
    } else if op == 0x6d {
        lemma_add_with_carry_arithmetic(t, AddressingMode::Absolute);
    } else if op == 0x7d {
        lemma_add_with_carry_arithmetic(t, AddressingMode::AbsoluteX);
    } else if op == 0x79 {
        lemma_add_with_carry_arithmetic(t, AddressingMode::AbsoluteY);
    } else if op == 0x61 {
        lemma_add_with_carry_arithmetic(t, AddressingMode::IndirectX);
    } else if op == 0x71 {
        lemma_add_with_carry_arithmetic(t, AddressingMode::IndirectY);
    }
}

/// SBC in every mode of the opcode table, stated as a difference and a signed
/// range over the operand byte.
#[verifier::spinoff_prover]
#[verifier::rlimit(80)]
pub proof fn lemma_step_subtract_with_carry(s: CpuState)
    requires
        s.wf(),
        s.step() is Ok,
    ensures
        ({
            let r = s.step()->Ok_0;
            let op = at(s, s.pc as int);
            let p = s.pc + 1;
            let w = at(s, p) + 256 * at(s, p + 1);
            &&& (op == 0xe9 ==> r.a - 256 * bit(r.flags.carry) == s.a - ((at(s, p) - 1 + bit(s.flags.carry)) % 256)
                && r.flags.overflow == !(-128 <= signed_value(s.a as int) - signed_value(((at(s, p) - 1 + bit(s.flags.carry)) % 256)) <= 127)
                && r.flags.zero == (r.a == 0) && r.flags.negative == (r.a >= 128) && r.pc == s.pc + 2
                && r.memory == s.memory && r.x == s.x && r.y == s.y && r.sp == s.sp)
            &&& (op == 0xe5 ==> r.a - 256 * bit(r.flags.carry) == s.a - ((at(s, at(s, p)) - 1 + bit(s.flags.carry)) % 256)
                && r.flags.overflow == !(-128 <= signed_value(s.a as int) - signed_value(((at(s, at(s, p)) - 1 + bit(s.flags.carry)) % 256)) <= 127)
                && r.flags.zero == (r.a == 0) && r.flags.negative == (r.a >= 128) && r.pc == s.pc + 2
                && r.memory == s.memory && r.x == s.x && r.y == s.y && r.sp == s.sp)
            &&& (op == 0xf5 ==> r.a - 256 * bit(r.flags.carry) == s.a - ((at(s, ((at(s, p) + s.x) % 256)) - 1 + bit(s.flags.carry)) % 256)
                && r.flags.overflow == !(-128 <= signed_value(s.a as int) - signed_value(((at(s, ((at(s, p) + s.x) % 256)) - 1 + bit(s.flags.carry)) % 256)) <= 127)
                && r.flags.zero == (r.a == 0) && r.flags.negative == (r.a >= 128) && r.pc == s.pc + 2
                && r.memory == s.memory && r.x == s.x && r.y == s.y && r.sp == s.sp)
            &&& (op == 0xed ==> r.a - 256 * bit(r.flags.carry) == s.a - ((at(s, (at(s, p) + 256 * at(s, p + 1))) - 1 + bit(s.flags.carry)) % 256)
                && r.flags.overflow == !(-128 <= signed_value(s.a as int) - signed_value(((at(s, (at(s, p) + 256 * at(s, p + 1))) - 1 + bit(s.flags.carry)) % 256)) <= 127)
                && r.flags.zero == (r.a == 0) && r.flags.negative == (r.a >= 128) && r.pc == s.pc + 3
                && r.memory == s.memory && r.x == s.x && r.y == s.y && r.sp == s.sp)
            &&& (op == 0xfd ==> r.a - 256 * bit(r.flags.carry) == s.a - ((at(s, (((at(s, p) + 256 * at(s, p + 1)) + s.x) % 0x10000)) - 1 + bit(s.flags.carry)) % 256)
                && r.flags.overflow == !(-128 <= signed_value(s.a as int) - signed_value(((at(s, (((at(s, p) + 256 * at(s, p + 1)) + s.x) % 0x10000)) - 1 + bit(s.flags.carry)) % 256)) <= 127)
                && r.flags.zero == (r.a == 0) && r.flags.negative == (r.a >= 128) && r.pc == s.pc + 3
                && r.memory == s.memory && r.x == s.x && r.y == s.y && r.sp == s.sp)
            &&& (op == 0xf9 ==> r.a - 256 * bit(r.flags.carry) == s.a - ((at(s, (((at(s, p) + 256 * at(s, p + 1)) + s.y) % 0x10000)) - 1 + bit(s.flags.carry)) % 256)
                && r.flags.overflow == !(-128 <= signed_value(s.a as int) - signed_value(((at(s, (((at(s, p) + 256 * at(s, p + 1)) + s.y) % 0x10000)) - 1 + bit(s.flags.carry)) % 256)) <= 127)
                && r.flags.zero == (r.a == 0) && r.flags.negative == (r.a >= 128) && r.pc == s.pc + 3
                && r.memory == s.memory && r.x == s.x && r.y == s.y && r.sp == s.sp)
            &&& (op == 0xe1 ==> r.a - 256 * bit(r.flags.carry) == s.a - ((at(s, (at(s, ((at(s, p) + s.x) % 256)) + 256 * at(s, (((at(s, p) + s.x) % 256) + 1) % 256))) - 1 + bit(s.flags.carry)) % 256)
                && r.flags.overflow == !(-128 <= signed_value(s.a as int) - signed_value(((at(s, (at(s, ((at(s, p) + s.x) % 256)) + 256 * at(s, (((at(s, p) + s.x) % 256) + 1) % 256))) - 1 + bit(s.flags.carry)) % 256)) <= 127)
                && r.flags.zero == (r.a == 0) && r.flags.negative == (r.a >= 128) && r.pc == s.pc + 2
                && r.memory == s.memory && r.x == s.x && r.y == s.y && r.sp == s.sp)
            &&& (op == 0xf1 ==> r.a - 256 * bit(r.flags.carry) == s.a - ((at(s, (at(s, at(s, p)) + 256 * at(s, (at(s, p) + 1) % 256))) - 1 + bit(s.flags.carry)) % 256)
                && r.flags.overflow == !(-128 <= signed_value(s.a as int) - signed_value(((at(s, (at(s, at(s, p)) + 256 * at(s, (at(s, p) + 1) % 256))) - 1 + bit(s.flags.carry)) % 256)) <= 127)
                && r.flags.zero == (r.a == 0) && r.flags.negative == (r.a >= 128) && r.pc == s.pc + 2
                && r.memory == s.memory && r.x == s.x && r.y == s.y && r.sp == s.sp)
        }),
{
    let op = s.memory[s.pc as int];
    let t = s.advance(1);
    if op == 0xe9 {
        lemma_subtract_with_carry_arithmetic(t, AddressingMode::Immediate);
    } else if op == 0xe5 {
        lemma_subtract_with_carry_arithmetic(t, AddressingMode::ZeroPage);
    } else if op == 0xf5 {
        lemma_subtract_with_carry_arithmetic(t, AddressingMode::ZeroPageX);
    } else if op == 0xed {
        lemma_subtract_with_carry_arithmetic(t, AddressingMode::Absolute);
    } else if op == 0xfd {
        lemma_subtract_with_carry_arithmetic(t, AddressingMode::AbsoluteX);
    } else if op == 0xf9 {
        lemma_subtract_with_carry_arithmetic(t, AddressingMode::AbsoluteY);
    } else if op == 0xe1 {
        lemma_subtract_with_carry_arithmetic(t, AddressingMode::IndirectX);
    } else if op == 0xf1 {
        lemma_subtract_with_carry_arithmetic(t, AddressingMode::IndirectY);
    }
}

/// ASL in every mode of the opcode table: the byte written is the operand
/// moved one bit up, bit 7 going to the carry.
#[verifier::spinoff_prover]
#[verifier::rlimit(80)]
pub proof fn lemma_step_shift_left(s: CpuState)
    requires
        s.wf(),
        s.step() is Ok,
    ensures
        ({
            let r = s.step()->Ok_0;
            let op = at(s, s.pc as int);
            let p = s.pc + 1;
            let w = at(s, p) + 256 * at(s, p + 1);
            &&& (op == 0x0a ==> r.a % 2 == 0 && r.a / 2 + 128 * bit(r.flags.carry) == s.a
                && r.flags.zero == (r.a == 0) && r.flags.negative == (r.a >= 128) && r.pc == s.pc + 1
                && r.memory == s.memory && r.x == s.x && r.y == s.y && r.sp == s.sp)
            &&& (op == 0x06 ==> r.memory[at(s, (p + 1))] % 2 == 0
                && r.memory[at(s, (p + 1))] / 2 + 128 * bit(r.flags.carry) == at(s, at(s, p))
                && r.memory == s.memory.update(at(s, (p + 1)), r.memory[at(s, (p + 1))])
                && r.flags.zero == (r.memory[at(s, (p + 1))] == 0) && r.flags.negative == (r.memory[at(s, (p + 1))] >= 128)
                && r.pc == s.pc + 3 && r.a == s.a && r.x == s.x && r.y == s.y && r.sp == s.sp)
            &&& (op == 0x16 ==> r.memory[((at(s, (p + 1)) + s.x) % 256)] % 2 == 0
                && r.memory[((at(s, (p + 1)) + s.x) % 256)] / 2 + 128 * bit(r.flags.carry) == at(s, ((at(s, p) + s.x) % 256))
                && r.memory == s.memory.update(((at(s, (p + 1)) + s.x) % 256), r.memory[((at(s, (p + 1)) + s.x) % 256)])
                && r.flags.zero == (r.memory[((at(s, (p + 1)) + s.x) % 256)] == 0) && r.flags.negative == (r.memory[((at(s, (p + 1)) + s.x) % 256)] >= 128)
                && r.pc == s.pc + 3 && r.a == s.a && r.x == s.x && r.y == s.y && r.sp == s.sp)
            &&& (op == 0x0e ==> r.memory[(at(s, (p + 2)) + 256 * at(s, (p + 2) + 1))] % 2 == 0
                && r.memory[(at(s, (p + 2)) + 256 * at(s, (p + 2) + 1))] / 2 + 128 * bit(r.flags.carry) == at(s, (at(s, p) + 256 * at(s, p + 1)))
                && r.memory == s.memory.update((at(s, (p + 2)) + 256 * at(s, (p + 2) + 1)), r.memory[(at(s, (p + 2)) + 256 * at(s, (p + 2) + 1))])
                && r.flags.zero == (r.memory[(at(s, (p + 2)) + 256 * at(s, (p + 2) + 1))] == 0) && r.flags.negative == (r.memory[(at(s, (p + 2)) + 256 * at(s, (p + 2) + 1))] >= 128)
                && r.pc == s.pc + 5 && r.a == s.a && r.x == s.x && r.y == s.y && r.sp == s.sp)
            &&& (op == 0x1e ==> r.memory[(((at(s, (p + 2)) + 256 * at(s, (p + 2) + 1)) + s.x) % 0x10000)] % 2 == 0
                && r.memory[(((at(s, (p + 2)) + 256 * at(s, (p + 2) + 1)) + s.x) % 0x10000)] / 2 + 128 * bit(r.flags.carry) == at(s, (((at(s, p) + 256 * at(s, p + 1)) + s.x) % 0x10000))
                && r.memory == s.memory.update((((at(s, (p + 2)) + 256 * at(s, (p + 2) + 1)) + s.x) % 0x10000), r.memory[(((at(s, (p + 2)) + 256 * at(s, (p + 2) + 1)) + s.x) % 0x10000)])
                && r.flags.zero == (r.memory[(((at(s, (p + 2)) + 256 * at(s, (p + 2) + 1)) + s.x) % 0x10000)] == 0) && r.flags.negative == (r.memory[(((at(s, (p + 2)) + 256 * at(s, (p + 2) + 1)) + s.x) % 0x10000)] >= 128)
                && r.pc == s.pc + 5 && r.a == s.a && r.x == s.x && r.y == s.y && r.sp == s.sp)
        }),
{
    let op = s.memory[s.pc as int];
    let t = s.advance(1);
    if op == 0x0a {
        lemma_shift_left_bits(t, AddressingMode::Accumulator);
    } else if op == 0x06 {
        lemma_shift_left_bits(t, AddressingMode::ZeroPage);
    } else if op == 0x16 {
        lemma_shift_left_bits(t, AddressingMode::ZeroPageX);
    } else if op == 0x0e {
        lemma_shift_left_bits(t, AddressingMode::Absolute);
    } else if op == 0x1e {
        lemma_shift_left_bits(t, AddressingMode::AbsoluteX);
    }
}

/// The one-byte instructions that work on registers and flags: increments,
/// decrements, transfers, SEI, CLD and NOP.
#[verifier::spinoff_prover]
#[verifier::rlimit(80)]
pub proof fn lemma_step_register_instructions(s: CpuState)
    requires
        s.wf(),
        s.step() is Ok,
    ensures
        ({
            let r = s.step()->Ok_0;
            let op = at(s, s.pc as int);
            let p = s.pc + 1;
            let w = at(s, p) + 256 * at(s, p + 1);
            &&& (op == 0xe8 ==> r.x == (s.x + 1) % 256 && r.flags.zero == (r.x == 0) && r.flags.negative == (r.x >= 128) && r.pc == s.pc + 1
                && r.memory == s.memory && r.a == s.a && r.y == s.y && r.sp == s.sp)
            &&& (op == 0xc8 ==> r.y == (s.y + 1) % 256 && r.flags.zero == (r.y == 0) && r.flags.negative == (r.y >= 128) && r.pc == s.pc + 1
                && r.memory == s.memory && r.a == s.a && r.x == s.x && r.sp == s.sp)
            &&& (op == 0xca ==> r.x == (s.x + 255) % 256 && r.flags.zero == (r.x == 0) && r.flags.negative == (r.x >= 128) && r.pc == s.pc + 1
                && r.memory == s.memory && r.a == s.a && r.y == s.y && r.sp == s.sp)
            &&& (op == 0x88 ==> r.y == (s.y + 255) % 256 && r.flags.zero == (r.y == 0) && r.flags.negative == (r.y >= 128) && r.pc == s.pc + 1
                && r.memory == s.memory && r.a == s.a && r.x == s.x && r.sp == s.sp)
            &&& (op == 0xaa ==> r.x == s.a && r.flags.zero == (r.x == 0) && r.flags.negative == (r.x >= 128) && r.pc == s.pc + 1
                && r.memory == s.memory && r.a == s.a && r.y == s.y && r.sp == s.sp)
            &&& (op == 0xa8 ==> r.y == s.a && r.flags.zero == (r.y == 0) && r.flags.negative == (r.y >= 128) && r.pc == s.pc + 1
                && r.memory == s.memory && r.a == s.a && r.x == s.x && r.sp == s.sp)
            &&& (op == 0x8a ==> r.a == s.x && r.flags.zero == (r.a == 0) && r.flags.negative == (r.a >= 128) && r.pc == s.pc + 1
                && r.memory == s.memory && r.x == s.x && r.y == s.y && r.sp == s.sp)
            &&& (op == 0x98 ==> r.a == s.y && r.flags.zero == (r.a == 0) && r.flags.negative == (r.a >= 128) && r.pc == s.pc + 1
                && r.memory == s.memory && r.x == s.x && r.y == s.y && r.sp == s.sp)
            &&& (op == 0xba ==> r.x == s.sp && r.flags.zero == (r.x == 0) && r.flags.negative == (r.x >= 128) && r.pc == s.pc + 1
                && r.memory == s.memory && r.a == s.a && r.y == s.y && r.sp == s.sp)
            &&& (op == 0x9a ==> r.sp == s.x && r.flags.zero == s.flags.zero && r.flags.negative == s.flags.negative
                && r.pc == s.pc + 1 && r.memory == s.memory && r.a == s.a && r.x == s.x && r.y == s.y)
            &&& (op == 0x78 ==> r.interrupt_disable_called && r.flags == s.flags && r.pc == s.pc + 1
                && r.memory == s.memory && r.a == s.a && r.x == s.x && r.y == s.y && r.sp == s.sp)
            &&& (op == 0xd8 ==> !r.flags.decimal && r.flags.carry == s.flags.carry && r.flags.zero == s.flags.zero && r.flags.negative == s.flags.negative && r.flags.overflow == s.flags.overflow
                && r.pc == s.pc + 1 && r.memory == s.memory && r.a == s.a && r.x == s.x && r.y == s.y && r.sp == s.sp)
            &&& (op == 0xea ==> r.flags.decimal == s.flags.decimal && r.flags.carry == s.flags.carry && r.flags.zero == s.flags.zero && r.flags.negative == s.flags.negative && r.flags.overflow == s.flags.overflow
                && r.pc == s.pc + 1 && r.memory == s.memory && r.a == s.a && r.x == s.x && r.y == s.y && r.sp == s.sp)
        }),
{
}

/// BNE, JMP, JSR, RTS, BRK and RTI: where pc goes, what the stack receives
/// and what RTI takes back.
#[verifier::spinoff_prover]
#[verifier::rlimit(80)]
pub proof fn lemma_step_control_flow(s: CpuState)
    requires
        s.wf(),
        s.step() is Ok,
    ensures
        ({
            let r = s.step()->Ok_0;
            let op = at(s, s.pc as int);
            let p = s.pc + 1;
            let w = at(s, p) + 256 * at(s, p + 1);
            &&& (op == 0xd0 ==> r.pc == (if s.flags.zero { s.pc + 2 } else { (s.pc + 2 + signed_value(at(s, p) as int)) % 0x10000 })
                && r.memory == s.memory && r.flags.zero == s.flags.zero && r.a == s.a && r.x == s.x && r.y == s.y && r.sp == s.sp)
            &&& (op == 0x4c ==> r.pc == at(s, p) + 256 * at(s, p + 1) && r.memory == s.memory && r.flags.zero == s.flags.zero && r.a == s.a && r.x == s.x && r.y == s.y && r.sp == s.sp)
            &&& (op == 0x6c ==> r.pc == at(s, w) + 256 * at(s, if w % 256 == 255 { w - 255 } else { w + 1 })
                && r.memory == s.memory && r.a == s.a && r.x == s.x && r.y == s.y && r.sp == s.sp)
            &&& (op == 0x20 ==> r.pc == w && r.sp == (s.sp + 254) % 256
                && r.memory == s.memory.update(0x100 + s.sp, ((s.pc + 2) / 256) as u8).update(
                    0x100 + (s.sp + 255) % 256, ((s.pc + 2) % 256) as u8) && r.a == s.a && r.x == s.x && r.y == s.y)
            &&& (op == 0x60 ==> r.pc == (at(s, 0x100 + s.sp) + 256 * at(s, 0x100 + (s.sp + 1) % 256) + 1) % 0x10000
                && r.sp == (s.sp + 2) % 256 && r.memory == s.memory && r.a == s.a && r.x == s.x && r.y == s.y)
            &&& (op == 0x00 ==> r.pc == at(s, 0xfffe) + 256 * at(s, 0xffff) && r.flags.interrupt_disable
                && r.sp == (s.sp + 253) % 256
                && r.memory[0x100 + s.sp] == ((s.pc + 3) % 0x10000) / 256
                && r.memory[0x100 + (s.sp + 255) % 256] == (s.pc + 3) % 256
                && r.memory[0x100 + (s.sp + 254) % 256] == 128 * bit(s.flags.negative) + 64 * bit(
                    s.flags.overflow) + 48 + 8 * bit(s.flags.decimal) + 4 * bit(s.flags.interrupt_disable)
                    + 2 * bit(s.flags.zero) + bit(s.flags.carry)
                && r.flags.carry == s.flags.carry && r.flags.zero == s.flags.zero && r.flags.decimal == s.flags.decimal
                && r.flags.overflow == s.flags.overflow && r.flags.negative == s.flags.negative
                && r.a == s.a && r.x == s.x && r.y == s.y)
            &&& (op == 0x40 ==> r.flags.carry == (at(s, 0x100 + s.sp) % 2 == 1)
                && r.flags.zero == ((at(s, 0x100 + s.sp) / 2) % 2 == 1)
                && (!s.interrupt_disable_called ==> r.flags.interrupt_disable == ((at(s, 0x100 + s.sp) / 4) % 2 == 1))
                && r.flags.decimal == ((at(s, 0x100 + s.sp) / 8) % 2 == 1)
                && r.flags.overflow == ((at(s, 0x100 + s.sp) / 64) % 2 == 1)
                && r.flags.negative == ((at(s, 0x100 + s.sp) / 128) % 2 == 1)
                && r.pc == at(s, 0x100 + (s.sp + 1) % 256) + 256 * at(s, 0x100 + (s.sp + 2) % 256)
                && r.sp == (s.sp + 3) % 256 && r.memory == s.memory && r.a == s.a && r.x == s.x && r.y == s.y)
        }),
{
    lemma_return_from_interrupt_bits(s.advance(1));
}

/// The opcodes whose instructions this processor does not carry out (LSR, ROL,
/// ROR, AND, ORA, EOR, BIT, CMP, CPX, CPY, the branches other than BNE, PHA,
/// PLA, PHP, PLP, SEC, SED, CLC, CLI, CLV) are reported, and the bytes that
/// are no opcode are refused, with the processor left as it was.
pub proof fn lemma_step_refusals(s: CpuState)
    requires
        s.has_room(1),
    ensures
        ({
            let op = s.memory[s.pc as int];
            &&& (op == 0x4a || op == 0x46 || op == 0x56 || op == 0x4e || op == 0x5e || op == 0x2a ||
            op == 0x26 || op == 0x36 || op == 0x2e || op == 0x3e || op == 0x6a || op == 0x66 ||
            op == 0x76 || op == 0x6e || op == 0x7e || op == 0x29 || op == 0x25 || op == 0x35 ||
            op == 0x2d || op == 0x3d || op == 0x39 || op == 0x21 || op == 0x31 || op == 0x09 ||
            op == 0x05 || op == 0x15 || op == 0x0d || op == 0x1d || op == 0x19 || op == 0x01 ||
            op == 0x11 || op == 0x49 || op == 0x45 || op == 0x55 || op == 0x4d || op == 0x5d ||
            op == 0x59 || op == 0x41 || op == 0x51 || op == 0x24 || op == 0x2c || op == 0xc9 ||
            op == 0xc5 || op == 0xd5 || op == 0xcd || op == 0xdd || op == 0xd9 || op == 0xc1 ||
            op == 0xd1 || op == 0xe0 || op == 0xe4 || op == 0xec || op == 0xc0 || op == 0xc4 ||
            op == 0xcc || op == 0x90 || op == 0xb0 || op == 0xf0 || op == 0x10 || op == 0x30 ||
            op == 0x50 || op == 0x70 || op == 0x48 || op == 0x68 || op == 0x08 || op == 0x28 ||
            op == 0x38 || op == 0xf8 || op == 0x18 || op == 0x58 || op == 0xb8)
                ==> s.step() == Err::<CpuState, StepError>(StepError::Unimplemented(op))
            &&& (op == 0x02 || op == 0x03 || op == 0x04 || op == 0x07 || op == 0x0b || op == 0x0c ||
            op == 0x0f || op == 0x12 || op == 0x13 || op == 0x14 || op == 0x17 || op == 0x1a ||
            op == 0x1b || op == 0x1c || op == 0x1f || op == 0x22 || op == 0x23 || op == 0x27 ||
            op == 0x2b || op == 0x2f || op == 0x32 || op == 0x33 || op == 0x34 || op == 0x37 ||
            op == 0x3a || op == 0x3b || op == 0x3c || op == 0x3f || op == 0x42 || op == 0x43 ||
            op == 0x44 || op == 0x47 || op == 0x4b || op == 0x4f || op == 0x52 || op == 0x53 ||
            op == 0x54 || op == 0x57 || op == 0x5a || op == 0x5b || op == 0x5c || op == 0x5f ||
            op == 0x62 || op == 0x63 || op == 0x64 || op == 0x67 || op == 0x6b || op == 0x6f ||
            op == 0x72 || op == 0x73 || op == 0x74 || op == 0x77 || op == 0x7a || op == 0x7b ||
            op == 0x7c || op == 0x7f || op == 0x80 || op == 0x82 || op == 0x83 || op == 0x87 ||
            op == 0x89 || op == 0x8b || op == 0x8f || op == 0x92 || op == 0x93 || op == 0x97 ||
            op == 0x9b || op == 0x9c || op == 0x9e || op == 0x9f || op == 0xa3 || op == 0xa7 ||
            op == 0xab || op == 0xaf || op == 0xb2 || op == 0xb3 || op == 0xb7 || op == 0xbb ||
            op == 0xbf || op == 0xc2 || op == 0xc3 || op == 0xc7 || op == 0xcb || op == 0xcf ||
            op == 0xd2 || op == 0xd3 || op == 0xd4 || op == 0xd7 || op == 0xda || op == 0xdb ||
            op == 0xdc || op == 0xdf || op == 0xe2 || op == 0xe3 || op == 0xe7 || op == 0xeb ||
            op == 0xef || op == 0xf2 || op == 0xf3 || op == 0xf4 || op == 0xf7 || op == 0xfa ||
            op == 0xfb || op == 0xfc || op == 0xff)
                ==> s.step() == Err::<CpuState, StepError>(StepError::InvalidInstruction(op))
        }),
{
}

/// Every implemented opcode is carried out whenever its operand bytes lie at
/// or below 0xffff: none, one, two or four bytes after the opcode (ASL on
/// memory fetches its operand twice; JMP and JSR read a word from the byte
/// after the opcode on).
pub proof fn lemma_step_accepts(s: CpuState)
    requires
        s.wf(),
    ensures
        ({
            let op = s.memory[s.pc as int];
            &&& ((op == 0xe8 || op == 0xc8 || op == 0xca || op == 0x88 || op == 0xaa ||
                op == 0xa8 || op == 0x8a || op == 0x98 || op == 0xba || op == 0x9a ||
                op == 0x0a || op == 0x60 || op == 0x00 || op == 0x40 || op == 0x78 ||
                op == 0xd8 || op == 0xea)
                && s.pc + 1 <= 0xffff) ==> s.step() is Ok
            &&& ((op == 0xa9 || op == 0xa5 || op == 0xb5 || op == 0xa1 || op == 0xb1 ||
                op == 0xa2 || op == 0xa6 || op == 0xb6 || op == 0xa0 || op == 0xa4 ||
                op == 0xb4 || op == 0x85 || op == 0x95 || op == 0x81 || op == 0x91 ||
                op == 0x86 || op == 0x96 || op == 0x84 || op == 0x94 || op == 0xe6 ||
                op == 0xf6 || op == 0xc6 || op == 0xd6 || op == 0x69 || op == 0x65 ||
                op == 0x75 || op == 0x61 || op == 0x71 || op == 0xe9 || op == 0xe5 ||
                op == 0xf5 || op == 0xe1 || op == 0xf1 || op == 0xd0 || op == 0x4c || op == 0x6c
                || op == 0x20)
                && s.pc + 2 <= 0xffff) ==> s.step() is Ok
            &&& ((op == 0xad || op == 0xbd || op == 0xb9 || op == 0xae || op == 0xbe ||
                op == 0xac || op == 0xbc || op == 0x8d || op == 0x9d || op == 0x99 ||
                op == 0x8e || op == 0x8c || op == 0xee || op == 0xfe || op == 0xce ||
                op == 0xde || op == 0x6d || op == 0x7d || op == 0x79 || op == 0xed ||
                op == 0xfd || op == 0xf9 || op == 0x06 || op == 0x16)
                && s.pc + 3 <= 0xffff) ==> s.step() is Ok
            &&& ((op == 0x0e || op == 0x1e)
                && s.pc + 5 <= 0xffff) ==> s.step() is Ok
        }),
{
}

} // verus!
