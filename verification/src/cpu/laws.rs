//! Laws of the machine, proved from its model.
use vstd::prelude::*;
use crate::bus::{AddressSpace, low, high, lemma_word_bits};
use crate::cpu::flags::{
    flag_set, is_flag, with_flag, with_zero_negative, lemma_with_flag, CARRY, ZERO, OVERFLOW,
    NEGATIVE,
};
use crate::cpu::opcodes::{Mnemonic, descriptor, lemma_descriptor_shape};
use crate::cpu::model::{
    Machine, Transition, LOAD_ADDRESS, RESET_VECTOR, STACK, negate_minus_one, sign_extend,
};

verus! {

/// Recomputing Zero and Negative from a result sets Zero exactly where the
/// result is zero, sets Negative exactly where bit 7 of the result is set,
/// and leaves every other flag as it was.
pub proof fn law_zero_negative(bits: u8, result: u8, flag: u8)
    requires
        is_flag(flag),
    ensures
        flag_set(with_zero_negative(bits, result), ZERO) == (result == 0),
        flag_set(with_zero_negative(bits, result), NEGATIVE) == (result & 0x80 == 0x80),
        flag != ZERO && flag != NEGATIVE ==> flag_set(with_zero_negative(bits, result), flag)
            == flag_set(bits, flag),
{
    let zero = with_flag(bits, ZERO, result == 0);
    lemma_with_flag(bits, ZERO, result == 0, ZERO);
    lemma_with_flag(bits, ZERO, result == 0, flag);
    lemma_with_flag(zero, NEGATIVE, result >> 7 == 1, ZERO);
    lemma_with_flag(zero, NEGATIVE, result >> 7 == 1, NEGATIVE);
    lemma_with_flag(zero, NEGATIVE, result >> 7 == 1, flag);
    assert((result >> 7 == 1) == (result & 0x80 == 0x80)) by (bit_vector);
}

/// An immediate load of the accumulator, as one step of the machine: the
/// accumulator takes the byte `v` after the opcode, Zero is set exactly where
/// `v` is zero, Negative exactly where bit 7 of `v` is set, every other flag
/// is untouched, the program counter moves past the two bytes, and nothing
/// else changes.
pub proof fn law_load_immediate(m: Machine, flag: u8)
    requires
        m.read(m.pc) == 0xA9,
        is_flag(flag),
    ensures
        ({
            let v = m.read(m.pc.wrapping_add(1));
            &&& m.step() matches Transition::Next(after)
            &&& after == (Machine {
                a: v,
                p: after.p,
                pc: m.pc.wrapping_add(1).wrapping_add(1),
                ..m
            })
            &&& flag_set(after.p, ZERO) == (v == 0)
            &&& flag_set(after.p, NEGATIVE) == (v & 0x80 == 0x80)
            &&& (flag != ZERO && flag != NEGATIVE ==> flag_set(after.p, flag) == flag_set(
                m.p,
                flag,
            ))
        }),
{
    let v = m.read(m.pc.wrapping_add(1));
    law_zero_negative(m.p, v, flag);
}

/// Addition with carry: the accumulator takes the sum of both operands and
/// the carry within 8 bits, Carry is set exactly where that sum exceeds 255,
/// and Overflow exactly where both operands differ in sign from the result.
/// The derivation is symmetric in the two operands.
pub proof fn law_add_with_carry(m: Machine, value: u8)
    ensures
        ({
            let carry: int = if flag_set(m.p, CARRY) {
                1
            } else {
                0
            };
            let result = ((m.a + value + carry) % 256) as u8;
            let after = m.add_to_register_a(value);
            let swapped = (Machine { a: value, ..m }).add_to_register_a(m.a);
            &&& after.a == result
            &&& flag_set(after.p, CARRY) == (m.a + value + carry > 255)
            &&& flag_set(after.p, OVERFLOW) == ((m.a ^ result) & (value ^ result) & 0x80 != 0)
            &&& flag_set(after.p, ZERO) == (result == 0)
            &&& flag_set(after.p, NEGATIVE) == (result & 0x80 == 0x80)
            &&& swapped.a == after.a
            &&& swapped.p == after.p
        }),
{
    let carry: int = if flag_set(m.p, CARRY) {
        1
    } else {
        0
    };
    let a = m.a;
    let result = ((m.a + value + carry) % 256) as u8;
    let overflow = (value ^ result) & (result ^ m.a) & 0x80 != 0;
    assert(((value ^ result) & (result ^ a) & 0x80 != 0) == ((a ^ result) & (value ^ result) & 0x80
        != 0)) by (bit_vector);
    assert(((a ^ result) & (result ^ value) & 0x80 != 0) == ((a ^ result) & (value ^ result) & 0x80
        != 0)) by (bit_vector);
    let p1 = with_flag(m.p, CARRY, m.a + value + carry > 255);
    let p2 = with_flag(p1, OVERFLOW, overflow);
    lemma_with_flag(m.p, CARRY, m.a + value + carry > 255, CARRY);
    lemma_with_flag(p1, OVERFLOW, overflow, CARRY);
    lemma_with_flag(p1, OVERFLOW, overflow, OVERFLOW);
    law_zero_negative(p2, result, CARRY);
    law_zero_negative(p2, result, OVERFLOW);
}

/// Subtraction with borrow is addition of the two's complement of the
/// operand, decremented by one: that operand is `255 - value`, so the
/// accumulator takes `a - value - (1 - carry)` within 8 bits, and Carry is set
/// exactly where no borrow was needed.
pub proof fn law_subtract_with_borrow(m: Machine, value: u8)
    ensures
        ({
            let borrow: int = if flag_set(m.p, CARRY) {
                0
            } else {
                1
            };
            let after = m.add_to_register_a(negate_minus_one(value));
            &&& negate_minus_one(value) == 255 - value
            &&& after.a == (m.a - value - borrow) % 256
            &&& flag_set(after.p, CARRY) == (m.a - value - borrow >= 0)
        }),
{
    law_add_with_carry(m, negate_minus_one(value));
}

/// A taken branch lands on the address after the two bytes of the branch
/// instruction plus the displacement read as a signed byte, within 16 bits.
/// The program counter stands on the displacement byte.
pub proof fn law_branch_target(m: Machine)
    ensures
        ({
            let byte = m.read(m.pc);
            let displacement: int = if byte < 0x80 {
                byte as int
            } else {
                byte - 256
            };
            m.branch_target() == (m.pc + 1 + displacement) % 0x10000
        }),
        m.branch(false) == m,
        m.branch(true) == (Machine { pc: m.branch_target(), ..m }),
{
    let byte = m.read(m.pc);
    assert(sign_extend(byte) == if byte < 0x80 {
        byte as int
    } else {
        byte + 0xFF00
    });
}

/// Increment and decrement of an index register wrap within 8 bits, with
/// Zero and Negative following the new value: `0xFF` steps up to `0x00`,
/// which sets Zero and clears Negative, and `0x00` steps down to `0xFF`,
/// which clears Zero and sets Negative.
pub proof fn law_increment_decrement_wrap(m: Machine)
    ensures
        m.inx().x == (m.x + 1) % 256,
        m.dex().x == (m.x - 1) % 256,
        m.iny().y == (m.y + 1) % 256,
        m.dey().y == (m.y - 1) % 256,
        flag_set(m.inx().p, ZERO) == (m.x == 0xFF),
        flag_set(m.inx().p, NEGATIVE) == (0x7F <= m.x < 0xFF),
        flag_set(m.dex().p, ZERO) == (m.x == 0x01),
        flag_set(m.dex().p, NEGATIVE) == (m.x == 0 || m.x > 0x80),
        flag_set(m.iny().p, ZERO) == (m.y == 0xFF),
        flag_set(m.iny().p, NEGATIVE) == (0x7F <= m.y < 0xFF),
        flag_set(m.dey().p, ZERO) == (m.y == 0x01),
        flag_set(m.dey().p, NEGATIVE) == (m.y == 0 || m.y > 0x80),
{
    law_zero_negative(m.p, m.x.wrapping_add(1), ZERO);
    law_zero_negative(m.p, m.x.wrapping_sub(1), ZERO);
    law_zero_negative(m.p, m.y.wrapping_add(1), ZERO);
    law_zero_negative(m.p, m.y.wrapping_sub(1), ZERO);
    assert(forall|r: u8| (r & 0x80 == 0x80) == (r >= 0x80)) by (bit_vector);
}

/// Work memory is mirrored: after a write at an address of the work-memory
/// window, a read at any address of the window that differs from it by a
/// multiple of 2K returns the byte written, and a read at any other address
/// returns what it returned before.
pub proof fn law_work_memory_mirrors(space: AddressSpace, addr: u16, data: u8, other: u16)
    requires
        space.wf(),
        AddressSpace::writable(addr),
    ensures
        addr < 0x2000 && other < 0x2000 && addr % 2048 == other % 2048 ==> space.write(
            addr,
            data,
        ).read(other) == data,
        !(addr < 0x2000 && other < 0x2000 && addr % 2048 == other % 2048) ==> space.write(
            addr,
            data,
        ).read(other) == space.read(other),
        space.write(addr, data).wf(),
{
}

/// The indirect jump's page-boundary behaviour: the low byte of the target
/// is always the byte at the pointer address; where the low byte of the
/// pointer address is `0xFF`, the high byte of the target is the byte at the
/// start of that same page, and not the byte at the start of the next page.
pub proof fn law_indirect_jump_page_wrap(m: Machine, addr: u16)
    ensures
        low(m.indirect_target(addr)) == m.read(addr),
        addr % 256 == 255 ==> high(m.indirect_target(addr)) == m.read((addr - 255) as u16),
        addr % 256 != 255 ==> high(m.indirect_target(addr)) == m.read((addr + 1) as u16),
{
    assert((addr & 0x00FF == 0x00FF) == (addr % 256 == 255)) by (bit_vector);
    assert(addr % 256 == 255 ==> addr & 0xFF00 == addr - 255) by (bit_vector);
    lemma_word_bits(m.read(addr), m.read(addr & 0xFF00), 0);
    lemma_word_bits(m.read(addr), m.read(addr.wrapping_add(1)), 0);
}

/// Stack discipline: a push writes at the stack pointer and then steps it
/// down; a pop steps it up and then reads. So a pop after a push returns the
/// byte pushed and restores the stack pointer, and the same holds of words.
pub proof fn law_push_pop(m: Machine, value: u8, wide: u16)
    requires
        m.wf(),
    ensures
        m.stack_push(value).stack_top() == value,
        m.stack_push(value).stack_drop().sp == m.sp,
        m.stack_push(value).sp == m.sp.wrapping_sub(1),
        m.stack_push(value).read((STACK + m.sp) as u16) == value,
        m.stack_push_u16(wide).stack_top_u16() == wide,
        m.stack_push_u16(wide).stack_drop_u16().sp == m.sp,
{
    lemma_word_bits(0, 0, wide);
    let first = m.stack_push(high(wide));
    let second = first.stack_push(low(wide));
    assert(second.stack_top() == low(wide));
    assert(second.stack_drop().stack_top() == high(wide));
}

/// A staged program reads back: where it is no longer than the 2K of work
/// memory, each of its bytes is read at the load address plus its index.
pub proof fn law_staged_program_reads(space: AddressSpace, program: Seq<u8>, i: int)
    requires
        space.wf(),
        program.len() <= 0x0800,
        0 <= i < program.len(),
    ensures
        space.stage(LOAD_ADDRESS, program).wf(),
        space.stage(LOAD_ADDRESS, program).read((LOAD_ADDRESS + i) as u16) == program[i],
        space.stage(LOAD_ADDRESS, program).rom == space.rom,
    decreases program.len(),
{
    lemma_stage_wf(space, program);
    if i < program.len() - 1 {
        law_staged_program_reads(space, program.drop_last(), i);
    } else {
        lemma_stage_wf(space, program.drop_last());
    }
}

/// Staging a program within the work-memory window keeps the address space
/// well formed and leaves program storage alone.
pub proof fn lemma_stage_wf(space: AddressSpace, program: Seq<u8>)
    requires
        space.wf(),
        program.len() <= 0x1A00,
    ensures
        space.stage(LOAD_ADDRESS, program).wf(),
        space.stage(LOAD_ADDRESS, program).rom == space.rom,
    decreases program.len(),
{
    if program.len() > 0 {
        lemma_stage_wf(space, program.drop_last());
    }
}

/// A staged program is where a reset starts: after a load the reset vector
/// holds the load address, so a reset puts the program counter on the first
/// byte of the program; a program no longer than the 2K of work memory reads
/// back byte for byte from there; and the registers are as they were.
pub proof fn law_load_then_reset(m: Machine, program: Seq<u8>, i: int)
    requires
        m.wf(),
        program.len() <= 0x1A00,
    ensures
        m.load(program).wf(),
        m.load(program).read_u16(RESET_VECTOR) == LOAD_ADDRESS,
        m.load(program).reset().pc == LOAD_ADDRESS,
        m.load(program) == (Machine { space: m.load(program).space, ..m }),
        program.len() <= 0x0800 && 0 <= i < program.len() ==> m.load(program).read(
            (LOAD_ADDRESS + i) as u16,
        ) == program[i],
{
    let staged = m.space.stage(LOAD_ADDRESS, program);
    lemma_stage_wf(m.space, program);
    lemma_word_bits(low(LOAD_ADDRESS), high(LOAD_ADDRESS), LOAD_ADDRESS);
    if program.len() <= 0x0800 && 0 <= i < program.len() {
        law_staged_program_reads(m.space, program, i);
    }
}

/// An absolute jump, as one step of the machine: the program counter takes
/// the operand word, whatever that word is, and nothing else changes. In
/// particular a jump to the address of its own operand lands there and is
/// not moved on.
pub proof fn law_jump_step(m: Machine)
    requires
        m.read(m.pc) == 0x4C,
    ensures
        m.step() == Transition::Next(
            Machine { pc: m.read_u16(m.pc.wrapping_add(1)), ..m },
        ),
{
}

/// Jumps, the call and the returns have the last word on the program
/// counter: the step ends in the state that the handler leaves, with no
/// further advance.
pub proof fn law_transfer_of_control(m: Machine)
    requires
        descriptor(m.read(m.pc)) matches Some(op) && (op.mnemonic == Mnemonic::Jmp || op.mnemonic
            == Mnemonic::Jsr || op.mnemonic == Mnemonic::Rts || op.mnemonic == Mnemonic::Rti),
    ensures
        m.step() == Transition::Next(m.fetched().execute(descriptor(m.read(m.pc)).unwrap())),
        descriptor(m.read(m.pc)).unwrap().mnemonic == Mnemonic::Jsr ==> m.step()
            == Transition::Next(m.fetched().jsr()),
        descriptor(m.read(m.pc)).unwrap().mnemonic == Mnemonic::Rts ==> m.step()
            == Transition::Next(m.fetched().rts()),
        descriptor(m.read(m.pc)).unwrap().mnemonic == Mnemonic::Rti ==> m.step()
            == Transition::Next(m.fetched().rti()),
        m.read(m.pc) == 0x6C ==> m.step() == Transition::Next(m.fetched().jmp_indirect()),
{
}

/// A branch, as one step of the machine. Taken, it lands on the address
/// after its two bytes plus the signed displacement, within 16 bits, also
/// where that is the address of the displacement byte itself. Not taken, it
/// moves the program counter past its two bytes. Nothing else changes.
pub proof fn law_branch_step(m: Machine)
    requires
        descriptor(m.read(m.pc)) matches Some(op) && op.mnemonic.family() is Branch,
    ensures
        ({
            let op = descriptor(m.read(m.pc)).unwrap();
            let byte = m.read(m.pc.wrapping_add(1));
            let displacement: int = if byte < 0x80 {
                byte as int
            } else {
                byte - 256
            };
            let taken = m.branch_taken(op.mnemonic);
            &&& taken ==> m.step() == Transition::Next(
                Machine { pc: ((m.pc + 2 + displacement) % 0x10000) as u16, ..m },
            )
            &&& !taken ==> m.step() == Transition::Next(
                Machine { pc: ((m.pc + 2) % 0x10000) as u16, ..m },
            )
        }),
{
    lemma_descriptor_shape(m.read(m.pc));
    law_branch_target(m.fetched());
}

} // verus!
