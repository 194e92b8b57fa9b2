//! One line of diagnostic text for the instruction that is about to execute.
//!
//! The line holds the program counter, the raw bytes of the instruction, the
//! mnemonic with its operand in the syntax of the addressing mode, and the
//! registers, flags and stack pointer. Producing it reads the processor and
//! its memory and changes neither.
use vstd::prelude::*;
use vstd::string::{StringExecFns, StrSliceExecFns};
use crate::bus::{low, high, low_byte, high_byte};
use crate::cpu::cpu::{AddressingMode, CPU};
use crate::cpu::mem::Mem;
use crate::cpu::model::Machine;
use crate::cpu::opcodes::{OpCode, descriptor, lookup};

verus! {

/// The upper-case hexadecimal digit of a value below 16.
pub open spec fn hex_digit(n: u8) -> Seq<char> {
    match n {
        0 => "0"@,
        1 => "1"@,
        2 => "2"@,
        3 => "3"@,
        4 => "4"@,
        5 => "5"@,
        6 => "6"@,
        7 => "7"@,
        8 => "8"@,
        9 => "9"@,
        10 => "A"@,
        11 => "B"@,
        12 => "C"@,
        13 => "D"@,
        14 => "E"@,
        _ => "F"@,
    }
}

/// A byte as two upper-case hexadecimal digits.
pub open spec fn hex_byte(b: u8) -> Seq<char> {
    hex_digit(b / 16) + hex_digit(b % 16)
}

/// A word as four upper-case hexadecimal digits.
pub open spec fn hex_word(w: u16) -> Seq<char> {
    hex_byte(high(w)) + hex_byte(low(w))
}

/// `n` spaces.
pub open spec fn spaces(n: nat) -> Seq<char>
    decreases n,
{
    if n == 0 {
        Seq::empty()
    } else {
        spaces((n - 1) as nat) + " "@
    }
}

/// The text followed by as many spaces as it lacks to `width` characters.
pub open spec fn pad_right(text: Seq<char>, width: nat) -> Seq<char> {
    if text.len() >= width {
        text
    } else {
        text + spaces((width - text.len()) as nat)
    }
}

/// The spaces that a text of `len` characters lacks to `width` characters.
pub open spec fn fill(len: nat, width: nat) -> Seq<char> {
    if len >= width {
        Seq::empty()
    } else {
        spaces((width - len) as nat)
    }
}

/// The raw bytes of the instruction at the program counter, in hexadecimal
/// and separated by single spaces.
pub open spec fn hex_dump(m: Machine, op: OpCode) -> Seq<char> {
    let first = m.read(m.pc.wrapping_add(1));
    let second = m.read(m.pc.wrapping_add(2));
    if op.len == 2 {
        hex_byte(op.code) + " "@ + hex_byte(first)
    } else if op.len == 3 {
        hex_byte(op.code) + " "@ + hex_byte(first) + " "@ + hex_byte(second)
    } else {
        hex_byte(op.code)
    }
}

/// The operand of a two-byte instruction at the program counter, in the
/// syntax of its addressing mode. `target` and `stored` are the effective
/// address and the byte found there.
pub open spec fn short_operand(m: Machine, op: OpCode, target: u16, stored: u8) -> Seq<char> {
    let at = m.pc.wrapping_add(1);
    let addr = m.read(at);
    match op.mode {
        AddressingMode::Immediate => "#$"@ + hex_byte(addr),
        AddressingMode::ZeroPage => "$"@ + hex_byte(low(target)) + " = "@ + hex_byte(stored),
        AddressingMode::ZeroPage_X => "$"@ + hex_byte(addr) + ",X @"@ + hex_byte(low(target))
            + " = "@ + hex_byte(stored),
        AddressingMode::ZeroPage_Y => "$"@ + hex_byte(addr) + ",Y @"@ + hex_byte(low(target))
            + " = "@ + hex_byte(stored),
        AddressingMode::Indirect_X => "($"@ + hex_byte(addr) + ",X) @"@ + hex_byte(
            addr.wrapping_add(m.x),
        ) + " = "@ + hex_word(target) + " = "@ + hex_byte(stored),
        AddressingMode::Indirect_Y => "($"@ + hex_byte(addr) + "),Y = "@ + hex_word(
            target.wrapping_sub(m.y as u16),
        ) + " @ "@ + hex_word(target) + " = "@ + hex_byte(stored),
        AddressingMode::NoneAddressing => "$"@ + hex_word(
            (Machine { pc: at, ..m }).branch_target(),
        ),
        _ => Seq::empty(),
    }
}

/// The operand of a three-byte instruction at the program counter, in the
/// syntax of its addressing mode.
pub open spec fn long_operand(m: Machine, op: OpCode, target: u16, stored: u8) -> Seq<char> {
    let addr = m.read_u16(m.pc.wrapping_add(1));
    match op.mode {
        AddressingMode::NoneAddressing => if op.code == 0x6C {
            "($"@ + hex_word(addr) + ") = "@ + hex_word(m.indirect_target(addr))
        } else {
            "$"@ + hex_word(addr)
        },
        AddressingMode::Absolute => "$"@ + hex_word(target) + " = "@ + hex_byte(stored),
        AddressingMode::Absolute_X => "$"@ + hex_word(addr) + ",X @ "@ + hex_word(target) + " = "@
            + hex_byte(stored),
        AddressingMode::Absolute_Y => "$"@ + hex_word(addr) + ",Y @ "@ + hex_word(target) + " = "@
            + hex_byte(stored),
        _ => Seq::empty(),
    }
}

/// The effective address that the instruction at the program counter would
/// resolve, as the engine resolves it; zero where it resolves none.
pub open spec fn operand_target(m: Machine, op: OpCode) -> u16 {
    match op.mode {
        AddressingMode::Immediate | AddressingMode::NoneAddressing => 0,
        _ => m.absolute_address(op.mode, m.pc.wrapping_add(1)),
    }
}

/// The byte at the effective address; zero where the instruction resolves
/// none.
pub open spec fn operand_value(m: Machine, op: OpCode) -> u8 {
    match op.mode {
        AddressingMode::Immediate | AddressingMode::NoneAddressing => 0,
        _ => m.read(operand_target(m, op)),
    }
}

/// The operand of the instruction at the program counter: `A` for a shift or
/// rotate of the accumulator, nothing for the other one-byte instructions.
pub open spec fn operand_syntax(m: Machine, op: OpCode) -> Seq<char> {
    let target = operand_target(m, op);
    let stored = operand_value(m, op);
    if op.len == 1 {
        if op.code == 0x0A || op.code == 0x4A || op.code == 0x2A || op.code == 0x6A {
            "A"@
        } else {
            Seq::empty()
        }
    } else if op.len == 2 {
        short_operand(m, op, target, stored)
    } else if op.len == 3 {
        long_operand(m, op, target, stored)
    } else {
        Seq::empty()
    }
}

/// The left part of the line: the program counter, the raw bytes in a column
/// of eight characters, the mnemonic right-aligned in a column of four, and
/// the operand. Nothing follows the mnemonic where there is no operand.
pub open spec fn assembly(m: Machine, op: OpCode) -> Seq<char> {
    let head = hex_word(m.pc) + "  "@ + pad_right(hex_dump(m, op), 8) + " "@ + fill(
        op.mnemonic.name_spec().len(),
        4,
    ) + op.mnemonic.name_spec();
    if operand_syntax(m, op).len() == 0 {
        head
    } else {
        head + " "@ + operand_syntax(m, op)
    }
}

/// The whole line for the given entry: the left part in a column of 47
/// characters, then accumulator, index registers, flags and stack pointer.
pub open spec fn line_of(m: Machine, op: OpCode) -> Seq<char> {
    pad_right(assembly(m, op), 47) + " A:"@ + hex_byte(m.a) + " X:"@ + hex_byte(m.x) + " Y:"@
        + hex_byte(m.y) + " P:"@ + hex_byte(m.p) + " SP:"@ + hex_byte(m.sp)
}

/// The line for the instruction at the program counter; empty where the byte
/// there encodes no instruction.
pub open spec fn trace_line(m: Machine) -> Seq<char> {
    match descriptor(m.read(m.pc)) {
        Some(op) => line_of(m, op),
        None => Seq::empty(),
    }
}

fn hex_digit_text(n: u8) -> (text: &'static str)
    ensures
        text@ == hex_digit(n),
{
    match n {
        0 => "0",
        1 => "1",
        2 => "2",
        3 => "3",
        4 => "4",
        5 => "5",
        6 => "6",
        7 => "7",
        8 => "8",
        9 => "9",
        10 => "A",
        11 => "B",
        12 => "C",
        13 => "D",
        14 => "E",
        _ => "F",
    }
}

fn push_hex_byte(out: &mut String, b: u8)
    ensures
        final(out)@ == old(out)@ + hex_byte(b),
{
    out.append(hex_digit_text(b / 16));
    out.append(hex_digit_text(b % 16));
    assert(out@ =~= old(out)@ + hex_byte(b));
}

fn push_hex_word(out: &mut String, w: u16)
    ensures
        final(out)@ == old(out)@ + hex_word(w),
{
    push_hex_byte(out, high_byte(w));
    push_hex_byte(out, low_byte(w));
    assert(out@ =~= old(out)@ + hex_word(w));
}

fn push_spaces(out: &mut String, n: usize)
    ensures
        final(out)@ == old(out)@ + spaces(n as nat),
{
    let mut i: usize = 0;
    assert(out@ =~= old(out)@ + spaces(0));
    while i < n
        invariant
            i <= n,
            out@ == old(out)@ + spaces(i as nat),
        decreases n - i,
    {
        out.append(" ");
        i = i + 1;
        assert(out@ =~= old(out)@ + spaces(i as nat));
    }
}

fn pad_to(out: &mut String, width: usize)
    ensures
        final(out)@ == pad_right(old(out)@, width as nat),
{
    let len = out.as_str().unicode_len();
    if len < width {
        push_spaces(out, width - len);
    }
}

fn short_operand_text(cpu: &CPU, op: &OpCode, target: u16, stored: u8) -> (text: String)
    requires
        cpu@.wf(),
    ensures
        text@ == short_operand(cpu@, *op, target, stored),
{
    let at = cpu.program_counter.wrapping_add(1);
    let addr = cpu.mem_read(at);
    let mut text = String::new();
    match op.mode {
        AddressingMode::Immediate => {
            text.append("#$");
            push_hex_byte(&mut text, addr);
        },
        AddressingMode::ZeroPage => {
            text.append("$");
            push_hex_byte(&mut text, low_byte(target));
            text.append(" = ");
            push_hex_byte(&mut text, stored);
        },
        AddressingMode::ZeroPage_X => {
            text.append("$");
            push_hex_byte(&mut text, addr);
            text.append(",X @");
            push_hex_byte(&mut text, low_byte(target));
            text.append(" = ");
            push_hex_byte(&mut text, stored);
        },
        AddressingMode::ZeroPage_Y => {
            text.append("$");
            push_hex_byte(&mut text, addr);
            text.append(",Y @");
            push_hex_byte(&mut text, low_byte(target));
            text.append(" = ");
            push_hex_byte(&mut text, stored);
        },
        AddressingMode::Indirect_X => {
            text.append("($");
            push_hex_byte(&mut text, addr);
            text.append(",X) @");
            push_hex_byte(&mut text, addr.wrapping_add(cpu.register_x));
            text.append(" = ");
            push_hex_word(&mut text, target);
            text.append(" = ");
            push_hex_byte(&mut text, stored);
        },
        AddressingMode::Indirect_Y => {
            text.append("($");
            push_hex_byte(&mut text, addr);
            text.append("),Y = ");
            push_hex_word(&mut text, target.wrapping_sub(cpu.register_y as u16));
            text.append(" @ ");
            push_hex_word(&mut text, target);
            text.append(" = ");
            push_hex_byte(&mut text, stored);
        },
        AddressingMode::NoneAddressing => {
            let displacement: u16 = if addr < 0x80 {
                addr as u16
            } else {
                addr as u16 + 0xFF00
            };
            text.append("$");
            push_hex_word(&mut text, at.wrapping_add(1).wrapping_add(displacement));
        },
        _ => {},
    }
    assert(text@ =~= short_operand(cpu@, *op, target, stored));
    text
}

fn long_operand_text(cpu: &CPU, op: &OpCode, target: u16, stored: u8) -> (text: String)
    requires
        cpu@.wf(),
    ensures
        text@ == long_operand(cpu@, *op, target, stored),
{
    let addr = cpu.mem_read_u16(cpu.program_counter.wrapping_add(1));
    let mut text = String::new();
    match op.mode {
        AddressingMode::NoneAddressing => {
            if op.code == 0x6C {
                let jmp_addr = cpu.indirect_target(addr);
                text.append("($");
                push_hex_word(&mut text, addr);
                text.append(") = ");
                push_hex_word(&mut text, jmp_addr);
            } else {
                text.append("$");
                push_hex_word(&mut text, addr);
            }
        },
        AddressingMode::Absolute => {
            text.append("$");
            push_hex_word(&mut text, target);
            text.append(" = ");
            push_hex_byte(&mut text, stored);
        },
        AddressingMode::Absolute_X => {
            text.append("$");
            push_hex_word(&mut text, addr);
            text.append(",X @ ");
            push_hex_word(&mut text, target);
            text.append(" = ");
            push_hex_byte(&mut text, stored);
        },
        AddressingMode::Absolute_Y => {
            text.append("$");
            push_hex_word(&mut text, addr);
            text.append(",Y @ ");
            push_hex_word(&mut text, target);
            text.append(" = ");
            push_hex_byte(&mut text, stored);
        },
        _ => {},
    }
    assert(text@ =~= long_operand(cpu@, *op, target, stored));
    text
}

fn operand_text(cpu: &CPU, op: &OpCode) -> (text: String)
    requires
        cpu@.wf(),
    ensures
        text@ == operand_syntax(cpu@, *op),
{
    let (target, stored) = match op.mode {
        AddressingMode::Immediate | AddressingMode::NoneAddressing => (0, 0),
        _ => {
            let addr = cpu.get_absolute_address(&op.mode, cpu.program_counter.wrapping_add(1));
            (addr, cpu.mem_read(addr))
        },
    };
    if op.len == 1 {
        if op.code == 0x0A || op.code == 0x4A || op.code == 0x2A || op.code == 0x6A {
            String::from_str("A")
        } else {
            String::new()
        }
    } else if op.len == 2 {
        short_operand_text(cpu, op, target, stored)
    } else if op.len == 3 {
        long_operand_text(cpu, op, target, stored)
    } else {
        String::new()
    }
}

fn hex_dump_text(cpu: &CPU, op: &OpCode) -> (text: String)
    requires
        cpu@.wf(),
    ensures
        text@ == hex_dump(cpu@, *op),
{
    let mut text = String::new();
    push_hex_byte(&mut text, op.code);
    if op.len == 2 || op.len == 3 {
        text.append(" ");
        push_hex_byte(&mut text, cpu.mem_read(cpu.program_counter.wrapping_add(1)));
    }
    if op.len == 3 {
        text.append(" ");
        push_hex_byte(&mut text, cpu.mem_read(cpu.program_counter.wrapping_add(2)));
    }
    assert(text@ =~= hex_dump(cpu@, *op));
    text
}

fn assembly_text(cpu: &CPU, op: &OpCode) -> (text: String)
    requires
        cpu@.wf(),
    ensures
        text@ == assembly(cpu@, *op),
{
    let mut dump = hex_dump_text(cpu, op);
    pad_to(&mut dump, 8);
    let name = op.mnemonic.name();
    let name_len = name.unicode_len();
    let operand = operand_text(cpu, op);
    let mut text = String::new();
    push_hex_word(&mut text, cpu.program_counter);
    text.append("  ");
    text.append(dump.as_str());
    text.append(" ");
    if name_len < 4 {
        push_spaces(&mut text, 4 - name_len);
    }
    text.append(name);
    if operand.as_str().unicode_len() != 0 {
        text.append(" ");
        text.append(operand.as_str());
    }
    assert(text@ =~= assembly(cpu@, *op));
    text
}

/// Renders the line for the instruction at the program counter. The byte
/// there must encode an instruction.
pub fn trace(cpu: &CPU) -> (line: String)
    requires
        cpu@.wf(),
        descriptor(cpu@.read(cpu@.pc)).is_some(),
    ensures
        line@ == trace_line(cpu@),
{
    let code = cpu.mem_read(cpu.program_counter);
    match lookup(code) {
        Some(op) => {
            let mut line = assembly_text(cpu, &op);
            pad_to(&mut line, 47);
            line.append(" A:");
            push_hex_byte(&mut line, cpu.register_a);
            line.append(" X:");
            push_hex_byte(&mut line, cpu.register_x);
            line.append(" Y:");
            push_hex_byte(&mut line, cpu.register_y);
            line.append(" P:");
            push_hex_byte(&mut line, cpu.status.bits());
            line.append(" SP:");
            push_hex_byte(&mut line, cpu.stack_pointer);
            line
        },
        None => String::new(),
    }
}

} // verus!
