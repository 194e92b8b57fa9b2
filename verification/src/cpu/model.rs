//! The mathematical model of the machine: the processor state together with
//! its address space, and what each instruction makes of it.
//!
//! Every function here is a specification. The executable engine is proved to
//! compute exactly these functions.
use vstd::prelude::*;
use crate::bus::{AddressSpace, word, low, high};
use crate::cpu::cpu::AddressingMode;
use crate::cpu::flags::{
    with_flag, with_zero_negative, flag_set, CARRY, ZERO, INTERRUPT_DISABLE, DECIMAL_MODE, BREAK,
    BREAK_2, OVERFLOW, NEGATIVE, POWER_ON,
};
use crate::cpu::opcodes::{Mnemonic, OpCode, descriptor};

verus! {

/// The page that holds the stack.
pub const STACK: u16 = 0x0100;

/// The stack pointer after power-on and after reset.
pub const STACK_RESET: u8 = 0xFD;

/// The address of the reset vector.
pub const RESET_VECTOR: u16 = 0xFFFC;

/// The address at which a staged program is loaded.
pub const LOAD_ADDRESS: u16 = 0x0600;

/// A one-byte branch displacement, sign-extended to 16 bits.
pub open spec fn sign_extend(displacement: u8) -> u16 {
    if displacement < 0x80 {
        displacement as u16
    } else {
        (displacement as int + 0xFF00) as u16
    }
}

/// The two's complement of a byte, decremented by one: the operand that turns
/// an addition into a subtraction with borrow.
pub open spec fn negate_minus_one(value: u8) -> u8 {
    0u8.wrapping_sub(value).wrapping_sub(1)
}

/// The fatal conditions that end a run.
#[derive(Clone, Copy, Debug, PartialEq, Eq, Structural)]
pub enum CpuError {
    /// The byte at the program counter encodes no instruction.
    UnknownOpcode { code: u8 },
    /// An instruction tried to write into read-only program storage.
    ProtectionFault { addr: u16 },
}

/// The processor registers and the address space they act on.
pub struct Machine {
    pub a: u8,
    pub x: u8,
    pub y: u8,
    pub p: u8,
    pub pc: u16,
    pub sp: u8,
    pub space: AddressSpace,
}

/// What one instruction makes of a machine.
pub enum Transition {
    /// The instruction was executed; the machine goes on from this state.
    Next(Machine),
    /// The halt instruction was decoded; the machine rests in this state.
    Halt(Machine),
    /// A fatal condition; the machine is left as it was.
    Fault(CpuError),
}

/// How a bounded run ends.
pub enum RunEnd {
    /// The halt instruction was decoded.
    Halted(Machine),
    /// The instruction budget ran out before a halt.
    Running(Machine),
    /// A fatal condition, with the state in which it arose.
    Faulted(Machine, CpuError),
}

impl Machine {
    /// The address space is well formed. The registers take every value.
    pub open spec fn wf(self) -> bool {
        self.space.wf()
    }

    /// The byte at `addr`.
    pub open spec fn read(self, addr: u16) -> u8 {
        self.space.read(addr)
    }

    /// The little-endian word at `addr`.
    pub open spec fn read_u16(self, addr: u16) -> u16 {
        self.space.read_u16(addr)
    }

    /// The machine after a write of `data` at `addr`.
    pub open spec fn write(self, addr: u16, data: u8) -> Machine {
        Machine { space: self.space.write(addr, data), ..self }
    }

    /// The machine with Zero and Negative recomputed from `result`.
    pub open spec fn update_zero_and_negative_flags(self, result: u8) -> Machine {
        Machine { p: with_zero_negative(self.p, result), ..self }
    }

    /// The machine with one flag set or cleared.
    pub open spec fn set_status(self, flag: u8, on: bool) -> Machine {
        Machine { p: with_flag(self.p, flag, on), ..self }
    }

    /// The machine with the accumulator loaded and Zero and Negative
    /// recomputed from it.
    pub open spec fn set_register_a(self, value: u8) -> Machine {
        Machine { a: value, ..self }.update_zero_and_negative_flags(value)
    }

    /// The effective address of an operand whose bytes start at `addr`.
    ///
    /// Zero-page indexing adds the index within 8 bits, so it never leaves
    /// page zero; absolute indexing adds within 16 bits. Both pointer bytes of
    /// the indirect modes are fetched from page zero.
    pub open spec fn absolute_address(self, mode: AddressingMode, addr: u16) -> u16 {
        match mode {
            AddressingMode::ZeroPage => self.read(addr) as u16,
            AddressingMode::Absolute => self.read_u16(addr),
            AddressingMode::ZeroPage_X => self.read(addr).wrapping_add(self.x) as u16,
            AddressingMode::ZeroPage_Y => self.read(addr).wrapping_add(self.y) as u16,
            AddressingMode::Absolute_X => self.read_u16(addr).wrapping_add(self.x as u16),
            AddressingMode::Absolute_Y => self.read_u16(addr).wrapping_add(self.y as u16),
            AddressingMode::Indirect_X => {
                let ptr = self.read(addr).wrapping_add(self.x);
                word(self.read(ptr as u16), self.read(ptr.wrapping_add(1) as u16))
            },
            AddressingMode::Indirect_Y => {
                let base = self.read(addr);
                let deref_base = word(
                    self.read(base as u16),
                    self.read(base.wrapping_add(1) as u16),
                );
                deref_base.wrapping_add(self.y as u16)
            },
            AddressingMode::Immediate | AddressingMode::NoneAddressing => addr,
        }
    }

    /// The effective operand address of the instruction whose operand bytes
    /// start at the program counter. An immediate operand is the byte at the
    /// program counter itself.
    pub open spec fn operand_address(self, mode: AddressingMode) -> u16 {
        self.absolute_address(mode, self.pc)
    }

    /// The operand byte of the instruction.
    pub open spec fn operand(self, mode: AddressingMode) -> u8 {
        self.read(self.operand_address(mode))
    }

    /// The machine after a push: the byte is written at the stack pointer's
    /// cell of the stack page, then the stack pointer steps down within the
    /// page.
    pub open spec fn stack_push(self, value: u8) -> Machine {
        Machine { sp: self.sp.wrapping_sub(1), ..self.write((STACK + self.sp) as u16, value) }
    }

    /// The machine after a pop: the stack pointer steps up within the page.
    pub open spec fn stack_drop(self) -> Machine {
        Machine { sp: self.sp.wrapping_add(1), ..self }
    }

    /// The byte that a pop returns: the one at the stepped-up stack pointer.
    pub open spec fn stack_top(self) -> u8 {
        self.read((STACK + self.sp.wrapping_add(1)) as u16)
    }

    /// The machine after a word push: high byte first.
    pub open spec fn stack_push_u16(self, value: u16) -> Machine {
        self.stack_push(high(value)).stack_push(low(value))
    }

    /// The word that a word pop returns: low byte first.
    pub open spec fn stack_top_u16(self) -> u16 {
        word(self.stack_top(), self.stack_drop().stack_top())
    }

    /// The machine after a word pop.
    pub open spec fn stack_drop_u16(self) -> Machine {
        self.stack_drop().stack_drop()
    }

    /// Addition with carry: the 9-bit sum of the accumulator, the value and
    /// the carry gives the new carry in bit 8 and the accumulator in the low
    /// byte; Overflow is set when both operands differ in sign from the
    /// result.
    pub open spec fn add_to_register_a(self, value: u8) -> Machine {
        let carry_in: int = if flag_set(self.p, CARRY) {
            1
        } else {
            0
        };
        let sum = self.a as int + value as int + carry_in;
        let result = (sum % 256) as u8;
        self.set_status(CARRY, sum > 0xFF).set_status(
            OVERFLOW,
            (value ^ result) & (result ^ self.a) & 0x80 != 0,
        ).set_register_a(result)
    }

    pub open spec fn adc(self, mode: AddressingMode) -> Machine {
        self.add_to_register_a(self.operand(mode))
    }

    pub open spec fn sbc(self, mode: AddressingMode) -> Machine {
        self.add_to_register_a(negate_minus_one(self.operand(mode)))
    }

    pub open spec fn and(self, mode: AddressingMode) -> Machine {
        self.set_register_a(self.operand(mode) & self.a)
    }

    pub open spec fn eor(self, mode: AddressingMode) -> Machine {
        self.set_register_a(self.operand(mode) ^ self.a)
    }

    pub open spec fn ora(self, mode: AddressingMode) -> Machine {
        self.set_register_a(self.operand(mode) | self.a)
    }

    /// The byte shifted left by one, bit 0 cleared.
    pub open spec fn shifted_left(data: u8) -> u8 {
        data << 1
    }

    /// The byte shifted right by one, bit 7 cleared.
    pub open spec fn shifted_right(data: u8) -> u8 {
        data >> 1
    }

    /// The byte rotated left by one through the carry.
    pub open spec fn rotated_left(data: u8, carry: bool) -> u8 {
        if carry {
            (data << 1) | 1
        } else {
            data << 1
        }
    }

    /// The byte rotated right by one through the carry.
    pub open spec fn rotated_right(data: u8, carry: bool) -> u8 {
        if carry {
            (data >> 1) | NEGATIVE
        } else {
            data >> 1
        }
    }

    /// The machine after a read-modify-write instruction on memory: Carry
    /// takes the bit that left the byte, the cell takes the result, and Zero
    /// and Negative follow the result.
    pub open spec fn modify(self, addr: u16, carry_out: bool, result: u8) -> Machine {
        self.set_status(CARRY, carry_out).write(addr, result).update_zero_and_negative_flags(
            result,
        )
    }

    pub open spec fn asl(self, mode: AddressingMode) -> Machine {
        let addr = self.operand_address(mode);
        let data = self.read(addr);
        self.modify(addr, data >> 7 == 1, Self::shifted_left(data))
    }

    pub open spec fn asl_accumulator(self) -> Machine {
        self.set_status(CARRY, self.a >> 7 == 1).set_register_a(Self::shifted_left(self.a))
    }

    pub open spec fn lsr(self, mode: AddressingMode) -> Machine {
        let addr = self.operand_address(mode);
        let data = self.read(addr);
        self.modify(addr, data & 1 == 1, Self::shifted_right(data))
    }

    pub open spec fn lsr_accumulator(self) -> Machine {
        self.set_status(CARRY, self.a & 1 == 1).set_register_a(Self::shifted_right(self.a))
    }

    pub open spec fn rol(self, mode: AddressingMode) -> Machine {
        let addr = self.operand_address(mode);
        let data = self.read(addr);
        self.modify(addr, data >> 7 == 1, Self::rotated_left(data, flag_set(self.p, CARRY)))
    }

    pub open spec fn rol_accumulator(self) -> Machine {
        self.set_status(CARRY, self.a >> 7 == 1).set_register_a(
            Self::rotated_left(self.a, flag_set(self.p, CARRY)),
        )
    }

    pub open spec fn ror(self, mode: AddressingMode) -> Machine {
        let addr = self.operand_address(mode);
        let data = self.read(addr);
        self.modify(addr, data & 1 == 1, Self::rotated_right(data, flag_set(self.p, CARRY)))
    }

    pub open spec fn ror_accumulator(self) -> Machine {
        self.set_status(CARRY, self.a & 1 == 1).set_register_a(
            Self::rotated_right(self.a, flag_set(self.p, CARRY)),
        )
    }

    /// Bit test: Zero from the accumulator ANDed with the operand, which is
    /// not stored; Negative and Overflow are the operand's top two bits.
    pub open spec fn bit(self, mode: AddressingMode) -> Machine {
        let value = self.operand(mode);
        self.set_status(ZERO, value & self.a == 0).set_status(
            NEGATIVE,
            value & NEGATIVE > 0,
        ).set_status(OVERFLOW, value & OVERFLOW > 0)
    }

    /// The target of a taken branch: the address after the displacement byte
    /// plus the signed displacement, within 16 bits.
    pub open spec fn branch_target(self) -> u16 {
        self.pc.wrapping_add(1).wrapping_add(sign_extend(self.read(self.pc)))
    }

    pub open spec fn branch(self, condition: bool) -> Machine {
        if condition {
            Machine { pc: self.branch_target(), ..self }
        } else {
            self
        }
    }

    /// Compare: Carry where the operand is at most the register; Zero and
    /// Negative from the wrapping difference.
    pub open spec fn compare(self, mode: AddressingMode, compare_with: u8) -> Machine {
        let value = self.operand(mode);
        self.set_status(CARRY, value <= compare_with).update_zero_and_negative_flags(
            compare_with.wrapping_sub(value),
        )
    }

    /// The machine after a memory cell is replaced and Zero and Negative
    /// follow the new byte.
    pub open spec fn store_result(self, addr: u16, value: u8) -> Machine {
        self.write(addr, value).update_zero_and_negative_flags(value)
    }

    pub open spec fn dec(self, mode: AddressingMode) -> Machine {
        let addr = self.operand_address(mode);
        self.store_result(addr, self.read(addr).wrapping_sub(1))
    }

    pub open spec fn inc(self, mode: AddressingMode) -> Machine {
        let addr = self.operand_address(mode);
        self.store_result(addr, self.read(addr).wrapping_add(1))
    }

    /// The machine with index X loaded and Zero and Negative recomputed.
    pub open spec fn set_register_x(self, value: u8) -> Machine {
        Machine { x: value, ..self }.update_zero_and_negative_flags(value)
    }

    /// The machine with index Y loaded and Zero and Negative recomputed.
    pub open spec fn set_register_y(self, value: u8) -> Machine {
        Machine { y: value, ..self }.update_zero_and_negative_flags(value)
    }

    pub open spec fn dex(self) -> Machine {
        self.set_register_x(self.x.wrapping_sub(1))
    }

    pub open spec fn dey(self) -> Machine {
        self.set_register_y(self.y.wrapping_sub(1))
    }

    pub open spec fn inx(self) -> Machine {
        self.set_register_x(self.x.wrapping_add(1))
    }

    pub open spec fn iny(self) -> Machine {
        self.set_register_y(self.y.wrapping_add(1))
    }

    pub open spec fn jmp_absolute(self) -> Machine {
        Machine { pc: self.read_u16(self.pc), ..self }
    }

    /// The target of an indirect jump through the pointer at `addr`. Where
    /// the pointer's low byte sits at the end of a page, the high byte is
    /// fetched from the start of that same page.
    pub open spec fn indirect_target(self, addr: u16) -> u16 {
        if addr & 0x00FF == 0x00FF {
            word(self.read(addr), self.read(addr & 0xFF00))
        } else {
            self.read_u16(addr)
        }
    }

    pub open spec fn jmp_indirect(self) -> Machine {
        Machine { pc: self.indirect_target(self.read_u16(self.pc)), ..self }
    }

    /// Call: the address of the last byte of the call instruction goes onto
    /// the stack, then the program counter takes the operand word.
    pub open spec fn jsr(self) -> Machine {
        let pushed = self.stack_push_u16(self.pc.wrapping_add(1));
        Machine { pc: pushed.read_u16(pushed.pc), ..pushed }
    }

    pub open spec fn rts(self) -> Machine {
        Machine { pc: self.stack_top_u16().wrapping_add(1), ..self.stack_drop_u16() }
    }

    /// The flags as restored from a stacked byte: Break cleared, Break2 set.
    pub open spec fn restored_flags(byte: u8) -> u8 {
        with_flag(with_flag(byte, BREAK, false), BREAK_2, true)
    }

    /// The byte that a flag push stacks: Break and Break2 both set.
    pub open spec fn pushed_flags(bits: u8) -> u8 {
        with_flag(with_flag(bits, BREAK, true), BREAK_2, true)
    }

    pub open spec fn rti(self) -> Machine {
        let flags = Machine { p: Self::restored_flags(self.stack_top()), ..self.stack_drop() };
        Machine { pc: flags.stack_top_u16(), ..flags.stack_drop_u16() }
    }

    pub open spec fn lda(self, mode: AddressingMode) -> Machine {
        self.set_register_a(self.operand(mode))
    }

    pub open spec fn ldx(self, mode: AddressingMode) -> Machine {
        self.set_register_x(self.operand(mode))
    }

    pub open spec fn ldy(self, mode: AddressingMode) -> Machine {
        self.set_register_y(self.operand(mode))
    }

    pub open spec fn pha(self) -> Machine {
        self.stack_push(self.a)
    }

    pub open spec fn pla(self) -> Machine {
        self.stack_drop().set_register_a(self.stack_top())
    }

    pub open spec fn php(self) -> Machine {
        self.stack_push(Self::pushed_flags(self.p))
    }

    pub open spec fn plp(self) -> Machine {
        Machine { p: Self::restored_flags(self.stack_top()), ..self.stack_drop() }
    }

    pub open spec fn tax(self) -> Machine {
        self.set_register_x(self.a)
    }

    pub open spec fn tay(self) -> Machine {
        self.set_register_y(self.a)
    }

    pub open spec fn txs(self) -> Machine {
        Machine { sp: self.x, ..self }
    }

    pub open spec fn tsx(self) -> Machine {
        self.set_register_x(self.sp)
    }

    pub open spec fn txa(self) -> Machine {
        self.set_register_a(self.x)
    }

    pub open spec fn tya(self) -> Machine {
        self.set_register_a(self.y)
    }

    pub open spec fn sta(self, mode: AddressingMode) -> Machine {
        self.write(self.operand_address(mode), self.a)
    }

    pub open spec fn stx(self, mode: AddressingMode) -> Machine {
        self.write(self.operand_address(mode), self.x)
    }

    pub open spec fn sty(self, mode: AddressingMode) -> Machine {
        self.write(self.operand_address(mode), self.y)
    }

    /// The machine with a program staged: its bytes in work memory from the
    /// load address upwards, and the reset vector pointing at the load
    /// address.
    pub open spec fn load(self, program: Seq<u8>) -> Machine {
        Machine {
            space: self.space.stage(LOAD_ADDRESS, program).with_reset_vector(LOAD_ADDRESS),
            ..self
        }
    }

    /// The machine after power-on or reset: registers cleared, the flags at
    /// their power-on pattern, the stack pointer at its start, and the program
    /// counter loaded from the reset vector.
    pub open spec fn reset(self) -> Machine {
        Machine {
            a: 0,
            x: 0,
            y: 0,
            p: POWER_ON,
            pc: self.read_u16(RESET_VECTOR),
            sp: STACK_RESET,
            space: self.space,
        }
    }
}

impl OpCode {
    /// Whether the entry gives an addressed mnemonic an addressing mode, as
    /// every entry of the instruction table does.
    pub open spec fn resolvable(self) -> bool {
        self.mnemonic.addressed() ==> self.mode != AddressingMode::NoneAddressing
    }

    /// Whether the instruction writes to the memory cell that its addressing
    /// mode resolves.
    pub open spec fn stores(self) -> bool {
        match self.mnemonic {
            Mnemonic::Sta | Mnemonic::Stx | Mnemonic::Sty | Mnemonic::Inc | Mnemonic::Dec => true,
            Mnemonic::Asl | Mnemonic::Lsr | Mnemonic::Rol | Mnemonic::Ror => self.mode
                != AddressingMode::NoneAddressing,
            _ => false,
        }
    }
}

impl Machine {
    /// Whether the instruction would write into read-only program storage.
    pub open spec fn write_fault(self, op: OpCode) -> bool {
        op.stores() && !AddressSpace::writable(self.operand_address(op.mode))
    }

    /// Whether a branch is taken: the condition of the branch mnemonic on the
    /// flags. No other mnemonic branches.
    pub open spec fn branch_taken(self, mnemonic: Mnemonic) -> bool {
        match mnemonic {
            Mnemonic::Bcc => !flag_set(self.p, CARRY),
            Mnemonic::Bcs => flag_set(self.p, CARRY),
            Mnemonic::Beq => flag_set(self.p, ZERO),
            Mnemonic::Bmi => flag_set(self.p, NEGATIVE),
            Mnemonic::Bne => !flag_set(self.p, ZERO),
            Mnemonic::Bpl => !flag_set(self.p, NEGATIVE),
            Mnemonic::Bvc => !flag_set(self.p, OVERFLOW),
            Mnemonic::Bvs => flag_set(self.p, OVERFLOW),
            _ => false,
        }
    }

    /// Whether the handler of the instruction sets the program counter
    /// itself: jumps, the call and the returns always, a branch where it is
    /// taken. This goes by what the instruction is, not by the value that the
    /// program counter ends up with.
    pub open spec fn sets_pc(self, op: OpCode) -> bool {
        match op.mnemonic {
            Mnemonic::Jmp | Mnemonic::Jsr | Mnemonic::Rts | Mnemonic::Rti => true,
            _ => self.branch_taken(op.mnemonic),
        }
    }

    /// The machine after the instruction's handler, with the program counter
    /// on the first operand byte before it. The shift and rotate mnemonics
    /// act on the accumulator where the entry has no addressing mode.
    pub open spec fn execute(self, op: OpCode) -> Machine {
        match op.mnemonic {
            Mnemonic::Brk | Mnemonic::Nop => self,
            Mnemonic::Adc => self.adc(op.mode),
            Mnemonic::And => self.and(op.mode),
            Mnemonic::Asl => if op.mode == AddressingMode::NoneAddressing {
                self.asl_accumulator()
            } else {
                self.asl(op.mode)
            },
            Mnemonic::Bcc
            | Mnemonic::Bcs
            | Mnemonic::Beq
            | Mnemonic::Bmi
            | Mnemonic::Bne
            | Mnemonic::Bpl
            | Mnemonic::Bvc
            | Mnemonic::Bvs => self.branch(self.branch_taken(op.mnemonic)),
            Mnemonic::Bit => self.bit(op.mode),
            Mnemonic::Clc => self.set_status(CARRY, false),
            Mnemonic::Cld => self.set_status(DECIMAL_MODE, false),
            Mnemonic::Cli => self.set_status(INTERRUPT_DISABLE, false),
            Mnemonic::Clv => self.set_status(OVERFLOW, false),
            Mnemonic::Cmp => self.compare(op.mode, self.a),
            Mnemonic::Cpx => self.compare(op.mode, self.x),
            Mnemonic::Cpy => self.compare(op.mode, self.y),
            Mnemonic::Dec => self.dec(op.mode),
            Mnemonic::Dex => self.dex(),
            Mnemonic::Dey => self.dey(),
            Mnemonic::Eor => self.eor(op.mode),
            Mnemonic::Inc => self.inc(op.mode),
            Mnemonic::Inx => self.inx(),
            Mnemonic::Iny => self.iny(),
            Mnemonic::Jmp => if op.code == 0x6C {
                self.jmp_indirect()
            } else {
                self.jmp_absolute()
            },
            Mnemonic::Jsr => self.jsr(),
            Mnemonic::Lda => self.lda(op.mode),
            Mnemonic::Ldx => self.ldx(op.mode),
            Mnemonic::Ldy => self.ldy(op.mode),
            Mnemonic::Lsr => if op.mode == AddressingMode::NoneAddressing {
                self.lsr_accumulator()
            } else {
                self.lsr(op.mode)
            },
            Mnemonic::Ora => self.ora(op.mode),
            Mnemonic::Pha => self.pha(),
            Mnemonic::Php => self.php(),
            Mnemonic::Pla => self.pla(),
            Mnemonic::Plp => self.plp(),
            Mnemonic::Rol => if op.mode == AddressingMode::NoneAddressing {
                self.rol_accumulator()
            } else {
                self.rol(op.mode)
            },
            Mnemonic::Ror => if op.mode == AddressingMode::NoneAddressing {
                self.ror_accumulator()
            } else {
                self.ror(op.mode)
            },
            Mnemonic::Rti => self.rti(),
            Mnemonic::Rts => self.rts(),
            Mnemonic::Sbc => self.sbc(op.mode),
            Mnemonic::Sec => self.set_status(CARRY, true),
            Mnemonic::Sed => self.set_status(DECIMAL_MODE, true),
            Mnemonic::Sei => self.set_status(INTERRUPT_DISABLE, true),
            Mnemonic::Sta => self.sta(op.mode),
            Mnemonic::Stx => self.stx(op.mode),
            Mnemonic::Sty => self.sty(op.mode),
            Mnemonic::Tax => self.tax(),
            Mnemonic::Tay => self.tay(),
            Mnemonic::Tsx => self.tsx(),
            Mnemonic::Txa => self.txa(),
            Mnemonic::Txs => self.txs(),
            Mnemonic::Tya => self.tya(),
        }
    }

    /// The machine with the program counter moved past the opcode byte.
    pub open spec fn fetched(self) -> Machine {
        Machine { pc: self.pc.wrapping_add(1), ..self }
    }

    /// The machine with the program counter moved past the operand bytes of
    /// an instruction of `len` bytes, from the first of them.
    pub open spec fn past_operand(self, len: u8) -> Machine {
        Machine { pc: self.pc.wrapping_add((len - 1) as u16), ..self }
    }

    /// One fetch, decode and execute.
    ///
    /// The byte at the program counter is looked up in the instruction table;
    /// a byte without an entry is a decode error. The halt instruction leaves
    /// the program counter behind its opcode byte and changes nothing else. A
    /// write into program storage is a protection fault. Otherwise the handler
    /// runs. A handler that sets the program counter has the last word on it,
    /// whatever value it sets; after any other handler the program counter
    /// moves past the operand bytes.
    pub open spec fn step(self) -> Transition {
        match descriptor(self.read(self.pc)) {
            None => Transition::Fault(CpuError::UnknownOpcode { code: self.read(self.pc) }),
            Some(op) => {
                let fetched = self.fetched();
                if op.mnemonic == Mnemonic::Brk {
                    Transition::Halt(fetched)
                } else if fetched.write_fault(op) {
                    Transition::Fault(
                        CpuError::ProtectionFault { addr: fetched.operand_address(op.mode) },
                    )
                } else {
                    Transition::Next(
                        if fetched.sets_pc(op) {
                            fetched.execute(op)
                        } else {
                            fetched.execute(op).past_operand(op.len)
                        },
                    )
                }
            },
        }
    }

    /// A run of at most `limit` instructions: it ends with the halt
    /// instruction, with the first fatal condition, or with the budget.
    pub open spec fn run(self, limit: nat) -> RunEnd
        decreases limit,
    {
        if limit == 0 {
            RunEnd::Running(self)
        } else {
            match self.step() {
                Transition::Next(next) => next.run((limit - 1) as nat),
                Transition::Halt(rest) => RunEnd::Halted(rest),
                Transition::Fault(error) => RunEnd::Faulted(self, error),
            }
        }
    }
}

} // verus!
