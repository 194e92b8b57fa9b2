//! The processor state and the execution engine.
use vstd::prelude::*;
use crate::bus::{AddressSpace, Bus, make_word, low_byte, high_byte, low, high};
use crate::cpu::flags::{
    flag_set, CpuFlags, CARRY, ZERO, INTERRUPT_DISABLE, DECIMAL_MODE, BREAK, BREAK_2, OVERFLOW, NEGATIVE,
    POWER_ON,
};
use crate::cpu::mem::Mem;
use crate::cpu::model::{
    Machine, Transition, RunEnd, CpuError, STACK, STACK_RESET, RESET_VECTOR, LOAD_ADDRESS,
};
use crate::cpu::opcodes::{Mnemonic, OpCode, lookup, lemma_descriptor_shape};

verus! {

/// How an instruction's operand bytes are turned into an address.
#[derive(Clone, Copy, Debug, PartialEq, Eq, Structural)]
#[allow(non_camel_case_types)]
pub enum AddressingMode {
    Immediate,
    ZeroPage,
    ZeroPage_X,
    ZeroPage_Y,
    Absolute,
    Absolute_X,
    Absolute_Y,
    Indirect_X,
    Indirect_Y,
    NoneAddressing,
}

/// The two states of the engine.
#[derive(Clone, Copy, Debug, PartialEq, Eq, Structural)]
pub enum RunState {
    /// Instructions are being executed.
    Running,
    /// The halt instruction was decoded. This state is terminal.
    Halted,
}

/// The processor: its registers, and the address space it owns.
pub struct CPU {
    pub register_a: u8,
    pub register_x: u8,
    pub register_y: u8,
    pub status: CpuFlags,
    pub program_counter: u16,
    pub stack_pointer: u8,
    pub bus: Bus,
}

impl View for CPU {
    type V = Machine;

    open spec fn view(&self) -> Machine {
        Machine {
            a: self.register_a,
            x: self.register_x,
            y: self.register_y,
            p: self.status.bits,
            pc: self.program_counter,
            sp: self.stack_pointer,
            space: self.bus.space(),
        }
    }
}

impl Mem for CPU {
    open spec fn space(&self) -> AddressSpace {
        self.bus.space()
    }

    fn mem_read(&self, addr: u16) -> (data: u8) {
        self.bus.mem_read(addr)
    }

    fn mem_write(&mut self, addr: u16, data: u8)
        ensures
            final(self)@ == old(self)@.write(addr, data),
    {
        self.bus.mem_write(addr, data);
    }

    fn mem_read_u16(&self, pos: u16) -> (data: u16)
        ensures
            data == self@.read_u16(pos),
    {
        self.bus.mem_read_u16(pos)
    }

    fn mem_write_u16(&mut self, pos: u16, data: u16)
        ensures
            final(self)@ == old(self)@.write(pos, low(data)).write(pos.wrapping_add(1), high(data)),
    {
        self.bus.mem_write_u16(pos, data);
    }
}

impl CPU {
    /// The processor at power-on, around the address space it will execute
    /// against: registers and program counter cleared, the flags at their
    /// power-on pattern, the stack pointer at its start.
    pub fn new(bus: Bus) -> (cpu: CPU)
        requires
            bus.space().wf(),
        ensures
            cpu@ == (Machine {
                a: 0,
                x: 0,
                y: 0,
                p: POWER_ON,
                pc: 0,
                sp: STACK_RESET,
                space: bus.space(),
            }),
    {
        CPU {
            register_a: 0,
            register_x: 0,
            register_y: 0,
            status: CpuFlags::from_bits_truncate(0b100100),
            program_counter: 0,
            stack_pointer: STACK_RESET,
            bus,
        }
    }

    /// Resolves the effective address of an operand whose bytes start at
    /// `addr`. This reads memory and changes nothing.
    pub fn get_absolute_address(&self, mode: &AddressingMode, addr: u16) -> (target: u16)
        requires
            self@.wf(),
            *mode != AddressingMode::NoneAddressing,
        ensures
            target == self@.absolute_address(*mode, addr),
    {
        match mode {
            AddressingMode::Immediate => addr,
            AddressingMode::ZeroPage => self.mem_read(addr) as u16,
            AddressingMode::Absolute => self.mem_read_u16(addr),
            AddressingMode::ZeroPage_X => {
                let pos = self.mem_read(addr);
                pos.wrapping_add(self.register_x) as u16
            },
            AddressingMode::ZeroPage_Y => {
                let pos = self.mem_read(addr);
                pos.wrapping_add(self.register_y) as u16
            },
            AddressingMode::Absolute_X => {
                let base = self.mem_read_u16(addr);
                base.wrapping_add(self.register_x as u16)
            },
            AddressingMode::Absolute_Y => {
                let base = self.mem_read_u16(addr);
                base.wrapping_add(self.register_y as u16)
            },
            AddressingMode::Indirect_X => {
                let base = self.mem_read(addr);
                let ptr = base.wrapping_add(self.register_x);
                let low = self.mem_read(ptr as u16);
                let high = self.mem_read(ptr.wrapping_add(1) as u16);
                make_word(low, high)
            },
            AddressingMode::Indirect_Y => {
                let base = self.mem_read(addr);
                let low = self.mem_read(base as u16);
                let high = self.mem_read(base.wrapping_add(1) as u16);
                let deref_base = make_word(low, high);
                deref_base.wrapping_add(self.register_y as u16)
            },
            AddressingMode::NoneAddressing => addr,
        }
    }

    /// Resolves the effective operand address of the instruction whose
    /// operand bytes start at the program counter.
    pub fn get_operand_address(&self, mode: &AddressingMode) -> (target: u16)
        requires
            self@.wf(),
            *mode != AddressingMode::NoneAddressing,
        ensures
            target == self@.operand_address(*mode),
    {
        self.get_absolute_address(mode, self.program_counter)
    }

    fn set_status(&mut self, flag: u8, statement: bool)
        requires
            old(self)@.wf(),
        ensures
            final(self)@ == old(self)@.set_status(flag, statement),
            final(self)@.wf(),
    {
        self.status.set(flag, statement);
    }

    fn update_zero_and_negative_flags(&mut self, result: u8)
        requires
            old(self)@.wf(),
        ensures
            final(self)@ == old(self)@.update_zero_and_negative_flags(result),
            final(self)@.wf(),
    {
        self.set_status(ZERO, result == 0);
        self.set_status(NEGATIVE, result >> 7 == 1);
    }

    fn set_register_a(&mut self, value: u8)
        requires
            old(self)@.wf(),
        ensures
            final(self)@ == old(self)@.set_register_a(value),
            final(self)@.wf(),
    {
        self.register_a = value;
        self.update_zero_and_negative_flags(self.register_a);
    }

    fn set_register_x(&mut self, value: u8)
        requires
            old(self)@.wf(),
        ensures
            final(self)@ == old(self)@.set_register_x(value),
            final(self)@.wf(),
    {
        self.register_x = value;
        self.update_zero_and_negative_flags(self.register_x);
    }

    fn set_register_y(&mut self, value: u8)
        requires
            old(self)@.wf(),
        ensures
            final(self)@ == old(self)@.set_register_y(value),
            final(self)@.wf(),
    {
        self.register_y = value;
        self.update_zero_and_negative_flags(self.register_y);
    }

    fn stack_pop(&mut self) -> (value: u8)
        requires
            old(self)@.wf(),
        ensures
            final(self)@ == old(self)@.stack_drop(),
            value == old(self)@.stack_top(),
            final(self)@.wf(),
    {
        self.stack_pointer = self.stack_pointer.wrapping_add(1);
        self.mem_read(STACK + self.stack_pointer as u16)
    }

    fn stack_push(&mut self, value: u8)
        requires
            old(self)@.wf(),
        ensures
            final(self)@ == old(self)@.stack_push(value),
            final(self)@.wf(),
    {
        self.mem_write(STACK + self.stack_pointer as u16, value);
        self.stack_pointer = self.stack_pointer.wrapping_sub(1);
    }

    fn stack_pop_u16(&mut self) -> (value: u16)
        requires
            old(self)@.wf(),
        ensures
            final(self)@ == old(self)@.stack_drop_u16(),
            value == old(self)@.stack_top_u16(),
            final(self)@.wf(),
    {
        let low = self.stack_pop();
        let high = self.stack_pop();
        make_word(low, high)
    }

    fn stack_push_u16(&mut self, value: u16)
        requires
            old(self)@.wf(),
        ensures
            final(self)@ == old(self)@.stack_push_u16(value),
            final(self)@.wf(),
    {
        let high = high_byte(value);
        let low = low_byte(value);
        self.stack_push(high);
        self.stack_push(low);
    }

    fn add_to_register_a(&mut self, value: u8)
        requires
            old(self)@.wf(),
        ensures
            final(self)@ == old(self)@.add_to_register_a(value),
            final(self)@.wf(),
    {
        let carry_in: u16 = if self.status.contains(CARRY) {
            1
        } else {
            0
        };
        let sum: u16 = self.register_a as u16 + value as u16 + carry_in;
        let carry = sum > 0xFF;
        self.set_status(CARRY, carry);
        let result = low_byte(sum);
        self.set_status(OVERFLOW, (value ^ result) & (result ^ self.register_a) & 0x80 != 0);
        self.set_register_a(result);
    }

    fn adc(&mut self, mode: &AddressingMode)
        requires
            old(self)@.wf(),
            *mode != AddressingMode::NoneAddressing,
        ensures
            final(self)@ == old(self)@.adc(*mode),
            final(self)@.wf(),
    {
        let addr = self.get_operand_address(mode);
        let value = self.mem_read(addr);
        self.add_to_register_a(value);
    }

    fn sbc(&mut self, mode: &AddressingMode)
        requires
            old(self)@.wf(),
            *mode != AddressingMode::NoneAddressing,
        ensures
            final(self)@ == old(self)@.sbc(*mode),
            final(self)@.wf(),
    {
        let addr = self.get_operand_address(mode);
        let value = self.mem_read(addr);
        self.add_to_register_a(0u8.wrapping_sub(value).wrapping_sub(1));
    }

    fn and(&mut self, mode: &AddressingMode)
        requires
            old(self)@.wf(),
            *mode != AddressingMode::NoneAddressing,
        ensures
            final(self)@ == old(self)@.and(*mode),
            final(self)@.wf(),
    {
        let addr = self.get_operand_address(mode);
        let value = self.mem_read(addr);
        self.set_register_a(value & self.register_a);
    }

    fn asl(&mut self, mode: &AddressingMode) -> (data: u8)
        requires
            old(self)@.wf(),
            *mode != AddressingMode::NoneAddressing,
            AddressSpace::writable(old(self)@.operand_address(*mode)),
        ensures
            final(self)@ == old(self)@.asl(*mode),
            data == Machine::shifted_left(old(self)@.operand(*mode)),
            final(self)@.wf(),
    {
        let addr = self.get_operand_address(mode);
        let mut data = self.mem_read(addr);
        self.set_status(CARRY, data >> 7 == 1);
        data = data << 1;
        self.mem_write(addr, data);
        self.update_zero_and_negative_flags(data);
        data
    }

    fn asl_accumulator(&mut self)
        requires
            old(self)@.wf(),
        ensures
            final(self)@ == old(self)@.asl_accumulator(),
            final(self)@.wf(),
    {
        let mut data = self.register_a;
        self.set_status(CARRY, data >> 7 == 1);
        data = data << 1;
        self.set_register_a(data);
    }

    fn bit(&mut self, mode: &AddressingMode)
        requires
            old(self)@.wf(),
            *mode != AddressingMode::NoneAddressing,
        ensures
            final(self)@ == old(self)@.bit(*mode),
            final(self)@.wf(),
    {
        let addr = self.get_operand_address(mode);
        let value = self.mem_read(addr);
        let and = value & self.register_a;
        self.set_status(ZERO, and == 0);
        self.set_status(NEGATIVE, value & NEGATIVE > 0);
        self.set_status(OVERFLOW, value & OVERFLOW > 0);
    }

    fn branch(&mut self, condition: bool)
        requires
            old(self)@.wf(),
        ensures
            final(self)@ == old(self)@.branch(condition),
            final(self)@.wf(),
    {
        if condition {
            let jump = self.mem_read(self.program_counter);
            let displacement: u16 = if jump < 0x80 {
                jump as u16
            } else {
                jump as u16 + 0xFF00
            };
            let jump_addr = self.program_counter.wrapping_add(1).wrapping_add(displacement);
            self.program_counter = jump_addr;
        }
    }

    fn compare(&mut self, mode: &AddressingMode, compare_with: u8)
        requires
            old(self)@.wf(),
            *mode != AddressingMode::NoneAddressing,
        ensures
            final(self)@ == old(self)@.compare(*mode, compare_with),
            final(self)@.wf(),
    {
        let addr = self.get_operand_address(mode);
        let value = self.mem_read(addr);
        self.set_status(CARRY, value <= compare_with);
        self.update_zero_and_negative_flags(compare_with.wrapping_sub(value));
    }

    fn dec(&mut self, mode: &AddressingMode) -> (value: u8)
        requires
            old(self)@.wf(),
            *mode != AddressingMode::NoneAddressing,
            AddressSpace::writable(old(self)@.operand_address(*mode)),
        ensures
            final(self)@ == old(self)@.dec(*mode),
            value == old(self)@.operand(*mode).wrapping_sub(1),
            final(self)@.wf(),
    {
        let addr = self.get_operand_address(mode);
        let mut value = self.mem_read(addr);
        value = value.wrapping_sub(1);
        self.mem_write(addr, value);
        self.update_zero_and_negative_flags(value);
        value
    }

    fn dex(&mut self)
        requires
            old(self)@.wf(),
        ensures
            final(self)@ == old(self)@.dex(),
            final(self)@.wf(),
    {
        self.set_register_x(self.register_x.wrapping_sub(1));
    }

    fn dey(&mut self)
        requires
            old(self)@.wf(),
        ensures
            final(self)@ == old(self)@.dey(),
            final(self)@.wf(),
    {
        self.set_register_y(self.register_y.wrapping_sub(1));
    }

    fn eor(&mut self, mode: &AddressingMode)
        requires
            old(self)@.wf(),
            *mode != AddressingMode::NoneAddressing,
        ensures
            final(self)@ == old(self)@.eor(*mode),
            final(self)@.wf(),
    {
        let addr = self.get_operand_address(mode);
        let value = self.mem_read(addr);
        self.set_register_a(value ^ self.register_a);
    }

    fn inc(&mut self, mode: &AddressingMode) -> (value: u8)
        requires
            old(self)@.wf(),
            *mode != AddressingMode::NoneAddressing,
            AddressSpace::writable(old(self)@.operand_address(*mode)),
        ensures
            final(self)@ == old(self)@.inc(*mode),
            value == old(self)@.operand(*mode).wrapping_add(1),
            final(self)@.wf(),
    {
        let addr = self.get_operand_address(mode);
        let mut value = self.mem_read(addr);
        value = value.wrapping_add(1);
        self.mem_write(addr, value);
        self.update_zero_and_negative_flags(value);
        value
    }

    fn inx(&mut self)
        requires
            old(self)@.wf(),
        ensures
            final(self)@ == old(self)@.inx(),
            final(self)@.wf(),
    {
        self.set_register_x(self.register_x.wrapping_add(1));
    }

    fn iny(&mut self)
        requires
            old(self)@.wf(),
        ensures
            final(self)@ == old(self)@.iny(),
            final(self)@.wf(),
    {
        self.set_register_y(self.register_y.wrapping_add(1));
    }

    fn jmp_absolute(&mut self)
        requires
            old(self)@.wf(),
        ensures
            final(self)@ == old(self)@.jmp_absolute(),
            final(self)@.wf(),
    {
        let addr = self.mem_read_u16(self.program_counter);
        self.program_counter = addr;
    }

    /// The target of an indirect jump through the pointer at `addr`, with the
    /// page-boundary behaviour of the processor: where the pointer's low byte
    /// is the last of a page, its high byte is fetched from the start of that
    /// same page.
    pub fn indirect_target(&self, addr: u16) -> (target: u16)
        requires
            self@.wf(),
        ensures
            target == self@.indirect_target(addr),
    {
        if addr & 0x00FF == 0x00FF {
            let low = self.mem_read(addr);
            let high = self.mem_read(addr & 0xFF00);
            make_word(low, high)
        } else {
            self.mem_read_u16(addr)
        }
    }

    fn jmp_indirect(&mut self)
        requires
            old(self)@.wf(),
        ensures
            final(self)@ == old(self)@.jmp_indirect(),
            final(self)@.wf(),
    {
        let addr = self.mem_read_u16(self.program_counter);
        let indirect_ref = self.indirect_target(addr);
        self.program_counter = indirect_ref;
    }

    fn jsr(&mut self)
        requires
            old(self)@.wf(),
        ensures
            final(self)@ == old(self)@.jsr(),
            final(self)@.wf(),
    {
        self.stack_push_u16(self.program_counter.wrapping_add(1));
        let target_addr = self.mem_read_u16(self.program_counter);
        self.program_counter = target_addr;
    }

    fn lda(&mut self, mode: &AddressingMode)
        requires
            old(self)@.wf(),
            *mode != AddressingMode::NoneAddressing,
        ensures
            final(self)@ == old(self)@.lda(*mode),
            final(self)@.wf(),
    {
        let addr = self.get_operand_address(mode);
        let value = self.mem_read(addr);
        self.set_register_a(value);
    }

    fn ldx(&mut self, mode: &AddressingMode)
        requires
            old(self)@.wf(),
            *mode != AddressingMode::NoneAddressing,
        ensures
            final(self)@ == old(self)@.ldx(*mode),
            final(self)@.wf(),
    {
        let addr = self.get_operand_address(mode);
        let value = self.mem_read(addr);
        self.set_register_x(value);
    }

    fn ldy(&mut self, mode: &AddressingMode)
        requires
            old(self)@.wf(),
            *mode != AddressingMode::NoneAddressing,
        ensures
            final(self)@ == old(self)@.ldy(*mode),
            final(self)@.wf(),
    {
        let addr = self.get_operand_address(mode);
        let value = self.mem_read(addr);
        self.set_register_y(value);
    }

    fn lsr(&mut self, mode: &AddressingMode) -> (data: u8)
        requires
            old(self)@.wf(),
            *mode != AddressingMode::NoneAddressing,
            AddressSpace::writable(old(self)@.operand_address(*mode)),
        ensures
            final(self)@ == old(self)@.lsr(*mode),
            data == Machine::shifted_right(old(self)@.operand(*mode)),
            final(self)@.wf(),
    {
        let addr = self.get_operand_address(mode);
        let mut data = self.mem_read(addr);
        self.set_status(CARRY, data & 1 == 1);
        data = data >> 1;
        self.mem_write(addr, data);
        self.update_zero_and_negative_flags(data);
        data
    }

    fn lsr_accumulator(&mut self)
        requires
            old(self)@.wf(),
        ensures
            final(self)@ == old(self)@.lsr_accumulator(),
            final(self)@.wf(),
    {
        let mut data = self.register_a;
        self.set_status(CARRY, data & 1 == 1);
        data = data >> 1;
        self.set_register_a(data);
    }

    fn pha(&mut self)
        requires
            old(self)@.wf(),
        ensures
            final(self)@ == old(self)@.pha(),
            final(self)@.wf(),
    {
        self.stack_push(self.register_a);
    }

    fn pla(&mut self)
        requires
            old(self)@.wf(),
        ensures
            final(self)@ == old(self)@.pla(),
            final(self)@.wf(),
    {
        let value = self.stack_pop();
        self.set_register_a(value);
    }

    fn php(&mut self)
        requires
            old(self)@.wf(),
        ensures
            final(self)@ == old(self)@.php(),
            final(self)@.wf(),
    {
        let mut flags = self.status;
        flags.insert(BREAK);
        flags.insert(BREAK_2);
        self.stack_push(flags.bits());
    }

    fn plp(&mut self)
        requires
            old(self)@.wf(),
        ensures
            final(self)@ == old(self)@.plp(),
            final(self)@.wf(),
    {
        self.status = CpuFlags::from_bits_truncate(self.stack_pop());
        self.status.remove(BREAK);
        self.status.insert(BREAK_2);
    }

    fn tax(&mut self)
        requires
            old(self)@.wf(),
        ensures
            final(self)@ == old(self)@.tax(),
            final(self)@.wf(),
    {
        self.set_register_x(self.register_a);
    }

    fn tay(&mut self)
        requires
            old(self)@.wf(),
        ensures
            final(self)@ == old(self)@.tay(),
            final(self)@.wf(),
    {
        self.set_register_y(self.register_a);
    }

    fn txs(&mut self)
        requires
            old(self)@.wf(),
        ensures
            final(self)@ == old(self)@.txs(),
            final(self)@.wf(),
    {
        self.stack_pointer = self.register_x;
    }

    fn tsx(&mut self)
        requires
            old(self)@.wf(),
        ensures
            final(self)@ == old(self)@.tsx(),
            final(self)@.wf(),
    {
        self.set_register_x(self.stack_pointer);
    }

    fn txa(&mut self)
        requires
            old(self)@.wf(),
        ensures
            final(self)@ == old(self)@.txa(),
            final(self)@.wf(),
    {
        self.set_register_a(self.register_x);
    }

    fn tya(&mut self)
        requires
            old(self)@.wf(),
        ensures
            final(self)@ == old(self)@.tya(),
            final(self)@.wf(),
    {
        self.set_register_a(self.register_y);
    }

    fn ora(&mut self, mode: &AddressingMode)
        requires
            old(self)@.wf(),
            *mode != AddressingMode::NoneAddressing,
        ensures
            final(self)@ == old(self)@.ora(*mode),
            final(self)@.wf(),
    {
        let addr = self.get_operand_address(mode);
        let value = self.mem_read(addr);
        self.set_register_a(value | self.register_a);
    }

    fn rts(&mut self)
        requires
            old(self)@.wf(),
        ensures
            final(self)@ == old(self)@.rts(),
            final(self)@.wf(),
    {
        self.program_counter = self.stack_pop_u16().wrapping_add(1);
    }

    fn rti(&mut self)
        requires
            old(self)@.wf(),
        ensures
            final(self)@ == old(self)@.rti(),
            final(self)@.wf(),
    {
        self.status = CpuFlags::from_bits_truncate(self.stack_pop());
        self.status.remove(BREAK);
        self.status.insert(BREAK_2);
        self.program_counter = self.stack_pop_u16();
    }

    fn rol(&mut self, mode: &AddressingMode) -> (value: u8)
        requires
            old(self)@.wf(),
            *mode != AddressingMode::NoneAddressing,
            AddressSpace::writable(old(self)@.operand_address(*mode)),
        ensures
            final(self)@ == old(self)@.rol(*mode),
            value == Machine::rotated_left(
                old(self)@.operand(*mode),
                flag_set(old(self)@.p, CARRY),
            ),
            final(self)@.wf(),
    {
        let addr = self.get_operand_address(mode);
        let mut value = self.mem_read(addr);
        let old_carry = self.status.contains(CARRY);
        self.set_status(CARRY, value >> 7 == 1);
        value = value << 1;
        if old_carry {
            value = value | 1;
        }
        self.mem_write(addr, value);
        self.update_zero_and_negative_flags(value);
        value
    }

    fn rol_accumulator(&mut self)
        requires
            old(self)@.wf(),
        ensures
            final(self)@ == old(self)@.rol_accumulator(),
            final(self)@.wf(),
    {
        let mut value = self.register_a;
        let old_carry = self.status.contains(CARRY);
        self.set_status(CARRY, value >> 7 == 1);
        value = value << 1;
        if old_carry {
            value = value | 1;
        }
        self.set_register_a(value);
    }

    fn ror(&mut self, mode: &AddressingMode) -> (value: u8)
        requires
            old(self)@.wf(),
            *mode != AddressingMode::NoneAddressing,
            AddressSpace::writable(old(self)@.operand_address(*mode)),
        ensures
            final(self)@ == old(self)@.ror(*mode),
            value == Machine::rotated_right(
                old(self)@.operand(*mode),
                flag_set(old(self)@.p, CARRY),
            ),
            final(self)@.wf(),
    {
        let addr = self.get_operand_address(mode);
        let mut value = self.mem_read(addr);
        let old_carry = self.status.contains(CARRY);
        self.set_status(CARRY, value & 1 == 1);
        value = value >> 1;
        if old_carry {
            value = value | NEGATIVE;
        }
        self.mem_write(addr, value);
        self.update_zero_and_negative_flags(value);
        value
    }

    fn ror_accumulator(&mut self)
        requires
            old(self)@.wf(),
        ensures
            final(self)@ == old(self)@.ror_accumulator(),
            final(self)@.wf(),
    {
        let mut value = self.register_a;
        let old_carry = self.status.contains(CARRY);
        self.set_status(CARRY, value & 1 == 1);
        value = value >> 1;
        if old_carry {
            value = value | NEGATIVE;
        }
        self.set_register_a(value);
    }

    fn sta(&mut self, mode: &AddressingMode)
        requires
            old(self)@.wf(),
            *mode != AddressingMode::NoneAddressing,
            AddressSpace::writable(old(self)@.operand_address(*mode)),
        ensures
            final(self)@ == old(self)@.sta(*mode),
            final(self)@.wf(),
    {
        let addr = self.get_operand_address(mode);
        self.mem_write(addr, self.register_a);
    }

    fn stx(&mut self, mode: &AddressingMode)
        requires
            old(self)@.wf(),
            *mode != AddressingMode::NoneAddressing,
            AddressSpace::writable(old(self)@.operand_address(*mode)),
        ensures
            final(self)@ == old(self)@.stx(*mode),
            final(self)@.wf(),
    {
        let addr = self.get_operand_address(mode);
        self.mem_write(addr, self.register_x);
    }

    fn sty(&mut self, mode: &AddressingMode)
        requires
            old(self)@.wf(),
            *mode != AddressingMode::NoneAddressing,
            AddressSpace::writable(old(self)@.operand_address(*mode)),
        ensures
            final(self)@ == old(self)@.sty(*mode),
            final(self)@.wf(),
    {
        let addr = self.get_operand_address(mode);
        self.mem_write(addr, self.register_y);
    }

    /// Arithmetic, logic, bit test and compare.
    fn execute_alu(&mut self, op: &OpCode)
        requires
            old(self)@.wf(),
            op.resolvable(),
            op.mnemonic.family() is Alu,
            !old(self)@.write_fault(*op),
        ensures
            final(self)@ == old(self)@.execute(*op),
            final(self)@.wf(),
    {
        match op.mnemonic {
            Mnemonic::Adc => self.adc(&op.mode),
            Mnemonic::Sbc => self.sbc(&op.mode),
            Mnemonic::And => self.and(&op.mode),
            Mnemonic::Eor => self.eor(&op.mode),
            Mnemonic::Ora => self.ora(&op.mode),
            Mnemonic::Bit => self.bit(&op.mode),
            Mnemonic::Cmp => self.compare(&op.mode, self.register_a),
            Mnemonic::Cpx => self.compare(&op.mode, self.register_x),
            Mnemonic::Cpy => self.compare(&op.mode, self.register_y),
            _ => {},
        }
    }

    /// Shifts and rotates: on the accumulator where the entry has no addressing
    /// mode, on memory otherwise.
    fn execute_shift(&mut self, op: &OpCode)
        requires
            old(self)@.wf(),
            op.resolvable(),
            op.mnemonic.family() is Shift,
            !old(self)@.write_fault(*op),
        ensures
            final(self)@ == old(self)@.execute(*op),
            final(self)@.wf(),
    {
        match op.mnemonic {
            Mnemonic::Asl => match op.mode {
                AddressingMode::NoneAddressing => self.asl_accumulator(),
                _ => {
                    self.asl(&op.mode);
                },
            },
            Mnemonic::Lsr => match op.mode {
                AddressingMode::NoneAddressing => self.lsr_accumulator(),
                _ => {
                    self.lsr(&op.mode);
                },
            },
            Mnemonic::Rol => match op.mode {
                AddressingMode::NoneAddressing => self.rol_accumulator(),
                _ => {
                    self.rol(&op.mode);
                },
            },
            Mnemonic::Ror => match op.mode {
                AddressingMode::NoneAddressing => self.ror_accumulator(),
                _ => {
                    self.ror(&op.mode);
                },
            },
            _ => {},
        }
    }

    /// Increments and decrements.
    fn execute_step(&mut self, op: &OpCode)
        requires
            old(self)@.wf(),
            op.resolvable(),
            op.mnemonic.family() is Step,
            !old(self)@.write_fault(*op),
        ensures
            final(self)@ == old(self)@.execute(*op),
            final(self)@.wf(),
    {
        match op.mnemonic {
            Mnemonic::Inc => {
                self.inc(&op.mode);
            },
            Mnemonic::Dec => {
                self.dec(&op.mode);
            },
            Mnemonic::Inx => self.inx(),
            Mnemonic::Iny => self.iny(),
            Mnemonic::Dex => self.dex(),
            Mnemonic::Dey => self.dey(),
            _ => {},
        }
    }

    /// Loads, stores and register transfers.
    fn execute_move(&mut self, op: &OpCode)
        requires
            old(self)@.wf(),
            op.resolvable(),
            op.mnemonic.family() is Move,
            !old(self)@.write_fault(*op),
        ensures
            final(self)@ == old(self)@.execute(*op),
            final(self)@.wf(),
    {
        match op.mnemonic {
            Mnemonic::Lda => self.lda(&op.mode),
            Mnemonic::Ldx => self.ldx(&op.mode),
            Mnemonic::Ldy => self.ldy(&op.mode),
            Mnemonic::Sta => self.sta(&op.mode),
            Mnemonic::Stx => self.stx(&op.mode),
            Mnemonic::Sty => self.sty(&op.mode),
            Mnemonic::Tax => self.tax(),
            Mnemonic::Tay => self.tay(),
            Mnemonic::Tsx => self.tsx(),
            Mnemonic::Txa => self.txa(),
            Mnemonic::Txs => self.txs(),
            Mnemonic::Tya => self.tya(),
            _ => {},
        }
    }

    /// Conditional branches.
    fn execute_branch(&mut self, op: &OpCode)
        requires
            old(self)@.wf(),
            op.resolvable(),
            op.mnemonic.family() is Branch,
            !old(self)@.write_fault(*op),
        ensures
            final(self)@ == old(self)@.execute(*op),
            final(self)@.wf(),
    {
        match op.mnemonic {
            Mnemonic::Bcc
            | Mnemonic::Bcs
            | Mnemonic::Beq
            | Mnemonic::Bmi
            | Mnemonic::Bne
            | Mnemonic::Bpl
            | Mnemonic::Bvc
            | Mnemonic::Bvs => {
                let taken = self.branch_taken(op.mnemonic);
                self.branch(taken)
            },
            _ => {},
        }
    }

    /// Jumps, call and returns; the no-operation does nothing.
    fn execute_flow(&mut self, op: &OpCode)
        requires
            old(self)@.wf(),
            op.resolvable(),
            op.mnemonic.family() is Flow,
            !old(self)@.write_fault(*op),
        ensures
            final(self)@ == old(self)@.execute(*op),
            final(self)@.wf(),
    {
        match op.mnemonic {
            Mnemonic::Brk | Mnemonic::Nop => {},
            Mnemonic::Jmp => if op.code == 0x6C {
                self.jmp_indirect()
            } else {
                self.jmp_absolute()
            },
            Mnemonic::Jsr => self.jsr(),
            Mnemonic::Rts => self.rts(),
            Mnemonic::Rti => self.rti(),
            _ => {},
        }
    }

    /// Pushes and pops.
    fn execute_stack(&mut self, op: &OpCode)
        requires
            old(self)@.wf(),
            op.resolvable(),
            op.mnemonic.family() is Stack,
            !old(self)@.write_fault(*op),
        ensures
            final(self)@ == old(self)@.execute(*op),
            final(self)@.wf(),
    {
        match op.mnemonic {
            Mnemonic::Pha => self.pha(),
            Mnemonic::Php => self.php(),
            Mnemonic::Pla => self.pla(),
            Mnemonic::Plp => self.plp(),
            _ => {},
        }
    }

    /// Instructions that set or clear one flag.
    fn execute_flag(&mut self, op: &OpCode)
        requires
            old(self)@.wf(),
            op.resolvable(),
            op.mnemonic.family() is Flag,
            !old(self)@.write_fault(*op),
        ensures
            final(self)@ == old(self)@.execute(*op),
            final(self)@.wf(),
    {
        match op.mnemonic {
            Mnemonic::Clc => self.set_status(CARRY, false),
            Mnemonic::Cld => self.set_status(DECIMAL_MODE, false),
            Mnemonic::Cli => self.set_status(INTERRUPT_DISABLE, false),
            Mnemonic::Clv => self.set_status(OVERFLOW, false),
            Mnemonic::Sec => self.set_status(CARRY, true),
            Mnemonic::Sed => self.set_status(DECIMAL_MODE, true),
            Mnemonic::Sei => self.set_status(INTERRUPT_DISABLE, true),
            _ => {},
        }
    }

    /// Whether a branch is taken on the flags as they stand.
    fn branch_taken(&self, mnemonic: Mnemonic) -> (taken: bool)
        ensures
            taken == self@.branch_taken(mnemonic),
    {
        match mnemonic {
            Mnemonic::Bcc => !self.status.contains(CARRY),
            Mnemonic::Bcs => self.status.contains(CARRY),
            Mnemonic::Beq => self.status.contains(ZERO),
            Mnemonic::Bmi => self.status.contains(NEGATIVE),
            Mnemonic::Bne => !self.status.contains(ZERO),
            Mnemonic::Bpl => !self.status.contains(NEGATIVE),
            Mnemonic::Bvc => !self.status.contains(OVERFLOW),
            Mnemonic::Bvs => self.status.contains(OVERFLOW),
            _ => false,
        }
    }

    /// Whether the handler of the instruction sets the program counter
    /// itself, so that it is not moved past the operand bytes afterwards.
    fn sets_program_counter(&self, op: &OpCode) -> (sets: bool)
        ensures
            sets == self@.sets_pc(*op),
    {
        match op.mnemonic {
            Mnemonic::Jmp | Mnemonic::Jsr | Mnemonic::Rts | Mnemonic::Rti => true,
            _ => self.branch_taken(op.mnemonic),
        }
    }

    /// Runs the handler of the instruction, with the program counter on the
    /// first operand byte.
    fn execute(&mut self, op: &OpCode)
        requires
            old(self)@.wf(),
            op.resolvable(),
            !old(self)@.write_fault(*op),
        ensures
            final(self)@ == old(self)@.execute(*op),
            final(self)@.wf(),
    {
        match op.mnemonic {
            Mnemonic::Adc
            | Mnemonic::Sbc
            | Mnemonic::And
            | Mnemonic::Eor
            | Mnemonic::Ora
            | Mnemonic::Bit
            | Mnemonic::Cmp
            | Mnemonic::Cpx
            | Mnemonic::Cpy => self.execute_alu(op),
            Mnemonic::Asl
            | Mnemonic::Lsr
            | Mnemonic::Rol
            | Mnemonic::Ror => self.execute_shift(op),
            Mnemonic::Inc
            | Mnemonic::Dec
            | Mnemonic::Inx
            | Mnemonic::Iny
            | Mnemonic::Dex
            | Mnemonic::Dey => self.execute_step(op),
            Mnemonic::Lda
            | Mnemonic::Ldx
            | Mnemonic::Ldy
            | Mnemonic::Sta
            | Mnemonic::Stx
            | Mnemonic::Sty
            | Mnemonic::Tax
            | Mnemonic::Tay
            | Mnemonic::Tsx
            | Mnemonic::Txa
            | Mnemonic::Txs
            | Mnemonic::Tya => self.execute_move(op),
            Mnemonic::Bcc
            | Mnemonic::Bcs
            | Mnemonic::Beq
            | Mnemonic::Bmi
            | Mnemonic::Bne
            | Mnemonic::Bpl
            | Mnemonic::Bvc
            | Mnemonic::Bvs => self.execute_branch(op),
            Mnemonic::Brk
            | Mnemonic::Nop
            | Mnemonic::Jmp
            | Mnemonic::Jsr
            | Mnemonic::Rts
            | Mnemonic::Rti => self.execute_flow(op),
            Mnemonic::Pha
            | Mnemonic::Php
            | Mnemonic::Pla
            | Mnemonic::Plp => self.execute_stack(op),
            Mnemonic::Clc
            | Mnemonic::Cld
            | Mnemonic::Cli
            | Mnemonic::Clv
            | Mnemonic::Sec
            | Mnemonic::Sed
            | Mnemonic::Sei => self.execute_flag(op),
        }
    }

    /// Re-initialises the registers and loads the program counter from the
    /// reset vector. Memory is left as it is.
    pub fn reset(&mut self)
        requires
            old(self)@.wf(),
        ensures
            final(self)@ == old(self)@.reset(),
    {
        self.register_a = 0;
        self.register_x = 0;
        self.register_y = 0;
        self.stack_pointer = STACK_RESET;
        self.status = CpuFlags::from_bits_truncate(0b100100);
        self.program_counter = self.mem_read_u16(RESET_VECTOR);
    }

    /// Stages a program: writes its bytes into work memory from the load
    /// address upwards and points the reset vector at the load address. The
    /// program must fit between the load address and the end of the
    /// work-memory window.
    pub fn load(&mut self, program: Vec<u8>)
        requires
            old(self)@.wf(),
            program@.len() <= 0x1A00,
        ensures
            final(self)@ == old(self)@.load(program@),
            final(self)@.wf(),
    {
        let mut i: usize = 0;
        while i < program.len()
            invariant
                i <= program@.len() <= 0x1A00,
                self@.wf(),
                self@ == (Machine {
                    space: old(self)@.space.stage(LOAD_ADDRESS, program@.take(i as int)),
                    ..old(self)@
                }),
            decreases program@.len() - i,
        {
            assert(program@.take(i + 1).drop_last() =~= program@.take(i as int));
            self.mem_write(LOAD_ADDRESS + i as u16, program[i]);
            i = i + 1;
        }
        assert(program@.take(i as int) =~= program@);
        self.bus.set_reset_vector(LOAD_ADDRESS);
    }

    /// One fetch, decode and execute. On a fatal condition the processor and
    /// its memory are left exactly as they were.
    pub fn step(&mut self) -> (result: Result<RunState, CpuError>)
        requires
            old(self)@.wf(),
        ensures
            final(self)@.wf(),
            match old(self)@.step() {
                Transition::Next(next) => result == Ok::<RunState, CpuError>(RunState::Running)
                    && final(self)@ == next,
                Transition::Halt(rest) => result == Ok::<RunState, CpuError>(RunState::Halted)
                    && final(self)@ == rest,
                Transition::Fault(error) => result == Err::<RunState, CpuError>(error)
                    && final(self)@ == old(self)@,
            },
    {
        let start = self.program_counter;
        let code = self.mem_read(start);
        match lookup(code) {
            None => Err(CpuError::UnknownOpcode { code }),
            Some(op) => {
                proof {
                    lemma_descriptor_shape(code);
                }
                self.program_counter = start.wrapping_add(1);
                if is_halt(&op) {
                    return Ok(RunState::Halted);
                }
                if writes_memory(&op) {
                    let addr = self.get_operand_address(&op.mode);
                    if addr >= 0x8000 {
                        self.program_counter = start;
                        return Err(CpuError::ProtectionFault { addr });
                    }
                }
                let sets_program_counter = self.sets_program_counter(&op);
                self.execute(&op);
                if !sets_program_counter {
                    self.program_counter = self.program_counter.wrapping_add((op.len - 1) as u16);
                }
                Ok(RunState::Running)
            },
        }
    }

    /// Executes instructions until the halt instruction is decoded, a fatal
    /// condition arises, or `max_instructions` have been executed.
    pub fn run(&mut self, max_instructions: u64) -> (result: Result<RunState, CpuError>)
        requires
            old(self)@.wf(),
        ensures
            final(self)@.wf(),
            match old(self)@.run(max_instructions as nat) {
                RunEnd::Halted(rest) => result == Ok::<RunState, CpuError>(RunState::Halted)
                    && final(self)@ == rest,
                RunEnd::Running(state) => result == Ok::<RunState, CpuError>(RunState::Running)
                    && final(self)@ == state,
                RunEnd::Faulted(state, error) => result == Err::<RunState, CpuError>(error)
                    && final(self)@ == state,
            },
    {
        self.run_with_callback(max_instructions, |_cpu: &CPU| {})
    }

    /// Runs as `run` does, and hands the processor to `callback` after every
    /// executed instruction. The observer only reads: what the run computes
    /// does not depend on it. It is not called for the halt instruction.
    pub fn run_with_callback<F: Fn(&CPU)>(&mut self, max_instructions: u64, callback: F) -> (result:
        Result<RunState, CpuError>)
        requires
            old(self)@.wf(),
            forall|cpu: &CPU| cpu@.wf() ==> call_requires(callback, (cpu,)),
        ensures
            final(self)@.wf(),
            match old(self)@.run(max_instructions as nat) {
                RunEnd::Halted(rest) => result == Ok::<RunState, CpuError>(RunState::Halted)
                    && final(self)@ == rest,
                RunEnd::Running(state) => result == Ok::<RunState, CpuError>(RunState::Running)
                    && final(self)@ == state,
                RunEnd::Faulted(state, error) => result == Err::<RunState, CpuError>(error)
                    && final(self)@ == state,
            },
    {
        let mut remaining: u64 = max_instructions;
        while remaining > 0
            invariant
                self@.wf(),
                old(self)@.run(max_instructions as nat) == self@.run(remaining as nat),
                forall|cpu: &CPU| cpu@.wf() ==> call_requires(callback, (cpu,)),
            decreases remaining,
        {
            match self.step() {
                Ok(RunState::Running) => {
                    remaining = remaining - 1;
                    callback(&*self);
                },
                Ok(RunState::Halted) => {
                    return Ok(RunState::Halted);
                },
                Err(error) => {
                    return Err(error);
                },
            }
        }
        Ok(RunState::Running)
    }

    /// Stages a program, resets the processor and runs it.
    pub fn load_and_run(&mut self, program: Vec<u8>, max_instructions: u64) -> (result: Result<
        RunState,
        CpuError,
    >)
        requires
            old(self)@.wf(),
            program@.len() <= 0x1A00,
        ensures
            final(self)@.wf(),
            match old(self)@.load(program@).reset().run(max_instructions as nat) {
                RunEnd::Halted(rest) => result == Ok::<RunState, CpuError>(RunState::Halted)
                    && final(self)@ == rest,
                RunEnd::Running(state) => result == Ok::<RunState, CpuError>(RunState::Running)
                    && final(self)@ == state,
                RunEnd::Faulted(state, error) => result == Err::<RunState, CpuError>(error)
                    && final(self)@ == state,
            },
    {
        self.load(program);
        self.reset();
        self.run(max_instructions)
    }
}

/// Whether the entry is the halt instruction.
fn is_halt(op: &OpCode) -> (halt: bool)
    ensures
        halt == (op.mnemonic == Mnemonic::Brk),
{
    match op.mnemonic {
        Mnemonic::Brk => true,
        _ => false,
    }
}

/// Whether the instruction writes to the memory cell that its addressing mode
/// resolves.
fn writes_memory(op: &OpCode) -> (stores: bool)
    ensures
        stores == op.stores(),
{
    match op.mnemonic {
        Mnemonic::Sta | Mnemonic::Stx | Mnemonic::Sty | Mnemonic::Inc | Mnemonic::Dec => true,
        Mnemonic::Asl | Mnemonic::Lsr | Mnemonic::Rol | Mnemonic::Ror => match op.mode {
            AddressingMode::NoneAddressing => false,
            _ => true,
        },
        _ => false,
    }
}

} // verus!
