use famemu::bus::Bus;
use famemu::cpu::cpu::{AddressingMode, RunState, CPU};
use famemu::cpu::flags::{CpuFlags, CARRY, NEGATIVE, OVERFLOW, ZERO};
use famemu::cpu::mem::Mem;
use famemu::cpu::model::CpuError;
use std::cell::Cell;

fn fresh() -> CPU {
    CPU::new(Bus::new(vec![0; 0x4000]))
}

fn run_program(program: &[u8]) -> CPU {
    let mut cpu = fresh();
    let end = cpu.load_and_run(program.to_vec(), 10_000);
    assert_eq!(end, Ok(RunState::Halted));
    cpu
}

#[test]
fn power_on_state() {
    let cpu = fresh();
    assert_eq!(cpu.register_a, 0);
    assert_eq!(cpu.register_x, 0);
    assert_eq!(cpu.register_y, 0);
    assert_eq!(cpu.status.bits(), 0b0010_0100);
    assert_eq!(cpu.program_counter, 0);
    assert_eq!(cpu.stack_pointer, 0xFD);
}

#[test]
fn test_0xa9_lda_immediate_load_data() {
    let mut cpu = fresh();
    let end = cpu.load_and_run(vec![0xa9, 0x05, 0x00], 100);
    assert_eq!(end, Ok(RunState::Halted));
    assert_eq!(cpu.register_a, 5);
    assert!(cpu.status.bits() & 0b0000_0010 == 0);
    assert!(cpu.status.bits() & 0b1000_0000 == 0);
    assert_eq!(cpu.program_counter, 0x0603);
}

#[test]
fn test_0xa9_lda_zero_flag() {
    let mut cpu = fresh();
    let end = cpu.load_and_run(vec![0xa9, 0x00, 0x00], 100);
    assert_eq!(end, Ok(RunState::Halted));
    assert!(cpu.status.bits() & 0b0000_0010 == 0b10);
}

#[test]
fn test_0xaa_tax_move_a_to_x() {
    let cpu = run_program(&[0xa9, 0x0a, 0xaa, 0x00]);
    assert_eq!(cpu.register_x, 10);
}

#[test]
fn load_transfer_increment() {
    let cpu = run_program(&[0xa9, 0x0a, 0xaa, 0xe8, 0x00]);
    assert_eq!(cpu.register_x, 0x0b);
}

#[test]
fn test_5_ops_working_together() {
    let cpu = run_program(&[0xa9, 0xc0, 0xaa, 0xe8, 0x00]);
    assert_eq!(cpu.register_x, 0xc1);
}

#[test]
fn test_inx_overflow() {
    let cpu = run_program(&[0xa9, 0xff, 0xaa, 0xe8, 0xe8, 0x00]);
    assert_eq!(cpu.register_x, 1);
}

#[test]
fn test_lda_from_memory() {
    let mut cpu = fresh();
    cpu.mem_write(0x10, 0x55);
    let end = cpu.load_and_run(vec![0xa5, 0x10, 0x00], 100);
    assert_eq!(end, Ok(RunState::Halted));
    assert_eq!(cpu.register_a, 0x55);
}

#[test]
fn immediate_load_touches_only_zero_and_negative() {
    let cpu = run_program(&[0xa9, 0x80, 0x00]);
    assert_eq!(cpu.register_a, 0x80);
    assert_eq!(cpu.status.bits(), 0x24 | NEGATIVE);

    // SEC, SED, then LDA #0: Carry and Decimal stay, Zero comes.
    let cpu = run_program(&[0x38, 0xf8, 0xa9, 0x00, 0x00]);
    assert_eq!(cpu.status.bits(), 0x24 | 0x01 | 0x08 | ZERO);

    // A negative load after a zero load clears Zero again.
    let cpu = run_program(&[0xa9, 0x00, 0xa9, 0xff, 0x00]);
    assert_eq!(cpu.status.bits(), 0x24 | NEGATIVE);
}

#[test]
fn load_writes_the_program_and_the_reset_vector() {
    let mut cpu = fresh();
    cpu.register_a = 9;
    cpu.load(vec![0xa9, 0x05, 0x00]);
    assert_eq!(cpu.mem_read(0x0600), 0xa9);
    assert_eq!(cpu.mem_read(0x0601), 0x05);
    assert_eq!(cpu.mem_read(0x0602), 0x00);
    assert_eq!(cpu.mem_read_u16(0xFFFC), 0x0600);
    assert_eq!(cpu.register_a, 9);
    assert_eq!(cpu.program_counter, 0);
}

#[test]
fn load_of_an_empty_program_only_sets_the_vector() {
    let mut cpu = fresh();
    cpu.load(vec![]);
    assert_eq!(cpu.mem_read(0x0600), 0);
    assert_eq!(cpu.mem_read_u16(0xFFFC), 0x0600);
}

#[test]
fn load_up_to_the_end_of_the_window() {
    let mut cpu = fresh();
    let mut program = vec![0xeau8; 0x1A00];
    program[0x01FF] = 0x11;
    program[0x1200] = 0x22;
    program[0x19FF] = 0x33;
    cpu.load(program);
    // the window echoes 2K of memory: the last write to a cell stays
    assert_eq!(cpu.mem_read(0x07FF), 0x33);
    assert_eq!(cpu.mem_read(0x1FFF), 0x33);
    assert_eq!(cpu.mem_read(0x0000), 0x22);
    assert_eq!(cpu.mem_read(0x05FF), 0xea);
    assert_eq!(cpu.mem_read(0x0600), 0xea);
}

#[test]
fn reset_clears_registers_and_loads_the_vector() {
    let mut cpu = fresh();
    cpu.bus.set_reset_vector(0x1234);
    cpu.mem_write(0x0040, 0x99);
    cpu.register_a = 1;
    cpu.register_x = 2;
    cpu.register_y = 3;
    cpu.stack_pointer = 0x10;
    cpu.status = CpuFlags::from_bits_truncate(0xff);
    cpu.reset();
    assert_eq!(cpu.register_a, 0);
    assert_eq!(cpu.register_x, 0);
    assert_eq!(cpu.register_y, 0);
    assert_eq!(cpu.stack_pointer, 0xFD);
    assert_eq!(cpu.status.bits(), 0x24);
    assert_eq!(cpu.program_counter, 0x1234);
    assert_eq!(cpu.mem_read(0x0040), 0x99);
}

#[test]
fn adc_sets_carry_from_bit_eight() {
    // LDA #$FF, ADC #$01
    let cpu = run_program(&[0xa9, 0xff, 0x69, 0x01, 0x00]);
    assert_eq!(cpu.register_a, 0x00);
    assert_eq!(cpu.status.bits(), 0x24 | CARRY | ZERO);
}

#[test]
fn adc_sets_overflow_on_signed_overflow() {
    // LDA #$50, ADC #$50
    let cpu = run_program(&[0xa9, 0x50, 0x69, 0x50, 0x00]);
    assert_eq!(cpu.register_a, 0xa0);
    assert_eq!(cpu.status.bits(), 0x24 | OVERFLOW | NEGATIVE);

    // LDA #$D0, ADC #$90: two negatives give a positive.
    let cpu = run_program(&[0xa9, 0xd0, 0x69, 0x90, 0x00]);
    assert_eq!(cpu.register_a, 0x60);
    assert_eq!(cpu.status.bits(), 0x24 | OVERFLOW | CARRY);
}

#[test]
fn adc_adds_the_carry_in() {
    // SEC, LDA #$10, ADC #$20
    let cpu = run_program(&[0x38, 0xa9, 0x10, 0x69, 0x20, 0x00]);
    assert_eq!(cpu.register_a, 0x31);
    assert_eq!(cpu.status.bits(), 0x24);
}

#[test]
fn adc_is_symmetric_in_its_operands() {
    let pairs: [(u8, u8); 4] = [(0x50, 0x50), (0x01, 0xff), (0x7f, 0x01), (0x80, 0x80)];
    for (a, b) in pairs {
        let one = run_program(&[0xa9, a, 0x69, b, 0x00]);
        let other = run_program(&[0xa9, b, 0x69, a, 0x00]);
        assert_eq!(one.register_a, other.register_a);
        assert_eq!(one.status.bits(), other.status.bits());
        let sum = a as u16 + b as u16;
        let result = sum as u8;
        assert_eq!(one.register_a, result);
        assert_eq!(one.status.contains(CARRY), sum > 255);
        assert_eq!(one.status.contains(OVERFLOW), (a ^ result) & (b ^ result) & 0x80 != 0);
    }
}

#[test]
fn sbc_subtracts_with_borrow() {
    // SEC, LDA #$50, SBC #$F0
    let cpu = run_program(&[0x38, 0xa9, 0x50, 0xe9, 0xf0, 0x00]);
    assert_eq!(cpu.register_a, 0x60);
    assert_eq!(cpu.status.bits(), 0x24);

    // SEC, LDA #$50, SBC #$B0
    let cpu = run_program(&[0x38, 0xa9, 0x50, 0xe9, 0xb0, 0x00]);
    assert_eq!(cpu.register_a, 0xa0);
    assert_eq!(cpu.status.bits(), 0x24 | OVERFLOW | NEGATIVE);

    // SEC, LDA #$05, SBC #$03
    let cpu = run_program(&[0x38, 0xa9, 0x05, 0xe9, 0x03, 0x00]);
    assert_eq!(cpu.register_a, 0x02);
    assert_eq!(cpu.status.bits(), 0x24 | CARRY);

    // CLC, LDA #$05, SBC #$05: the clear carry borrows one more.
    let cpu = run_program(&[0x18, 0xa9, 0x05, 0xe9, 0x05, 0x00]);
    assert_eq!(cpu.register_a, 0xff);
    assert_eq!(cpu.status.bits(), 0x24 | NEGATIVE);
}

#[test]
fn logical_operations() {
    // LDA #$F0, AND #$3C
    let cpu = run_program(&[0xa9, 0xf0, 0x29, 0x3c, 0x00]);
    assert_eq!(cpu.register_a, 0x30);
    assert_eq!(cpu.status.bits(), 0x24);
    // LDA #$F0, EOR #$FF
    let cpu = run_program(&[0xa9, 0xf0, 0x49, 0xff, 0x00]);
    assert_eq!(cpu.register_a, 0x0f);
    // LDA #$F0, ORA #$0F
    let cpu = run_program(&[0xa9, 0xf0, 0x09, 0x0f, 0x00]);
    assert_eq!(cpu.register_a, 0xff);
    assert_eq!(cpu.status.bits(), 0x24 | NEGATIVE);
    // LDA #$F0, AND #$0F
    let cpu = run_program(&[0xa9, 0xf0, 0x29, 0x0f, 0x00]);
    assert_eq!(cpu.register_a, 0x00);
    assert_eq!(cpu.status.bits(), 0x24 | ZERO);
}

#[test]
fn increment_and_decrement_wrap() {
    // LDX #$FF, INX
    let cpu = run_program(&[0xa2, 0xff, 0xe8, 0x00]);
    assert_eq!(cpu.register_x, 0x00);
    assert_eq!(cpu.status.bits(), 0x24 | ZERO);
    // LDX #$00, DEX
    let cpu = run_program(&[0xa2, 0x00, 0xca, 0x00]);
    assert_eq!(cpu.register_x, 0xff);
    assert_eq!(cpu.status.bits(), 0x24 | NEGATIVE);
    // LDY #$FF, INY
    let cpu = run_program(&[0xa0, 0xff, 0xc8, 0x00]);
    assert_eq!(cpu.register_y, 0x00);
    assert_eq!(cpu.status.bits(), 0x24 | ZERO);
    // LDY #$00, DEY
    let cpu = run_program(&[0xa0, 0x00, 0x88, 0x00]);
    assert_eq!(cpu.register_y, 0xff);
    assert_eq!(cpu.status.bits(), 0x24 | NEGATIVE);
}

#[test]
fn memory_increment_and_decrement_wrap() {
    let mut cpu = fresh();
    cpu.mem_write(0x10, 0xff);
    cpu.mem_write(0x11, 0x00);
    // INC $10, DEC $11
    assert_eq!(cpu.load_and_run(vec![0xe6, 0x10, 0x00], 10), Ok(RunState::Halted));
    assert_eq!(cpu.mem_read(0x10), 0x00);
    assert_eq!(cpu.status.bits(), 0x24 | ZERO);
    assert_eq!(cpu.load_and_run(vec![0xc6, 0x11, 0x00], 10), Ok(RunState::Halted));
    assert_eq!(cpu.mem_read(0x11), 0xff);
    assert_eq!(cpu.status.bits(), 0x24 | NEGATIVE);
}

#[test]
fn shifts_on_the_accumulator() {
    // LDA #$81, ASL A
    let cpu = run_program(&[0xa9, 0x81, 0x0a, 0x00]);
    assert_eq!(cpu.register_a, 0x02);
    assert_eq!(cpu.status.bits(), 0x24 | CARRY);
    // LDA #$01, LSR A
    let cpu = run_program(&[0xa9, 0x01, 0x4a, 0x00]);
    assert_eq!(cpu.register_a, 0x00);
    assert_eq!(cpu.status.bits(), 0x24 | CARRY | ZERO);
    // SEC, LDA #$40, ROL A
    let cpu = run_program(&[0x38, 0xa9, 0x40, 0x2a, 0x00]);
    assert_eq!(cpu.register_a, 0x81);
    assert_eq!(cpu.status.bits(), 0x24 | NEGATIVE);
    // SEC, LDA #$02, ROR A
    let cpu = run_program(&[0x38, 0xa9, 0x02, 0x6a, 0x00]);
    assert_eq!(cpu.register_a, 0x81);
    assert_eq!(cpu.status.bits(), 0x24 | NEGATIVE);
    // CLC, LDA #$01, ROR A
    let cpu = run_program(&[0x18, 0xa9, 0x01, 0x6a, 0x00]);
    assert_eq!(cpu.register_a, 0x00);
    assert_eq!(cpu.status.bits(), 0x24 | CARRY | ZERO);
}

#[test]
fn shifts_on_memory() {
    let mut cpu = fresh();
    cpu.mem_write(0x10, 0x81);
    cpu.mem_write(0x11, 0x03);
    cpu.mem_write(0x12, 0x80);
    cpu.mem_write(0x13, 0x01);
    // ASL $10: 0x81 -> 0x02, carry out
    assert_eq!(cpu.load_and_run(vec![0x06, 0x10, 0x00], 10), Ok(RunState::Halted));
    assert_eq!(cpu.mem_read(0x10), 0x02);
    assert_eq!(cpu.status.bits(), 0x24 | CARRY);
    // LSR $11: 0x03 -> 0x01, carry out
    assert_eq!(cpu.load_and_run(vec![0x46, 0x11, 0x00], 10), Ok(RunState::Halted));
    assert_eq!(cpu.mem_read(0x11), 0x01);
    assert_eq!(cpu.status.bits(), 0x24 | CARRY);
    // ROL $12 with carry clear: 0x80 -> 0x00, carry out, Zero set
    assert_eq!(cpu.load_and_run(vec![0x26, 0x12, 0x00], 10), Ok(RunState::Halted));
    assert_eq!(cpu.mem_read(0x12), 0x00);
    assert_eq!(cpu.status.bits(), 0x24 | CARRY | ZERO);
    // SEC, ROR $13: 0x01 -> 0x80, carry out, Negative from the carried-in bit
    assert_eq!(cpu.load_and_run(vec![0x38, 0x66, 0x13, 0x00], 10), Ok(RunState::Halted));
    assert_eq!(cpu.mem_read(0x13), 0x80);
    assert_eq!(cpu.status.bits(), 0x24 | CARRY | NEGATIVE);
}

#[test]
fn compare_sets_carry_zero_negative() {
    // LDA #$05, CMP #$05
    let cpu = run_program(&[0xa9, 0x05, 0xc9, 0x05, 0x00]);
    assert_eq!(cpu.status.bits(), 0x24 | CARRY | ZERO);
    assert_eq!(cpu.register_a, 5);
    // LDA #$05, CMP #$06
    let cpu = run_program(&[0xa9, 0x05, 0xc9, 0x06, 0x00]);
    assert_eq!(cpu.status.bits(), 0x24 | NEGATIVE);
    // LDX #$10, CPX #$01
    let cpu = run_program(&[0xa2, 0x10, 0xe0, 0x01, 0x00]);
    assert_eq!(cpu.status.bits(), 0x24 | CARRY);
    // LDY #$00, CPY #$80
    let cpu = run_program(&[0xa0, 0x00, 0xc0, 0x80, 0x00]);
    assert_eq!(cpu.status.bits(), 0x24 | NEGATIVE);
}

#[test]
fn bit_test_copies_the_top_bits() {
    let mut cpu = fresh();
    cpu.mem_write(0x10, 0xc0);
    // LDA #$0F, BIT $10
    assert_eq!(cpu.load_and_run(vec![0xa9, 0x0f, 0x24, 0x10, 0x00], 10), Ok(RunState::Halted));
    assert_eq!(cpu.register_a, 0x0f);
    assert_eq!(cpu.status.bits(), 0x24 | ZERO | OVERFLOW | NEGATIVE);
    cpu.mem_write(0x10, 0x01);
    // LDA #$01, BIT $10
    assert_eq!(cpu.load_and_run(vec![0xa9, 0x01, 0x24, 0x10, 0x00], 10), Ok(RunState::Halted));
    assert_eq!(cpu.status.bits(), 0x24);
}

#[test]
fn branch_backwards_loops() {
    // LDX #$03, DEX, BNE -3, BRK
    let cpu = run_program(&[0xa2, 0x03, 0xca, 0xd0, 0xfd, 0x00]);
    assert_eq!(cpu.register_x, 0);
    assert_eq!(cpu.program_counter, 0x0606);
}

#[test]
fn branch_forwards_skips() {
    // LDA #$00, BEQ +2, LDA #$55, BRK
    let cpu = run_program(&[0xa9, 0x00, 0xf0, 0x02, 0xa9, 0x55, 0x00]);
    assert_eq!(cpu.register_a, 0x00);
    // LDA #$01, BEQ +2, LDA #$55, BRK
    let cpu = run_program(&[0xa9, 0x01, 0xf0, 0x02, 0xa9, 0x55, 0x00]);
    assert_eq!(cpu.register_a, 0x55);
}

#[test]
fn every_branch_follows_its_flag() {
    // (set-up, branch opcode, taken)
    let cases: [(&[u8], u8, bool); 16] = [
        (&[0x18], 0x90, true),
        (&[0x38], 0x90, false),
        (&[0x38], 0xb0, true),
        (&[0x18], 0xb0, false),
        (&[0xa9, 0x00], 0xf0, true),
        (&[0xa9, 0x01], 0xf0, false),
        (&[0xa9, 0x01], 0xd0, true),
        (&[0xa9, 0x00], 0xd0, false),
        (&[0xa9, 0x80], 0x30, true),
        (&[0xa9, 0x01], 0x30, false),
        (&[0xa9, 0x01], 0x10, true),
        (&[0xa9, 0x80], 0x10, false),
        (&[0xa9, 0x50, 0x69, 0x50], 0x70, true),
        (&[0xb8], 0x70, false),
        (&[0xb8], 0x50, true),
        (&[0xa9, 0x50, 0x69, 0x50], 0x50, false),
    ];
    for (setup, branch, taken) in cases {
        let mut program = setup.to_vec();
        // branch over "LDX #$01"
        program.extend_from_slice(&[branch, 0x02, 0xa2, 0x01, 0x00]);
        let cpu = run_program(&program);
        assert_eq!(cpu.register_x == 0, taken, "branch {:02X}", branch);
    }
}

#[test]
fn jump_absolute() {
    // JMP $0605, LDA #$01 (skipped), LDX #$07, BRK
    let cpu = run_program(&[0x4c, 0x05, 0x06, 0xa9, 0x01, 0xa2, 0x07, 0x00]);
    assert_eq!(cpu.register_a, 0);
    assert_eq!(cpu.register_x, 7);
}

#[test]
fn indirect_jump_reads_the_pointer() {
    let mut cpu = fresh();
    cpu.mem_write(0x0320, 0x10);
    cpu.mem_write(0x0321, 0x07);
    cpu.mem_write(0x0710, 0xa9);
    cpu.mem_write(0x0711, 0x77);
    cpu.mem_write(0x0712, 0x00);
    assert_eq!(cpu.load_and_run(vec![0x6c, 0x20, 0x03], 10), Ok(RunState::Halted));
    assert_eq!(cpu.register_a, 0x77);
    assert_eq!(cpu.program_counter, 0x0713);
}

#[test]
fn indirect_jump_wraps_within_the_page() {
    let mut cpu = fresh();
    cpu.mem_write(0x02ff, 0x10);
    cpu.mem_write(0x0200, 0x07);
    cpu.mem_write(0x0300, 0x05);
    cpu.mem_write(0x0710, 0xa9);
    cpu.mem_write(0x0711, 0x77);
    cpu.mem_write(0x0712, 0x00);
    assert_eq!(cpu.indirect_target(0x02ff), 0x0710);
    assert_eq!(cpu.indirect_target(0x02fe), 0x1000);
    assert_eq!(cpu.load_and_run(vec![0x6c, 0xff, 0x02], 10), Ok(RunState::Halted));
    assert_eq!(cpu.register_a, 0x77);
    assert_eq!(cpu.program_counter, 0x0713);
}

#[test]
fn call_and_return() {
    // 0600 JSR $0606; 0603 INX; 0604 BRK; 0605 NOP; 0606 LDX #$05; 0608 RTS
    let cpu = run_program(&[0x20, 0x06, 0x06, 0xe8, 0x00, 0xea, 0xa2, 0x05, 0x60]);
    assert_eq!(cpu.register_x, 6);
    assert_eq!(cpu.stack_pointer, 0xFD);
    assert_eq!(cpu.mem_read(0x01FD), 0x06);
    assert_eq!(cpu.mem_read(0x01FC), 0x02);
    assert_eq!(cpu.program_counter, 0x0605);
}

#[test]
fn push_then_pop_returns_the_value() {
    // LDA #$42, PHA, LDA #$00, PLA
    let cpu = run_program(&[0xa9, 0x42, 0x48, 0xa9, 0x00, 0x68, 0x00]);
    assert_eq!(cpu.register_a, 0x42);
    assert_eq!(cpu.stack_pointer, 0xFD);
    assert_eq!(cpu.mem_read(0x01FD), 0x42);
    assert_eq!(cpu.status.bits(), 0x24);
}

#[test]
fn push_moves_the_stack_pointer_down() {
    let mut cpu = fresh();
    // LDA #$42, PHA
    assert_eq!(cpu.load_and_run(vec![0xa9, 0x42, 0x48, 0x00], 10), Ok(RunState::Halted));
    assert_eq!(cpu.stack_pointer, 0xFC);
    assert_eq!(cpu.mem_read(0x01FD), 0x42);
}

#[test]
fn stack_pointer_wraps_within_its_page() {
    // LDX #$00, TXS, LDA #$11, PHA, PHA, PLA, PLA
    let cpu = run_program(&[0xa2, 0x00, 0x9a, 0xa9, 0x11, 0x48, 0x48, 0x68, 0x68, 0x00]);
    assert_eq!(cpu.stack_pointer, 0x00);
    assert_eq!(cpu.mem_read(0x0100), 0x11);
    assert_eq!(cpu.mem_read(0x01FF), 0x11);
    assert_eq!(cpu.mem_read(0x0200), 0x00);
}

#[test]
fn flag_push_forces_break_bits_in_the_pushed_byte_only() {
    // PHP, PLA
    let cpu = run_program(&[0x08, 0x68, 0x00]);
    assert_eq!(cpu.register_a, 0x34);
    assert_eq!(cpu.status.bits(), 0x24);
}

#[test]
fn flag_pop_clears_break_and_sets_break2() {
    // LDA #$DF, PHA, PLP
    let cpu = run_program(&[0xa9, 0xdf, 0x48, 0x28, 0x00]);
    assert_eq!(cpu.status.bits(), 0xef);
    // LDA #$10, PHA, PLP
    let cpu = run_program(&[0xa9, 0x10, 0x48, 0x28, 0x00]);
    assert_eq!(cpu.status.bits(), 0x20);
}

#[test]
fn return_from_interrupt_pops_flags_then_address() {
    // push $07, $10 (address high, low), $C3 (flags); RTI; at $0710: LDX #$09, BRK
    let mut cpu = fresh();
    cpu.mem_write(0x0710, 0xa2);
    cpu.mem_write(0x0711, 0x09);
    cpu.mem_write(0x0712, 0x00);
    let program = vec![0xa9, 0x07, 0x48, 0xa9, 0x10, 0x48, 0xa9, 0xd3, 0x48, 0x40];
    assert_eq!(cpu.load_and_run(program, 20), Ok(RunState::Halted));
    assert_eq!(cpu.register_x, 9);
    assert_eq!(cpu.program_counter, 0x0713);
    assert_eq!(cpu.stack_pointer, 0xFD);
    // flags $D3 restored with Break cleared and Break2 set are $E3; then
    // LDX #$09 clears Zero and Negative
    assert_eq!(cpu.status.bits(), 0x61);
}

#[test]
fn transfers() {
    // LDA #$80, TAY, TYA, TAX, TXA
    let cpu = run_program(&[0xa9, 0x80, 0xa8, 0xa9, 0x00, 0x98, 0xaa, 0x00]);
    assert_eq!(cpu.register_y, 0x80);
    assert_eq!(cpu.register_a, 0x80);
    assert_eq!(cpu.register_x, 0x80);
    assert_eq!(cpu.status.bits(), 0x24 | NEGATIVE);
    // TSX
    let cpu = run_program(&[0xba, 0x00]);
    assert_eq!(cpu.register_x, 0xFD);
    assert_eq!(cpu.status.bits(), 0x24 | NEGATIVE);
    // LDX #$00 sets Zero; LDX #$80, TXS leaves the flags of the load
    let cpu = run_program(&[0xa2, 0x80, 0xa9, 0x01, 0x9a, 0x00]);
    assert_eq!(cpu.stack_pointer, 0x80);
    assert_eq!(cpu.status.bits(), 0x24);
}

#[test]
fn flag_instructions() {
    // SEC, SED, SEI
    let cpu = run_program(&[0x38, 0xf8, 0x78, 0x00]);
    assert_eq!(cpu.status.bits(), 0x24 | 0x01 | 0x08);
    // SEC, SED, CLC, CLD, CLI
    let cpu = run_program(&[0x38, 0xf8, 0x18, 0xd8, 0x58, 0x00]);
    assert_eq!(cpu.status.bits(), 0x20);
    // overflow by ADC, then CLV
    let cpu = run_program(&[0xa9, 0x50, 0x69, 0x50, 0xb8, 0x00]);
    assert_eq!(cpu.status.bits(), 0x24 | NEGATIVE);
}

#[test]
fn stores() {
    // LDA #$11, LDX #$22, LDY #$33, STA $10, STX $11, STY $12, STA $0300
    let cpu = run_program(&[
        0xa9, 0x11, 0xa2, 0x22, 0xa0, 0x33, 0x85, 0x10, 0x86, 0x11, 0x84, 0x12, 0x8d, 0x00, 0x03,
        0x00,
    ]);
    assert_eq!(cpu.mem_read(0x10), 0x11);
    assert_eq!(cpu.mem_read(0x11), 0x22);
    assert_eq!(cpu.mem_read(0x12), 0x33);
    assert_eq!(cpu.mem_read(0x0300), 0x11);
    assert_eq!(cpu.mem_read(0x0B00), 0x11);
}

#[test]
fn store_into_the_peripheral_window_is_discarded() {
    // LDA #$11, STA $2000, LDA $2000
    let cpu = run_program(&[0xa9, 0x11, 0x8d, 0x00, 0x20, 0xad, 0x00, 0x20, 0x00]);
    assert_eq!(cpu.register_a, 0);
    assert_eq!(cpu.status.bits(), 0x24 | ZERO);
}

#[test]
fn operand_addresses() {
    let mut cpu = fresh();
    cpu.program_counter = 0x0040;
    cpu.register_x = 0x04;
    cpu.register_y = 0x10;
    cpu.mem_write(0x0040, 0xfe);
    cpu.mem_write(0x0041, 0x03);
    cpu.mem_write(0x00fe, 0x34);
    cpu.mem_write(0x00ff, 0x12);
    cpu.mem_write(0x0000, 0x56);
    cpu.mem_write(0x0002, 0x78);
    cpu.mem_write(0x0003, 0x9a);
    assert_eq!(cpu.get_operand_address(&AddressingMode::Immediate), 0x0040);
    assert_eq!(cpu.get_operand_address(&AddressingMode::ZeroPage), 0x00fe);
    assert_eq!(cpu.get_operand_address(&AddressingMode::Absolute), 0x03fe);
    // zero-page indexing never leaves page zero
    assert_eq!(cpu.get_operand_address(&AddressingMode::ZeroPage_X), 0x0002);
    assert_eq!(cpu.get_operand_address(&AddressingMode::ZeroPage_Y), 0x000e);
    // absolute indexing carries into the high byte
    assert_eq!(cpu.get_operand_address(&AddressingMode::Absolute_X), 0x0402);
    assert_eq!(cpu.get_operand_address(&AddressingMode::Absolute_Y), 0x040e);
    // pointer at ($FE + 4) mod 256 = $02
    assert_eq!(cpu.get_operand_address(&AddressingMode::Indirect_X), 0x9a78);
    // pointer at $FE and $FF, plus Y
    assert_eq!(cpu.get_operand_address(&AddressingMode::Indirect_Y), 0x1244);
    assert_eq!(cpu.get_absolute_address(&AddressingMode::ZeroPage, 0x0041), 0x0003);
}

#[test]
fn indirect_pointers_wrap_within_page_zero() {
    let mut cpu = fresh();
    cpu.program_counter = 0x0040;
    cpu.mem_write(0x0040, 0xff);
    cpu.mem_write(0x00ff, 0x34);
    cpu.mem_write(0x0000, 0x12);
    cpu.mem_write(0x0100, 0x99);
    cpu.register_x = 0;
    cpu.register_y = 0xff;
    assert_eq!(cpu.get_operand_address(&AddressingMode::Indirect_X), 0x1234);
    assert_eq!(cpu.get_operand_address(&AddressingMode::Indirect_Y), 0x1333);
    // 16-bit wrap of absolute indexing
    cpu.mem_write(0x0040, 0xff);
    cpu.mem_write(0x0041, 0xff);
    cpu.register_x = 2;
    assert_eq!(cpu.get_operand_address(&AddressingMode::Absolute_X), 0x0001);
}

#[test]
fn loads_through_every_addressing_mode() {
    let mut cpu = fresh();
    cpu.mem_write(0x0010, 0x01);
    cpu.mem_write(0x0012, 0x02);
    cpu.mem_write(0x0300, 0x03);
    cpu.mem_write(0x0302, 0x04);
    cpu.mem_write(0x0020, 0x00);
    cpu.mem_write(0x0021, 0x03);
    // LDX #$02, LDY #$02
    let prefix = [0xa2, 0x02, 0xa0, 0x02];
    let cases: [(&[u8], u8); 7] = [
        (&[0xa5, 0x10], 0x01),
        (&[0xb5, 0x10], 0x02),
        (&[0xad, 0x00, 0x03], 0x03),
        (&[0xbd, 0x00, 0x03], 0x04),
        (&[0xb9, 0x00, 0x03], 0x04),
        (&[0xa1, 0x1e], 0x03),
        (&[0xb1, 0x20], 0x04),
    ];
    for (load, expected) in cases {
        let mut program = prefix.to_vec();
        program.extend_from_slice(load);
        program.push(0x00);
        assert_eq!(cpu.load_and_run(program, 10), Ok(RunState::Halted));
        assert_eq!(cpu.register_a, expected, "load {:02X}", load[0]);
    }
}

#[test]
fn step_runs_one_instruction() {
    let mut cpu = fresh();
    cpu.load(vec![0xa9, 0x05, 0xaa, 0x00]);
    cpu.reset();
    assert_eq!(cpu.program_counter, 0x0600);
    assert_eq!(cpu.step(), Ok(RunState::Running));
    assert_eq!(cpu.register_a, 5);
    assert_eq!(cpu.program_counter, 0x0602);
    assert_eq!(cpu.step(), Ok(RunState::Running));
    assert_eq!(cpu.register_x, 5);
    assert_eq!(cpu.program_counter, 0x0603);
    assert_eq!(cpu.step(), Ok(RunState::Halted));
    assert_eq!(cpu.program_counter, 0x0604);
}

#[test]
fn unknown_opcode_is_a_decode_error() {
    let mut cpu = fresh();
    let end = cpu.load_and_run(vec![0xa9, 0x05, 0x02, 0x00], 10);
    assert_eq!(end, Err(CpuError::UnknownOpcode { code: 0x02 }));
    assert_eq!(cpu.program_counter, 0x0602);
    assert_eq!(cpu.register_a, 5);
    assert_eq!(cpu.step(), Err(CpuError::UnknownOpcode { code: 0x02 }));
    assert_eq!(cpu.program_counter, 0x0602);
}

#[test]
fn write_into_program_storage_is_a_protection_fault() {
    let mut cpu = fresh();
    // LDA #$01, STA $8000
    let end = cpu.load_and_run(vec![0xa9, 0x01, 0x8d, 0x00, 0x80, 0x00], 10);
    assert_eq!(end, Err(CpuError::ProtectionFault { addr: 0x8000 }));
    assert_eq!(cpu.program_counter, 0x0602);
    assert_eq!(cpu.register_a, 1);
    assert_eq!(cpu.mem_read(0x8000), 0);

    // INC $FFFF,X with X = 0 leaves flags and memory alone
    let mut cpu = fresh();
    let end = cpu.load_and_run(vec![0xfe, 0xff, 0xff, 0x00], 10);
    assert_eq!(end, Err(CpuError::ProtectionFault { addr: 0xffff }));
    assert_eq!(cpu.status.bits(), 0x24);
    assert_eq!(cpu.program_counter, 0x0600);
}

#[test]
fn budget_ends_a_run_that_does_not_halt() {
    let mut cpu = fresh();
    // INX, JMP $0600
    let end = cpu.load_and_run(vec![0xe8, 0x4c, 0x00, 0x06], 10);
    assert_eq!(end, Ok(RunState::Running));
    assert_eq!(cpu.register_x, 5);
    assert_eq!(cpu.program_counter, 0x0600);
    assert_eq!(cpu.run(1), Ok(RunState::Running));
    assert_eq!(cpu.register_x, 6);
    assert_eq!(cpu.run(0), Ok(RunState::Running));
    assert_eq!(cpu.register_x, 6);
}

#[test]
fn observer_sees_every_executed_instruction() {
    let mut cpu = fresh();
    cpu.load(vec![0xa9, 0x0a, 0xaa, 0xe8, 0x00]);
    cpu.reset();
    let calls = Cell::new(0u32);
    let last_x = Cell::new(0u8);
    let end = cpu.run_with_callback(100, |cpu| {
        calls.set(calls.get() + 1);
        last_x.set(cpu.register_x);
    });
    assert_eq!(end, Ok(RunState::Halted));
    assert_eq!(calls.get(), 3);
    assert_eq!(last_x.get(), 0x0b);
}

#[test]
fn program_counter_wraps_at_the_end_of_the_address_space() {
    let mut rom = vec![0xeau8; 0x4000];
    rom[0x3FFE] = 0xa9;
    rom[0x3FFF] = 0x42;
    let mut cpu = CPU::new(Bus::new(rom));
    cpu.program_counter = 0xFFFE;
    cpu.mem_write(0x0000, 0x00);
    assert_eq!(cpu.step(), Ok(RunState::Running));
    assert_eq!(cpu.register_a, 0x42);
    assert_eq!(cpu.program_counter, 0x0000);
    assert_eq!(cpu.step(), Ok(RunState::Halted));
}

#[test]
fn nop_only_advances() {
    let cpu = run_program(&[0xea, 0xea, 0x00]);
    assert_eq!(cpu.program_counter, 0x0603);
    assert_eq!(cpu.status.bits(), 0x24);
    assert_eq!(cpu.stack_pointer, 0xFD);
}

#[test]
fn jump_to_its_own_operand_address_lands_there() {
    // JMP $0601: the byte $01 at $0601 then runs as ORA ($06,X) over zeroed
    // memory, and the halt at $0603 follows.
    let mut cpu = fresh();
    let end = cpu.load_and_run(vec![0x4c, 0x01, 0x06, 0x00], 10);
    assert_eq!(end, Ok(RunState::Halted));
    assert!(cpu.status.contains(ZERO));
    assert_eq!(cpu.status.bits(), 0x24 | ZERO);
    assert_eq!(cpu.register_a, 0);
    assert_eq!(cpu.program_counter, 0x0604);

    let mut cpu = fresh();
    cpu.load(vec![0x4c, 0x01, 0x06, 0x00]);
    cpu.reset();
    assert_eq!(cpu.step(), Ok(RunState::Running));
    assert_eq!(cpu.program_counter, 0x0601);
    assert_eq!(cpu.step(), Ok(RunState::Running));
    assert_eq!(cpu.program_counter, 0x0603);
}

#[test]
fn taken_branch_with_displacement_ff_lands_on_its_displacement_byte() {
    let mut cpu = fresh();
    // BNE -1 at $0010, Zero clear
    cpu.mem_write(0x0010, 0xd0);
    cpu.mem_write(0x0011, 0xff);
    cpu.program_counter = 0x0010;
    assert_eq!(cpu.step(), Ok(RunState::Running));
    assert_eq!(cpu.program_counter, 0x0011);
    assert_eq!(cpu.step(), Err(CpuError::UnknownOpcode { code: 0xff }));
    assert_eq!(cpu.program_counter, 0x0011);
}

#[test]
fn branch_not_taken_moves_past_its_two_bytes() {
    let mut cpu = fresh();
    // BEQ -1 at $0010, Zero clear
    cpu.mem_write(0x0010, 0xf0);
    cpu.mem_write(0x0011, 0xff);
    cpu.program_counter = 0x0010;
    assert_eq!(cpu.step(), Ok(RunState::Running));
    assert_eq!(cpu.program_counter, 0x0012);
}

#[test]
fn call_to_its_own_operand_address_lands_there() {
    let mut cpu = fresh();
    cpu.load(vec![0x20, 0x01, 0x06, 0x00]);
    cpu.reset();
    assert_eq!(cpu.step(), Ok(RunState::Running));
    assert_eq!(cpu.program_counter, 0x0601);
    assert_eq!(cpu.stack_pointer, 0xFB);
    assert_eq!(cpu.mem_read(0x01FD), 0x06);
    assert_eq!(cpu.mem_read(0x01FC), 0x02);
}

#[test]
fn indirect_jump_to_its_own_operand_address_lands_there() {
    let mut cpu = fresh();
    cpu.mem_write(0x0010, 0x01);
    cpu.mem_write(0x0011, 0x06);
    cpu.load(vec![0x6c, 0x10, 0x00]);
    cpu.reset();
    assert_eq!(cpu.step(), Ok(RunState::Running));
    assert_eq!(cpu.program_counter, 0x0601);
}

#[test]
fn return_to_the_address_after_itself_is_not_moved_on() {
    let mut cpu = fresh();
    // push $06, then $06 again; the RTS at $0606 returns to $0606 + 1
    let program = vec![0xa9, 0x06, 0x48, 0xa9, 0x06, 0x48, 0x60];
    cpu.load(program);
    cpu.reset();
    assert_eq!(cpu.run(4), Ok(RunState::Running));
    assert_eq!(cpu.program_counter, 0x0606);
    assert_eq!(cpu.step(), Ok(RunState::Running));
    assert_eq!(cpu.program_counter, 0x0607);
    assert_eq!(cpu.stack_pointer, 0xFD);
}

#[test]
fn memory_access_leaves_the_registers_alone() {
    let mut cpu = fresh();
    cpu.register_a = 1;
    cpu.register_x = 2;
    cpu.register_y = 3;
    cpu.stack_pointer = 0x44;
    cpu.program_counter = 0x1234;
    cpu.status = CpuFlags::from_bits_truncate(0xa5);
    cpu.mem_write(0x0020, 0x77);
    cpu.mem_write_u16(0x0030, 0xbeef);
    assert_eq!(cpu.mem_read(0x0020), 0x77);
    assert_eq!(cpu.mem_read(0x0030), 0xef);
    assert_eq!(cpu.mem_read(0x0031), 0xbe);
    assert_eq!(cpu.mem_read_u16(0x0030), 0xbeef);
    assert_eq!(cpu.register_a, 1);
    assert_eq!(cpu.register_x, 2);
    assert_eq!(cpu.register_y, 3);
    assert_eq!(cpu.stack_pointer, 0x44);
    assert_eq!(cpu.program_counter, 0x1234);
    assert_eq!(cpu.status.bits(), 0xa5);
}
