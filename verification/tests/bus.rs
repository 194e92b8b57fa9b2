use famemu::bus::{high_byte, low_byte, make_word, Bus};
use famemu::cpu::mem::Mem;

fn bank_with(first: u8, last: u8) -> Vec<u8> {
    let mut rom = vec![0u8; 0x4000];
    rom[0] = first;
    rom[0x3FFF] = last;
    rom
}

#[test]
fn work_memory_starts_cleared() {
    let bus = Bus::new(vec![0xEA; 0x4000]);
    assert_eq!(bus.mem_read(0x0000), 0);
    assert_eq!(bus.mem_read(0x07FF), 0);
    assert_eq!(bus.mem_read(0x1FFF), 0);
}

#[test]
fn work_memory_write_is_seen_in_every_mirror() {
    let mut bus = Bus::new(vec![0; 0x4000]);
    bus.mem_write(0x0000, 0x5A);
    assert_eq!(bus.mem_read(0x0000), 0x5A);
    assert_eq!(bus.mem_read(0x0800), 0x5A);
    assert_eq!(bus.mem_read(0x1000), 0x5A);
    assert_eq!(bus.mem_read(0x1800), 0x5A);
    assert_eq!(bus.mem_read(0x0001), 0);
}

#[test]
fn write_through_a_mirror_lands_in_the_same_cell() {
    let mut bus = Bus::new(vec![0; 0x4000]);
    bus.mem_write(0x1FFF, 0x77);
    assert_eq!(bus.mem_read(0x07FF), 0x77);
    assert_eq!(bus.mem_read(0x0FFF), 0x77);
    bus.mem_write(0x0A34, 0x12);
    assert_eq!(bus.mem_read(0x0234), 0x12);
    assert_eq!(bus.mem_read(0x1234), 0x12);
}

#[test]
fn peripheral_window_reads_zero_and_discards_writes() {
    let mut bus = Bus::new(vec![0; 0x4000]);
    bus.mem_write(0x2000, 0xFF);
    bus.mem_write(0x2007, 0xFF);
    bus.mem_write(0x3FFF, 0xFF);
    assert_eq!(bus.mem_read(0x2000), 0);
    assert_eq!(bus.mem_read(0x2007), 0);
    assert_eq!(bus.mem_read(0x3FFF), 0);
    assert_eq!(bus.mem_read(0x0000), 0);
}

#[test]
fn unmapped_range_reads_zero_and_ignores_writes() {
    let mut bus = Bus::new(vec![0; 0x4000]);
    bus.mem_write(0x4000, 0xAB);
    bus.mem_write(0x7FFF, 0xCD);
    assert_eq!(bus.mem_read(0x4000), 0);
    assert_eq!(bus.mem_read(0x7FFF), 0);
}

#[test]
fn single_bank_is_mirrored_into_both_halves() {
    let bus = Bus::new(bank_with(0xAB, 0xCD));
    assert_eq!(bus.mem_read(0x8000), 0xAB);
    assert_eq!(bus.mem_read(0xC000), 0xAB);
    assert_eq!(bus.mem_read(0xBFFF), 0xCD);
    assert_eq!(bus.mem_read(0xFFFF), 0xCD);
    assert_eq!(bus.read_prg_rom(0x8000), 0xAB);
    assert_eq!(bus.read_prg_rom(0xFFFF), 0xCD);
}

#[test]
fn two_banks_are_not_mirrored() {
    let mut rom = vec![0u8; 0x8000];
    rom[0] = 0x11;
    rom[0x4000] = 0x22;
    rom[0x7FFF] = 0x33;
    let bus = Bus::new(rom);
    assert_eq!(bus.mem_read(0x8000), 0x11);
    assert_eq!(bus.mem_read(0xC000), 0x22);
    assert_eq!(bus.mem_read(0xFFFF), 0x33);
    assert_eq!(bus.read_prg_rom(0xC000), 0x22);
}

#[test]
fn words_are_little_endian() {
    let mut bus = Bus::new(vec![0; 0x4000]);
    bus.mem_write_u16(0x0010, 0xBEEF);
    assert_eq!(bus.mem_read(0x0010), 0xEF);
    assert_eq!(bus.mem_read(0x0011), 0xBE);
    assert_eq!(bus.mem_read_u16(0x0010), 0xBEEF);
    bus.mem_write(0x0020, 0x34);
    bus.mem_write(0x0021, 0x12);
    assert_eq!(bus.mem_read_u16(0x0020), 0x1234);
}

#[test]
fn word_read_at_the_last_address_wraps_to_the_first() {
    let mut bus = Bus::new(bank_with(0x00, 0x9C));
    bus.mem_write(0x0000, 0x4E);
    assert_eq!(bus.mem_read_u16(0xFFFF), 0x4E9C);
}

#[test]
fn reset_vector_can_be_pointed_at_a_program() {
    let mut bus = Bus::new(vec![0; 0x4000]);
    bus.set_reset_vector(0x0600);
    assert_eq!(bus.mem_read(0xFFFC), 0x00);
    assert_eq!(bus.mem_read(0xFFFD), 0x06);
    assert_eq!(bus.mem_read_u16(0xFFFC), 0x0600);
    let mut wide = Bus::new(vec![0; 0x8000]);
    wide.set_reset_vector(0xC123);
    assert_eq!(wide.mem_read_u16(0xFFFC), 0xC123);
    assert_eq!(wide.mem_read_u16(0xBFFC), 0x0000);
}

#[test]
fn bytes_and_words_convert() {
    assert_eq!(make_word(0x34, 0x12), 0x1234);
    assert_eq!(make_word(0xFF, 0x00), 0x00FF);
    assert_eq!(low_byte(0xABCD), 0xCD);
    assert_eq!(high_byte(0xABCD), 0xAB);
}
