// The bus capability: RAM, ROM, word accessors, and out-of-range behavior.

use melo::addressing::Addressable;
use melo::memory::{Ram, Rom};

#[test]
fn ram_reads_what_it_holds() {
    let ram = Ram::new(vec![10, 20, 30]);
    assert_eq!(ram.read_byte(0), 10);
    assert_eq!(ram.read_byte(1), 20);
    assert_eq!(ram.read_byte(2), 30);
}

#[test]
fn out_of_range_reads_return_zero() {
    let ram = Ram::new(vec![10, 20, 30]);
    assert_eq!(ram.read_byte(3), 0);
    assert_eq!(ram.read_byte(0xFFFF), 0);
    let rom = Rom::new(vec![1]);
    assert_eq!(rom.read_byte(9), 0);
}

#[test]
fn out_of_range_writes_are_dropped() {
    let mut ram = Ram::new(vec![10, 20, 30]);
    ram.write_byte(3, 99);
    ram.write_byte(0xFFFF, 99);
    assert_eq!(ram.read_byte(0), 10);
    assert_eq!(ram.read_byte(1), 20);
    assert_eq!(ram.read_byte(2), 30);
    assert_eq!(ram.read_byte(3), 0);
}

#[test]
fn ram_accepts_writes() {
    let mut ram = Ram::zero(4);
    ram.write_byte(2, 0x55);
    assert_eq!(ram.read_byte(2), 0x55);
}

#[test]
fn rom_ignores_writes() {
    let mut rom = Rom::new(vec![7, 8, 9]);
    rom.write_byte(1, 0xFF);
    assert_eq!(rom.read_byte(1), 8);
}

#[test]
fn zero_ram_is_zero_filled() {
    let ram = Ram::zero(100);
    for a in 0..100u16 {
        assert_eq!(ram.read_byte(a), 0);
    }
}

#[test]
fn rand_ram_has_one_fill_byte() {
    let ram = Ram::rand(64);
    let first = ram.read_byte(0);
    for a in 0..64u16 {
        assert_eq!(ram.read_byte(a), first);
    }
    // Size is respected: one past the end reads as zero only because it is
    // out of range, whatever the fill byte was.
    let empty = Ram::rand(0);
    assert_eq!(empty.read_byte(0), 0);
}

#[test]
fn le_word_roundtrip() {
    let mut ram = Ram::zero(16);
    ram.write_le_word(4, 0xBEEF);
    assert_eq!(ram.read_byte(4), 0xEF);
    assert_eq!(ram.read_byte(5), 0xBE);
    assert_eq!(ram.read_le_word(4), 0xBEEF);
}

#[test]
fn be_word_roundtrip() {
    let mut ram = Ram::zero(16);
    ram.write_be_word(4, 0xBEEF);
    assert_eq!(ram.read_byte(4), 0xBE);
    assert_eq!(ram.read_byte(5), 0xEF);
    assert_eq!(ram.read_be_word(4), 0xBEEF);
}

#[test]
fn word_access_wraps_around_the_address_space() {
    let mut ram = Ram::zero(0x10000);
    ram.write_le_word(0xFFFF, 0x1234);
    assert_eq!(ram.read_byte(0xFFFF), 0x34);
    assert_eq!(ram.read_byte(0x0000), 0x12);
    assert_eq!(ram.read_le_word(0xFFFF), 0x1234);
    assert_eq!(ram.read_be_word(0xFFFF), 0x3412);
}
