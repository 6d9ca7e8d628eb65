//! Memory subsystem tests: segment dispatch, endianness, MMIO.

use lark_vm::mem::{MemBlock, MemErr, Memory, ROM_SIZE, VTTY_BYTES, VTTY_START};
use lark_vm::s16;

fn fresh_memory() -> Memory {
    Memory::new(MemBlock::<ROM_SIZE>::new_zeroed(), MemBlock::<VTTY_BYTES>::new_zeroed())
}

#[test]
fn word_write_then_read_round_trips() {
    let mut m = fresh_memory();
    m.write_s16(0x8000, s16::from_u16(0xBEEF)).unwrap();
    assert_eq!(m.read_s16(0x8000).unwrap().as_u16(), 0xBEEF);
}

#[test]
fn words_are_big_endian_in_ram() {
    let mut m = fresh_memory();
    m.write_s16(0x8000, s16::from_u16(0x1234)).unwrap();
    assert_eq!(m.read_u8(0x8000).unwrap(), 0x12);
    assert_eq!(m.read_u8(0x8001).unwrap(), 0x34);
}

#[test]
fn byte_write_then_read_round_trips() {
    let mut m = fresh_memory();
    m.write_u8(0xF900, 0xA5).unwrap(); // kernel RAM
    assert_eq!(m.read_u8(0xF900).unwrap(), 0xA5);
    m.write_u8(0x2000, 0x5A).unwrap(); // user RAM
    assert_eq!(m.read_u8(0x2000).unwrap(), 0x5A);
}

#[test]
fn vtty_words_are_little_endian() {
    let mut m = fresh_memory();
    m.write_s16(VTTY_START, s16::from_u16(0x1234)).unwrap();
    assert_eq!(m.read_u8(VTTY_START).unwrap(), 0x34);
    assert_eq!(m.read_u8(VTTY_START + 1).unwrap(), 0x12);
}

#[test]
fn control_byte_swallows_writes() {
    let mut m = fresh_memory();
    m.write_u8(1, 0x7F).unwrap();
    // The control byte is not readable; nothing else changed.
    assert!(matches!(m.read_u8(1), Err(MemErr::UnimplementedMmio(1))));
}

#[test]
fn unmapped_mmio_accesses_fail() {
    let mut m = fresh_memory();
    assert!(matches!(m.read_u8(2), Err(MemErr::UnimplementedMmio(2))));
    assert!(matches!(m.write_u8(3, 1), Err(MemErr::UnimplementedMmio(3))));
    assert!(matches!(m.read_s16(VTTY_START), Err(MemErr::UnimplementedMmio(_))));
}

#[test]
fn word_at_last_address_overflows() {
    let mut m = fresh_memory();
    assert!(matches!(m.read_s16(0xFFFF), Err(MemErr::AddressOverflow)));
    assert!(matches!(m.write_s16(0xFFFF, s16::zero()), Err(MemErr::AddressOverflow)));
}

#[test]
fn compute_offset_checks_the_address_space() {
    let m = fresh_memory();
    assert_eq!(m.compute_offset(0x1000, -16).unwrap(), 0x0FF0);
    assert_eq!(m.compute_offset(0x0000, 0x7FFF).unwrap(), 0x7FFF);
    assert!(matches!(m.compute_offset(0x0001, -2), Err(MemErr::AddressOverflow)));
    assert!(matches!(m.compute_offset(0xFFFF, 1), Err(MemErr::AddressOverflow)));
}

#[test]
fn rom_image_loads_zero_padded() {
    let rom = MemBlock::<ROM_SIZE>::from_vec(vec![1, 2, 3]).unwrap();
    assert_eq!(rom.read_u8(0), 1);
    assert_eq!(rom.read_u8(2), 3);
    assert_eq!(rom.read_u8(3), 0);
    assert!(MemBlock::<ROM_SIZE>::from_vec(vec![0; ROM_SIZE + 1]).is_none());
}

#[test]
fn rom_is_immutable_after_load() {
    let rom = MemBlock::<ROM_SIZE>::from_vec(vec![0xAA, 0xBB]).unwrap();
    let mut m = Memory::new(rom, MemBlock::<VTTY_BYTES>::new_zeroed());
    // Byte and word stores in the ROM range are accepted and discarded.
    m.write_u8(Memory::ROM_START, 1).unwrap();
    assert_eq!(m.read_u8(Memory::ROM_START).unwrap(), 0xAA);
    m.write_s16(Memory::ROM_START, s16::from_u16(0x1234)).unwrap();
    assert_eq!(m.read_u8(Memory::ROM_START).unwrap(), 0xAA);
    assert_eq!(m.read_u8(Memory::ROM_START + 1).unwrap(), 0xBB);
}

#[test]
fn word_stores_straddling_rom_keep_the_rom_byte() {
    let mut m = fresh_memory();
    // A word at the last ROM address is a pair of byte stores: the ROM byte
    // is discarded, the user-RAM byte is kept.
    m.write_s16(Memory::ROM_END, s16::from_u16(0xABCD)).unwrap();
    assert_eq!(m.read_u8(Memory::ROM_END).unwrap(), 0x00);
    assert_eq!(m.read_u8(Memory::USER_START).unwrap(), 0xCD);
    // Reading a word may still straddle the boundary.
    assert_eq!(m.read_s16(Memory::ROM_END).unwrap().as_u16(), 0x00CD);
}
