use emulator::clock::Clock;
use emulator::exec::utils::{bcd_to_int, int_to_bcd};
use emulator::mem::{EmptyMemory, FixedMemory, Memory, MemoryError, VirtualMemory};
use emulator::pc::ProgramCounter;

#[test]
fn clock_starts_at_zero_and_ticks() {
    let mut c = Clock::new();
    assert_eq!(0, c.get());
    c.tick(3);
    c.tick(4);
    assert_eq!(7, c.get());
    c.set(100);
    assert_eq!(100, c.get());
}

#[test]
fn suspended_clock_ignores_ticks_until_restored() {
    let mut c = Clock::new();
    let was = c.suspend();
    assert!(!was);
    c.tick(5);
    assert_eq!(0, c.get());
    let nested = c.suspend();
    assert!(nested);
    c.restore(nested);
    c.tick(5);
    assert_eq!(0, c.get());
    c.restore(was);
    c.tick(5);
    assert_eq!(5, c.get());
}

#[test]
fn program_counter_wraps_at_sixteen_bits() {
    let mut pc = ProgramCounter::new();
    assert_eq!(0, pc.get());
    pc.set(0x1_2345);
    assert_eq!(0x2345, pc.get());
    pc.set(0xFFFF);
    pc.advance(1);
    assert_eq!(0, pc.get());
    pc.advance(-1);
    assert_eq!(0xFFFF, pc.get());
    pc.advance(-128);
    assert_eq!(0xFF7F, pc.get());
}

#[test]
fn bcd_round_trips() {
    assert_eq!(42, bcd_to_int(0x42));
    assert_eq!(99, bcd_to_int(0x99));
    assert_eq!(0x42, int_to_bcd(42));
    assert_eq!(0x02, int_to_bcd(102));
    assert_eq!(0x99, int_to_bcd(-1));
    assert_eq!(0x00, int_to_bcd(0));
    assert_eq!(165, bcd_to_int(0xFF));
}

#[test]
fn fixed_memory_reads_back_what_was_written() {
    let mut m = FixedMemory::new(4);
    assert_eq!(Ok(0), m.get_u8(2));
    assert_eq!(Ok(()), m.set_u8(2, 7));
    assert_eq!(Ok(7), m.get_u8(2));
    assert_eq!(Ok(0), m.get_u8(1));
    assert_eq!(Err(MemoryError::UnmappedAddress(4)), m.set_u8(4, 1));
    assert_eq!(Err(MemoryError::UnmappedAddress(9)), m.get_u8(9));
}

#[test]
fn little_endian_words_are_stored_low_byte_first() {
    let mut m = FixedMemory::new(4);
    m.set_le_u16(1, 0xBEEF).unwrap();
    assert_eq!(Ok(0xEF), m.get_u8(1));
    assert_eq!(Ok(0xBE), m.get_u8(2));
    assert_eq!(Ok(0xBEEF), m.get_le_u16(1));
    assert_eq!(Err(MemoryError::UnmappedAddress(4)), m.get_le_u16(3));
    assert_eq!(Err(MemoryError::UnmappedAddress(4)), m.set_le_u16(3, 0x1234));
    assert_eq!(Ok(0x34), m.get_u8(3));
}

#[test]
fn virtual_memory_maps_regions_at_their_base() {
    let mut vm = VirtualMemory::new();
    vm.attach(0x100, FixedMemory::new(16)).unwrap();
    vm.attach(0x200, FixedMemory::new(16)).unwrap();
    assert_eq!(Ok(()), vm.set_u8(0x105, 1));
    assert_eq!(Ok(()), vm.set_u8(0x20F, 2));
    assert_eq!(Ok(1), vm.get_u8(0x105));
    assert_eq!(Ok(2), vm.get_u8(0x20F));
    assert_eq!(Err(MemoryError::UnmappedAddress(0x110)), vm.get_u8(0x110));
    assert_eq!(Err(MemoryError::UnmappedAddress(0xFF)), vm.set_u8(0xFF, 3));
}

#[test]
fn virtual_memory_refuses_overlapping_regions() {
    let mut vm = VirtualMemory::new();
    vm.attach(0x100, FixedMemory::new(16)).unwrap();
    assert_eq!(Err(MemoryError::OverlappingRegion(0x10F)), vm.attach(0x10F, FixedMemory::new(4)));
    assert_eq!(Err(MemoryError::OverlappingRegion(0xF0)), vm.attach(0xF0, FixedMemory::new(0x11)));
    assert_eq!(Ok(()), vm.attach(0xF0, FixedMemory::new(0x10)));
    assert_eq!(Ok(()), vm.attach(0x110, FixedMemory::new(0)));
}

#[test]
fn empty_memory_answers_nowhere() {
    let mut m = EmptyMemory;
    assert_eq!(Err(MemoryError::UnmappedAddress(0)), m.get_u8(0));
    assert_eq!(Err(MemoryError::UnmappedAddress(3)), m.set_u8(3, 1));
}
