use emulator::cpu::{Mos6502, RegisterName};
use emulator::mem::{EmptyMemory, FixedMemory, Memory, MemoryError, VirtualMemory};
use emulator::operand::{Operand, OperandError};

#[test]
pub fn operand_set_absolute_puts_value_in_memory_location() {
    let mut cpu = Mos6502::with_fixed_memory(10);
    assert!(Operand::Absolute(2).set_u8(&mut cpu, 24).is_ok());
    let val: u8 = cpu.mem.get_u8(2).unwrap();
    assert_eq!(val, 24);
}

#[test]
pub fn operand_set_indexed_x_puts_value_in_memory_location() {
    let mut cpu = Mos6502::with_fixed_memory(10);
    cpu.registers.x = 1;
    assert!(Operand::Indexed(2, RegisterName::X).set_u8(&mut cpu, 24).is_ok());
    let val: u8 = cpu.mem.get_u8(3).unwrap();
    assert_eq!(val, 24);
}

#[test]
pub fn operand_set_indexed_y_puts_value_in_memory_location() {
    let mut cpu = Mos6502::with_fixed_memory(10);
    cpu.registers.y = 1;
    assert!(Operand::Indexed(2, RegisterName::Y).set_u8(&mut cpu, 24).is_ok());
    let val: u8 = cpu.mem.get_u8(3).unwrap();
    assert_eq!(val, 24);
}

#[test]
pub fn set_register_puts_value_in_register() {
    let mut cpu = Mos6502::with_fixed_memory(10);
    cpu.registers.a = 24;
    Operand::Accumulator.set_u8(&mut cpu, 42).unwrap();
    assert_eq!(cpu.registers.a, 42);
}

#[test]
pub fn set_accumulator_puts_value_in_accumulator() {
    let mut cpu = Mos6502::new(FixedMemory::new(10));
    cpu.registers.a = 24;
    Operand::Accumulator.set_u8(&mut cpu, 42).unwrap();
    assert_eq!(cpu.registers.a, 42);
}

#[test]
pub fn get_register_returns_value_from_register() {
    let mut cpu = Mos6502::with_fixed_memory(10);
    cpu.registers.a = 42;
    assert_eq!(Ok(42), Operand::Accumulator.get_u8(&mut cpu));
}

#[test]
pub fn get_accumulator_returns_value_from_accumulator() {
    let mut cpu = Mos6502::new(EmptyMemory);
    cpu.registers.a = 42;
    assert_eq!(Ok(42), Operand::Accumulator.get_u8(&mut cpu));
}

#[test]
pub fn operand_get_immediate_returns_immediate_value() {
    let mut cpu = Mos6502::with_fixed_memory(10);
    let val = Operand::Immediate(42).get_u8(&mut cpu).unwrap();
    assert_eq!(val, 42);
}

#[test]
pub fn operand_get_absolute_returns_value_from_memory_address() {
    let mut cpu = Mos6502::with_fixed_memory(10);
    assert!(cpu.mem.set_u8(4, 42).is_ok());
    let val = Operand::Absolute(4).get_u8(&mut cpu).unwrap();
    assert_eq!(val, 42);
}

#[test]
pub fn operand_get_indexed_x_adds_x_to_address() {
    let mut cpu = Mos6502::with_fixed_memory(10);
    assert!(cpu.mem.set_u8(4, 42).is_ok());
    cpu.registers.x = 2;
    let val = Operand::Indexed(2, RegisterName::X).get_u8(&mut cpu).unwrap();
    assert_eq!(val, 42);
}

#[test]
pub fn operand_get_indexed_y_adds_y_to_address() {
    let mut cpu = Mos6502::with_fixed_memory(10);
    assert!(cpu.mem.set_u8(4, 42).is_ok());
    cpu.registers.y = 2;
    let val = Operand::Indexed(2, RegisterName::Y).get_u8(&mut cpu).unwrap();
    assert_eq!(val, 42);
}

#[test]
pub fn operand_get_preindexed_indirect_works() {
    let mut cpu = Mos6502::with_fixed_memory(10);
    assert!(cpu.mem.set_u8(8, 42).is_ok()); // Value
    assert!(cpu.mem.set_le_u16(6, 8).is_ok()); // Indirect Memory Address
    cpu.registers.x = 2;
    let val = Operand::PreIndexedIndirect(4).get_u8(&mut cpu).unwrap();
    assert_eq!(val, 42);
}

#[test]
pub fn operand_get_postindexed_indirect_works() {
    let mut cpu = Mos6502::with_fixed_memory(10);
    assert!(cpu.mem.set_u8(8, 42).is_ok()); // Value
    assert!(cpu.mem.set_le_u16(2, 6).is_ok()); // Indirect Memory Address
    cpu.registers.y = 2;
    let val = Operand::PostIndexedIndirect(2).get_u8(&mut cpu).unwrap();
    assert_eq!(val, 42);
}

#[test]
pub fn zero_page_indexing_wraps_within_the_zero_page() {
    let mut cpu = Mos6502::new(EmptyMemory);
    cpu.registers.x = 0x20;
    assert_eq!(Ok(0x0010), Operand::Indexed(0x00F0, RegisterName::X).get_addr(&mut cpu));
    assert_eq!(0, cpu.clock.get());
}

#[test]
pub fn absolute_indexing_that_crosses_a_page_costs_a_cycle() {
    let mut cpu = Mos6502::new(EmptyMemory);
    cpu.registers.y = 0x20;
    assert_eq!(Ok(0x1310), Operand::Indexed(0x12F0, RegisterName::Y).get_addr(&mut cpu));
    assert_eq!(1, cpu.clock.get());
    assert_eq!(Ok(0x1330), Operand::Indexed(0x1310, RegisterName::Y).get_addr(&mut cpu));
    assert_eq!(1, cpu.clock.get());
}

#[test]
pub fn indirect_pointer_does_not_leave_its_page() {
    let mut vm = VirtualMemory::new();
    vm.attach(0x1000, FixedMemory::new(0x100)).unwrap();
    vm.set_u8(0x10FF, 0x34).unwrap();
    vm.set_u8(0x1000, 0x12).unwrap();
    let mut cpu = Mos6502::new(vm);
    assert_eq!(Ok(0x1234), Operand::Indirect(0x10FF).get_addr(&mut cpu));
}

#[test]
pub fn immediate_operands_have_no_address_and_cannot_be_written() {
    let mut cpu = Mos6502::new(EmptyMemory);
    assert!(!Operand::Immediate(1).has_addr());
    assert!(!Operand::Accumulator.has_addr());
    assert!(!Operand::TwoByteImmediate(1).has_addr());
    assert!(!Operand::Offset(-1).has_addr());
    assert!(Operand::Absolute(1).has_addr());
    assert_eq!(Err(OperandError::NonAddressOperand), Operand::Immediate(1).get_addr(&mut cpu));
    assert_eq!(Err(OperandError::ReadOnlyOperand), Operand::Immediate(1).set_u8(&mut cpu, 3));
}

#[test]
pub fn reading_unmapped_memory_reports_the_address() {
    let mut cpu = Mos6502::new(EmptyMemory);
    assert_eq!(
        Err(OperandError::ErrorAccessingMemory(MemoryError::UnmappedAddress(0x1234))),
        Operand::Absolute(0x1234).get_u8(&mut cpu)
    );
}

#[test]
pub fn memory_errors_convert_to_operand_errors() {
    let e: OperandError = OperandError::from(MemoryError::UnmappedAddress(7));
    assert_eq!(OperandError::ErrorAccessingMemory(MemoryError::UnmappedAddress(7)), e);
}
