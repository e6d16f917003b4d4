use emulator::cpu::{Mos6502, RegisterName, STACK_START};
use emulator::exec::{branch, brk, dec, inc, ret};
use emulator::instruction::Instruction;
use emulator::flags::Flags;
use emulator::mem::{FixedMemory, Memory, VirtualMemory};
use emulator::operand::Operand;

#[test]
pub fn rti_after_brk_comes_back_past_the_padding_byte() {
    let mut vm = VirtualMemory::new();
    vm.attach(0, FixedMemory::new(32)).unwrap();
    vm.attach(STACK_START, FixedMemory::new(256)).unwrap();
    vm.attach(0xFFFA, FixedMemory::new(6)).unwrap();
    vm.set_le_u16(0xFFFE, 0xBEEF).unwrap();
    let mut cpu = Mos6502::new(vm);
    cpu.registers.sp = 0xFF;
    cpu.pc.set(0xABCD);
    cpu.flags.set(Flags::CARRY());
    brk::exec(&mut cpu).unwrap();
    assert_eq!(0xBEEF, cpu.pc.get());
    ret::from_interrupt(&mut cpu).unwrap();
    assert_eq!(0xABCE, cpu.pc.get());
    assert_eq!(0xFF, cpu.registers.sp);
    assert_eq!(0b0011_0001, cpu.flags.bits);
}

#[test]
pub fn operand_reads_back_what_was_written() {
    let mut cpu = Mos6502::with_fixed_memory(0x300);
    cpu.registers.x = 3;
    cpu.registers.y = 4;
    // The pointer for the indirect forms
    cpu.mem.set_u8(0x20, 0x00).unwrap();
    cpu.mem.set_u8(0x21, 0x02).unwrap();
    let ops = [
        Operand::Accumulator,
        Operand::Absolute(0x0150),
        Operand::Indexed(0x0150, RegisterName::X),
        Operand::Indexed(0xFE, RegisterName::Y),
        Operand::Indirect(0x0020),
        Operand::PreIndexedIndirect(0x1D),
        Operand::PostIndexedIndirect(0x20),
    ];
    let mut val: u8 = 0x40;
    for op in ops.iter() {
        op.set_u8(&mut cpu, val).unwrap();
        assert_eq!(Ok(val), op.get_u8(&mut cpu));
        val += 1;
    }
    assert_eq!(Ok(0x45), cpu.mem.get_u8(0x0200));
    assert_eq!(Ok(0x46), cpu.mem.get_u8(0x0204));
    assert_eq!(Ok(0x43), cpu.mem.get_u8(0x0002));
}

#[test]
pub fn dec_after_inc_gives_the_memory_back() {
    let mut cpu = Mos6502::with_fixed_memory(0x300);
    cpu.registers.x = 2;
    cpu.mem.set_u8(0x0152, 0xFF).unwrap();
    let op = Operand::Indexed(0x0150, RegisterName::X);
    inc::mem(&mut cpu, op).unwrap();
    assert_eq!(Ok(0x00), cpu.mem.get_u8(0x0152));
    dec::mem(&mut cpu, op).unwrap();
    assert_eq!(Ok(0xFF), cpu.mem.get_u8(0x0152));
}

#[test]
pub fn zero_page_forms_cost_no_more_than_absolute_forms() {
    let pairs = [
        (Instruction::ADC(Operand::Absolute(0x10)), Instruction::ADC(Operand::Absolute(0x1000))),
        (Instruction::AND(Operand::Absolute(0x10)), Instruction::AND(Operand::Absolute(0x1000))),
        (Instruction::AND(Operand::Indexed(0x10, RegisterName::X)), Instruction::AND(Operand::Indexed(0x1000, RegisterName::X))),
        (Instruction::INC(Operand::Indexed(0x10, RegisterName::X)), Instruction::INC(Operand::Indexed(0x1000, RegisterName::X))),
        (Instruction::STA(Operand::Indexed(0x10, RegisterName::Y)), Instruction::STA(Operand::Indexed(0x1000, RegisterName::Y))),
        (Instruction::JMP(Operand::Absolute(0x10)), Instruction::JMP(Operand::Absolute(0x1000))),
    ];
    for (zp, abs) in pairs.iter() {
        assert!(zp.base_cycles() <= abs.base_cycles());
    }
    assert_eq!(2, Instruction::AND(Operand::Absolute(0x10)).base_cycles());
    assert_eq!(4, Instruction::AND(Operand::Absolute(0x1000)).base_cycles());
}

#[test]
pub fn branch_backwards_from_address_zero_wraps_and_crosses_a_page() {
    let mut cpu = Mos6502::with_fixed_memory(0x10);
    cpu.pc.set(0);
    branch::if_clear(&mut cpu, Operand::Offset(-1), Flags::CARRY()).unwrap();
    assert_eq!(0xFFFF, cpu.pc.get());
    assert_eq!(2, cpu.clock.get());
}
