use emulator::cpu::{Mos6502, RegisterName, STACK_START};
use emulator::exec::{adc, and, asl, bit, branch, brk, clear_flag, compare, inc, jmp, jsr, load, lsr, ora, pull, push, ret, rotate, sbc, set_flag, store, transfer};
use emulator::flags::Flags;
use emulator::mem::{EmptyMemory, FixedMemory, Memory, VirtualMemory};
use emulator::operand::Operand;

fn stack_cpu() -> Mos6502<VirtualMemory> {
    let stack_memory = FixedMemory::new(32);
    let mut vm = VirtualMemory::new();
    vm.attach(STACK_START, stack_memory).unwrap();
    let mut cpu = Mos6502::new(vm);
    cpu.registers.sp = 16;
    cpu
}

fn base_cpu() -> Mos6502<VirtualMemory> {
    let base_memory = FixedMemory::new(10);
    let mut vm = VirtualMemory::new();
    vm.attach(0, base_memory).unwrap();
    Mos6502::new(vm)
}

fn a42() -> Mos6502<EmptyMemory> {
    let mut cpu = Mos6502::new(EmptyMemory);
    cpu.registers.a = 42;
    cpu
}

// ADC

#[test]
pub fn adc_adc_adds_regularly_when_carry_not_set() {
    let mut cpu = a42();
    adc::exec(&mut cpu, Operand::Immediate(1)).unwrap();
    assert_eq!(cpu.registers.a, 43);
}

#[test]
pub fn adc_adc_adds_carry_value_when_carry_flag_is_set() {
    let mut cpu = a42();
    cpu.flags.set(Flags::CARRY());
    adc::exec(&mut cpu, Operand::Immediate(1)).unwrap();
    assert_eq!(cpu.registers.a, 44);
}

#[test]
pub fn adc_adc_sets_flags_when_overflow() {
    let mut cpu = a42();
    adc::exec(&mut cpu, Operand::Immediate(255)).unwrap();
    assert_eq!(cpu.registers.a, 41);
    assert_eq!(cpu.flags, Flags::CARRY() | Flags::RESERVED());
}

#[test]
pub fn adc_does_regular_addition_when_bcd_disabled_even_when_bcd_flag_set() {
    let mut cpu = Mos6502::without_bcd(EmptyMemory);
    cpu.flags.set(Flags::BCD());
    cpu.registers.a = 0xA0;
    adc::exec(&mut cpu, Operand::Immediate(0x0A)).unwrap();
    assert_eq!(0xAA, cpu.registers.a);
}

#[test]
pub fn adc_adds_bcd_when_bcd_flag_set() {
    let mut cpu = Mos6502::new(EmptyMemory);
    cpu.flags.set(Flags::BCD());
    cpu.registers.a = 0x25;
    adc::exec(&mut cpu, Operand::Immediate(0x24)).unwrap();
    assert_eq!(0x49, cpu.registers.a);
}

#[test]
pub fn adc_sets_carry_when_bcd_addition_overflows() {
    let mut cpu = Mos6502::new(EmptyMemory);
    cpu.flags.set(Flags::BCD());
    cpu.registers.a = 0x90;
    adc::exec(&mut cpu, Operand::Immediate(0x12)).unwrap();
    assert_eq!(0x02, cpu.registers.a);
    assert!(cpu.flags.intersects(Flags::CARRY()));
}

#[test]
pub fn adc_sets_overflow_when_bit_7_of_a_changes() {
    let mut cpu = Mos6502::new(EmptyMemory);
    cpu.registers.a = 0x7F;
    adc::exec(&mut cpu, Operand::Immediate(1)).unwrap();
    assert_eq!(0x80, cpu.registers.a);
    assert_eq!(Flags::OVERFLOW() | Flags::SIGN() | Flags::RESERVED(), cpu.flags);
}

// AND and XAA

#[test]
pub fn and_and_ands_value_with_accumulator() {
    let mut cpu = a42();
    and::exec(&mut cpu, Operand::Immediate(24), false).unwrap();
    assert_eq!(cpu.registers.a, 42 & 24);
}

#[test]
pub fn and_and_sets_zero_flag_if_result_is_zero() {
    let mut cpu = a42();
    and::exec(&mut cpu, Operand::Immediate(0), false).unwrap();
    assert_eq!(cpu.registers.a, 0);
    assert_eq!(cpu.flags, Flags::ZERO() | Flags::RESERVED());
}

#[test]
pub fn and_and_sets_sign_flag_if_result_has_bit_7_set() {
    let mut cpu = a42();
    cpu.registers.a = 0xFF;
    and::exec(&mut cpu, Operand::Immediate(0xFF), false).unwrap();
    assert_eq!(cpu.registers.a, 0xFF);
    assert_eq!(cpu.flags, Flags::SIGN() | Flags::RESERVED());
}

#[test]
pub fn and_and_sets_carry_flag_if_with_carry_true_and_bit_7_set() {
    let mut cpu = a42();
    cpu.registers.a = 0xFF;
    and::exec(&mut cpu, Operand::Immediate(0xFF), true).unwrap();
    assert_eq!(cpu.registers.a, 0xFF);
    assert_eq!(cpu.flags, Flags::SIGN() | Flags::RESERVED() | Flags::CARRY());
}

#[test]
pub fn and_and_does_not_set_carry_flag_if_with_carry_true_and_bit_7_not_set() {
    let mut cpu = a42();
    and::exec(&mut cpu, Operand::Immediate(0), true).unwrap();
    assert_eq!(cpu.registers.a, 0);
    assert_eq!(cpu.flags, Flags::ZERO() | Flags::RESERVED());
}

#[test]
pub fn xaa_ands_value_with_x_and_stores_in_a() {
    let mut cpu = Mos6502::new(EmptyMemory);
    cpu.registers.x = 42;
    and::xaa(&mut cpu, Operand::Immediate(24)).unwrap();
    assert_eq!(cpu.registers.a, 42 & 24);
}

#[test]
pub fn xaa_sets_zero_flag_if_result_is_zero() {
    let mut cpu = Mos6502::new(EmptyMemory);
    cpu.registers.x = 42;
    and::xaa(&mut cpu, Operand::Immediate(0)).unwrap();
    assert_eq!(cpu.registers.a, 0);
    assert_eq!(cpu.flags, Flags::ZERO() | Flags::RESERVED());
}

#[test]
pub fn xaa_sets_sign_flag_if_result_has_bit_7_set() {
    let mut cpu = Mos6502::new(EmptyMemory);
    cpu.registers.x = 0xFF;
    and::xaa(&mut cpu, Operand::Immediate(0xFF)).unwrap();
    assert_eq!(cpu.registers.a, 0xFF);
    assert_eq!(cpu.flags, Flags::SIGN() | Flags::RESERVED());
}

// ASL

#[test]
pub fn asl_shifts_value_left() {
    let mut cpu = Mos6502::new(VirtualMemory::new());
    cpu.registers.a = 0x0F;
    asl::exec(&mut cpu, Operand::Accumulator).unwrap();
    assert_eq!(cpu.registers.a, 0x1E);
}

#[test]
pub fn asl_sets_carry_if_bit_7_is_set_before_shifting() {
    let mut cpu = Mos6502::new(VirtualMemory::new());
    cpu.registers.a = 0x81;
    asl::exec(&mut cpu, Operand::Accumulator).unwrap();
    assert_eq!(cpu.registers.a, 0x02);
    assert_eq!(cpu.flags, Flags::CARRY() | Flags::RESERVED());
}

#[test]
pub fn asl_sets_sign_if_bit_7_is_set_after_shifting() {
    let mut cpu = Mos6502::new(VirtualMemory::new());
    cpu.registers.a = 0x40;
    asl::exec(&mut cpu, Operand::Accumulator).unwrap();
    assert_eq!(cpu.registers.a, 0x80);
    assert_eq!(cpu.flags, Flags::SIGN() | Flags::RESERVED());
}

#[test]
pub fn asl_sets_zero_if_value_is_zero_after_shifting() {
    let mut cpu = Mos6502::new(VirtualMemory::new());
    cpu.registers.a = 0x00;
    asl::exec(&mut cpu, Operand::Accumulator).unwrap();
    assert_eq!(cpu.registers.a, 0x00);
    assert_eq!(cpu.flags, Flags::ZERO() | Flags::RESERVED());
}

// BIT

fn bit_cpu(a: u8) -> Mos6502<EmptyMemory> {
    let mut cpu = Mos6502::new(EmptyMemory);
    cpu.pc.set(0xABCD);
    cpu.registers.a = a;
    cpu
}

#[test]
pub fn bit_sets_sign_bit_if_bit_7_of_operand_is_set() {
    let mut cpu = bit_cpu(0xFF);
    bit::exec(&mut cpu, Operand::Immediate(0x80)).unwrap();
    assert_eq!(cpu.flags, Flags::SIGN() | Flags::RESERVED());
}

#[test]
pub fn bit_clears_sign_bit_if_bit_7_of_operand_is_not_set() {
    let mut cpu = bit_cpu(0xFF);
    cpu.flags.set(Flags::SIGN() | Flags::RESERVED());
    bit::exec(&mut cpu, Operand::Immediate(0x01)).unwrap();
    assert_eq!(cpu.flags, Flags::RESERVED());
}

#[test]
pub fn bit_sets_overflow_bit_if_bit_6_of_operand_is_set() {
    let mut cpu = bit_cpu(0xFF);
    bit::exec(&mut cpu, Operand::Immediate(0x40)).unwrap();
    assert_eq!(cpu.flags, Flags::OVERFLOW() | Flags::RESERVED());
}

#[test]
pub fn bit_clears_overflow_bit_if_bit_6_of_operand_is_not_set() {
    let mut cpu = bit_cpu(0xFF);
    cpu.flags.set(Flags::OVERFLOW() | Flags::RESERVED());
    bit::exec(&mut cpu, Operand::Immediate(0x01)).unwrap();
    assert_eq!(cpu.flags, Flags::RESERVED());
}

#[test]
pub fn bit_sets_zero_flag_if_result_of_masking_operand_with_a_is_zero() {
    let mut cpu = bit_cpu(0x02);
    bit::exec(&mut cpu, Operand::Immediate(0x01)).unwrap();
    assert_eq!(cpu.flags, Flags::ZERO() | Flags::RESERVED());
}

#[test]
pub fn bit_clears_zero_flag_if_result_of_masking_operand_with_a_is_nonzero() {
    let mut cpu = bit_cpu(0x02);
    cpu.flags.set(Flags::ZERO() | Flags::RESERVED());
    bit::exec(&mut cpu, Operand::Immediate(0x03)).unwrap();
    assert_eq!(cpu.flags, Flags::RESERVED());
}

// Branches

fn branch_cpu() -> Mos6502<EmptyMemory> {
    let mut cpu = Mos6502::new(EmptyMemory);
    cpu.pc.set(0xABCD);
    cpu
}

#[test]
pub fn branch_if_clear_does_not_modify_pc_if_flag_set() {
    let mut cpu = branch_cpu();
    cpu.flags.set(Flags::CARRY() | Flags::SIGN());
    branch::if_clear(&mut cpu, Operand::Offset(1), Flags::CARRY()).unwrap();
    assert_eq!(cpu.pc.get(), 0xABCD);
}

#[test]
pub fn branch_if_clear_advances_pc_by_specified_amount_if_flag_clear() {
    let mut cpu = branch_cpu();
    branch::if_clear(&mut cpu, Operand::Offset(1), Flags::CARRY()).unwrap();
    assert_eq!(cpu.pc.get(), 0xABCE);
}

#[test]
pub fn branch_if_set_does_not_modify_pc_if_flag_clear() {
    let mut cpu = branch_cpu();
    branch::if_set(&mut cpu, Operand::Offset(1), Flags::CARRY()).unwrap();
    assert_eq!(cpu.pc.get(), 0xABCD);
}

#[test]
pub fn branch_if_set_advances_pc_by_specified_amount_if_flag_set() {
    let mut cpu = branch_cpu();
    cpu.flags.set(Flags::CARRY() | Flags::SIGN());
    branch::if_set(&mut cpu, Operand::Offset(1), Flags::CARRY()).unwrap();
    assert_eq!(cpu.pc.get(), 0xABCE);
}

#[test]
pub fn branch_charges_one_cycle_on_the_same_page_and_two_across_pages() {
    let mut cpu = branch_cpu();
    branch::if_clear(&mut cpu, Operand::Offset(2), Flags::CARRY()).unwrap();
    assert_eq!(1, cpu.clock.get());
    branch::if_clear(&mut cpu, Operand::Offset(-0x80), Flags::CARRY()).unwrap();
    assert_eq!(0xAB4F, cpu.pc.get());
    assert_eq!(2, cpu.clock.get());
    branch::if_clear(&mut cpu, Operand::Offset(-0x50), Flags::CARRY()).unwrap();
    assert_eq!(0xAAFF, cpu.pc.get());
    assert_eq!(4, cpu.clock.get());
}

#[test]
pub fn branch_wraps_around_the_address_space() {
    let mut cpu = Mos6502::new(EmptyMemory);
    cpu.pc.set(0x0002);
    branch::if_set(&mut cpu, Operand::Offset(-3), Flags::NONE()).unwrap();
    assert_eq!(0xFFFF, cpu.pc.get());
}

#[test]
pub fn branch_rejects_an_operand_that_is_not_an_offset() {
    let mut cpu = branch_cpu();
    assert_eq!(Err(emulator::ExecError::IllegalOperand), branch::if_set(&mut cpu, Operand::Immediate(1), Flags::NONE()));
}

// BRK

fn brk_cpu() -> Mos6502<VirtualMemory> {
    let base_memory = FixedMemory::new(32);
    let stack_memory = FixedMemory::new(32);
    let vector_memory = FixedMemory::new(6);
    let mut vm = VirtualMemory::new();
    vm.attach(0, base_memory).unwrap();
    vm.attach(STACK_START, stack_memory).unwrap();
    vm.attach(0xFFFA, vector_memory).unwrap();
    vm.set_le_u16(0xFFFE, 0xBEEF).unwrap();
    let mut cpu = Mos6502::new(vm);
    cpu.registers.a = 42;
    cpu.registers.sp = 16;
    cpu.pc.set(0xABCD);
    cpu
}

#[test]
pub fn brk_increments_and_pushes_pc_on_to_stack() {
    let mut cpu = brk_cpu();
    brk::exec(&mut cpu).unwrap();
    assert_eq!(Ok(0xAB), cpu.mem.get_u8(STACK_START + 16));
    assert_eq!(Ok(0xCE), cpu.mem.get_u8(STACK_START + 15));
}

#[test]
pub fn brk_sets_break_flag_and_pushes_flags_on_to_stack() {
    let mut cpu = brk_cpu();
    let flags = Flags::SIGN() | Flags::OVERFLOW() | Flags::RESERVED();
    cpu.flags.set(flags);
    brk::exec(&mut cpu).unwrap();
    assert_eq!(Ok((flags | Flags::BREAK()).bits), cpu.mem.get_u8(STACK_START + 14));
}

#[test]
pub fn brk_does_not_set_break_flag_on_current_flags() {
    let mut cpu = brk_cpu();
    let flags = Flags::SIGN() | Flags::OVERFLOW() | Flags::RESERVED();
    cpu.flags.set(flags);
    brk::exec(&mut cpu).unwrap();
    assert_eq!(flags, cpu.flags);
}

#[test]
pub fn brk_sets_pc_to_address_at_vector() {
    let mut cpu = brk_cpu();
    brk::exec(&mut cpu).unwrap();
    assert_eq!(0xBEEF, cpu.pc.get());
}

// Flag instructions

#[test]
pub fn clear_flag_clears_flag() {
    let mut cpu = Mos6502::new(EmptyMemory);
    cpu.pc.set(0xABCD);
    cpu.flags.set(Flags::CARRY() | Flags::SIGN());
    clear_flag::exec(&mut cpu, Flags::CARRY()).unwrap();
    assert!(!cpu.flags.intersects(Flags::CARRY()));
    assert!(cpu.flags.intersects(Flags::SIGN()));
}

#[test]
pub fn set_flag_set_flag_sets_flag() {
    let mut cpu = Mos6502::new(VirtualMemory::new());
    cpu.pc.set(0xABCD);
    cpu.flags.set(Flags::SIGN());
    set_flag::exec(&mut cpu, Flags::CARRY()).unwrap();
    assert!(cpu.flags.intersects(Flags::CARRY()));
    assert!(cpu.flags.intersects(Flags::SIGN()));
}

// Compare

fn compare_cpu() -> Mos6502<EmptyMemory> {
    let mut cpu = Mos6502::new(EmptyMemory);
    cpu.pc.set(0xABCD);
    cpu.registers.a = 42;
    cpu
}

#[test]
pub fn compare_compare_sets_sign_bit_if_operand_greater_than_a() {
    let mut cpu = compare_cpu();
    compare::exec(&mut cpu, RegisterName::A, Operand::Immediate(43)).unwrap();
    assert!(cpu.flags.intersects(Flags::SIGN()));
}

#[test]
pub fn compare_compare_clears_sign_bit_if_operand_less_than_a() {
    let mut cpu = compare_cpu();
    cpu.flags.set(Flags::SIGN());
    compare::exec(&mut cpu, RegisterName::A, Operand::Immediate(41)).unwrap();
    assert!(!cpu.flags.intersects(Flags::SIGN()));
}

#[test]
pub fn compare_compare_sets_carry_bit_if_a_greater_than_operand() {
    let mut cpu = compare_cpu();
    compare::exec(&mut cpu, RegisterName::A, Operand::Immediate(41)).unwrap();
    assert!(cpu.flags.intersects(Flags::CARRY()));
}

#[test]
pub fn compare_compare_sets_carry_bit_if_a_equal_to_operand() {
    let mut cpu = compare_cpu();
    compare::exec(&mut cpu, RegisterName::A, Operand::Immediate(42)).unwrap();
    assert!(cpu.flags.intersects(Flags::CARRY()));
}

#[test]
pub fn compare_compare_clears_carry_bit_if_a_less_than_operand() {
    let mut cpu = compare_cpu();
    cpu.flags.set(Flags::CARRY());
    compare::exec(&mut cpu, RegisterName::A, Operand::Immediate(43)).unwrap();
    assert!(!cpu.flags.intersects(Flags::CARRY()));
}

#[test]
pub fn compare_compare_sets_zero_bit_if_a_equal_to_operand() {
    let mut cpu = compare_cpu();
    compare::exec(&mut cpu, RegisterName::A, Operand::Immediate(42)).unwrap();
    assert!(cpu.flags.intersects(Flags::ZERO()));
}

#[test]
pub fn compare_compare_clears_zero_bit_if_a_less_than_operand() {
    let mut cpu = compare_cpu();
    cpu.flags.set(Flags::ZERO());
    compare::exec(&mut cpu, RegisterName::A, Operand::Immediate(43)).unwrap();
    assert!(!cpu.flags.intersects(Flags::ZERO()));
}

#[test]
pub fn compare_compare_clears_zero_bit_if_a_greater_than_operand() {
    let mut cpu = compare_cpu();
    cpu.flags.set(Flags::ZERO());
    compare::exec(&mut cpu, RegisterName::A, Operand::Immediate(41)).unwrap();
    assert!(!cpu.flags.intersects(Flags::ZERO()));
}

// INC

#[test]
fn inc_inc_sets_sign_flag_if_new_value_is_negative() {
    let mut cpu = base_cpu();
    cpu.mem.set_u8(0, 127u8).unwrap();
    inc::mem(&mut cpu, Operand::Absolute(0)).unwrap();
    assert!(cpu.flags.intersects(Flags::SIGN()));
}

#[test]
fn inc_inc_clears_sign_flag_if_new_value_is_not_negative() {
    let mut cpu = base_cpu();
    cpu.flags.set(Flags::SIGN());
    cpu.mem.set_u8(0, -1i8 as u8).unwrap();
    inc::mem(&mut cpu, Operand::Absolute(0)).unwrap();
    assert!(!cpu.flags.intersects(Flags::SIGN()));
}

#[test]
fn inc_inc_sets_zero_flag_if_new_value_is_zero() {
    let mut cpu = base_cpu();
    cpu.mem.set_u8(0, -1i8 as u8).unwrap();
    inc::mem(&mut cpu, Operand::Absolute(0)).unwrap();
    assert!(cpu.flags.intersects(Flags::ZERO()));
}

#[test]
fn inc_inc_clears_zero_flag_if_new_value_is_nonzero() {
    let mut cpu = base_cpu();
    cpu.flags.set(Flags::ZERO());
    cpu.mem.set_u8(0, 0).unwrap();
    inc::mem(&mut cpu, Operand::Absolute(0)).unwrap();
    assert!(!cpu.flags.intersects(Flags::ZERO()));
}

#[test]
fn inc_inc_sets_operand_to_original_value_plus_one() {
    let mut cpu = base_cpu();
    cpu.mem.set_u8(0, 42).unwrap();
    inc::mem(&mut cpu, Operand::Absolute(0)).unwrap();
    assert_eq!(Ok(43), cpu.mem.get_u8(0));
}

#[test]
fn inc_reg_wraps_around_and_sets_zero() {
    let mut cpu = Mos6502::new(EmptyMemory);
    cpu.registers.x = 0xFF;
    inc::reg(&mut cpu, RegisterName::X).unwrap();
    assert_eq!(0, cpu.registers.x);
    assert_eq!(Flags::ZERO() | Flags::RESERVED(), cpu.flags);
}

#[test]
fn dec_reg_wraps_around_and_sets_sign() {
    let mut cpu = Mos6502::new(EmptyMemory);
    emulator::exec::dec::reg(&mut cpu, RegisterName::Y).unwrap();
    assert_eq!(0xFF, cpu.registers.y);
    assert_eq!(Flags::SIGN() | Flags::RESERVED(), cpu.flags);
}

#[test]
fn dec_mem_decrements_memory() {
    let mut cpu = base_cpu();
    cpu.mem.set_u8(3, 1).unwrap();
    emulator::exec::dec::mem(&mut cpu, Operand::Absolute(3)).unwrap();
    assert_eq!(Ok(0), cpu.mem.get_u8(3));
    assert!(cpu.flags.intersects(Flags::ZERO()));
}

// JMP and JSR

#[test]
pub fn jmp_sets_pc_to_address_if_absolute_argument() {
    let mut cpu = Mos6502::new(VirtualMemory::new());
    jmp::exec(&mut cpu, Operand::Absolute(0xBEEF)).unwrap();
    assert_eq!(0xBEEF, cpu.pc.get());
}

#[test]
pub fn jmp_sets_pc_to_value_at_address_if_indirect_argument() {
    let mut vm = VirtualMemory::new();
    let mut mem = FixedMemory::new(10);
    mem.set_le_u16(5, 0xBEEF).unwrap();
    vm.attach(0, mem).unwrap();
    let mut cpu = Mos6502::new(vm);
    jmp::exec(&mut cpu, Operand::Indirect(5)).unwrap();
    assert_eq!(0xBEEF, cpu.pc.get());
}

fn jsr_cpu() -> Mos6502<VirtualMemory> {
    let mut cpu = stack_cpu();
    cpu.registers.a = 42;
    cpu.pc.set(0xABCD);
    cpu
}

#[test]
pub fn jsr_jsr_sets_pc_to_address() {
    let mut cpu = jsr_cpu();
    jsr::exec(&mut cpu, Operand::Absolute(0xBEEF)).unwrap();
    assert_eq!(0xBEEF, cpu.pc.get());
}

#[test]
pub fn jsr_jsr_pushes_old_pc_minus_one_to_stack() {
    let mut cpu = jsr_cpu();
    jsr::exec(&mut cpu, Operand::Absolute(0xBEEF)).unwrap();
    assert_eq!(Ok(0xCC), cpu.pull());
    assert_eq!(Ok(0xAB), cpu.pull());
}

#[test]
pub fn rts_after_jsr_returns_past_the_call() {
    let mut cpu = jsr_cpu();
    jsr::exec(&mut cpu, Operand::Absolute(0xBEEF)).unwrap();
    ret::from_sub(&mut cpu).unwrap();
    assert_eq!(0xABCD, cpu.pc.get());
    assert_eq!(16, cpu.registers.sp);
}

// Loads

#[test]
pub fn load_sets_register_to_operand_value() {
    let mut cpu = Mos6502::new(VirtualMemory::new());
    load::exec(&mut cpu, RegisterName::A, Operand::Immediate(42)).unwrap();
    assert_eq!(42, cpu.registers.a);
}

#[test]
fn load_sets_sign_flag_if_new_value_is_negative() {
    let mut cpu = Mos6502::new(VirtualMemory::new());
    load::exec(&mut cpu, RegisterName::A, Operand::Immediate(-10i8 as u8)).unwrap();
    assert!(cpu.flags.intersects(Flags::SIGN()));
}

#[test]
fn load_clears_sign_flag_if_new_value_is_not_negative() {
    let mut cpu = Mos6502::new(VirtualMemory::new());
    cpu.flags.set(Flags::SIGN());
    load::exec(&mut cpu, RegisterName::A, Operand::Immediate(0)).unwrap();
    assert!(!cpu.flags.intersects(Flags::SIGN()));
}

#[test]
fn load_sets_zero_flag_if_new_value_is_zero() {
    let mut cpu = Mos6502::new(VirtualMemory::new());
    load::exec(&mut cpu, RegisterName::A, Operand::Immediate(0)).unwrap();
    assert!(cpu.flags.intersects(Flags::ZERO()));
}

#[test]
fn load_clears_zero_flag_if_new_value_is_nonzero() {
    let mut cpu = Mos6502::new(VirtualMemory::new());
    cpu.flags.set(Flags::ZERO());
    load::exec(&mut cpu, RegisterName::A, Operand::Immediate(10)).unwrap();
    assert!(!cpu.flags.intersects(Flags::ZERO()));
}

#[test]
fn las_loads_a_x_and_sp_with_operand_and_current_sp() {
    let mut cpu = Mos6502::new(VirtualMemory::new());
    cpu.registers.sp = 0x3C;
    load::las(&mut cpu, Operand::Immediate(0xF0)).unwrap();
    assert_eq!(0x30, cpu.registers.a);
    assert_eq!(0x30, cpu.registers.x);
    assert_eq!(0x30, cpu.registers.sp);
}

#[test]
fn las_sets_sign_flag_if_new_value_is_negative() {
    let mut cpu = Mos6502::new(VirtualMemory::new());
    cpu.registers.sp = 0xF0;
    load::las(&mut cpu, Operand::Immediate(0xF0)).unwrap();
    assert_eq!(Flags::SIGN() | Flags::RESERVED(), cpu.flags);
}

#[test]
fn las_clears_sign_flag_if_new_value_is_non_negative() {
    let mut cpu = Mos6502::new(VirtualMemory::new());
    cpu.flags.set(Flags::SIGN());
    cpu.registers.sp = 0x70;
    load::las(&mut cpu, Operand::Immediate(0xF0)).unwrap();
    assert_eq!(Flags::RESERVED(), cpu.flags);
}

#[test]
fn las_sets_zero_flag_if_new_value_is_zero() {
    let mut cpu = Mos6502::new(VirtualMemory::new());
    cpu.registers.sp = 0xF0;
    load::las(&mut cpu, Operand::Immediate(0x0F)).unwrap();
    assert_eq!(Flags::ZERO() | Flags::RESERVED(), cpu.flags);
}

#[test]
fn las_clears_zero_flag_if_new_value_is_non_zero() {
    let mut cpu = Mos6502::new(VirtualMemory::new());
    cpu.flags.set(Flags::ZERO());
    cpu.registers.sp = 0x70;
    load::las(&mut cpu, Operand::Immediate(0xF0)).unwrap();
    assert_eq!(Flags::RESERVED(), cpu.flags);
}

// LSR

#[test]
pub fn lsr_lsr_clears_sign_flag() {
    let mut cpu = Mos6502::new(EmptyMemory);
    cpu.flags.set(Flags::SIGN() | Flags::ZERO() | Flags::CARRY());
    lsr::exec(&mut cpu, Operand::Accumulator).unwrap();
    assert!(!cpu.flags.intersects(Flags::SIGN()));
}

#[test]
pub fn lsr_lsr_sets_carry_flag_if_first_bit_of_operand_is_one() {
    let mut cpu = Mos6502::new(EmptyMemory);
    cpu.flags.set(Flags::SIGN() | Flags::ZERO());
    cpu.registers.a = 0b10101011;
    lsr::exec(&mut cpu, Operand::Accumulator).unwrap();
    assert!(cpu.flags.intersects(Flags::CARRY()));
}

#[test]
pub fn lsr_lsr_clears_carry_flag_if_first_bit_of_operand_is_zero() {
    let mut cpu = Mos6502::new(EmptyMemory);
    cpu.flags.set(Flags::SIGN() | Flags::ZERO() | Flags::CARRY());
    cpu.registers.a = 0b10101010;
    lsr::exec(&mut cpu, Operand::Accumulator).unwrap();
    assert!(!cpu.flags.intersects(Flags::CARRY()));
}

#[test]
pub fn lsr_lsr_clears_zero_flag_if_result_is_non_zero() {
    let mut cpu = Mos6502::new(EmptyMemory);
    cpu.flags.set(Flags::SIGN() | Flags::ZERO() | Flags::CARRY());
    cpu.registers.a = 0b10101010;
    lsr::exec(&mut cpu, Operand::Accumulator).unwrap();
    assert!(!cpu.flags.intersects(Flags::ZERO()));
}

#[test]
pub fn lsr_lsr_sets_zero_flag_if_result_is_zero() {
    let mut cpu = Mos6502::new(EmptyMemory);
    cpu.flags.set(Flags::SIGN() | Flags::CARRY());
    cpu.registers.a = 0b00000000;
    lsr::exec(&mut cpu, Operand::Accumulator).unwrap();
    assert!(cpu.flags.intersects(Flags::ZERO()));
}

#[test]
pub fn lsr_lsr_performs_logical_right_shift_and_stores_result() {
    let mut cpu = Mos6502::new(EmptyMemory);
    cpu.registers.a = 0b10101010;
    lsr::exec(&mut cpu, Operand::Accumulator).unwrap();
    assert_eq!(0b01010101, cpu.registers.a);
}

// ORA

#[test]
fn ora_sets_sign_bit_if_result_is_negative() {
    let mut cpu = base_cpu();
    cpu.mem.set_u8(0, 0b11111000).unwrap();
    cpu.registers.a = 0b00001111;
    ora::exec(&mut cpu, Operand::Absolute(0)).unwrap();
    assert!(cpu.flags.intersects(Flags::SIGN()));
}

#[test]
fn ora_sets_zero_bit_if_result_is_zero() {
    let mut cpu = base_cpu();
    cpu.mem.set_u8(0, 0b00000000).unwrap();
    cpu.registers.a = 0b00000000;
    ora::exec(&mut cpu, Operand::Absolute(0)).unwrap();
    assert!(cpu.flags.intersects(Flags::ZERO()));
}

#[test]
fn ora_sets_a_to_result_of_or() {
    let mut cpu = base_cpu();
    cpu.mem.set_u8(0, 0b11111000).unwrap();
    cpu.registers.a = 0b00001111;
    ora::exec(&mut cpu, Operand::Absolute(0)).unwrap();
    assert_eq!(0b11111111, cpu.registers.a);
}

#[test]
fn eor_sets_a_to_result_of_xor() {
    let mut cpu = Mos6502::new(EmptyMemory);
    cpu.registers.a = 0b1100_1100;
    emulator::exec::eor::exec(&mut cpu, Operand::Immediate(0b1010_1010)).unwrap();
    assert_eq!(0b0110_0110, cpu.registers.a);
    assert_eq!(Flags::RESERVED(), cpu.flags);
}

// Pull and push

#[test]
pub fn pull_pull_puts_register_value_on_top_of_stack() {
    let mut cpu = stack_cpu();
    cpu.push(42).unwrap();
    pull::exec(&mut cpu, RegisterName::A).unwrap();
    assert_eq!(42, cpu.registers.a);
}

#[test]
pub fn pull_pull_clears_sign_flag_if_incoming_value_non_negative() {
    let mut cpu = stack_cpu();
    cpu.flags.set(Flags::SIGN());
    cpu.push(42).unwrap();
    pull::exec(&mut cpu, RegisterName::A).unwrap();
    assert!(!cpu.flags.intersects(Flags::SIGN()));
}

#[test]
pub fn pull_pull_sets_sign_flag_if_incoming_value_negative() {
    let mut cpu = stack_cpu();
    cpu.push(0xFF).unwrap();
    pull::exec(&mut cpu, RegisterName::A).unwrap();
    assert!(cpu.flags.intersects(Flags::SIGN()));
}

#[test]
pub fn pull_pull_clears_zero_flag_if_incoming_value_non_zero() {
    let mut cpu = stack_cpu();
    cpu.flags.set(Flags::ZERO());
    cpu.push(42).unwrap();
    pull::exec(&mut cpu, RegisterName::A).unwrap();
    assert!(!cpu.flags.intersects(Flags::ZERO()));
}

#[test]
pub fn pull_pull_sets_zero_flag_if_incoming_value_zero() {
    let mut cpu = stack_cpu();
    cpu.push(0).unwrap();
    pull::exec(&mut cpu, RegisterName::A).unwrap();
    assert!(cpu.flags.intersects(Flags::ZERO()));
}

#[test]
pub fn pull_clears_brk_flag_when_pulling_flags() {
    let mut cpu = stack_cpu();
    cpu.push((Flags::SIGN() | Flags::BREAK()).bits).unwrap();
    pull::exec(&mut cpu, RegisterName::P).unwrap();
    assert_eq!(Flags::SIGN() | Flags::RESERVED(), cpu.flags);
}

#[test]
pub fn push_push_puts_register_value_on_top_of_stack() {
    let mut cpu = stack_cpu();
    cpu.registers.a = 42;
    push::exec(&mut cpu, RegisterName::A).unwrap();
    assert_eq!(Ok(42), cpu.pull());
}

#[test]
pub fn push_sets_brk_flag_when_pushing_flags() {
    let mut cpu = stack_cpu();
    cpu.flags.replace(Flags::SIGN() | Flags::ZERO());
    push::exec(&mut cpu, RegisterName::P).unwrap();
    assert_eq!(Ok(0b10110010), cpu.pull());
}

// Returns

#[test]
pub fn ret_rti_loads_flags_from_stack() {
    let mut cpu = stack_cpu();
    cpu.push(0xAB).unwrap();
    cpu.push(0xCD).unwrap();
    cpu.push(0xEF).unwrap();
    ret::from_interrupt(&mut cpu).unwrap();
    assert_eq!(cpu.flags.bits, 0xEF);
}

#[test]
pub fn ret_rti_loads_pc_from_stack() {
    let mut cpu = stack_cpu();
    cpu.push(0xAB).unwrap();
    cpu.push(0xCD).unwrap();
    cpu.push(0xEF).unwrap();
    ret::from_interrupt(&mut cpu).unwrap();
    assert_eq!(cpu.pc.get(), 0xABCD);
}

#[test]
pub fn ret_rts_loads_pc_from_stack_and_increments_it() {
    let mut cpu = stack_cpu();
    cpu.push(0xAB).unwrap();
    cpu.push(0xCD).unwrap();
    ret::from_sub(&mut cpu).unwrap();
    assert_eq!(cpu.pc.get(), 0xABCE);
}

// Rotations

#[test]
pub fn rotate_rotate_can_rotate_left() {
    let mut cpu = Mos6502::new(EmptyMemory);
    cpu.flags.set(Flags::CARRY());
    cpu.registers.a = 0b01101100;
    rotate::left(&mut cpu, Operand::Accumulator).unwrap();
    assert_eq!(cpu.registers.a, 0b11011001);
    assert!(!cpu.flags.intersects(Flags::CARRY()));
}

#[test]
pub fn rotate_left_puts_leftmost_bit_in_carry_flag() {
    let mut cpu = Mos6502::new(EmptyMemory);
    cpu.registers.a = 0b10000000;
    rotate::left(&mut cpu, Operand::Accumulator).unwrap();
    assert!(cpu.flags.intersects(Flags::CARRY()));
    cpu.registers.a = 0b01111111;
    rotate::left(&mut cpu, Operand::Accumulator).unwrap();
    assert!(!cpu.flags.intersects(Flags::CARRY()));
}

#[test]
pub fn rotate_left_sets_sign_flag_if_value_now_negative() {
    let mut cpu = Mos6502::new(EmptyMemory);
    cpu.registers.a = 0b01111111;
    rotate::left(&mut cpu, Operand::Accumulator).unwrap();
    assert!(cpu.flags.intersects(Flags::SIGN()));
}

#[test]
pub fn rotate_left_sets_zero_flag_if_value_now_zero() {
    let mut cpu = Mos6502::new(EmptyMemory);
    cpu.registers.a = 0b10000000;
    rotate::left(&mut cpu, Operand::Accumulator).unwrap();
    assert!(cpu.flags.intersects(Flags::ZERO()));
}

#[test]
pub fn rotate_can_rotate_right() {
    let mut cpu = Mos6502::new(EmptyMemory);
    cpu.flags.set(Flags::CARRY());
    cpu.registers.a = 0b01101100;
    rotate::right(&mut cpu, Operand::Accumulator).unwrap();
    assert_eq!(cpu.registers.a, 0b10110110);
    assert!(!cpu.flags.intersects(Flags::CARRY()));
}

#[test]
pub fn rotate_right_puts_rightmost_bit_in_carry_flag() {
    let mut cpu = Mos6502::new(EmptyMemory);
    cpu.registers.a = 0b00000001;
    rotate::right(&mut cpu, Operand::Accumulator).unwrap();
    assert!(cpu.flags.intersects(Flags::CARRY()));
    cpu.registers.a = 0b11111110;
    rotate::right(&mut cpu, Operand::Accumulator).unwrap();
    assert!(!cpu.flags.intersects(Flags::CARRY()));
}

#[test]
pub fn rotate_right_sets_sign_flag_if_value_now_negative() {
    let mut cpu = Mos6502::new(EmptyMemory);
    cpu.flags.set(Flags::CARRY());
    cpu.registers.a = 0b00000000;
    rotate::right(&mut cpu, Operand::Accumulator).unwrap();
    assert!(cpu.flags.intersects(Flags::SIGN()));
}

#[test]
pub fn rotate_right_sets_zero_flag_if_value_now_zero() {
    let mut cpu = Mos6502::new(EmptyMemory);
    cpu.registers.a = 0b00000001;
    rotate::right(&mut cpu, Operand::Accumulator).unwrap();
    assert!(cpu.flags.intersects(Flags::ZERO()));
}

// SBC

#[test]
pub fn sbc_sbc_subtracts_regularly_when_carry_set() {
    let mut cpu = a42();
    cpu.flags.set(Flags::CARRY());
    sbc::exec(&mut cpu, Operand::Immediate(1)).unwrap();
    assert_eq!(cpu.registers.a, 41);
}

#[test]
pub fn sbc_sbc_borrows_when_carry_flag_is_not_set() {
    let mut cpu = a42();
    sbc::exec(&mut cpu, Operand::Immediate(1)).unwrap();
    assert_eq!(cpu.registers.a, 40);
}

#[test]
pub fn sbc_sbc_sets_flags_when_overflow() {
    let mut cpu = a42();
    cpu.registers.a = 0x80;
    sbc::exec(&mut cpu, Operand::Immediate(0x00)).unwrap();
    assert_eq!(cpu.registers.a, 0x7F);
    assert_eq!(cpu.flags, Flags::CARRY() | Flags::OVERFLOW() | Flags::RESERVED());
}

#[test]
pub fn sbc_does_regular_subtraction_when_bcd_disabled_even_when_bcd_flag_set() {
    let mut cpu = Mos6502::without_bcd(VirtualMemory::new());
    cpu.flags.set(Flags::BCD() | Flags::CARRY());
    cpu.registers.a = 42;
    sbc::exec(&mut cpu, Operand::Immediate(1)).unwrap();
    assert_eq!(41, cpu.registers.a);
}

#[test]
pub fn sbc_subtracts_bcd_when_bcd_flag_set() {
    let mut cpu = a42();
    cpu.flags.set(Flags::BCD() | Flags::CARRY());
    cpu.registers.a = 0x25;
    sbc::exec(&mut cpu, Operand::Immediate(0x24)).unwrap();
    assert_eq!(0x01, cpu.registers.a);
}

#[test]
pub fn sbc_sets_overflow_when_bcd_subtraction_underflows() {
    let mut cpu = a42();
    cpu.flags.set(Flags::BCD() | Flags::CARRY());
    cpu.registers.a = 0x00;
    sbc::exec(&mut cpu, Operand::Immediate(0x01)).unwrap();
    assert_eq!(0x99, cpu.registers.a);
    assert!(cpu.flags.intersects(Flags::CARRY()));
}

// Stores

#[test]
pub fn store_store_sets_operand_to_register_value() {
    let mut cpu = Mos6502::with_fixed_memory(10);
    cpu.registers.a = 42;
    store::exec(&mut cpu, RegisterName::A, Operand::Absolute(5)).unwrap();
    assert_eq!(Ok(42), cpu.mem.get_u8(5));
}

fn cpu_with_memory_at(base: u64) -> Mos6502<VirtualMemory> {
    let mem = FixedMemory::new(10);
    let mut vm = VirtualMemory::new();
    vm.attach(base, mem).unwrap();
    Mos6502::new(vm)
}

#[test]
pub fn sh_sets_operand_to_register_value_and_high_byte_of_address() {
    let mut cpu = cpu_with_memory_at(0x3C00);
    cpu.registers.x = 0xF0;
    store::sh(&mut cpu, RegisterName::X, Operand::Absolute(0x3C01)).unwrap();
    assert_eq!(Ok(0x30), cpu.mem.get_u8(0x3C01));
}

#[test]
pub fn tas_does_its_crazy_business() {
    let mut cpu = cpu_with_memory_at(0x1C00);
    cpu.registers.a = 0x3F;
    cpu.registers.x = 0xF0;
    store::tas(&mut cpu, Operand::Absolute(0x1C01)).unwrap();
    assert_eq!(0x30, cpu.registers.sp);
    assert_eq!(Ok(0x10), cpu.mem.get_u8(0x1C01));
}

#[test]
pub fn store_ahx_sets_operand_to_a_and_x_and_high_byte_of_address() {
    let mut cpu = cpu_with_memory_at(0x3C00);
    cpu.registers.a = 0x3F;
    cpu.registers.x = 0xF0;
    store::ahx(&mut cpu, Operand::Absolute(0x3C01)).unwrap();
    assert_eq!(Ok(0x30), cpu.mem.get_u8(0x3C01));
}

#[test]
pub fn store_sax_sets_operand_to_a_and_x() {
    let mut cpu = Mos6502::with_fixed_memory(10);
    cpu.registers.a = 0x3F;
    cpu.registers.x = 0xF0;
    store::sax(&mut cpu, Operand::Absolute(5)).unwrap();
    assert_eq!(Ok(0x30), cpu.mem.get_u8(5));
}

#[test]
pub fn store_to_an_immediate_operand_is_refused() {
    let mut cpu = Mos6502::with_fixed_memory(10);
    assert_eq!(
        Err(emulator::ExecError::ErrorRetrievingOperand(emulator::OperandError::ReadOnlyOperand)),
        store::exec(&mut cpu, RegisterName::A, Operand::Immediate(5))
    );
}

// Transfers

#[test]
pub fn transfer_transfer_sets_destination_register_to_source_register_value() {
    let mut cpu = Mos6502::new(VirtualMemory::new());
    cpu.registers.a = 42;
    transfer::exec(&mut cpu, RegisterName::A, RegisterName::X).unwrap();
    assert_eq!(42, cpu.registers.x);
}

#[test]
pub fn transfer_sets_sign_flag_when_value_transferred_is_negative() {
    let mut cpu = Mos6502::new(EmptyMemory);
    cpu.registers.a = 0xFF;
    transfer::exec(&mut cpu, RegisterName::A, RegisterName::X).unwrap();
    assert!(cpu.flags.intersects(Flags::SIGN()));
    assert_eq!(0xFF, cpu.registers.x);
}

#[test]
pub fn transfer_does_not_set_sign_flag_when_transferring_to_sp() {
    let mut cpu = Mos6502::new(EmptyMemory);
    cpu.registers.a = 0xFF;
    transfer::exec(&mut cpu, RegisterName::A, RegisterName::S).unwrap();
    assert!(!cpu.flags.intersects(Flags::SIGN()));
    assert_eq!(0xFF, cpu.registers.sp);
}

#[test]
pub fn transfer_clears_sign_flag_when_value_transferred_is_positive() {
    let mut cpu = Mos6502::new(EmptyMemory);
    cpu.flags.set(Flags::SIGN());
    cpu.registers.a = 0x0F;
    transfer::exec(&mut cpu, RegisterName::A, RegisterName::X).unwrap();
    assert!(!cpu.flags.intersects(Flags::SIGN()));
    assert_eq!(0x0F, cpu.registers.x);
}

#[test]
pub fn transfer_sets_zero_flag_when_value_transferred_is_zero() {
    let mut cpu = Mos6502::new(EmptyMemory);
    cpu.registers.a = 0x00;
    transfer::exec(&mut cpu, RegisterName::A, RegisterName::X).unwrap();
    assert!(cpu.flags.intersects(Flags::ZERO()));
    assert_eq!(0x00, cpu.registers.x);
}

#[test]
pub fn transfer_clears_zero_flag_when_value_transferred_is_non_zero() {
    let mut cpu = Mos6502::new(EmptyMemory);
    cpu.flags.set(Flags::ZERO());
    cpu.registers.a = 0x0F;
    transfer::exec(&mut cpu, RegisterName::A, RegisterName::X).unwrap();
    assert!(!cpu.flags.intersects(Flags::ZERO()));
    assert_eq!(0x0F, cpu.registers.x);
}

#[test]
pub fn transfer_does_not_set_zero_flag_when_transferring_to_sp() {
    let mut cpu = Mos6502::new(EmptyMemory);
    cpu.registers.a = 0x00;
    transfer::exec(&mut cpu, RegisterName::A, RegisterName::S).unwrap();
    assert!(!cpu.flags.intersects(Flags::ZERO()));
    assert_eq!(0x00, cpu.registers.sp);
}
