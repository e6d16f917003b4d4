use emulator::cpu::{Mos6502, RegisterName, STACK_START};
use emulator::flags::Flags;
use emulator::mem::{EmptyMemory, FixedMemory, Memory, VirtualMemory};

fn setup_cpu() -> Mos6502<VirtualMemory> {
    let mem = FixedMemory::new(10);
    let mut vm = VirtualMemory::new();
    vm.attach(STACK_START, mem).unwrap();

    let mut cpu = Mos6502::new(vm);
    cpu.registers.sp = 5;
    cpu
}

#[test]
pub fn push_places_value_at_current_sp_location() {
    let mut cpu = setup_cpu();
    cpu.push(42).unwrap();
    assert_eq!(Ok(42), cpu.mem.get_u8(STACK_START + 5));
}

#[test]
pub fn push_decrements_sp() {
    let mut cpu = setup_cpu();
    cpu.push(42).unwrap();
    assert_eq!(4, cpu.registers.sp);
}

#[test]
pub fn pull_gets_value_at_sp_plus_one() {
    let mut cpu = setup_cpu();
    cpu.mem.set_u8(STACK_START + 6, 24).unwrap();
    assert_eq!(Ok(24), cpu.pull());
}

#[test]
pub fn pull_increments_sp() {
    let mut cpu = setup_cpu();
    cpu.mem.set_u8(STACK_START + 6, 24).unwrap();
    cpu.pull().unwrap();
    assert_eq!(6, cpu.registers.sp);
}

#[test]
pub fn intersects_returns_true_if_all_of_provided_flags_are_set() {
    let f = Flags::CARRY() | Flags::SIGN() | Flags::ZERO();
    assert!(f.intersects(Flags::CARRY() | Flags::SIGN()));
}

#[test]
pub fn intersects_returns_false_if_any_of_provided_flags_are_clear() {
    let f = Flags::CARRY();
    assert!(!f.intersects(Flags::CARRY() | Flags::SIGN()));
}

#[test]
pub fn clear_leaves_flag_clear_if_it_is_already_clear() {
    let mut f = Flags::CARRY();
    f.clear(Flags::SIGN());
    assert!(!f.intersects(Flags::SIGN()));
}

#[test]
pub fn clear_clears_flag_if_it_is_set() {
    let mut f = Flags::CARRY() | Flags::SIGN();
    f.clear(Flags::SIGN());
    assert!(!f.intersects(Flags::SIGN()));
}

#[test]
pub fn set_leaves_flag_set_if_it_is_already_set() {
    let mut f = Flags::CARRY() | Flags::SIGN();
    f.set(Flags::SIGN());
    assert!(f.intersects(Flags::SIGN()));
}

#[test]
pub fn set_sets_flag_if_it_is_clear() {
    let mut f = Flags::CARRY();
    f.set(Flags::SIGN());
    assert!(f.intersects(Flags::SIGN()));
}

#[test]
pub fn replace_sets_flags_to_provided_value_plus_reserved_flag() {
    let mut f = Flags::CARRY() | Flags::SIGN();
    f.replace(Flags::INTERRUPT() | Flags::ZERO());
    assert_eq!(Flags::INTERRUPT() | Flags::ZERO() | Flags::RESERVED(), f);
}

#[test]
pub fn carry_returns_true_if_carry_bit_set() {
    let f = Flags::CARRY();
    assert!(f.carry());
}

#[test]
pub fn carry_returns_false_if_carry_bit_not_set() {
    let f = Flags::SIGN();
    assert!(!f.carry());
}

#[test]
pub fn set_sign_and_zero_sets_zero_flag_if_value_is_zero() {
    let mut r = Flags::NONE();
    r.set_sign_and_zero(0);
    assert_eq!(r, Flags::ZERO() | Flags::RESERVED());
}

#[test]
pub fn set_sign_and_zero_unsets_zero_flag_if_value_is_nonzero() {
    let mut r = Flags::ZERO();
    r.set_sign_and_zero(42);
    assert_eq!(r, Flags::RESERVED());
}

#[test]
pub fn set_sign_and_zero_sets_sign_flag_if_value_is_negative() {
    let mut r = Flags::NONE();
    r.set_sign_and_zero(0xFF);
    assert_eq!(r, Flags::SIGN() | Flags::RESERVED());
}

#[test]
pub fn set_sign_and_zero_unsets_sign_flag_if_value_is_non_negative() {
    let mut r = Flags::SIGN();
    r.set_sign_and_zero(0x7F);
    assert_eq!(r, Flags::RESERVED());
}

#[test]
pub fn set_if_sets_flag_if_condition_true() {
    let mut r = Flags::NONE();
    r.clear(Flags::SIGN());
    r.set_if(Flags::SIGN(), true);
    assert!(r.intersects(Flags::SIGN()));
}

#[test]
pub fn set_if_clears_flag_if_condition_false() {
    let mut r = Flags::NONE();
    r.set(Flags::SIGN());
    r.set_if(Flags::SIGN(), false);
    assert!(!r.intersects(Flags::SIGN()));
}

#[test]
pub fn gets_a() {
    let mut cpu = Mos6502::new(VirtualMemory::new());
    cpu.registers.a = 42;
    assert_eq!(RegisterName::A.get(&cpu), 42);
}

#[test]
pub fn gets_x() {
    let mut cpu = Mos6502::new(VirtualMemory::new());
    cpu.registers.x = 42;
    assert_eq!(RegisterName::X.get(&cpu), 42);
}

#[test]
pub fn gets_y() {
    let mut cpu = Mos6502::new(VirtualMemory::new());
    cpu.registers.y = 42;
    assert_eq!(RegisterName::Y.get(&cpu), 42);
}

#[test]
pub fn gets_p() {
    let mut cpu = Mos6502::new(VirtualMemory::new());
    cpu.flags.set(Flags::SIGN() | Flags::CARRY());
    assert_eq!(RegisterName::P.get(&cpu), cpu.flags.bits);
}

#[test]
pub fn sets_a() {
    let mut cpu = Mos6502::new(VirtualMemory::new());
    RegisterName::A.set(&mut cpu, 42);
    assert_eq!(cpu.registers.a, 42);
}

#[test]
pub fn sets_x() {
    let mut cpu = Mos6502::new(VirtualMemory::new());
    RegisterName::X.set(&mut cpu, 42);
    assert_eq!(cpu.registers.x, 42);
}

#[test]
pub fn sets_y() {
    let mut cpu = Mos6502::new(VirtualMemory::new());
    RegisterName::Y.set(&mut cpu, 42);
    assert_eq!(cpu.registers.y, 42);
}

#[test]
pub fn sets_p() {
    let mut cpu = Mos6502::new(VirtualMemory::new());
    RegisterName::P.set(&mut cpu, (Flags::SIGN() | Flags::CARRY()).bits);
    assert_eq!(Flags::SIGN() | Flags::CARRY() | Flags::RESERVED(), cpu.flags);
}

#[test]
pub fn gets_and_sets_s() {
    let mut cpu = Mos6502::new(EmptyMemory);
    RegisterName::S.set(&mut cpu, 0xFD);
    assert_eq!(cpu.registers.sp, 0xFD);
    assert_eq!(RegisterName::S.get(&cpu), 0xFD);
}

#[test]
pub fn new_cpu_starts_with_only_the_reserved_flag_and_decimal_mode() {
    let cpu = Mos6502::new(EmptyMemory);
    assert_eq!(Flags::RESERVED(), cpu.flags);
    assert_eq!((0, 0, 0, 0), (cpu.registers.a, cpu.registers.x, cpu.registers.y, cpu.registers.sp));
    assert_eq!(0, cpu.pc.get());
    assert_eq!(0, cpu.clock.get());
    assert!(cpu.bcd_enabled);
    assert!(!Mos6502::without_bcd(EmptyMemory).bcd_enabled);
}

#[test]
pub fn push_fails_without_changing_sp_when_the_stack_is_unmapped() {
    let mut cpu = Mos6502::new(EmptyMemory);
    cpu.registers.sp = 5;
    assert!(cpu.push(42).is_err());
    assert_eq!(5, cpu.registers.sp);
}

#[test]
pub fn pull_returns_what_push_stored() {
    let mut cpu = setup_cpu();
    cpu.push(0x99).unwrap();
    assert_eq!(Ok(0x99), cpu.pull());
    assert_eq!(5, cpu.registers.sp);
}

#[test]
pub fn with_fixed_memory_gives_zeroed_memory() {
    let cpu = Mos6502::with_fixed_memory(4);
    assert_eq!(4, cpu.mem.len());
    assert_eq!(Ok(0), cpu.mem.get_u8(3));
    assert!(cpu.mem.get_u8(4).is_err());
}

#[test]
pub fn flag_operators_combine_bits() {
    assert_eq!(0b1100_0011, Flags::ARITHMETIC().bits);
    assert_eq!(Flags::SIGN() | Flags::OVERFLOW() | Flags::ZERO() | Flags::CARRY(), Flags::ARITHMETIC());
    assert_eq!(Flags::CARRY(), Flags::ARITHMETIC() & Flags::CARRY());
    assert_eq!(Flags::new(0b0011_1100), !Flags::ARITHMETIC());
    assert_eq!(0, Flags::NONE().bits);
    assert_eq!(0b0001_0000, Flags::BREAK().bits);
    assert_eq!(0b0000_1000, Flags::BCD().bits);
}

#[test]
pub fn set_if_returns_its_condition() {
    let mut f = Flags::NONE();
    assert!(f.set_if(Flags::CARRY(), true));
    assert!(!f.set_if(Flags::ZERO(), false));
    assert_eq!(Flags::CARRY() | Flags::RESERVED(), f);
}
