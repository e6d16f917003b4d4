use vstd::prelude::*;
use crate::cpu::{reg_value, CpuView, Mos6502, RegisterName};
use crate::exec::{operand_addr, resumed, write_operand, ExecError, ExecResult};
use crate::mem::Memory;
use crate::operand::Operand;

verus! {

/// What STA, STX and STY do: the register's value is written to the operand,
/// with the clock suspended
pub open spec fn store_spec(s: CpuView, reg: RegisterName, op: Operand) -> (CpuView, ExecResult) {
    resumed(s, write_operand(s.with_suspended(true), op, reg_value(s, reg)))
}

/// What AHX does: A & X & H is written to the operand, where H is the high
/// byte of its address
pub open spec fn ahx_spec(s: CpuView, op: Operand) -> (CpuView, ExecResult) {
    let (s1, r) = operand_addr(s, op);
    match r {
        Err(e) => (s1, Err(e)),
        Ok(addr) => write_operand(s1, op, s1.a & s1.x & ((addr / 256) as u8)),
    }
}

/// What SAX does: A & X is written to the operand
pub open spec fn sax_spec(s: CpuView, op: Operand) -> (CpuView, ExecResult) {
    write_operand(s, op, s.a & s.x)
}

/// What SHX and SHY do: R & H is written to the operand, where H is the high
/// byte of its address
pub open spec fn sh_spec(s: CpuView, reg: RegisterName, op: Operand) -> (CpuView, ExecResult) {
    let (s1, r) = operand_addr(s, op);
    match r {
        Err(e) => (s1, Err(e)),
        Ok(addr) => write_operand(s1, op, reg_value(s1, reg) & ((addr / 256) as u8)),
    }
}

/// What TAS does: the stack pointer takes A & X, then A & X & H is written to
/// the operand, where H is the high byte of its address
pub open spec fn tas_spec(s: CpuView, op: Operand) -> (CpuView, ExecResult) {
    let val = s.a & s.x;
    let (s1, r) = operand_addr(s.with_sp(val), op);
    match r {
        Err(e) => (s1, Err(e)),
        Ok(addr) => write_operand(s1, op, val & ((addr / 256) as u8)),
    }
}

pub fn exec<M: Memory>(cpu: &mut Mos6502<M>, reg: RegisterName, op: Operand) -> (r: ExecResult)
    requires
        old(cpu)@.room(1),
    ensures
        (final(cpu)@, r) == store_spec(old(cpu)@, reg, op),
{
    let was_suspended = cpu.clock.suspend();
    let val = reg.get(cpu);
    let r = match op.set_u8(cpu, val) {
        Ok(()) => Ok(()),
        Err(e) => Err(ExecError::from(e)),
    };
    cpu.clock.restore(was_suspended);
    r
}

/// The high byte of the operand's address
fn high_byte_of_addr<M: Memory>(cpu: &mut Mos6502<M>, op: Operand) -> (r: Result<u8, ExecError>)
    requires
        old(cpu)@.room(1),
    ensures
        final(cpu)@ == operand_addr(old(cpu)@, op).0,
        r == match operand_addr(old(cpu)@, op).1 {
            Ok(addr) => Ok((addr / 256) as u8),
            Err(e) => Err::<u8, ExecError>(e),
        },
{
    match op.get_addr(cpu) {
        Ok(addr) => Ok((addr / 256) as u8),
        Err(e) => Err(ExecError::from(e)),
    }
}

/// Writes `val` to the operand, reporting an operand error as an execution error
fn write<M: Memory>(cpu: &mut Mos6502<M>, op: Operand, val: u8) -> (r: ExecResult)
    requires
        old(cpu)@.room(1),
    ensures
        (final(cpu)@, r) == write_operand(old(cpu)@, op, val),
{
    match op.set_u8(cpu, val) {
        Ok(()) => Ok(()),
        Err(e) => Err(ExecError::from(e)),
    }
}

pub fn ahx<M: Memory>(cpu: &mut Mos6502<M>, op: Operand) -> (r: ExecResult)
    requires
        old(cpu)@.room(2),
    ensures
        (final(cpu)@, r) == ahx_spec(old(cpu)@, op),
{
    let h = match high_byte_of_addr(cpu, op) {
        Ok(h) => h,
        Err(e) => return Err(e),
    };
    let val = cpu.registers.a & cpu.registers.x & h;
    write(cpu, op, val)
}

pub fn sax<M: Memory>(cpu: &mut Mos6502<M>, op: Operand) -> (r: ExecResult)
    requires
        old(cpu)@.room(1),
    ensures
        (final(cpu)@, r) == sax_spec(old(cpu)@, op),
{
    let val = cpu.registers.a & cpu.registers.x;
    write(cpu, op, val)
}

pub fn sh<M: Memory>(cpu: &mut Mos6502<M>, reg: RegisterName, op: Operand) -> (r: ExecResult)
    requires
        old(cpu)@.room(2),
    ensures
        (final(cpu)@, r) == sh_spec(old(cpu)@, reg, op),
{
    let h = match high_byte_of_addr(cpu, op) {
        Ok(h) => h,
        Err(e) => return Err(e),
    };
    let val = reg.get(cpu) & h;
    write(cpu, op, val)
}

pub fn tas<M: Memory>(cpu: &mut Mos6502<M>, op: Operand) -> (r: ExecResult)
    requires
        old(cpu)@.room(2),
    ensures
        (final(cpu)@, r) == tas_spec(old(cpu)@, op),
{
    let val = cpu.registers.a & cpu.registers.x;
    cpu.registers.sp = val;
    let h = match high_byte_of_addr(cpu, op) {
        Ok(h) => h,
        Err(e) => return Err(e),
    };
    write(cpu, op, val & h)
}

} // verus!
