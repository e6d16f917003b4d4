use vstd::prelude::*;
use crate::cpu::{reg_value, reg_written, CpuView, Mos6502, RegisterName};
use crate::exec::{read_operand, resumed, write_operand, ExecError, ExecResult};
use crate::flags::with_sign_and_zero;
use crate::mem::Memory;
use crate::operand::Operand;

verus! {

/// What INX and INY do: the register goes up by one, wrapping around, and
/// SIGN and ZERO describe its new value
pub open spec fn inc_reg_spec(s: CpuView, reg: RegisterName) -> CpuView {
    let new_val = ((reg_value(s, reg) + 1) % 256) as u8;
    reg_written(s.with_p(with_sign_and_zero(s.p, new_val)), reg, new_val)
}

/// What INC does once the clock is suspended: M goes up by one, wrapping
/// around, and SIGN and ZERO describe its new value
pub open spec fn inc_mem_body(s: CpuView, op: Operand) -> (CpuView, ExecResult) {
    let (s1, r) = read_operand(s, op);
    match r {
        Err(e) => (s1, Err(e)),
        Ok(v) => {
            let new_val = ((v + 1) % 256) as u8;
            write_operand(s1.with_p(with_sign_and_zero(s1.p, new_val)), op, new_val)
        },
    }
}

/// What INC does
pub open spec fn inc_mem_spec(s: CpuView, op: Operand) -> (CpuView, ExecResult) {
    resumed(s, inc_mem_body(s.with_suspended(true), op))
}

pub fn reg<M: Memory>(cpu: &mut Mos6502<M>, register: RegisterName) -> (r: ExecResult)
    ensures
        final(cpu)@ == inc_reg_spec(old(cpu)@, register),
        r == Ok::<(), ExecError>(()),
{
    let new_val = register.get(cpu).wrapping_add(1);
    cpu.flags.set_sign_and_zero(new_val);
    register.set(cpu, new_val);
    Ok(())
}

pub fn mem<M: Memory>(cpu: &mut Mos6502<M>, op: Operand) -> (r: ExecResult)
    requires
        old(cpu)@.room(2),
    ensures
        (final(cpu)@, r) == inc_mem_spec(old(cpu)@, op),
{
    let was_suspended = cpu.clock.suspend();
    let r = increment(cpu, op);
    cpu.clock.restore(was_suspended);
    r
}

fn increment<M: Memory>(cpu: &mut Mos6502<M>, op: Operand) -> (r: ExecResult)
    requires
        old(cpu)@.room(2),
    ensures
        (final(cpu)@, r) == inc_mem_body(old(cpu)@, op),
{
    let v = match op.get_u8(cpu) {
        Ok(v) => v,
        Err(e) => return Err(ExecError::from(e)),
    };
    let new_val = v.wrapping_add(1);
    cpu.flags.set_sign_and_zero(new_val);
    match op.set_u8(cpu, new_val) {
        Ok(()) => Ok(()),
        Err(e) => Err(ExecError::from(e)),
    }
}

} // verus!
