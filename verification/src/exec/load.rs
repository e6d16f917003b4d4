use vstd::prelude::*;
use crate::cpu::{reg_written, CpuView, Mos6502, RegisterName};
use crate::exec::{read_operand, ExecError, ExecResult};
use crate::flags::with_sign_and_zero;
use crate::mem::Memory;
use crate::operand::Operand;

verus! {

/// What LDA, LDX and LDY do: the register takes M, and SIGN and ZERO describe it
pub open spec fn load_spec(s: CpuView, reg: RegisterName, op: Operand) -> (CpuView, ExecResult) {
    let (s1, r) = read_operand(s, op);
    match r {
        Err(e) => (s1, Err(e)),
        Ok(val) => {
            let s2 = reg_written(s1, reg, val);
            (s2.with_p(with_sign_and_zero(s2.p, val)), Ok(()))
        },
    }
}

/// What LAS does: A, X and the stack pointer all take M & SP, and SIGN and
/// ZERO describe that value
pub open spec fn las_spec(s: CpuView, op: Operand) -> (CpuView, ExecResult) {
    let (s1, r) = read_operand(s, op);
    match r {
        Err(e) => (s1, Err(e)),
        Ok(m) => {
            let val = m & s1.sp;
            (
                CpuView { a: val, x: val, sp: val, p: with_sign_and_zero(s1.p, val), ..s1 },
                Ok(()),
            )
        },
    }
}

pub fn exec<M: Memory>(cpu: &mut Mos6502<M>, reg: RegisterName, op: Operand) -> (r: ExecResult)
    requires
        old(cpu)@.room(1),
    ensures
        (final(cpu)@, r) == load_spec(old(cpu)@, reg, op),
{
    let val = match op.get_u8(cpu) {
        Ok(v) => v,
        Err(e) => return Err(ExecError::from(e)),
    };
    reg.set(cpu, val);
    cpu.flags.set_sign_and_zero(val);
    Ok(())
}

pub fn las<M: Memory>(cpu: &mut Mos6502<M>, op: Operand) -> (r: ExecResult)
    requires
        old(cpu)@.room(1),
    ensures
        (final(cpu)@, r) == las_spec(old(cpu)@, op),
{
    let m = match op.get_u8(cpu) {
        Ok(v) => v,
        Err(e) => return Err(ExecError::from(e)),
    };
    let val = m & cpu.registers.sp;
    cpu.registers.a = val;
    cpu.registers.x = val;
    cpu.registers.sp = val;
    cpu.flags.set_sign_and_zero(val);
    Ok(())
}

} // verus!
