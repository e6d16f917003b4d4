use vstd::prelude::*;
use crate::cpu::{reg_value, CpuView, Mos6502, RegisterName};
use crate::exec::{read_operand, ExecError, ExecResult};
use crate::flags::{raised_if, with_sign_and_zero, Flags};
use crate::mem::Memory;
use crate::operand::Operand;

verus! {

/// What CMP, CPX and CPY do: with t = R - M, CARRY tells whether t >= 0, and
/// SIGN and ZERO describe the low byte of t
pub open spec fn compare_spec(s: CpuView, reg: RegisterName, op: Operand) -> (CpuView, ExecResult) {
    let (s1, r) = read_operand(s, op);
    match r {
        Err(e) => (s1, Err(e)),
        Ok(m) => {
            let t = reg_value(s1, reg) - m;
            let p1 = raised_if(s1.p, 0b0000_0001, t >= 0);
            (s1.with_p(with_sign_and_zero(p1, (t % 256) as u8)), Ok(()))
        },
    }
}

pub fn exec<M: Memory>(cpu: &mut Mos6502<M>, reg: RegisterName, op: Operand) -> (r: ExecResult)
    requires
        old(cpu)@.room(1),
    ensures
        (final(cpu)@, r) == compare_spec(old(cpu)@, reg, op),
{
    let val = match op.get_u8(cpu) {
        Ok(v) => v,
        Err(e) => return Err(ExecError::from(e)),
    };
    let r = reg.get(cpu) as i16;
    let t = r - val as i16;
    cpu.flags.set_if(Flags::CARRY(), t >= 0);
    let low: u8 = if t >= 0 { t as u8 } else { (t + 256) as u8 };
    cpu.flags.set_sign_and_zero(low);
    Ok(())
}

} // verus!
