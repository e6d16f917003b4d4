use vstd::prelude::*;
use crate::cpu::{CpuView, Mos6502};
use crate::exec::{read_operand, ExecError, ExecResult};
use crate::flags::{raised_if, with_sign_and_zero, Flags};
use crate::mem::Memory;
use crate::operand::Operand;

verus! {

/// What EOR does: A becomes A ^ M, and SIGN and ZERO describe it
pub open spec fn eor_spec(s: CpuView, op: Operand) -> (CpuView, ExecResult) {
    let (s1, r) = read_operand(s, op);
    match r {
        Err(e) => (s1, Err(e)),
        Ok(m) => {
            let v = s1.a ^ m;
            (s1.with_p(with_sign_and_zero(s1.p, v)).with_a(v), Ok(()))
        },
    }
}

pub fn exec<M: Memory>(cpu: &mut Mos6502<M>, op: Operand) -> (r: ExecResult)
    requires
        old(cpu)@.room(1),
    ensures
        (final(cpu)@, r) == eor_spec(old(cpu)@, op),
{
    let m = match op.get_u8(cpu) {
        Ok(v) => v,
        Err(e) => return Err(ExecError::from(e)),
    };
    let v = cpu.registers.a ^ m;
    cpu.flags.set_sign_and_zero(v);
    cpu.registers.a = v;
    Ok(())
}

} // verus!
