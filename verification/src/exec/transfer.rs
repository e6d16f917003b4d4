use vstd::prelude::*;
use crate::cpu::{reg_value, reg_written, CpuView, Mos6502, RegisterName};
use crate::exec::{ExecError, ExecResult};
use crate::flags::with_sign_and_zero;
use crate::mem::Memory;

verus! {

/// What TAX, TAY, TSX, TXA, TXS and TYA do: the destination takes the source's
/// value, and SIGN and ZERO describe it unless the destination is the stack pointer
pub open spec fn transfer_spec(s: CpuView, src: RegisterName, dst: RegisterName) -> CpuView {
    let val = reg_value(s, src);
    let s1 = reg_written(s, dst, val);
    if dst != RegisterName::S {
        s1.with_p(with_sign_and_zero(s1.p, val))
    } else {
        s1
    }
}

pub fn exec<M: Memory>(cpu: &mut Mos6502<M>, src: RegisterName, dst: RegisterName) -> (r: ExecResult)
    ensures
        final(cpu)@ == transfer_spec(old(cpu)@, src, dst),
        r == Ok::<(), ExecError>(()),
{
    let val = src.get(cpu);
    dst.set(cpu, val);
    if dst != RegisterName::S {
        cpu.flags.set_sign_and_zero(val);
    }
    Ok(())
}

} // verus!
