use vstd::prelude::*;
use crate::cpu::{pull_spec, reg_written, CpuView, Mos6502, RegisterName};
use crate::exec::{ExecError, ExecResult, Outcome};
use crate::flags::{cleared, with_sign_and_zero, Flags};
use crate::mem::Memory;

verus! {

/// What PLA and PLP do: the register takes the pulled value; for the status
/// register BREAK is then cleared, for another one SIGN and ZERO describe the value
pub open spec fn pull_exec_spec(s: CpuView, r: RegisterName) -> Outcome {
    match pull_spec(s) {
        None => None,
        Some((s1, Err(e))) => Some((s1, Err(ExecError::ErrorReadingMemory(e)))),
        Some((s1, Ok(val))) => {
            let s2 = reg_written(s1, r, val);
            let p = if r != RegisterName::P {
                with_sign_and_zero(s2.p, val)
            } else {
                cleared(s2.p, 0b0001_0000)
            };
            Some((s2.with_p(p), Ok(())))
        },
    }
}

pub fn exec<M: Memory>(cpu: &mut Mos6502<M>, r: RegisterName) -> (res: ExecResult)
    requires
        pull_spec(old(cpu)@) is Some,
    ensures
        pull_exec_spec(old(cpu)@, r) == Some((final(cpu)@, res)),
{
    let val = match cpu.pull() {
        Ok(v) => v,
        Err(e) => return Err(ExecError::from(e)),
    };
    r.set(cpu, val);
    if r != RegisterName::P {
        cpu.flags.set_sign_and_zero(val);
    } else {
        cpu.flags.clear(Flags::BREAK());
    }
    Ok(())
}

} // verus!
