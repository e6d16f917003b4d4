use vstd::prelude::*;
use crate::cpu::{reg_value, CpuView, Mos6502, RegisterName};
use crate::exec::{push_outcome, ExecError, ExecResult, Outcome};
use crate::flags::Flags;
use crate::mem::Memory;

verus! {

/// The value that PHA or PHP pushes: the register's value, with the BREAK bit
/// set when the register is the status register
pub open spec fn pushed_value(s: CpuView, r: RegisterName) -> u8 {
    if r == RegisterName::P {
        0b0001_0000 | s.p
    } else {
        reg_value(s, r)
    }
}

/// What PHA and PHP do
pub open spec fn push_exec_spec(s: CpuView, r: RegisterName) -> Outcome {
    push_outcome(s, pushed_value(s, r))
}

pub fn exec<M: Memory>(cpu: &mut Mos6502<M>, r: RegisterName) -> (res: ExecResult)
    requires
        push_exec_spec(old(cpu)@, r) is Some,
    ensures
        push_exec_spec(old(cpu)@, r) == Some((final(cpu)@, res)),
{
    let val = if r == RegisterName::P {
        // Set B bit on the value before pushing it
        (Flags::BREAK() | Flags::new(r.get(cpu))).bits
    } else {
        r.get(cpu)
    };
    match cpu.push(val) {
        Ok(()) => Ok(()),
        Err(e) => Err(ExecError::from(e)),
    }
}

} // verus!
