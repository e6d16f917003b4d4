use vstd::prelude::*;
use crate::cpu::{pull_spec, CpuView, Mos6502};
use crate::exec::{ExecError, ExecResult, Outcome};
use crate::flags::{replaced, Flags};
use crate::mem::Memory;

verus! {

/// What RTI does: pulls the status register, then the low and the high byte
/// of the program counter
pub open spec fn rti_spec(s: CpuView) -> Outcome {
    match pull_spec(s) {
        None => None,
        Some((s1, Err(e))) => Some((s1, Err(ExecError::ErrorReadingMemory(e)))),
        Some((s1, Ok(p))) => match pull_spec(s1) {
            None => None,
            Some((s2, Err(e))) => Some((s2, Err(ExecError::ErrorReadingMemory(e)))),
            Some((s2, Ok(l))) => match pull_spec(s2) {
                None => None,
                Some((s3, Err(e))) => Some((s3, Err(ExecError::ErrorReadingMemory(e)))),
                Some((s3, Ok(h))) => Some((s3.with_pc(h * 256 + l).with_p(replaced(p)), Ok(()))),
            },
        },
    }
}

/// What RTS does: pulls the low and the high byte of an address, and resumes
/// right after it
pub open spec fn rts_spec(s: CpuView) -> Outcome {
    match pull_spec(s) {
        None => None,
        Some((s1, Err(e))) => Some((s1, Err(ExecError::ErrorReadingMemory(e)))),
        Some((s1, Ok(l))) => match pull_spec(s1) {
            None => None,
            Some((s2, Err(e))) => Some((s2, Err(ExecError::ErrorReadingMemory(e)))),
            Some((s2, Ok(h))) => Some((s2.with_pc(h * 256 + l + 1), Ok(()))),
        },
    }
}

pub fn from_interrupt<M: Memory>(cpu: &mut Mos6502<M>) -> (r: ExecResult)
    requires
        rti_spec(old(cpu)@) is Some,
    ensures
        rti_spec(old(cpu)@) == Some((final(cpu)@, r)),
{
    let p = match cpu.pull() {
        Ok(v) => v,
        Err(e) => return Err(ExecError::from(e)),
    };
    let l = match cpu.pull() {
        Ok(v) => v as u64,
        Err(e) => return Err(ExecError::from(e)),
    };
    let h = match cpu.pull() {
        Ok(v) => v as u64,
        Err(e) => return Err(ExecError::from(e)),
    };
    cpu.pc.set(h * 256 + l);
    cpu.flags.replace(Flags::new(p));
    Ok(())
}

pub fn from_sub<M: Memory>(cpu: &mut Mos6502<M>) -> (r: ExecResult)
    requires
        rts_spec(old(cpu)@) is Some,
    ensures
        rts_spec(old(cpu)@) == Some((final(cpu)@, r)),
{
    let l = match cpu.pull() {
        Ok(v) => v as u64,
        Err(e) => return Err(ExecError::from(e)),
    };
    let h = match cpu.pull() {
        Ok(v) => v as u64,
        Err(e) => return Err(ExecError::from(e)),
    };
    cpu.pc.set(h * 256 + l + 1);
    Ok(())
}

} // verus!
