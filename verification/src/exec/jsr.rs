use vstd::prelude::*;
use crate::cpu::{CpuView, Mos6502};
use crate::exec::{operand_addr, push_outcome, resumed, ExecError, ExecResult, Outcome};
use crate::mem::Memory;
use crate::operand::Operand;

verus! {

/// What JSR does once the clock is suspended: the address of the last byte of
/// the instruction (the program counter minus one) is pushed, high byte first,
/// and the program counter takes the operand's address; `None` where the
/// program counter is zero, which the emulated processor does not allow
pub open spec fn jsr_body(s: CpuView, op: Operand) -> Outcome {
    if s.pc == 0 {
        None
    } else {
        let pc = s.pc - 1;
        let (s1, r) = operand_addr(s, op);
        match r {
            Err(e) => Some((s1, Err(e))),
            Ok(addr) => match push_outcome(s1, (pc / 256) as u8) {
                None => None,
                Some((s2, Err(e))) => Some((s2, Err(e))),
                Some((s2, Ok(_))) => match push_outcome(s2, (pc % 256) as u8) {
                    None => None,
                    Some((s3, Err(e))) => Some((s3, Err(e))),
                    Some((s3, Ok(_))) => Some((s3.with_pc(addr as int), Ok(()))),
                },
            },
        }
    }
}

/// What JSR does
pub open spec fn jsr_spec(s: CpuView, op: Operand) -> Outcome {
    match jsr_body(s.with_suspended(true), op) {
        None => None,
        Some(b) => Some(resumed(s, b)),
    }
}

pub fn exec<M: Memory>(cpu: &mut Mos6502<M>, op: Operand) -> (r: ExecResult)
    requires
        old(cpu)@.room(1),
        jsr_spec(old(cpu)@, op) is Some,
    ensures
        jsr_spec(old(cpu)@, op) == Some((final(cpu)@, r)),
{
    let was_suspended = cpu.clock.suspend();
    let r = call(cpu, op);
    cpu.clock.restore(was_suspended);
    r
}

fn call<M: Memory>(cpu: &mut Mos6502<M>, op: Operand) -> (r: ExecResult)
    requires
        old(cpu)@.room(1),
        jsr_body(old(cpu)@, op) is Some,
    ensures
        jsr_body(old(cpu)@, op) == Some((final(cpu)@, r)),
{
    let pc = cpu.pc.get() - 1;
    let addr = match op.get_addr(cpu) {
        Ok(a) => a,
        Err(e) => return Err(ExecError::from(e)),
    };
    match cpu.push((pc / 256) as u8) {
        Ok(()) => {},
        Err(e) => return Err(ExecError::from(e)),
    }
    match cpu.push((pc % 256) as u8) {
        Ok(()) => {},
        Err(e) => return Err(ExecError::from(e)),
    }
    cpu.pc.set(addr as u64);
    Ok(())
}

} // verus!
