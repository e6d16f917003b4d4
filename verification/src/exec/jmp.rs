use vstd::prelude::*;
use crate::cpu::{CpuView, Mos6502};
use crate::exec::{operand_addr, ExecError, ExecResult};
use crate::mem::Memory;
use crate::operand::Operand;

verus! {

/// What JMP does: the program counter takes the operand's address
pub open spec fn jmp_spec(s: CpuView, op: Operand) -> (CpuView, ExecResult) {
    let (s1, r) = operand_addr(s, op);
    match r {
        Err(e) => (s1, Err(e)),
        Ok(addr) => (s1.with_pc(addr as int), Ok(())),
    }
}

pub fn exec<M: Memory>(cpu: &mut Mos6502<M>, op: Operand) -> (r: ExecResult)
    requires
        old(cpu)@.room(1),
    ensures
        (final(cpu)@, r) == jmp_spec(old(cpu)@, op),
{
    let addr = match op.get_addr(cpu) {
        Ok(a) => a,
        Err(e) => return Err(ExecError::from(e)),
    };
    cpu.pc.set(addr as u64);
    Ok(())
}

} // verus!
