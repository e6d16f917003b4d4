use vstd::prelude::*;
use crate::cpu::{CpuView, Mos6502};
use crate::exec::{read_operand, resumed, write_operand, ExecError, ExecResult};
use crate::flags::{cleared, raised_if, Flags};
use crate::mem::Memory;
use crate::operand::Operand;

verus! {

/// What LSR does once the clock is suspended: SIGN is cleared, CARRY takes bit
/// 0 of M, M is shifted right, and ZERO tells whether the result is zero
pub open spec fn lsr_body(s: CpuView, op: Operand) -> (CpuView, ExecResult) {
    let (s1, r) = read_operand(s, op);
    match r {
        Err(e) => (s1, Err(e)),
        Ok(n) => {
            let p1 = raised_if(cleared(s1.p, 0b1000_0000), 0b0000_0001, n & 0x01 != 0);
            let m = (n >> 1u8) & 0x7F;
            let p2 = raised_if(p1, 0b0000_0010, m == 0);
            write_operand(s1.with_p(p2), op, m)
        },
    }
}

/// What LSR does
pub open spec fn lsr_spec(s: CpuView, op: Operand) -> (CpuView, ExecResult) {
    resumed(s, lsr_body(s.with_suspended(true), op))
}

pub fn exec<M: Memory>(cpu: &mut Mos6502<M>, op: Operand) -> (r: ExecResult)
    requires
        old(cpu)@.room(2),
    ensures
        (final(cpu)@, r) == lsr_spec(old(cpu)@, op),
{
    let was_suspended = cpu.clock.suspend();
    let r = shift_right(cpu, op);
    cpu.clock.restore(was_suspended);
    r
}

fn shift_right<M: Memory>(cpu: &mut Mos6502<M>, op: Operand) -> (r: ExecResult)
    requires
        old(cpu)@.room(2),
    ensures
        (final(cpu)@, r) == lsr_body(old(cpu)@, op),
{
    let n = match op.get_u8(cpu) {
        Ok(v) => v,
        Err(e) => return Err(ExecError::from(e)),
    };
    cpu.flags.clear(Flags::SIGN());
    cpu.flags.set_if(Flags::CARRY(), (n & 0x01) != 0);
    let m = (n >> 1) & 0x7F;
    cpu.flags.set_if(Flags::ZERO(), m == 0);
    match op.set_u8(cpu, m) {
        Ok(()) => Ok(()),
        Err(e) => Err(ExecError::from(e)),
    }
}

} // verus!
