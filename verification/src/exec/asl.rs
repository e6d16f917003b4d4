use vstd::prelude::*;
use crate::cpu::{CpuView, Mos6502};
use crate::exec::{read_operand, resumed, write_operand, ExecError, ExecResult};
use crate::flags::{raised, Flags};
use crate::mem::Memory;
use crate::operand::Operand;

verus! {

/// What ASL does once the clock is suspended: M is shifted left; CARRY is set
/// when bit 7 of M was set, SIGN when bit 7 of the result is set, ZERO when
/// the result is zero (none of them is ever cleared)
pub open spec fn asl_body(s: CpuView, op: Operand) -> (CpuView, ExecResult) {
    let (s1, r) = read_operand(s, op);
    match r {
        Err(e) => (s1, Err(e)),
        Ok(b) => {
            let p1 = if b & 0x80 != 0 {
                raised(s1.p, 0b0000_0001)
            } else {
                s1.p
            };
            let res = (b << 1u8) & 0xFE;
            let (s2, w) = write_operand(s1.with_p(p1), op, res);
            match w {
                Err(e) => (s2, Err(e)),
                Ok(_) => {
                    let p2 = if res & 0x80 != 0 {
                        raised(s2.p, 0b1000_0000)
                    } else {
                        s2.p
                    };
                    let p3 = if res == 0 {
                        raised(p2, 0b0000_0010)
                    } else {
                        p2
                    };
                    (s2.with_p(p3), Ok(()))
                },
            }
        },
    }
}

/// What ASL does
pub open spec fn asl_spec(s: CpuView, op: Operand) -> (CpuView, ExecResult) {
    resumed(s, asl_body(s.with_suspended(true), op))
}

pub fn exec<M: Memory>(cpu: &mut Mos6502<M>, op: Operand) -> (r: ExecResult)
    requires
        old(cpu)@.room(2),
    ensures
        (final(cpu)@, r) == asl_spec(old(cpu)@, op),
{
    let was_suspended = cpu.clock.suspend();
    let r = shift_left(cpu, op);
    cpu.clock.restore(was_suspended);
    r
}

fn shift_left<M: Memory>(cpu: &mut Mos6502<M>, op: Operand) -> (r: ExecResult)
    requires
        old(cpu)@.room(2),
    ensures
        (final(cpu)@, r) == asl_body(old(cpu)@, op),
{
    let b = match op.get_u8(cpu) {
        Ok(v) => v,
        Err(e) => return Err(ExecError::from(e)),
    };
    if b & 0x80 != 0 {
        cpu.flags.set(Flags::CARRY());
    }
    let r = (b << 1) & 0xFE;
    match op.set_u8(cpu, r) {
        Ok(()) => {},
        Err(e) => return Err(ExecError::from(e)),
    }
    if r & 0x80 != 0 {
        cpu.flags.set(Flags::SIGN());
    }
    if r == 0 {
        cpu.flags.set(Flags::ZERO());
    }
    Ok(())
}

} // verus!
