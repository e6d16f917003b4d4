use vstd::prelude::*;
use crate::cpu::{CpuView, Mos6502};
use crate::exec::{read_operand, ExecError, ExecResult};
use crate::flags::{raised_if, with_sign_and_zero, Flags};
use crate::mem::Memory;
use crate::operand::Operand;

verus! {

/// What BIT does: SIGN takes bit 7 of M, OVERFLOW takes bit 6 of M, and ZERO
/// tells whether A & M is zero
pub open spec fn bit_spec(s: CpuView, op: Operand) -> (CpuView, ExecResult) {
    let (s1, r) = read_operand(s, op);
    match r {
        Err(e) => (s1, Err(e)),
        Ok(m) => {
            let p1 = raised_if(s1.p, 0b1000_0000, m & 0x80 != 0);
            let p2 = raised_if(p1, 0b0100_0000, m & 0x40 != 0);
            let p3 = raised_if(p2, 0b0000_0010, s1.a & m == 0);
            (s1.with_p(p3), Ok(()))
        },
    }
}

pub fn exec<M: Memory>(cpu: &mut Mos6502<M>, op: Operand) -> (r: ExecResult)
    requires
        old(cpu)@.room(1),
    ensures
        (final(cpu)@, r) == bit_spec(old(cpu)@, op),
{
    let m = match op.get_u8(cpu) {
        Ok(v) => v,
        Err(e) => return Err(ExecError::from(e)),
    };
    let t = cpu.registers.a & m;
    if m & 0x80 != 0 {
        cpu.flags.set(Flags::SIGN());
    } else {
        cpu.flags.clear(Flags::SIGN());
    }
    if m & 0x40 != 0 {
        cpu.flags.set(Flags::OVERFLOW());
    } else {
        cpu.flags.clear(Flags::OVERFLOW());
    }
    if t == 0 {
        cpu.flags.set(Flags::ZERO());
    } else {
        cpu.flags.clear(Flags::ZERO());
    }
    Ok(())
}

} // verus!
