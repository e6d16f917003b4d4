use vstd::prelude::*;
use crate::cpu::{CpuView, Mos6502};
use crate::exec::{read_operand, ExecError, ExecResult};
use crate::flags::{raised_if, with_sign_and_zero, Flags};
use crate::mem::Memory;
use crate::operand::Operand;

verus! {

/// What AXS does: with t = (A & X) - M, CARRY tells whether t >= 0, X takes
/// the low byte of t, and SIGN and ZERO describe it
pub open spec fn axs_spec(s: CpuView, op: Operand) -> (CpuView, ExecResult) {
    let (s1, r) = read_operand(s, op);
    match r {
        Err(e) => (s1, Err(e)),
        Ok(m) => {
            let t = (s1.a & s1.x) - m;
            let low = (t % 256) as u8;
            let p1 = raised_if(s1.p, 0b0000_0001, t >= 0);
            (s1.with_x(low).with_p(with_sign_and_zero(p1, low)), Ok(()))
        },
    }
}

pub fn exec<M: Memory>(cpu: &mut Mos6502<M>, op: Operand) -> (r: ExecResult)
    requires
        old(cpu)@.room(1),
    ensures
        (final(cpu)@, r) == axs_spec(old(cpu)@, op),
{
    let m = match op.get_u8(cpu) {
        Ok(v) => v,
        Err(e) => return Err(ExecError::from(e)),
    };
    let t = (cpu.registers.a & cpu.registers.x) as i16 - m as i16;
    cpu.flags.set_if(Flags::CARRY(), t >= 0);
    let low: u8 = if t >= 0 { t as u8 } else { (t + 256) as u8 };
    cpu.registers.x = low;
    cpu.flags.set_sign_and_zero(low);
    Ok(())
}

} // verus!
