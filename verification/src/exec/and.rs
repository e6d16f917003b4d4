use vstd::prelude::*;
use crate::cpu::{CpuView, Mos6502};
use crate::exec::{read_operand, ExecError, ExecResult};
use crate::flags::{raised_if, with_sign_and_zero, Flags};
use crate::mem::Memory;
use crate::operand::Operand;

verus! {

/// What AND does (ANC too, when `with_carry`): A becomes A & M, and SIGN and
/// ZERO describe it; with `with_carry`, CARRY takes bit 7 of the result
pub open spec fn and_spec(s: CpuView, op: Operand, with_carry: bool) -> (CpuView, ExecResult) {
    let (s1, r) = read_operand(s, op);
    match r {
        Err(e) => (s1, Err(e)),
        Ok(m) => {
            let res = s1.a & m;
            let p = with_sign_and_zero(s1.p, res);
            let p2 = if with_carry {
                raised_if(p, 0b0000_0001, res & 0x80 != 0)
            } else {
                p
            };
            (s1.with_a(res).with_p(p2), Ok(()))
        },
    }
}

/// What XAA does: A becomes X & M, and SIGN and ZERO describe it
pub open spec fn xaa_spec(s: CpuView, op: Operand) -> (CpuView, ExecResult) {
    let (s1, r) = read_operand(s, op);
    match r {
        Err(e) => (s1, Err(e)),
        Ok(m) => {
            let val = s1.x & m;
            (s1.with_a(val).with_p(with_sign_and_zero(s1.p, val)), Ok(()))
        },
    }
}

pub fn exec<M: Memory>(cpu: &mut Mos6502<M>, op: Operand, with_carry: bool) -> (r: ExecResult)
    requires
        old(cpu)@.room(1),
    ensures
        (final(cpu)@, r) == and_spec(old(cpu)@, op, with_carry),
{
    let opv = match op.get_u8(cpu) {
        Ok(v) => v,
        Err(e) => return Err(ExecError::from(e)),
    };
    let res = cpu.registers.a & opv;
    cpu.registers.a = res;
    cpu.flags.set_sign_and_zero(res);
    if with_carry {
        cpu.flags.set_if(Flags::CARRY(), res & 0x80 != 0);
    }
    Ok(())
}

pub fn xaa<M: Memory>(cpu: &mut Mos6502<M>, op: Operand) -> (r: ExecResult)
    requires
        old(cpu)@.room(1),
    ensures
        (final(cpu)@, r) == xaa_spec(old(cpu)@, op),
{
    let m = match op.get_u8(cpu) {
        Ok(v) => v,
        Err(e) => return Err(ExecError::from(e)),
    };
    let val = cpu.registers.x & m;
    cpu.registers.a = val;
    cpu.flags.set_sign_and_zero(val);
    Ok(())
}

} // verus!
