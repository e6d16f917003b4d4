use vstd::prelude::*;
use crate::cpu::{CpuView, Mos6502};
use crate::exec::{read_operand, ExecError, ExecResult, Outcome};
use crate::exec::adc::{carry_set, decimal_mode};
use crate::exec::utils::{bcd_encodable, bcd_encoding, bcd_to_int, bcd_value, int_to_bcd};
use crate::flags::{raised_if, with_sign_and_zero, Flags};
use crate::mem::Memory;
use crate::operand::Operand;

verus! {

/// What SBC does with the operand value `m`: `None` where a decimal
/// difference is too low to encode, which the emulated processor does not allow
///
/// With b the borrow (the complement of CARRY):
/// - in binary, t = A - m - b; CARRY tells whether t >= 0; OVERFLOW whether
///   the sign of the result differs from that of A while the signs of A and m
///   differ; A takes the low byte of t;
/// - in decimal mode, v = A - m - b over the decimal values; OVERFLOW tells
///   whether v lies outside 0..=99; A takes the decimal encoding of v wrapped
///   into 0..=99; CARRY is set;
/// then SIGN and ZERO describe A.
pub open spec fn sbc_alu(s: CpuView, m: u8) -> Option<CpuView> {
    let b: int = if carry_set(s.p) {
        0
    } else {
        1
    };
    if decimal_mode(s) {
        let v = bcd_value(s.a as int) - bcd_value(m as int) - b;
        if !bcd_encodable(v) {
            None
        } else {
            let p1 = raised_if(s.p, 0b0100_0000, v > 99 || v < 0);
            let t = bcd_encoding(v);
            let p2 = raised_if(p1, 0b0000_0001, t >= 0);
            let a = (t % 256) as u8;
            Some(s.with_a(a).with_p(with_sign_and_zero(p2, a)))
        }
    } else {
        let t = s.a - m - b;
        let r = (t % 256) as u8;
        let p1 = raised_if(s.p, 0b0000_0001, t >= 0);
        let p2 = raised_if(
            p1,
            0b0100_0000,
            (s.a ^ r) & 0x80 != 0 && (s.a ^ m) & 0x80 == 0x80,
        );
        Some(s.with_a(r).with_p(with_sign_and_zero(p2, r)))
    }
}

/// What SBC does
pub open spec fn sbc_spec(s: CpuView, op: Operand) -> Outcome {
    let (s1, r) = read_operand(s, op);
    match r {
        Err(e) => Some((s1, Err(e))),
        Ok(m) => match sbc_alu(s1, m) {
            None => None,
            Some(s2) => Some((s2, Ok(()))),
        },
    }
}

pub fn exec<M: Memory>(cpu: &mut Mos6502<M>, op: Operand) -> (r: ExecResult)
    requires
        old(cpu)@.room(1),
        sbc_spec(old(cpu)@, op) is Some,
    ensures
        sbc_spec(old(cpu)@, op) == Some((final(cpu)@, r)),
{
    let m = match op.get_u8(cpu) {
        Ok(v) => v,
        Err(e) => return Err(ExecError::from(e)),
    };
    let a = cpu.registers.a;
    let b: i16 = if cpu.flags.carry() {
        0
    } else {
        1
    };
    if cpu.bcd_enabled && cpu.flags.intersects(Flags::BCD()) {
        let v = bcd_to_int(a as isize) - bcd_to_int(m as isize) - b as isize;
        cpu.flags.set_if(Flags::OVERFLOW(), v > 99 || v < 0);
        let t = int_to_bcd(v);
        cpu.flags.set_if(Flags::CARRY(), t >= 0);
        cpu.registers.a = (t % 256) as u8;
    } else {
        let t = (a as i16) - (m as i16) - b;
        let r: u8 = if t >= 0 {
            t as u8
        } else {
            (t + 256) as u8
        };
        cpu.flags.set_if(Flags::CARRY(), t >= 0);
        cpu.flags.set_if(Flags::OVERFLOW(), ((a ^ r) & 0x80 != 0) && ((a ^ m) & 0x80 == 0x80));
        cpu.registers.a = r;
    }
    cpu.flags.set_sign_and_zero(cpu.registers.a);
    Ok(())
}

} // verus!
