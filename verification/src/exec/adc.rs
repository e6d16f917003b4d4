use vstd::prelude::*;
use crate::cpu::{CpuView, Mos6502};
use crate::exec::{read_operand, ExecError, ExecResult, Outcome};
use crate::exec::utils::{bcd_encodable, bcd_encoding, bcd_to_int, bcd_value, int_to_bcd};
use crate::flags::{raised_if, with_sign_and_zero, Flags};
use crate::mem::Memory;
use crate::operand::Operand;

verus! {

/// Bit 7 of a non-negative number
pub open spec fn bit7(x: int) -> int {
    (x / 128) % 2
}

/// True when the CARRY flag is set in the status register `p`
pub open spec fn carry_set(p: u8) -> bool {
    p & 0b0000_0001 == 0b0000_0001
}

/// True when arithmetic is decimal in state `s`: decimal mode is available
/// and the BCD flag is set
pub open spec fn decimal_mode(s: CpuView) -> bool {
    s.bcd_enabled && s.p & 0b0000_1000 == 0b0000_1000
}

/// What ADC does with the operand value `n`: `None` where a decimal sum is too
/// large to encode, which the emulated processor does not allow
///
/// With c the carry, the sum is A + n + c, in binary or, in decimal mode, of
/// the decimal values; CARRY tells whether it exceeds 255 (99 in decimal
/// mode); OVERFLOW whether its bit 7 differs from that of A; A takes its low
/// byte (its decimal encoding in decimal mode); SIGN and ZERO describe A.
pub open spec fn adc_alu(s: CpuView, n: u8) -> Option<CpuView> {
    let c: int = if carry_set(s.p) {
        1
    } else {
        0
    };
    let (p1, t) = if decimal_mode(s) {
        let v = bcd_value(s.a as int) + bcd_value(n as int) + c;
        (raised_if(s.p, 0b0000_0001, v > 99), bcd_encoding(v))
    } else {
        let v = s.a + n + c;
        (raised_if(s.p, 0b0000_0001, v > 255), v)
    };
    if decimal_mode(s) && !bcd_encodable(bcd_value(s.a as int) + bcd_value(n as int) + c) {
        None
    } else {
        let p2 = raised_if(p1, 0b0100_0000, bit7(s.a as int) != bit7(t));
        let a = (t % 256) as u8;
        Some(s.with_a(a).with_p(with_sign_and_zero(p2, a)))
    }
}

/// What ADC does
pub open spec fn adc_spec(s: CpuView, op: Operand) -> Outcome {
    let (s1, r) = read_operand(s, op);
    match r {
        Err(e) => Some((s1, Err(e))),
        Ok(n) => match adc_alu(s1, n) {
            None => None,
            Some(s2) => Some((s2, Ok(()))),
        },
    }
}

pub fn exec<M: Memory>(cpu: &mut Mos6502<M>, op: Operand) -> (r: ExecResult)
    requires
        old(cpu)@.room(1),
        adc_spec(old(cpu)@, op) is Some,
    ensures
        adc_spec(old(cpu)@, op) == Some((final(cpu)@, r)),
{
    let n = match op.get_u8(cpu) {
        Ok(v) => v as isize,
        Err(e) => return Err(ExecError::from(e)),
    };
    let a = cpu.registers.a as isize;
    let c: isize = if cpu.flags.carry() {
        1
    } else {
        0
    };
    let t = if cpu.bcd_enabled && cpu.flags.intersects(Flags::BCD()) {
        let v = bcd_to_int(a) + bcd_to_int(n) + c;
        cpu.flags.set_if(Flags::CARRY(), v > 99);
        int_to_bcd(v)
    } else {
        let v = a + n + c;
        cpu.flags.set_if(Flags::CARRY(), v > 255);
        v
    };
    cpu.flags.set_if(Flags::OVERFLOW(), (a / 128) % 2 != (t / 128) % 2);
    cpu.registers.a = (t % 256) as u8;
    cpu.flags.set_sign_and_zero(cpu.registers.a);
    Ok(())
}

} // verus!
