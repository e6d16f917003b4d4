use vstd::prelude::*;
use crate::cpu::{CpuView, Mos6502};
use crate::exec::{read_operand, resumed, write_operand, ExecError, ExecResult};
use crate::flags::{raised_if, with_sign_and_zero, Flags};
use crate::mem::Memory;
use crate::operand::Operand;

verus! {

/// What ROL (`left`) or ROR does once the clock is suspended: M is rotated
/// through CARRY; CARRY takes the bit that fell off, and SIGN and ZERO
/// describe the result
pub open spec fn rotate_body(s: CpuView, op: Operand, left: bool) -> (CpuView, ExecResult) {
    let (s1, r) = read_operand(s, op);
    match r {
        Err(e) => (s1, Err(e)),
        Ok(n) => {
            let t = if left {
                n & 0x80
            } else {
                n & 0x01
            };
            let carry = s1.p & 1 == 1;
            let carry_byte: u8 = if left && carry {
                0x01
            } else if carry {
                0x80
            } else {
                0x00
            };
            let b = (if left {
                n << 1u8
            } else {
                n >> 1u8
            }) | carry_byte;
            let (s2, w) = write_operand(s1, op, b);
            match w {
                Err(e) => (s2, Err(e)),
                Ok(_) => (
                    s2.with_p(raised_if(with_sign_and_zero(s2.p, b), 0b0000_0001, t != 0)),
                    Ok(()),
                ),
            }
        },
    }
}

/// What ROL (`left`) or ROR does
pub open spec fn rotate_spec(s: CpuView, op: Operand, left: bool) -> (CpuView, ExecResult) {
    resumed(s, rotate_body(s.with_suspended(true), op, left))
}

pub fn left<M: Memory>(cpu: &mut Mos6502<M>, op: Operand) -> (r: ExecResult)
    requires
        old(cpu)@.room(2),
    ensures
        (final(cpu)@, r) == rotate_spec(old(cpu)@, op, true),
{
    exec(cpu, op, true)
}

pub fn right<M: Memory>(cpu: &mut Mos6502<M>, op: Operand) -> (r: ExecResult)
    requires
        old(cpu)@.room(2),
    ensures
        (final(cpu)@, r) == rotate_spec(old(cpu)@, op, false),
{
    exec(cpu, op, false)
}

fn exec<M: Memory>(cpu: &mut Mos6502<M>, op: Operand, left: bool) -> (r: ExecResult)
    requires
        old(cpu)@.room(2),
    ensures
        (final(cpu)@, r) == rotate_spec(old(cpu)@, op, left),
{
    let was_suspended = cpu.clock.suspend();
    let r = rotate(cpu, op, left);
    cpu.clock.restore(was_suspended);
    r
}

fn rotate<M: Memory>(cpu: &mut Mos6502<M>, op: Operand, left: bool) -> (r: ExecResult)
    requires
        old(cpu)@.room(2),
    ensures
        (final(cpu)@, r) == rotate_body(old(cpu)@, op, left),
{
    let n = match op.get_u8(cpu) {
        Ok(v) => v,
        Err(e) => return Err(ExecError::from(e)),
    };
    // Grab the bit that's about to fall off
    let t = if left {
        n & 0x80
    } else {
        n & 0x01
    };
    // Shift the current value, then add the carry bit in to the other end
    let carry_byte: u8 = if left && cpu.flags.carry() {
        0x01
    } else if cpu.flags.carry() {
        0x80
    } else {
        0x00
    };
    let b = (if left {
        n << 1
    } else {
        n >> 1
    }) | carry_byte;
    match op.set_u8(cpu, b) {
        Ok(()) => {},
        Err(e) => return Err(ExecError::from(e)),
    }
    // Set the flags
    cpu.flags.set_sign_and_zero(b);
    cpu.flags.set_if(Flags::CARRY(), t != 0);
    Ok(())
}

} // verus!
