use vstd::prelude::*;
use crate::cpu::{CpuView, Mos6502};
use crate::exec::{ExecError, ExecResult};
use crate::flags::Flags;
use crate::mem::Memory;
use crate::operand::{crosses_page, Operand};

verus! {

/// The address a branch by `offset` from `pc` lands on, wrapping around at 16 bits
pub open spec fn branch_target(pc: u16, offset: i8) -> int {
    (pc + offset) % 0x1_0000
}

/// The state after a branch by `offset` is taken: one cycle more, or two when
/// the target lies on another page, and the program counter at the target
pub open spec fn branch_taken(s: CpuView, offset: i8) -> CpuView {
    let target = branch_target(s.pc, offset);
    s.tick(
        if crosses_page(s.pc as int, target) {
            2
        } else {
            1
        },
    ).with_pc(target)
}

/// What a conditional branch does: with an offset operand, the branch is taken
/// when `take` holds; any other operand is illegal
pub open spec fn branch_spec(s: CpuView, op: Operand, take: bool) -> (CpuView, ExecResult) {
    match op {
        Operand::Offset(offset) => (
            if take {
                branch_taken(s, offset)
            } else {
                s
            },
            Ok(()),
        ),
        _ => (s, Err(ExecError::IllegalOperand)),
    }
}

/// True when every flag of `flags` is set in the status register `p`
pub open spec fn flags_set(p: u8, flags: Flags) -> bool {
    p & flags.bits == flags.bits
}

/// Branches when the flags of `flags` are not all set (BCC, BNE, BPL, BVC)
pub fn if_clear<M: Memory>(cpu: &mut Mos6502<M>, op: Operand, flags: Flags) -> (r: ExecResult)
    requires
        old(cpu)@.room(2),
    ensures
        (final(cpu)@, r) == branch_spec(old(cpu)@, op, !flags_set(old(cpu)@.p, flags)),
{
    if let Operand::Offset(offset) = op {
        if !cpu.flags.intersects(flags) {
            let target = calc_target_and_tick_clock(cpu, offset);
            cpu.pc.set(target);
        }
        Ok(())
    } else {
        Err(ExecError::IllegalOperand)
    }
}

/// Branches when the flags of `flags` are all set (BCS, BEQ, BMI, BVS)
pub fn if_set<M: Memory>(cpu: &mut Mos6502<M>, op: Operand, flags: Flags) -> (r: ExecResult)
    requires
        old(cpu)@.room(2),
    ensures
        (final(cpu)@, r) == branch_spec(old(cpu)@, op, flags_set(old(cpu)@.p, flags)),
{
    if let Operand::Offset(offset) = op {
        if cpu.flags.intersects(flags) {
            let target = calc_target_and_tick_clock(cpu, offset);
            cpu.pc.set(target);
        }
        Ok(())
    } else {
        Err(ExecError::IllegalOperand)
    }
}

/// The branch target as an unbounded sum of the program counter and the
/// offset, kept in a `u64`: a sum below zero wraps around at 64 bits
pub open spec fn raw_branch_target(pc: u16, offset: i8) -> int {
    if pc + offset < 0 {
        pc + offset + 0x1_0000_0000_0000_0000
    } else {
        pc + offset
    }
}

/// Computes the branch target and charges the cycles of a taken branch: one,
/// or two when the target lies on another page. The program counter is left
/// where it is; the target keeps the sum unwrapped.
fn calc_target_and_tick_clock<M: Memory>(cpu: &mut Mos6502<M>, offset: i8) -> (target: u64)
    requires
        old(cpu)@.room(2),
    ensures
        target == raw_branch_target(old(cpu)@.pc, offset),
        target % 0x1_0000 == branch_target(old(cpu)@.pc, offset),
        final(cpu)@.pc == old(cpu)@.pc,
        final(cpu)@.with_pc(target as int) == branch_taken(old(cpu)@, offset),
{
    // Check if we're jumping pages
    let current = cpu.pc.get();
    let sum: i64 = current as i64 + offset as i64;
    let target: u64 = if sum < 0 {
        (0xFFFF_FFFF_FFFF_FFFFu64 - ((-1 - sum) as u64))
    } else {
        sum as u64
    };
    let same_page = if sum < 0 {
        // The target's second byte is 0xFF, the page of a program counter
        // below 0x80 is 0x00
        false
    } else {
        current / 256 == target / 256
    };
    if same_page {
        cpu.clock.tick(1);
    } else {
        cpu.clock.tick(2);
    }
    target
}

} // verus!
