use vstd::prelude::*;
use crate::cpu::{CpuView, Mos6502};
use crate::exec::{push_outcome, ExecError, ExecResult, Outcome};
use crate::flags::Flags;
use crate::mem::{cell_read_le_u16, Memory};

verus! {

/// The address of the interrupt vector that BRK jumps through
pub const IRQ_VECTOR: u64 = 0xFFFE;

/// What BRK does: the program counter moves past the padding byte and is
/// pushed, high byte first; the status register is pushed with BREAK set;
/// then the program counter takes the address stored at the interrupt vector
pub open spec fn brk_spec(s: CpuView) -> Outcome {
    let s1 = s.with_pc(s.pc + 1);
    let pc = s1.pc;
    match push_outcome(s1, (pc / 256) as u8) {
        None => None,
        Some((s2, Err(e))) => Some((s2, Err(e))),
        Some((s2, Ok(_))) => match push_outcome(s2, (pc % 256) as u8) {
            None => None,
            Some((s3, Err(e))) => Some((s3, Err(e))),
            Some((s3, Ok(_))) => match push_outcome(s3, s3.p | 0b0001_0000) {
                None => None,
                Some((s4, Err(e))) => Some((s4, Err(e))),
                Some((s4, Ok(_))) => match cell_read_le_u16(s4.mem, IRQ_VECTOR) {
                    Err(e) => Some((s4, Err(ExecError::ErrorReadingMemory(e)))),
                    Ok(v) => Some((s4.with_pc(v as int), Ok(()))),
                },
            },
        },
    }
}

pub fn exec<M: Memory>(cpu: &mut Mos6502<M>) -> (r: ExecResult)
    requires
        brk_spec(old(cpu)@) is Some,
    ensures
        brk_spec(old(cpu)@) == Some((final(cpu)@, r)),
{
    cpu.pc.advance(1);
    let pc = cpu.pc.get();
    match cpu.push((pc / 256) as u8) {
        Ok(()) => {},
        Err(e) => return Err(ExecError::from(e)),
    }
    match cpu.push((pc % 256) as u8) {
        Ok(()) => {},
        Err(e) => return Err(ExecError::from(e)),
    }
    let new_flags = cpu.flags | Flags::BREAK();
    match cpu.push(new_flags.bits) {
        Ok(()) => {},
        Err(e) => return Err(ExecError::from(e)),
    }
    let target = match cpu.mem.get_le_u16(IRQ_VECTOR) {
        Ok(v) => v,
        Err(e) => return Err(ExecError::from(e)),
    };
    cpu.pc.set(target as u64);
    Ok(())
}

} // verus!
